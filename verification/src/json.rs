//! An untyped JSON tree and the schema-extraction accessors over it.
//!
//! Every accessor is total: a missing key or a field of the wrong JSON type
//! yields `None`, never a panic or an error. The resolver alone decides
//! which absences are fatal.

use vstd::prelude::*;
use vstd::string::StringExecFns;

verus! {

/// One node of an untyped JSON document.
///
/// Numbers are kept only as far as this library reads them: a number that
/// fits in `u64` is held exactly, any other number (negative, fractional,
/// out of range) is `OtherNumber`, which no accessor extracts.
/// An object is a list of key/value bindings; a parsed document carries
/// them in the order the parser's map yields them, one binding per key.
/// Lookup takes the first binding of a key.
pub enum JsonNode {
    Null,
    Bool(bool),
    UInt(u64),
    OtherNumber,
    Str(String),
    Array(Vec<JsonNode>),
    Object(Vec<(String, JsonNode)>),
}

/// First binding of `key` among `entries`, scanning front to back.
pub open spec fn spec_entries_lookup(entries: Seq<(String, JsonNode)>, key: Seq<char>) -> Option<
    JsonNode,
>
    decreases entries.len(),
{
    if entries.len() == 0 {
        None
    } else if entries[0].0@ == key {
        Some(entries[0].1)
    } else {
        spec_entries_lookup(entries.skip(1), key)
    }
}

/// Value of field `key` of `n`: `None` unless `n` is an object with that key.
pub open spec fn spec_lookup(n: JsonNode, key: Seq<char>) -> Option<JsonNode> {
    match n {
        JsonNode::Object(entries) => spec_entries_lookup(entries@, key),
        _ => None,
    }
}

/// String value of field `key`: `None` when absent or not a string.
pub open spec fn spec_get_str(n: JsonNode, key: Seq<char>) -> Option<Seq<char>> {
    match spec_lookup(n, key) {
        Some(JsonNode::Str(s)) => Some(s@),
        _ => None,
    }
}

/// Unsigned-integer value of field `key`: `None` when absent or not such a number.
pub open spec fn spec_get_u64(n: JsonNode, key: Seq<char>) -> Option<u64> {
    match spec_lookup(n, key) {
        Some(JsonNode::UInt(u)) => Some(u),
        _ => None,
    }
}

/// Boolean value of field `key`: `None` when absent or not a boolean.
pub open spec fn spec_get_bool(n: JsonNode, key: Seq<char>) -> Option<bool> {
    match spec_lookup(n, key) {
        Some(JsonNode::Bool(b)) => Some(b),
        _ => None,
    }
}

/// The `login` string inside the nested `owner` object: `None` when either
/// level is missing or malformed.
pub open spec fn spec_owner_login(n: JsonNode) -> Option<Seq<char>> {
    match spec_lookup(n, "owner"@) {
        Some(owner) => spec_get_str(owner, "login"@),
        None => None,
    }
}

/// Skipping a prefix none of whose keys is `key` does not change the lookup.
proof fn lemma_entries_lookup_skip(entries: Seq<(String, JsonNode)>, key: Seq<char>, i: int)
    requires
        0 <= i <= entries.len(),
        forall|j: int| 0 <= j < i ==> #[trigger] entries[j].0@ != key,
    ensures
        spec_entries_lookup(entries, key) == spec_entries_lookup(entries.skip(i), key),
    decreases i,
{
    if i > 0 {
        assert(entries[0].0@ != key);
        assert forall|j: int| 0 <= j < i - 1 implies #[trigger] entries.skip(1)[j].0@ != key by {
            assert(entries.skip(1)[j] == entries[j + 1]);
        }
        lemma_entries_lookup_skip(entries.skip(1), key, i - 1);
        assert(entries.skip(1).skip(i - 1) =~= entries.skip(i));
    } else {
        assert(entries.skip(0) =~= entries);
    }
}

impl JsonNode {
    /// Whether this node is a JSON object.
    pub fn is_object(&self) -> (r: bool)
        ensures
            r == (self is Object),
    {
        match self {
            JsonNode::Object(_) => true,
            _ => false,
        }
    }

    /// Field lookup: the value bound to `key`, or `None` when this node is
    /// not an object or has no such key.
    pub fn get<'a>(&'a self, key: &str) -> (r: Option<&'a JsonNode>)
        ensures
            match r {
                Some(v) => spec_lookup(*self, key@) == Some(*v),
                None => spec_lookup(*self, key@) is None,
            },
    {
        match self {
            JsonNode::Object(entries) => {
                let k = String::from_str(key);
                let mut i: usize = 0;
                while i < entries.len()
                    invariant
                        i <= entries.len(),
                        k@ == key@,
                        spec_lookup(*self, key@) == spec_entries_lookup(entries@, key@),
                        forall|j: int| 0 <= j < i ==> #[trigger] entries@[j].0@ != key@,
                    decreases entries.len() - i,
                {
                    if entries[i].0 == k {
                        proof {
                            lemma_entries_lookup_skip(entries@, key@, i as int);
                            assert(entries@.skip(i as int)[0] == entries@[i as int]);
                        }
                        return Some(&entries[i].1);
                    }
                    i += 1;
                }
                proof {
                    lemma_entries_lookup_skip(entries@, key@, i as int);
                }
                None
            },
            _ => None,
        }
    }

    /// The `login` string of the nested `owner` object.
    pub fn get_owner(&self) -> (r: Option<String>)
        ensures
            match r {
                Some(s) => spec_owner_login(*self) == Some(s@),
                None => spec_owner_login(*self) is None,
            },
    {
        let owner = match self.get("owner") {
            Some(owner) => owner,
            None => {
                return None;
            },
        };
        owner.get_str("login")
    }

    /// String field accessor: clones the string bound to `name`.
    pub fn get_str(&self, name: &str) -> (r: Option<String>)
        ensures
            match r {
                Some(s) => spec_get_str(*self, name@) == Some(s@),
                None => spec_get_str(*self, name@) is None,
            },
    {
        match self.get(name) {
            Some(JsonNode::Str(s)) => Some(s.clone()),
            _ => None,
        }
    }

    /// Unsigned-integer field accessor.
    pub fn get_u64(&self, name: &str) -> (r: Option<u64>)
        ensures
            r == spec_get_u64(*self, name@),
    {
        match self.get(name) {
            Some(JsonNode::UInt(u)) => Some(*u),
            _ => None,
        }
    }

    /// Boolean field accessor.
    pub fn get_bool(&self, name: &str) -> (r: Option<bool>)
        ensures
            r == spec_get_bool(*self, name@),
    {
        match self.get(name) {
            Some(JsonNode::Bool(b)) => Some(*b),
            _ => None,
        }
    }
}

/// Declares serde_json's value type so the parse wrappers below can carry
/// it; the verifier sees nothing inside a value of it.
#[verifier::external_type_specification]
#[verifier::external_body]
pub struct ExValue(serde_json::Value);

/// The tree a body parses to: `Some` exactly when the body is
/// syntactically valid JSON. Names the parser's result, which depends on
/// the body alone.
pub uninterp spec fn spec_json_tree(body: Seq<char>) -> Option<JsonNode>;

/// Whether a body is syntactically valid JSON, as the parser decides it.
pub open spec fn spec_json_parses(body: Seq<char>) -> bool {
    spec_json_tree(body) is Some
}

/// Relies on serde_json's Value tree: each variant of the parsed document
/// is carried over one-for-one, a number as its u64 value where it has
/// one. The conversion step of `parse_value` below, its only caller.
#[verifier::external_body]
fn node_of_value(v: serde_json::Value) -> JsonNode {
    match v {
        serde_json::Value::Null => JsonNode::Null,
        serde_json::Value::Bool(b) => JsonNode::Bool(b),
        serde_json::Value::Number(n) => n.as_u64().map_or(JsonNode::OtherNumber, JsonNode::UInt),
        serde_json::Value::String(s) => JsonNode::Str(s),
        serde_json::Value::Array(a) => JsonNode::Array(a.into_iter().map(node_of_value).collect()),
        serde_json::Value::Object(m) => JsonNode::Object(
            m.into_iter().map(|p| (p.0, node_of_value(p.1))).collect(),
        ),
    }
}

/// Relies on serde_json::from_str: parsing succeeds exactly when the body
/// is syntactically valid JSON, and both success and the parsed tree are a
/// function of the body alone; `node_of_value` carries the tree over.
#[verifier::external_body]
fn parse_value(body: &str) -> (r: Option<JsonNode>)
    ensures
        r == spec_json_tree(body@),
{
    serde_json::from_str(body).ok().map(node_of_value)
}

/// Parses a response body into a JSON tree: yields exactly the tree the
/// body describes when the body is syntactically valid JSON, and nothing
/// otherwise.
pub fn parse_document(body: &str) -> (r: Option<JsonNode>)
    ensures
        r == spec_json_tree(body@),
{
    parse_value(body)
}

/// On a node that is not an object, every accessor yields `None` rather
/// than failing: field lookup, and the string, integer and boolean
/// extractions, as well as the owner-login descent.
pub proof fn lemma_non_object_accessors(n: JsonNode, key: Seq<char>)
    requires
        !(n is Object),
    ensures
        spec_lookup(n, key) is None,
        spec_get_str(n, key) is None,
        spec_get_u64(n, key) is None,
        spec_get_bool(n, key) is None,
        spec_owner_login(n) is None,
{
}

/// When the `owner` field is missing, or bound to anything but an object,
/// the owner-login extraction yields nothing.
pub proof fn lemma_owner_login_absent(n: JsonNode)
    requires
        spec_lookup(n, "owner"@) is None || !(spec_lookup(n, "owner"@)->Some_0 is Object),
    ensures
        spec_owner_login(n) is None,
{
}

/// When `owner` is present and its `login` field is a string, the
/// owner-login extraction yields exactly that string.
pub proof fn lemma_owner_login_present(n: JsonNode, owner: JsonNode, login: String)
    requires
        spec_lookup(n, "owner"@) == Some(owner),
        spec_lookup(owner, "login"@) == Some(JsonNode::Str(login)),
    ensures
        spec_owner_login(n) == Some(login@),
{
}

} // verus!
