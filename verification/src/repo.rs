//! The repository record, its extraction from a JSON document, and the
//! resolver that classifies one upstream response.

use vstd::prelude::*;
use vstd::string::StringExecFns;

use crate::error::FetchError;
use crate::json::JsonNode;
use crate::json::parse_document;
use crate::json::spec_get_bool;
use crate::json::spec_get_str;
use crate::json::spec_get_u64;
use crate::json::spec_json_parses;
use crate::json::spec_json_tree;
use crate::json::spec_owner_login;

verus! {

/// The normalized repository record: the sole domain entity.
///
/// Either fully well-formed or absent; it is created solely by a successful
/// extraction from one upstream JSON document and never mutated.
#[derive(Debug, PartialEq, Eq)]
pub struct Repository {
    /// The owner or organization this repository belongs to.
    pub username: String,
    /// The name of this repository.
    pub name: String,
    /// Repository description.
    pub description: String,
    /// The language this project is written in; absent when the upstream
    /// reports no primary language (documentation-only repositories).
    pub language: Option<String>,
    /// The amount of stars this project has.
    pub stars: u64,
    /// The amount of forks this project has.
    pub forks: u64,
    /// Set to true if this repository is archived.
    pub is_archived: bool,
}

/// Mathematical image of a `Repository`: its strings as character sequences.
pub struct RepositoryView {
    pub username: Seq<char>,
    pub name: Seq<char>,
    pub description: Seq<char>,
    pub language: Option<Seq<char>>,
    pub stars: u64,
    pub forks: u64,
    pub is_archived: bool,
}

impl View for Repository {
    type V = RepositoryView;

    open spec fn view(&self) -> RepositoryView {
        RepositoryView {
            username: self.username@,
            name: self.name@,
            description: self.description@,
            language: match self.language {
                Some(s) => Some(s@),
                None => None,
            },
            stars: self.stars,
            forks: self.forks,
            is_archived: self.is_archived,
        }
    }
}

/// The record a JSON document describes, when it describes one: the document
/// must be an object, and each required field present with the right type;
/// only `language` may be absent. An empty `owner.login` or `name` would
/// break the record's invariant (both are non-empty), so such a document
/// describes no record.
pub open spec fn spec_from_json(json: JsonNode) -> Option<RepositoryView> {
    if !(json is Object) {
        None
    } else {
        match (spec_owner_login(json), spec_get_str(json, "name"@), spec_get_str(json,
        "description"@)) {
            (Some(username), Some(name), Some(description)) => {
                if username.len() == 0 || name.len() == 0 {
                    None
                } else {
                    match (spec_get_u64(json, "stargazers_count"@), spec_get_u64(json, "forks"@),
                    spec_get_bool(json, "archived"@)) {
                        (Some(stars), Some(forks), Some(is_archived)) => {
                            Some(RepositoryView {
                                username,
                                name,
                                description,
                                language: spec_get_str(json, "language"@),
                                stars,
                                forks,
                                is_archived,
                            })
                        },
                        _ => None,
                    }
                }
            },
            _ => None,
        }
    }
}

impl Repository {
    /// Attempts to extract a `Repository` from a JSON document.
    ///
    /// Yields `None` exactly when the document is not an object, one of
    /// the required fields (`owner.login`, `name`, `description`,
    /// `stargazers_count`, `forks`, `archived`) is missing or mistyped,
    /// or `owner.login` or `name` is empty; a missing `language` is valid
    /// and becomes `None` in the record.
    pub fn from_json(json: JsonNode) -> (r: Option<Self>)
        ensures
            match r {
                Some(repo) => spec_from_json(json) == Some(repo@),
                None => spec_from_json(json) is None,
            },
    {
        if !json.is_object() {
            return None;
        }
        let username = match json.get_owner() {
            Some(v) => v,
            None => {
                return None;
            },
        };
        if username.as_str().is_empty() {
            return None;
        }
        let name = match json.get_str("name") {
            Some(v) => v,
            None => {
                return None;
            },
        };
        if name.as_str().is_empty() {
            return None;
        }
        let description = match json.get_str("description") {
            Some(v) => v,
            None => {
                return None;
            },
        };
        let language = json.get_str("language");
        let stars = match json.get_u64("stargazers_count") {
            Some(v) => v,
            None => {
                return None;
            },
        };
        let forks = match json.get_u64("forks") {
            Some(v) => v,
            None => {
                return None;
            },
        };
        let is_archived = match json.get_bool("archived") {
            Some(v) => v,
            None => {
                return None;
            },
        };
        Some(Repository { username, name, description, language, stars, forks, is_archived })
    }
}

/// The upstream resource URL for a repository: `username` and `repository`
/// substituted verbatim into the fixed path template. Empty segments pass
/// through unchanged (the upstream then answers 404); this layer performs
/// no escaping or validation.
pub fn build_repos_url(username: &str, repository: &str) -> (r: String)
    ensures
        r@ == "https://api.github.com/repos/"@ + username@ + "/"@ + repository@,
{
    let mut url = String::from_str("https://api.github.com/repos/");
    url.append(username);
    url.append("/");
    url.append(repository);
    url
}

/// Whether an upstream HTTP status counts as success.
pub open spec fn spec_status_success(status: u16) -> bool {
    200 <= status < 300
}

/// Classifies one upstream response and extracts the repository record.
///
/// A non-success status is an upstream failure and short-circuits before
/// the body is parsed. On success, a body that is not valid JSON is a
/// decoding failure; a valid JSON document that does not describe a
/// repository (not an object, or a required field missing, mistyped or
/// empty) is a schema failure; otherwise the record the body's tree
/// describes — exactly that one — is returned.
pub fn resolve_response(status: u16, body: &str) -> (r: Result<Repository, FetchError>)
    ensures
        !spec_status_success(status) ==> r == Err::<Repository, FetchError>(
            FetchError::UpstreamFailure(status),
        ),
        spec_status_success(status) && !spec_json_parses(body@) ==> r == Err::<
            Repository,
            FetchError,
        >(FetchError::DecodingFailure),
        spec_status_success(status) && spec_json_parses(body@) ==> match r {
            Ok(repo) => spec_from_json(spec_json_tree(body@)->Some_0) == Some(repo@),
            Err(e) => e == FetchError::SchemaFailure && spec_from_json(
                spec_json_tree(body@)->Some_0,
            ) is None,
        },
{
    if !(200 <= status && status < 300) {
        return Err(FetchError::UpstreamFailure(status));
    }
    let node = match parse_document(body) {
        Some(n) => n,
        None => {
            return Err(FetchError::DecodingFailure);
        },
    };
    match Repository::from_json(node) {
        Some(repo) => Ok(repo),
        None => Err(FetchError::SchemaFailure),
    }
}

} // verus!
