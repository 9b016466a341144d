//! The authenticated user's account record, and the verified parsing of the
//! identity endpoint's response.
use crate::errors::ApiError;
use crate::json::field_str;
use crate::json::spec_field_str;
use crate::json::JsonValue;
use vstd::prelude::*;
use vstd::string::StringExecFns;

verus! {

/// The authenticated user, as the identity endpoint describes it; `url` is
/// the path under which the user's own listings live.
#[derive(Debug, PartialEq, Eq)]
pub struct User {
    pub id: String,
    pub oauth_client_id: String,
    pub name: String,
    pub display_name: String,
    pub display_name_prefixed: String,
    pub url: String,
}

/// The mathematical content of a `User`.
pub struct UserView {
    pub id: Seq<char>,
    pub oauth_client_id: Seq<char>,
    pub name: Seq<char>,
    pub display_name: Seq<char>,
    pub display_name_prefixed: Seq<char>,
    pub url: Seq<char>,
}

impl View for User {
    type V = UserView;

    open spec fn view(&self) -> UserView {
        UserView {
            id: self.id@,
            oauth_client_id: self.oauth_client_id@,
            name: self.name@,
            display_name: self.display_name@,
            display_name_prefixed: self.display_name_prefixed@,
            url: self.url@,
        }
    }
}

/// The user an identity response describes, when the body has the expected
/// shape: `id` and `oauth_client_id` at the top, and the four profile fields
/// under the `subreddit` object.
pub open spec fn spec_parse_user(v: JsonValue) -> Option<UserView> {
    match spec_field_str(v, "id"@) {
        None => None,
        Some(id) => match spec_field_str(v, "oauth_client_id"@) {
            None => None,
            Some(cid) => match v.spec_get("subreddit"@) {
                None => None,
                Some(sub) => match spec_field_str(sub, "name"@) {
                    None => None,
                    Some(name) => match spec_field_str(sub, "display_name"@) {
                        None => None,
                        Some(dn) => match spec_field_str(sub, "display_name_prefixed"@) {
                            None => None,
                            Some(dnp) => match spec_field_str(sub, "url"@) {
                                None => None,
                                Some(url) => Some(
                                    UserView {
                                        id: id,
                                        oauth_client_id: cid,
                                        name: name,
                                        display_name: dn,
                                        display_name_prefixed: dnp,
                                        url: url,
                                    },
                                ),
                            },
                        },
                    },
                },
            },
        },
    }
}

/// Parse the identity endpoint's response; a missing or ill-typed field is a
/// malformed response.
pub fn parse_user(v: &JsonValue) -> (r: Result<User, ApiError>)
    ensures
        match r {
            Ok(u) => spec_parse_user(*v) == Some(u@),
            Err(e) => spec_parse_user(*v) is None && e is MalformedResponse,
        },
{
    let id = match field_str(v, "id") {
        Some(s) => s.clone(),
        None => {
            return Err(
                ApiError::MalformedResponse {
                    context: String::from_str("identity body without an id"),
                },
            );
        },
    };
    let oauth_client_id = match field_str(v, "oauth_client_id") {
        Some(s) => s.clone(),
        None => {
            return Err(
                ApiError::MalformedResponse {
                    context: String::from_str("identity body without an oauth client id"),
                },
            );
        },
    };
    let sub = match v.get("subreddit") {
        Some(s) => s,
        None => {
            return Err(
                ApiError::MalformedResponse {
                    context: String::from_str("identity body without a subreddit object"),
                },
            );
        },
    };
    let name = match field_str(sub, "name") {
        Some(s) => s.clone(),
        None => {
            return Err(
                ApiError::MalformedResponse {
                    context: String::from_str("identity body without a profile name"),
                },
            );
        },
    };
    let display_name = match field_str(sub, "display_name") {
        Some(s) => s.clone(),
        None => {
            return Err(
                ApiError::MalformedResponse {
                    context: String::from_str("identity body without a display name"),
                },
            );
        },
    };
    let display_name_prefixed = match field_str(sub, "display_name_prefixed") {
        Some(s) => s.clone(),
        None => {
            return Err(
                ApiError::MalformedResponse {
                    context: String::from_str("identity body without a prefixed display name"),
                },
            );
        },
    };
    let url = match field_str(sub, "url") {
        Some(s) => s.clone(),
        None => {
            return Err(
                ApiError::MalformedResponse {
                    context: String::from_str("identity body without a profile url"),
                },
            );
        },
    };
    Ok(User { id, oauth_client_id, name, display_name, display_name_prefixed, url })
}

} // verus!
