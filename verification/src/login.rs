//! The verified pieces of the login flow: the authorization URL, the token
//! exchange payload, and the check of the login callback against the stored
//! request id.
use crate::environment::Environment;
use crate::errors::ApiError;
use crate::strings::str_eq;
use vstd::prelude::*;
use vstd::string::StringExecFns;

verus! {

/// The payload of the exchange of an authorization code for a token.
#[derive(Debug, PartialEq, Eq)]
pub struct NetworkData {
    pub grant_type: String,
    pub code: String,
    pub redirect_uri: String,
}

impl NetworkData {
    /// The exchange request for one authorization code.
    pub fn new(code: &str, redirect_uri: &str) -> (r: NetworkData)
        ensures
            r.grant_type@ == "authorization_code"@,
            r.code@ == code@,
            r.redirect_uri@ == redirect_uri@,
    {
        NetworkData {
            grant_type: String::from_str("authorization_code"),
            code: String::from_str(code),
            redirect_uri: String::from_str(redirect_uri),
        }
    }
}

/// The query parameters of the login callback.
#[derive(Debug, PartialEq, Eq)]
pub struct Params {
    pub error: Option<String>,
    pub code: Option<String>,
    pub state: Option<String>,
}

/// The authorization URL for the given settings and request id.
pub open spec fn spec_login_url(
    app_id: Seq<char>,
    request_id: Seq<char>,
    redirect: Seq<char>,
    scope: Seq<char>,
) -> Seq<char> {
    "https://www.reddit.com/api/v1/authorize?client_id="@ + app_id + "&response_type=code&state="@
        + request_id + "&redirect_uri="@ + redirect + "&duration=temporary&scope="@ + scope
}

/// Build the authorization URL the browser is sent to, with a temporary
/// grant and the application's id, redirect link and scope filled in.
pub fn login_url(settings: &Environment, login_request_id: &str) -> (r: String)
    ensures
        r@ == spec_login_url(
            settings.application_id@,
            login_request_id@,
            settings.application_redirection_link@,
            settings.application_scope@,
        ),
{
    let mut url = String::from_str("https://www.reddit.com/api/v1/authorize?client_id=");
    url.append(settings.application_id.as_str());
    url.append("&response_type=code&state=");
    url.append(login_request_id);
    url.append("&redirect_uri=");
    url.append(settings.application_redirection_link.as_str());
    url.append("&duration=temporary&scope=");
    url.append(settings.application_scope.as_str());
    proof {
        assert(url@ =~= spec_login_url(
            settings.application_id@,
            login_request_id@,
            settings.application_redirection_link@,
            settings.application_scope@,
        ));
    }
    url
}

/// Check a login callback: its state must exist and equal the stored
/// login-request id, and it must carry a code, which is returned.
pub fn validate_login_callback(params: &Params, stored_login_request_id: &str) -> (r: Result<
    String,
    ApiError,
>)
    ensures
        match r {
            Ok(code) => {
                &&& (params.state matches Some(st) && st@ == stored_login_request_id@)
                &&& (params.code matches Some(c) && c == code)
            },
            Err(e) => {
                &&& e is MalformedResponse
                &&& !((params.state matches Some(st) && st@ == stored_login_request_id@)
                    && params.code is Some)
            },
        },
{
    let st = match &params.state {
        Some(s) => s,
        None => {
            return Err(
                ApiError::MalformedResponse {
                    context: String::from_str("login callback without a state"),
                },
            );
        },
    };
    if !str_eq(st.as_str(), stored_login_request_id) {
        return Err(
            ApiError::MalformedResponse {
                context: String::from_str("login callback state differs from the request id"),
            },
        );
    }
    match &params.code {
        Some(c) => Ok(c.clone()),
        None => Err(
            ApiError::MalformedResponse {
                context: String::from_str("login callback without a code"),
            },
        ),
    }
}

} // verus!
