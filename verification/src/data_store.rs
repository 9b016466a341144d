//! Storage of the login-request correlation id and the bearer token: one
//! slot per field, a store overwrites unconditionally, and a retrieval
//! before any store fails rather than hand out a default value.
use crate::errors::ApiError;
use vstd::prelude::*;

verus! {

/// The store the login flow writes and every authenticated operation reads.
pub trait DataStore: Sized {
    /// The login-request id currently held, if any.
    spec fn login_request_id_view(&self) -> Option<Seq<char>>;

    /// The bearer token currently held, if any.
    spec fn auth_token_view(&self) -> Option<Seq<char>>;

    fn store_login_request_id(&mut self, login_request_id: String)
        ensures
            final(self).login_request_id_view() == Some(login_request_id@),
            final(self).auth_token_view() == old(self).auth_token_view(),
    ;

    fn retrieve_login_request_id(&self) -> (r: Result<String, ApiError>)
        ensures
            match self.login_request_id_view() {
                Some(v) => (r matches Ok(s) && s@ == v),
                None => (r matches Err(e) && e is NotInitialized),
            },
    ;

    fn store_auth_token(&mut self, auth_token: String)
        ensures
            final(self).auth_token_view() == Some(auth_token@),
            final(self).login_request_id_view() == old(self).login_request_id_view(),
    ;

    fn retrieve_auth_token(&self) -> (r: Result<String, ApiError>)
        ensures
            match self.auth_token_view() {
                Some(v) => (r matches Ok(s) && s@ == v),
                None => (r matches Err(e) && e is NotInitialized),
            },
    ;
}

} // verus!
