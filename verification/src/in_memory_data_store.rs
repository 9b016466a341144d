//! The in-memory data store: one process-lifetime cell per field.
use crate::data_store::DataStore;
use crate::errors::ApiError;
use crate::strings::opt_str_view;
use vstd::prelude::*;

verus! {

/// In-memory store of the login-request id and the bearer token.
pub struct InMemoryDataStore {
    login_request_id: Option<String>,
    auth_token: Option<String>,
}

impl InMemoryDataStore {
    /// A fresh store: nothing held yet, so every retrieval fails.
    pub fn new() -> (r: InMemoryDataStore)
        ensures
            r.login_request_id_view() is None,
            r.auth_token_view() is None,
    {
        InMemoryDataStore { login_request_id: None, auth_token: None }
    }
}

impl DataStore for InMemoryDataStore {
    closed spec fn login_request_id_view(&self) -> Option<Seq<char>> {
        opt_str_view(self.login_request_id)
    }

    closed spec fn auth_token_view(&self) -> Option<Seq<char>> {
        opt_str_view(self.auth_token)
    }

    fn store_login_request_id(&mut self, login_request_id: String) {
        self.login_request_id = Some(login_request_id);
    }

    fn retrieve_login_request_id(&self) -> (r: Result<String, ApiError>) {
        match &self.login_request_id {
            Some(s) => Ok(s.clone()),
            None => Err(ApiError::NotInitialized),
        }
    }

    fn store_auth_token(&mut self, auth_token: String) {
        self.auth_token = Some(auth_token);
    }

    fn retrieve_auth_token(&self) -> (r: Result<String, ApiError>) {
        match &self.auth_token {
            Some(s) => Ok(s.clone()),
            None => Err(ApiError::NotInitialized),
        }
    }
}

} // verus!
