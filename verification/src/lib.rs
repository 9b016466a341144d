//! Verified core of a bulk content-operations client for a REST content
//! platform: token storage, cursor-driven listing enumeration with a
//! duplicate-cursor guard, post-submission response parsing, and the
//! protected-id guard used by bulk deletion.
use vstd::prelude::*;

pub mod comment;
pub mod data_store;
pub mod environment;
pub mod errors;
pub mod flairs;
pub mod in_memory_data_store;
pub mod json;
pub mod listing;
pub mod login;
pub mod media;
pub mod post;
pub mod reddit_client;
pub mod strings;
pub mod user;

verus! {

/// Bearer-token response of the login flow, as the platform returns it.
#[derive(Debug, Clone, PartialEq, Eq)]
pub struct AuthToken {
    pub access_token: String,
    pub token_type: String,
    pub expires_in: u32,
    pub scope: String,
    pub refresh_token: Option<String>,
}

} // verus!
