//! The application's configuration, as read from its environment by the
//! caller that owns process startup.
use vstd::prelude::*;

verus! {

/// The OAuth application settings the login flow needs.
#[derive(Debug, PartialEq, Eq)]
pub struct Environment {
    pub application_id: String,
    pub application_secret: String,
    pub application_redirection_link: String,
    pub application_scope: String,
}

} // verus!
