use subreddit_posts_logic::data_store::DataStore;
use subreddit_posts_logic::errors::ApiError;
use subreddit_posts_logic::in_memory_data_store::InMemoryDataStore;

#[test]
fn retrieval_before_any_store_fails() {
    let store = InMemoryDataStore::new();
    assert_eq!(store.retrieve_login_request_id(), Err(ApiError::NotInitialized));
    assert_eq!(store.retrieve_auth_token(), Err(ApiError::NotInitialized));
}

#[test]
fn a_store_overwrites_the_previous_value() {
    let mut store = InMemoryDataStore::new();
    store.store_login_request_id(String::from("rid-1"));
    assert_eq!(store.retrieve_login_request_id(), Ok(String::from("rid-1")));
    store.store_login_request_id(String::from("rid-2"));
    assert_eq!(store.retrieve_login_request_id(), Ok(String::from("rid-2")));
}

#[test]
fn the_two_fields_are_independent() {
    let mut store = InMemoryDataStore::new();
    store.store_auth_token(String::from("token-1"));
    assert_eq!(store.retrieve_auth_token(), Ok(String::from("token-1")));
    assert_eq!(store.retrieve_login_request_id(), Err(ApiError::NotInitialized));
}

#[test]
fn error_labels() {
    assert_eq!(ApiError::NotInitialized.label(), "not initialized");
    assert_eq!(ApiError::UnsupportedPostType.label(), "unsupported post type");
    let transport = ApiError::TransportFailure {
        url: String::from("https://example.test"),
        status: 503,
        body: String::from("gone"),
    };
    assert_eq!(transport.label(), "transport failure");
    let malformed = ApiError::MalformedResponse { context: String::from("x") };
    assert_eq!(malformed.label(), "malformed response");
}
