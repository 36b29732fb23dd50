//! Direct exercises of the user store and the identity-provider client.

use auth_backend::auth::{Backend, BackendError};
use auth_backend::provider::ProviderClient;
use auth_backend::store::UserStore;
use auth_backend::user::NewUser;

fn provider() -> ProviderClient {
    ProviderClient::from_config(
        "client-id",
        "client-secret",
        "https://accounts.example.com/o/oauth2/v2/auth",
        "https://oauth2.example.com/token",
        "http://localhost:3000/oauth/callback",
    )
    .expect("the configured URLs parse")
}

#[test]
fn a_new_store_is_empty() {
    let store = UserStore::new();
    assert_eq!(store.len(), 0);
    assert!(store.find_by_id(&"anything".to_string()).is_none());
}

#[test]
fn create_and_find_by_id() {
    let mut store = UserStore::new();
    let row = NewUser { id: "u1", email: "a@b.com", access_token: "tok", name: "A" };
    let created = store.create_user(&row).expect("a fresh identifier inserts");
    assert_eq!(created.id, "u1");
    assert_eq!(created.email, "a@b.com");
    assert_eq!(created.name.as_deref(), Some("A"));
    assert_eq!(created.access_token, "tok");
    assert_eq!(store.len(), 1);
    let found = store.find_by_id(&"u1".to_string()).expect("the record is found");
    assert_eq!(found.email, "a@b.com");
}

#[test]
fn duplicate_identifier_is_the_database_error() {
    let mut store = UserStore::new();
    let row = NewUser { id: "u1", email: "a@b.com", access_token: "tok", name: "A" };
    store.create_user(&row).expect("a fresh identifier inserts");
    let again = NewUser { id: "u1", email: "x@y.com", access_token: "tok2", name: "X" };
    match store.create_user(&again) {
        Err(BackendError::Database) => {},
        _ => panic!("a duplicate identifier is the store's constraint violation"),
    }
    assert_eq!(store.len(), 1);
    let kept = store.find_by_id(&"u1".to_string()).expect("the first record is kept");
    assert_eq!(kept.email, "a@b.com");
}

#[test]
fn authorize_url_embeds_a_fresh_state_token() {
    let b = Backend::new(UserStore::new(), provider());
    let (url, csrf) = b.authorize_url();
    assert!(!csrf.is_empty());
    assert!(url.starts_with("https://accounts.example.com/o/oauth2/v2/auth"));
    assert!(url.contains("state="));
    assert!(url.contains(&csrf));
    assert!(url.contains("userinfo.profile"));
    assert!(url.contains("userinfo.email"));
    let (_, csrf2) = b.authorize_url();
    assert_ne!(csrf, csrf2);
}

#[test]
fn a_malformed_endpoint_url_yields_no_client() {
    let client = ProviderClient::from_config(
        "client-id",
        "client-secret",
        "not a url",
        "https://oauth2.example.com/token",
        "http://localhost:3000/oauth/callback",
    );
    assert!(client.is_none());
}
