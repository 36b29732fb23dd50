//! End-to-end exercises of the authentication backend: the CSRF gate, the
//! full authorization-code flow, lookup, and the error paths.

use auth_backend::auth::{Backend, BackendError, Credentials, FlowState, UserInfo};
use auth_backend::provider::ProviderClient;
use auth_backend::store::UserStore;

fn provider() -> ProviderClient {
    ProviderClient::from_config(
        "client-id",
        "client-secret",
        "https://accounts.example.com/o/oauth2/v2/auth",
        "https://oauth2.example.com/token",
        "http://localhost:3000/oauth/callback",
    )
    .expect("the configured URLs parse")
}

fn backend() -> Backend {
    Backend::new(UserStore::new(), provider())
}

/// Drive one complete, successful login through the three steps.
fn run_valid_flow(backend: &mut Backend, code: &str, state: &str, email: &str, name: &str) -> FlowState {
    let creds = Credentials {
        code: code.to_string(),
        old_state: state.to_string(),
        new_state: state.to_string(),
    };
    let flow = backend.authenticate_callback(creds);
    let code_out = match flow {
        FlowState::Validated { code } => code,
        _ => panic!("matching states must validate"),
    };
    assert_eq!(code_out, code);
    let flow = backend.authenticate_token(Some("access-token".to_string()));
    let token = match flow {
        FlowState::TokenExchanged { access_token } => access_token,
        _ => panic!("a token moves the flow on"),
    };
    assert_eq!(token, "access-token");
    backend.authenticate_profile(
        token,
        Some(UserInfo { email: email.to_string(), name: name.to_string() }),
    )
}

#[test]
fn state_mismatch_is_refused_without_user_creation() {
    let mut b = backend();
    let creds = Credentials {
        code: "abc".to_string(),
        old_state: "csrf-token".to_string(),
        new_state: "csrf-tokeX".to_string(),
    };
    let flow = b.authenticate_callback(creds);
    assert!(matches!(flow, FlowState::Rejected));
    let result = flow.into_result();
    assert!(matches!(result, Ok(None)));
    assert_eq!(b.user_count(), 0);
}

#[test]
fn valid_flow_creates_user_with_fetched_profile() {
    let mut b = backend();
    let flow = run_valid_flow(&mut b, "abc", "csrf", "a@b.com", "A");
    let user = match flow.into_result() {
        Ok(Some(user)) => user,
        _ => panic!("a fully successful flow resolves a user"),
    };
    assert_eq!(user.email, "a@b.com");
    assert_eq!(user.name.as_deref(), Some("A"));
    assert_eq!(user.access_token, "access-token");
    assert!(!user.id.is_empty());
    assert_eq!(b.user_count(), 1);
}

#[test]
fn get_user_on_absent_identifier_is_ok_none() {
    let b = backend();
    let result = b.get_user(&"no-such-user".to_string());
    assert!(matches!(result, Ok(None)));
}

#[test]
fn get_user_round_trips_a_created_user() {
    let mut b = backend();
    let flow = run_valid_flow(&mut b, "abc", "csrf", "a@b.com", "A");
    let user = match flow.into_result() {
        Ok(Some(user)) => user,
        _ => panic!("a fully successful flow resolves a user"),
    };
    let fetched = match b.get_user(&user.id()) {
        Ok(Some(fetched)) => fetched,
        _ => panic!("a just-created user is found"),
    };
    assert_eq!(fetched.id, user.id);
    assert_eq!(fetched.email, user.email);
    assert_eq!(fetched.name, user.name);
    assert_eq!(fetched.access_token, user.access_token);
}

#[test]
fn two_logins_create_distinct_users() {
    let mut b = backend();
    let first = match run_valid_flow(&mut b, "code-one", "s1", "one@example.com", "One")
        .into_result()
    {
        Ok(Some(user)) => user,
        _ => panic!("first login succeeds"),
    };
    let second = match run_valid_flow(&mut b, "code-two", "s2", "two@example.com", "Two")
        .into_result()
    {
        Ok(Some(user)) => user,
        _ => panic!("second login succeeds"),
    };
    assert_ne!(first.id, second.id);
    assert_eq!(b.user_count(), 2);
}

#[test]
fn failed_exchange_is_the_oauth2_error() {
    let b = backend();
    let flow = b.authenticate_token(None);
    assert!(matches!(flow, FlowState::Failed { error: BackendError::OAuth2 }));
    assert!(matches!(flow.into_result(), Err(BackendError::OAuth2)));
}

#[test]
fn failed_fetch_is_the_network_error_and_writes_nothing() {
    let mut b = backend();
    let flow = b.authenticate_profile("access-token".to_string(), None);
    assert!(matches!(flow, FlowState::Failed { error: BackendError::Reqwest }));
    assert!(matches!(flow.into_result(), Err(BackendError::Reqwest)));
    assert_eq!(b.user_count(), 0);
}
