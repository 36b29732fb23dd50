//! The authentication backend: CSRF-state validation, the authorization-code
//! flow driven as a state machine, user creation, and session-identity
//! resolution.
//!
//! A login attempt moves `Validated | Rejected` → `TokenExchanged` →
//! `UserResolved | Failed`. The two outbound network calls — the
//! code-for-token exchange and the profile fetch — are performed by the
//! caller between steps; each step function folds one outcome into the flow,
//! so every decision the backend takes is verified for every possible
//! outcome of those calls.

use vstd::prelude::*;

use crate::store::{find_user, has_id, UserStore};
use crate::user::{NewUser, User, UserView};

verus! {

/// What went wrong during an authentication attempt. A CSRF mismatch and a
/// missing user are refusals, not errors, and never take this form.
#[derive(Clone, Copy, Debug, PartialEq, Eq, Structural)]
pub enum BackendError {
    /// The store refused the write: constraint violation or connectivity.
    Database,
    /// The profile fetch failed in transport or did not match the schema.
    Reqwest,
    /// The provider rejected or garbled the code-for-token exchange.
    OAuth2,
}

/// The optional post-login redirect target a login request carries. It is
/// written into the session at login-start, next to the CSRF token, and
/// consumed once the callback completes.
pub struct NextUrl {
    pub next: Option<String>,
}

/// The credential a callback request presents: the authorization code, the
/// state echoed back by the provider, and the state the server remembered
/// in the session at login-start.
pub struct Credentials {
    pub code: String,
    pub old_state: String,
    pub new_state: String,
}

/// The abstract value of a [`Credentials`].
pub struct CredentialsView {
    pub code: Seq<char>,
    pub old_state: Seq<char>,
    pub new_state: Seq<char>,
}

impl View for Credentials {
    type V = CredentialsView;

    open spec fn view(&self) -> CredentialsView {
        CredentialsView { code: self.code@, old_state: self.old_state@, new_state: self.new_state@ }
    }
}

/// The identity fields fetched from the provider's profile endpoint.
pub struct UserInfo {
    pub email: String,
    pub name: String,
}

/// The abstract value of a [`UserInfo`].
pub struct UserInfoView {
    pub email: Seq<char>,
    pub name: Seq<char>,
}

impl View for UserInfo {
    type V = UserInfoView;

    open spec fn view(&self) -> UserInfoView {
        UserInfoView { email: self.email@, name: self.name@ }
    }
}

impl DeepView for UserInfo {
    type V = UserInfoView;

    open spec fn deep_view(&self) -> UserInfoView {
        self.view()
    }
}

/// Where a login attempt stands. `Validated` and `TokenExchanged` ask the
/// caller for the next outbound call; the other states are at rest.
pub enum FlowState {
    /// The echoed state matched: exchange this code at the token endpoint.
    Validated { code: String },
    /// The echoed state did not match: refused, nothing further attempted.
    Rejected,
    /// The exchange yielded a token: fetch the profile with it.
    TokenExchanged { access_token: String },
    /// Terminal success: the user was recorded and is logged in.
    UserResolved { user: User },
    /// Terminal failure, typed by the step that failed.
    Failed { error: BackendError },
}

/// The abstract value of a [`FlowState`].
pub enum FlowView {
    Validated { code: Seq<char> },
    Rejected,
    TokenExchanged { access_token: Seq<char> },
    UserResolved { user: UserView },
    Failed { error: BackendError },
}

impl View for FlowState {
    type V = FlowView;

    open spec fn view(&self) -> FlowView {
        match self {
            FlowState::Validated { code } => FlowView::Validated { code: code@ },
            FlowState::Rejected => FlowView::Rejected,
            FlowState::TokenExchanged { access_token } => FlowView::TokenExchanged {
                access_token: access_token@,
            },
            FlowState::UserResolved { user } => FlowView::UserResolved { user: user@ },
            FlowState::Failed { error } => FlowView::Failed { error: *error },
        }
    }
}

/// Whether the flow has come to rest.
pub open spec fn terminal(f: FlowView) -> bool {
    match f {
        FlowView::Rejected => true,
        FlowView::UserResolved { .. } => true,
        FlowView::Failed { .. } => true,
        _ => false,
    }
}

/// The callback step: exact comparison of the two CSRF states decides
/// between validation and refusal.
pub open spec fn callback_transition(creds: CredentialsView) -> FlowView {
    if creds.old_state == creds.new_state {
        FlowView::Validated { code: creds.code }
    } else {
        FlowView::Rejected
    }
}

/// The exchange step: a token moves the flow on, a failed exchange is the
/// OAuth2 error.
pub open spec fn token_transition(outcome: Option<Seq<char>>) -> FlowView {
    match outcome {
        Option::Some(access_token) => FlowView::TokenExchanged { access_token },
        Option::None => FlowView::Failed { error: BackendError::OAuth2 },
    }
}

/// The user record a successful flow persists: the fetched profile fields
/// plus the access token, under the generated identifier.
pub open spec fn new_record(id: Seq<char>, info: UserInfoView, access_token: Seq<char>) -> UserView {
    UserView { id, email: info.email, name: Option::Some(info.name), access_token }
}

/// The final step: a fetched profile is recorded under the generated
/// identifier `id` unless that identifier is already taken (the store's
/// constraint violation); a failed fetch is the network error. Returns the
/// resting flow state and the store contents after the step.
pub open spec fn profile_transition(
    users: Seq<UserView>,
    access_token: Seq<char>,
    outcome: Option<UserInfoView>,
    id: Seq<char>,
) -> (FlowView, Seq<UserView>) {
    match outcome {
        Option::None => (FlowView::Failed { error: BackendError::Reqwest }, users),
        Option::Some(info) => {
            if has_id(users, id) {
                (FlowView::Failed { error: BackendError::Database }, users)
            } else {
                (
                    FlowView::UserResolved { user: new_record(id, info, access_token) },
                    users.push(new_record(id, info, access_token)),
                )
            }
        },
    }
}

impl FlowState {
    /// The overall outcome of `authenticate`: a refusal is `Ok(None)`, a
    /// resolved user is `Ok(Some(user))`, a failed step is its error.
    pub fn into_result(self) -> (r: Result<Option<User>, BackendError>)
        requires
            terminal(self@),
        ensures
            match self@ {
                FlowView::Rejected => r matches Result::Ok(o) && o is None,
                FlowView::UserResolved { user } => r matches Result::Ok(o) && o matches
                    Option::Some(u) && u@ == user,
                FlowView::Failed { error } => r matches Result::Err(e) && e == error,
                _ => false,
            },
    {
        match self {
            FlowState::Rejected => Result::Ok(Option::None),
            FlowState::UserResolved { user } => Result::Ok(Option::Some(user)),
            FlowState::Failed { error } => Result::Err(error),
            FlowState::Validated { .. } => Result::Err(BackendError::OAuth2),
            FlowState::TokenExchanged { .. } => Result::Err(BackendError::OAuth2),
        }
    }
}

/// The authentication backend: the identity-provider client and the user
/// store, orchestrated per login attempt.
pub struct Backend {
    client: crate::provider::ProviderClient,
    store: UserStore,
}

impl Backend {
    /// The stored user records, abstractly.
    pub closed spec fn users(&self) -> Seq<UserView> {
        self.store@
    }

    /// The backend is well formed when its store is: identifiers distinct.
    pub open spec fn wf(&self) -> bool {
        crate::store::ids_unique(self.users())
    }

    pub fn new(store: UserStore, client: crate::provider::ProviderClient) -> (b: Backend)
        ensures
            b.users() == store@,
            b.wf() <==> crate::store::ids_unique(store@),
    {
        Backend { client, store }
    }

    /// `authorizeUrl`: the provider's authorization URL with a fresh CSRF
    /// token embedded as its `state` parameter — the URL contains `state=`
    /// followed by the token verbatim — and that token, to be remembered in
    /// the session for the callback. Pure construction with fresh
    /// randomness; the store is untouched.
    pub fn authorize_url(&self) -> (r: (String, String))
        ensures
            r.0@.len() > 0,
            r.1@.len() > 0,
            crate::provider::carries_state_param(r.0@, r.1@),
    {
        self.client.authorize_url(
            "https://www.googleapis.com/auth/userinfo.profile",
            "https://www.googleapis.com/auth/userinfo.email",
        )
    }

    /// The callback step of `authenticate`: compare the client-echoed state
    /// with the server-remembered state, exactly. Any mismatch is a refusal
    /// — the sole CSRF defense — and nothing further is attempted; a match
    /// hands the authorization code on to the exchange.
    pub fn authenticate_callback(&self, creds: Credentials) -> (f: FlowState)
        ensures
            f@ == callback_transition(creds@),
    {
        if creds.old_state == creds.new_state {
            FlowState::Validated { code: creds.code }
        } else {
            FlowState::Rejected
        }
    }

    /// The exchange step of `authenticate`: fold in what the code-for-token
    /// exchange produced. A failed exchange is a hard error — protocol or
    /// network trouble, not an attacker — never a silent refusal.
    pub fn authenticate_token(&self, outcome: Option<String>) -> (f: FlowState)
        ensures
            f@ == token_transition(outcome.deep_view()),
    {
        match outcome {
            Option::Some(access_token) => FlowState::TokenExchanged { access_token },
            Option::None => FlowState::Failed { error: BackendError::OAuth2 },
        }
    }

    /// The final step of `authenticate`: fold in what the profile fetch
    /// produced. A fetched profile is recorded as a new user under a freshly
    /// generated identifier; the store refuses a duplicate identifier, and a
    /// failed fetch is the network error. Exactly one record is written, on
    /// exactly the successful path.
    pub fn authenticate_profile(&mut self, access_token: String, outcome: Option<UserInfo>) -> (f:
        FlowState)
        requires
            old(self).wf(),
        ensures
            final(self).wf(),
            exists|id: Seq<char>|
                (#[trigger] profile_transition(
                    old(self).users(),
                    access_token@,
                    outcome.deep_view(),
                    id,
                )) == (f@, final(self).users()),
    {
        match outcome {
            Option::None => {
                let f = FlowState::Failed { error: BackendError::Reqwest };
                proof {
                    assert(profile_transition(
                        old(self).users(),
                        access_token@,
                        outcome.deep_view(),
                        Seq::<char>::empty(),
                    ) == (f@, self.users()));
                }
                f
            },
            Option::Some(info) => {
                let id = crate::store::generate_id();
                let row = NewUser {
                    id: id.as_str(),
                    email: info.email.as_str(),
                    access_token: access_token.as_str(),
                    name: info.name.as_str(),
                };
                match self.store.create_user(&row) {
                    Result::Ok(user) => {
                        let f = FlowState::UserResolved { user };
                        proof {
                            assert(profile_transition(
                                old(self).users(),
                                access_token@,
                                outcome.deep_view(),
                                id@,
                            ) == (f@, self.users()));
                        }
                        f
                    },
                    Result::Err(_) => {
                        let f = FlowState::Failed { error: BackendError::Database };
                        proof {
                            assert(profile_transition(
                                old(self).users(),
                                access_token@,
                                outcome.deep_view(),
                                id@,
                            ) == (f@, self.users()));
                        }
                        f
                    },
                }
            },
        }
    }

    /// `getUser`: resolve a session-held identifier to its record. An
    /// identifier with no matching row is a normal outcome, answered
    /// `Ok(None)` — a stale session degrades to "logged out" rather than
    /// failing the request — and this lookup never errs.
    pub fn get_user(&self, user_id: &String) -> (r: Result<Option<User>, BackendError>)
        ensures
            match r {
                Result::Ok(o) => match o {
                    Option::Some(u) => find_user(self.users(), user_id@) == Option::Some(u@),
                    Option::None => find_user(self.users(), user_id@) is None,
                },
                Result::Err(_) => false,
            },
    {
        Result::Ok(self.store.find_by_id(user_id))
    }

    /// How many user records the backend's store holds.
    pub fn user_count(&self) -> (n: usize)
        ensures
            n == self.users().len(),
    {
        self.store.len()
    }
}

/// Law: credentials whose two states differ are refused outright — the
/// callback step comes to rest at `Rejected`, so no exchange, no fetch and
/// no store write is ever requested for them.
pub proof fn lemma_state_mismatch_refused(creds: CredentialsView)
    requires
        creds.old_state != creds.new_state,
    ensures
        callback_transition(creds) == FlowView::Rejected,
{
}

/// Law: a fully successful flow — matching states, a token from the
/// exchange, a profile from the fetch, a generated identifier still free —
/// resolves to exactly the user built from the fetched profile (in
/// particular, bearing its email), appends that one record to the store,
/// and the new identifier differs from that of every previously stored
/// user.
pub proof fn lemma_valid_flow_resolves(
    creds: CredentialsView,
    access_token: Seq<char>,
    info: UserInfoView,
    users: Seq<UserView>,
    id: Seq<char>,
)
    requires
        creds.old_state == creds.new_state,
        !has_id(users, id),
    ensures
        callback_transition(creds) == (FlowView::Validated { code: creds.code }),
        token_transition(Option::Some(access_token)) == (FlowView::TokenExchanged {
            access_token,
        }),
        profile_transition(users, access_token, Option::Some(info), id) == (
            (FlowView::UserResolved { user: new_record(id, info, access_token) }),
            users.push(new_record(id, info, access_token)),
        ),
        new_record(id, info, access_token).email == info.email,
        forall|k: int| 0 <= k < users.len() ==> users[k].id != id,
{
    assert forall|k: int| 0 <= k < users.len() implies users[k].id != id by {
        if users[k].id == id {
            assert(has_id(users, id));
        }
    }
}

} // verus!
