//! The local user record and its mathematical view.

use vstd::prelude::*;

verus! {

/// A persisted local user: a stable generated identifier, the profile data
/// fetched from the identity provider, and the provider-issued access token
/// kept verbatim as a session-binding secret.
pub struct User {
    pub id: String,
    pub email: String,
    pub name: Option<String>,
    pub access_token: String,
}

/// The abstract value of a [`User`]: every field as a sequence of characters.
pub struct UserView {
    pub id: Seq<char>,
    pub email: Seq<char>,
    pub name: Option<Seq<char>>,
    pub access_token: Seq<char>,
}

impl View for User {
    type V = UserView;

    open spec fn view(&self) -> UserView {
        UserView {
            id: self.id@,
            email: self.email@,
            name: match self.name {
                Option::Some(n) => Option::Some(n@),
                Option::None => Option::None,
            },
            access_token: self.access_token@,
        }
    }
}

impl DeepView for User {
    type V = UserView;

    open spec fn deep_view(&self) -> UserView {
        self.view()
    }
}

/// The data of a user row about to be inserted: the caller supplies every
/// field, the store only checks that the identifier is still free.
pub struct NewUser<'a> {
    pub id: &'a str,
    pub email: &'a str,
    pub access_token: &'a str,
    pub name: &'a str,
}

impl<'a> NewUser<'a> {
    /// The user record that a successful insertion of this row yields.
    pub open spec fn as_user(&self) -> UserView {
        UserView {
            id: self.id@,
            email: self.email@,
            name: Option::Some(self.name@),
            access_token: self.access_token@,
        }
    }
}

impl Clone for User {
    /// A clone denotes the same abstract user.
    fn clone(&self) -> (r: Self)
        ensures
            r@ == self@,
    {
        User {
            id: self.id.clone(),
            email: self.email.clone(),
            name: match &self.name {
                Option::Some(n) => Option::Some(n.clone()),
                Option::None => Option::None,
            },
            access_token: self.access_token.clone(),
        }
    }
}

impl User {
    /// The stable identifier under which the session layer tracks this user.
    pub fn id(&self) -> (r: String)
        ensures
            r@ == self@.id,
    {
        self.id.clone()
    }
}

} // verus!
