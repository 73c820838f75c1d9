//! The signed-in user's credential, as it is kept between visits and as it is
//! attached to requests.
//!
//! Reading and writing browser storage is the front end's work; this module
//! fixes what is stored and how the stored pair turns into the Basic
//! authorization credentials of every request.

use vstd::prelude::*;

use crate::numeric::spec_dec;
use crate::numeric::format_u32;

verus! {

/// The username and password of a Basic authorization header.
#[derive(Debug, PartialEq)]
pub struct BasicCredentials {
    pub username: String,
    pub password: String,
}

impl Clone for BasicCredentials {
    fn clone(&self) -> (r: Self)
        ensures
            r == *self,
    {
        BasicCredentials { username: self.username.clone(), password: self.password.clone() }
    }
}

/// The credential kept in browser storage: the user's id and the session
/// token the backend issued at login.
#[derive(Debug, Clone, PartialEq)]
pub struct PersistedAuth {
    pub user_id: u32,
    token: String,
}

impl PersistedAuth {
    pub closed spec fn spec_user_id(&self) -> u32 {
        self.user_id
    }

    pub closed spec fn spec_token(&self) -> Seq<char> {
        self.token@
    }

    pub fn new(user_id: u32, token: String) -> (r: PersistedAuth)
        ensures
            r.spec_user_id() == user_id,
            r.spec_token() == token@,
    {
        PersistedAuth { user_id, token }
    }

    pub fn token(&self) -> (r: &String)
        ensures
            r@ == self.spec_token(),
    {
        &self.token
    }

    /// The Basic credentials sent with each request: the user id in decimal
    /// as the username, the session token as the password.
    pub fn credentials(&self) -> (r: BasicCredentials)
        ensures
            r.username@ == spec_dec(self.spec_user_id() as nat),
            r.password@ == self.spec_token(),
    {
        BasicCredentials { username: format_u32(self.user_id), password: self.token.clone() }
    }
}

} // verus!
