//! The session endpoints: signing in and out.

use vstd::prelude::*;
use vstd::utf8::encode_utf8;

use crate::api::APIClient;
use crate::api::Method;
use crate::api::RequestSpec;
use crate::api::FormUrlEncoded;
use crate::api::form_encoded;
use crate::api::resolved_url;
use crate::api::users::UserResponseItem;

verus! {

/// What a successful login returns: the session token and the user it
/// belongs to.
#[derive(Debug, Clone, PartialEq)]
pub struct LoginResponse {
    pub token: String,
    pub user: UserResponseItem,
}

/// The form of a login request.
pub open spec fn spec_login_form(email: Seq<char>, password: Seq<char>) -> Seq<
    (Seq<char>, Seq<char>),
> {
    seq![("email"@, email), ("password"@, password)]
}

impl APIClient {
    pub fn session_login(&self, email: String, password: String) -> (r: Option<RequestSpec>)
        ensures
            (r is Some) == (resolved_url(
                    self.spec_base_url(),
                    "sessions/login"@,
                    Seq::<(Seq<char>, Seq<char>)>::empty(),
                ) is Some),
            r matches Some(q) ==> {
                &&& resolved_url(
                    self.spec_base_url(),
                    "sessions/login"@,
                    Seq::<(Seq<char>, Seq<char>)>::empty(),
                ) == Some(q.url@)
                &&& q.method == Method::Post
                &&& q.content_type matches Some(c) && c@ == "application/x-www-form-urlencoded"@
                &&& q.auth == self.spec_auth_header()
                &&& q.body matches Some(b) && b@ == encode_utf8(
                    form_encoded(spec_login_form(email@, password@)),
                )
            },
    {
        let mut body: Vec<(String, String)> = Vec::new();
        body.push((String::from_str("email"), email));
        body.push((String::from_str("password"), password));
        proof {
            assert(crate::api::spec_pairs(body@) =~= spec_login_form(body@[0].1@, body@[1].1@));
            assert(crate::api::spec_pairs(Seq::<(String, String)>::empty()) =~= Seq::<
                (Seq<char>, Seq<char>),
            >::empty());
        }
        self.post("sessions/login", Vec::new(), FormUrlEncoded(body))
    }

    pub fn session_logout(&self) -> (r: Option<RequestSpec>)
        ensures
            (r is Some) == (resolved_url(
                    self.spec_base_url(),
                    "sessions/logout"@,
                    Seq::<(Seq<char>, Seq<char>)>::empty(),
                ) is Some),
            r matches Some(q) ==> {
                &&& resolved_url(
                    self.spec_base_url(),
                    "sessions/logout"@,
                    Seq::<(Seq<char>, Seq<char>)>::empty(),
                ) == Some(q.url@)
                &&& q.method == Method::Delete
                &&& q.content_type is None
                &&& q.auth == self.spec_auth_header()
                &&& q.body is None
            },
    {
        proof {
            assert(crate::api::spec_pairs(Seq::<(String, String)>::empty()) =~= Seq::<
                (Seq<char>, Seq<char>),
            >::empty());
        }
        self.delete("sessions/logout", Vec::new())
    }
}

} // verus!
