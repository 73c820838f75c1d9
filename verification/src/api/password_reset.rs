//! The password-reset endpoints: requesting a reset mail and submitting the
//! new password with the mailed token.

use vstd::prelude::*;
use vstd::utf8::encode_utf8;

use crate::api::APIClient;
use crate::api::Method;
use crate::api::RequestSpec;
use crate::api::FormUrlEncoded;
use crate::api::form_encoded;
use crate::api::resolved_url;

verus! {

/// The form of a reset-request call.
pub open spec fn spec_reset_request_form(email: Seq<char>) -> Seq<(Seq<char>, Seq<char>)> {
    seq![("email"@, email)]
}

/// The form of a reset-submit call.
pub open spec fn spec_reset_submit_form(
    email: Seq<char>,
    token: Seq<char>,
    new_password: Seq<char>,
) -> Seq<(Seq<char>, Seq<char>)> {
    seq![("email"@, email), ("token"@, token), ("new_password"@, new_password)]
}

impl APIClient {
    pub fn password_reset_request(&self, email: String) -> (r: Option<RequestSpec>)
        ensures
            (r is Some) == (resolved_url(
                    self.spec_base_url(),
                    "password_reset/request"@,
                    Seq::<(Seq<char>, Seq<char>)>::empty(),
                ) is Some),
            r matches Some(q) ==> {
                &&& resolved_url(
                    self.spec_base_url(),
                    "password_reset/request"@,
                    Seq::<(Seq<char>, Seq<char>)>::empty(),
                ) == Some(q.url@)
                &&& q.method == Method::Post
                &&& q.content_type matches Some(c) && c@ == "application/x-www-form-urlencoded"@
                &&& q.auth == self.spec_auth_header()
                &&& q.body matches Some(b) && b@ == encode_utf8(
                    form_encoded(spec_reset_request_form(email@)),
                )
            },
    {
        let mut body: Vec<(String, String)> = Vec::new();
        body.push((String::from_str("email"), email));
        proof {
            assert(crate::api::spec_pairs(body@) =~= spec_reset_request_form(body@[0].1@));
            assert(crate::api::spec_pairs(Seq::<(String, String)>::empty()) =~= Seq::<
                (Seq<char>, Seq<char>),
            >::empty());
        }
        self.post("password_reset/request", Vec::new(), FormUrlEncoded(body))
    }

    pub fn password_reset_submit(&self, email: String, token: String, new_password: String) -> (r:
        Option<RequestSpec>)
        ensures
            (r is Some) == (resolved_url(
                    self.spec_base_url(),
                    "password_reset/submit"@,
                    Seq::<(Seq<char>, Seq<char>)>::empty(),
                ) is Some),
            r matches Some(q) ==> {
                &&& resolved_url(
                    self.spec_base_url(),
                    "password_reset/submit"@,
                    Seq::<(Seq<char>, Seq<char>)>::empty(),
                ) == Some(q.url@)
                &&& q.method == Method::Post
                &&& q.content_type matches Some(c) && c@ == "application/x-www-form-urlencoded"@
                &&& q.auth == self.spec_auth_header()
                &&& q.body matches Some(b) && b@ == encode_utf8(
                    form_encoded(spec_reset_submit_form(email@, token@, new_password@)),
                )
            },
    {
        let mut body: Vec<(String, String)> = Vec::new();
        body.push((String::from_str("email"), email));
        body.push((String::from_str("token"), token));
        body.push((String::from_str("new_password"), new_password));
        proof {
            assert(crate::api::spec_pairs(body@) =~= spec_reset_submit_form(
                body@[0].1@,
                body@[1].1@,
                body@[2].1@,
            ));
            assert(crate::api::spec_pairs(Seq::<(String, String)>::empty()) =~= Seq::<
                (Seq<char>, Seq<char>),
            >::empty());
        }
        self.post("password_reset/submit", Vec::new(), FormUrlEncoded(body))
    }
}

} // verus!
