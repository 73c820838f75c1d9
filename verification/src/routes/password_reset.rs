//! The password-reset page: the email and token arrive in the location's
//! query string, the visitor types the new password twice, and only a
//! matching pair is submitted.

use vstd::prelude::*;

use crate::api::APIClient;
use crate::api::Method;
use crate::api::RequestSpec;
use crate::api::resolved_url;
use vstd::utf8::encode_utf8;
use crate::api::form_encoded;
use crate::api::form_decoded;
use crate::api::decode_form;
use crate::api::spec_pairs;
use crate::api::error::APIError;
use crate::api::error::spec_error_message;
use crate::api::password_reset::spec_reset_submit_form;
use crate::routes::AppRoute;
use crate::routes::str_starts_with;

verus! {

/// What this page can fail with: the backend's error, or a password pair
/// that does not match.
#[derive(Debug, Clone, PartialEq)]
pub enum ResetError {
    API(APIError),
    PasswordsDoNotMatch,
}

/// The message shown for each page error.
pub open spec fn spec_reset_error_message(e: ResetError) -> Seq<char> {
    match e {
        ResetError::API(a) => spec_error_message(a),
        ResetError::PasswordsDoNotMatch => "Passwords do not match"@,
    }
}

impl ResetError {
    pub fn message(&self) -> (r: String)
        ensures
            r@ == spec_reset_error_message(*self),
    {
        match self {
            ResetError::API(a) => a.message(),
            ResetError::PasswordsDoNotMatch => String::from_str("Passwords do not match"),
        }
    }
}

/// How often `key` occurs on the left of the decoded pairs.
pub open spec fn spec_key_count(pairs: Seq<(Seq<char>, Seq<char>)>, key: Seq<char>) -> nat
    decreases pairs.len(),
{
    if pairs.len() == 0 {
        0
    } else {
        spec_key_count(pairs.drop_last(), key) + (if pairs.last().0 == key {
            1nat
        } else {
            0nat
        })
    }
}

proof fn lemma_key_count_monotonic(pairs: Seq<(Seq<char>, Seq<char>)>, key: Seq<char>, i: int, j: int)
    requires
        0 <= i <= j <= pairs.len(),
    ensures
        spec_key_count(pairs.take(i), key) <= spec_key_count(pairs.take(j), key),
    decreases j - i,
{
    if i < j {
        lemma_key_count_monotonic(pairs, key, i, j - 1);
        assert(pairs.take(j).drop_last() =~= pairs.take(j - 1));
    }
}

proof fn lemma_key_count_at_least_two(
    pairs: Seq<(Seq<char>, Seq<char>)>,
    key: Seq<char>,
    f: int,
    j: int,
)
    requires
        0 <= f < j < pairs.len(),
        pairs[f].0 == key,
        pairs[j].0 == key,
    ensures
        spec_key_count(pairs, key) >= 2,
{
    assert(pairs.take(f + 1).drop_last() =~= pairs.take(f));
    assert(pairs.take(f + 1).last() == pairs[f]);
    lemma_key_count_monotonic(pairs, key, f + 1, j);
    assert(pairs.take(j + 1).drop_last() =~= pairs.take(j));
    assert(pairs.take(j + 1).last() == pairs[j]);
    lemma_key_count_monotonic(pairs, key, j + 1, pairs.len() as int);
    assert(pairs.take(pairs.len() as int) =~= pairs);
}

/// The value under `key`, when the key occurs exactly once — as a form
/// deserializer reads a field: a missing key and a duplicate both fail.
fn lookup_unique(pairs: &Vec<(String, String)>, key: &str) -> (r: Option<String>)
    ensures
        (r is Some) == (spec_key_count(spec_pairs(pairs@), key@) == 1),
        r matches Some(v) ==> forall|j: int|
            0 <= j < pairs@.len() && (#[trigger] pairs@[j]).0@ == key@ ==> v@ == pairs@[j].1@,
{
    let ghost view = spec_pairs(pairs@);
    let mut found: Option<usize> = None;
    let mut i: usize = 0;
    while i < pairs.len()
        invariant
            i <= pairs@.len(),
            view == spec_pairs(pairs@),
            match found {
                None => spec_key_count(view.take(i as int), key@) == 0,
                Some(f) => f < i && pairs@[f as int].0@ == key@ && spec_key_count(
                    view.take(i as int),
                    key@,
                ) == 1,
            },
        decreases pairs@.len() - i,
    {
        proof {
            assert(view.take(i + 1).drop_last() =~= view.take(i as int));
            assert(view.take(i + 1).last() == view[i as int]);
            assert(view[i as int] == (pairs@[i as int].0@, pairs@[i as int].1@));
        }
        if crate::routes::str_eq(pairs[i].0.as_str(), key) {
            match found {
                None => found = Some(i),
                Some(_) => {
                    proof {
                        lemma_key_count_monotonic(view, key@, i + 1, view.len() as int);
                        assert(view.take(view.len() as int) =~= view);
                    }
                    return None;
                },
            }
        }
        i = i + 1;
    }
    proof {
        assert(view.take(view.len() as int) =~= view);
    }
    match found {
        None => None,
        Some(f) => {
            proof {
                assert forall|j: int|
                    0 <= j < pairs@.len() && (#[trigger] pairs@[j]).0@ == key@ implies pairs@[f
                    as int].1@ == pairs@[j].1@ by {
                    assert(view[j] == (pairs@[j].0@, pairs@[j].1@));
                    if j < f {
                        lemma_key_count_at_least_two(view, key@, j, f as int);
                    } else if j > f {
                        lemma_key_count_at_least_two(view, key@, f as int, j);
                    }
                }
            }
            Some(pairs[f].1.clone())
        },
    }
}

/// The email and token carried by a reset link's query string, when both are
/// present exactly once.
pub fn credentials_from_query(query: &str) -> (r: Option<(String, String)>)
    ensures
        ({
            let stripped = if crate::routes::spec_starts_with(query@, "?"@) {
                query@.skip(1)
            } else {
                Seq::<char>::empty()
            };
            match form_decoded(stripped) {
                None => r is None,
                Some(pairs) => {
                    &&& (r is Some) == (spec_key_count(pairs, "email"@) == 1 && spec_key_count(
                        pairs,
                        "token"@,
                    ) == 1)
                    &&& r matches Some(c) ==> forall|j: int|
                        0 <= j < pairs.len() ==> ((#[trigger] pairs[j]).0 == "email"@ ==> c.0@
                            == pairs[j].1) && (pairs[j].0 == "token"@ ==> c.1@ == pairs[j].1)
                },
            }
        }),
{
    let len = query.unicode_len();
    let stripped: &str = if str_starts_with(query, "?") {
        proof {
            reveal_strlit("?");
        }
        query.substring_char(1, len)
    } else {
        ""
    };
    proof {
        reveal_strlit("");
        if crate::routes::spec_starts_with(query@, "?"@) {
            assert(stripped@ =~= query@.skip(1));
        } else {
            assert(stripped@ =~= Seq::<char>::empty());
        }
    }
    let pairs = match decode_form(stripped) {
        None => {
            return None;
        },
        Some(p) => p,
    };
    let email = lookup_unique(&pairs, "email");
    let token = lookup_unique(&pairs, "token");
    match (email, token) {
        (Some(e), Some(t)) => Some((e, t)),
        _ => None,
    }
}

/// The page's state: the link's email and token, the two password fields,
/// whether the request is under way, and the last error.
pub struct PasswordResetState {
    pub email: String,
    pub token: String,
    pub password: String,
    pub repeat_password: String,
    pub task_in_flight: bool,
    pub error: Option<ResetError>,
}

impl PasswordResetState {
    /// The state when the page opens: the link's credentials, or the
    /// placeholders shown when the link was broken.
    pub fn init(query_credentials: Option<(String, String)>) -> (r: PasswordResetState)
        ensures
            match query_credentials {
                Some(c) => r.email == c.0 && r.token == c.1,
                None => r.email@ == "Invalid email"@ && r.token@ == "Invalid Token"@,
            },
            r.password@ == ""@,
            r.repeat_password@ == ""@,
            !r.task_in_flight,
            r.error is None,
    {
        let (email, token) = match query_credentials {
            Some(c) => c,
            None => (String::from_str("Invalid email"), String::from_str("Invalid Token")),
        };
        PasswordResetState {
            email,
            token,
            password: String::from_str(""),
            repeat_password: String::from_str(""),
            task_in_flight: false,
            error: None,
        }
    }

    /// The form was submitted: a password pair that does not match is
    /// rejected on the spot; a matching one is sent, unless a request is
    /// already under way.
    pub fn submit(&mut self, client: &APIClient, password: String, repeat_password: String) -> (r:
        Option<RequestSpec>)
        ensures
            final(self).password == password,
            final(self).repeat_password == repeat_password,
            password@ != repeat_password@ ==> (r is None && final(self).error == Some(
                ResetError::PasswordsDoNotMatch,
            ) && final(self).task_in_flight == old(self).task_in_flight),
            (password@ == repeat_password@ && old(self).task_in_flight) ==> (r is None && final(self).error is None && final(self).task_in_flight),
            (password@ == repeat_password@ && !old(self).task_in_flight) ==> {
                &&& final(self).error is None
                &&& final(self).task_in_flight == (r is Some)
                &&& (r is Some) == (resolved_url(
                        client.spec_base_url(),
                        "password_reset/submit"@,
                        Seq::<(Seq<char>, Seq<char>)>::empty(),
                    ) is Some)
                &&& r matches Some(q) ==> {
                    &&& resolved_url(
                        client.spec_base_url(),
                        "password_reset/submit"@,
                        Seq::<(Seq<char>, Seq<char>)>::empty(),
                    ) == Some(q.url@)
                    &&& q.method == Method::Post
                    &&& q.auth == client.spec_auth_header()
                    &&& q.body matches Some(b) && b@ == encode_utf8(
                        form_encoded(
                            spec_reset_submit_form(
                                old(self).email@,
                                old(self).token@,
                                password@,
                            ),
                        ),
                    )
                }
            },
            final(self).email == old(self).email,
            final(self).token == old(self).token,
    {
        self.password = password;
        self.repeat_password = repeat_password;
        if self.password == self.repeat_password {
            self.error = None;
            if !self.task_in_flight {
                let request = client.password_reset_submit(
                    self.email.clone(),
                    self.token.clone(),
                    self.password.clone(),
                );
                self.task_in_flight = request.is_some();
                request
            } else {
                None
            }
        } else {
            self.error = Some(ResetError::PasswordsDoNotMatch);
            None
        }
    }

    /// The response: on success leave for the login page, else show the
    /// backend's error.
    pub fn handle_response(&mut self, r: Result<(), APIError>) -> (dest: Option<AppRoute>)
        ensures
            !final(self).task_in_flight,
            match r {
                Ok(_) => dest == Some(AppRoute::Login) && final(self).error == old(self).error,
                Err(e) => dest is None && final(self).error == Some(ResetError::API(e)),
            },
            final(self).email == old(self).email,
            final(self).token == old(self).token,
            final(self).password == old(self).password,
            final(self).repeat_password == old(self).repeat_password,
    {
        self.task_in_flight = false;
        match r {
            Ok(_) => Some(AppRoute::Login),
            Err(e) => {
                self.error = Some(ResetError::API(e));
                None
            },
        }
    }
}

} // verus!
