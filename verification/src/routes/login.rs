//! The sign-in page: the credentials form and its one request.

use vstd::prelude::*;

use crate::api::APIClient;
use crate::api::Method;
use crate::api::RequestSpec;
use crate::api::resolved_url;
use vstd::utf8::encode_utf8;
use crate::api::form_encoded;
use crate::api::error::APIError;
use crate::api::session::LoginResponse;
use crate::api::session::spec_login_form;

verus! {

/// The page's state: the form fields, whether the login request is under
/// way, and the last error.
pub struct LoginState {
    pub email: String,
    pub password: String,
    pub task_in_flight: bool,
    pub error: Option<APIError>,
}

impl LoginState {
    pub fn init() -> (r: LoginState)
        ensures
            r.email@ == ""@,
            r.password@ == ""@,
            !r.task_in_flight,
            r.error is None,
    {
        LoginState {
            email: String::from_str(""),
            password: String::from_str(""),
            task_in_flight: false,
            error: None,
        }
    }

    /// The form was submitted: keep the fields, and send the login unless
    /// one is already under way.
    pub fn submit(&mut self, client: &APIClient, email: String, password: String) -> (r: Option<
        RequestSpec,
    >)
        ensures
            final(self).email == email,
            final(self).password == password,
            old(self).task_in_flight ==> (r is None && final(self).task_in_flight && final(self).error == old(self).error),
            !old(self).task_in_flight ==> {
                &&& final(self).error is None
                &&& final(self).task_in_flight == (r is Some)
                &&& (r is Some) == (resolved_url(
                        client.spec_base_url(),
                        "sessions/login"@,
                        Seq::<(Seq<char>, Seq<char>)>::empty(),
                    ) is Some)
                &&& r matches Some(q) ==> {
                    &&& resolved_url(
                        client.spec_base_url(),
                        "sessions/login"@,
                        Seq::<(Seq<char>, Seq<char>)>::empty(),
                    ) == Some(q.url@)
                    &&& q.method == Method::Post
                    &&& q.auth == client.spec_auth_header()
                    &&& q.body matches Some(b) && b@ == encode_utf8(
                        form_encoded(spec_login_form(email@, password@)),
                    )
                }
            },
    {
        self.email = email;
        self.password = password;
        if !self.task_in_flight {
            self.error = None;
            let request = client.session_login(self.email.clone(), self.password.clone());
            self.task_in_flight = request.is_some();
            request
        } else {
            None
        }
    }

    /// The response: a success is handed up to the shell (which stores the
    /// credential and navigates), a failure is shown.
    pub fn handle_response(&mut self, r: Result<LoginResponse, APIError>) -> (login: Option<
        LoginResponse,
    >)
        ensures
            !final(self).task_in_flight,
            match r {
                Ok(s) => login == Some(s) && final(self).error == old(self).error,
                Err(e) => login is None && final(self).error == Some(e),
            },
            final(self).email == old(self).email,
            final(self).password == old(self).password,
    {
        self.task_in_flight = false;
        match r {
            Ok(s) => Some(s),
            Err(e) => {
                self.error = Some(e);
                None
            },
        }
    }
}

} // verus!
