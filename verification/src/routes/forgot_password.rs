//! The forgot-password page: request a reset mail for an email address.

use vstd::prelude::*;

use crate::api::APIClient;
use crate::api::Method;
use crate::api::RequestSpec;
use crate::api::resolved_url;
use vstd::utf8::encode_utf8;
use crate::api::form_encoded;
use crate::api::error::APIError;
use crate::api::password_reset::spec_reset_request_form;

verus! {

/// The page's state: the address entered, whether the request is under way,
/// whether it succeeded, and the last error.
pub struct ForgotPasswordState {
    pub email: String,
    pub task_in_flight: bool,
    pub success: bool,
    pub error: Option<APIError>,
}

impl ForgotPasswordState {
    pub fn init() -> (r: ForgotPasswordState)
        ensures
            r.email@ == ""@,
            !r.task_in_flight,
            !r.success,
            r.error is None,
    {
        ForgotPasswordState {
            email: String::from_str(""),
            task_in_flight: false,
            success: false,
            error: None,
        }
    }

    /// The form was submitted: keep the address, and send the request unless
    /// one is already under way.
    pub fn submit(&mut self, client: &APIClient, email: String) -> (r: Option<RequestSpec>)
        ensures
            final(self).email == email,
            old(self).task_in_flight ==> (r is None && final(self).task_in_flight && final(self).success == old(self).success && final(self).error == old(self).error),
            !old(self).task_in_flight ==> {
                &&& !final(self).success
                &&& final(self).error is None
                &&& final(self).task_in_flight == (r is Some)
                &&& (r is Some) == (resolved_url(
                        client.spec_base_url(),
                        "password_reset/request"@,
                        Seq::<(Seq<char>, Seq<char>)>::empty(),
                    ) is Some)
                &&& r matches Some(q) ==> {
                    &&& resolved_url(
                        client.spec_base_url(),
                        "password_reset/request"@,
                        Seq::<(Seq<char>, Seq<char>)>::empty(),
                    ) == Some(q.url@)
                    &&& q.method == Method::Post
                    &&& q.auth == client.spec_auth_header()
                    &&& q.body matches Some(b) && b@ == encode_utf8(
                        form_encoded(spec_reset_request_form(email@)),
                    )
                }
            },
    {
        self.email = email;
        if !self.task_in_flight {
            self.success = false;
            self.error = None;
            let request = client.password_reset_request(self.email.clone());
            self.task_in_flight = request.is_some();
            request
        } else {
            None
        }
    }

    /// The response: a success shows the confirmation, a failure the error.
    pub fn handle_response(&mut self, r: Result<(), APIError>)
        ensures
            !final(self).task_in_flight,
            match r {
                Ok(_) => final(self).success && final(self).error == old(self).error,
                Err(e) => final(self).success == old(self).success && final(self).error == Some(e),
            },
            final(self).email == old(self).email,
    {
        self.task_in_flight = false;
        match r {
            Ok(_) => {
                self.success = true;
            },
            Err(e) => {
                self.error = Some(e);
            },
        }
    }
}

} // verus!
