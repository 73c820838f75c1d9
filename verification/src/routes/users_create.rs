//! The user creation page: one form, one request, then back to the list.

use vstd::prelude::*;

use crate::api::APIClient;
use crate::api::Method;
use crate::api::RequestSpec;
use crate::api::resolved_url;
use vstd::utf8::encode_utf8;
use crate::api::form_encoded;
use crate::api::error::APIError;
use crate::api::users::UserResponseItem;
use crate::api::users::spec_user_form;
use crate::routes::AppRoute;

verus! {

/// The page's state: the form fields, whether the request is under way, and
/// the last error.
pub struct CreateUserState {
    pub name: String,
    pub email: String,
    pub task_in_flight: bool,
    pub error: Option<APIError>,
}

impl CreateUserState {
    pub fn init() -> (r: CreateUserState)
        ensures
            r.name@ == ""@,
            r.email@ == ""@,
            !r.task_in_flight,
            r.error is None,
    {
        CreateUserState {
            name: String::from_str(""),
            email: String::from_str(""),
            task_in_flight: false,
            error: None,
        }
    }

    /// The form was submitted: keep the fields, and send the creation unless
    /// one is already under way.
    pub fn submit(&mut self, client: &APIClient, name: String, email: String) -> (r: Option<
        RequestSpec,
    >)
        ensures
            final(self).name == name,
            final(self).email == email,
            old(self).task_in_flight ==> (r is None && final(self).task_in_flight && final(self).error == old(self).error),
            !old(self).task_in_flight ==> {
                &&& final(self).error is None
                &&& final(self).task_in_flight == (r is Some)
                &&& (r is Some) == (resolved_url(
                        client.spec_base_url(),
                        "users"@,
                        Seq::<(Seq<char>, Seq<char>)>::empty(),
                    ) is Some)
                &&& r matches Some(q) ==> {
                    &&& resolved_url(
                        client.spec_base_url(),
                        "users"@,
                        Seq::<(Seq<char>, Seq<char>)>::empty(),
                    ) == Some(q.url@)
                    &&& q.method == Method::Post
                    &&& q.auth == client.spec_auth_header()
                    &&& q.body matches Some(b) && b@ == encode_utf8(
                        form_encoded(spec_user_form(name@, email@)),
                    )
                }
            },
    {
        self.name = name;
        self.email = email;
        if !self.task_in_flight {
            self.error = None;
            let request = client.users_create(self.name.clone(), self.email.clone());
            self.task_in_flight = request.is_some();
            request
        } else {
            None
        }
    }

    /// The response: on success leave for the user list, else show the
    /// error.
    pub fn handle_response(&mut self, r: Result<UserResponseItem, APIError>) -> (dest: Option<
        AppRoute,
    >)
        ensures
            !final(self).task_in_flight,
            match r {
                Ok(_) => dest == Some(AppRoute::Users) && final(self).error == old(self).error,
                Err(e) => dest is None && final(self).error == Some(e),
            },
            final(self).name == old(self).name,
            final(self).email == old(self).email,
    {
        self.task_in_flight = false;
        match r {
            Ok(_) => Some(AppRoute::Users),
            Err(e) => {
                self.error = Some(e);
                None
            },
        }
    }
}

} // verus!
