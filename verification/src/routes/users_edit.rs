//! The user edit page: load the record, submit changes, or delete the user.

use vstd::prelude::*;

use crate::api::APIClient;
use crate::api::Method;
use crate::api::RequestSpec;
use crate::api::resolved_url;
use vstd::utf8::encode_utf8;
use crate::api::form_encoded;
use crate::api::error::APIError;
use crate::api::users::UserResponseItem;
use crate::api::users::spec_user_form;
use crate::api::users::spec_user_path;
use crate::routes::AppRoute;

verus! {

/// The page's state: the id being edited, the form fields, which requests
/// are under way, and the errors of the three request kinds.
pub struct EditUserState {
    pub user_id: u32,
    pub name: String,
    pub email: String,
    pub load_in_flight: bool,
    pub task_in_flight: bool,
    pub load_error: Option<APIError>,
    pub edit_error: Option<APIError>,
    pub delete_error: Option<APIError>,
}

impl EditUserState {
    /// Opening the page loads the record.
    pub fn init(client: &APIClient, user_id: u32) -> (r: (EditUserState, Option<RequestSpec>))
        ensures
            (r.1 is Some) == (resolved_url(
                    client.spec_base_url(),
                    spec_user_path(user_id),
                    Seq::<(Seq<char>, Seq<char>)>::empty(),
                ) is Some),
            r.1 matches Some(q) ==> {
                &&& resolved_url(
                    client.spec_base_url(),
                    spec_user_path(user_id),
                    Seq::<(Seq<char>, Seq<char>)>::empty(),
                ) == Some(q.url@)
                &&& q.method == Method::Get
                &&& q.auth == client.spec_auth_header()
            },
            r.0.user_id == user_id,
            r.0.load_in_flight == (r.1 is Some),
            !r.0.task_in_flight,
            r.0.load_error is None,
            r.0.edit_error is None,
            r.0.delete_error is None,
            r.0.name@ == ""@,
            r.0.email@ == ""@,
    {
        let request = client.users_get(user_id);
        (
            EditUserState {
                user_id,
                name: String::from_str(""),
                email: String::from_str(""),
                load_in_flight: request.is_some(),
                task_in_flight: false,
                load_error: None,
                edit_error: None,
                delete_error: None,
            },
            request,
        )
    }

    /// The record arrived: fill the form, or show the load error.
    pub fn handle_load_response(&mut self, r: Result<UserResponseItem, APIError>)
        ensures
            !final(self).load_in_flight,
            match r {
                Ok(x) => final(self).name == x.name && final(self).email == x.email && final(self).load_error == old(self).load_error,
                Err(e) => final(self).load_error == Some(e) && final(self).name == old(self).name
                    && final(self).email == old(self).email,
            },
            final(self).user_id == old(self).user_id,
            final(self).task_in_flight == old(self).task_in_flight,
            final(self).edit_error == old(self).edit_error,
            final(self).delete_error == old(self).delete_error,
    {
        self.load_in_flight = false;
        match r {
            Ok(x) => {
                self.name = x.name;
                self.email = x.email;
            },
            Err(e) => {
                self.load_error = Some(e);
            },
        }
    }

    /// The form was submitted: keep the entered fields, and send the update
    /// unless a load or another submit is still under way.
    pub fn submit(&mut self, client: &APIClient, name: String, email: String) -> (r: Option<
        RequestSpec,
    >)
        ensures
            final(self).name == name,
            final(self).email == email,
            (old(self).load_in_flight || old(self).task_in_flight) ==> (r is None && final(self).task_in_flight == old(self).task_in_flight && final(self).edit_error == old(self).edit_error),
            !(old(self).load_in_flight || old(self).task_in_flight) ==> {
                &&& final(self).edit_error is None
                &&& final(self).task_in_flight == (r is Some)
                &&& (r is Some) == (resolved_url(
                        client.spec_base_url(),
                        spec_user_path(old(self).user_id),
                        Seq::<(Seq<char>, Seq<char>)>::empty(),
                    ) is Some)
                &&& r matches Some(q) ==> {
                    &&& resolved_url(
                        client.spec_base_url(),
                        spec_user_path(old(self).user_id),
                        Seq::<(Seq<char>, Seq<char>)>::empty(),
                    ) == Some(q.url@)
                    &&& q.method == Method::Put
                    &&& q.auth == client.spec_auth_header()
                    &&& q.body matches Some(b) && b@ == encode_utf8(
                        form_encoded(spec_user_form(name@, email@)),
                    )
                }
            },
            final(self).user_id == old(self).user_id,
            final(self).load_in_flight == old(self).load_in_flight,
            final(self).load_error == old(self).load_error,
            final(self).delete_error == old(self).delete_error,
    {
        self.name = name;
        self.email = email;
        if !self.load_in_flight && !self.task_in_flight {
            self.edit_error = None;
            let request = client.users_update(self.user_id, self.name.clone(), self.email.clone());
            self.task_in_flight = request.is_some();
            request
        } else {
            None
        }
    }

    /// The update's response: on success leave for the user list, else show
    /// the edit error.
    pub fn handle_edit_response(&mut self, r: Result<UserResponseItem, APIError>) -> (dest: Option<
        AppRoute,
    >)
        ensures
            !final(self).task_in_flight,
            match r {
                Ok(_) => dest == Some(AppRoute::Users) && final(self).edit_error == old(self).edit_error,
                Err(e) => dest is None && final(self).edit_error == Some(e),
            },
            final(self).user_id == old(self).user_id,
            final(self).name == old(self).name,
            final(self).email == old(self).email,
            final(self).load_in_flight == old(self).load_in_flight,
            final(self).load_error == old(self).load_error,
            final(self).delete_error == old(self).delete_error,
    {
        self.task_in_flight = false;
        match r {
            Ok(_) => Some(AppRoute::Users),
            Err(e) => {
                self.edit_error = Some(e);
                None
            },
        }
    }

    /// The delete was confirmed: clear the old delete error and send it.
    pub fn confirm_delete(&mut self, client: &APIClient) -> (r: Option<RequestSpec>)
        ensures
            final(self).delete_error is None,
            final(self).task_in_flight == (r is Some),
            (r is Some) == (resolved_url(
                    client.spec_base_url(),
                    spec_user_path(old(self).user_id),
                    Seq::<(Seq<char>, Seq<char>)>::empty(),
                ) is Some),
            r matches Some(q) ==> {
                &&& resolved_url(
                    client.spec_base_url(),
                    spec_user_path(old(self).user_id),
                    Seq::<(Seq<char>, Seq<char>)>::empty(),
                ) == Some(q.url@)
                &&& q.method == Method::Delete
                &&& q.auth == client.spec_auth_header()
            },
            final(self).user_id == old(self).user_id,
            final(self).name == old(self).name,
            final(self).email == old(self).email,
            final(self).load_in_flight == old(self).load_in_flight,
            final(self).load_error == old(self).load_error,
            final(self).edit_error == old(self).edit_error,
    {
        self.delete_error = None;
        let request = client.users_delete(self.user_id);
        self.task_in_flight = request.is_some();
        request
    }

    /// The delete's response: on success leave for the user list, else show
    /// the delete error.
    pub fn handle_delete_response(&mut self, r: Result<(), APIError>) -> (dest: Option<AppRoute>)
        ensures
            !final(self).task_in_flight,
            match r {
                Ok(_) => dest == Some(AppRoute::Users) && final(self).delete_error == old(self).delete_error,
                Err(e) => dest is None && final(self).delete_error == Some(e),
            },
            final(self).user_id == old(self).user_id,
            final(self).name == old(self).name,
            final(self).email == old(self).email,
            final(self).load_in_flight == old(self).load_in_flight,
            final(self).load_error == old(self).load_error,
            final(self).edit_error == old(self).edit_error,
    {
        self.task_in_flight = false;
        match r {
            Ok(_) => Some(AppRoute::Users),
            Err(e) => {
                self.delete_error = Some(e);
                None
            },
        }
    }
}

} // verus!
