//! The gallery edit page: load the item, show its best size variant, change
//! the description or category, or delete the item.

use vstd::prelude::*;
use vstd::utf8::encode_utf8;

use crate::api::APIClient;
use crate::api::Method;
use crate::api::RequestSpec;
use crate::api::resolved_url;
use crate::api::form_encoded;
use crate::api::error::APIError;
use crate::api::gallery::Category;
use crate::api::gallery::GalleryFileResponse;
use crate::api::gallery::GalleryItemResponse;
use crate::api::gallery::spec_gallery_path;
use crate::api::gallery::spec_gallery_update_form;
use crate::api::gallery::spec_has_geq;
use crate::api::gallery::spec_has_leq;
use crate::api::gallery::spec_geq_choice;
use crate::api::gallery::spec_leq_choice;
use crate::routes::AppRoute;

verus! {

/// How wide the preview slot of the edit page is.
pub const PREVIEW_WIDTH: u32 = 800;

/// The page's state: the id being edited, the form, the preview image
/// chosen from the item's size variants, which requests are under way, and
/// the errors of the three request kinds.
pub struct EditGalleryItemState {
    pub item_id: u32,
    pub description: String,
    pub category: Category,
    pub image: Option<GalleryFileResponse>,
    pub load_in_flight: bool,
    pub task_in_flight: bool,
    pub load_error: Option<APIError>,
    pub edit_error: Option<APIError>,
    pub delete_error: Option<APIError>,
}

impl EditGalleryItemState {
    /// Opening the page loads the item.
    pub fn init(client: &APIClient, item_id: u32) -> (r: (EditGalleryItemState, Option<
        RequestSpec,
    >))
        ensures
            (r.1 is Some) == (resolved_url(
                    client.spec_base_url(),
                    spec_gallery_path(item_id),
                    Seq::<(Seq<char>, Seq<char>)>::empty(),
                ) is Some),
            r.1 matches Some(q) ==> {
                &&& resolved_url(
                    client.spec_base_url(),
                    spec_gallery_path(item_id),
                    Seq::<(Seq<char>, Seq<char>)>::empty(),
                ) == Some(q.url@)
                &&& q.method == Method::Get
                &&& q.auth == client.spec_auth_header()
            },
            r.0.item_id == item_id,
            r.0.load_in_flight == (r.1 is Some),
            !r.0.task_in_flight,
            r.0.load_error is None,
            r.0.edit_error is None,
            r.0.delete_error is None,
            r.0.image is None,
            r.0.description@ == ""@,
            r.0.category == Category::Staircases,
    {
        let request = client.gallery_get(item_id);
        (
            EditGalleryItemState {
                item_id,
                description: String::from_str(""),
                category: Category::Staircases,
                image: None,
                load_in_flight: request.is_some(),
                task_in_flight: false,
                load_error: None,
                edit_error: None,
                delete_error: None,
            },
            request,
        )
    }

    /// The item arrived: fill the form and pick the preview variant, or
    /// show the load error.
    pub fn handle_load_response(&mut self, r: Result<GalleryItemResponse, APIError>)
        ensures
            !final(self).load_in_flight,
            match r {
                Ok(x) => {
                    &&& final(self).description == x.description
                    &&& final(self).category == x.category
                    &&& final(self).load_error == old(self).load_error
                    &&& spec_has_geq(x.files@, PREVIEW_WIDTH) ==> (spec_geq_choice(
                        x.files@,
                        PREVIEW_WIDTH,
                    ) matches Some(i) && final(self).image == Some(x.files@[i]))
                    &&& (!spec_has_geq(x.files@, PREVIEW_WIDTH) && spec_has_leq(
                        x.files@,
                        PREVIEW_WIDTH,
                    )) ==> (spec_leq_choice(x.files@, PREVIEW_WIDTH) matches Some(i) && final(self).image == Some(x.files@[i]))
                    &&& (!spec_has_geq(x.files@, PREVIEW_WIDTH) && !spec_has_leq(
                        x.files@,
                        PREVIEW_WIDTH,
                    )) ==> final(self).image is None
                },
                Err(e) => final(self).load_error == Some(e) && final(self).description == old(self).description && final(self).category == old(self).category && final(self).image
                    == old(self).image,
            },
            final(self).item_id == old(self).item_id,
            final(self).task_in_flight == old(self).task_in_flight,
            final(self).edit_error == old(self).edit_error,
            final(self).delete_error == old(self).delete_error,
    {
        self.load_in_flight = false;
        match r {
            Ok(x) => {
                self.image = match x.best_matching_width(PREVIEW_WIDTH) {
                    Some(f) => Some(f.clone()),
                    None => None,
                };
                self.description = x.description;
                self.category = x.category;
            },
            Err(e) => {
                self.load_error = Some(e);
            },
        }
    }

    /// The form was submitted: keep the description, and send the update
    /// (without any reordering) unless a load or another submit is still
    /// under way.
    pub fn submit(&mut self, client: &APIClient, description: String) -> (r: Option<RequestSpec>)
        ensures
            final(self).description == description,
            (old(self).load_in_flight || old(self).task_in_flight) ==> (r is None && final(self).task_in_flight == old(self).task_in_flight && final(self).edit_error == old(self).edit_error),
            !(old(self).load_in_flight || old(self).task_in_flight) ==> {
                &&& final(self).edit_error is None
                &&& final(self).task_in_flight == (r is Some)
                &&& (r is Some) == (resolved_url(
                        client.spec_base_url(),
                        spec_gallery_path(old(self).item_id),
                        Seq::<(Seq<char>, Seq<char>)>::empty(),
                    ) is Some)
                &&& r matches Some(q) ==> {
                    &&& resolved_url(
                        client.spec_base_url(),
                        spec_gallery_path(old(self).item_id),
                        Seq::<(Seq<char>, Seq<char>)>::empty(),
                    ) == Some(q.url@)
                    &&& q.method == Method::Put
                    &&& q.auth == client.spec_auth_header()
                    &&& q.body matches Some(b) && b@ == encode_utf8(
                        form_encoded(
                            spec_gallery_update_form(
                                description@,
                                old(self).category,
                                None,
                                false,
                            ),
                        ),
                    )
                }
            },
            final(self).item_id == old(self).item_id,
            final(self).category == old(self).category,
            final(self).image == old(self).image,
            final(self).load_in_flight == old(self).load_in_flight,
            final(self).load_error == old(self).load_error,
            final(self).delete_error == old(self).delete_error,
    {
        self.description = description;
        if !self.load_in_flight && !self.task_in_flight {
            self.edit_error = None;
            let request = client.gallery_update(
                self.item_id,
                self.description.clone(),
                self.category,
                None,
                false,
            );
            self.task_in_flight = request.is_some();
            request
        } else {
            None
        }
    }

    /// The category selector changed.
    pub fn category_change(&mut self, c: Category)
        ensures
            final(self).category == c,
            final(self).description == old(self).description,
            final(self).item_id == old(self).item_id,
            final(self).image == old(self).image,
            final(self).load_in_flight == old(self).load_in_flight,
            final(self).task_in_flight == old(self).task_in_flight,
            final(self).load_error == old(self).load_error,
            final(self).edit_error == old(self).edit_error,
            final(self).delete_error == old(self).delete_error,
    {
        self.category = c;
    }

    /// The update's response: on success leave for the gallery, else show
    /// the edit error.
    pub fn handle_edit_response(&mut self, r: Result<(), APIError>) -> (dest: Option<AppRoute>)
        ensures
            !final(self).task_in_flight,
            match r {
                Ok(_) => dest == Some(AppRoute::Gallery) && final(self).edit_error == old(self).edit_error,
                Err(e) => dest is None && final(self).edit_error == Some(e),
            },
            final(self).item_id == old(self).item_id,
            final(self).description == old(self).description,
            final(self).category == old(self).category,
            final(self).image == old(self).image,
            final(self).load_in_flight == old(self).load_in_flight,
            final(self).load_error == old(self).load_error,
            final(self).delete_error == old(self).delete_error,
    {
        self.task_in_flight = false;
        match r {
            Ok(_) => Some(AppRoute::Gallery),
            Err(e) => {
                self.edit_error = Some(e);
                None
            },
        }
    }

    /// The delete was confirmed: clear the old delete error and send it.
    pub fn confirm_delete(&mut self, client: &APIClient) -> (r: Option<RequestSpec>)
        ensures
            final(self).delete_error is None,
            final(self).task_in_flight == (r is Some),
            (r is Some) == (resolved_url(
                    client.spec_base_url(),
                    spec_gallery_path(old(self).item_id),
                    Seq::<(Seq<char>, Seq<char>)>::empty(),
                ) is Some),
            r matches Some(q) ==> {
                &&& resolved_url(
                    client.spec_base_url(),
                    spec_gallery_path(old(self).item_id),
                    Seq::<(Seq<char>, Seq<char>)>::empty(),
                ) == Some(q.url@)
                &&& q.method == Method::Delete
                &&& q.auth == client.spec_auth_header()
            },
            final(self).item_id == old(self).item_id,
            final(self).description == old(self).description,
            final(self).category == old(self).category,
            final(self).image == old(self).image,
            final(self).load_in_flight == old(self).load_in_flight,
            final(self).load_error == old(self).load_error,
            final(self).edit_error == old(self).edit_error,
    {
        self.delete_error = None;
        let request = client.gallery_delete(self.item_id);
        self.task_in_flight = request.is_some();
        request
    }

    /// The delete's response: on success leave for the gallery, else show
    /// the delete error.
    pub fn handle_delete_response(&mut self, r: Result<(), APIError>) -> (dest: Option<AppRoute>)
        ensures
            !final(self).task_in_flight,
            match r {
                Ok(_) => dest == Some(AppRoute::Gallery) && final(self).delete_error == old(self).delete_error,
                Err(e) => dest is None && final(self).delete_error == Some(e),
            },
            final(self).item_id == old(self).item_id,
            final(self).description == old(self).description,
            final(self).category == old(self).category,
            final(self).image == old(self).image,
            final(self).load_in_flight == old(self).load_in_flight,
            final(self).load_error == old(self).load_error,
            final(self).edit_error == old(self).edit_error,
    {
        self.task_in_flight = false;
        match r {
            Ok(_) => Some(AppRoute::Gallery),
            Err(e) => {
                self.delete_error = Some(e);
                None
            },
        }
    }
}

} // verus!
