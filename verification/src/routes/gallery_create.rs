//! The image upload page: a chosen file is measured before upload, warnings
//! are shown for small or oddly-shaped images, and the upload is a multipart
//! request.

use vstd::prelude::*;

use crate::api::APIClient;
use crate::api::RequestSpec;
use crate::api::error::APIError;
use crate::api::error::spec_error_message;
use crate::api::gallery::Category;
use crate::api::gallery::spec_gallery_create_request;
use crate::routes::AppRoute;

verus! {

/// Images below this pixel count get a resolution warning.
pub const MIN_RECOMMENDED_RESOLUTION: u64 = 1920 * 1080;

/// What `imagesize::blob_size` reads out of the first bytes of an image
/// file: its width and height, or the error message for bytes it cannot
/// read. The result depends on the bytes alone.
pub uninterp spec fn blob_dimensions(data: Seq<u8>) -> Result<(usize, usize), Seq<char>>;

/// Relies on `imagesize::blob_size`: it decodes only the image header, never
/// panics, and its result is a function of the bytes alone.
#[verifier::external_body]
fn image_blob_size(data: &Vec<u8>) -> (r: Result<(usize, usize), String>)
    ensures
        match r {
            Ok(d) => blob_dimensions(data@) == Ok::<(usize, usize), Seq<char>>(d),
            Err(e) => blob_dimensions(data@) matches Err(m) && e@ == m,
        },
{
    match imagesize::blob_size(data) {
        Ok(s) => Ok((s.width, s.height)),
        Err(e) => Err(e.to_string()),
    }
}

/// The two warnings shown under a chosen image.
#[derive(Debug, Clone, Copy, PartialEq, Eq, Structural)]
pub struct ImageWarnings {
    /// The image has fewer pixels than the recommended minimum.
    pub low_resolution: bool,
    /// The image is not 16:9.
    pub wrong_aspect: bool,
}

/// The warnings for an image of the given dimensions: too few pixels, and an
/// aspect ratio other than 16:9 (compared exactly, by cross-multiplication).
pub fn image_warnings(width: usize, height: usize) -> (r: ImageWarnings)
    requires
        height >= 1,
    ensures
        r.low_resolution == (width * height < MIN_RECOMMENDED_RESOLUTION),
        r.wrong_aspect == (9 * width != 16 * height),
{
    proof {
        assert((width as int) * (height as int) <= 0xffff_ffff_ffff_ffff
            * 0xffff_ffff_ffff_ffff) by (nonlinear_arith)
            requires
                width <= 0xffff_ffff_ffff_ffffu64,
                height <= 0xffff_ffff_ffff_ffffu64,
        ;
    }
    let resolution: u128 = (width as u128) * (height as u128);
    let low_resolution = resolution < MIN_RECOMMENDED_RESOLUTION as u128;
    let wrong_aspect = 9 * (width as u128) != 16 * (height as u128);
    ImageWarnings { low_resolution, wrong_aspect }
}

/// A chosen image file, measured.
pub struct SelectedImage {
    pub name: String,
    pub content: Vec<u8>,
    pub width: usize,
    pub height: usize,
}

/// What this page can fail with: the backend's error, or an image whose
/// format could not be read.
#[derive(Debug, Clone, PartialEq)]
pub enum CreateError {
    API(APIError),
    Image(String),
}

/// The message shown for each page error.
pub open spec fn spec_create_error_message(e: CreateError) -> Seq<char> {
    match e {
        CreateError::API(a) => spec_error_message(a),
        CreateError::Image(m) => m@,
    }
}

impl CreateError {
    pub fn message(&self) -> (r: String)
        ensures
            r@ == spec_create_error_message(*self),
    {
        match self {
            CreateError::API(a) => a.message(),
            CreateError::Image(m) => m.clone(),
        }
    }
}

/// The page's state: the form, the measured image once one was chosen, and
/// whether the upload is under way.
pub struct CreateGalleryItemState {
    pub description: String,
    pub category: Category,
    pub image: Option<SelectedImage>,
    pub task_in_flight: bool,
    pub error: Option<CreateError>,
}

impl CreateGalleryItemState {
    pub fn init() -> (r: CreateGalleryItemState)
        ensures
            r.description@ == ""@,
            r.category == Category::Staircases,
            r.image is None,
            !r.task_in_flight,
            r.error is None,
    {
        CreateGalleryItemState {
            description: String::from_str(""),
            category: Category::Staircases,
            image: None,
            task_in_flight: false,
            error: None,
        }
    }

    /// A chosen file finished reading: measure it; readable bytes become
    /// the selected image, unreadable ones show the reader's error.
    pub fn file_loaded(&mut self, name: String, content: Vec<u8>)
        ensures
            match blob_dimensions(content@) {
                Ok(d) => {
                    &&& final(self).image matches Some(img) && img.name == name && img.content
                        == content && img.width == d.0 && img.height == d.1
                    &&& final(self).error is None
                },
                Err(m) => {
                    &&& final(self).image is None
                    &&& final(self).error matches Some(e) && e matches CreateError::Image(s) && s@
                        == m
                },
            },
            final(self).description == old(self).description,
            final(self).category == old(self).category,
            final(self).task_in_flight == old(self).task_in_flight,
    {
        self.image = None;
        self.error = None;
        match image_blob_size(&content) {
            Ok(d) => {
                self.image = Some(
                    SelectedImage { name, content, width: d.0, height: d.1 },
                );
            },
            Err(e) => {
                self.error = Some(CreateError::Image(e));
            },
        }
    }

    /// The warnings shown for the selected image, if one is selected.
    pub fn selected_image_warnings(&self) -> (r: Option<ImageWarnings>)
        requires
            self.image matches Some(img) ==> img.height >= 1,
        ensures
            match self.image {
                Some(img) => r matches Some(w) && w.low_resolution == (img.width * img.height
                    < MIN_RECOMMENDED_RESOLUTION) && w.wrong_aspect == (9 * img.width != 16
                    * img.height),
                None => r is None,
            },
    {
        match &self.image {
            Some(img) => Some(image_warnings(img.width, img.height)),
            None => None,
        }
    }

    /// The form was submitted: keep the description, and send the upload
    /// built from the selected image.
    pub fn submit(&mut self, client: &APIClient, description: String) -> (r: Option<RequestSpec>)
        requires
            old(self).image is Some,
        ensures
            final(self).description == description,
            (r is Some) == (crate::api::resolved_url(
                client.spec_base_url(),
                "gallery"@,
                Seq::<(Seq<char>, Seq<char>)>::empty(),
            ) is Some),
            r matches Some(q) ==> spec_gallery_create_request(
                q,
                client.spec_base_url(),
                client.spec_auth_header(),
                old(self).image->0.name@,
                old(self).image->0.content@,
                description@,
                old(self).category,
            ),
            final(self).task_in_flight == (r is Some),
            final(self).category == old(self).category,
            final(self).image matches Some(img) && img.name == old(self).image->0.name
                && img.content == old(self).image->0.content && img.width == old(
                self,
            ).image->0.width && img.height == old(self).image->0.height,
            final(self).error == old(self).error,
    {
        self.description = description;
        let image = self.image.as_ref().unwrap();
        let content = vstd::slice::slice_to_vec(image.content.as_slice());
        let request = client.gallery_create(
            image.name.clone(),
            content,
            self.description.clone(),
            &self.category,
        );
        self.task_in_flight = request.is_some();
        request
    }

    /// The upload's response: on success leave for the gallery, else show
    /// the backend's error.
    pub fn handle_response(&mut self, r: Result<(), APIError>) -> (dest: Option<AppRoute>)
        ensures
            !final(self).task_in_flight,
            match r {
                Ok(_) => dest == Some(AppRoute::Gallery) && final(self).error == old(self).error,
                Err(e) => dest is None && final(self).error == Some(CreateError::API(e)),
            },
            final(self).description == old(self).description,
            final(self).category == old(self).category,
            final(self).image == old(self).image,
    {
        self.task_in_flight = false;
        match r {
            Ok(_) => Some(AppRoute::Gallery),
            Err(e) => {
                self.error = Some(CreateError::API(e));
                None
            },
        }
    }

    /// The category selector changed.
    pub fn category_change(&mut self, c: Category)
        ensures
            final(self).category == c,
            final(self).description == old(self).description,
            final(self).image == old(self).image,
            final(self).task_in_flight == old(self).task_in_flight,
            final(self).error == old(self).error,
    {
        self.category = c;
    }
}

} // verus!
