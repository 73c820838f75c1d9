//! The gallery: categories, gallery records with their size variants, the
//! choice of which variant to show at a given display width, and the gallery
//! endpoints.

use vstd::prelude::*;
use vstd::utf8::encode_utf8;

use crate::api::APIClient;
use crate::api::Method;
use crate::api::RequestSpec;
use crate::api::FormUrlEncoded;
use crate::api::RequestBody;
use crate::api::form_encoded;
use crate::api::resolved_url;
use crate::api::multipart::Multipart;
use crate::api::multipart::MultipartFile;
use crate::api::multipart::spec_alphanumeric;
use crate::api::multipart::spec_multipart_body;
use crate::numeric::spec_dec;
use crate::numeric::format_u32;

verus! {

/// The four gallery categories.
#[derive(Debug, Clone, Copy, PartialEq, Eq, Hash, Structural)]
pub enum Category {
    Staircases,
    Windows,
    Doors,
    Other,
}

/// The wire form of a category, as the backend expects it.
pub open spec fn spec_category_key(c: Category) -> Seq<char> {
    match c {
        Category::Staircases => "STAIRCASES"@,
        Category::Windows => "WINDOWS"@,
        Category::Doors => "DOORS"@,
        Category::Other => "OTHER"@,
    }
}

/// The category name shown to the user.
pub open spec fn spec_category_name(c: Category) -> Seq<char> {
    match c {
        Category::Staircases => "Staircases"@,
        Category::Windows => "Windows"@,
        Category::Doors => "Doors"@,
        Category::Other => "Other"@,
    }
}

impl Category {
    /// The wire form sent in request bodies: the upper-case variant name.
    pub fn serialize(&self) -> (r: String)
        ensures
            r@ == spec_category_key(*self),
    {
        match self {
            Category::Staircases => String::from_str("STAIRCASES"),
            Category::Windows => String::from_str("WINDOWS"),
            Category::Doors => String::from_str("DOORS"),
            Category::Other => String::from_str("OTHER"),
        }
    }

    /// The name shown in headings and selectors.
    pub fn name(&self) -> (r: String)
        ensures
            r@ == spec_category_name(*self),
    {
        match self {
            Category::Staircases => String::from_str("Staircases"),
            Category::Windows => String::from_str("Windows"),
            Category::Doors => String::from_str("Doors"),
            Category::Other => String::from_str("Other"),
        }
    }

    /// Every category, in declaration order.
    pub fn all() -> (r: Vec<Category>)
        ensures
            r@ =~= seq![
                Category::Staircases,
                Category::Windows,
                Category::Doors,
                Category::Other,
            ],
    {
        let mut v: Vec<Category> = Vec::new();
        v.push(Category::Staircases);
        v.push(Category::Windows);
        v.push(Category::Doors);
        v.push(Category::Other);
        v
    }
}

/// One stored size variant of a gallery image.
#[derive(Debug, PartialEq)]
pub struct GalleryFileResponse {
    pub url: String,
    pub height: u32,
    pub width: u32,
    pub bytes: u32,
}

impl Clone for GalleryFileResponse {
    fn clone(&self) -> (r: Self)
        ensures
            r == *self,
    {
        GalleryFileResponse {
            url: self.url.clone(),
            height: self.height,
            width: self.width,
            bytes: self.bytes,
        }
    }
}

/// One gallery record with all its size variants.
#[derive(Debug, Clone, PartialEq)]
pub struct GalleryItemResponse {
    pub id: u32,
    pub description: String,
    pub category: Category,
    pub files: Vec<GalleryFileResponse>,
}

/// Whether some variant is at least `w` wide.
pub open spec fn spec_has_geq(files: Seq<GalleryFileResponse>, w: u32) -> bool {
    exists|i: int| 0 <= i < files.len() && (#[trigger] files[i]).width >= w
}

/// Whether some variant is at most `w` wide.
pub open spec fn spec_has_leq(files: Seq<GalleryFileResponse>, w: u32) -> bool {
    exists|i: int| 0 <= i < files.len() && (#[trigger] files[i]).width <= w
}

/// The index of the narrowest variant at least `w` wide; the first such index
/// on a tie, as `Iterator::min_by_key` picks it.
pub open spec fn spec_geq_choice(files: Seq<GalleryFileResponse>, w: u32) -> Option<int>
    decreases files.len(),
{
    if files.len() == 0 {
        None
    } else {
        let rest = spec_geq_choice(files.drop_last(), w);
        let last_ok = files.last().width >= w;
        match rest {
            None => if last_ok {
                Some(files.len() - 1)
            } else {
                None
            },
            Some(i) => if last_ok && files.last().width < files[i].width {
                Some(files.len() - 1)
            } else {
                Some(i)
            },
        }
    }
}

/// The index of the widest variant at most `w` wide; the last such index on a
/// tie, as `Iterator::max_by_key` picks it.
pub open spec fn spec_leq_choice(files: Seq<GalleryFileResponse>, w: u32) -> Option<int>
    decreases files.len(),
{
    if files.len() == 0 {
        None
    } else {
        let rest = spec_leq_choice(files.drop_last(), w);
        let last_ok = files.last().width <= w;
        match rest {
            None => if last_ok {
                Some(files.len() - 1)
            } else {
                None
            },
            Some(i) => if last_ok && files.last().width >= files[i].width {
                Some(files.len() - 1)
            } else {
                Some(i)
            },
        }
    }
}

proof fn lemma_geq_choice_props(files: Seq<GalleryFileResponse>, w: u32)
    ensures
        (spec_geq_choice(files, w) is Some) == spec_has_geq(files, w),
        spec_geq_choice(files, w) matches Some(i) ==> {
            &&& 0 <= i < files.len()
            &&& files[i].width >= w
            &&& forall|j: int|
                0 <= j < files.len() && (#[trigger] files[j]).width >= w ==> files[i].width
                    <= files[j].width
        },
    decreases files.len(),
{
    if files.len() > 0 {
        lemma_geq_choice_props(files.drop_last(), w);
        assert(forall|j: int|
            0 <= j < files.len() - 1 ==> #[trigger] files[j] == files.drop_last()[j]);
        if files.last().width >= w {
            assert(files[files.len() - 1].width >= w);
        }
        if spec_has_geq(files, w) && !(files.last().width >= w) {
            let j = choose|j: int| 0 <= j < files.len() && (#[trigger] files[j]).width >= w;
            assert(files.drop_last()[j].width >= w);
            assert(spec_has_geq(files.drop_last(), w));
        }
    }
}

proof fn lemma_leq_choice_props(files: Seq<GalleryFileResponse>, w: u32)
    ensures
        (spec_leq_choice(files, w) is Some) == spec_has_leq(files, w),
        spec_leq_choice(files, w) matches Some(i) ==> {
            &&& 0 <= i < files.len()
            &&& files[i].width <= w
            &&& forall|j: int|
                0 <= j < files.len() && (#[trigger] files[j]).width <= w ==> files[i].width
                    >= files[j].width
        },
    decreases files.len(),
{
    if files.len() > 0 {
        lemma_leq_choice_props(files.drop_last(), w);
        assert(forall|j: int|
            0 <= j < files.len() - 1 ==> #[trigger] files[j] == files.drop_last()[j]);
        if files.last().width <= w {
            assert(files[files.len() - 1].width <= w);
        }
        if spec_has_leq(files, w) && !(files.last().width <= w) {
            let j = choose|j: int| 0 <= j < files.len() && (#[trigger] files[j]).width <= w;
            assert(files.drop_last()[j].width <= w);
            assert(spec_has_leq(files.drop_last(), w));
        }
    }
}

impl GalleryItemResponse {
    /// The narrowest variant at least `width` wide, if any: just enough
    /// pixels for a slot of that width.
    pub fn image_with_width_geq(&self, width: u32) -> (r: Option<&GalleryFileResponse>)
        ensures
            (r is Some) == spec_has_geq(self.files@, width),
            r matches Some(f) ==> {
                &&& spec_geq_choice(self.files@, width) matches Some(i) && *f == self.files@[i]
                &&& f.width >= width
                &&& forall|j: int|
                    0 <= j < self.files@.len() && (#[trigger] self.files@[j]).width >= width
                        ==> f.width <= self.files@[j].width
            },
    {
        let ghost files = self.files@;
        let mut best: Option<usize> = None;
        let mut i: usize = 0;
        while i < self.files.len()
            invariant
                i <= files.len(),
                files == self.files@,
                match best {
                    None => spec_geq_choice(files.take(i as int), width) is None,
                    Some(b) => b < i && spec_geq_choice(files.take(i as int), width) == Some(
                        b as int,
                    ),
                },
            decreases files.len() - i,
        {
            proof {
                assert(files.take(i + 1).drop_last() =~= files.take(i as int));
                assert(files.take(i + 1).last() == files[i as int]);
                if spec_geq_choice(files.take(i as int), width) is Some {
                    let b = spec_geq_choice(files.take(i as int), width)->0;
                    assert(files.take(i as int)[b] == files[b]);
                }
            }
            if self.files[i].width >= width {
                match best {
                    None => best = Some(i),
                    Some(b) => {
                        if self.files[i].width < self.files[b].width {
                            best = Some(i);
                        }
                    },
                }
            }
            i = i + 1;
        }
        proof {
            assert(files.take(files.len() as int) =~= files);
            lemma_geq_choice_props(files, width);
        }
        match best {
            None => None,
            Some(b) => Some(&self.files[b]),
        }
    }

    /// The widest variant at most `width` wide, if any: the best fallback
    /// when nothing reaches the slot width.
    pub fn image_with_width_leq(&self, width: u32) -> (r: Option<&GalleryFileResponse>)
        ensures
            (r is Some) == spec_has_leq(self.files@, width),
            r matches Some(f) ==> {
                &&& spec_leq_choice(self.files@, width) matches Some(i) && *f == self.files@[i]
                &&& f.width <= width
                &&& forall|j: int|
                    0 <= j < self.files@.len() && (#[trigger] self.files@[j]).width <= width
                        ==> f.width >= self.files@[j].width
            },
    {
        let ghost files = self.files@;
        let mut best: Option<usize> = None;
        let mut i: usize = 0;
        while i < self.files.len()
            invariant
                i <= files.len(),
                files == self.files@,
                match best {
                    None => spec_leq_choice(files.take(i as int), width) is None,
                    Some(b) => b < i && spec_leq_choice(files.take(i as int), width) == Some(
                        b as int,
                    ),
                },
            decreases files.len() - i,
        {
            proof {
                assert(files.take(i + 1).drop_last() =~= files.take(i as int));
                assert(files.take(i + 1).last() == files[i as int]);
                if spec_leq_choice(files.take(i as int), width) is Some {
                    let b = spec_leq_choice(files.take(i as int), width)->0;
                    assert(files.take(i as int)[b] == files[b]);
                }
            }
            if self.files[i].width <= width {
                match best {
                    None => best = Some(i),
                    Some(b) => {
                        if self.files[i].width >= self.files[b].width {
                            best = Some(i);
                        }
                    },
                }
            }
            i = i + 1;
        }
        proof {
            assert(files.take(files.len() as int) =~= files);
            lemma_leq_choice_props(files, width);
        }
        match best {
            None => None,
            Some(b) => Some(&self.files[b]),
        }
    }

    /// The variant shown in a slot `width` pixels wide: just-wide-enough if
    /// one exists, else the widest one narrower than the slot.
    pub fn best_matching_width(&self, width: u32) -> (r: Option<&GalleryFileResponse>)
        ensures
            spec_has_geq(self.files@, width) ==> {
                &&& spec_geq_choice(self.files@, width) matches Some(i) && r matches Some(f) && *f
                    == self.files@[i]
            },
            !spec_has_geq(self.files@, width) && spec_has_leq(self.files@, width) ==> {
                &&& spec_leq_choice(self.files@, width) matches Some(i) && r matches Some(f) && *f
                    == self.files@[i]
            },
            !spec_has_geq(self.files@, width) && !spec_has_leq(self.files@, width) ==> r is None,
    {
        let first = self.image_with_width_geq(width);
        match first {
            Some(f) => Some(f),
            None => self.image_with_width_leq(width),
        }
    }
}

/// The path of a single-item endpoint: `gallery/{id}`.
pub open spec fn spec_gallery_path(id: u32) -> Seq<char> {
    "gallery/"@ + spec_dec(id as nat)
}

fn gallery_path(id: u32) -> (r: String)
    ensures
        r@ == spec_gallery_path(id),
{
    let mut s = String::from_str("gallery/");
    s.append(format_u32(id).as_str());
    s
}

/// The form of a gallery update: description, category, optionally which item
/// to move after, and whether the item moves to the front.
pub open spec fn spec_gallery_update_form(
    description: Seq<char>,
    category: Category,
    move_after_id: Option<u32>,
    move_to_front: bool,
) -> Seq<(Seq<char>, Seq<char>)> {
    let head = seq![
        ("description"@, description),
        ("category"@, spec_category_key(category)),
    ];
    let mid = match move_after_id {
        Some(id) => head.push(("move_after_id"@, spec_dec(id as nat))),
        None => head,
    };
    mid.push(
        (
            "move_to_front"@,
            if move_to_front {
                "true"@
            } else {
                "false"@
            },
        ),
    )
}

/// A well-formed multipart boundary: what `Multipart::new` draws.
pub open spec fn spec_boundary_wf(b: Seq<char>) -> bool {
    b.len() == 65 && forall|i: int| 0 <= i < b.len() ==> spec_alphanumeric(#[trigger] b[i])
}

/// The shape of the upload request: POST to `gallery`, carrying a multipart
/// body with the description field, the category field, and the image bytes
/// under the field name `image`, all framed by some well-formed boundary
/// named in the content type.
pub open spec fn spec_gallery_create_request(
    q: RequestSpec,
    base: Seq<char>,
    auth: Option<crate::auth::BasicCredentials>,
    image_name: Seq<char>,
    image_content: Seq<u8>,
    description: Seq<char>,
    category: Category,
) -> bool {
    &&& resolved_url(base, "gallery"@, Seq::<(Seq<char>, Seq<char>)>::empty()) == Some(q.url@)
    &&& q.method == Method::Post
    &&& q.auth == auth
    &&& exists|b: Seq<char>|
        {
            &&& #[trigger] spec_boundary_wf(b)
            &&& q.content_type matches Some(c) && c@ == "multipart/form-data; boundary="@ + b
            &&& q.body matches Some(body) && exists|fields: Seq<(String, String)>, file: MultipartFile|
                {
                    &&& fields.len() == 2
                    &&& (#[trigger] fields[0]).0@ == "description"@
                    &&& fields[0].1@ == description
                    &&& fields[1].0@ == "category"@
                    &&& fields[1].1@ == spec_category_key(category)
                    &&& file.name@ == "image"@
                    &&& file.data@ == image_content
                    &&& file.filename matches Some(n) && n@ == image_name
                    &&& file.mime is None
                    &&& body@ == #[trigger] spec_multipart_body(b, fields, seq![file])
                }
        }
}

impl APIClient {
    pub fn gallery_list(&self) -> (r: Option<RequestSpec>)
        ensures
            (r is Some) == (resolved_url(
                    self.spec_base_url(),
                    "gallery/list"@,
                    Seq::<(Seq<char>, Seq<char>)>::empty(),
                ) is Some),
            r matches Some(q) ==> {
                &&& resolved_url(
                    self.spec_base_url(),
                    "gallery/list"@,
                    Seq::<(Seq<char>, Seq<char>)>::empty(),
                ) == Some(q.url@)
                &&& q.method == Method::Get
                &&& q.content_type is None
                &&& q.auth == self.spec_auth_header()
                &&& q.body is None
            },
    {
        proof {
            assert(crate::api::spec_pairs(Seq::<(String, String)>::empty()) =~= Seq::<
                (Seq<char>, Seq<char>),
            >::empty());
        }
        self.get("gallery/list", Vec::new())
    }

    /// The upload request: a multipart body holding the description, the
    /// category, and the image bytes under their file name.
    pub fn gallery_create(
        &self,
        image_name: String,
        image_content: Vec<u8>,
        description: String,
        category: &Category,
    ) -> (r: Option<RequestSpec>)
        ensures
            (r is Some) == (resolved_url(
                self.spec_base_url(),
                "gallery"@,
                Seq::<(Seq<char>, Seq<char>)>::empty(),
            ) is Some),
            r matches Some(q) ==> spec_gallery_create_request(
                q,
                self.spec_base_url(),
                self.spec_auth_header(),
                image_name@,
                image_content@,
                description@,
                *category,
            ),
    {
        let mut form = Multipart::new();
        form.add_text("description", description);
        form.add_text("category", category.serialize());
        form.add_file(MultipartFile::new("image", image_content, Some(image_name)));
        let ghost b0 = form.spec_boundary();
        let ghost fields0 = form.spec_texts();
        let ghost file0 = form.spec_files().last();
        proof {
            assert(form.spec_files() =~= seq![file0]);
            assert(crate::api::spec_pairs(Seq::<(String, String)>::empty()) =~= Seq::<
                (Seq<char>, Seq<char>),
            >::empty());
        }
        let r = self.post("gallery", Vec::new(), form);
        proof {
            if r is Some {
                assert(spec_boundary_wf(b0));
                assert(r->0.body matches Some(body) && body@ == spec_multipart_body(
                    b0,
                    fields0,
                    seq![file0],
                ));
            }
        }
        r
    }

    pub fn gallery_update(
        &self,
        id: u32,
        description: String,
        category: Category,
        move_after_id: Option<u32>,
        move_to_front: bool,
    ) -> (r: Option<RequestSpec>)
        ensures
            (r is Some) == (resolved_url(
                    self.spec_base_url(),
                    spec_gallery_path(id),
                    Seq::<(Seq<char>, Seq<char>)>::empty(),
                ) is Some),
            r matches Some(q) ==> {
                &&& resolved_url(
                    self.spec_base_url(),
                    spec_gallery_path(id),
                    Seq::<(Seq<char>, Seq<char>)>::empty(),
                ) == Some(q.url@)
                &&& q.method == Method::Put
                &&& q.content_type matches Some(c) && c@ == "application/x-www-form-urlencoded"@
                &&& q.auth == self.spec_auth_header()
                &&& q.body matches Some(b) && b@ == encode_utf8(
                    form_encoded(
                        spec_gallery_update_form(
                            description@,
                            category,
                            move_after_id,
                            move_to_front,
                        ),
                    ),
                )
            },
    {
        let mut body: Vec<(String, String)> = Vec::new();
        body.push((String::from_str("description"), description));
        body.push((String::from_str("category"), category.serialize()));
        match move_after_id {
            None => {},
            Some(after) => {
                body.push((String::from_str("move_after_id"), format_u32(after)));
            },
        }
        body.push(
            (
                String::from_str("move_to_front"),
                if move_to_front {
                    String::from_str("true")
                } else {
                    String::from_str("false")
                },
            ),
        );
        proof {
            assert(crate::api::spec_pairs(body@) =~= spec_gallery_update_form(
                body@[0].1@,
                category,
                move_after_id,
                move_to_front,
            ));
            assert(crate::api::spec_pairs(Seq::<(String, String)>::empty()) =~= Seq::<
                (Seq<char>, Seq<char>),
            >::empty());
        }
        self.put(gallery_path(id).as_str(), Vec::new(), FormUrlEncoded(body))
    }

    pub fn gallery_get(&self, id: u32) -> (r: Option<RequestSpec>)
        ensures
            (r is Some) == (resolved_url(
                    self.spec_base_url(),
                    spec_gallery_path(id),
                    Seq::<(Seq<char>, Seq<char>)>::empty(),
                ) is Some),
            r matches Some(q) ==> {
                &&& resolved_url(
                    self.spec_base_url(),
                    spec_gallery_path(id),
                    Seq::<(Seq<char>, Seq<char>)>::empty(),
                ) == Some(q.url@)
                &&& q.method == Method::Get
                &&& q.content_type is None
                &&& q.auth == self.spec_auth_header()
                &&& q.body is None
            },
    {
        proof {
            assert(crate::api::spec_pairs(Seq::<(String, String)>::empty()) =~= Seq::<
                (Seq<char>, Seq<char>),
            >::empty());
        }
        self.get(gallery_path(id).as_str(), Vec::new())
    }

    pub fn gallery_delete(&self, id: u32) -> (r: Option<RequestSpec>)
        ensures
            (r is Some) == (resolved_url(
                    self.spec_base_url(),
                    spec_gallery_path(id),
                    Seq::<(Seq<char>, Seq<char>)>::empty(),
                ) is Some),
            r matches Some(q) ==> {
                &&& resolved_url(
                    self.spec_base_url(),
                    spec_gallery_path(id),
                    Seq::<(Seq<char>, Seq<char>)>::empty(),
                ) == Some(q.url@)
                &&& q.method == Method::Delete
                &&& q.content_type is None
                &&& q.auth == self.spec_auth_header()
                &&& q.body is None
            },
    {
        proof {
            assert(crate::api::spec_pairs(Seq::<(String, String)>::empty()) =~= Seq::<
                (Seq<char>, Seq<char>),
            >::empty());
        }
        self.delete(gallery_path(id).as_str(), Vec::new())
    }
}

} // verus!
