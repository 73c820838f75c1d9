//! The gallery overview: the items grouped by category, and the drag-reorder
//! that moves an item and tells the backend what moved where.

use vstd::prelude::*;

use crate::api::APIClient;
use crate::api::Method;
use crate::api::RequestSpec;
use crate::api::resolved_url;
use vstd::utf8::encode_utf8;
use crate::api::form_encoded;
use crate::api::error::APIError;
use crate::api::gallery::Category;
use crate::api::gallery::GalleryItemResponse;
use crate::api::gallery::spec_gallery_path;
use crate::api::gallery::spec_gallery_update_form;

verus! {

/// The loaded gallery: each category's items, in backend order.
pub type GalleryByCategory = Vec<(Category, Vec<GalleryItemResponse>)>;

/// Move one element of `v` from `old_index` to `new_index`, keeping the
/// order of everything else — what the drag gesture does to the local list.
pub fn reorder<T>(v: &mut Vec<T>, old_index: usize, new_index: usize)
    requires
        old_index < old(v)@.len(),
        new_index < old(v)@.len(),
    ensures
        final(v)@ == old(v)@.remove(old_index as int).insert(
            new_index as int,
            old(v)@[old_index as int],
        ),
{
    let moved = v.remove(old_index);
    v.insert(new_index, moved);
}

/// The first group holding `c`, if any.
pub open spec fn spec_find_category(rs: Seq<(Category, Vec<GalleryItemResponse>)>, c: Category) -> Option<
    int,
>
    decreases rs.len(),
{
    if rs.len() == 0 {
        None
    } else if rs[0].0 == c {
        Some(0int)
    } else {
        match spec_find_category(rs.drop_first(), c) {
            Some(i) => Some(i + 1),
            None => None,
        }
    }
}

fn find_category(rs: &GalleryByCategory, c: Category) -> (r: Option<usize>)
    ensures
        match r {
            Some(i) => i < rs@.len() && spec_find_category(rs@, c) == Some(i as int),
            None => spec_find_category(rs@, c) is None,
        },
{
    let mut i: usize = 0;
    while i < rs.len()
        invariant
            i <= rs@.len(),
            forall|j: int| 0 <= j < i ==> (#[trigger] rs@[j]).0 != c,
        decreases rs@.len() - i,
    {
        proof {
            lemma_find_category_step(rs@, c, i as int);
        }
        if rs[i].0 == c {
            return Some(i);
        }
        i = i + 1;
    }
    proof {
        lemma_find_category_none(rs@, c);
    }
    None
}

proof fn lemma_find_category_step(rs: Seq<(Category, Vec<GalleryItemResponse>)>, c: Category, i: int)
    requires
        0 <= i < rs.len(),
        forall|j: int| 0 <= j < i ==> (#[trigger] rs[j]).0 != c,
    ensures
        rs[i].0 == c ==> spec_find_category(rs, c) == Some(i),
    decreases i,
{
    if rs.len() > 0 && rs[0].0 != c {
        if i > 0 {
            lemma_find_category_step(rs.drop_first(), c, i - 1);
        }
    }
}

proof fn lemma_find_category_none(rs: Seq<(Category, Vec<GalleryItemResponse>)>, c: Category)
    requires
        forall|j: int| 0 <= j < rs.len() ==> (#[trigger] rs[j]).0 != c,
    ensures
        spec_find_category(rs, c) is None,
    decreases rs.len(),
{
    if rs.len() > 0 {
        lemma_find_category_none(rs.drop_first(), c);
    }
}

/// The page's state: whether a request is under way, the last error, the
/// loaded groups, and the flag that forces the lists to re-render after a
/// local move.
pub struct ListGalleryState {
    pub in_flight: bool,
    pub error: Option<APIError>,
    pub results: Option<GalleryByCategory>,
    pub do_refresh: bool,
}

impl ListGalleryState {
    /// Opening the page shows nothing yet; the first render requests the
    /// list.
    pub fn init() -> (r: ListGalleryState)
        ensures
            !r.in_flight,
            r.error is None,
            r.results is None,
            !r.do_refresh,
    {
        ListGalleryState { in_flight: false, error: None, results: None, do_refresh: false }
    }

    /// The reload request for the whole gallery.
    pub fn refresh(&mut self, client: &APIClient) -> (r: Option<RequestSpec>)
        ensures
            (r is Some) == (resolved_url(
                    client.spec_base_url(),
                    "gallery/list"@,
                    Seq::<(Seq<char>, Seq<char>)>::empty(),
                ) is Some),
            r matches Some(q) ==> {
                &&& resolved_url(
                    client.spec_base_url(),
                    "gallery/list"@,
                    Seq::<(Seq<char>, Seq<char>)>::empty(),
                ) == Some(q.url@)
                &&& q.method == Method::Get
                &&& q.auth == client.spec_auth_header()
            },
            final(self).in_flight == (r is Some),
            final(self).error == old(self).error,
            final(self).results == old(self).results,
            final(self).do_refresh == old(self).do_refresh,
    {
        let request = client.gallery_list();
        self.in_flight = request.is_some();
        request
    }

    /// The list arrived: a success replaces the groups, a failure clears
    /// them and shows the error.
    pub fn handle_response(&mut self, r: Result<GalleryByCategory, APIError>)
        ensures
            !final(self).in_flight,
            match r {
                Ok(x) => final(self).results == Some(x) && final(self).error is None,
                Err(e) => final(self).results is None && final(self).error == Some(e),
            },
            final(self).do_refresh == old(self).do_refresh,
    {
        self.in_flight = false;
        match r {
            Ok(x) => {
                self.error = None;
                self.results = Some(x);
            },
            Err(e) => {
                self.results = None;
                self.error = Some(e);
            },
        }
    }

    /// A drag ended: move the item locally, and tell the backend which item
    /// it now follows — or that it moved to the front.
    pub fn position_change(
        &mut self,
        client: &APIClient,
        category: Category,
        old_index: usize,
        new_index: usize,
    ) -> (r: Option<RequestSpec>)
        requires
            old(self).results matches Some(rs) && spec_find_category(rs@, category) matches Some(
                ci,
            ) && old_index < rs@[ci].1@.len() && new_index < rs@[ci].1@.len(),
        ensures
            ({
                let rs = old(self).results->0;
                let ci = spec_find_category(rs@, category)->0;
                let list = rs@[ci].1;
                let item = list@[old_index as int];
                let move_to_front = new_index == 0;
                let move_after_id: Option<u32> = if new_index == 0 {
                    None
                } else {
                    Some(
                        list@[if new_index > old_index {
                            new_index as int
                        } else {
                            new_index - 1
                        }].id,
                    )
                };
                &&& (r is Some) == (resolved_url(
                        client.spec_base_url(),
                        spec_gallery_path(item.id),
                        Seq::<(Seq<char>, Seq<char>)>::empty(),
                    ) is Some)
                &&& r matches Some(q) ==> {
                    &&& resolved_url(
                        client.spec_base_url(),
                        spec_gallery_path(item.id),
                        Seq::<(Seq<char>, Seq<char>)>::empty(),
                    ) == Some(q.url@)
                    &&& q.method == Method::Put
                    &&& q.auth == client.spec_auth_header()
                    &&& q.body matches Some(b) && b@ == encode_utf8(
                        form_encoded(
                            spec_gallery_update_form(
                                item.description@,
                                item.category,
                                move_after_id,
                                move_to_front,
                            ),
                        ),
                    )
                }
                &&& final(self).results matches Some(nrs) && nrs@.len() == rs@.len() && (forall|
                    j: int,
                |
                    0 <= j < rs@.len() && j != ci ==> nrs@[j] == rs@[j]) && nrs@[ci].0 == rs@[ci].0
                    && nrs@[ci].1@ == list@.remove(old_index as int).insert(
                    new_index as int,
                    item,
                )
                &&& final(self).in_flight == (r is Some)
                &&& final(self).do_refresh
                &&& final(self).error == old(self).error
            }),
    {
        let mut rs = self.results.take().unwrap();
        let ci = find_category(&rs, category).unwrap();
        let mut group = rs.remove(ci);
        let item_id = group.1[old_index].id;
        let description = group.1[old_index].description.clone();
        let item_category = group.1[old_index].category;
        let (move_to_front, move_after_id) = if new_index == 0 {
            (true, None)
        } else {
            let prev_index = if new_index > old_index {
                new_index
            } else {
                new_index - 1
            };
            (false, Some(group.1[prev_index].id))
        };
        reorder(&mut group.1, old_index, new_index);
        rs.insert(ci, group);
        proof {
            assert(rs@ =~= old(self).results->0@.update(
                spec_find_category(old(self).results->0@, category)->0,
                rs@[spec_find_category(old(self).results->0@, category)->0],
            ));
        }
        self.results = Some(rs);
        let request = client.gallery_update(
            item_id,
            description,
            item_category,
            move_after_id,
            move_to_front,
        );
        self.in_flight = request.is_some();
        self.do_refresh = true;
        request
    }

    /// The forced re-render happened.
    pub fn complete_refresh(&mut self)
        ensures
            !final(self).do_refresh,
            final(self).in_flight == old(self).in_flight,
            final(self).error == old(self).error,
            final(self).results == old(self).results,
    {
        self.do_refresh = false;
    }
}

} // verus!
