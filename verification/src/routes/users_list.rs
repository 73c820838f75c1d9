//! The user list page: one page of results at a time, reloaded when the
//! search term or the page changes.

use vstd::prelude::*;

use crate::api::APIClient;
use crate::api::Counted;
use crate::api::Method;
use crate::api::RequestSpec;
use crate::api::resolved_url;
use crate::api::error::APIError;
use crate::api::users::UserResponseItem;
use crate::api::users::spec_users_list_query;
use crate::numeric::div_ceil_u32;

verus! {

/// How many users one page shows.
pub const PAGE_SIZE: u32 = 10;

/// The page's state: whether a load is under way, the last error, the search
/// term, the loaded page, and the offset it was requested with.
pub struct ListUsersState {
    pub in_flight: bool,
    pub error: Option<APIError>,
    pub search: Option<String>,
    pub results: Option<Counted<UserResponseItem>>,
    pub offset: u32,
}

fn clone_search(s: &Option<String>) -> (r: Option<String>)
    ensures
        r == *s,
{
    match s {
        Some(v) => Some(v.clone()),
        None => None,
    }
}

impl ListUsersState {
    /// Opening the page requests its first page of users, unfiltered.
    pub fn init(client: &APIClient) -> (r: (ListUsersState, Option<RequestSpec>))
        ensures
            (r.1 is Some) == (resolved_url(
                    client.spec_base_url(),
                    "users"@,
                    spec_users_list_query(PAGE_SIZE, 0, None),
                ) is Some),
            r.1 matches Some(q) ==> {
                &&& resolved_url(
                    client.spec_base_url(),
                    "users"@,
                    spec_users_list_query(PAGE_SIZE, 0, None),
                ) == Some(q.url@)
                &&& q.method == Method::Get
                &&& q.auth == client.spec_auth_header()
            },
            r.0.in_flight == (r.1 is Some),
            r.0.error is None,
            r.0.search is None,
            r.0.results is None,
            r.0.offset == 0,
    {
        let request = client.users_list(PAGE_SIZE, 0, None);
        (
            ListUsersState {
                in_flight: request.is_some(),
                error: None,
                search: None,
                results: None,
                offset: 0,
            },
            request,
        )
    }

    /// A response arrived: a success shows the page, a failure shows the
    /// error and leaves the table empty.
    pub fn handle_response(&mut self, r: Result<Counted<UserResponseItem>, APIError>)
        ensures
            !final(self).in_flight,
            match r {
                Ok(x) => final(self).results == Some(x) && final(self).error == old(self).error,
                Err(e) => final(self).results is None && final(self).error == Some(e),
            },
            final(self).search == old(self).search,
            final(self).offset == old(self).offset,
    {
        self.in_flight = false;
        self.results = None;
        match r {
            Ok(x) => {
                self.results = Some(x);
            },
            Err(e) => {
                self.error = Some(e);
            },
        }
    }

    /// The reload sent whenever the search term or the page changed.
    fn reload(&mut self, client: &APIClient) -> (r: Option<RequestSpec>)
        ensures
            (r is Some) == (resolved_url(
                    client.spec_base_url(),
                    "users"@,
                    spec_users_list_query(PAGE_SIZE, old(self).offset, old(self).search),
                ) is Some),
            r matches Some(q) ==> {
                &&& resolved_url(
                    client.spec_base_url(),
                    "users"@,
                    spec_users_list_query(PAGE_SIZE, old(self).offset, old(self).search),
                ) == Some(q.url@)
                &&& q.method == Method::Get
                &&& q.auth == client.spec_auth_header()
            },
            final(self).in_flight == (r is Some),
            final(self).error == old(self).error,
            final(self).search == old(self).search,
            final(self).results == old(self).results,
            final(self).offset == old(self).offset,
    {
        let request = client.users_list(PAGE_SIZE, self.offset, clone_search(&self.search));
        self.in_flight = request.is_some();
        request
    }

    /// The debounced search fired: keep the term and reload.
    pub fn search_change(&mut self, client: &APIClient, s: Option<String>) -> (r: Option<
        RequestSpec,
    >)
        ensures
            final(self).search == s,
            (r is Some) == (resolved_url(
                    client.spec_base_url(),
                    "users"@,
                    spec_users_list_query(PAGE_SIZE, old(self).offset, s),
                ) is Some),
            r matches Some(q) ==> {
                &&& resolved_url(
                    client.spec_base_url(),
                    "users"@,
                    spec_users_list_query(PAGE_SIZE, old(self).offset, s),
                ) == Some(q.url@)
                &&& q.method == Method::Get
                &&& q.auth == client.spec_auth_header()
            },
            final(self).in_flight == (r is Some),
            final(self).error == old(self).error,
            final(self).results == old(self).results,
            final(self).offset == old(self).offset,
    {
        self.search = s;
        self.reload(client)
    }

    /// A page button was used: keep the new offset and reload.
    pub fn page_change(&mut self, client: &APIClient, page: u32) -> (r: Option<RequestSpec>)
        requires
            page <= u32::MAX / PAGE_SIZE,
        ensures
            final(self).offset == page * PAGE_SIZE,
            (r is Some) == (resolved_url(
                    client.spec_base_url(),
                    "users"@,
                    spec_users_list_query(PAGE_SIZE, (page * PAGE_SIZE) as u32, old(self).search),
                ) is Some),
            r matches Some(q) ==> {
                &&& resolved_url(
                    client.spec_base_url(),
                    "users"@,
                    spec_users_list_query(PAGE_SIZE, (page * PAGE_SIZE) as u32, old(self).search),
                ) == Some(q.url@)
                &&& q.method == Method::Get
                &&& q.auth == client.spec_auth_header()
            },
            final(self).in_flight == (r is Some),
            final(self).error == old(self).error,
            final(self).search == old(self).search,
            final(self).results == old(self).results,
    {
        proof {
            assert(page * PAGE_SIZE <= (u32::MAX / PAGE_SIZE) * PAGE_SIZE <= u32::MAX)
                by (nonlinear_arith)
                requires
                    page <= u32::MAX / PAGE_SIZE,
            ;
        }
        self.offset = page * PAGE_SIZE;
        self.reload(client)
    }

    /// The page the shown offset belongs to.
    pub fn current_page(&self) -> (r: u32)
        ensures
            r == self.offset / PAGE_SIZE,
    {
        self.offset / PAGE_SIZE
    }

    /// How many pages the loaded total fills; a missing result counts as one
    /// page.
    pub fn total_pages(&self) -> (r: u32)
        ensures
            match self.results {
                None => r == 1,
                Some(x) => r == (x.total + PAGE_SIZE - 1) / (PAGE_SIZE as int),
            },
    {
        match &self.results {
            None => 1,
            Some(x) => div_ceil_u32(x.total, PAGE_SIZE),
        }
    }
}

} // verus!
