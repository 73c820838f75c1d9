//! The user-management endpoints: list with paging and search, create, get,
//! update, delete.

use vstd::prelude::*;

use crate::api::APIClient;
use crate::api::Method;
use crate::api::RequestSpec;
use crate::api::FormUrlEncoded;
use crate::api::RequestBody;
use vstd::utf8::encode_utf8;

use crate::api::form_encoded;
use crate::api::resolved_url;
use crate::numeric::spec_dec;
use crate::numeric::format_u32;

verus! {

/// One user record as the backend returns it.
#[derive(Debug, Clone, PartialEq)]
pub struct UserResponseItem {
    pub id: u32,
    pub name: String,
    pub email: String,
}

/// The query of a user-list request: paging first, then the search term if
/// one was given.
pub open spec fn spec_users_list_query(limit: u32, offset: u32, search: Option<String>) -> Seq<
    (Seq<char>, Seq<char>),
> {
    let paging = seq![("limit"@, spec_dec(limit as nat)), ("offset"@, spec_dec(offset as nat))];
    match search {
        Some(s) => paging.push(("search"@, s@)),
        None => paging,
    }
}

/// The form of a create or update request.
pub open spec fn spec_user_form(name: Seq<char>, email: Seq<char>) -> Seq<(Seq<char>, Seq<char>)> {
    seq![("name"@, name), ("email"@, email)]
}

/// The path of a single-user endpoint: `users/{id}`.
pub open spec fn spec_user_path(id: u32) -> Seq<char> {
    "users/"@ + spec_dec(id as nat)
}

fn user_path(id: u32) -> (r: String)
    ensures
        r@ == spec_user_path(id),
{
    let mut s = String::from_str("users/");
    s.append(format_u32(id).as_str());
    s
}

impl APIClient {
    pub fn users_list(&self, limit: u32, offset: u32, search: Option<String>) -> (r: Option<
        RequestSpec,
    >)
        ensures
            (r is Some) == (resolved_url(
                    self.spec_base_url(),
                    "users"@,
                    spec_users_list_query(limit, offset, search),
                ) is Some),
            r matches Some(q) ==> {
                &&& resolved_url(
                    self.spec_base_url(),
                    "users"@,
                    spec_users_list_query(limit, offset, search),
                ) == Some(q.url@)
                &&& q.method == Method::Get
                &&& q.content_type is None
                &&& q.auth == self.spec_auth_header()
                &&& q.body is None
            },
    {
        let mut query: Vec<(String, String)> = Vec::new();
        query.push((String::from_str("limit"), format_u32(limit)));
        query.push((String::from_str("offset"), format_u32(offset)));
        match search {
            None => {},
            Some(s) => {
                query.push((String::from_str("search"), s));
            },
        }
        proof {
            assert(crate::api::spec_pairs(query@) =~= spec_users_list_query(
                limit,
                offset,
                search,
            ));
        }
        self.get("users", query)
    }

    pub fn users_create(&self, name: String, email: String) -> (r: Option<RequestSpec>)
        ensures
            (r is Some) == (resolved_url(
                    self.spec_base_url(),
                    "users"@,
                    Seq::<(Seq<char>, Seq<char>)>::empty(),
                ) is Some),
            r matches Some(q) ==> {
                &&& resolved_url(
                    self.spec_base_url(),
                    "users"@,
                    Seq::<(Seq<char>, Seq<char>)>::empty(),
                ) == Some(q.url@)
                &&& q.method == Method::Post
                &&& q.content_type matches Some(c) && c@ == "application/x-www-form-urlencoded"@
                &&& q.auth == self.spec_auth_header()
                &&& q.body matches Some(b) && b@ == encode_utf8(
                    form_encoded(spec_user_form(name@, email@)),
                )
            },
    {
        let mut body: Vec<(String, String)> = Vec::new();
        body.push((String::from_str("name"), name));
        body.push((String::from_str("email"), email));
        proof {
            assert(crate::api::spec_pairs(body@) =~= spec_user_form(body@[0].1@, body@[1].1@));
            assert(crate::api::spec_pairs(Seq::<(String, String)>::empty()) =~= Seq::<
                (Seq<char>, Seq<char>),
            >::empty());
        }
        self.post("users", Vec::new(), FormUrlEncoded(body))
    }

    pub fn users_get(&self, id: u32) -> (r: Option<RequestSpec>)
        ensures
            (r is Some) == (resolved_url(
                    self.spec_base_url(),
                    spec_user_path(id),
                    Seq::<(Seq<char>, Seq<char>)>::empty(),
                ) is Some),
            r matches Some(q) ==> {
                &&& resolved_url(
                    self.spec_base_url(),
                    spec_user_path(id),
                    Seq::<(Seq<char>, Seq<char>)>::empty(),
                ) == Some(q.url@)
                &&& q.method == Method::Get
                &&& q.content_type is None
                &&& q.auth == self.spec_auth_header()
                &&& q.body is None
            },
    {
        proof {
            assert(crate::api::spec_pairs(Seq::<(String, String)>::empty()) =~= Seq::<
                (Seq<char>, Seq<char>),
            >::empty());
        }
        self.get(user_path(id).as_str(), Vec::new())
    }

    pub fn users_update(&self, id: u32, name: String, email: String) -> (r: Option<RequestSpec>)
        ensures
            (r is Some) == (resolved_url(
                    self.spec_base_url(),
                    spec_user_path(id),
                    Seq::<(Seq<char>, Seq<char>)>::empty(),
                ) is Some),
            r matches Some(q) ==> {
                &&& resolved_url(
                    self.spec_base_url(),
                    spec_user_path(id),
                    Seq::<(Seq<char>, Seq<char>)>::empty(),
                ) == Some(q.url@)
                &&& q.method == Method::Put
                &&& q.content_type matches Some(c) && c@ == "application/x-www-form-urlencoded"@
                &&& q.auth == self.spec_auth_header()
                &&& q.body matches Some(b) && b@ == encode_utf8(
                    form_encoded(spec_user_form(name@, email@)),
                )
            },
    {
        let mut body: Vec<(String, String)> = Vec::new();
        body.push((String::from_str("name"), name));
        body.push((String::from_str("email"), email));
        proof {
            assert(crate::api::spec_pairs(body@) =~= spec_user_form(body@[0].1@, body@[1].1@));
            assert(crate::api::spec_pairs(Seq::<(String, String)>::empty()) =~= Seq::<
                (Seq<char>, Seq<char>),
            >::empty());
        }
        self.put(user_path(id).as_str(), Vec::new(), FormUrlEncoded(body))
    }

    pub fn users_delete(&self, id: u32) -> (r: Option<RequestSpec>)
        ensures
            (r is Some) == (resolved_url(
                    self.spec_base_url(),
                    spec_user_path(id),
                    Seq::<(Seq<char>, Seq<char>)>::empty(),
                ) is Some),
            r matches Some(q) ==> {
                &&& resolved_url(
                    self.spec_base_url(),
                    spec_user_path(id),
                    Seq::<(Seq<char>, Seq<char>)>::empty(),
                ) == Some(q.url@)
                &&& q.method == Method::Delete
                &&& q.content_type is None
                &&& q.auth == self.spec_auth_header()
                &&& q.body is None
            },
    {
        proof {
            assert(crate::api::spec_pairs(Seq::<(String, String)>::empty()) =~= Seq::<
                (Seq<char>, Seq<char>),
            >::empty());
        }
        self.delete(user_path(id).as_str(), Vec::new())
    }
}

} // verus!
