//! The routing table: every page's path, the parse of a browser location
//! back into a page, and the auth redirects applied on each route change.

pub mod forgot_password;
pub mod gallery_create;
pub mod gallery_edit;
pub mod gallery_list;
pub mod login;
pub mod password_reset;
pub mod users_create;
pub mod users_edit;
pub mod users_list;

use vstd::prelude::*;

use crate::numeric::spec_dec;
use crate::numeric::spec_parse_u32;
use crate::numeric::format_u32;
use crate::numeric::parse_u32;
use crate::numeric::lemma_dec_round_trip;

verus! {

/// The pages of the console. `NotFound` carries the path that matched no
/// page.
#[derive(Debug, Clone, PartialEq)]
pub enum AppRoute {
    Login,
    ForgotPassword,
    ResetPassword,
    GalleryCreate,
    GalleryEdit(u32),
    Gallery,
    UsersCreate,
    UserEdit(u32),
    Users,
    Dashboard,
    NotFound(Option<String>),
}

/// The spec-level parse result; the unmatched path is carried as a character
/// sequence.
pub enum ParsedRoute {
    Login,
    ForgotPassword,
    ResetPassword,
    GalleryCreate,
    GalleryEdit(u32),
    Gallery,
    UsersCreate,
    UserEdit(u32),
    Users,
    Dashboard,
    NotFound(Seq<char>),
}

pub open spec fn spec_starts_with(s: Seq<char>, p: Seq<char>) -> bool {
    s.len() >= p.len() && s.take(p.len() as int) == p
}

/// Which page a browser path names. Fixed paths match exactly; under
/// `/gallery/` and `/users/` a numeric rest names the edit pages; `/` is the
/// dashboard; any other path starting with `/` is unmatched; a path without a
/// leading `/` names nothing.
pub open spec fn spec_parse_route(s: Seq<char>) -> Option<ParsedRoute> {
    if s.len() == 0 || s[0] != '/' {
        None
    } else if s == "/login"@ {
        Some(ParsedRoute::Login)
    } else if s == "/forgot_password"@ {
        Some(ParsedRoute::ForgotPassword)
    } else if s == "/password_reset"@ {
        Some(ParsedRoute::ResetPassword)
    } else if s == "/gallery/create"@ {
        Some(ParsedRoute::GalleryCreate)
    } else if spec_starts_with(s, "/gallery/"@) && spec_parse_u32(
        s.skip("/gallery/"@.len() as int),
    ) is Some {
        Some(ParsedRoute::GalleryEdit(spec_parse_u32(s.skip("/gallery/"@.len() as int))->0))
    } else if s == "/gallery"@ {
        Some(ParsedRoute::Gallery)
    } else if s == "/users/create"@ {
        Some(ParsedRoute::UsersCreate)
    } else if spec_starts_with(s, "/users/"@) && spec_parse_u32(
        s.skip("/users/"@.len() as int),
    ) is Some {
        Some(ParsedRoute::UserEdit(spec_parse_u32(s.skip("/users/"@.len() as int))->0))
    } else if s == "/users"@ {
        Some(ParsedRoute::Users)
    } else if s == "/"@ {
        Some(ParsedRoute::Dashboard)
    } else {
        Some(ParsedRoute::NotFound(s.skip(1)))
    }
}

/// The path of each page.
pub open spec fn spec_route_path(r: AppRoute) -> Seq<char> {
    match r {
        AppRoute::Login => "/login"@,
        AppRoute::ForgotPassword => "/forgot_password"@,
        AppRoute::ResetPassword => "/password_reset"@,
        AppRoute::GalleryCreate => "/gallery/create"@,
        AppRoute::GalleryEdit(id) => "/gallery/"@ + spec_dec(id as nat),
        AppRoute::Gallery => "/gallery"@,
        AppRoute::UsersCreate => "/users/create"@,
        AppRoute::UserEdit(id) => "/users/"@ + spec_dec(id as nat),
        AppRoute::Users => "/users"@,
        AppRoute::Dashboard => "/"@,
        AppRoute::NotFound(t) => match t {
            Some(s) => "/"@ + s@,
            None => "/"@,
        },
    }
}

/// Whether visiting this page needs a signed-in user.
pub open spec fn spec_requires_auth(p: ParsedRoute) -> bool {
    match p {
        ParsedRoute::Login => false,
        ParsedRoute::ForgotPassword => false,
        ParsedRoute::ResetPassword => false,
        ParsedRoute::NotFound(_) => false,
        _ => true,
    }
}

/// Whether a signed-in user is sent away from this page.
pub open spec fn spec_redirect_if_logged_in(p: ParsedRoute) -> bool {
    match p {
        ParsedRoute::Login => true,
        ParsedRoute::ForgotPassword => true,
        ParsedRoute::ResetPassword => true,
        _ => false,
    }
}

/// The spec-level mirror of a page value; the unmatched path becomes its
/// character sequence.
pub open spec fn spec_parsed_of(r: AppRoute) -> ParsedRoute {
    match r {
        AppRoute::Login => ParsedRoute::Login,
        AppRoute::ForgotPassword => ParsedRoute::ForgotPassword,
        AppRoute::ResetPassword => ParsedRoute::ResetPassword,
        AppRoute::GalleryCreate => ParsedRoute::GalleryCreate,
        AppRoute::GalleryEdit(id) => ParsedRoute::GalleryEdit(id),
        AppRoute::Gallery => ParsedRoute::Gallery,
        AppRoute::UsersCreate => ParsedRoute::UsersCreate,
        AppRoute::UserEdit(id) => ParsedRoute::UserEdit(id),
        AppRoute::Users => ParsedRoute::Users,
        AppRoute::Dashboard => ParsedRoute::Dashboard,
        AppRoute::NotFound(t) => ParsedRoute::NotFound(
            match t {
                Some(s) => s@,
                None => Seq::empty(),
            },
        ),
    }
}

/// Character-wise string equality.
pub(crate) fn str_eq(a: &str, b: &str) -> (r: bool)
    ensures
        r == (a@ == b@),
{
    let la = a.unicode_len();
    let lb = b.unicode_len();
    if la != lb {
        return false;
    }
    let mut i: usize = 0;
    while i < la
        invariant
            i <= la,
            la == a@.len(),
            la == b@.len(),
            forall|j: int| 0 <= j < i ==> a@[j] == b@[j],
        decreases la - i,
    {
        if a.get_char(i) != b.get_char(i) {
            return false;
        }
        i = i + 1;
    }
    proof {
        assert(a@ =~= b@);
    }
    true
}

/// Whether `s` begins with `p`, character-wise.
pub(crate) fn str_starts_with(s: &str, p: &str) -> (r: bool)
    ensures
        r == spec_starts_with(s@, p@),
{
    let ls = s.unicode_len();
    let lp = p.unicode_len();
    if ls < lp {
        return false;
    }
    let head = s.substring_char(0, lp);
    str_eq(head, p)
}

impl AppRoute {
    /// The browser path of this page.
    pub fn to_path(&self) -> (r: String)
        ensures
            r@ == spec_route_path(*self),
    {
        match self {
            AppRoute::Login => String::from_str("/login"),
            AppRoute::ForgotPassword => String::from_str("/forgot_password"),
            AppRoute::ResetPassword => String::from_str("/password_reset"),
            AppRoute::GalleryCreate => String::from_str("/gallery/create"),
            AppRoute::GalleryEdit(id) => {
                let mut s = String::from_str("/gallery/");
                s.append(format_u32(*id).as_str());
                s
            },
            AppRoute::Gallery => String::from_str("/gallery"),
            AppRoute::UsersCreate => String::from_str("/users/create"),
            AppRoute::UserEdit(id) => {
                let mut s = String::from_str("/users/");
                s.append(format_u32(*id).as_str());
                s
            },
            AppRoute::Users => String::from_str("/users"),
            AppRoute::Dashboard => String::from_str("/"),
            AppRoute::NotFound(t) => {
                let mut s = String::from_str("/");
                match t {
                    Some(rest) => {
                        s.append(rest.as_str());
                    },
                    None => {},
                }
                s
            },
        }
    }

    pub fn requires_auth(&self) -> (r: bool)
        ensures
            r == spec_requires_auth(spec_parsed_of(*self)),
    {
        match self {
            AppRoute::Login => false,
            AppRoute::ForgotPassword => false,
            AppRoute::ResetPassword => false,
            AppRoute::NotFound(_) => false,
            _ => true,
        }
    }

    pub fn redirect_if_logged_in(&self) -> (r: bool)
        ensures
            r == spec_redirect_if_logged_in(spec_parsed_of(*self)),
    {
        match self {
            AppRoute::Login => true,
            AppRoute::ForgotPassword => true,
            AppRoute::ResetPassword => true,
            _ => false,
        }
    }
}

/// Which page a browser path names.
pub fn parse_route(path: &str) -> (r: Option<AppRoute>)
    ensures
        ({
            let v = spec_parse_route(path@);
            match r {
                None => v is None,
                Some(AppRoute::Login) => v == Some(ParsedRoute::Login),
                Some(AppRoute::ForgotPassword) => v == Some(ParsedRoute::ForgotPassword),
                Some(AppRoute::ResetPassword) => v == Some(ParsedRoute::ResetPassword),
                Some(AppRoute::GalleryCreate) => v == Some(ParsedRoute::GalleryCreate),
                Some(AppRoute::GalleryEdit(id)) => v == Some(ParsedRoute::GalleryEdit(id)),
                Some(AppRoute::Gallery) => v == Some(ParsedRoute::Gallery),
                Some(AppRoute::UsersCreate) => v == Some(ParsedRoute::UsersCreate),
                Some(AppRoute::UserEdit(id)) => v == Some(ParsedRoute::UserEdit(id)),
                Some(AppRoute::Users) => v == Some(ParsedRoute::Users),
                Some(AppRoute::Dashboard) => v == Some(ParsedRoute::Dashboard),
                Some(AppRoute::NotFound(t)) => (t matches Some(x) && v == Some(
                    ParsedRoute::NotFound(x@),
                )),
            }
        }),
{
    let len = path.unicode_len();
    if len == 0 || path.get_char(0) != '/' {
        return None;
    }
    if str_eq(path, "/login") {
        return Some(AppRoute::Login);
    }
    if str_eq(path, "/forgot_password") {
        return Some(AppRoute::ForgotPassword);
    }
    if str_eq(path, "/password_reset") {
        return Some(AppRoute::ResetPassword);
    }
    if str_eq(path, "/gallery/create") {
        return Some(AppRoute::GalleryCreate);
    }
    if str_starts_with(path, "/gallery/") {
        proof {
            reveal_strlit("/gallery/");
        }
        let rest = path.substring_char(9, len);
        proof {
            assert(rest@ =~= path@.skip("/gallery/"@.len() as int));
        }
        match parse_u32(rest) {
            Some(id) => {
                return Some(AppRoute::GalleryEdit(id));
            },
            None => {},
        }
    }
    if str_eq(path, "/gallery") {
        return Some(AppRoute::Gallery);
    }
    if str_eq(path, "/users/create") {
        return Some(AppRoute::UsersCreate);
    }
    if str_starts_with(path, "/users/") {
        proof {
            reveal_strlit("/users/");
        }
        let rest = path.substring_char(7, len);
        proof {
            assert(rest@ =~= path@.skip("/users/"@.len() as int));
        }
        match parse_u32(rest) {
            Some(id) => {
                return Some(AppRoute::UserEdit(id));
            },
            None => {},
        }
    }
    if str_eq(path, "/users") {
        return Some(AppRoute::Users);
    }
    if str_eq(path, "/") {
        return Some(AppRoute::Dashboard);
    }
    let rest = path.substring_char(1, len).to_owned();
    proof {
        assert(rest@ =~= path@.skip(1));
    }
    Some(AppRoute::NotFound(Some(rest)))
}

/// What a route change does before the page renders.
#[derive(Debug, PartialEq)]
pub enum RouteChange {
    /// The page stands.
    Stay,
    /// The visitor is not signed in and the page needs it: go to the login
    /// page, remembering the path to return to after login.
    ReplaceWithLogin(String),
    /// The visitor is signed in and the page is for signed-out users only:
    /// go to the dashboard.
    ReplaceWithDashboard,
}

/// The redirect applied when the browser moves to `path`: to login (keeping
/// the path) when the page needs a sign-in that is missing, to the dashboard
/// when a signed-in user opens a sign-in page, and nowhere otherwise.
pub fn route_change_action(path: &str, is_authenticated: bool) -> (r: RouteChange)
    ensures
        ({
            let v = spec_parse_route(path@);
            match r {
                RouteChange::Stay => !(v matches Some(p) && (spec_requires_auth(p)
                    && !is_authenticated || spec_redirect_if_logged_in(p) && is_authenticated)),
                RouteChange::ReplaceWithLogin(redirect) => (v matches Some(p)
                    && spec_requires_auth(p) && !is_authenticated) && redirect@ == path@,
                RouteChange::ReplaceWithDashboard => (v matches Some(p) && !(spec_requires_auth(p)
                    && !is_authenticated) && spec_redirect_if_logged_in(p) && is_authenticated),
            }
        }),
{
    match parse_route(path) {
        None => RouteChange::Stay,
        Some(route) => {
            if route.requires_auth() && !is_authenticated {
                RouteChange::ReplaceWithLogin(path.to_owned())
            } else if route.redirect_if_logged_in() && is_authenticated {
                RouteChange::ReplaceWithDashboard
            } else {
                RouteChange::Stay
            }
        },
    }
}

proof fn lemma_differs_at(s: Seq<char>, p: Seq<char>, k: int)
    requires
        0 <= k < p.len(),
        k < s.len(),
        s[k] != p[k],
    ensures
        !spec_starts_with(s, p),
{
    if spec_starts_with(s, p) {
        assert(s.take(p.len() as int)[k] == s[k]);
    }
}

/// Rendering a page's path and parsing it back names the same page: the
/// router's links always land where they point.
pub proof fn lemma_route_round_trip(r: AppRoute)
    requires
        !(r matches AppRoute::NotFound(_)),
    ensures
        spec_parse_route(spec_route_path(r)) == Some(spec_parsed_of(r)),
{
    reveal_strlit("/login");
    reveal_strlit("/forgot_password");
    reveal_strlit("/password_reset");
    reveal_strlit("/gallery/create");
    reveal_strlit("/gallery/");
    reveal_strlit("/gallery");
    reveal_strlit("/users/create");
    reveal_strlit("/users/");
    reveal_strlit("/users");
    reveal_strlit("/");
    match r {
        AppRoute::GalleryEdit(id) => {
            lemma_dec_round_trip(id);
            crate::numeric::lemma_dec_all_digits(id as nat);
            let s = spec_route_path(r);
            assert(s.take("/gallery/"@.len() as int) =~= "/gallery/"@);
            assert(s.skip("/gallery/"@.len() as int) =~= spec_dec(id as nat));
            assert(s[0] == '/');
            assert(s != "/login"@ && s != "/forgot_password"@ && s != "/password_reset"@);
            if s == "/gallery/create"@ {
                assert(spec_dec(id as nat)[0] == 'c');
                assert(false);
            }
            assert(spec_parse_route(spec_route_path(r)) == Some(spec_parsed_of(r)));
        },
        AppRoute::UserEdit(id) => {
            lemma_dec_round_trip(id);
            crate::numeric::lemma_dec_all_digits(id as nat);
            let s = spec_route_path(r);
            assert(s.take("/users/"@.len() as int) =~= "/users/"@);
            assert(s.skip("/users/"@.len() as int) =~= spec_dec(id as nat));
            assert(s[0] == '/');
            assert(s[1] == 'u');
            assert(s != "/login"@ && s != "/forgot_password"@ && s != "/password_reset"@);
            assert(s != "/gallery/create"@);
            lemma_differs_at(s, "/gallery/"@, 1);
            assert(s != "/gallery"@);
            if s == "/users/create"@ {
                assert(spec_dec(id as nat)[0] == 'c');
                assert(false);
            }
            assert(spec_parse_route(spec_route_path(r)) == Some(spec_parsed_of(r)));
        },
        AppRoute::UsersCreate => {
            let s = spec_route_path(r);
            assert(s == "/users/create"@);
            assert(s[1] == 'u');
            lemma_differs_at(s, "/gallery/"@, 1);
            assert(spec_parse_route(spec_route_path(r)) == Some(spec_parsed_of(r)));
        },
        AppRoute::Login => {
            assert(spec_parse_route(spec_route_path(r)) == Some(spec_parsed_of(r)));
        },
        AppRoute::ForgotPassword => {
            assert(spec_parse_route(spec_route_path(r)) == Some(spec_parsed_of(r)));
        },
        AppRoute::ResetPassword => {
            assert(spec_parse_route(spec_route_path(r)) == Some(spec_parsed_of(r)));
        },
        AppRoute::GalleryCreate => {
            assert(spec_parse_route(spec_route_path(r)) == Some(spec_parsed_of(r)));
        },
        AppRoute::Gallery => {
            assert(spec_parse_route(spec_route_path(r)) == Some(spec_parsed_of(r)));
        },
        AppRoute::Users => {
            assert("/users"@[1] == 'u' && "/login"@[1] == 'l');
            assert("/users"@ != "/login"@);
            assert(spec_parse_route(spec_route_path(r)) == Some(spec_parsed_of(r)));
        },
        AppRoute::Dashboard => {
            assert(spec_parse_route(spec_route_path(r)) == Some(spec_parsed_of(r)));
        },
        AppRoute::NotFound(_) => {},
    }
}

} // verus!
