//! The application shell's state machine: the shared client, the global
//! loading indicator, and the signed-in user, with the transitions for
//! login, logout, and the loading messages the pages send.
//!
//! The shell performs what these transitions return: it stores or deletes
//! the credential, sends the returned request, and navigates.

use vstd::prelude::*;

use crate::api::APIClient;
use crate::api::RequestSpec;
use crate::api::resolved_url;
use crate::api::error::APIError;
use crate::api::session::LoginResponse;
use crate::api::users::UserResponseItem;
use crate::api::users::spec_user_path;
use crate::auth::PersistedAuth;
use crate::components::loading::LoadingProps;
use crate::loader_task::LoadingTaskConfig;
use crate::numeric::spec_dec;
use crate::numeric::spec_parse_u32;
use crate::numeric::parse_u32;
use crate::routes::AppRoute;
use crate::routes::RouteChange;
use crate::routes::route_change_action;

verus! {

/// Where the app navigates after a successful login: back to the page the
/// visitor was sent away from, or to the dashboard.
#[derive(Debug, PartialEq)]
pub enum LoginNavigation {
    Dashboard,
    Path(String),
}

/// The shell's state: the client shared with every page, the loading
/// indicator's props, and the signed-in user once loaded.
pub struct AppState {
    pub client: APIClient,
    pub loading: LoadingProps,
    pub current_user: Option<UserResponseItem>,
    pub user_request_in_flight: bool,
}

impl AppState {
    /// The state at startup: a stored credential, when one exists, is
    /// attached to the client.
    pub fn init(base_url: &str, stored: Option<PersistedAuth>) -> (r: AppState)
        ensures
            r.client.spec_base_url() == base_url@,
            match stored {
                Some(a) => r.client.spec_auth_header() matches Some(c) && c.username@ == spec_dec(
                    a.spec_user_id() as nat,
                ) && c.password@ == a.spec_token(),
                None => r.client.spec_auth_header() is None,
            },
            !r.loading.active,
            r.current_user is None,
            !r.user_request_in_flight,
    {
        let mut client = APIClient::new(base_url);
        match &stored {
            None => {},
            Some(a) => client.set_auth_header(a.credentials()),
        }
        AppState {
            client,
            loading: LoadingProps::default(),
            current_user: None,
            user_request_in_flight: false,
        }
    }

    /// A login succeeded: the credential to store, the request that loads
    /// the signed-in user's record, and where to navigate.
    pub fn handle_logged_in(&mut self, resp: LoginResponse, redirect_on_login: Option<String>) -> (r:
        (PersistedAuth, Option<RequestSpec>, LoginNavigation))
        ensures
            r.0.spec_user_id() == resp.user.id,
            r.0.spec_token() == resp.token@,
            final(self).client.spec_base_url() == old(self).client.spec_base_url(),
            final(self).client.spec_auth_header() matches Some(c) && c.username@ == spec_dec(
                resp.user.id as nat,
            ) && c.password@ == resp.token@,
            (r.1 is Some) == (resolved_url(
                    old(self).client.spec_base_url(),
                    spec_user_path(resp.user.id),
                    Seq::<(Seq<char>, Seq<char>)>::empty(),
                ) is Some),
            r.1 matches Some(q) ==> {
                &&& resolved_url(
                    old(self).client.spec_base_url(),
                    spec_user_path(resp.user.id),
                    Seq::<(Seq<char>, Seq<char>)>::empty(),
                ) == Some(q.url@)
                &&& q.method == crate::api::Method::Get
                &&& q.auth == final(self).client.spec_auth_header()
            },
            final(self).user_request_in_flight == (r.1 is Some),
            r.2 == match redirect_on_login {
                None => LoginNavigation::Dashboard,
                Some(p) => LoginNavigation::Path(p),
            },
            final(self).loading == old(self).loading,
            final(self).current_user == old(self).current_user,
    {
        let auth = PersistedAuth::new(resp.user.id, resp.token);
        self.client.set_auth_header(auth.credentials());
        let request = self.client.users_get(resp.user.id);
        self.user_request_in_flight = request.is_some();
        let dest = match redirect_on_login {
            None => LoginNavigation::Dashboard,
            Some(p) => LoginNavigation::Path(p),
        };
        (auth, request, dest)
    }

    /// Logout: the signed-in user and the client's credentials are dropped;
    /// the shell must also delete the stored credential, then navigate to
    /// the returned page.
    pub fn handle_logout(&mut self) -> (dest: AppRoute)
        ensures
            final(self).current_user is None,
            !final(self).user_request_in_flight,
            final(self).client.spec_auth_header() is None,
            final(self).client.spec_base_url() == old(self).client.spec_base_url(),
            final(self).loading == old(self).loading,
            dest == AppRoute::Login,
    {
        self.user_request_in_flight = false;
        self.current_user = None;
        self.client.remove_auth_header();
        AppRoute::Login
    }

    /// The signed-in user's record arrived (or failed to): only a success
    /// replaces the shown user.
    pub fn handle_user_response(&mut self, res: Result<UserResponseItem, APIError>)
        ensures
            match res {
                Ok(u) => final(self).current_user == Some(u),
                Err(_) => final(self).current_user == old(self).current_user,
            },
            final(self).client == old(self).client,
            final(self).loading == old(self).loading,
            final(self).user_request_in_flight == old(self).user_request_in_flight,
    {
        match res {
            Ok(u) => self.current_user = Some(u),
            Err(_) => {},
        }
    }

    /// The browser moved to `path`: the redirect to apply, given whether
    /// credentials are attached.
    pub fn handle_route_updated(&self, path: &str) -> (r: RouteChange)
        ensures
            ({
                let v = crate::routes::spec_parse_route(path@);
                let is_authenticated = self.client.spec_auth_header() is Some;
                match r {
                    RouteChange::Stay => !(v matches Some(p) && (crate::routes::spec_requires_auth(
                        p,
                    ) && !is_authenticated || crate::routes::spec_redirect_if_logged_in(p)
                        && is_authenticated)),
                    RouteChange::ReplaceWithLogin(redirect) => (v matches Some(p)
                        && crate::routes::spec_requires_auth(p) && !is_authenticated) && redirect@
                        == path@,
                    RouteChange::ReplaceWithDashboard => (v matches Some(p) && !(
                    crate::routes::spec_requires_auth(p) && !is_authenticated)
                        && crate::routes::spec_redirect_if_logged_in(p) && is_authenticated),
                }
            }),
    {
        let is_authenticated = self.client.auth_header().is_some();
        route_change_action(path, is_authenticated)
    }

    /// A page started the global loader.
    pub fn start_loading(&mut self, cfg: &LoadingTaskConfig)
        ensures
            final(self).loading.active,
            final(self).loading.delay_full_appearance == cfg.spec_delay_full_appearance(),
            final(self).loading.text is None,
            final(self).client == old(self).client,
            final(self).current_user == old(self).current_user,
            final(self).user_request_in_flight == old(self).user_request_in_flight,
    {
        self.loading.active = true;
        self.loading.delay_full_appearance = cfg.get_delay_full_appearance();
        self.loading.text = None;
    }

    /// The page's loading task ended.
    pub fn stop_loading(&mut self)
        ensures
            !final(self).loading.active,
            final(self).loading.delay_full_appearance == old(self).loading.delay_full_appearance,
            final(self).loading.text == old(self).loading.text,
            final(self).client == old(self).client,
            final(self).current_user == old(self).current_user,
            final(self).user_request_in_flight == old(self).user_request_in_flight,
    {
        self.loading.active = false;
    }

    /// A page changed the line shown under the spinner.
    pub fn update_loading_text(&mut self, x: Option<String>)
        ensures
            final(self).loading.text == x,
            final(self).loading.active == old(self).loading.active,
            final(self).loading.delay_full_appearance == old(self).loading.delay_full_appearance,
            final(self).client == old(self).client,
            final(self).current_user == old(self).current_user,
            final(self).user_request_in_flight == old(self).user_request_in_flight,
    {
        self.loading.text = x;
    }

    /// On the first render with stored credentials, the signed-in user's
    /// record is fetched: the username of the Basic credentials is the
    /// user's id in decimal.
    pub fn initial_user_fetch(&mut self) -> (r: Option<RequestSpec>)
        ensures
            old(self).client.spec_auth_header() is None ==> r is None,
            (old(self).client.spec_auth_header() is Some && spec_parse_u32(
                old(self).client.spec_auth_header()->0.username@,
            ) is Some) ==> (r is Some) == (resolved_url(
                old(self).client.spec_base_url(),
                spec_user_path(spec_parse_u32(old(self).client.spec_auth_header()->0.username@)->0),
                Seq::<(Seq<char>, Seq<char>)>::empty(),
            ) is Some),
            r matches Some(q) ==> {
                &&& old(self).client.spec_auth_header() matches Some(c) && spec_parse_u32(
                    c.username@,
                ) is Some
                &&& resolved_url(
                    old(self).client.spec_base_url(),
                    spec_user_path(
                        spec_parse_u32(old(self).client.spec_auth_header()->0.username@)->0,
                    ),
                    Seq::<(Seq<char>, Seq<char>)>::empty(),
                ) == Some(q.url@)
                &&& q.method == crate::api::Method::Get
                &&& final(self).user_request_in_flight
            },
            r is None ==> final(self).user_request_in_flight == old(
                self,
            ).user_request_in_flight,
            final(self).client == old(self).client,
            final(self).loading == old(self).loading,
            final(self).current_user == old(self).current_user,
    {
        let id = match self.client.auth_header() {
            None => {
                return None;
            },
            Some(c) => match parse_u32(c.username.as_str()) {
                None => {
                    return None;
                },
                Some(id) => id,
            },
        };
        let request = self.client.users_get(id);
        if request.is_some() {
            self.user_request_in_flight = true;
        }
        request
    }
}

} // verus!
