use kiwi_admin::api::Method;
use kiwi_admin::api::error::APIError;
use kiwi_admin::api::session::LoginResponse;
use kiwi_admin::api::users::UserResponseItem;
use kiwi_admin::app::AppState;
use kiwi_admin::app::LoginNavigation;
use kiwi_admin::auth::PersistedAuth;
use kiwi_admin::loader_task::LoadingTaskConfig;
use kiwi_admin::routes::AppRoute;

const BASE: &str = "http://localhost:8001/api/";

fn user() -> UserResponseItem {
    UserResponseItem { id: 31, name: "Ann".to_string(), email: "a@b.c".to_string() }
}

#[test]
fn startup_attaches_the_stored_credential() {
    let state = AppState::init(BASE, Some(PersistedAuth::new(31, "tok".to_string())));
    let c = state.client.auth_header().clone().unwrap();
    assert_eq!(c.username, "31");
    assert_eq!(c.password, "tok");
    let bare = AppState::init(BASE, None);
    assert!(bare.client.auth_header().is_none());
}

#[test]
fn login_persists_fetches_and_navigates() {
    let mut state = AppState::init(BASE, None);
    let resp = LoginResponse { token: "tok".to_string(), user: user() };
    let (auth, request, dest) = state.handle_logged_in(resp, None);
    assert_eq!(auth.user_id, 31);
    assert_eq!(auth.token(), "tok");
    let q = request.unwrap();
    assert_eq!(q.url, "http://localhost:8001/api/users/31?");
    assert_eq!(q.method, Method::Get);
    assert_eq!(dest, LoginNavigation::Dashboard);
    assert!(state.user_request_in_flight);
    assert_eq!(state.client.auth_header().clone().unwrap().username, "31");
}

#[test]
fn login_returns_to_the_remembered_page() {
    let mut state = AppState::init(BASE, None);
    let resp = LoginResponse { token: "t".to_string(), user: user() };
    let (_, _, dest) = state.handle_logged_in(resp, Some("/gallery".to_string()));
    assert_eq!(dest, LoginNavigation::Path("/gallery".to_string()));
}

#[test]
fn logout_clears_everything() {
    let mut state = AppState::init(BASE, Some(PersistedAuth::new(31, "tok".to_string())));
    state.handle_user_response(Ok(user()));
    assert!(state.current_user.is_some());
    let dest = state.handle_logout();
    assert_eq!(dest, AppRoute::Login);
    assert!(state.current_user.is_none());
    assert!(state.client.auth_header().is_none());
    assert!(!state.user_request_in_flight);
}

#[test]
fn only_a_successful_user_response_replaces_the_user() {
    let mut state = AppState::init(BASE, None);
    state.handle_user_response(Err(APIError::NotFound));
    assert!(state.current_user.is_none());
    state.handle_user_response(Ok(user()));
    assert_eq!(state.current_user.as_ref().unwrap().name, "Ann");
    state.handle_user_response(Err(APIError::Forbidden));
    assert_eq!(state.current_user.as_ref().unwrap().name, "Ann");
}

#[test]
fn loading_messages_drive_the_props() {
    let mut state = AppState::init(BASE, None);
    assert!(!state.loading.active);
    state.start_loading(&LoadingTaskConfig::default());
    assert!(state.loading.active);
    assert!(state.loading.delay_full_appearance);
    assert!(state.loading.text.is_none());
    state.update_loading_text(Some("Uploading".to_string()));
    assert_eq!(state.loading.text.as_deref(), Some("Uploading"));
    state.stop_loading();
    assert!(!state.loading.active);
    let undelayed = LoadingTaskConfig::default().delay_full_appearance(false);
    state.start_loading(&undelayed);
    assert!(!state.loading.delay_full_appearance);
}

#[test]
fn first_render_fetches_the_stored_user() {
    let mut state = AppState::init(BASE, Some(PersistedAuth::new(8, "t".to_string())));
    let q = state.initial_user_fetch().unwrap();
    assert_eq!(q.url, "http://localhost:8001/api/users/8?");
    assert!(state.user_request_in_flight);
    let mut bare = AppState::init(BASE, None);
    assert!(bare.initial_user_fetch().is_none());
}
