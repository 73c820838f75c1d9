use kiwi_admin::api::APIClient;
use kiwi_admin::api::Method;
use kiwi_admin::auth::BasicCredentials;
use kiwi_admin::auth::PersistedAuth;

const BASE: &str = "http://localhost:8001/api/";

fn creds() -> BasicCredentials {
    BasicCredentials { username: "7".to_string(), password: "tok".to_string() }
}

#[test]
fn auth_header_is_kept_and_removed() {
    let mut client = APIClient::new(BASE);
    assert!(client.auth_header().is_none());
    client.set_auth_header(creds());
    assert_eq!(*client.auth_header(), Some(creds()));
    client.remove_auth_header();
    assert!(client.auth_header().is_none());
}

#[test]
fn persisted_auth_turns_into_basic_credentials() {
    let auth = PersistedAuth::new(31, "secret".to_string());
    let c = auth.credentials();
    assert_eq!(c.username, "31");
    assert_eq!(c.password, "secret");
    assert_eq!(auth.token(), "secret");
}

#[test]
fn users_list_request_is_exact() {
    let client = APIClient::new(BASE);
    let q = client.users_list(10, 20, None).unwrap();
    assert_eq!(q.url, "http://localhost:8001/api/users?limit=10&offset=20");
    assert_eq!(q.method, Method::Get);
    assert!(q.content_type.is_none());
    assert!(q.auth.is_none());
    assert!(q.body.is_none());
}

#[test]
fn users_list_search_is_percent_encoded() {
    let client = APIClient::new(BASE);
    let q = client.users_list(10, 0, Some("a b&c".to_string())).unwrap();
    assert_eq!(
        q.url,
        "http://localhost:8001/api/users?limit=10&offset=0&search=a+b%26c"
    );
}

#[test]
fn users_get_builds_the_id_path() {
    let mut client = APIClient::new(BASE);
    client.set_auth_header(creds());
    let q = client.users_get(31).unwrap();
    assert_eq!(q.url, "http://localhost:8001/api/users/31?");
    assert_eq!(q.method, Method::Get);
    assert_eq!(q.auth, Some(creds()));
}

#[test]
fn users_create_sends_a_form_body() {
    let client = APIClient::new(BASE);
    let q = client.users_create("Ann".to_string(), "a@b.c".to_string()).unwrap();
    assert_eq!(q.method, Method::Post);
    assert_eq!(q.url, "http://localhost:8001/api/users?");
    assert_eq!(q.content_type.as_deref(), Some("application/x-www-form-urlencoded"));
    assert_eq!(q.body.unwrap(), b"name=Ann&email=a%40b.c".to_vec());
}

#[test]
fn users_update_and_delete_target_the_id() {
    let client = APIClient::new(BASE);
    let q = client.users_update(5, "N".to_string(), "e@f.g".to_string()).unwrap();
    assert_eq!(q.url, "http://localhost:8001/api/users/5?");
    assert_eq!(q.method, Method::Put);
    assert_eq!(q.body.unwrap(), b"name=N&email=e%40f.g".to_vec());
    let d = client.users_delete(5).unwrap();
    assert_eq!(d.url, "http://localhost:8001/api/users/5?");
    assert_eq!(d.method, Method::Delete);
    assert!(d.body.is_none());
}

#[test]
fn session_requests_are_exact() {
    let client = APIClient::new(BASE);
    let q = client.session_login("me@x.y".to_string(), "hunter 2".to_string()).unwrap();
    assert_eq!(q.url, "http://localhost:8001/api/sessions/login?");
    assert_eq!(q.method, Method::Post);
    assert_eq!(q.body.unwrap(), b"email=me%40x.y&password=hunter+2".to_vec());
    let out = client.session_logout().unwrap();
    assert_eq!(out.url, "http://localhost:8001/api/sessions/logout?");
    assert_eq!(out.method, Method::Delete);
}

#[test]
fn password_reset_requests_are_exact() {
    let client = APIClient::new(BASE);
    let q = client.password_reset_request("me@x.y".to_string()).unwrap();
    assert_eq!(q.url, "http://localhost:8001/api/password_reset/request?");
    assert_eq!(q.body.unwrap(), b"email=me%40x.y".to_vec());
    let s = client
        .password_reset_submit("me@x.y".to_string(), "T0K".to_string(), "new pw".to_string())
        .unwrap();
    assert_eq!(s.url, "http://localhost:8001/api/password_reset/submit?");
    assert_eq!(s.body.unwrap(), b"email=me%40x.y&token=T0K&new_password=new+pw".to_vec());
}

#[test]
fn invalid_base_url_yields_no_request() {
    let client = APIClient::new("not a url");
    assert!(client.users_get(1).is_none());
}
