use kiwi_admin::api::APIClient;
use kiwi_admin::api::Counted;
use kiwi_admin::api::Method;
use kiwi_admin::api::error::APIError;
use kiwi_admin::api::gallery::Category;
use kiwi_admin::api::gallery::GalleryItemResponse;
use kiwi_admin::routes::AppRoute;
use kiwi_admin::routes::gallery_create::CreateGalleryItemState;
use kiwi_admin::routes::gallery_create::image_warnings;
use kiwi_admin::routes::gallery_list::ListGalleryState;
use kiwi_admin::routes::gallery_list::reorder;
use kiwi_admin::routes::login::LoginState;
use kiwi_admin::routes::password_reset::PasswordResetState;
use kiwi_admin::routes::password_reset::ResetError;
use kiwi_admin::routes::password_reset::credentials_from_query;
use kiwi_admin::routes::users_edit::EditUserState;
use kiwi_admin::routes::users_list::ListUsersState;
use kiwi_admin::routes::users_list::PAGE_SIZE;

const BASE: &str = "http://localhost:8001/api/";

fn client() -> APIClient {
    APIClient::new(BASE)
}

fn gallery_item(id: u32, category: Category) -> GalleryItemResponse {
    GalleryItemResponse {
        id,
        description: format!("item {}", id),
        category,
        files: vec![],
    }
}

#[test]
fn user_list_pages_and_searches() {
    let (mut state, first) = ListUsersState::init(&client());
    assert_eq!(
        first.unwrap().url,
        "http://localhost:8001/api/users?limit=10&offset=0"
    );
    assert!(state.in_flight);
    state.handle_response(Ok(Counted { total: 25, results: vec![] }));
    assert!(!state.in_flight);
    assert_eq!(state.total_pages(), 3);
    assert_eq!(state.current_page(), 0);
    let q = state.page_change(&client(), 2).unwrap();
    assert_eq!(q.url, "http://localhost:8001/api/users?limit=10&offset=20");
    assert_eq!(state.offset, 2 * PAGE_SIZE);
    assert_eq!(state.current_page(), 2);
    let s = state.search_change(&client(), Some("ann".to_string())).unwrap();
    assert_eq!(
        s.url,
        "http://localhost:8001/api/users?limit=10&offset=20&search=ann"
    );
    state.handle_response(Err(APIError::Forbidden));
    assert_eq!(state.error, Some(APIError::Forbidden));
    assert!(state.results.is_none());
    assert_eq!(state.total_pages(), 1);
}

#[test]
fn login_submits_once_at_a_time() {
    let mut state = LoginState::init();
    let q = state
        .submit(&client(), "me@x.y".to_string(), "pw".to_string())
        .unwrap();
    assert_eq!(q.method, Method::Post);
    assert!(state.task_in_flight);
    assert!(state
        .submit(&client(), "me@x.y".to_string(), "pw".to_string())
        .is_none());
    let out = state.handle_response(Err(APIError::Forbidden));
    assert!(out.is_none());
    assert_eq!(state.error, Some(APIError::Forbidden));
    assert!(!state.task_in_flight);
}

#[test]
fn user_edit_loads_then_updates() {
    let (mut state, load) = EditUserState::init(&client(), 5);
    assert_eq!(load.unwrap().url, "http://localhost:8001/api/users/5?");
    assert!(state
        .submit(&client(), "N".to_string(), "e@f.g".to_string())
        .is_none());
    state.handle_load_response(Ok(kiwi_admin::api::users::UserResponseItem {
        id: 5,
        name: "Old".to_string(),
        email: "old@x.y".to_string(),
    }));
    assert_eq!(state.name, "Old");
    let q = state
        .submit(&client(), "New".to_string(), "new@x.y".to_string())
        .unwrap();
    assert_eq!(q.method, Method::Put);
    assert_eq!(q.body.unwrap(), b"name=New&email=new%40x.y".to_vec());
    let dest = state.handle_edit_response(Ok(kiwi_admin::api::users::UserResponseItem {
        id: 5,
        name: "New".to_string(),
        email: "new@x.y".to_string(),
    }));
    assert_eq!(dest, Some(AppRoute::Users));
    let del = state.confirm_delete(&client()).unwrap();
    assert_eq!(del.method, Method::Delete);
    let dest = state.handle_delete_response(Err(APIError::Forbidden));
    assert!(dest.is_none());
    assert_eq!(state.delete_error, Some(APIError::Forbidden));
}

#[test]
fn reset_credentials_come_from_the_query() {
    let c = credentials_from_query("?email=a%40b.c&token=T0K").unwrap();
    assert_eq!(c.0, "a@b.c");
    assert_eq!(c.1, "T0K");
    assert!(credentials_from_query("?email=a%40b.c").is_none());
    assert!(credentials_from_query("?email=a&email=b&token=t").is_none());
    assert!(credentials_from_query("").is_none());
    assert!(credentials_from_query("email=a&token=t").is_none());
    let extra = credentials_from_query("?x=1&email=a&token=t&y=2").unwrap();
    assert_eq!(extra.0, "a");
    assert_eq!(extra.1, "t");
}

#[test]
fn mismatched_passwords_never_reach_the_backend() {
    let mut state = PasswordResetState::init(Some(("a@b.c".to_string(), "T".to_string())));
    let r = state.submit(&client(), "one".to_string(), "two".to_string());
    assert!(r.is_none());
    assert_eq!(state.error, Some(ResetError::PasswordsDoNotMatch));
    assert_eq!(state.error.as_ref().unwrap().message(), "Passwords do not match");
    let q = state
        .submit(&client(), "same".to_string(), "same".to_string())
        .unwrap();
    assert_eq!(
        q.body.unwrap(),
        b"email=a%40b.c&token=T&new_password=same".to_vec()
    );
    let dest = state.handle_response(Ok(()));
    assert_eq!(dest, Some(AppRoute::Login));
}

#[test]
fn broken_reset_links_show_placeholders() {
    let state = PasswordResetState::init(None);
    assert_eq!(state.email, "Invalid email");
    assert_eq!(state.token, "Invalid Token");
}

#[test]
fn reorder_moves_one_element() {
    let mut v = vec![1, 2, 3, 4, 5];
    reorder(&mut v, 1, 3);
    assert_eq!(v, vec![1, 3, 4, 2, 5]);
    let mut w = vec![1, 2, 3, 4, 5];
    reorder(&mut w, 3, 0);
    assert_eq!(w, vec![4, 1, 2, 3, 5]);
}

#[test]
fn drag_to_front_and_after_an_item() {
    let mut state = ListGalleryState::init();
    state.handle_response(Ok(vec![
        (
            Category::Doors,
            vec![
                gallery_item(1, Category::Doors),
                gallery_item(2, Category::Doors),
                gallery_item(3, Category::Doors),
            ],
        ),
        (Category::Other, vec![gallery_item(9, Category::Other)]),
    ]));
    let q = state
        .position_change(&client(), Category::Doors, 0, 2)
        .unwrap();
    assert_eq!(q.url, "http://localhost:8001/api/gallery/1?");
    assert_eq!(
        q.body.unwrap(),
        b"description=item+1&category=DOORS&move_after_id=3&move_to_front=false".to_vec()
    );
    let doors: Vec<u32> = state.results.as_ref().unwrap()[0].1.iter().map(|i| i.id).collect();
    assert_eq!(doors, vec![2, 3, 1]);
    assert!(state.do_refresh);
    state.complete_refresh();
    assert!(!state.do_refresh);

    let front = state
        .position_change(&client(), Category::Doors, 2, 0)
        .unwrap();
    assert_eq!(
        front.body.unwrap(),
        b"description=item+1&category=DOORS&move_to_front=true".to_vec()
    );
    let doors: Vec<u32> = state.results.as_ref().unwrap()[0].1.iter().map(|i| i.id).collect();
    assert_eq!(doors, vec![1, 2, 3]);
}

#[test]
fn drag_backwards_names_the_new_predecessor() {
    let mut state = ListGalleryState::init();
    state.handle_response(Ok(vec![(
        Category::Doors,
        vec![
            gallery_item(1, Category::Doors),
            gallery_item(2, Category::Doors),
            gallery_item(3, Category::Doors),
        ],
    )]));
    let q = state
        .position_change(&client(), Category::Doors, 2, 1)
        .unwrap();
    assert_eq!(
        q.body.unwrap(),
        b"description=item+3&category=DOORS&move_after_id=1&move_to_front=false".to_vec()
    );
    let doors: Vec<u32> = state.results.as_ref().unwrap()[0].1.iter().map(|i| i.id).collect();
    assert_eq!(doors, vec![1, 3, 2]);
}

#[test]
fn image_measurement_accepts_a_png_header() {
    let mut png: Vec<u8> = vec![0x89, 0x50, 0x4E, 0x47, 0x0D, 0x0A, 0x1A, 0x0A];
    png.extend_from_slice(&[0, 0, 0, 13]);
    png.extend_from_slice(b"IHDR");
    png.extend_from_slice(&100u32.to_be_bytes());
    png.extend_from_slice(&50u32.to_be_bytes());
    png.extend_from_slice(&[8, 2, 0, 0, 0]);

    let mut state = CreateGalleryItemState::init();
    state.file_loaded("p.png".to_string(), png);
    let img = state.image.as_ref().unwrap();
    assert_eq!(img.width, 100);
    assert_eq!(img.height, 50);
    assert!(state.error.is_none());

    let warnings = state.selected_image_warnings().unwrap();
    assert!(warnings.low_resolution);
    assert!(warnings.wrong_aspect);

    let q = state.submit(&client(), "a door".to_string()).unwrap();
    assert_eq!(q.url, "http://localhost:8001/api/gallery?");
    assert_eq!(q.method, Method::Post);
    assert!(q
        .content_type
        .as_deref()
        .unwrap()
        .starts_with("multipart/form-data; boundary="));
    let dest = state.handle_response(Ok(()));
    assert_eq!(dest, Some(AppRoute::Gallery));
}

#[test]
fn unreadable_bytes_show_an_image_error() {
    let mut state = CreateGalleryItemState::init();
    state.file_loaded("x.bin".to_string(), vec![1, 2, 3]);
    assert!(state.image.is_none());
    assert!(matches!(
        state.error,
        Some(kiwi_admin::routes::gallery_create::CreateError::Image(_))
    ));
}

#[test]
fn image_warnings_are_exact() {
    let ok = image_warnings(1920, 1080);
    assert!(!ok.low_resolution);
    assert!(!ok.wrong_aspect);
    let big = image_warnings(3840, 2160);
    assert!(!big.low_resolution);
    assert!(!big.wrong_aspect);
    let square = image_warnings(2000, 2000);
    assert!(!square.low_resolution);
    assert!(square.wrong_aspect);
    let small = image_warnings(640, 360);
    assert!(small.low_resolution);
    assert!(!small.wrong_aspect);
}
