use kiwi_admin::api::APIClient;
use kiwi_admin::api::Method;
use kiwi_admin::api::gallery::Category;
use kiwi_admin::api::gallery::GalleryFileResponse;
use kiwi_admin::api::gallery::GalleryItemResponse;

const BASE: &str = "http://localhost:8001/api/";

fn file(width: u32) -> GalleryFileResponse {
    GalleryFileResponse {
        url: format!("http://img/{}", width),
        height: width / 2,
        width,
        bytes: 1000,
    }
}

fn item(widths: &[u32]) -> GalleryItemResponse {
    GalleryItemResponse {
        id: 1,
        description: "d".to_string(),
        category: Category::Doors,
        files: widths.iter().map(|w| file(*w)).collect(),
    }
}

#[test]
fn category_wire_form_and_name() {
    assert_eq!(Category::Staircases.serialize(), "STAIRCASES");
    assert_eq!(Category::Windows.serialize(), "WINDOWS");
    assert_eq!(Category::Doors.serialize(), "DOORS");
    assert_eq!(Category::Other.serialize(), "OTHER");
    assert_eq!(Category::Staircases.name(), "Staircases");
    assert_eq!(Category::Other.name(), "Other");
    assert_eq!(
        Category::all(),
        vec![Category::Staircases, Category::Windows, Category::Doors, Category::Other]
    );
}

#[test]
fn narrowest_variant_at_least_the_slot_width() {
    let it = item(&[100, 400, 250, 800]);
    assert_eq!(it.image_with_width_geq(200).unwrap().width, 250);
    assert_eq!(it.image_with_width_geq(400).unwrap().width, 400);
    assert_eq!(it.image_with_width_geq(801), None);
}

#[test]
fn widest_variant_at_most_the_slot_width() {
    let it = item(&[100, 400, 250, 800]);
    assert_eq!(it.image_with_width_leq(300).unwrap().width, 250);
    assert_eq!(it.image_with_width_leq(99), None);
    assert_eq!(it.image_with_width_leq(10_000).unwrap().width, 800);
}

#[test]
fn ties_pick_first_for_min_and_last_for_max() {
    let mut it = item(&[300, 300]);
    it.files[0].url = "first".to_string();
    it.files[1].url = "second".to_string();
    assert_eq!(it.image_with_width_geq(200).unwrap().url, "first");
    assert_eq!(it.image_with_width_leq(400).unwrap().url, "second");
}

#[test]
fn best_match_prefers_wide_enough_then_falls_back() {
    let it = item(&[100, 400]);
    assert_eq!(it.best_matching_width(200).unwrap().width, 400);
    assert_eq!(it.best_matching_width(500).unwrap().width, 400);
    let none = item(&[]);
    assert!(none.best_matching_width(200).is_none());
}

#[test]
fn gallery_requests_are_exact() {
    let client = APIClient::new(BASE);
    let list = client.gallery_list().unwrap();
    assert_eq!(list.url, "http://localhost:8001/api/gallery/list?");
    assert_eq!(list.method, Method::Get);
    let get = client.gallery_get(9).unwrap();
    assert_eq!(get.url, "http://localhost:8001/api/gallery/9?");
    let del = client.gallery_delete(9).unwrap();
    assert_eq!(del.method, Method::Delete);
    assert_eq!(del.url, "http://localhost:8001/api/gallery/9?");
}

#[test]
fn gallery_update_form_is_exact() {
    let client = APIClient::new(BASE);
    let q = client
        .gallery_update(3, "a door".to_string(), Category::Doors, Some(17), false)
        .unwrap();
    assert_eq!(q.url, "http://localhost:8001/api/gallery/3?");
    assert_eq!(q.method, Method::Put);
    assert_eq!(
        q.body.unwrap(),
        b"description=a+door&category=DOORS&move_after_id=17&move_to_front=false".to_vec()
    );
    let front = client
        .gallery_update(3, "x".to_string(), Category::Other, None, true)
        .unwrap();
    assert_eq!(
        front.body.unwrap(),
        b"description=x&category=OTHER&move_to_front=true".to_vec()
    );
}
