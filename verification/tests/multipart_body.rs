use kiwi_admin::api::APIClient;
use kiwi_admin::api::Method;
use kiwi_admin::api::RequestBody;
use kiwi_admin::api::gallery::Category;
use kiwi_admin::api::multipart::Multipart;
use kiwi_admin::api::multipart::MultipartFile;

fn boundary_of(content_type: &str) -> String {
    content_type
        .strip_prefix("multipart/form-data; boundary=")
        .expect("content type shape")
        .to_string()
}

#[test]
fn boundary_is_65_alphanumeric_characters() {
    let form = Multipart::new();
    let b = boundary_of(&form.content_type().unwrap());
    assert_eq!(b.len(), 65);
    assert!(b.chars().all(|c| c.is_ascii_alphanumeric()));
}

#[test]
fn boundaries_differ_between_bodies() {
    let a = boundary_of(&Multipart::new().content_type().unwrap());
    let b = boundary_of(&Multipart::new().content_type().unwrap());
    assert_ne!(a, b);
}

#[test]
fn body_frames_fields_and_files() {
    let mut form = Multipart::new();
    let b = boundary_of(&form.content_type().unwrap());
    form.add_text("description", "a photo".to_string());
    form.add_file(MultipartFile::new(
        "image",
        vec![0xDE, 0xAD, 0xBE, 0xEF],
        Some("p.png".to_string()),
    ));
    let body = form.into_body_bytes().unwrap();

    let mut expected: Vec<u8> = Vec::new();
    expected.extend_from_slice(
        format!(
            "--{}\r\nContent-Disposition:form-data; name=\"description\"\r\n\r\na photo\r\n",
            b
        )
        .as_bytes(),
    );
    expected.extend_from_slice(
        format!(
            "--{}\r\nContent-Disposition:form-data; name=\"image\"; filename=\"p.png\";\r\nContent-Type: application/octet-stream\r\n\r\n",
            b
        )
        .as_bytes(),
    );
    expected.extend_from_slice(&[0xDE, 0xAD, 0xBE, 0xEF]);
    expected.extend_from_slice(b"\r\n");
    expected.extend_from_slice(format!("--{}--\r\n", b).as_bytes());
    assert_eq!(body, expected);
}

#[test]
fn file_without_filename_omits_the_clause() {
    let mut form = Multipart::new();
    let b = boundary_of(&form.content_type().unwrap());
    form.add_file(MultipartFile::new("image", vec![1], None));
    let body = form.into_body_bytes().unwrap();
    let expected = {
        let mut v: Vec<u8> = Vec::new();
        v.extend_from_slice(
            format!(
                "--{}\r\nContent-Disposition:form-data; name=\"image\";\r\nContent-Type: application/octet-stream\r\n\r\n",
                b
            )
            .as_bytes(),
        );
        v.push(1);
        v.extend_from_slice(format!("\r\n--{}--\r\n", b).as_bytes());
        v
    };
    assert_eq!(body, expected);
}

#[test]
fn empty_multipart_is_just_the_closing_boundary() {
    let form = Multipart::new();
    let b = boundary_of(&form.content_type().unwrap());
    assert_eq!(form.into_body_bytes().unwrap(), format!("--{}--\r\n", b).into_bytes());
}

#[test]
fn gallery_create_builds_the_upload() {
    let client = APIClient::new("http://localhost:8001/api/");
    let q = client
        .gallery_create(
            "p.png".to_string(),
            vec![9, 9, 9],
            "three bytes".to_string(),
            &Category::Windows,
        )
        .unwrap();
    assert_eq!(q.url, "http://localhost:8001/api/gallery?");
    assert_eq!(q.method, Method::Post);
    let b = boundary_of(q.content_type.as_deref().unwrap());
    let body = q.body.unwrap();
    let mut expected: Vec<u8> = Vec::new();
    expected.extend_from_slice(
        format!(
            "--{b}\r\nContent-Disposition:form-data; name=\"description\"\r\n\r\nthree bytes\r\n"
        )
        .as_bytes(),
    );
    expected.extend_from_slice(
        format!("--{b}\r\nContent-Disposition:form-data; name=\"category\"\r\n\r\nWINDOWS\r\n")
            .as_bytes(),
    );
    expected.extend_from_slice(
        format!(
            "--{b}\r\nContent-Disposition:form-data; name=\"image\"; filename=\"p.png\";\r\nContent-Type: application/octet-stream\r\n\r\n"
        )
        .as_bytes(),
    );
    expected.extend_from_slice(&[9, 9, 9]);
    expected.extend_from_slice(format!("\r\n--{b}--\r\n").as_bytes());
    assert_eq!(body, expected);
}
