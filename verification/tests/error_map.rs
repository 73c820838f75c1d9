use kiwi_admin::api::error::APIError;
use kiwi_admin::api::error::Details;
use kiwi_admin::api::error::ResponseOutcome;
use kiwi_admin::api::error::classify_failure;
use kiwi_admin::api::error::resolve;
use kiwi_admin::api::error::status_is_success;

fn details(code: &str, description: Option<&str>) -> Details {
    Details { code: code.to_string(), description: description.map(|d| d.to_string()) }
}

#[test]
fn success_is_the_2xx_class() {
    assert!(status_is_success(200));
    assert!(status_is_success(204));
    assert!(status_is_success(299));
    assert!(!status_is_success(199));
    assert!(!status_is_success(300));
    assert!(!status_is_success(404));
}

#[test]
fn statuses_map_to_their_errors() {
    let d = details("X", None);
    assert_eq!(classify_failure(400, Some(d.clone())), APIError::BadRequest(d.clone()));
    assert_eq!(classify_failure(400, None), APIError::UnknownError(400));
    assert_eq!(classify_failure(401, Some(d.clone())), APIError::Unauthorized(d.clone()));
    assert_eq!(classify_failure(401, None), APIError::UnknownError(401));
    assert_eq!(classify_failure(403, None), APIError::Forbidden);
    assert_eq!(classify_failure(403, Some(d.clone())), APIError::Forbidden);
    assert_eq!(classify_failure(404, None), APIError::NotFound);
    assert_eq!(classify_failure(500, None), APIError::InternalServerError);
    assert_eq!(classify_failure(418, None), APIError::UnknownError(418));
}

#[test]
fn resolve_decides_from_status_and_parses() {
    assert_eq!(resolve::<u32>(ResponseOutcome::Failed), Err(APIError::RequestError));
    assert_eq!(resolve::<u32>(ResponseOutcome::NotUtf8), Err(APIError::DeserializeError));
    assert_eq!(
        resolve::<u32>(ResponseOutcome::Body { status: 200, parsed: Some(5), details: None }),
        Ok(5)
    );
    assert_eq!(
        resolve::<u32>(ResponseOutcome::Body { status: 200, parsed: None, details: None }),
        Err(APIError::DeserializeError)
    );
    let d = details("Y", Some("bad input"));
    assert_eq!(
        resolve::<u32>(
            ResponseOutcome::Body { status: 400, parsed: Some(5), details: Some(d.clone()) }
        ),
        Err(APIError::BadRequest(d))
    );
    assert_eq!(
        resolve::<u32>(ResponseOutcome::Body { status: 404, parsed: None, details: None }),
        Err(APIError::NotFound)
    );
}

#[test]
fn messages_are_exact() {
    assert_eq!(
        APIError::BadRequest(details("C", Some("broken field"))).message(),
        "broken field"
    );
    assert_eq!(APIError::BadRequest(details("C", None)).message(), "");
    assert_eq!(
        APIError::Unauthorized(details("INCORRECT_CREDENTIALS", None)).message(),
        "Incorrect credentials"
    );
    assert_eq!(
        APIError::Unauthorized(details("MISSING_CREDENTIALS", None)).message(),
        "Request missing username or password"
    );
    assert_eq!(APIError::Unauthorized(details("OTHER", None)).message(), "Unauthorized");
    assert_eq!(APIError::Forbidden.message(), "Forbidden");
    assert_eq!(APIError::NotFound.message(), "Resource not found");
    assert_eq!(APIError::InternalServerError.message(), "Internal server error");
    assert_eq!(APIError::UnknownError(418).message(), "Unknown Error (HTTP 418)");
    assert_eq!(APIError::DeserializeError.message(), "Could not parse server response");
    assert_eq!(
        APIError::RequestError.message(),
        "Request failed, please check your connection"
    );
}
