use organizator::errors::{DbFailure, ErrorResponse, OrganizatorError, Status};

fn storage_failure(code: Option<&str>) -> OrganizatorError {
    OrganizatorError::PGError(DbFailure {
        code: code.map(String::from),
        message: String::from("db error"),
    })
}

#[test]
fn status_codes() {
    assert_eq!(Status::Success.code(), 200);
    assert_eq!(Status::NoContent.code(), 204);
    assert_eq!(Status::BadRequest.code(), 400);
    assert_eq!(Status::Unauthorized.code(), 401);
    assert_eq!(Status::Forbidden.code(), 403);
    assert_eq!(Status::NotFound.code(), 404);
    assert_eq!(Status::InternalServerError.code(), 500);
}

#[test]
fn storage_failures_by_code() {
    let text = Some(String::from("db error"));
    assert_eq!(
        storage_failure(Some("2F004")).error_response(),
        ErrorResponse { status: Status::Forbidden, body: None }
    );
    assert_eq!(
        storage_failure(Some("28000")).error_response(),
        ErrorResponse { status: Status::Unauthorized, body: None }
    );
    assert_eq!(
        storage_failure(Some("02000")).error_response(),
        ErrorResponse { status: Status::NotFound, body: text.clone() }
    );
    assert_eq!(
        storage_failure(Some("23505")).error_response(),
        ErrorResponse { status: Status::InternalServerError, body: text.clone() }
    );
    assert_eq!(
        storage_failure(None).error_response(),
        ErrorResponse { status: Status::InternalServerError, body: text }
    );
}

#[test]
fn codes_are_compared_whole() {
    for code in ["2f004", "2F0040", "2F00", "", " 28000", "02000 "] {
        assert_eq!(
            storage_failure(Some(code)).error_response().status,
            Status::InternalServerError
        );
    }
}

#[test]
fn failure_classes() {
    let empty = |status: Status| ErrorResponse { status, body: None };
    assert_eq!(OrganizatorError::NotFound.error_response(), empty(Status::NotFound));
    assert_eq!(OrganizatorError::Internal.error_response(), empty(Status::InternalServerError));
    assert_eq!(
        OrganizatorError::BlockingError.error_response(),
        empty(Status::InternalServerError)
    );
    assert_eq!(
        OrganizatorError::PGMError(String::from("column")).error_response(),
        empty(Status::InternalServerError)
    );
    assert_eq!(OrganizatorError::Unauthorized.error_response(), empty(Status::Unauthorized));
    assert_eq!(OrganizatorError::Forbidden.error_response(), empty(Status::Forbidden));
    assert_eq!(OrganizatorError::BadRequest.error_response(), empty(Status::BadRequest));
}

#[test]
fn denials_carry_no_text() {
    for failure in [
        OrganizatorError::Unauthorized,
        OrganizatorError::Forbidden,
        storage_failure(Some("2F004")),
        storage_failure(Some("28000")),
    ] {
        let response = failure.error_response();
        assert!(response.status == Status::Unauthorized || response.status == Status::Forbidden);
        assert_eq!(response.body, None);
    }
}

#[test]
fn pool_failure_carries_its_text() {
    assert_eq!(
        OrganizatorError::PoolError(String::from("timed out")).error_response(),
        ErrorResponse {
            status: Status::InternalServerError,
            body: Some(String::from("timed out"))
        }
    );
}

#[test]
fn cryptographic_failure_is_internal() {
    assert_eq!(OrganizatorError::from(ring::error::Unspecified), OrganizatorError::Internal);
}

#[test]
fn db_failure_status() {
    let failure = DbFailure { code: Some(String::from("28000")), message: String::new() };
    assert_eq!(failure.status(), Status::Unauthorized);
}
