use backend::errors::{
    ApiError, AuthError, CouchFailure, JsonBodyError, RepoError, ServiceError, SmsFailure,
};

fn couch(status: u16) -> CouchFailure {
    CouchFailure { status, message: "store says no".to_string() }
}

fn repo_msg(e: &RepoError) -> String {
    match e {
        RepoError::EntityExists(m)
        | RepoError::EntityNotFound(m)
        | RepoError::SaveFailed(m)
        | RepoError::UpdateFailed(m)
        | RepoError::DeleteFailed(m)
        | RepoError::FailedToConnect(m)
        | RepoError::InvalidOperation(m)
        | RepoError::ForbiddenAction(m)
        | RepoError::UnknownError(m) => m.clone(),
    }
}

#[test]
fn store_status_classification() {
    assert!(matches!(RepoError::from_couch(couch(403)), RepoError::ForbiddenAction(_)));
    assert!(matches!(RepoError::from_couch(couch(404)), RepoError::EntityNotFound(_)));
    assert!(matches!(RepoError::from_couch(couch(400)), RepoError::InvalidOperation(_)));
    assert!(matches!(RepoError::from_couch(couch(409)), RepoError::EntityExists(_)));
    assert!(matches!(RepoError::from_couch(couch(401)), RepoError::FailedToConnect(_)));
    assert!(matches!(RepoError::from_couch(couch(500)), RepoError::UnknownError(_)));
    assert!(matches!(RepoError::from_couch(couch(200)), RepoError::UnknownError(_)));
    assert_eq!(repo_msg(&RepoError::from_couch(couch(404))), "resource not found");
    assert_eq!(repo_msg(&RepoError::from_couch(couch(403))), "forbidden access");
    assert_eq!(repo_msg(&RepoError::from_couch(couch(409))), "resource conflict");
    assert_eq!(repo_msg(&RepoError::from_couch(couch(401))), "unauthorized access");
    assert_eq!(repo_msg(&RepoError::from_couch(couch(418))), "unknown error");
}

#[test]
fn service_error_keeps_kind_and_message() {
    let s = ServiceError::from(RepoError::DeleteFailed("gone".to_string()));
    match s {
        ServiceError::DeleteFailed(m) => assert_eq!(m, "gone"),
        _ => panic!("wrong kind"),
    }
    let s = ServiceError::from(RepoError::UnknownError("x".to_string()));
    assert!(matches!(s, ServiceError::UnknownError(_)));
}

#[test]
fn auth_errors() {
    let a = AuthError::from(RepoError::EntityNotFound("nf".to_string()));
    assert!(matches!(a, AuthError::ServiceError(ServiceError::EntityNotFound(_))));
    match AuthError::from_sms_failure(SmsFailure) {
        AuthError::SMSFailed(m) => assert_eq!(m, "Failed To Send SMS"),
        _ => panic!("wrong kind"),
    }
}

#[test]
fn api_error_statuses() {
    let cases: Vec<(ApiError, u16)> = vec![
        (ApiError::NotFound("a".to_string()), 404),
        (ApiError::BadRequest("a".to_string()), 400),
        (ApiError::Other("a".to_string()), 500),
        (ApiError::Forbidden("a".to_string()), 403),
        (ApiError::AuthFailed("a".to_string()), 401),
        (ApiError::RequestThrottled("a".to_string()), 400),
        (ApiError::UnprocessableEntity("a".to_string()), 422),
        (ApiError::InternalServerError("a".to_string()), 500),
        (ApiError::ConflictError("a".to_string()), 409),
    ];
    for (e, status) in cases {
        assert_eq!(e.status(), status);
    }
}

#[test]
fn api_error_from_service_and_auth() {
    assert!(matches!(ApiError::from(ServiceError::DeleteFailed("d".to_string())), ApiError::Forbidden(_)));
    assert!(matches!(ApiError::from(ServiceError::EntityExists("d".to_string())), ApiError::ConflictError(_)));
    assert!(matches!(ApiError::from(ServiceError::FailedToConnect("d".to_string())), ApiError::BadRequest(_)));
    assert!(matches!(ApiError::from(ServiceError::UnknownError("d".to_string())), ApiError::InternalServerError(_)));
    assert!(matches!(ApiError::from(AuthError::AccountExists("d".to_string())), ApiError::Forbidden(_)));
    assert!(matches!(ApiError::from(AuthError::AccountNotFound("d".to_string())), ApiError::NotFound(_)));
    assert!(matches!(ApiError::from(AuthError::InvalidLogin("d".to_string())), ApiError::AuthFailed(_)));
    assert!(matches!(ApiError::from(AuthError::RsendCodeTooSoon("d".to_string())), ApiError::RequestThrottled(_)));
    assert!(matches!(ApiError::from(AuthError::SMSFailed("d".to_string())), ApiError::Other(_)));
    let nested = ApiError::from(AuthError::ServiceError(ServiceError::EntityNotFound("deep".to_string())));
    match nested {
        ApiError::NotFound(m) => assert_eq!(m, "deep"),
        _ => panic!("wrong kind"),
    }
}

#[test]
fn api_error_from_store_and_body() {
    match ApiError::from(couch(403)) {
        ApiError::Forbidden(m) => assert_eq!(m, "store says no"),
        _ => panic!("wrong kind"),
    }
    assert!(matches!(ApiError::from(couch(404)), ApiError::NotFound(_)));
    assert!(matches!(ApiError::from(couch(400)), ApiError::BadRequest(_)));
    assert!(matches!(ApiError::from(couch(409)), ApiError::Other(_)));
    assert!(matches!(ApiError::from(JsonBodyError::Io("io".to_string())), ApiError::Other(_)));
    assert!(matches!(ApiError::from(JsonBodyError::Parse("p".to_string())), ApiError::UnprocessableEntity(_)));
}

#[test]
fn store_failure_reaches_http_status() {
    // 401 from the store is answered as a bad request; 409 as a conflict.
    let e = ApiError::from(AuthError::from(RepoError::from_couch(couch(401))));
    assert_eq!(e.status(), 400);
    let e = ApiError::from(AuthError::from(RepoError::from_couch(couch(409))));
    assert_eq!(e.status(), 409);
    let e = ApiError::from(AuthError::from(RepoError::from_couch(couch(503))));
    assert_eq!(e.status(), 500);
}

#[test]
fn error_body_is_json() {
    assert_eq!(ApiError::NotFound("Not Found".to_string()).body(), "{\"msg\":\"Not Found\"}");
    assert_eq!(ApiError::Other("say \"hi\"".to_string()).body(), "{\"msg\":\"say \\\"hi\\\"\"}");
    assert_eq!(
        ApiError::BadRequest("a\\b\nc\u{1}d\u{1f}/é".to_string()).body(),
        "{\"msg\":\"a\\\\b\\nc\\u0001d\\u001f/é\"}"
    );
}
