use miku_notes_gateway::error::{ErrorKind, ResError, RpcCode};
use miku_notes_gateway::rpc::{authorization_entry, check_header_text, unwrap_response, RpcStatus};
use miku_notes_gateway::types::{
    error_response, new_err_res, new_ok_res, ExRes200, ExRes201, ExRes400, ExRes401, ExRes404,
    ExRes415, ExRes422, ExRes5XX, LoginPost,
};

fn every_error() -> Vec<(ResError, ErrorKind, u16, &'static str)> {
    let m = || "inner detail".to_string();
    vec![
        (ResError::InvalidFields(m()), ErrorKind::InvalidFields, 400, "invalid fields"),
        (ResError::InvalidValues(m()), ErrorKind::InvalidValues, 422, "invalid values"),
        (ResError::InvalidContentType(m()), ErrorKind::InvalidContentType, 415, "invalid content type"),
        (ResError::NotFound(m()), ErrorKind::NotFound, 404, "not found"),
        (ResError::Unauthorized(m()), ErrorKind::Unauthorized, 401, "unauthorized"),
        (ResError::Forbidden(m()), ErrorKind::Forbidden, 403, "forbidden"),
        (ResError::BadRequest(m()), ErrorKind::BadRequest, 400, "bad request"),
        (ResError::NotImplemented(m()), ErrorKind::NotImplemented, 501, "not implemented"),
        (ResError::ServerError(m()), ErrorKind::ServerError, 500, "server error"),
    ]
}

#[test]
fn every_error_kind_has_its_status() {
    for (err, kind, status, message) in every_error() {
        assert_eq!(err.kind(), kind);
        assert_eq!(err.status_code(), status);
        assert_eq!(err.response_msg(), message);
        assert_eq!(err.internal_msg(), "inner detail");
        assert_eq!(err.is_server_fault(), status >= 500);
        let rebuilt = ResError::new(kind, "other".to_string());
        assert_eq!(rebuilt.kind(), kind);
        assert_eq!(rebuilt.internal_msg(), "other");
    }
}

#[test]
fn error_response_hides_the_detail() {
    for (err, _, status, message) in every_error() {
        let (code, body) = error_response(&err);
        assert_eq!(code, status);
        assert!(!body.0.success);
        assert_eq!(body.0.error.as_deref(), Some(message));
        assert_eq!(body.0.data, None);
    }
}

#[test]
fn remote_status_maps_to_error_kind() {
    let map = |code: RpcCode, message: &str| ResError::from_status(code, message, "shown".to_string()).kind();
    assert_eq!(map(RpcCode::NotFound, ""), ErrorKind::NotFound);
    assert_eq!(map(RpcCode::PermissionDenied, ""), ErrorKind::Forbidden);
    assert_eq!(map(RpcCode::InvalidArgument, ""), ErrorKind::InvalidFields);
    assert_eq!(map(RpcCode::AlreadyExists, ""), ErrorKind::BadRequest);
    assert_eq!(map(RpcCode::Unimplemented, ""), ErrorKind::NotImplemented);
    assert_eq!(map(RpcCode::Unauthenticated, "token expired"), ErrorKind::Unauthorized);
    assert_eq!(map(RpcCode::Unauthenticated, "invalid authorization token"), ErrorKind::ServerError);
    assert_eq!(map(RpcCode::Other, "invalid authorization token"), ErrorKind::ServerError);
    let err = ResError::from_status(RpcCode::NotFound, "no such note", "status: NotFound".to_string());
    assert_eq!(err.internal_msg(), "status: NotFound");
}

#[test]
fn outgoing_calls_carry_the_bearer_credential() {
    let (key, value) = authorization_entry("s3cr3t").unwrap();
    assert_eq!(key, "authorization");
    assert_eq!(value, "Bearer s3cr3t");
    assert_eq!(authorization_entry("").unwrap().1, "Bearer ");
    assert_eq!(authorization_entry("a b\tc~\u{e9}").unwrap().1, "Bearer a b\tc~\u{e9}");
}

#[test]
fn credential_with_control_characters_cannot_be_sent() {
    for bad in ["line\nbreak", "nul\0", "del\u{7f}", "\r"] {
        let err = authorization_entry(bad).unwrap_err();
        assert_eq!(err.kind(), ErrorKind::ServerError);
        assert_eq!(err.internal_msg(), "failed to parse header value");
        assert!(!check_header_text(bad));
    }
}

#[test]
fn header_text_agrees_with_the_transport() {
    for text in ["", "token", "with space", "tab\there", "caf\u{e9}", "new\nline", "bell\u{7}", "del\u{7f}", "~!@#$%^&*()"] {
        let accepted = text.parse::<tonic::metadata::MetadataValue<tonic::metadata::Ascii>>().is_ok();
        assert_eq!(check_header_text(text), accepted, "for {:?}", text);
    }
}

#[test]
fn remote_outcome_is_unwrapped() {
    let ok: Result<u32, RpcStatus> = Ok(5);
    assert_eq!(unwrap_response(ok).unwrap(), 5);
    let failed: Result<u32, RpcStatus> = Err(RpcStatus {
        code: RpcCode::PermissionDenied,
        message: "not yours".to_string(),
        detail: "status: PermissionDenied, message: not yours".to_string(),
    });
    let err = unwrap_response(failed).unwrap_err();
    assert_eq!(err.kind(), ErrorKind::Forbidden);
    assert_eq!(err.status_code(), 403);
    assert_eq!(err.internal_msg(), "status: PermissionDenied, message: not yours");
}

#[test]
fn success_envelope_holds_the_payload() {
    let (code, body) = new_ok_res(201, "file".to_string()).unwrap();
    assert_eq!(code, 201);
    assert!(body.0.success);
    assert_eq!(body.0.error, None);
    assert_eq!(body.0.data.as_deref(), Some("file"));
}

#[test]
fn failure_envelope_holds_the_message() {
    let (code, body) = new_err_res(404, "not found");
    assert_eq!(code, 404);
    assert!(!body.0.success);
    assert_eq!(body.0.error.as_deref(), Some("not found"));
    assert_eq!(body.0.data, None);
}

#[test]
fn documented_responses_have_code_and_description() {
    assert_eq!(ExRes200::responses().code, "200");
    assert_eq!(ExRes200::responses().description, "Success");
    assert_eq!(ExRes201::responses().code, "201");
    assert_eq!(ExRes400::responses().code, "400");
    assert_eq!(ExRes401::responses().code, "401");
    assert_eq!(ExRes404::responses().code, "404");
    assert_eq!(ExRes415::responses().code, "415");
    assert_eq!(ExRes422::responses().code, "422");
    assert_eq!(ExRes5XX::responses().code, "5XX");
    assert_eq!(
        ExRes5XX::responses().description,
        "Some internal server error happened that wasn't the client's fault"
    );
}

#[test]
fn login_holds_the_credentials() {
    let login = LoginPost { email: "a@b.c".to_string(), password: "pw".to_string() };
    assert_eq!(login.email, "a@b.c");
    assert_eq!(login.password, "pw");
}
