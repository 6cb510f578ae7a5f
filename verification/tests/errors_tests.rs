use chat_service::errors::{ClientErrorResponder, ErrorResponder, ServerErrorResponder};

#[test]
fn internal_error_is_500() {
    let e = ErrorResponder::internal_error("Something went wrong!!!");
    assert_eq!(e.status(), 500);
    assert_eq!(e.message(), "Something went wrong!!!");
    assert!(matches!(e, ErrorResponder::Server(ServerErrorResponder::InternalError(_))));
}

#[test]
fn bad_request_is_400() {
    let e = ErrorResponder::bad_request("Password not match!");
    assert_eq!(e.status(), 400);
    assert_eq!(e.message(), "Password not match!");
    assert!(matches!(e, ErrorResponder::Client(ClientErrorResponder::BadRequest(_))));
}

#[test]
fn unauthorize_is_401() {
    let e = ErrorResponder::unauthorize("No Token provided!!!");
    assert_eq!(e.status(), 401);
    assert_eq!(e.message(), "No Token provided!!!");
}
