use vine::errors::Code;
use vine::errors::Status;
use vine::errors::status_from_rpc;

#[test]
fn lib_test_new() {
    let status1 = Status::new("io.vine", "name is invalid", Code::InternalServerError);
    let status2 = Status::internal_server_error("io.vine", "name is invalid");

    assert_eq!(status1.code(), Code::InternalServerError);
    assert_eq!(status1.code(), status2.code());
}

#[test]
fn from_tonic_status() {
    let ts = tonic::Status::new(tonic::Code::Internal, "internal error");
    let s = status_from_rpc(ts.code() as i32, ts.message());
    assert_eq!(s.code(), Code::InternalServerError);
    assert_eq!(s.detail(), "internal error");
}

#[test]
fn into_tonic_status() {
    let s = Status::new("", "internal", Code::InternalServerError);
    let ts = tonic::Status::new(tonic::Code::from(s.to_rpc_code()), s.detail());
    assert_eq!(ts.message(), "internal");
    assert_eq!(ts.code(), tonic::Code::Internal);
}

#[test]
fn code_from_i32_known_and_unknown() {
    assert_eq!(Code::from_i32(404), Code::NotFound);
    assert_eq!(Code::from_i32(500), Code::InternalServerError);
    assert_eq!(Code::from_i32(201), Code::Continue);
    assert_eq!(Code::from_i32(7), Code::Unknown);
}

#[test]
fn code_numbers() {
    assert_eq!(Code::NotFound.to_i32(), 404);
    assert_eq!(Code::Unknown.to_i32(), 0);
    assert_eq!(Code::GatewayTimeout.to_i32(), 504);
}

#[test]
fn code_descriptions() {
    assert_eq!(Code::Okay.description(), "OK");
    assert_eq!(Code::NotFound.description(), "Not Found");
    assert_eq!(Code::Unknown.description(), "Unknown error");
}

#[test]
fn status_fields_and_builders() {
    let mut s = Status::not_found("go.vine.client", "not found");
    assert_eq!(s.id(), "go.vine.client");
    assert_eq!(s.detail(), "not found");
    assert_eq!(s.status(), "Not Found");
    assert_eq!(s.position(), "");
    s.with_id("other");
    assert_eq!(s.id(), "other");
    s.with_code(Code::Conflict);
    assert_eq!(s.code(), Code::Conflict);
}

#[test]
fn status_equal_compares_codes() {
    let a = Status::timeout("x", "a");
    let b = Status::timeout("y", "b");
    let c = Status::conflict("x", "a");
    assert!(a.equal(&b));
    assert!(!a.equal(&c));
}

#[test]
fn status_constructors_carry_their_codes() {
    assert_eq!(Status::unknown("i", "d").code(), Code::Unknown);
    assert_eq!(Status::ok("i").code(), Code::Unknown);
    assert_eq!(Status::do_continue("i").code(), Code::Okay);
    assert_eq!(Status::bad_request("i", "d").code(), Code::BadRequest);
    assert_eq!(Status::unauthorized("i", "d").code(), Code::Unauthorized);
    assert_eq!(Status::forbidden("i", "d").code(), Code::Forbidden);
    assert_eq!(Status::not_found("i", "d").code(), Code::NotFound);
    assert_eq!(Status::method_not_allowed("i", "d").code(), Code::MethodNotAllowed);
    assert_eq!(Status::timeout("i", "d").code(), Code::RequestTimeout);
    assert_eq!(Status::conflict("i", "d").code(), Code::Conflict);
    assert_eq!(Status::precondition_failed("i", "d").code(), Code::PreconditionFailed);
    assert_eq!(Status::too_many_requests("i", "d").code(), Code::TooManyRequests);
    assert_eq!(Status::internal_server_error("i", "d").code(), Code::InternalServerError);
    assert_eq!(Status::not_implemented("i", "d").code(), Code::NotImplementedError);
    assert_eq!(Status::bad_gateway("i", "d").code(), Code::BadGateway);
    assert_eq!(Status::service_unavailable("i", "d").code(), Code::ServiceUnavailable);
    assert_eq!(Status::gateway_timeout("i", "d").code(), Code::GatewayTimeout);
}

#[test]
fn rpc_code_round_trips_for_exact_codes() {
    let s = Status::not_found("", "gone");
    let back = status_from_rpc(s.to_rpc_code(), s.detail());
    assert_eq!(back.code(), Code::NotFound);
}
