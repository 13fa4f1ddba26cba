use pingpong::error::{CallError, ConnectError, Failure};
use pingpong::message::{PingRequest, ServiceAddress};
use pingpong::text::decimal_text;

#[test]
fn connect_error_describes_its_cause() {
    let error = ConnectError::new("connection refused");
    assert_eq!(error.cause, "connection refused");
    assert_eq!(error.describe(), "connect failed: connection refused");
    assert_eq!(ConnectError::new("").describe(), "connect failed: ");
}

#[test]
fn call_errors_describe_their_class_and_cause() {
    assert_eq!(
        CallError::Transport("broken pipe".to_string()).describe(),
        "transport failure: broken pipe"
    );
    assert_eq!(
        CallError::Decode("unexpected end of input".to_string()).describe(),
        "decode failure: unexpected end of input"
    );
    assert_eq!(
        CallError::Remote { code: 5, message: "not found".to_string() }.describe(),
        "remote failure (status 5): not found"
    );
    assert_eq!(
        CallError::Remote { code: 13, message: String::new() }.describe(),
        "remote failure (status 13): "
    );
    assert_eq!(
        CallError::Remote { code: -7, message: "odd".to_string() }.describe(),
        "remote failure (status -7): odd"
    );
}

#[test]
fn failure_describes_the_error_it_holds() {
    assert_eq!(
        Failure::Connect(ConnectError::new("dns error")).describe(),
        "connect failed: dns error"
    );
    assert_eq!(
        Failure::Call(CallError::Decode("bad tag".to_string())).describe(),
        "decode failure: bad tag"
    );
}

#[test]
fn status_with_lost_connection_is_transport() {
    assert_eq!(
        CallError::from_status(14, "connection closed".to_string(), true),
        CallError::Transport("connection closed".to_string())
    );
    assert_eq!(
        CallError::from_status(2, "".to_string(), true),
        CallError::Transport("".to_string())
    );
}

#[test]
fn status_from_the_service_is_remote() {
    assert_eq!(
        CallError::from_status(14, "try again later".to_string(), false),
        CallError::Remote { code: 14, message: "try again later".to_string() }
    );
    assert_eq!(
        CallError::from_status(-1, "odd".to_string(), false),
        CallError::Remote { code: -1, message: "odd".to_string() }
    );
}

#[test]
fn undecodable_keeps_the_cause() {
    assert_eq!(
        CallError::undecodable("invalid varint".to_string()),
        CallError::Decode("invalid varint".to_string())
    );
}

#[test]
fn address_and_request_keep_their_text() {
    assert_eq!(ServiceAddress::local().as_str(), "http://localhost:50051");
    assert_eq!(ServiceAddress::new("http://[::1]:9000").as_str(), "http://[::1]:9000");
    assert_eq!(PingRequest::new("ping").ping(), "ping");
    assert_eq!(PingRequest::new("").ping(), "");
}

#[test]
fn decimal_text_writes_every_digit() {
    assert_eq!(decimal_text(0), "0");
    assert_eq!(decimal_text(7), "7");
    assert_eq!(decimal_text(9), "9");
    assert_eq!(decimal_text(10), "10");
    assert_eq!(decimal_text(16), "16");
    assert_eq!(decimal_text(100), "100");
    assert_eq!(decimal_text(1234567890), "1234567890");
    assert_eq!(decimal_text(i32::MAX), "2147483647");
}

#[test]
fn decimal_text_signs_negative_numbers() {
    assert_eq!(decimal_text(-1), "-1");
    assert_eq!(decimal_text(-10), "-10");
    assert_eq!(decimal_text(-908), "-908");
    assert_eq!(decimal_text(i32::MIN), "-2147483648");
}

#[test]
fn decimal_text_agrees_with_the_standard_formatting() {
    for n in [-100000, -4321, -11, -9, 0, 5, 19, 20, 99, 101, 65535, 1000000] {
        assert_eq!(decimal_text(n), format!("{}", n));
    }
}
