use coffeeshop::errors::aws::{PutItemFailure, ReceiveMessageFailure, SendMessageFailure};
use coffeeshop::errors::handling::{IntoCoffeeShopError, JsonRejection, QueryRejection};
use coffeeshop::errors::schema::push_reason_text;
use coffeeshop::errors::{CoffeeShopError, ErrorSchema, IoError, StatusCode};
use coffeeshop::json::Json;
use coffeeshop::net::{IpAddr, Ipv4Addr};
use coffeeshop::time::Duration;

fn schema(code: u16, error: &str) -> ErrorSchema {
    ErrorSchema::new(StatusCode::from_u16(code).expect("a valid status"), error.to_string(), None)
}

#[test]
fn invalid_configuration_renders() {
    let e = CoffeeShopError::InvalidConfiguration {
        field: "baristas".to_string(),
        message: "must be positive number, found 0.".to_string(),
    };
    assert_eq!(e.to_string(), "Invalid configuration for baristas: must be positive number, found 0.");
    assert_eq!(e.kind(), "InvalidConfiguration");
    assert_eq!(e.status_code().as_u16(), 500);
    assert_eq!(
        e.as_json().to_text(),
        "{\"details\":{\"message\":\"Invalid configuration for baristas: must be positive number, found 0.\"},\"error\":\"InvalidConfiguration\",\"status_code\":500}"
    );
}

#[test]
fn status_codes_by_kind() {
    let ip = IpAddr::V4(Ipv4Addr::new(192, 168, 0, 1));
    assert_eq!(CoffeeShopError::InvalidMulticastAddress(ip).status_code().as_u16(), 400);
    assert_eq!(CoffeeShopError::InvalidRoute("/x".to_string()).status_code().as_u16(), 404);
    assert_eq!(CoffeeShopError::Base64EncodingOversize(300000).status_code().as_u16(), 413);
    assert_eq!(CoffeeShopError::RetrieveTimeout(Duration::from_secs(1)).status_code().as_u16(), 408);
    assert_eq!(CoffeeShopError::AWSConfigIncomplete("x".to_string()).status_code().as_u16(), 401);
    assert_eq!(CoffeeShopError::AWSQueueDoesNotExist("q".to_string()).status_code().as_u16(), 502);
    assert_eq!(CoffeeShopError::AWSDynamoDBMalformedItem("m".to_string()).status_code().as_u16(), 502);
    assert_eq!(
        CoffeeShopError::InvalidPayload { kind: "k".to_string(), message: "m".to_string() }.status_code().as_u16(),
        422
    );
    assert_eq!(CoffeeShopError::ResultAlreadySet.status_code().as_u16(), 500);
    assert_eq!(CoffeeShopError::ErrorSchema(schema(429, "Busy")).status_code().as_u16(), 429);
    assert_eq!(CoffeeShopError::ProcessingError(schema(404, "NotHere")).status_code().as_u16(), 404);
}

#[test]
fn display_texts() {
    let ip = IpAddr::V4(Ipv4Addr::new(192, 168, 0, 1));
    assert_eq!(CoffeeShopError::InvalidMulticastAddress(ip).to_string(), "192.168.0.1 is not a valid multicast address.");
    assert_eq!(
        CoffeeShopError::Base64EncodingOversize(300000).to_string(),
        "The requested payload is 300000 bytes in size, exceeding the limit; try chunking the payload and retry the request."
    );
    assert_eq!(
        CoffeeShopError::RetrieveTimeout(Duration::new(1, 500_000_000)).to_string(),
        "Timed out awaiting results after 1.5s seconds"
    );
    assert_eq!(
        CoffeeShopError::AWSSQSQueueEmpty(Duration::from_secs(20)).to_string(),
        "AWS SQS Queue is empty after waiting for 20s."
    );
    assert_eq!(
        CoffeeShopError::TicketNotFound("abc".to_string()).to_string(),
        "The ticket abc was not found."
    );
    assert_eq!(
        CoffeeShopError::AWSSQSStagedReceiptAlreadyCompleted("deleted".to_string()).to_string(),
        "Message from AWS SQS had already been completed, and cannot be deleted again."
    );
    assert_eq!(
        CoffeeShopError::ProcessingError(schema(404, "NotHere")).to_string(),
        "Error during processing: Not Found: NotHere"
    );
    assert_eq!(
        CoffeeShopError::ErrorSchema(schema(422, "ValidationError")).to_string(),
        "Upstream worker reported an error: ErrorSchema { status_code: 422, error: \"ValidationError\", details: None }"
    );
}

#[test]
fn schemas_are_their_own_json() {
    let s = ErrorSchema::new(
        StatusCode::unprocessable_entity(),
        "ValidationError".to_string(),
        Some(Json::Str("bad".to_string())),
    );
    assert_eq!(s.to_string(), "Unprocessable Entity: ValidationError");
    assert_eq!(s.to_json().to_text(), "{\"details\":\"bad\",\"error\":\"ValidationError\",\"status_code\":422}");
    let e = CoffeeShopError::ErrorSchema(s.duplicate());
    assert_eq!(e.as_json().to_text(), s.to_json().to_text());
    assert_eq!(e.as_error_schema().to_json().to_text(), s.to_json().to_text());
}

#[test]
fn unacceptable_header_lists_the_header() {
    let e = JsonRejection::MissingJsonContentType("Expected request with `Content-Type: application/json`".to_string())
        .into_coffeeshop_error();
    assert_eq!(e.status_code().as_u16(), 406);
    assert_eq!(
        e.as_json().to_text(),
        "{\"details\":{\"headers\":{\"content-type\":\"This endpoint only accepts JSON payload; Expected request with `Content-Type: application/json`. Please check your headers.\"},\"message\":\"Unacceptable headers provided; please check the following headers.\"},\"error\":\"InvalidHeader\",\"status_code\":406}"
    );
}

#[test]
fn rejections_convert() {
    match QueryRejection::FailedToDeserializeQueryString("missing field `ticket`".to_string()).into_coffeeshop_error() {
        CoffeeShopError::InvalidQueryOptions(m) => assert_eq!(m, "missing field `ticket`"),
        other => panic!("unexpected error: {other:?}"),
    }
    match QueryRejection::Other("odd".to_string()).into_coffeeshop_error() {
        CoffeeShopError::InvalidQueryOptions(m) => assert_eq!(m, "Unknown query rejection: \"odd\""),
        other => panic!("unexpected error: {other:?}"),
    }
    match JsonRejection::JsonSyntaxError("expected value".to_string()).into_coffeeshop_error() {
        CoffeeShopError::MalformedJsonPayload(m) => assert_eq!(m, "Invalid JSON syntax: expected value"),
        other => panic!("unexpected error: {other:?}"),
    }
    match JsonRejection::BytesRejection("too big".to_string()).into_coffeeshop_error() {
        CoffeeShopError::InvalidPayload { kind, message } => {
            assert_eq!(kind, "BytesRejection");
            assert_eq!(message, "Failed to buffer body: too big");
        },
        other => panic!("unexpected error: {other:?}"),
    }
    match JsonRejection::Other("x".to_string()).into_coffeeshop_error() {
        CoffeeShopError::InvalidPayload { kind, message } => {
            assert_eq!(kind, "UnknownJsonRejection");
            assert_eq!(message, "Unknown JSON rejection: \"x\"");
        },
        other => panic!("unexpected error: {other:?}"),
    }
    let same = CoffeeShopError::ResultAlreadySet.into_coffeeshop_error();
    assert!(matches!(same, CoffeeShopError::ResultAlreadySet));
}

#[test]
fn io_errors_convert() {
    let exists = IoError {
        kind_name: "AlreadyExists".to_string(),
        kind_text: "entity already exists".to_string(),
        message: "file exists".to_string(),
    };
    assert!(matches!(CoffeeShopError::from_io_error(exists), CoffeeShopError::NonUniqueTemporaryFile));
    let denied = IoError {
        kind_name: "PermissionDenied".to_string(),
        kind_text: "permission denied".to_string(),
        message: "no access".to_string(),
    };
    let e = CoffeeShopError::from_io_error(denied);
    assert_eq!(e.to_string(), "An IOError::permission denied had occurred: no access");
    let m = CoffeeShopError::from_multicast_io_error(IoError {
        kind_name: "AddrInUse".to_string(),
        kind_text: "address in use".to_string(),
        message: "busy".to_string(),
    });
    assert_eq!(m.to_string(), "An IOError::address in use had occurred during multicast operations: busy");
    let s = CoffeeShopError::from_server_io_error(IoError {
        kind_name: "Other".to_string(),
        kind_text: "other error".to_string(),
        message: "x".to_string(),
    });
    assert_eq!(s.to_string(), "HTTP Host failed: other error");
}

#[test]
fn box_errors_become_upstream_errors() {
    let e = CoffeeShopError::from_axum_box_error("request timed out".to_string());
    assert_eq!(e.status_code().as_u16(), 500);
    assert_eq!(
        e.as_json().to_text(),
        "{\"details\":{\"message\":\"request timed out\"},\"error\":\"BoxError\",\"status_code\":500}"
    );
}

#[test]
fn service_errors_are_classified() {
    match CoffeeShopError::from_aws_sqs_receive_message_error(ReceiveMessageFailure::QueueDoesNotExist, "https://q") {
        CoffeeShopError::AWSQueueDoesNotExist(u) => assert_eq!(u, "https://q"),
        other => panic!("unexpected error: {other:?}"),
    }
    match CoffeeShopError::from_aws_sqs_send_message_error(SendMessageFailure::InvalidMessageContents(None), "https://q") {
        CoffeeShopError::AWSSQSInvalidMessage(m) => assert_eq!(m, "(No details provided)"),
        other => panic!("unexpected error: {other:?}"),
    }
    match CoffeeShopError::from_aws_sqs_send_message_error(
        SendMessageFailure::KmsAccessDenied(Some("denied".to_string())),
        "https://q",
    ) {
        CoffeeShopError::AWSCredentialsError(m) => assert_eq!(m, "denied"),
        other => panic!("unexpected error: {other:?}"),
    }
    match CoffeeShopError::from_aws_dynamodb_put_item_error(PutItemFailure::InvalidEndpoint, "results") {
        CoffeeShopError::InvalidConfiguration { field, message } => {
            assert_eq!(field, "dynamodb_table");
            assert_eq!(message, "Invalid endpoint for DynamoDB; please verify the table: results");
        },
        other => panic!("unexpected error: {other:?}"),
    }
    assert!(matches!(
        CoffeeShopError::from_aws_dynamodb_put_item_error(PutItemFailure::ProvisionedThroughputExceeded, "results"),
        CoffeeShopError::AWSDynamoDBRateLimitExceeded
    ));
}

#[test]
fn equality_goes_by_kind_and_json() {
    let a = CoffeeShopError::TicketNotFound("t".to_string());
    let b = CoffeeShopError::TicketNotFound("t".to_string());
    let c = CoffeeShopError::TicketNotFound("u".to_string());
    assert!(a == b);
    assert!(a != c);
    let upstream = CoffeeShopError::from_error_schema(a.as_error_schema());
    assert!(upstream == a);
    assert!(a == upstream);
    assert!(CoffeeShopError::ResultAlreadySet != CoffeeShopError::NonUniqueTemporaryFile);
}

#[test]
fn status_code_range() {
    assert!(StatusCode::from_u16(99).is_none());
    assert!(StatusCode::from_u16(1000).is_none());
    assert_eq!(StatusCode::from_u16(100).map(|s| s.as_u16()), Some(100));
    assert_eq!(StatusCode::from_u16(999).map(|s| s.as_u16()), Some(999));
    assert_eq!(StatusCode::ok().as_u16(), 200);
    assert_eq!(StatusCode::too_many_requests().as_u16(), 429);
}

#[test]
fn schemas_compare_by_content() {
    let a = ErrorSchema::new(StatusCode::bad_request(), "Bad".to_string(), Some(Json::Str("x".to_string())));
    let b = ErrorSchema::new(StatusCode::bad_request(), "Bad".to_string(), Some(Json::Str("x".to_string())));
    let c = ErrorSchema::new(StatusCode::bad_request(), "Bad".to_string(), None);
    let d = ErrorSchema::new(StatusCode::not_found(), "Bad".to_string(), None);
    assert_eq!(a, b);
    assert_ne!(a, c);
    assert_ne!(c, d);
    assert_eq!(a.duplicate(), a);
}

#[test]
fn reasons_or_codes() {
    let mut s = String::new();
    push_reason_text(&mut s, None, 299);
    assert_eq!(s, "299");
    let mut s = String::new();
    push_reason_text(&mut s, Some("Teapot"), 418);
    assert_eq!(s, "Teapot");
    let mut s = String::new();
    StatusCode::from_u16(299).expect("in range").push_reason_or_code(&mut s);
    assert_eq!(s, "299");
    let mut s = String::new();
    StatusCode::not_found().push_reason_or_code(&mut s);
    assert_eq!(s, "Not Found");
}
