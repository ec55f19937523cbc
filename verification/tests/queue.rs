use coffeeshop::errors::CoffeeShopError;
use coffeeshop::sqs::{
    decode, decoding_outcome, encode, get_ticket_count, parse_usize, receive_wait, sent_ticket, stage_message,
    ParseFailure, QueueAttributes, ReceiptReply, ReceivedMessage, StagedReceipt, SIZE_LIMIT,
};
use coffeeshop::time::Duration;

#[test]
fn encode_gives_unpadded_standard_base64() {
    assert_eq!(encode(b"hello").expect("small payload"), "aGVsbG8");
    assert_eq!(encode(b"").expect("empty payload"), "");
    assert_eq!(encode(&[0xff, 0xfe]).expect("small payload"), "//4");
    assert_eq!(encode(b"abc").expect("small payload"), "YWJj");
}

#[test]
fn encode_refuses_oversized_payloads() {
    assert_eq!(SIZE_LIMIT, 262144);
    let fits = vec![7u8; 196608];
    assert_eq!(encode(&fits).expect("exactly at the limit").len(), 262144);
    let over = vec![7u8; 196609];
    match encode(&over) {
        Err(CoffeeShopError::Base64EncodingOversize(n)) => assert_eq!(n, 262146),
        other => panic!("unexpected result: {other:?}"),
    }
}

#[test]
fn decode_inverts_encode() {
    for data in [&b""[..], b"a", b"ab", b"abc", b"hello world", &[0u8, 255, 128, 1, 2]] {
        let text = encode(data).expect("small payload");
        assert_eq!(decode(&text).expect("own encoding decodes"), data.to_vec());
    }
}

#[test]
fn decode_reports_the_decoding_error() {
    match decode("aGVsbG8=") {
        Err(e @ CoffeeShopError::Base64DecodingError(_)) => {
            assert_eq!(e.to_string(), "Failed to decode from Base64: Invalid padding");
        },
        other => panic!("unexpected result: {other:?}"),
    }
    match decode("!!!!") {
        Err(CoffeeShopError::Base64DecodingError(m)) => assert_eq!(m, "Invalid symbol 33, offset 0."),
        other => panic!("unexpected result: {other:?}"),
    }
    match decoding_outcome(Err("boom".to_string())) {
        Err(CoffeeShopError::Base64DecodingError(m)) => assert_eq!(m, "boom"),
        other => panic!("unexpected result: {other:?}"),
    }
    assert_eq!(decoding_outcome(Ok(vec![1, 2])).expect("kept"), vec![1, 2]);
}

#[test]
fn parse_agrees_with_the_standard_library() {
    let inputs = [
        "", "0", "7", "12", "+7", "+", "-", "-1", "1a", "a1", " 1", "1 ", "007", "+-1", "++1", "٣",
        "18446744073709551615", "18446744073709551616", "99999999999999999999x", "4294967295", "4294967296",
    ];
    for s in inputs {
        match (parse_usize(s), s.parse::<usize>()) {
            (Ok(a), Ok(b)) => assert_eq!(a, b, "value of {s:?}"),
            (Err(a), Err(b)) => assert_eq!(a.message(), b.to_string(), "error of {s:?}"),
            (a, b) => panic!("disagreement on {s:?}: {a:?} vs {b:?}"),
        }
    }
}

#[test]
fn parse_failures() {
    assert_eq!(parse_usize(""), Err(ParseFailure::Empty));
    assert_eq!(parse_usize("+"), Err(ParseFailure::InvalidDigit));
    assert_eq!(parse_usize("-3"), Err(ParseFailure::InvalidDigit));
    assert_eq!(parse_usize("+42"), Ok(42));
    assert_eq!(ParseFailure::Empty.message(), "cannot parse integer from empty string");
    assert_eq!(ParseFailure::InvalidDigit.message(), "invalid digit found in string");
    assert_eq!(ParseFailure::PosOverflow.message(), "number too large to fit in target type");
}

#[test]
fn ticket_count_from_attributes() {
    match get_ticket_count(None) {
        Err(CoffeeShopError::UnexpectedAWSResponse(m)) => assert_eq!(m, "Missing attributes"),
        other => panic!("unexpected result: {other:?}"),
    }
    match get_ticket_count(Some(QueueAttributes { approximate_number_of_messages: None })) {
        Err(CoffeeShopError::UnexpectedAWSResponse(m)) => assert_eq!(m, "Missing approximate number of messages"),
        other => panic!("unexpected result: {other:?}"),
    }
    let five = get_ticket_count(Some(QueueAttributes { approximate_number_of_messages: Some("5".to_string()) }));
    assert_eq!(five.expect("a count"), 5);
    match get_ticket_count(Some(QueueAttributes { approximate_number_of_messages: Some("abc".to_string()) })) {
        Err(CoffeeShopError::UnexpectedAWSResponse(m)) => assert_eq!(
            m,
            "Failed to parse the approximate number of messages \"abc\": invalid digit found in string"
        ),
        other => panic!("unexpected result: {other:?}"),
    }
}

#[test]
fn sent_ticket_needs_a_message_id() {
    assert_eq!(sent_ticket(Some("id-1".to_string())).expect("an id"), "id-1");
    match sent_ticket(None) {
        Err(CoffeeShopError::UnexpectedAWSResponse(m)) => assert_eq!(m, "No message ID returned upon sending message."),
        other => panic!("unexpected result: {other:?}"),
    }
}

#[test]
fn receive_wait_is_at_most_twenty_seconds() {
    let (d, s) = receive_wait(None);
    assert_eq!((d.as_secs(), d.subsec_nanos(), s), (20, 0, 20));
    let (d, s) = receive_wait(Some(Duration::from_secs(5)));
    assert_eq!((d.as_secs(), d.subsec_nanos(), s), (5, 0, 5));
    let (d, s) = receive_wait(Some(Duration::from_secs(30)));
    assert_eq!((d.as_secs(), d.subsec_nanos(), s), (20, 0, 20));
    let (d, s) = receive_wait(Some(Duration::new(1, 500_000_000)));
    assert_eq!((d.as_secs(), d.subsec_nanos(), s), (1, 500_000_000, 1));
}

fn message(h: Option<&str>, b: Option<&str>, i: Option<&str>) -> ReceivedMessage {
    ReceivedMessage {
        receipt_handle: h.map(str::to_string),
        body: b.map(str::to_string),
        message_id: i.map(str::to_string),
    }
}

#[test]
fn staging_takes_the_last_message() {
    let wait = Duration::from_secs(20);
    match stage_message(None, wait) {
        Err(CoffeeShopError::AWSSQSQueueEmpty(d)) => assert_eq!(d.as_secs(), 20),
        other => panic!("unexpected result: {other:?}"),
    }
    assert!(matches!(stage_message(Some(vec![]), wait), Err(CoffeeShopError::AWSSQSQueueEmpty(_))));
    let staged = stage_message(
        Some(vec![message(Some("h1"), Some("b1"), Some("i1")), message(Some("h2"), Some("b2"), Some("i2"))]),
        wait,
    )
    .expect("complete message");
    assert_eq!((staged.receipt_handle.as_str(), staged.body.as_str(), staged.ticket.as_str()), ("h2", "b2", "i2"));
}

#[test]
fn staging_reports_missing_parts_in_order() {
    let wait = Duration::from_secs(1);
    let cases = [
        (message(None, None, None), "Missing SQS receipt handle"),
        (message(Some("h"), None, None), "Missing SQS message body"),
        (message(Some("h"), Some("b"), None), "Missing SQS message ID"),
    ];
    for (m, expected) in cases {
        match stage_message(Some(vec![m]), wait) {
            Err(CoffeeShopError::UnexpectedAWSResponse(t)) => assert_eq!(t, expected),
            other => panic!("unexpected result: {other:?}"),
        }
    }
}

#[test]
fn a_receipt_completes_once() {
    let staged = stage_message(Some(vec![message(Some("h"), Some("b"), Some("t"))]), Duration::from_secs(1))
        .expect("complete message");
    let mut receipt = StagedReceipt::new(staged, 42u32, "https://queue".to_string());
    assert_eq!(receipt.ticket(), "t");
    assert_eq!(receipt.receipt_handle(), "h");
    assert_eq!(receipt.queue_url(), "https://queue");
    assert_eq!(*receipt.message(), 42);
    assert!(!receipt.is_completed());
    assert_eq!(receipt.delete().expect("first completion"), ReceiptReply::Delete);
    assert!(receipt.is_completed());
    match receipt.abort() {
        Err(CoffeeShopError::AWSSQSStagedReceiptAlreadyCompleted(m)) => assert_eq!(m, "aborted"),
        other => panic!("unexpected result: {other:?}"),
    }
    match receipt.complete(true) {
        Err(CoffeeShopError::AWSSQSStagedReceiptAlreadyCompleted(m)) => assert_eq!(m, "deleted"),
        other => panic!("unexpected result: {other:?}"),
    }
}

#[test]
fn an_aborted_receipt_returns_to_the_queue() {
    let staged = stage_message(Some(vec![message(Some("h"), Some("b"), Some("t"))]), Duration::from_secs(1))
        .expect("complete message");
    let mut receipt = StagedReceipt::new(staged, (), "q".to_string());
    assert_eq!(receipt.abort().expect("first completion"), ReceiptReply::ReturnToQueue);
    assert!(receipt.delete().is_err());
}

#[test]
fn counts_read_back_from_their_decimal_text() {
    for n in [0u64, 7, 10, 99, 100, 12345, 4294967295, 18446744073709551615] {
        let text = coffeeshop::text::decimal_string(n);
        assert_eq!(parse_usize(&text), Ok(n as usize));
    }
}
