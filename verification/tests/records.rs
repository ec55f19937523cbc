use coffeeshop::assoc::Assoc;
use coffeeshop::dynamodb::{
    add_common_items, chunk_tickets, read_process_results, read_process_statuses, select_ticket_result,
    stored_error_schema, to_process_result, to_process_status, AttributeValue, DynamoDBItem, StoredResult, ToItem,
};
use coffeeshop::errors::CoffeeShopError;

fn item() -> DynamoDBItem {
    Assoc::new()
}

fn get<'a>(item: &'a DynamoDBItem, key: &str) -> &'a AttributeValue {
    item.get(key).expect("attribute present")
}

#[test]
fn common_items_carry_ticket_and_expiry() {
    let it = add_common_items(item(), "identifier", "t-1", 1700000000);
    assert!(matches!(get(&it, "identifier"), AttributeValue::S(s) if s == "t-1"));
    assert!(matches!(get(&it, "ttl"), AttributeValue::N(s) if s == "1700000000"));
    let neg = add_common_items(item(), "identifier", "t-1", -5);
    assert!(matches!(get(&neg, "ttl"), AttributeValue::N(s) if s == "-5"));
}

#[test]
fn a_success_reads_back() {
    let it = item().report_ticket_success("identifier", "t-1", vec![1, 2, 3], 99);
    assert!(matches!(get(&it, "status_code"), AttributeValue::N(s) if s == "200"));
    assert!(matches!(get(&it, "success"), AttributeValue::Bool(true)));
    let (ticket, ok) = to_process_status(&it, "identifier").expect("a status");
    assert_eq!((ticket.as_str(), ok), ("t-1", true));
    match to_process_result(it, "identifier").expect("a result") {
        (t, StoredResult::Output { status, output }) => {
            assert_eq!(t, "t-1");
            assert_eq!(status, "200");
            assert_eq!(output, vec![1, 2, 3]);
        },
        other => panic!("unexpected result: {other:?}"),
    }
}

#[test]
fn a_failure_reads_back() {
    let error = CoffeeShopError::TicketNotFound("x".to_string());
    let it = item().report_ticket_result("identifier", "t-2", Err(error), 99);
    assert!(matches!(get(&it, "success"), AttributeValue::Bool(false)));
    match to_process_result(it, "identifier").expect("a result") {
        (t, StoredResult::Failure { status, error }) => {
            assert_eq!(t, "t-2");
            assert_eq!(status, "500");
            assert_eq!(
                error,
                "{\"details\":{\"message\":\"The ticket x was not found.\"},\"error\":\"TicketNotFound\",\"status_code\":500}"
            );
        },
        other => panic!("unexpected result: {other:?}"),
    }
}

#[test]
fn malformed_items_are_reported() {
    let mut it = item();
    it.insert("identifier".to_string(), AttributeValue::N("1".to_string()));
    match to_process_status(&it, "identifier") {
        Err(CoffeeShopError::AWSDynamoDBMalformedItem(m)) => {
            assert_eq!(m, "A map was retrieved, but its structure could not be parsed.")
        },
        other => panic!("unexpected result: {other:?}"),
    }
    let mixed = item().report_ticket_success("identifier", "t", vec![], 1);
    let mut mixed = mixed;
    mixed.insert("error".to_string(), AttributeValue::S("{}".to_string()));
    assert!(matches!(to_process_result(mixed, "identifier"), Err(CoffeeShopError::AWSDynamoDBMalformedItem(_))));
}

#[test]
fn reads_of_many_items() {
    let a = item().report_ticket_success("pk", "a", vec![9], 1);
    let b = item().report_ticket_result("pk", "b", Err(CoffeeShopError::ResultAlreadySet), 1);
    let statuses = read_process_statuses(&vec![a, b], "pk").expect("well-formed items");
    assert_eq!(statuses, vec![("a".to_string(), true), ("b".to_string(), false)]);
    let a = item().report_ticket_success("pk", "a", vec![9], 1);
    let results = read_process_results(vec![a, item()], "pk");
    assert!(matches!(results, Err(CoffeeShopError::AWSDynamoDBMalformedItem(_))));
}

#[test]
fn the_result_of_a_ticket_is_the_last_one_found() {
    let found = vec![("a".to_string(), 1u8), ("b".to_string(), 2u8)];
    assert_eq!(select_ticket_result(found, "b").expect("found"), 2);
    let found = vec![("a".to_string(), 1u8), ("b".to_string(), 2u8)];
    match select_ticket_result(found, "a") {
        Err(CoffeeShopError::ResultNotFound(t)) => assert_eq!(t, "a"),
        other => panic!("unexpected result: {other:?}"),
    }
    assert!(select_ticket_result(Vec::<(String, u8)>::new(), "a").is_err());
}

#[test]
fn an_unparsable_stored_error_is_kept_as_original() {
    let s = stored_error_schema(None, "garbage".to_string());
    assert_eq!(
        s.to_json().to_text(),
        "{\"details\":{\"message\":\"A processing error had occurred, but the error message cannot be parsed; could not report the actual error.\",\"original\":\"garbage\"},\"error\":\"UnknownProcessingError\",\"status_code\":500}"
    );
    let kept = stored_error_schema(Some(CoffeeShopError::ResultAlreadySet.as_error_schema()), "x".to_string());
    assert_eq!(kept.error, "ResultAlreadySet");
}

fn tickets(n: usize) -> Vec<String> {
    (0..n).map(|i| format!("t{i}")).collect()
}

#[test]
fn tickets_are_chunked_for_requests() {
    assert!(chunk_tickets(tickets(0)).is_empty());
    let one = chunk_tickets(tickets(50));
    assert_eq!(one.len(), 1);
    assert_eq!(one[0].len(), 50);
    let exact = chunk_tickets(tickets(100));
    assert_eq!(exact.iter().map(Vec::len).collect::<Vec<_>>(), vec![100]);
    let two = chunk_tickets(tickets(150));
    assert_eq!(two.iter().map(Vec::len).collect::<Vec<_>>(), vec![100, 50]);
    assert_eq!(two[0][0], "t0");
    assert_eq!(two[1][0], "t100");
    let three = chunk_tickets(tickets(250));
    assert_eq!(three.iter().map(Vec::len).collect::<Vec<_>>(), vec![100, 100, 50]);
    assert_eq!(three[2][49], "t249");
    let many = chunk_tickets(tickets(201));
    assert_eq!(many.iter().map(Vec::len).collect::<Vec<_>>(), vec![100, 100, 1]);
    let ten = chunk_tickets(tickets(1000));
    assert_eq!(ten.len(), 10);
    assert!(ten.iter().all(|c| c.len() == 100));
    let eleven = chunk_tickets(tickets(1001));
    assert_eq!(eleven.len(), 11);
    assert_eq!(eleven.concat(), tickets(1001));
}

#[test]
fn batch_keys_hold_one_ticket_each() {
    let keys = coffeeshop::dynamodb::ticket_keys("pk", vec!["a".to_string(), "b".to_string()]);
    assert_eq!(keys.len(), 2);
    assert!(matches!(get(&keys[0], "pk"), AttributeValue::S(s) if s == "a"));
    assert!(matches!(get(&keys[1], "pk"), AttributeValue::S(s) if s == "b"));
    assert_eq!(keys[1].entries().len(), 1);
}
