use coffeeshop::assoc::Assoc;
use coffeeshop::barista::{
    announcement, classify_round, finish_ticket, plan_ticket, processed_status, report_idle_after, Round,
};
use coffeeshop::errors::CoffeeShopError;
use coffeeshop::machine::validation_error;
use coffeeshop::message::{MulticastMessage, MulticastMessageKind, MulticastMessageStatus, TicketQuery};
use coffeeshop::order::{epoch_nanos, Order, Orders};
use coffeeshop::shop::{order_to_retrieve, resource_name, shop_resources};
use coffeeshop::time::Duration;

#[test]
fn an_order_completes_once() {
    let mut o = Order::new("t".to_string());
    assert!(!o.is_fulfilled());
    assert_eq!(o.result(), None);
    assert!(o.complete_with_timestamp(true, 100).is_ok());
    assert_eq!(o.result(), Some((100, true)));
    assert!(matches!(o.complete_with_timestamp(false, 200), Err(CoffeeShopError::ResultAlreadySet)));
    assert_eq!(o.result(), Some((100, true)));
    assert_eq!(o.age_of_result(150), Some(50));
    assert_eq!(o.age_of_result(50), Some(0));
    assert!(matches!(o.complete(false), Err(CoffeeShopError::ResultAlreadySet)));
}

#[test]
fn staleness_needs_an_old_result_and_no_waiters() {
    let mut o = Order::new("t".to_string());
    assert!(!o.is_stale(1_000_000, 10));
    o.complete_with_timestamp(true, 100).expect("first result");
    assert!(!o.is_stale(110, 10));
    assert!(o.is_stale(111, 10));
    o.add_waiter();
    assert!(!o.is_stale(111, 10));
    o.remove_waiter();
    assert!(o.is_stale(111, 10));
    o.remove_waiter();
    assert!(o.is_stale(111, 10));
}

#[test]
fn orders_spawn_complete_and_purge() {
    let mut orders = Orders::new();
    assert_eq!(orders.len(), 0);
    orders.spawn_order("a".to_string());
    orders.spawn_order("b".to_string());
    orders.spawn_order("a".to_string());
    assert_eq!(orders.len(), 2);
    assert!(orders.has_order("a"));
    assert!(!orders.has_order("c"));
    assert!(matches!(orders.complete("a", true, 100), Some(Ok(()))));
    assert!(orders.complete("c", true, 100).is_none());
    assert!(matches!(orders.complete("a", false, 120), Some(Err(CoffeeShopError::ResultAlreadySet))));
    assert_eq!(orders.get_order("a").and_then(|o| o.result()), Some((100, true)));
    let mut pending = orders.unfulfilled_tickets();
    pending.sort();
    assert_eq!(pending, vec!["b".to_string()]);
    assert!(orders.add_waiter("a"));
    assert!(!orders.add_waiter("zzz"));
    assert_eq!(orders.purge_stale_orders(1000, 10), 0);
    orders.remove_waiter("a");
    assert_eq!(orders.purge_stale_orders(1000, 10), 1);
    assert!(!orders.has_order("a"));
    assert!(orders.has_order("b"));
    assert_eq!(orders.len(), 1);
}

#[test]
fn spawning_gives_the_order_of_the_ticket() {
    let mut orders = Orders::new();
    let fresh = orders.spawn_order("a".to_string());
    assert_eq!(fresh.ticket(), "a");
    assert_eq!(fresh.result(), None);
    assert!(!fresh.is_fulfilled());
    assert!(matches!(orders.complete("a", true, 40), Some(Ok(()))));
    let kept = orders.spawn_order("a".to_string());
    assert_eq!(kept.ticket(), "a");
    assert_eq!(kept.result(), Some((40, true)));
    assert_eq!(orders.spawn_order("b".to_string()).result(), None);
    assert_eq!(orders.len(), 2);
}

#[test]
fn found_results_settle_orders_in_turn() {
    let mut orders = Orders::new();
    orders.spawn_order("a".to_string());
    orders.spawn_order("b".to_string());
    let found = vec![("a".to_string(), true), ("zzz".to_string(), false), ("b".to_string(), false)];
    assert!(orders.apply_found_results(&found, 7).is_ok());
    assert_eq!(orders.get_order("a").and_then(|o| o.result()), Some((7, true)));
    assert_eq!(orders.get_order("b").and_then(|o| o.result()), Some((7, false)));
    let again = vec![("a".to_string(), false)];
    assert!(matches!(orders.apply_found_results(&again, 8), Err(CoffeeShopError::ResultAlreadySet)));
    assert_eq!(orders.get_order("a").and_then(|o| o.result()), Some((7, true)));
}

#[test]
fn announcements_settle_finished_tickets_only() {
    let mut orders = Orders::new();
    orders.spawn_order("a".to_string());
    orders.spawn_order("b".to_string());
    let failure = MulticastMessage::new("shop", "a", MulticastMessageKind::Ticket, MulticastMessageStatus::Failure);
    assert!(orders.handle_announcement(&failure, 5).is_ok());
    assert_eq!(orders.get_order("a").and_then(|o| o.result()), None);
    let complete = MulticastMessage::new_ticket_complete("shop", "a");
    assert!(orders.handle_announcement(&complete, 6).is_ok());
    assert_eq!(orders.get_order("a").and_then(|o| o.result()), Some((6, true)));
    let rejected = MulticastMessage::new_ticket_rejected("shop", "b");
    assert!(orders.handle_announcement(&rejected, 7).is_ok());
    assert_eq!(orders.get_order("b").and_then(|o| o.result()), Some((7, false)));
    let stranger = MulticastMessage::new_ticket_complete("shop", "nobody");
    assert!(orders.handle_announcement(&stranger, 8).is_ok());
    assert!(matches!(orders.handle_announcement(&complete, 9), Err(CoffeeShopError::ResultAlreadySet)));
    assert_eq!(complete.completion(), Some(true));
    assert_eq!(rejected.completion(), Some(false));
    assert_eq!(failure.completion(), None);
}

#[test]
fn retrieval_needs_an_order() {
    let mut orders = Orders::new();
    orders.spawn_order("a".to_string());
    assert_eq!(order_to_retrieve(&orders, "a").expect("an order").ticket(), "a");
    match order_to_retrieve(&orders, "b") {
        Err(e @ CoffeeShopError::TicketNotFound(_)) => assert_eq!(e.to_string(), "The ticket b was not found."),
        other => panic!("unexpected result: {other:?}"),
    }
}

#[test]
fn a_barista_plans_by_what_was_stored() {
    assert_eq!(processed_status(true), MulticastMessageStatus::Complete);
    assert_eq!(processed_status(false), MulticastMessageStatus::Rejected);
    let stored = plan_ticket(false, Ok(()));
    assert_eq!(stored.announce, MulticastMessageStatus::Rejected);
    assert!(stored.delete);
    assert!(stored.result.is_ok());
    let failed = plan_ticket(true, Err(CoffeeShopError::AWSDynamoDBRateLimitExceeded));
    assert_eq!(failed.announce, MulticastMessageStatus::Failure);
    assert!(!failed.delete);
    assert!(matches!(failed.result, Err(CoffeeShopError::AWSDynamoDBRateLimitExceeded)));
    let m = announcement("shop-1", "t-9", &stored);
    assert_eq!((m.task.as_str(), m.ticket.as_str()), ("shop-1", "t-9"));
    assert_eq!(m.kind(), MulticastMessageKind::Ticket);
    assert_eq!(m.status(), MulticastMessageStatus::Rejected);
    assert!(m.timestamp.is_some());
    assert!(matches!(
        finish_ticket(Ok(()), Err(CoffeeShopError::AWSSdkError("x".to_string()))),
        Err(CoffeeShopError::AWSSdkError(_))
    ));
    assert!(finish_ticket(Ok(()), Ok(())).is_ok());
    assert!(matches!(finish_ticket(Err(CoffeeShopError::ResultAlreadySet), Ok(())), Err(CoffeeShopError::ResultAlreadySet)));
}

#[test]
fn rounds_of_a_serving_barista() {
    assert!(matches!(classify_round(Ok(())), Round::Served));
    match classify_round(Err(CoffeeShopError::AWSSQSQueueEmpty(Duration::from_secs(20)))) {
        Round::Idle(d) => assert_eq!(d.as_secs(), 20),
        other => panic!("unexpected round: {other:?}"),
    }
    assert!(matches!(classify_round(Err(CoffeeShopError::ResultAlreadySet)), Round::Failed(_)));
    assert_eq!(report_idle_after().as_secs(), 20);
}

#[test]
fn resources_default_to_the_shop_name() {
    assert_eq!(resource_name("barista"), "task-queue-barista");
    let (table, queue) = shop_resources("espresso", None, None);
    assert_eq!((table.as_str(), queue.as_str()), ("task-queue-espresso", "task-queue-espresso"));
    let (table, queue) = shop_resources("espresso", Some("t".to_string()), Some("https://q".to_string()));
    assert_eq!((table.as_str(), queue.as_str()), ("t", "https://q"));
}

#[test]
fn validation_reports_each_field() {
    let mut details: Assoc<String> = Assoc::new();
    details.insert("name".to_string(), "required".to_string());
    let one = validation_error(&details);
    assert_eq!(one.status_code.as_u16(), 422);
    assert_eq!(
        one.to_json().to_text(),
        "{\"details\":{\"fields\":{\"name\":\"required\"},\"message\":\"Input cannot be validated. Please see details for 1 invalid field below.\"},\"error\":\"ValidationError\",\"status_code\":422}"
    );
    details.insert("age".to_string(), "must be positive".to_string());
    details.insert("name".to_string(), "too long".to_string());
    let two = validation_error(&details);
    assert_eq!(
        two.to_json().to_text(),
        "{\"details\":{\"fields\":{\"age\":\"must be positive\",\"name\":\"too long\"},\"message\":\"Input cannot be validated. Please see details for 2 invalid fields below.\"},\"error\":\"ValidationError\",\"status_code\":422}"
    );
    let none = validation_error(&Assoc::new());
    assert!(none.to_json().to_text().contains("for 0 invalid fields below."));
}

#[test]
fn ticket_queries() {
    let q = TicketQuery { ticket: "t".to_string(), timeout: Some(Duration::from_secs(3)) };
    assert_eq!(q.get_timeout().map(|d| d.as_secs()), Some(3));
    assert!(!q.is_async());
    let unbounded = TicketQuery { ticket: "t".to_string(), timeout: None };
    assert!(unbounded.get_timeout().is_none());
}

#[test]
fn order_laws_on_examples() {
    let mut orders = Orders::new();
    orders.spawn_order("a".to_string());
    orders.spawn_order("b".to_string());
    orders.complete("a", true, 10);
    orders.complete("b", false, 10);
    assert!(orders.add_waiter("b"));
    assert_eq!(orders.purge_stale_orders(100, 5), 1);
    assert_eq!(orders.purge_stale_orders(100, 5), 0);
    assert!(orders.has_order("b"));
    assert!(!orders.has_order("a"));
    let before = orders.get_order("b").map(|o| o.result());
    assert!(orders.add_waiter("b"));
    orders.remove_waiter("b");
    assert_eq!(orders.get_order("b").map(|o| o.result()), before);
    orders.spawn_order("b".to_string());
    assert_eq!(orders.get_order("b").and_then(|o| o.result()), Some((10, false)));
    let found = vec![("b".to_string(), true)];
    assert!(orders.apply_found_results(&found, 50).is_err());
    assert_eq!(orders.get_order("b").and_then(|o| o.result()), Some((10, false)));
}

#[test]
fn clock_readings_in_nanoseconds() {
    assert_eq!(epoch_nanos(None), 0);
    assert_eq!(epoch_nanos(Some((2, 5))), 2_000_000_005);
    assert_eq!(epoch_nanos(Some((18_446_744_073, 709_551_615))), u64::MAX);
    assert_eq!(epoch_nanos(Some((18_446_744_073, 709_551_616))), u64::MAX);
    assert_eq!(epoch_nanos(Some((u64::MAX, 0))), u64::MAX);
    let m = MulticastMessage::new_ticket_complete("shop", "t");
    let t = m.timestamp.expect("stamped");
    assert!((0..1_000_000_000).contains(&t.nanos));
}
