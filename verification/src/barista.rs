//! The decisions of a barista around one ticket: what it announces, what it
//! tells the queue, and what it reports, from the outcomes of processing the
//! ticket and of storing the result.
use vstd::prelude::*;
use crate::errors::shop_error::CoffeeShopError;
use crate::message::{MulticastMessage, MulticastMessageKind, MulticastMessageStatus};
use crate::time::Duration;

verus! {

/// The status of a processed ticket: complete where the machine gave an
/// output, rejected where it gave an error.
pub open spec fn spec_processed_status(success: bool) -> MulticastMessageStatus {
    if success {
        MulticastMessageStatus::Complete
    } else {
        MulticastMessageStatus::Rejected
    }
}

/// The status of a processed ticket (see [`spec_processed_status`]).
pub fn processed_status(success: bool) -> (r: MulticastMessageStatus)
    ensures
        r == spec_processed_status(success),
{
    if success {
        MulticastMessageStatus::Complete
    } else {
        MulticastMessageStatus::Rejected
    }
}

/// What a barista does once a ticket was processed and its result stored, or
/// not stored.
#[derive(Debug)]
pub struct TicketPlan {
    /// The status announced to the other shops.
    pub announce: MulticastMessageStatus,
    /// Whether the message is deleted from the queue; otherwise it is returned
    /// to the queue for another barista.
    pub delete: bool,
    /// What the barista reports of the ticket.
    pub result: Result<(), CoffeeShopError>,
}

/// Plans the end of a ticket. Where the result was stored, the status of the
/// processing is announced, the message deleted and success reported; where
/// storing failed, a failure is announced, the message returned to the queue
/// and the error of storing reported.
pub fn plan_ticket(processed: bool, stored: Result<(), CoffeeShopError>) -> (r: TicketPlan)
    ensures
        stored is Ok ==> r.announce == spec_processed_status(processed) && r.delete && r.result is Ok,
        stored matches Err(e) ==> r.announce == MulticastMessageStatus::Failure && !r.delete
            && r.result == Err::<(), CoffeeShopError>(e),
{
    match stored {
        Ok(()) => TicketPlan { announce: processed_status(processed), delete: true, result: Ok(()) },
        Err(e) => TicketPlan { announce: MulticastMessageStatus::Failure, delete: false, result: Err(e) },
    }
}

/// The announcement of a planned ticket, sent in the name of the shop.
pub fn announcement(shop_name: &str, ticket: &str, plan: &TicketPlan) -> (r: MulticastMessage)
    ensures
        r.task@ == shop_name@,
        r.ticket@ == ticket@,
        r.spec_kind() == MulticastMessageKind::Ticket,
        r.spec_status() == plan.announce,
        r.timestamp matches Some(t) && 0 <= t.nanos < 1_000_000_000,
{
    MulticastMessage::new(shop_name, ticket, MulticastMessageKind::Ticket, plan.announce)
}

/// What the barista reports once the message was deleted or returned: an
/// error of that reply first, then the planned result.
pub fn finish_ticket(result: Result<(), CoffeeShopError>, reply: Result<(), CoffeeShopError>) -> (r: Result<
    (),
    CoffeeShopError,
>)
    ensures
        reply matches Err(e) ==> r == Err::<(), CoffeeShopError>(e),
        reply is Ok ==> r == result,
{
    match reply {
        Err(e) => Err(e),
        Ok(()) => result,
    }
}

/// How a round of a serving barista went.
#[derive(Debug)]
pub enum Round {
    /// A ticket was handled.
    Served,
    /// The queue stayed empty for the wait given.
    Idle(Duration),
    /// Handling a ticket failed.
    Failed(CoffeeShopError),
}

/// Classifies a round of a serving barista by what handling the next ticket
/// gave; the barista goes on serving after any of them.
pub fn classify_round(outcome: Result<(), CoffeeShopError>) -> (r: Round)
    ensures
        outcome is Ok ==> r is Served,
        outcome matches Err(CoffeeShopError::AWSSQSQueueEmpty(d)) ==> r matches Round::Idle(w) && w@ == d@,
        outcome matches Err(e) ==> (!(e is AWSSQSQueueEmpty) ==> r == Round::Failed(e)),
{
    match outcome {
        Ok(()) => Round::Served,
        Err(CoffeeShopError::AWSSQSQueueEmpty(d)) => Round::Idle(d),
        Err(e) => Round::Failed(e),
    }
}

/// The wait of an idle barista for the next ticket before it reports that it
/// is idle: twenty seconds.
pub fn report_idle_after() -> (r: Duration)
    ensures
        r@ == (20u64, 0u32),
{
    Duration::from_secs(20)
}

/// A barista's announcement of a ticket settles the order of a waiter
/// exactly when the result was stored, and successfully exactly when the
/// processing succeeded; the announcement of a failed store asks nothing, so
/// that the waiter finds the result itself later.
pub proof fn law_announcement_settles_orders(processed: bool, stored: bool, m: MulticastMessage)
    requires
        m.spec_kind() == MulticastMessageKind::Ticket,
        m.spec_status() == (if stored {
            spec_processed_status(processed)
        } else {
            MulticastMessageStatus::Failure
        }),
    ensures
        m.spec_completion() == (if stored {
            Some(processed)
        } else {
            None::<bool>
        }),
{
}

/// A processed ticket is announced as complete where the machine gave an
/// output and as rejected where it gave an error; never as a failure, which
/// is kept for results that could not be stored.
pub proof fn law_processed_status(success: bool)
    ensures
        success ==> spec_processed_status(success) == MulticastMessageStatus::Complete,
        !success ==> spec_processed_status(success) == MulticastMessageStatus::Rejected,
        spec_processed_status(success) != MulticastMessageStatus::Failure,
{
}

} // verus!
