//! The query of a request for a ticket's result.
use vstd::prelude::*;
use crate::time::Duration;

verus! {

/// The query by which a client asks for the result of a ticket: the ticket,
/// and how long to wait for its result, if a wait is to be bounded.
#[derive(Debug)]
pub struct TicketQuery {
    pub ticket: String,
    pub timeout: Option<Duration>,
}

impl TicketQuery {
    /// How long the waiter waits for the result; unbounded where none is given.
    pub fn get_timeout(&self) -> (r: Option<Duration>)
        ensures
            r == self.timeout,
    {
        self.timeout
    }

    /// Whether the query asks for an answer before the ticket is processed;
    /// a query for a ticket's result never does.
    pub fn is_async(&self) -> (r: bool)
        ensures
            !r,
    {
        false
    }
}

} // verus!
