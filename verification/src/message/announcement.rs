//! The announcement message.
use vstd::prelude::*;
use crate::message::multicast_message::{Kind, Status};

verus! {

/// A point in time: seconds since the Unix epoch and the nanoseconds beyond
/// them.
#[derive(Clone, Copy, Debug)]
pub struct Timestamp {
    pub seconds: i64,
    pub nanos: i32,
}

/// Reads the system clock with `prost_types::Timestamp::from(SystemTime::now())`.
/// The contract claims only that the nanoseconds lie between zero and a
/// second's worth, as that conversion gives them on either side of the epoch;
/// nothing of the time itself.
#[verifier::external_body]
fn now_timestamp() -> (r: Timestamp)
    ensures
        0 <= r.nanos < 1_000_000_000,
{
    let t = prost_types::Timestamp::from(std::time::SystemTime::now());
    Timestamp { seconds: t.seconds, nanos: t.nanos }
}

/// The announcement that a shop sends to all shops of its group when a ticket
/// is finished. The kind and status are kept as their numbers on the wire.
#[derive(Debug)]
pub struct MulticastMessage {
    pub task: String,
    pub ticket: String,
    pub kind: i32,
    pub timestamp: Option<Timestamp>,
    pub status: i32,
}

impl MulticastMessage {
    /// The kind of the message; an unknown number reads as the default kind.
    pub open spec fn spec_kind(&self) -> Kind {
        match Kind::spec_from_value(self.kind) {
            Some(k) => k,
            None => Kind::Ticket,
        }
    }

    /// The status of the message; an unknown number reads as the default
    /// status, `Rejected`.
    pub open spec fn spec_status(&self) -> Status {
        match Status::spec_from_value(self.status) {
            Some(s) => s,
            None => Status::Rejected,
        }
    }

    /// The kind of the message, or the default kind for an unknown number.
    pub fn kind(&self) -> (r: Kind)
        ensures
            r == self.spec_kind(),
    {
        match Kind::try_from(self.kind) {
            Ok(k) => k,
            Err(_) => Kind::default(),
        }
    }

    /// Sets the kind of the message.
    pub fn set_kind(&mut self, value: Kind)
        ensures
            final(self).kind == value.spec_value(),
            final(self).task == old(self).task,
            final(self).ticket == old(self).ticket,
            final(self).timestamp == old(self).timestamp,
            final(self).status == old(self).status,
    {
        self.kind = value.as_i32();
    }

    /// The status of the message, or `Rejected` for an unknown number.
    pub fn status(&self) -> (r: Status)
        ensures
            r == self.spec_status(),
    {
        match Status::try_from(self.status) {
            Ok(s) => s,
            Err(_) => Status::default(),
        }
    }

    /// Sets the status of the message.
    pub fn set_status(&mut self, value: Status)
        ensures
            final(self).status == value.spec_value(),
            final(self).task == old(self).task,
            final(self).ticket == old(self).ticket,
            final(self).timestamp == old(self).timestamp,
            final(self).kind == old(self).kind,
    {
        self.status = value.as_i32();
    }

    /// A message about `ticket` of the task `task`, stamped with the current
    /// time.
    pub fn new(task: &str, ticket: &str, kind: Kind, status: Status) -> (r: MulticastMessage)
        ensures
            r.task@ == task@,
            r.ticket@ == ticket@,
            r.kind == kind.spec_value(),
            r.status == status.spec_value(),
            r.timestamp matches Some(t) && 0 <= t.nanos < 1_000_000_000,
    {
        MulticastMessage {
            task: String::from_str(task),
            ticket: String::from_str(ticket),
            kind: kind.as_i32(),
            timestamp: Some(now_timestamp()),
            status: status.as_i32(),
        }
    }

    /// A message that `ticket` is complete.
    pub fn new_ticket_complete(task: &str, ticket: &str) -> (r: MulticastMessage)
        ensures
            r.task@ == task@,
            r.ticket@ == ticket@,
            r.spec_kind() == Kind::Ticket,
            r.spec_status() == Status::Complete,
            r.timestamp matches Some(t) && 0 <= t.nanos < 1_000_000_000,
    {
        Self::new(task, ticket, Kind::Ticket, Status::Complete)
    }

    /// A message that `ticket` was rejected.
    pub fn new_ticket_rejected(task: &str, ticket: &str) -> (r: MulticastMessage)
        ensures
            r.task@ == task@,
            r.ticket@ == ticket@,
            r.spec_kind() == Kind::Ticket,
            r.spec_status() == Status::Rejected,
            r.timestamp matches Some(t) && 0 <= t.nanos < 1_000_000_000,
    {
        Self::new(task, ticket, Kind::Ticket, Status::Rejected)
    }

    /// What a received announcement asks of the orders: a finished ticket
    /// completes the order of its ticket, successfully when it is complete;
    /// any other announcement asks nothing.
    pub open spec fn spec_completion(&self) -> Option<bool> {
        if self.spec_kind() == Kind::Ticket && self.spec_status().spec_is_finished() {
            Some(self.spec_status() == Status::Complete)
        } else {
            None
        }
    }

    /// What a received announcement asks of the orders (see
    /// [`Self::spec_completion`]).
    pub fn completion(&self) -> (r: Option<bool>)
        ensures
            r == self.spec_completion(),
    {
        let kind = self.kind();
        let status = self.status();
        if kind == Kind::Ticket && status.is_finished() {
            Some(status == Status::Complete)
        } else {
            None
        }
    }
}

/// What an announcement asks of the orders: a completed ticket settles its
/// order as a success, a rejected ticket as a failure, and a failed ticket,
/// which is to be retried, settles nothing.
pub proof fn law_completion_by_status(m: MulticastMessage)
    requires
        m.spec_kind() == Kind::Ticket,
    ensures
        m.spec_status() == Status::Complete ==> m.spec_completion() == Some(true),
        m.spec_status() == Status::Rejected ==> m.spec_completion() == Some(false),
        m.spec_status() == Status::Failure ==> m.spec_completion() is None,
{
}

} // verus!
