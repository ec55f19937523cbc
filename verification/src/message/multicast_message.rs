//! Enumerations nested in the announcement message.
use vstd::prelude::*;
use crate::text::str_eq;

verus! {

/// The kind of an announcement.
#[derive(Clone, Copy, Debug, PartialEq, Eq, Structural, PartialOrd, Ord, Hash)]
pub enum Kind {
    Ticket,
}

/// The status that an announcement reports.
#[derive(Clone, Copy, Debug, PartialEq, Eq, Structural, PartialOrd, Ord, Hash)]
pub enum Status {
    Rejected,
    Complete,
    Failure,
}

impl Kind {
    /// The number of the kind on the wire.
    pub open spec fn spec_value(self) -> i32 {
        match self {
            Kind::Ticket => 0,
        }
    }

    /// The kind with this number on the wire, if any.
    pub open spec fn spec_from_value(value: i32) -> Option<Kind> {
        if value == 0 { Some(Kind::Ticket) } else { None }
    }

    /// The number of the kind on the wire.
    pub fn as_i32(self) -> (r: i32)
        ensures
            r == self.spec_value(),
    {
        match self {
            Kind::Ticket => 0,
        }
    }

    /// Whether `value` is the number of a kind.
    pub fn is_valid(value: i32) -> (r: bool)
        ensures
            r == Self::spec_from_value(value) is Some,
    {
        value == 0
    }

    /// The kind with this number, if any.
    pub fn from_i32(value: i32) -> (r: Option<Kind>)
        ensures
            r == Self::spec_from_value(value),
    {
        if value == 0 { Some(Kind::Ticket) } else { None }
    }

    /// The kind with this number, or the number back as the unknown value.
    pub fn try_from(value: i32) -> (r: Result<Kind, i32>)
        ensures
            Self::spec_from_value(value) matches Some(k) ==> r == Ok::<Kind, i32>(k),
            Self::spec_from_value(value) is None ==> r == Err::<Kind, i32>(value),
    {
        match Self::from_i32(value) {
            Some(k) => Ok(k),
            None => Err(value),
        }
    }

    /// The default kind, `Ticket`.
    pub fn default() -> (r: Kind)
        ensures
            r == Kind::Ticket,
    {
        Kind::Ticket
    }

    /// The name of the kind in the message definition.
    pub open spec fn spec_str_name(self) -> &'static str {
        match self {
            Kind::Ticket => "TICKET",
        }
    }

    /// The name of the kind in the message definition.
    pub fn as_str_name(&self) -> (r: &'static str)
        ensures
            r == self.spec_str_name(),
    {
        match self {
            Kind::Ticket => "TICKET",
        }
    }

    /// The kind with this name in the message definition, if any.
    pub fn from_str_name(value: &str) -> (r: Option<Kind>)
        ensures
            r == (if value@ == "TICKET"@ { Some(Kind::Ticket) } else { None::<Kind> }),
    {
        if str_eq(value, "TICKET") { Some(Kind::Ticket) } else { None }
    }
}

impl Status {
    /// The number of the status on the wire.
    pub open spec fn spec_value(self) -> i32 {
        match self {
            Status::Rejected => 0,
            Status::Complete => 1,
            Status::Failure => 2,
        }
    }

    /// The status with this number on the wire, if any.
    pub open spec fn spec_from_value(value: i32) -> Option<Status> {
        if value == 0 {
            Some(Status::Rejected)
        } else if value == 1 {
            Some(Status::Complete)
        } else if value == 2 {
            Some(Status::Failure)
        } else {
            None
        }
    }

    /// The number of the status on the wire.
    pub fn as_i32(self) -> (r: i32)
        ensures
            r == self.spec_value(),
    {
        match self {
            Status::Rejected => 0,
            Status::Complete => 1,
            Status::Failure => 2,
        }
    }

    /// Whether `value` is the number of a status.
    pub fn is_valid(value: i32) -> (r: bool)
        ensures
            r == Self::spec_from_value(value) is Some,
    {
        value == 0 || value == 1 || value == 2
    }

    /// The status with this number, if any.
    pub fn from_i32(value: i32) -> (r: Option<Status>)
        ensures
            r == Self::spec_from_value(value),
    {
        if value == 0 {
            Some(Status::Rejected)
        } else if value == 1 {
            Some(Status::Complete)
        } else if value == 2 {
            Some(Status::Failure)
        } else {
            None
        }
    }

    /// The status with this number, or the number back as the unknown value.
    pub fn try_from(value: i32) -> (r: Result<Status, i32>)
        ensures
            Self::spec_from_value(value) matches Some(k) ==> r == Ok::<Status, i32>(k),
            Self::spec_from_value(value) is None ==> r == Err::<Status, i32>(value),
    {
        match Self::from_i32(value) {
            Some(k) => Ok(k),
            None => Err(value),
        }
    }

    /// The default status, `Rejected`.
    pub fn default() -> (r: Status)
        ensures
            r == Status::Rejected,
    {
        Status::Rejected
    }

    /// The name of the status in the message definition.
    pub open spec fn spec_str_name(self) -> &'static str {
        match self {
            Status::Rejected => "REJECTED",
            Status::Complete => "COMPLETE",
            Status::Failure => "FAILURE",
        }
    }

    /// The name of the status in the message definition.
    pub fn as_str_name(&self) -> (r: &'static str)
        ensures
            r == self.spec_str_name(),
    {
        match self {
            Status::Rejected => "REJECTED",
            Status::Complete => "COMPLETE",
            Status::Failure => "FAILURE",
        }
    }

    /// The status with this name in the message definition, if any.
    pub fn from_str_name(value: &str) -> (r: Option<Status>)
        ensures
            r == (if value@ == "REJECTED"@ {
                Some(Status::Rejected)
            } else if value@ == "COMPLETE"@ {
                Some(Status::Complete)
            } else if value@ == "FAILURE"@ {
                Some(Status::Failure)
            } else {
                None::<Status>
            }),
    {
        if str_eq(value, "REJECTED") {
            Some(Status::Rejected)
        } else if str_eq(value, "COMPLETE") {
            Some(Status::Complete)
        } else if str_eq(value, "FAILURE") {
            Some(Status::Failure)
        } else {
            None
        }
    }

    /// A status is finished when no further processing is expected: a
    /// completed or a rejected ticket. A failure asks for a retry.
    pub open spec fn spec_is_finished(self) -> bool {
        self is Complete || self is Rejected
    }

    /// Whether no further processing is expected.
    pub fn is_finished(&self) -> (r: bool)
        ensures
            r == self.spec_is_finished(),
    {
        match self {
            Status::Complete | Status::Rejected => true,
            _ => false,
        }
    }
}

/// Every kind reads back from its number, and every number that reads as a
/// kind is that kind's number.
pub proof fn law_kind_value_round_trip(k: Kind, v: i32)
    ensures
        Kind::spec_from_value(k.spec_value()) == Some(k),
        Kind::spec_from_value(v) matches Some(k2) ==> k2.spec_value() == v,
{
}

/// Every status reads back from its number, and every number that reads as a
/// status is that status's number.
pub proof fn law_status_value_round_trip(s: Status, v: i32)
    ensures
        Status::spec_from_value(s.spec_value()) == Some(s),
        Status::spec_from_value(v) matches Some(s2) ==> s2.spec_value() == v,
{
}

/// The numbers of the kinds and statuses on the wire, as the message
/// definition fixes them: a ticket is 0; rejected 0, complete 1 and failure
/// 2; their names are the upper-case names of the definition.
pub proof fn law_wire_numbers_and_names()
    ensures
        Kind::Ticket.spec_value() == 0,
        Status::Rejected.spec_value() == 0,
        Status::Complete.spec_value() == 1,
        Status::Failure.spec_value() == 2,
        Kind::Ticket.spec_str_name() == "TICKET",
        Status::Rejected.spec_str_name() == "REJECTED",
        Status::Complete.spec_str_name() == "COMPLETE",
        Status::Failure.spec_str_name() == "FAILURE",
{
}

/// A completed or a rejected ticket is finished; a failure asks for a retry.
pub proof fn law_finished_statuses(s: Status)
    ensures
        s.spec_is_finished() <==> s != Status::Failure,
{
}

} // verus!
