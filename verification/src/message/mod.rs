//! Messages between shops: the announcement that a ticket is finished.
pub mod multicast_message;

pub use multicast_message::Kind as MulticastMessageKind;
pub use multicast_message::Status as MulticastMessageStatus;

mod announcement;
pub use announcement::{MulticastMessage, Timestamp};

mod query;
pub use query::TicketQuery;
