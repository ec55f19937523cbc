//! The shop's own decisions: the names of its table and queue, and the order
//! that a retrieval awaits.
use vstd::prelude::*;
use crate::errors::shop_error::CoffeeShopError;
use crate::order::{Order, Orders};
use crate::text::push_str;

verus! {

/// The name of a shop's table or queue when the configuration gives none:
/// `task-queue-` and the shop's name.
pub open spec fn default_resource_name(name: Seq<char>) -> Seq<char> {
    "task-queue-"@ + name
}

/// The default name of a shop's table or queue (see
/// [`default_resource_name`]).
pub fn resource_name(name: &str) -> (r: String)
    ensures
        r@ == default_resource_name(name@),
{
    let mut r = String::from_str("task-queue-");
    push_str(&mut r, name);
    r
}

/// The table and the queue of the shop named `name`: those that the
/// configuration gives, else the default names.
pub fn shop_resources(name: &str, dynamodb_table: Option<String>, sqs_queue: Option<String>) -> (r: (String, String))
    ensures
        r.0@ == (match dynamodb_table {
            Some(t) => t@,
            None => default_resource_name(name@),
        }),
        r.1@ == (match sqs_queue {
            Some(q) => q@,
            None => default_resource_name(name@),
        }),
{
    let table = match dynamodb_table {
        Some(t) => t,
        None => resource_name(name),
    };
    let queue = match sqs_queue {
        Some(q) => q,
        None => resource_name(name),
    };
    (table, queue)
}

/// The order that a retrieval of `ticket` awaits; a ticket that the shop has
/// no order for is not found.
pub fn order_to_retrieve<'a>(orders: &'a Orders, ticket: &str) -> (r: Result<&'a Order, CoffeeShopError>)
    ensures
        orders@.contains_key(ticket@) ==> (r matches Ok(o) && o@ == orders@[ticket@]),
        !orders@.contains_key(ticket@) ==> (r matches Err(CoffeeShopError::TicketNotFound(t)) && t@ == ticket@),
{
    match orders.get_order(ticket) {
        Some(o) => Ok(o),
        None => Err(CoffeeShopError::TicketNotFound(String::from_str(ticket))),
    }
}

} // verus!
