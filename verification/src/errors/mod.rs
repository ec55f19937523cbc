//! Errors of the shop: their classification, their rendering and their
//! exported form.
pub mod schema;
pub mod shop_error;
pub mod handling;
pub mod aws;
pub mod laws;

pub use schema::{CoffeeMachineError, ErrorSchema, StatusCode};
pub use shop_error::{CoffeeShopError, IoError};
