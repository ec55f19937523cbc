//! Rustic Coffee Shop: the verified core of an HTTP host framework for
//! load-balanced workers.
//!
//! The network, queue and database plumbing lives outside this library; what
//! stands here is the logic that decides: error classification and rendering,
//! configuration validation, message models, result records and the small state
//! machines of tickets and orders.
pub mod assoc;
pub mod barista;
pub mod buffer;
pub mod cli;
pub mod dynamodb;
pub mod errors;
pub mod json;
pub mod machine;
pub mod message;
pub mod net;
pub mod order;
pub mod shop;
pub mod sqs;
pub mod text;
pub mod time;
