//! The connector: a request for each flow of a payment, and the reading of the answer.
pub mod authorize;
pub mod capture;
pub mod common;
pub mod complete_authorize;
pub mod integration;
pub mod refund;
pub mod request;
pub mod specifications;
pub mod sync;
pub mod unsupported;
pub mod void;
