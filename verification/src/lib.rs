//! A connector to the SmartVista payment gateway of ATB Bank: requests, answers, and what they
//! mean for a payment.
pub mod connector;
pub mod decimal;
pub mod domain;
pub mod errors;
pub mod laws;
pub mod secret;
pub mod transformers;
pub mod views;
