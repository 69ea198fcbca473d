//! Markers for the flows of a payment.
use vstd::prelude::*;

verus! {

/// Register an order.
pub struct Authorize;

/// Submit the card, or continue after the cardholder was authenticated.
pub struct CompleteAuthorize;

/// Ask where a payment stands.
pub struct PSync;

/// Capture an authorized amount.
pub struct Capture;

/// Give an authorized amount back before it is captured.
pub struct Void;

/// Pay a captured amount back.
pub struct Execute;

/// Ask where a refund stands.
pub struct RSync;

/// Store a payment method for later payments.
pub struct SetupMandate;

} // verus!
