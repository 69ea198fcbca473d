//! Requests to the bank, its answers, and what they mean.
//!
//! Each conversion states in its own `ensures` what it returns, by the contents of the texts in
//! it. The specification that comes with `TryFrom` compares values as such, which says nothing of
//! texts that are newly made, so no conversion declares that it obeys that one.
pub mod auth;
pub mod capture;
pub mod currency;
pub mod error_response;
pub mod meta;
pub mod payment_order;
pub mod payments_response;
pub mod record;
pub mod refund;
pub mod register;
pub mod reverse;
pub mod status;

use vstd::prelude::*;

use crate::transformers::capture::AtbbankCaptureResponse;
use crate::transformers::payment_order::AtbbankPaymentOrderRequest;
use crate::transformers::refund::AtbbankRefundResponse;
use crate::transformers::register::AtbbankRegisterRequest;
use crate::transformers::reverse::AtbbankReverseRequest;
use crate::transformers::status::{AtbbankOrderStatusResponse, AtbbankStatusRequest};

verus! {

/// `register.do` request (authorize flow).
pub type AtbbankPaymentsRequest = AtbbankRegisterRequest;

/// `paymentorder.do` request (complete-authorize flow).
pub type AtbbankCompleteAuthorizeRequest = AtbbankPaymentOrderRequest;

/// `getOrderStatusExtended.do` request (payment sync flow).
pub type AtbbankSyncRequest = AtbbankStatusRequest;

/// `getOrderStatusExtended.do` answer (payment sync flow).
pub type AtbbankSyncResponse = AtbbankOrderStatusResponse;

/// Answer of `deposit.do` and of `reverse.do`, which have one shape.
pub type AtbbankActionResponse = AtbbankCaptureResponse;

/// `reverse.do` request (void flow).
pub type AtbbankVoidRequest = AtbbankReverseRequest;

/// `refund.do` answer.
pub type RefundResponse = AtbbankRefundResponse;

/// `getOrderStatusExtended.do` request (refund sync flow).
pub type AtbbankRefundSyncRequest = AtbbankStatusRequest;

} // verus!
