//! What each flow calls, submits and reads.
use vstd::prelude::*;

use crate::connector::authorize::{authorize_form, authorize_outcome};
use crate::connector::capture::capture_form;
use crate::connector::common::Atbbank;
use crate::connector::complete_authorize::{complete_authorize_form, complete_authorize_outcome};
use crate::connector::integration::ConnectorIntegration;
use crate::connector::refund::{refund_form, refund_sync_form};
use crate::connector::sync::sync_form;
use crate::connector::void::void_form;
use crate::domain::enums::CaptureMethod;
use crate::domain::router_data::{
    PaymentsAuthorizeRouterData, PaymentsCancelRouterData, PaymentsCaptureRouterData,
    PaymentsCompleteAuthorizeRouterData, PaymentsSyncRouterData, RefundExecuteRouterData,
    RefundSyncRouterData,
};
use crate::transformers::capture::{capture_outcome, AtbbankCaptureResponse};
use crate::transformers::payments_response::AtbbankPaymentsResponse;
use crate::transformers::refund::{
    refund_outcome, refund_sync_outcome, AtbbankRefundResponse,
};
use crate::transformers::reverse::reverse_outcome;
use crate::transformers::status::{status_outcome, AtbbankOrderStatusResponse};

verus! {

/// Authorize registers the order, under one path where the amount is captured by hand and under the
/// other in all other cases, and reads the answer as one to a payment that goes on at the router.
pub proof fn authorize_registers_the_order(
    before: PaymentsAuthorizeRouterData,
    answer: AtbbankPaymentsResponse,
    http_code: u16,
    after: PaymentsAuthorizeRouterData,
)
    ensures
        before.request.capture_method == Some(CaptureMethod::Manual) ==> Atbbank::path(before)
            == "rest/registerPreAuth.do"@,
        before.request.capture_method != Some(CaptureMethod::Manual) ==> Atbbank::path(before)
            == "rest/register.do"@,
        Atbbank::form(before) == authorize_form(before),
        Atbbank::reads(before, answer, http_code, after) ==> {
            &&& after.outcome() == authorize_outcome(answer, http_code, before.request)
            &&& after.amount_captured == before.amount_captured
            &&& after.connector_auth_type == before.connector_auth_type
            &&& after.connector_request_reference_id == before.connector_request_reference_id
            &&& after.request == before.request
        },
{
}

/// Complete authorize submits the card, or the 3DS transaction in its place.
pub proof fn complete_authorize_submits_the_card(
    before: PaymentsCompleteAuthorizeRouterData,
    answer: AtbbankPaymentsResponse,
    http_code: u16,
    after: PaymentsCompleteAuthorizeRouterData,
)
    ensures
        Atbbank::path(before) == "rest/paymentorder.do"@,
        Atbbank::form(before) == complete_authorize_form(before),
        Atbbank::reads(before, answer, http_code, after) ==> {
            &&& after.outcome() == complete_authorize_outcome(answer, http_code, before.request)
            &&& after.amount_captured == before.amount_captured
            &&& after.connector_auth_type == before.connector_auth_type
            &&& after.connector_request_reference_id == before.connector_request_reference_id
            &&& after.request == before.request
        },
{
}

/// Payment sync asks for the order's status.
pub proof fn payment_sync_asks_for_the_status(
    before: PaymentsSyncRouterData,
    answer: AtbbankOrderStatusResponse,
    http_code: u16,
    after: PaymentsSyncRouterData,
)
    ensures
        Atbbank::path(before) == "rest/getOrderStatusExtended.do"@,
        Atbbank::form(before) == sync_form(before),
        Atbbank::reads(before, answer, http_code, after) ==> {
            &&& after.outcome() == status_outcome(answer, http_code)
            &&& after.amount_captured == before.amount_captured
            &&& after.connector_auth_type == before.connector_auth_type
            &&& after.connector_request_reference_id == before.connector_request_reference_id
            &&& after.request == before.request
        },
{
}

/// Capture deposits the amount, and the amount captured so far is then unknown.
pub proof fn capture_deposits_the_amount(
    before: PaymentsCaptureRouterData,
    answer: AtbbankCaptureResponse,
    http_code: u16,
    after: PaymentsCaptureRouterData,
)
    ensures
        Atbbank::path(before) == "rest/deposit.do"@,
        Atbbank::form(before) == capture_form(before),
        Atbbank::reads(before, answer, http_code, after) ==> {
            &&& after.outcome() == capture_outcome(
                answer,
                before.request.connector_transaction_id@,
                http_code,
            )
            &&& after.amount_captured is None
            &&& after.connector_auth_type == before.connector_auth_type
            &&& after.connector_request_reference_id == before.connector_request_reference_id
            &&& after.request == before.request
        },
{
}

/// Void reverses the order.
pub proof fn void_reverses_the_order(
    before: PaymentsCancelRouterData,
    answer: AtbbankCaptureResponse,
    http_code: u16,
    after: PaymentsCancelRouterData,
)
    ensures
        Atbbank::path(before) == "rest/reverse.do"@,
        Atbbank::form(before) == void_form(before),
        Atbbank::reads(before, answer, http_code, after) ==> {
            &&& after.outcome() == reverse_outcome(
                answer.error_code,
                answer.error_message,
                http_code,
            )
            &&& after.amount_captured == before.amount_captured
            &&& after.connector_auth_type == before.connector_auth_type
            &&& after.connector_request_reference_id == before.connector_request_reference_id
            &&& after.request == before.request
        },
{
}

/// A refund pays an amount back and leaves the payment's own status alone.
pub proof fn refund_pays_back(
    before: RefundExecuteRouterData,
    answer: AtbbankRefundResponse,
    http_code: u16,
    after: RefundExecuteRouterData,
)
    ensures
        Atbbank::path(before) == "rest/refund.do"@,
        Atbbank::form(before) == refund_form(before),
        Atbbank::reads(before, answer, http_code, after) ==> {
            &&& after.refund() == refund_outcome(
                answer,
                before.request.connector_transaction_id@,
                http_code,
            )
            &&& after.status == before.status
            &&& after.amount_captured == before.amount_captured
            &&& after.connector_auth_type == before.connector_auth_type
            &&& after.connector_request_reference_id == before.connector_request_reference_id
            &&& after.request == before.request
        },
{
}

/// Refund sync asks for the order's status, holds the amount paid back against the requested one,
/// and leaves the payment's own status alone.
pub proof fn refund_sync_asks_for_the_status(
    before: RefundSyncRouterData,
    answer: AtbbankOrderStatusResponse,
    http_code: u16,
    after: RefundSyncRouterData,
)
    ensures
        Atbbank::path(before) == "rest/getOrderStatusExtended.do"@,
        Atbbank::form(before) == refund_sync_form(before),
        Atbbank::reads(before, answer, http_code, after) ==> {
            &&& after.refund() == refund_sync_outcome(
                answer,
                before.request.minor_refund_amount.0 as int,
            )
            &&& after.status == before.status
            &&& after.amount_captured == before.amount_captured
            &&& after.connector_auth_type == before.connector_auth_type
            &&& after.connector_request_reference_id == before.connector_request_reference_id
            &&& after.request == before.request
        },
{
}

} // verus!
