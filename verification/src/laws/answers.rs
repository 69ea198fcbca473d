//! What the answers to a registration and to a submitted card mean, by what stands in them.
use vstd::prelude::*;

use crate::connector::authorize::{authorize_outcome, continued_at_router, outcome_at_router};
use crate::connector::common::error_outcome;
use crate::connector::complete_authorize::{complete_authorize_outcome, led_to_second_stage};
use crate::decimal::decimal;
use crate::domain::enums::AttemptStatus;
use crate::domain::http::{Method, Response};
use crate::domain::payment_method::PaymentMethodData;
use crate::domain::request_types::{CompleteAuthorizeData, PaymentsAuthorizeData};
use crate::domain::response_types::{ResponseIdView, TransactionView};
use crate::errors::ConnectorErrorView;
use crate::transformers::capture::{capture_outcome, AtbbankCaptureResponse};
use crate::transformers::error_response::AtbbankErrorResponse;
use crate::transformers::meta::ConnectorMetadataView;
use crate::transformers::payments_response::{
    payment_order_outcome, payments_outcome, register_outcome, AtbbankPaymentOrderResponse,
    AtbbankPaymentsResponse, AtbbankRegisterResponse,
};
use crate::transformers::refund::{refund_outcome, AtbbankRefundResponse};
use crate::transformers::reverse::reverse_outcome;

verus! {

/// A submitted card whose answer has an error code other than zero is refused, whatever else the
/// answer holds: the payment fails, and the refusal has the code in decimal, and the bank's text
/// or else a text with the code, as its message and reason.
pub proof fn submission_with_an_error_code_fails(answer: AtbbankPaymentOrderResponse, http_code: u16)
    requires
        answer.error_code is Some,
        answer.error_code != Some(0i32),
    ensures
        ({
            let outcome = payment_order_outcome(answer, http_code);
            let code = decimal(answer.error_code->0 as int);
            &&& outcome.status == AttemptStatus::Failure
            &&& outcome.response matches Err(error) && {
                &&& error.code == code
                &&& error.message == match answer.info {
                    Some(info) => info@,
                    None => "ATB paymentorder error: "@ + code,
                }
                &&& error.reason == Some(error.message)
                &&& error.status_code == http_code
                &&& error.attempt_status == Some(AttemptStatus::Failure)
                &&& error.connector_transaction_id is None
                &&& error.connector_response_reference_id is None
                &&& error.network_advice_code is None
                &&& error.network_decline_code is None
                &&& error.network_error_message is None
                &&& error.connector_metadata is None
            }
        }),
{
}

/// A submitted card whose answer has no error, and an ACS URL and a CReq that are not empty, is to
/// be challenged, whatever success, redirect, info and data say: the payment waits for the
/// cardholder, who posts the CReq, and nothing else, to that URL.
pub proof fn submission_with_a_challenge_sends_the_cardholder_there(
    answer: AtbbankPaymentOrderResponse,
    http_code: u16,
)
    requires
        answer.error_code is None || answer.error_code == Some(0i32),
        answer.acs_url is Some,
        answer.acs_url->0@.len() > 0,
        answer.creq is Some,
        answer.creq->0@.len() > 0,
    ensures
        ({
            let outcome = payment_order_outcome(answer, http_code);
            &&& outcome.status == AttemptStatus::AuthenticationPending
            &&& outcome.response matches Ok(transaction)
                && transaction.redirection_data matches Some(form) && {
                &&& form.endpoint == answer.acs_url->0@
                &&& form.method == Method::Post
                &&& form.form_fields == seq![("creq"@, answer.creq->0@)]
            }
        }),
{
}

/// Without an error and without a whole challenge, a submitted card is paid exactly where the
/// answer reports a success, whatever redirect it has; then the cardholder is sent nowhere.
pub proof fn submission_with_a_success_is_charged(
    answer: AtbbankPaymentOrderResponse,
    http_code: u16,
)
    requires
        answer.error_code is None || answer.error_code == Some(0i32),
        answer.acs_url is None || answer.acs_url->0@.len() == 0 || answer.creq is None
            || answer.creq->0@.len() == 0,
    ensures
        ({
            let outcome = payment_order_outcome(answer, http_code);
            &&& outcome.response is Ok
            &&& outcome.status == AttemptStatus::Charged <==> answer.success == Some(true)
            &&& answer.success == Some(true) ==> outcome.response->Ok_0.redirection_data is None
        }),
{
}

/// Without an error, a whole challenge and a reported success, a redirect is followed by a plain
/// visit while the payment waits for the cardholder; without a redirect the payment is pending and
/// the cardholder is sent nowhere.
pub proof fn submission_without_a_result_follows_the_redirect(
    answer: AtbbankPaymentOrderResponse,
    http_code: u16,
)
    requires
        answer.error_code is None || answer.error_code == Some(0i32),
        answer.acs_url is None || answer.acs_url->0@.len() == 0 || answer.creq is None
            || answer.creq->0@.len() == 0,
        answer.success != Some(true),
    ensures
        ({
            let outcome = payment_order_outcome(answer, http_code);
            &&& outcome.response matches Ok(transaction) && match answer.redirect {
                Some(url) => {
                    &&& outcome.status == AttemptStatus::AuthenticationPending
                    &&& transaction.redirection_data matches Some(form) && form.endpoint == url@
                        && form.method == Method::Get && form.form_fields.len() == 0
                },
                None => {
                    &&& outcome.status == AttemptStatus::Pending
                    &&& transaction.redirection_data is None
                },
            }
        }),
{
}

/// A submitted card is paid only where the answer has no error and reports a success.
pub proof fn submission_is_charged_only_on_success(
    answer: AtbbankPaymentOrderResponse,
    http_code: u16,
)
    requires
        payment_order_outcome(answer, http_code).status == AttemptStatus::Charged,
    ensures
        answer.success == Some(true),
        answer.error_code is None || answer.error_code == Some(0i32),
{
}

/// An answer to a submitted card that is taken names no identifier and stores nothing: all that it
/// may give besides the status is where the cardholder goes.
pub proof fn taken_submissions_give_a_redirect_at_most(
    answer: AtbbankPaymentOrderResponse,
    http_code: u16,
)
    ensures
        payment_order_outcome(answer, http_code).response matches Ok(transaction) ==> {
            &&& transaction.resource_id == ResponseIdView::NoResponseId
            &&& transaction.mandate_reference is None
            &&& transaction.connector_metadata is None
            &&& transaction.network_txn_id is None
            &&& transaction.connector_response_reference_id is None
            &&& transaction.incremental_authorization_allowed is None
            &&& transaction.authentication_data is None
            &&& transaction.charges is None
        },
{
}

/// The additional data of an answer to a submitted card changes nothing.
pub proof fn submission_data_changes_nothing(
    a: AtbbankPaymentOrderResponse,
    b: AtbbankPaymentOrderResponse,
    http_code: u16,
)
    requires
        a == (AtbbankPaymentOrderResponse { data: a.data, ..b }),
    ensures
        payment_order_outcome(a, http_code) == payment_order_outcome(b, http_code),
{
}

/// A registration whose answer has an error code other than zero is refused, whatever else the
/// answer holds.
pub proof fn registration_with_an_error_code_fails(answer: AtbbankRegisterResponse, http_code: u16)
    requires
        answer.error_code is Some,
        answer.error_code != Some(0i32),
    ensures
        ({
            let outcome = register_outcome(answer, http_code);
            let code = decimal(answer.error_code->0 as int);
            &&& outcome.status == AttemptStatus::Failure
            &&& outcome.response matches Err(error) && {
                &&& error.code == code
                &&& error.message == match answer.error_message {
                    Some(message) => message@,
                    None => "ATB error code: "@ + code,
                }
                &&& error.reason == Some(error.message)
                &&& error.status_code == http_code
                &&& error.attempt_status == Some(AttemptStatus::Failure)
                &&& error.connector_transaction_id is None
                &&& error.connector_response_reference_id is None
                &&& error.network_advice_code is None
                &&& error.network_decline_code is None
                &&& error.network_error_message is None
                &&& error.connector_metadata is None
            }
        }),
{
}

/// A registration without an error waits for the cardholder: the bank's identifier of the order,
/// or an empty text where it gave none, becomes the payment's and is stored, with nothing else. The
/// cardholder visits the bank's page where the answer names one, and no page otherwise.
pub proof fn registration_without_an_error_waits(answer: AtbbankRegisterResponse, http_code: u16)
    requires
        answer.error_code is None || answer.error_code == Some(0i32),
    ensures
        ({
            let outcome = register_outcome(answer, http_code);
            let id = match answer.order_id {
                Some(id) => id@,
                None => Seq::<char>::empty(),
            };
            &&& outcome.status == AttemptStatus::AuthenticationPending
            &&& outcome.response matches Ok(transaction) && {
                &&& transaction.resource_id == ResponseIdView::ConnectorTransactionId(id)
                &&& transaction.connector_metadata matches Some(ConnectorMetadataView::Order(meta))
                    && {
                    &&& meta.order_id == id
                    &&& meta.card_number is None
                    &&& meta.card_cvc is None
                    &&& meta.card_exp_month is None
                    &&& meta.card_exp_year is None
                    &&& meta.card_holder is None
                    &&& meta.three_ds_server_trans_id is None
                }
                &&& answer.form_url is Some && answer.form_url->0@.len() > 0 ==> (
                transaction.redirection_data matches Some(form) && form.endpoint
                    == answer.form_url->0@ && form.method == Method::Get && form.form_fields.len()
                    == 0)
                &&& answer.form_url is None || answer.form_url->0@.len() == 0
                    ==> transaction.redirection_data is None
                &&& transaction.mandate_reference is None
                &&& transaction.network_txn_id is None
                &&& transaction.connector_response_reference_id is None
                &&& transaction.incremental_authorization_allowed is None
                &&& transaction.authentication_data is None
                &&& transaction.charges is None
            }
        }),
{
}

/// Both flows read an answer as its own kind is read: the answer to a registration as one, the
/// answer to a submitted card as one, and in the flow that submits the card nothing is added.
pub proof fn answers_are_read_as_their_kind(
    register: AtbbankRegisterResponse,
    order: AtbbankPaymentOrderResponse,
    http_code: u16,
    authorize: PaymentsAuthorizeData,
    complete: CompleteAuthorizeData,
)
    ensures
        payments_outcome(AtbbankPaymentsResponse::Register(register), http_code)
            == register_outcome(register, http_code),
        payments_outcome(AtbbankPaymentsResponse::PaymentOrder(order), http_code)
            == payment_order_outcome(order, http_code),
        authorize_outcome(AtbbankPaymentsResponse::Register(register), http_code, authorize)
            == outcome_at_router(register_outcome(register, http_code), authorize),
        authorize_outcome(AtbbankPaymentsResponse::PaymentOrder(order), http_code, authorize)
            == outcome_at_router(payment_order_outcome(order, http_code), authorize),
        complete_authorize_outcome(
            AtbbankPaymentsResponse::Register(register),
            http_code,
            complete,
        ) == register_outcome(register, http_code),
        complete_authorize_outcome(
            AtbbankPaymentsResponse::PaymentOrder(order),
            http_code,
            complete,
        ) == payment_order_outcome(order, http_code),
{
}

/// An authorized payment keeps the status of its answer and a refusal in full.
pub proof fn authorize_keeps_status_and_refusal(
    answer: AtbbankPaymentsResponse,
    http_code: u16,
    request: PaymentsAuthorizeData,
)
    ensures
        ({
            let read = payments_outcome(answer, http_code);
            let outcome = authorize_outcome(answer, http_code, request);
            &&& outcome.status == read.status
            &&& read.response is Err ==> outcome.response == read.response
            &&& read.response matches Ok(transaction) ==> (outcome.response matches Ok(changed)
                && changed == continued_at_router(transaction, request))
        }),
{
}

/// Where an authorized payment can be continued, a cardholder who is to be sent anywhere visits
/// the place where it is continued; one who is to be sent nowhere is left where they are. Where it
/// cannot be continued, the redirect stays as it is.
pub proof fn authorize_replaces_redirects_alone(
    transaction: TransactionView,
    request: PaymentsAuthorizeData,
)
    ensures
        ({
            let changed = continued_at_router(transaction, request);
            &&& changed.redirection_data is Some <==> transaction.redirection_data is Some
            &&& transaction.redirection_data is Some && request.complete_authorize_url is Some ==> {
                &&& changed.redirection_data->0.endpoint == request.complete_authorize_url->0@
                &&& changed.redirection_data->0.method == Method::Get
                &&& changed.redirection_data->0.form_fields.len() == 0
            }
            &&& request.complete_authorize_url is None ==> changed.redirection_data
                == transaction.redirection_data
        }),
{
}

/// The record of an order that is authorized with a card takes that card, whatever it held, and
/// keeps the rest. Any other record, and the record of a payment without a card, stays as it is.
pub proof fn authorize_stores_the_card(
    transaction: TransactionView,
    request: PaymentsAuthorizeData,
)
    ensures
        ({
            let changed = continued_at_router(transaction, request);
            &&& transaction.connector_metadata matches Some(ConnectorMetadataView::Order(before))
                ==> (request.payment_method_data matches PaymentMethodData::Card(card) ==> (
            changed.connector_metadata matches Some(ConnectorMetadataView::Order(after)) && {
                &&& after.order_id == before.order_id
                &&& after.card_number == Some(card.card_number@)
                &&& after.card_cvc == Some(card.card_cvc@)
                &&& after.card_exp_month == Some(card.card_exp_month@)
                &&& after.card_exp_year == Some(card.card_exp_year@)
                &&& after.card_holder == match card.card_holder_name {
                    Some(name) => Some(name@),
                    None => None,
                }
                &&& after.three_ds_server_trans_id == before.three_ds_server_trans_id
            }))
            &&& !(request.payment_method_data is Card) ==> changed.connector_metadata
                == transaction.connector_metadata
            &&& !(transaction.connector_metadata matches Some(ConnectorMetadataView::Order(_)))
                ==> changed.connector_metadata == transaction.connector_metadata
        }),
{
}

/// Continuing at the router changes nothing of a payment but the redirect and the record.
pub proof fn authorize_leaves_the_rest(transaction: TransactionView, request: PaymentsAuthorizeData)
    ensures
        ({
            let changed = continued_at_router(transaction, request);
            &&& changed.resource_id == transaction.resource_id
            &&& changed.mandate_reference == transaction.mandate_reference
            &&& changed.network_txn_id == transaction.network_txn_id
            &&& changed.connector_response_reference_id
                == transaction.connector_response_reference_id
            &&& changed.incremental_authorization_allowed
                == transaction.incremental_authorization_allowed
            &&& changed.authentication_data == transaction.authentication_data
            &&& changed.charges == transaction.charges
        }),
{
}

/// A response that sends the cardholder nowhere and has an order's record with a 3DS transaction is
/// the first of two stages: the cardholder visits the place where the payment is continued, if
/// there is one, and the stored order's record takes the 3DS transaction and loses its card.
/// Without a stored record that can be read, the response's own record stays.
pub proof fn first_stage_is_followed_by_the_second(
    transaction: TransactionView,
    request: CompleteAuthorizeData,
)
    requires
        transaction.redirection_data is None,
        transaction.connector_metadata matches Some(ConnectorMetadataView::Order(meta))
            && meta.three_ds_server_trans_id is Some,
    ensures
        ({
            let changed = led_to_second_stage(transaction, request);
            let given = transaction.connector_metadata->0->Order_0.three_ds_server_trans_id;
            &&& request.complete_authorize_url matches Some(url) ==> (
            changed.redirection_data matches Some(form) && form.endpoint == url@ && form.method
                == Method::Get && form.form_fields.len() == 0)
            &&& request.complete_authorize_url is None ==> changed.redirection_data is None
            &&& request.connector_meta matches Some(Ok(stored)) ==> (
            changed.connector_metadata matches Some(ConnectorMetadataView::Order(after)) && {
                &&& after.order_id == stored.order_id@
                &&& after.card_number is None
                &&& after.card_cvc is None
                &&& after.card_exp_month is None
                &&& after.card_exp_year is None
                &&& after.card_holder is None
                &&& after.three_ds_server_trans_id == given
            })
            &&& !(request.connector_meta matches Some(Ok(_))) ==> changed.connector_metadata
                == transaction.connector_metadata
            &&& changed.resource_id == transaction.resource_id
            &&& changed.mandate_reference == transaction.mandate_reference
            &&& changed.network_txn_id == transaction.network_txn_id
            &&& changed.connector_response_reference_id
                == transaction.connector_response_reference_id
            &&& changed.incremental_authorization_allowed
                == transaction.incremental_authorization_allowed
            &&& changed.authentication_data == transaction.authentication_data
            &&& changed.charges == transaction.charges
        }),
{
}

/// A response that sends the cardholder somewhere, or has no order's record with a 3DS transaction,
/// is left as it is.
pub proof fn other_responses_stay(transaction: TransactionView, request: CompleteAuthorizeData)
    requires
        transaction.redirection_data is Some || !(
        transaction.connector_metadata matches Some(ConnectorMetadataView::Order(meta))
            && meta.three_ds_server_trans_id is Some),
    ensures
        led_to_second_stage(transaction, request) == transaction,
{
}

/// An explicit error code of zero and an absent one mean the same, in every flow whose answers have
/// a number for it.
pub proof fn error_code_zero_is_no_error_code(
    register: AtbbankRegisterResponse,
    order: AtbbankPaymentOrderResponse,
    action: AtbbankCaptureResponse,
    refund: AtbbankRefundResponse,
    id: Seq<char>,
    http_code: u16,
)
    ensures
        register_outcome(
            AtbbankRegisterResponse { error_code: Some(0), ..register },
            http_code,
        ) == register_outcome(AtbbankRegisterResponse { error_code: None, ..register }, http_code),
        payment_order_outcome(
            AtbbankPaymentOrderResponse { error_code: Some(0), ..order },
            http_code,
        ) == payment_order_outcome(
            AtbbankPaymentOrderResponse { error_code: None, ..order },
            http_code,
        ),
        capture_outcome(
            AtbbankCaptureResponse { error_code: Some(0), ..action },
            id,
            http_code,
        ) == capture_outcome(AtbbankCaptureResponse { error_code: None, ..action }, id, http_code),
        reverse_outcome(Some(0), action.error_message, http_code) == reverse_outcome(
            None,
            action.error_message,
            http_code,
        ),
        refund_outcome(
            AtbbankRefundResponse { error_code: Some(0), ..refund },
            id,
            http_code,
        ) == refund_outcome(AtbbankRefundResponse { error_code: None, ..refund }, id, http_code),
{
}

/// A capture that the bank took is charged under the payment's identifier, and nothing else is
/// given; one that it refused fails, with the code and the bank's text.
pub proof fn captures_are_charged_or_fail(
    answer: AtbbankCaptureResponse,
    id: Seq<char>,
    http_code: u16,
)
    ensures
        ({
            let outcome = capture_outcome(answer, id, http_code);
            if answer.error_code is None || answer.error_code == Some(0i32) {
                &&& outcome.status == AttemptStatus::Charged
                &&& outcome.response matches Ok(transaction) && {
                    &&& transaction.resource_id == ResponseIdView::ConnectorTransactionId(id)
                    &&& transaction.redirection_data is None
                    &&& transaction.mandate_reference is None
                    &&& transaction.connector_metadata is None
                    &&& transaction.network_txn_id is None
                    &&& transaction.connector_response_reference_id is None
                    &&& transaction.incremental_authorization_allowed is None
                    &&& transaction.authentication_data is None
                    &&& transaction.charges is None
                }
            } else {
                &&& outcome.status == AttemptStatus::Failure
                &&& outcome.response matches Err(error) && {
                    &&& error.code == decimal(answer.error_code->0 as int)
                    &&& error.message == match answer.error_message {
                        Some(message) => message@,
                        None => "ATB capture error: "@ + decimal(answer.error_code->0 as int),
                    }
                    &&& error.reason == Some(error.message)
                    &&& error.status_code == http_code
                    &&& error.attempt_status == Some(AttemptStatus::CaptureFailed)
                    &&& error.connector_transaction_id is None
                    &&& error.connector_response_reference_id is None
                    &&& error.network_advice_code is None
                    &&& error.network_decline_code is None
                    &&& error.network_error_message is None
                    &&& error.connector_metadata is None
                }
            }
        }),
{
}

/// A reversal that the bank took voids the payment, and nothing else is given; one that it refused
/// leaves a failed void, with the code and the bank's text.
pub proof fn reversals_void_or_fail(
    error_code: Option<i32>,
    error_message: Option<String>,
    http_code: u16,
)
    ensures
        ({
            let outcome = reverse_outcome(error_code, error_message, http_code);
            if error_code is None || error_code == Some(0i32) {
                &&& outcome.status == AttemptStatus::Voided
                &&& outcome.response matches Ok(transaction) && {
                    &&& transaction.resource_id == ResponseIdView::NoResponseId
                    &&& transaction.redirection_data is None
                    &&& transaction.mandate_reference is None
                    &&& transaction.connector_metadata is None
                    &&& transaction.network_txn_id is None
                    &&& transaction.connector_response_reference_id is None
                    &&& transaction.incremental_authorization_allowed is None
                    &&& transaction.authentication_data is None
                    &&& transaction.charges is None
                }
            } else {
                &&& outcome.status == AttemptStatus::VoidFailed
                &&& outcome.response matches Err(error) && {
                    &&& error.code == decimal(error_code->0 as int)
                    &&& error.message == match error_message {
                        Some(message) => message@,
                        None => "ATB reverse error: "@ + decimal(error_code->0 as int),
                    }
                    &&& error.reason == Some(error.message)
                    &&& error.status_code == http_code
                    &&& error.attempt_status == Some(AttemptStatus::VoidFailed)
                    &&& error.connector_transaction_id is None
                    &&& error.connector_response_reference_id is None
                    &&& error.network_advice_code is None
                    &&& error.network_decline_code is None
                    &&& error.network_error_message is None
                    &&& error.connector_metadata is None
                }
            }
        }),
{
}

/// An answer whose HTTP status is an error is reported with its own code and message, or with fixed
/// ones in place of missing ones, each by itself; one that cannot be read is an error of its own.
pub proof fn error_answers_are_reported(res: Response<AtbbankErrorResponse>)
    ensures
        match res.response {
            Ok(answer) => error_outcome(res) matches Ok(error) && {
                &&& error.code == match answer.error_code {
                    Some(code) => code@,
                    None => "UNKNOWN"@,
                }
                &&& error.message == match answer.error_message {
                    Some(message) => message@,
                    None => "Unknown error"@,
                }
                &&& error.reason == Some(error.message)
                &&& error.status_code == res.status_code
                &&& error.attempt_status is None
                &&& error.connector_transaction_id is None
                &&& error.connector_response_reference_id is None
                &&& error.network_advice_code is None
                &&& error.network_decline_code is None
                &&& error.network_error_message is None
                &&& error.connector_metadata is None
            },
            Err(_) => error_outcome(res) matches Err(error) && error
                == ConnectorErrorView::ResponseDeserializationFailed,
        },
{
}

} // verus!
