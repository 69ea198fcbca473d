//! What the numbers and amounts of a status answer mean for a payment and for a refund, and what
//! the answer to a refund means.
use vstd::prelude::*;

use crate::decimal::decimal;
use crate::domain::enums::{AttemptStatus, RefundStatus};
use crate::domain::response_types::ResponseIdView;
use crate::transformers::meta::ConnectorMetadataView;
use crate::transformers::refund::{
    refund_outcome, refund_status, refund_sync_outcome, refund_sync_status, AtbbankRefundResponse,
};
use crate::transformers::status::{
    attempt_status, first_known, status_outcome, AtbbankOrderStatus, AtbbankOrderStatusResponse,
};

verus! {

/// A status answer without an error gives the payment the status of the reported number. An order
/// whose number is missing or unknown waits for the cardholder, as a registered one does.
pub proof fn reported_numbers_decide_the_payment(
    answer: AtbbankOrderStatusResponse,
    http_code: u16,
)
    requires
        answer.error_code is None || answer.error_code->0@.len() == 0 || answer.error_code->0@
            == "0"@,
    ensures
        ({
            let status = status_outcome(answer, http_code).status;
            let number = answer.order_status;
            &&& status_outcome(answer, http_code).response is Ok
            &&& number is None ==> status == AttemptStatus::AuthenticationPending
            &&& number == Some(0i32) ==> status == AttemptStatus::AuthenticationPending
            &&& number == Some(1i32) ==> status == AttemptStatus::Charged
            &&& number == Some(2i32) ==> status == AttemptStatus::Charged
            &&& number == Some(3i32) ==> status == AttemptStatus::Voided
            &&& number == Some(4i32) ==> status == AttemptStatus::Charged
            &&& number == Some(5i32) ==> status == AttemptStatus::AuthenticationPending
            &&& number == Some(6i32) ==> status == AttemptStatus::Failure
            &&& number == Some(7i32) ==> status == AttemptStatus::Failure
            &&& (number matches Some(n) && (n < 0 || n > 7)) ==> status
                == AttemptStatus::AuthenticationPending
        }),
{
    reveal_strlit("0");
}

/// A status answer calls a payment paid only where its order is held, captured or refunded, voided
/// only where it is reversed, and failed only where it is declined, has a system error, or the
/// answer itself has an error.
pub proof fn payments_are_settled_only_by_their_numbers(
    answer: AtbbankOrderStatusResponse,
    http_code: u16,
)
    ensures
        ({
            let status = status_outcome(answer, http_code).status;
            let number = answer.order_status;
            &&& status == AttemptStatus::Charged ==> number == Some(1i32) || number == Some(2i32)
                || number == Some(4i32)
            &&& status == AttemptStatus::Voided ==> number == Some(3i32)
            &&& status == AttemptStatus::Failure ==> number == Some(6i32) || number == Some(7i32)
                || (answer.error_code matches Some(code) && code@.len() > 0 && code@ != "0"@)
            &&& status == AttemptStatus::Charged || status == AttemptStatus::Voided || status
                == AttemptStatus::Failure || status == AttemptStatus::AuthenticationPending
        }),
{
}

/// A status answer with an error, which is a code that is neither empty nor zero, fails the payment
/// whatever number it reports. The refusal has the code, the bank's text or else one with the code,
/// the order's number and the description of the action.
pub proof fn status_answers_with_an_error_fail(answer: AtbbankOrderStatusResponse, http_code: u16)
    requires
        answer.error_code is Some,
        answer.error_code->0@.len() > 0,
        answer.error_code->0@ != "0"@,
    ensures
        ({
            let outcome = status_outcome(answer, http_code);
            &&& outcome.status == AttemptStatus::Failure
            &&& outcome.response matches Err(error) && {
                &&& error.code == answer.error_code->0@
                &&& error.message == match answer.error_message {
                    Some(message) => message@,
                    None => "ATB status error: "@ + answer.error_code->0@,
                }
                &&& error.reason == Some(error.message)
                &&& error.status_code == http_code
                &&& error.attempt_status == Some(AttemptStatus::Failure)
                &&& error.connector_transaction_id is None
                &&& error.connector_response_reference_id == match answer.order_number {
                    Some(number) => Some(number@),
                    None => None,
                }
                &&& error.network_advice_code is None
                &&& error.network_decline_code is None
                &&& error.network_error_message == match answer.action_code_description {
                    Some(description) => Some(description@),
                    None => None,
                }
                &&& error.connector_metadata is None
            }
        }),
{
}

/// A status answer without an error gives the order's number as identifier and as reference, and,
/// where there is such a number, stores the six details of the order as they were reported; it
/// gives nothing else.
pub proof fn status_answers_give_the_details(answer: AtbbankOrderStatusResponse, http_code: u16)
    requires
        answer.error_code is None || answer.error_code->0@.len() == 0 || answer.error_code->0@
            == "0"@,
    ensures
        status_outcome(answer, http_code).response matches Ok(transaction) && {
            &&& match answer.order_number {
                Some(number) => {
                    &&& transaction.resource_id == ResponseIdView::ConnectorTransactionId(number@)
                    &&& transaction.connector_response_reference_id == Some(number@)
                    &&& transaction.connector_metadata matches Some(
                        ConnectorMetadataView::OrderStatus(details),
                    ) && {
                        &&& details.action_code == answer.action_code
                        &&& details.action_code_description == match answer.action_code_description {
                            Some(description) => Some(description@),
                            None => None,
                        }
                        &&& details.approval_code == match answer.approval_code {
                            Some(code) => Some(code@),
                            None => None,
                        }
                        &&& details.auth_code == match answer.auth_code {
                            Some(code) => Some(code@),
                            None => None,
                        }
                        &&& details.deposit_amount == answer.deposit_amount
                        &&& details.refunded_amount == answer.refunded_amount
                    }
                },
                None => {
                    &&& transaction.resource_id == ResponseIdView::ConnectorTransactionId(
                        Seq::<char>::empty(),
                    )
                    &&& transaction.connector_response_reference_id is None
                    &&& transaction.connector_metadata is None
                },
            }
            &&& transaction.redirection_data is None
            &&& transaction.mandate_reference is None
            &&& transaction.network_txn_id is None
            &&& transaction.incremental_authorization_allowed is None
            &&& transaction.authentication_data is None
            &&& transaction.charges is None
        },
{
}

/// The bank's numbers: each of seven stands for one status, and no other number for any.
pub proof fn order_statuses_have_the_banks_numbers(number: int)
    ensures
        AtbbankOrderStatus::with_number(0) == Some(AtbbankOrderStatus::Registered),
        AtbbankOrderStatus::with_number(1) == Some(AtbbankOrderStatus::Authorized),
        AtbbankOrderStatus::with_number(2) == Some(AtbbankOrderStatus::Deposited),
        AtbbankOrderStatus::with_number(3) == Some(AtbbankOrderStatus::Reversed),
        AtbbankOrderStatus::with_number(4) == Some(AtbbankOrderStatus::Refunded),
        AtbbankOrderStatus::with_number(6) == Some(AtbbankOrderStatus::Declined),
        AtbbankOrderStatus::with_number(7) == Some(AtbbankOrderStatus::SystemError),
        number < 0 || number == 5 || number > 7 ==> AtbbankOrderStatus::with_number(number) is None,
        AtbbankOrderStatus::Registered.number() == 0,
        AtbbankOrderStatus::Authorized.number() == 1,
        AtbbankOrderStatus::Deposited.number() == 2,
        AtbbankOrderStatus::Reversed.number() == 3,
        AtbbankOrderStatus::Refunded.number() == 4,
        AtbbankOrderStatus::Declined.number() == 6,
        AtbbankOrderStatus::SystemError.number() == 7,
{
}

/// A payment is paid exactly where its order is captured or refunded, or is held and captured by
/// itself; authorized exactly where it is held and captured by hand; voided exactly where it is
/// reversed; failed exactly where it is declined or has a system error; and waiting exactly where
/// it is only registered.
pub proof fn order_statuses_settle_payments(status: AtbbankOrderStatus, is_auto_capture: bool)
    ensures
        ({
            let payment = attempt_status(status, is_auto_capture);
            &&& payment == AttemptStatus::Charged <==> status == AtbbankOrderStatus::Deposited
                || status == AtbbankOrderStatus::Refunded || (status
                == AtbbankOrderStatus::Authorized && is_auto_capture)
            &&& payment == AttemptStatus::Authorized <==> status == AtbbankOrderStatus::Authorized
                && !is_auto_capture
            &&& payment == AttemptStatus::Voided <==> status == AtbbankOrderStatus::Reversed
            &&& payment == AttemptStatus::Failure <==> status == AtbbankOrderStatus::Declined
                || status == AtbbankOrderStatus::SystemError
            &&& payment == AttemptStatus::AuthenticationPending <==> status
                == AtbbankOrderStatus::Registered
        }),
{
}

/// A refund that the bank took has succeeded and goes by the order's identifier: a response that is
/// taken never has another status.
pub proof fn taken_refunds_have_succeeded(
    answer: AtbbankRefundResponse,
    id: Seq<char>,
    http_code: u16,
)
    ensures
        answer.error_code is None || answer.error_code == Some(0i32) ==> (
        refund_outcome(answer, id, http_code) matches Ok(refund) && refund.refund_status
            == RefundStatus::Success && refund.connector_refund_id == id),
        refund_outcome(answer, id, http_code) matches Ok(refund) ==> refund.refund_status
            == RefundStatus::Success,
        refund_status(answer.error_code) == RefundStatus::Success <==> answer.error_code is None
            || answer.error_code == Some(0i32),
        refund_status(answer.error_code) == RefundStatus::Failure <==> answer.error_code is Some
            && answer.error_code != Some(0i32),
{
}

/// A refund that the bank refused is an error with the code in decimal and the bank's text, or else
/// a fixed one.
pub proof fn refused_refunds_give_the_code(
    answer: AtbbankRefundResponse,
    id: Seq<char>,
    http_code: u16,
)
    requires
        answer.error_code is Some,
        answer.error_code != Some(0i32),
    ensures
        refund_outcome(answer, id, http_code) matches Err(error) && {
            &&& error.code == decimal(answer.error_code->0 as int)
            &&& error.message == match answer.error_message {
                Some(message) => message@,
                None => "ATB refund failed"@,
            }
            &&& error.reason == Some(error.message)
            &&& error.status_code == http_code
            &&& error.attempt_status is None
            &&& error.connector_transaction_id is None
            &&& error.connector_response_reference_id is None
            &&& error.network_advice_code is None
            &&& error.network_decline_code is None
            &&& error.network_error_message is None
            &&& error.connector_metadata is None
        },
{
}

/// Where a refund stands by the reported number and amount: a refunded order settles it, a declined
/// one and one with a system error fail it, and for any other number, known or not, or none, it has
/// succeeded exactly where an amount is paid back that is no less than the requested one.
pub proof fn reported_numbers_and_amounts_decide_the_refund(
    answer: AtbbankOrderStatusResponse,
    requested: int,
)
    ensures
        ({
            let status = refund_sync_status(answer, requested);
            let number = answer.order_status;
            &&& number == Some(4i32) ==> status == RefundStatus::Success
            &&& number == Some(6i32) ==> status == RefundStatus::Failure
            &&& number == Some(7i32) ==> status == RefundStatus::Failure
            &&& number != Some(4i32) && number != Some(6i32) && number != Some(7i32) ==> {
                &&& status == RefundStatus::Success <==> (
                answer.refunded_amount matches Some(refunded) && refunded > 0 && refunded
                    >= requested)
                &&& status == RefundStatus::Pending <==> !(
                answer.refunded_amount matches Some(refunded) && refunded > 0 && refunded
                    >= requested)
            }
        }),
{
}

/// A refund whose status is asked for is always answered, with that status, and goes by the order's
/// number or by an empty text in place of a missing one.
pub proof fn refund_status_answers_name_the_order_number(
    answer: AtbbankOrderStatusResponse,
    requested: int,
)
    ensures
        refund_sync_outcome(answer, requested) matches Ok(refund) && {
            &&& refund.refund_status == refund_sync_status(answer, requested)
            &&& refund.connector_refund_id == match answer.order_number {
                Some(number) => number@,
                None => Seq::<char>::empty(),
            }
        },
{
}

/// Of two readings the first counts wherever it is known, and the second only where it is not.
pub proof fn first_reading_counts<T>(first: Option<T>, second: Option<T>)
    ensures
        first is Some ==> first_known(first, second) == first,
        first is None ==> first_known(first, second) == second,
{
}

} // verus!
