//! Capturing a held amount: `deposit.do`.
use vstd::prelude::*;
use vstd::std_specs::convert::TryFromSpecImpl;

use crate::decimal::{decimal, decimal_of};
use crate::domain::amount::StringMinorUnit;
use crate::domain::enums::AttemptStatus;
use crate::domain::flows::{Capture, Void};
use crate::domain::request_types::{PaymentsCancelData, PaymentsCaptureData};
use crate::domain::response_types::{
    PaymentsResponseData, ResponseId, ResponseIdView, TransactionView,
};
use crate::domain::router_data::{
    PaymentOutcome, PaymentsCancelRouterData, PaymentsCaptureRouterData, ResponseRouterData,
    RouterData,
};
use crate::errors::{ConnectorError, ConnectorErrorView};
use crate::secret::Secret;
use crate::transformers::auth::{credentials, AtbbankAuthType};
use crate::transformers::payments_response::{code_or_zero, refusal, refuse};
use crate::transformers::reverse::reverse_outcome;
use crate::views::result_view;

verus! {

/// Request body of `deposit.do`.
pub struct AtbbankCaptureRequest {
    pub user_name: Secret<String>,
    pub password: Secret<String>,
    pub order_id: String,
    /// Amount to capture, in minor units.
    pub amount: String,
}

/// What an [`AtbbankCaptureRequest`] says.
#[verifier::ext_equal]
pub struct CaptureRequestView {
    pub user_name: Seq<char>,
    pub password: Seq<char>,
    pub order_id: Seq<char>,
    pub amount: Seq<char>,
}

impl View for AtbbankCaptureRequest {
    type V = CaptureRequestView;

    open spec fn view(&self) -> CaptureRequestView {
        CaptureRequestView {
            user_name: self.user_name@,
            password: self.password@,
            order_id: self.order_id@,
            amount: self.amount@,
        }
    }
}

/// The request that captures an amount of a payment's order.
pub open spec fn capture_request(payment: PaymentsCaptureRouterData, amount: Seq<char>) -> Result<
    CaptureRequestView,
    ConnectorErrorView,
> {
    match credentials(payment.connector_auth_type) {
        Ok(auth) => Ok(
            CaptureRequestView {
                user_name: auth.user_name,
                password: auth.password,
                order_id: payment.request.connector_transaction_id@,
                amount,
            },
        ),
        Err(error) => Err(error),
    }
}

/// A capture of the amount that the payment asks for.
impl<'a> TryFrom<&'a PaymentsCaptureRouterData> for AtbbankCaptureRequest {
    type Error = ConnectorError;

    fn try_from(item: &'a PaymentsCaptureRouterData) -> (r: Result<Self, ConnectorError>)
        ensures
            result_view(r) == capture_request(
                *item,
                decimal(item.request.minor_amount_to_capture.0 as int),
            ),
    {
        let auth = AtbbankAuthType::try_from(&item.connector_auth_type)?;

        Ok(
            AtbbankCaptureRequest {
                user_name: auth.user_name,
                password: auth.password,
                order_id: item.request.connector_transaction_id.clone(),
                amount: decimal_of(item.request.minor_amount_to_capture.0),
            },
        )
    }
}

impl<'a> TryFromSpecImpl<&'a PaymentsCaptureRouterData> for AtbbankCaptureRequest {
    open spec fn obeys_try_from_spec() -> bool {
        false
    }

    open spec fn try_from_spec(item: &'a PaymentsCaptureRouterData) -> Result<
        Self,
        ConnectorError,
    > {
        arbitrary()
    }
}

/// A capture of an amount that was written out before.
impl<'a> TryFrom<
    (&'a PaymentsCaptureRouterData, StringMinorUnit),
> for AtbbankCaptureRequest {
    type Error = ConnectorError;

    fn try_from(item: (&'a PaymentsCaptureRouterData, StringMinorUnit)) -> (r: Result<
        Self,
        ConnectorError,
    >)
        ensures
            result_view(r) == capture_request(*item.0, item.1@),
    {
        let auth = AtbbankAuthType::try_from(&item.0.connector_auth_type)?;

        Ok(
            AtbbankCaptureRequest {
                user_name: auth.user_name,
                password: auth.password,
                order_id: item.0.request.connector_transaction_id.clone(),
                amount: item.1.0,
            },
        )
    }
}

impl<'a> TryFromSpecImpl<
    (&'a PaymentsCaptureRouterData, StringMinorUnit),
> for AtbbankCaptureRequest {
    open spec fn obeys_try_from_spec() -> bool {
        false
    }

    open spec fn try_from_spec(item: (&'a PaymentsCaptureRouterData, StringMinorUnit)) -> Result<
        Self,
        ConnectorError,
    > {
        arbitrary()
    }
}

/// Answer of `deposit.do`. The bank answers `reverse.do` in the same shape.
#[derive(PartialEq, Eq, Debug)]
pub struct AtbbankCaptureResponse {
    pub error_code: Option<i32>,
    pub error_message: Option<String>,
}

impl Clone for AtbbankCaptureResponse {
    fn clone(&self) -> (r: Self)
        ensures
            r == *self,
    {
        AtbbankCaptureResponse {
            error_code: self.error_code,
            error_message: self.error_message.clone(),
        }
    }
}

/// What an answer of `deposit.do` makes of a payment.
pub open spec fn capture_outcome(
    answer: AtbbankCaptureResponse,
    transaction_id: Seq<char>,
    http_code: u16,
) -> PaymentOutcome {
    let code = code_or_zero(answer.error_code);
    if code != 0 {
        PaymentOutcome::refused(
            AttemptStatus::Failure,
            refusal(
                answer.error_message,
                "ATB capture error: "@,
                code,
                http_code,
                AttemptStatus::CaptureFailed,
            ),
        )
    } else {
        PaymentOutcome::taken(
            AttemptStatus::Charged,
            TransactionView::plain(ResponseIdView::ConnectorTransactionId(transaction_id)),
        )
    }
}

impl TryFrom<
    ResponseRouterData<Capture, AtbbankCaptureResponse, PaymentsCaptureData, PaymentsResponseData>,
> for PaymentsCaptureRouterData {
    type Error = ConnectorError;

    fn try_from(
        item: ResponseRouterData<
            Capture,
            AtbbankCaptureResponse,
            PaymentsCaptureData,
            PaymentsResponseData,
        >,
    ) -> (r: Result<Self, ConnectorError>)
        ensures
            r matches Ok(payment) && {
                &&& payment.outcome() == capture_outcome(
                    item.response,
                    item.data.request.connector_transaction_id@,
                    item.http_code,
                )
                &&& payment.same_payment(item.data)
                &&& payment.amount_captured is None
            },
    {
        let error_code: i32 = item.response.error_code.unwrap_or(0);
        if error_code != 0 {
            return Ok(
                RouterData {
                    status: AttemptStatus::Failure,
                    response: Err(
                        refuse(
                            &item.response.error_message,
                            "ATB capture error: ",
                            error_code,
                            item.http_code,
                            AttemptStatus::CaptureFailed,
                        ),
                    ),
                    amount_captured: None,
                    ..item.data
                },
            );
        }
        let transaction_id = item.data.request.connector_transaction_id.clone();
        Ok(
            RouterData {
                status: AttemptStatus::Charged,
                response: Ok(
                    PaymentsResponseData::transaction(
                        ResponseId::ConnectorTransactionId(transaction_id),
                        None,
                        None,
                        None,
                    ),
                ),
                amount_captured: None,
                ..item.data
            },
        )
    }
}

impl TryFromSpecImpl<
    ResponseRouterData<Capture, AtbbankCaptureResponse, PaymentsCaptureData, PaymentsResponseData>,
> for PaymentsCaptureRouterData {
    open spec fn obeys_try_from_spec() -> bool {
        false
    }

    open spec fn try_from_spec(
        item: ResponseRouterData<
            Capture,
            AtbbankCaptureResponse,
            PaymentsCaptureData,
            PaymentsResponseData,
        >,
    ) -> Result<Self, ConnectorError> {
        arbitrary()
    }
}

/// The answer to a void, which has the shape of an answer to a capture.
impl TryFrom<
    ResponseRouterData<Void, AtbbankCaptureResponse, PaymentsCancelData, PaymentsResponseData>,
> for PaymentsCancelRouterData {
    type Error = ConnectorError;

    fn try_from(
        item: ResponseRouterData<
            Void,
            AtbbankCaptureResponse,
            PaymentsCancelData,
            PaymentsResponseData,
        >,
    ) -> (r: Result<Self, ConnectorError>)
        ensures
            r matches Ok(payment) && {
                &&& payment.outcome() == reverse_outcome(
                    item.response.error_code,
                    item.response.error_message,
                    item.http_code,
                )
                &&& payment.same_payment(item.data)
                &&& payment.amount_captured == item.data.amount_captured
            },
    {
        let error_code: i32 = item.response.error_code.unwrap_or(0);
        if error_code != 0 {
            return Ok(
                RouterData {
                    status: AttemptStatus::VoidFailed,
                    response: Err(
                        refuse(
                            &item.response.error_message,
                            "ATB reverse error: ",
                            error_code,
                            item.http_code,
                            AttemptStatus::VoidFailed,
                        ),
                    ),
                    ..item.data
                },
            );
        }
        Ok(
            RouterData {
                status: AttemptStatus::Voided,
                response: Ok(
                    PaymentsResponseData::transaction(ResponseId::NoResponseId, None, None, None),
                ),
                ..item.data
            },
        )
    }
}

impl TryFromSpecImpl<
    ResponseRouterData<Void, AtbbankCaptureResponse, PaymentsCancelData, PaymentsResponseData>,
> for PaymentsCancelRouterData {
    open spec fn obeys_try_from_spec() -> bool {
        false
    }

    open spec fn try_from_spec(
        item: ResponseRouterData<
            Void,
            AtbbankCaptureResponse,
            PaymentsCancelData,
            PaymentsResponseData,
        >,
    ) -> Result<Self, ConnectorError> {
        arbitrary()
    }
}

} // verus!
