//! Giving a held amount back: `reverse.do`.
use vstd::prelude::*;
use vstd::std_specs::convert::TryFromSpecImpl;

use crate::domain::enums::AttemptStatus;
use crate::domain::response_types::{
    PaymentsResponseData, ResponseId, ResponseIdView, TransactionView,
};
use crate::domain::router_data::{
    PaymentOutcome, PaymentsCancelRouterData, ResponseRouterData, RouterData,
};
use crate::errors::{ConnectorError, ConnectorErrorView};
use crate::secret::Secret;
use crate::transformers::auth::{credentials, AtbbankAuthType};
use crate::transformers::payments_response::{code_or_zero, refusal, refuse};
use crate::views::result_view;

verus! {

/// Request body of `reverse.do`.
pub struct AtbbankReverseRequest {
    pub user_name: Secret<String>,
    pub password: Secret<String>,
    pub order_id: String,
}

/// What an [`AtbbankReverseRequest`] says.
#[verifier::ext_equal]
pub struct ReverseRequestView {
    pub user_name: Seq<char>,
    pub password: Seq<char>,
    pub order_id: Seq<char>,
}

impl View for AtbbankReverseRequest {
    type V = ReverseRequestView;

    open spec fn view(&self) -> ReverseRequestView {
        ReverseRequestView {
            user_name: self.user_name@,
            password: self.password@,
            order_id: self.order_id@,
        }
    }
}

/// The request that reverses a payment's order.
pub open spec fn reverse_request(payment: PaymentsCancelRouterData) -> Result<
    ReverseRequestView,
    ConnectorErrorView,
> {
    match credentials(payment.connector_auth_type) {
        Ok(auth) => Ok(
            ReverseRequestView {
                user_name: auth.user_name,
                password: auth.password,
                order_id: payment.request.connector_transaction_id@,
            },
        ),
        Err(error) => Err(error),
    }
}

impl<'a> TryFrom<&'a PaymentsCancelRouterData> for AtbbankReverseRequest {
    type Error = ConnectorError;

    fn try_from(item: &'a PaymentsCancelRouterData) -> (r: Result<Self, ConnectorError>)
        ensures
            result_view(r) == reverse_request(*item),
    {
        let auth = AtbbankAuthType::try_from(&item.connector_auth_type)?;

        Ok(
            AtbbankReverseRequest {
                user_name: auth.user_name,
                password: auth.password,
                order_id: item.request.connector_transaction_id.clone(),
            },
        )
    }
}

impl<'a> TryFromSpecImpl<&'a PaymentsCancelRouterData> for AtbbankReverseRequest {
    open spec fn obeys_try_from_spec() -> bool {
        false
    }

    open spec fn try_from_spec(item: &'a PaymentsCancelRouterData) -> Result<Self, ConnectorError> {
        arbitrary()
    }
}

/// Answer of `reverse.do`.
#[derive(PartialEq, Eq, Debug)]
pub struct AtbbankReverseResponse {
    pub error_code: Option<i32>,
    pub error_message: Option<String>,
}

impl Clone for AtbbankReverseResponse {
    fn clone(&self) -> (r: Self)
        ensures
            r == *self,
    {
        AtbbankReverseResponse {
            error_code: self.error_code,
            error_message: self.error_message.clone(),
        }
    }
}

/// What an answer of `reverse.do` makes of a payment.
pub open spec fn reverse_outcome(
    error_code: Option<i32>,
    error_message: Option<String>,
    http_code: u16,
) -> PaymentOutcome {
    let code = code_or_zero(error_code);
    if code != 0 {
        PaymentOutcome::refused(
            AttemptStatus::VoidFailed,
            refusal(
                error_message,
                "ATB reverse error: "@,
                code,
                http_code,
                AttemptStatus::VoidFailed,
            ),
        )
    } else {
        PaymentOutcome::taken(
            AttemptStatus::Voided,
            TransactionView::plain(ResponseIdView::NoResponseId),
        )
    }
}

impl<F, T> TryFrom<
    ResponseRouterData<F, AtbbankReverseResponse, T, PaymentsResponseData>,
> for RouterData<F, T, PaymentsResponseData> {
    type Error = ConnectorError;

    fn try_from(item: ResponseRouterData<F, AtbbankReverseResponse, T, PaymentsResponseData>) -> (r:
        Result<Self, ConnectorError>)
        ensures
            r matches Ok(payment) && {
                &&& payment.outcome() == reverse_outcome(
                    item.response.error_code,
                    item.response.error_message,
                    item.http_code,
                )
                &&& payment.same_payment(item.data)
                &&& payment.amount_captured == item.data.amount_captured
            },
    {
        let error_code: i32 = item.response.error_code.unwrap_or(0);
        if error_code != 0 {
            return Ok(
                RouterData {
                    status: AttemptStatus::VoidFailed,
                    response: Err(
                        refuse(
                            &item.response.error_message,
                            "ATB reverse error: ",
                            error_code,
                            item.http_code,
                            AttemptStatus::VoidFailed,
                        ),
                    ),
                    ..item.data
                },
            );
        }
        Ok(
            RouterData {
                status: AttemptStatus::Voided,
                response: Ok(
                    PaymentsResponseData::transaction(ResponseId::NoResponseId, None, None, None),
                ),
                ..item.data
            },
        )
    }
}

impl<F, T> TryFromSpecImpl<
    ResponseRouterData<F, AtbbankReverseResponse, T, PaymentsResponseData>,
> for RouterData<F, T, PaymentsResponseData> {
    open spec fn obeys_try_from_spec() -> bool {
        false
    }

    open spec fn try_from_spec(
        item: ResponseRouterData<F, AtbbankReverseResponse, T, PaymentsResponseData>,
    ) -> Result<Self, ConnectorError> {
        arbitrary()
    }
}

} // verus!
