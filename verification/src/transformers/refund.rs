//! Paying a captured amount back: `refund.do`, and `getOrderStatusExtended.do` afterwards.
use vstd::prelude::*;
use vstd::std_specs::convert::{FromSpecImpl, TryFromSpecImpl};

use crate::decimal::{decimal, decimal_of};
use crate::domain::enums::RefundStatus;
use crate::domain::flows::{Execute, RSync};
use crate::domain::request_types::RefundsData;
use crate::domain::response_types::{
    ErrorResponse, ErrorResponseView, RefundView, RefundsResponseData,
};
use crate::domain::router_data::{RefundsRouterData, ResponseRouterData, RouterData};
use crate::errors::{ConnectorError, ConnectorErrorView};
use crate::secret::Secret;
use crate::transformers::auth::{credentials, AtbbankAuthType};
use crate::transformers::payments_response::code_or_zero;
use crate::transformers::register::AtbbankRouterData;
use crate::transformers::status::{AtbbankOrderStatus, AtbbankOrderStatusResponse};
use crate::views::{opt_view, or_empty, result_view};

verus! {

/// Request body of `refund.do`.
pub struct AtbbankRefundRequest {
    pub user_name: Secret<String>,
    pub password: Secret<String>,
    pub order_id: String,
    /// Amount to refund, in minor units.
    pub amount: String,
}

/// What an [`AtbbankRefundRequest`] says.
#[verifier::ext_equal]
pub struct RefundRequestView {
    pub user_name: Seq<char>,
    pub password: Seq<char>,
    pub order_id: Seq<char>,
    pub amount: Seq<char>,
}

impl View for AtbbankRefundRequest {
    type V = RefundRequestView;

    open spec fn view(&self) -> RefundRequestView {
        RefundRequestView {
            user_name: self.user_name@,
            password: self.password@,
            order_id: self.order_id@,
            amount: self.amount@,
        }
    }
}

/// The request that refunds an amount of a payment's order.
pub open spec fn refund_request<F>(amount: Seq<char>, refund: RefundsRouterData<F>) -> Result<
    RefundRequestView,
    ConnectorErrorView,
> {
    match credentials(refund.connector_auth_type) {
        Ok(auth) => Ok(
            RefundRequestView {
                user_name: auth.user_name,
                password: auth.password,
                order_id: refund.request.connector_transaction_id@,
                amount,
            },
        ),
        Err(error) => Err(error),
    }
}

impl<'a, 'b, F> TryFrom<
    &'a AtbbankRouterData<&'b RefundsRouterData<F>>,
> for AtbbankRefundRequest {
    type Error = ConnectorError;

    fn try_from(item: &'a AtbbankRouterData<&'b RefundsRouterData<F>>) -> (r: Result<
        Self,
        ConnectorError,
    >)
        ensures
            result_view(r) == refund_request(item.amount@, *item.router_data),
    {
        let router_data = item.router_data;
        let auth = AtbbankAuthType::try_from(&router_data.connector_auth_type)?;

        Ok(
            AtbbankRefundRequest {
                user_name: auth.user_name,
                password: auth.password,
                order_id: router_data.request.connector_transaction_id.clone(),
                amount: item.amount.0.clone(),
            },
        )
    }
}

impl<'a, 'b, F> TryFromSpecImpl<
    &'a AtbbankRouterData<&'b RefundsRouterData<F>>,
> for AtbbankRefundRequest {
    open spec fn obeys_try_from_spec() -> bool {
        false
    }

    open spec fn try_from_spec(item: &'a AtbbankRouterData<&'b RefundsRouterData<F>>) -> Result<
        Self,
        ConnectorError,
    > {
        arbitrary()
    }
}

/// Answer of `refund.do`.
#[derive(PartialEq, Eq, Debug)]
pub struct AtbbankRefundResponse {
    pub error_code: Option<i32>,
    pub error_message: Option<String>,
}

impl Clone for AtbbankRefundResponse {
    fn clone(&self) -> (r: Self)
        ensures
            r == *self,
    {
        AtbbankRefundResponse {
            error_code: self.error_code,
            error_message: self.error_message.clone(),
        }
    }
}

/// What the error code of an answer of `refund.do` means.
pub open spec fn refund_status(error_code: Option<i32>) -> RefundStatus {
    if code_or_zero(error_code) == 0 {
        RefundStatus::Success
    } else {
        RefundStatus::Failure
    }
}

impl<'a> From<&'a AtbbankRefundResponse> for RefundStatus {
    fn from(item: &'a AtbbankRefundResponse) -> (r: Self) {
        let error_code: i32 = item.error_code.unwrap_or(0);
        if error_code == 0 {
            RefundStatus::Success
        } else {
            RefundStatus::Failure
        }
    }
}

impl<'a> FromSpecImpl<&'a AtbbankRefundResponse> for RefundStatus {
    open spec fn obeys_from_spec() -> bool {
        true
    }

    open spec fn from_spec(item: &'a AtbbankRefundResponse) -> Self {
        refund_status(item.error_code)
    }
}

/// What an answer of `refund.do` makes of a refund. The bank gives a refund no identifier of its
/// own, so it goes by the order's.
pub open spec fn refund_outcome(
    answer: AtbbankRefundResponse,
    transaction_id: Seq<char>,
    http_code: u16,
) -> Result<RefundView, ErrorResponseView> {
    let code = code_or_zero(answer.error_code);
    if code != 0 {
        Err(
            ErrorResponseView::plain(
                decimal(code),
                match answer.error_message {
                    Some(message) => message@,
                    None => "ATB refund failed"@,
                },
                http_code,
                None,
            ),
        )
    } else {
        Ok(
            RefundView {
                connector_refund_id: transaction_id,
                refund_status: RefundStatus::Success,
            },
        )
    }
}

impl TryFrom<
    ResponseRouterData<Execute, AtbbankRefundResponse, RefundsData, RefundsResponseData>,
> for RefundsRouterData<Execute> {
    type Error = ConnectorError;

    fn try_from(
        item: ResponseRouterData<Execute, AtbbankRefundResponse, RefundsData, RefundsResponseData>,
    ) -> (r: Result<Self, ConnectorError>)
        ensures
            r matches Ok(refund) && {
                &&& refund.refund() == refund_outcome(
                    item.response,
                    item.data.request.connector_transaction_id@,
                    item.http_code,
                )
                &&& refund.same_payment(item.data)
                &&& refund.status == item.data.status
                &&& refund.amount_captured == item.data.amount_captured
            },
    {
        let refund_status = RefundStatus::from(&item.response);
        if refund_status == RefundStatus::Failure {
            let message = match item.response.error_message {
                Some(message) => message,
                None => "ATB refund failed".to_string(),
            };
            let code = match item.response.error_code {
                Some(code) => decimal_of(code as i64),
                None => String::new(),
            };
            return Ok(
                RouterData {
                    response: Err(ErrorResponse::plain(code, message, item.http_code, None)),
                    ..item.data
                },
            );
        }
        let connector_refund_id = item.data.request.connector_transaction_id.clone();
        Ok(
            RouterData {
                response: Ok(RefundsResponseData { connector_refund_id, refund_status }),
                ..item.data
            },
        )
    }
}

impl TryFromSpecImpl<
    ResponseRouterData<Execute, AtbbankRefundResponse, RefundsData, RefundsResponseData>,
> for RefundsRouterData<Execute> {
    open spec fn obeys_try_from_spec() -> bool {
        false
    }

    open spec fn try_from_spec(
        item: ResponseRouterData<Execute, AtbbankRefundResponse, RefundsData, RefundsResponseData>,
    ) -> Result<Self, ConnectorError> {
        arbitrary()
    }
}

/// Where a refund stands by the status of its order. A refunded order settles it, and so does
/// one that failed. Otherwise the amount refunded so far decides, against the amount requested:
/// while less is paid back, or nothing, the refund is pending.
pub open spec fn refund_sync_status(
    answer: AtbbankOrderStatusResponse,
    requested: int,
) -> RefundStatus {
    let refunded = match answer.refunded_amount {
        Some(amount) => amount as int,
        None => 0,
    };
    match answer.known_status() {
        Some(AtbbankOrderStatus::Refunded) => RefundStatus::Success,
        Some(AtbbankOrderStatus::Declined)
        | Some(AtbbankOrderStatus::SystemError) => RefundStatus::Failure,
        _ => if refunded > 0 && refunded >= requested {
            RefundStatus::Success
        } else {
            RefundStatus::Pending
        },
    }
}

/// What an answer of `getOrderStatusExtended.do` makes of a refund.
pub open spec fn refund_sync_outcome(answer: AtbbankOrderStatusResponse, requested: int) -> Result<
    RefundView,
    ErrorResponseView,
> {
    Ok(
        RefundView {
            connector_refund_id: or_empty(opt_view(answer.order_number)),
            refund_status: refund_sync_status(answer, requested),
        },
    )
}

impl TryFrom<
    ResponseRouterData<RSync, AtbbankOrderStatusResponse, RefundsData, RefundsResponseData>,
> for RefundsRouterData<RSync> {
    type Error = ConnectorError;

    fn try_from(
        item: ResponseRouterData<
            RSync,
            AtbbankOrderStatusResponse,
            RefundsData,
            RefundsResponseData,
        >,
    ) -> (r: Result<Self, ConnectorError>)
        ensures
            r matches Ok(refund) && {
                &&& refund.refund() == refund_sync_outcome(
                    item.response,
                    item.data.request.minor_refund_amount.0 as int,
                )
                &&& refund.same_payment(item.data)
                &&& refund.status == item.data.status
                &&& refund.amount_captured == item.data.amount_captured
            },
    {
        let response = &item.response;
        let order_status_int: i32 = response.order_status.unwrap_or(0);
        let refund_status = match AtbbankOrderStatus::from_i32(order_status_int) {
            Some(AtbbankOrderStatus::Refunded) => RefundStatus::Success,
            Some(AtbbankOrderStatus::Declined) | Some(AtbbankOrderStatus::SystemError) => {
                RefundStatus::Failure
            },
            _ => {
                let refunded: i64 = response.refunded_amount.unwrap_or(0);
                if refunded > 0 && refunded >= item.data.request.minor_refund_amount.0 {
                    RefundStatus::Success
                } else {
                    RefundStatus::Pending
                }
            },
        };
        let connector_refund_id = response.order_number.clone().unwrap_or_default();
        Ok(
            RouterData {
                response: Ok(RefundsResponseData { connector_refund_id, refund_status }),
                ..item.data
            },
        )
    }
}

impl TryFromSpecImpl<
    ResponseRouterData<RSync, AtbbankOrderStatusResponse, RefundsData, RefundsResponseData>,
> for RefundsRouterData<RSync> {
    open spec fn obeys_try_from_spec() -> bool {
        false
    }

    open spec fn try_from_spec(
        item: ResponseRouterData<
            RSync,
            AtbbankOrderStatusResponse,
            RefundsData,
            RefundsResponseData,
        >,
    ) -> Result<Self, ConnectorError> {
        arbitrary()
    }
}

} // verus!
