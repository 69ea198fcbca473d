//! Asking where an order stands: `getOrderStatusExtended.do`.
use vstd::prelude::*;
use vstd::std_specs::convert::TryFromSpecImpl;

use crate::domain::enums::AttemptStatus;
use crate::domain::response_types::{
    ErrorResponse, ErrorResponseView, PaymentsResponseData, ResponseId, ResponseIdView,
    TransactionView,
};
use crate::domain::router_data::{
    PaymentOutcome, PaymentsSyncRouterData, RefundSyncRouterData, ResponseRouterData, RouterData,
};
use crate::errors::{ConnectorError, ConnectorErrorView};
use crate::secret::Secret;
use crate::transformers::auth::{credentials, AtbbankAuthType, Credentials};
use crate::transformers::meta::{
    ConnectorMetadata, ConnectorMetadataView, OrderStatusMetadata, OrderStatusMetadataView,
};
use crate::views::{opt_view, or_empty, result_view, text_is};

verus! {

/// Request body of `getOrderStatusExtended.do`.
pub struct AtbbankStatusRequest {
    pub user_name: Secret<String>,
    pub password: Secret<String>,
    pub order_id: String,
    pub language: String,
}

/// What an [`AtbbankStatusRequest`] says.
#[verifier::ext_equal]
pub struct StatusRequestView {
    pub user_name: Seq<char>,
    pub password: Seq<char>,
    pub order_id: Seq<char>,
    pub language: Seq<char>,
}

impl View for AtbbankStatusRequest {
    type V = StatusRequestView;

    open spec fn view(&self) -> StatusRequestView {
        StatusRequestView {
            user_name: self.user_name@,
            password: self.password@,
            order_id: self.order_id@,
            language: self.language@,
        }
    }
}

/// The request that asks where an order stands.
pub open spec fn status_request(auth: Credentials, order_id: Seq<char>) -> StatusRequestView {
    StatusRequestView {
        user_name: auth.user_name,
        password: auth.password,
        order_id,
        language: "en"@,
    }
}

/// The request that asks where a payment stands. It is refused, in this order, for credentials
/// of another kind and for a payment that has no identifier at the bank.
pub open spec fn payment_status_request(payment: PaymentsSyncRouterData) -> Result<
    StatusRequestView,
    ConnectorErrorView,
> {
    match (
        credentials(payment.connector_auth_type),
        payment.request.connector_transaction_id@,
    ) {
        (Err(error), _) => Err(error),
        (Ok(auth), ResponseIdView::ConnectorTransactionId(id)) => Ok(status_request(auth, id)),
        _ => Err(ConnectorErrorView::MissingConnectorTransactionID),
    }
}

/// The request that asks where a refund stands: the same one, for the order that was refunded.
pub open spec fn refund_status_request(refund: RefundSyncRouterData) -> Result<
    StatusRequestView,
    ConnectorErrorView,
> {
    match credentials(refund.connector_auth_type) {
        Ok(auth) => Ok(status_request(auth, refund.request.connector_transaction_id@)),
        Err(error) => Err(error),
    }
}

impl<'a> TryFrom<&'a PaymentsSyncRouterData> for AtbbankStatusRequest {
    type Error = ConnectorError;

    fn try_from(item: &'a PaymentsSyncRouterData) -> (r: Result<Self, ConnectorError>)
        ensures
            result_view(r) == payment_status_request(*item),
    {
        let auth = AtbbankAuthType::try_from(&item.connector_auth_type)?;
        let order_id = match &item.request.connector_transaction_id {
            ResponseId::ConnectorTransactionId(id) => id.clone(),
            _ => {
                return Err(ConnectorError::MissingConnectorTransactionID);
            },
        };

        Ok(
            AtbbankStatusRequest {
                user_name: auth.user_name,
                password: auth.password,
                order_id,
                language: "en".to_string(),
            },
        )
    }
}

impl<'a> TryFromSpecImpl<&'a PaymentsSyncRouterData> for AtbbankStatusRequest {
    open spec fn obeys_try_from_spec() -> bool {
        false
    }

    open spec fn try_from_spec(item: &'a PaymentsSyncRouterData) -> Result<Self, ConnectorError> {
        arbitrary()
    }
}

impl<'a> TryFrom<&'a RefundSyncRouterData> for AtbbankStatusRequest {
    type Error = ConnectorError;

    fn try_from(item: &'a RefundSyncRouterData) -> (r: Result<Self, ConnectorError>)
        ensures
            result_view(r) == refund_status_request(*item),
    {
        let auth = AtbbankAuthType::try_from(&item.connector_auth_type)?;

        Ok(
            AtbbankStatusRequest {
                user_name: auth.user_name,
                password: auth.password,
                order_id: item.request.connector_transaction_id.clone(),
                language: "en".to_string(),
            },
        )
    }
}

impl<'a> TryFromSpecImpl<&'a RefundSyncRouterData> for AtbbankStatusRequest {
    open spec fn obeys_try_from_spec() -> bool {
        false
    }

    open spec fn try_from_spec(item: &'a RefundSyncRouterData) -> Result<Self, ConnectorError> {
        arbitrary()
    }
}

/// Where an order stands at the bank.
#[derive(Clone, Copy, PartialEq, Eq, Structural, Debug)]
pub enum AtbbankOrderStatus {
    /// 0 = registered (order created, not yet paid)
    Registered,
    /// 1 = authorized (the amount is held)
    Authorized,
    /// 2 = deposited (the amount is captured)
    Deposited,
    /// 3 = reversed (voided)
    Reversed,
    /// 4 = refunded
    Refunded,
    /// 6 = declined
    Declined,
    /// 7 = system error
    SystemError,
}

impl AtbbankOrderStatus {
    /// The bank's number for the status.
    pub open spec fn number(self) -> int {
        match self {
            AtbbankOrderStatus::Registered => 0,
            AtbbankOrderStatus::Authorized => 1,
            AtbbankOrderStatus::Deposited => 2,
            AtbbankOrderStatus::Reversed => 3,
            AtbbankOrderStatus::Refunded => 4,
            AtbbankOrderStatus::Declined => 6,
            AtbbankOrderStatus::SystemError => 7,
        }
    }

    /// The status with a given number, where there is one.
    pub open spec fn with_number(number: int) -> Option<Self> {
        if number == 0 {
            Some(AtbbankOrderStatus::Registered)
        } else if number == 1 {
            Some(AtbbankOrderStatus::Authorized)
        } else if number == 2 {
            Some(AtbbankOrderStatus::Deposited)
        } else if number == 3 {
            Some(AtbbankOrderStatus::Reversed)
        } else if number == 4 {
            Some(AtbbankOrderStatus::Refunded)
        } else if number == 6 {
            Some(AtbbankOrderStatus::Declined)
        } else if number == 7 {
            Some(AtbbankOrderStatus::SystemError)
        } else {
            None
        }
    }

    /// The status with a given number, where there is one.
    pub fn from_i32(value: i32) -> (r: Option<Self>)
        ensures
            r == Self::with_number(value as int),
    {
        match value {
            0 => Some(AtbbankOrderStatus::Registered),
            1 => Some(AtbbankOrderStatus::Authorized),
            2 => Some(AtbbankOrderStatus::Deposited),
            3 => Some(AtbbankOrderStatus::Reversed),
            4 => Some(AtbbankOrderStatus::Refunded),
            6 => Some(AtbbankOrderStatus::Declined),
            7 => Some(AtbbankOrderStatus::SystemError),
            _ => None,
        }
    }

    /// The bank's number for the status.
    pub fn to_i32(self) -> (r: i32)
        ensures
            r == self.number(),
    {
        match self {
            AtbbankOrderStatus::Registered => 0,
            AtbbankOrderStatus::Authorized => 1,
            AtbbankOrderStatus::Deposited => 2,
            AtbbankOrderStatus::Reversed => 3,
            AtbbankOrderStatus::Refunded => 4,
            AtbbankOrderStatus::Declined => 6,
            AtbbankOrderStatus::SystemError => 7,
        }
    }
}

/// What the status of an order means for the payment. A held amount counts as charged where the
/// capture follows by itself. A refunded order is still charged: the refund is followed
/// separately.
pub open spec fn attempt_status(status: AtbbankOrderStatus, is_auto_capture: bool) -> AttemptStatus {
    match status {
        AtbbankOrderStatus::Registered => AttemptStatus::AuthenticationPending,
        AtbbankOrderStatus::Authorized => if is_auto_capture {
            AttemptStatus::Charged
        } else {
            AttemptStatus::Authorized
        },
        AtbbankOrderStatus::Deposited | AtbbankOrderStatus::Refunded => AttemptStatus::Charged,
        AtbbankOrderStatus::Reversed => AttemptStatus::Voided,
        AtbbankOrderStatus::Declined | AtbbankOrderStatus::SystemError => AttemptStatus::Failure,
    }
}

/// What the status of an order means for the payment.
pub fn atb_status_to_attempt_status(status: AtbbankOrderStatus, is_auto_capture: bool) -> (r:
    AttemptStatus)
    ensures
        r == attempt_status(status, is_auto_capture),
{
    match status {
        AtbbankOrderStatus::Registered => AttemptStatus::AuthenticationPending,
        AtbbankOrderStatus::Authorized => {
            if is_auto_capture {
                AttemptStatus::Charged
            } else {
                AttemptStatus::Authorized
            }
        },
        AtbbankOrderStatus::Deposited => AttemptStatus::Charged,
        AtbbankOrderStatus::Reversed => AttemptStatus::Voided,
        AtbbankOrderStatus::Refunded => AttemptStatus::Charged,
        AtbbankOrderStatus::Declined => AttemptStatus::Failure,
        AtbbankOrderStatus::SystemError => AttemptStatus::Failure,
    }
}

/// Answer of `getOrderStatusExtended.do`.
#[derive(Clone, PartialEq, Debug)]
pub struct AtbbankOrderStatusResponse {
    /// Number of the order's status.
    pub order_status: Option<i32>,
    /// Error code, as text here.
    pub error_code: Option<String>,
    pub error_message: Option<String>,
    pub order_number: Option<String>,
    pub pan: Option<String>,
    pub amount: Option<i64>,
    pub currency: Option<String>,
    pub action_code: Option<i32>,
    pub action_code_description: Option<String>,
    pub deposit_amount: Option<i64>,
    pub refunded_amount: Option<i64>,
    pub approval_code: Option<String>,
    pub auth_code: Option<String>,
    pub ip: Option<String>,
    pub card_auth_info: Option<serde_json::Value>,
    pub payment_amount_info: Option<serde_json::Value>,
}

impl AtbbankOrderStatusResponse {
    /// The reported status, where it is a known one; a missing one reads as zero.
    pub open spec fn known_status(self) -> Option<AtbbankOrderStatus> {
        AtbbankOrderStatus::with_number(
            match self.order_status {
                Some(number) => number as int,
                None => 0,
            },
        )
    }

    /// The reported status; an order whose status is unknown counts as registered.
    pub open spec fn status(self) -> AtbbankOrderStatus {
        match self.known_status() {
            Some(status) => status,
            None => AtbbankOrderStatus::Registered,
        }
    }

    /// The error that the answer reports, if any: a code that is neither empty nor zero.
    pub open spec fn error(self) -> Option<Seq<char>> {
        match self.error_code {
            Some(code) => if code@.len() > 0 && code@ != "0"@ {
                Some(code@)
            } else {
                None
            },
            None => None,
        }
    }

    /// The details that are stored with the payment.
    pub open spec fn details(self) -> OrderStatusMetadataView {
        OrderStatusMetadataView {
            action_code: self.action_code,
            action_code_description: opt_view(self.action_code_description),
            approval_code: opt_view(self.approval_code),
            auth_code: opt_view(self.auth_code),
            deposit_amount: self.deposit_amount,
            refunded_amount: self.refunded_amount,
        }
    }
}

/// The first of two values that is known.
pub open spec fn first_known<T>(first: Option<T>, second: Option<T>) -> Option<T> {
    match first {
        Some(_) => first,
        None => second,
    }
}

fn known<T>(first: Option<T>, second: Option<T>) -> (r: Option<T>)
    ensures
        r == first_known(first, second),
{
    match first {
        Some(value) => Some(value),
        None => second,
    }
}

impl AtbbankOrderStatusResponse {
    /// The answer with what it lacks taken from another reading of the same body. The gateway
    /// spells the names of this answer in two ways, and each way gives a reading.
    pub fn completed_by(self, other: Self) -> (r: Self)
        ensures
            r.order_status == first_known(self.order_status, other.order_status),
            r.error_code == first_known(self.error_code, other.error_code),
            r.error_message == first_known(self.error_message, other.error_message),
            r.order_number == first_known(self.order_number, other.order_number),
            r.pan == first_known(self.pan, other.pan),
            r.amount == first_known(self.amount, other.amount),
            r.currency == first_known(self.currency, other.currency),
            r.action_code == first_known(self.action_code, other.action_code),
            r.action_code_description == first_known(self.action_code_description, other.action_code_description),
            r.deposit_amount == first_known(self.deposit_amount, other.deposit_amount),
            r.refunded_amount == first_known(self.refunded_amount, other.refunded_amount),
            r.approval_code == first_known(self.approval_code, other.approval_code),
            r.auth_code == first_known(self.auth_code, other.auth_code),
            r.ip == first_known(self.ip, other.ip),
            r.card_auth_info == first_known(self.card_auth_info, other.card_auth_info),
            r.payment_amount_info == first_known(self.payment_amount_info, other.payment_amount_info),
    {
        AtbbankOrderStatusResponse {
            order_status: known(self.order_status, other.order_status),
            error_code: known(self.error_code, other.error_code),
            error_message: known(self.error_message, other.error_message),
            order_number: known(self.order_number, other.order_number),
            pan: known(self.pan, other.pan),
            amount: known(self.amount, other.amount),
            currency: known(self.currency, other.currency),
            action_code: known(self.action_code, other.action_code),
            action_code_description: known(self.action_code_description, other.action_code_description),
            deposit_amount: known(self.deposit_amount, other.deposit_amount),
            refunded_amount: known(self.refunded_amount, other.refunded_amount),
            approval_code: known(self.approval_code, other.approval_code),
            auth_code: known(self.auth_code, other.auth_code),
            ip: known(self.ip, other.ip),
            card_auth_info: known(self.card_auth_info, other.card_auth_info),
            payment_amount_info: known(self.payment_amount_info, other.payment_amount_info),
        }
    }
}

/// What an answer of `getOrderStatusExtended.do` makes of a payment. An error fails it; else the
/// order's status decides, as for a payment that is captured by itself, and the order's number
/// and details go into the response.
pub open spec fn status_outcome(
    answer: AtbbankOrderStatusResponse,
    http_code: u16,
) -> PaymentOutcome {
    let order_number = opt_view(answer.order_number);
    match answer.error() {
        Some(code) => PaymentOutcome::refused(
            AttemptStatus::Failure,
            ErrorResponseView {
                connector_response_reference_id: order_number,
                network_error_message: opt_view(answer.action_code_description),
                ..ErrorResponseView::plain(
                    code,
                    match answer.error_message {
                        Some(message) => message@,
                        None => "ATB status error: "@ + code,
                    },
                    http_code,
                    Some(AttemptStatus::Failure),
                )
            },
        ),
        None => PaymentOutcome::taken(
            attempt_status(answer.status(), true),
            TransactionView {
                connector_metadata: match order_number {
                    Some(_) => Some(ConnectorMetadataView::OrderStatus(answer.details())),
                    None => None,
                },
                connector_response_reference_id: order_number,
                ..TransactionView::plain(
                    ResponseIdView::ConnectorTransactionId(or_empty(order_number)),
                )
            },
        ),
    }
}

/// The bank's numbers and the statuses stand for each other: a status is found again under its
/// number, and a number that finds a status is that status's own.
pub proof fn order_status_numbers_round_trip(status: AtbbankOrderStatus, number: int)
    ensures
        AtbbankOrderStatus::with_number(status.number()) == Some(status),
        AtbbankOrderStatus::with_number(number) == Some(status) <==> number == status.number(),
{
}

impl<F, T> TryFrom<
    ResponseRouterData<F, AtbbankOrderStatusResponse, T, PaymentsResponseData>,
> for RouterData<F, T, PaymentsResponseData> {
    type Error = ConnectorError;

    fn try_from(
        item: ResponseRouterData<F, AtbbankOrderStatusResponse, T, PaymentsResponseData>,
    ) -> (r: Result<Self, ConnectorError>)
        ensures
            r matches Ok(payment) && {
                &&& payment.outcome() == status_outcome(item.response, item.http_code)
                &&& payment.same_payment(item.data)
                &&& payment.amount_captured == item.data.amount_captured
            },
    {
        let response = &item.response;
        let error_code = response.error_code.clone().unwrap_or_default();
        if !error_code.as_str().is_empty() && !text_is(&error_code, "0") {
            let message = match &response.error_message {
                Some(message) => message.clone(),
                None => "ATB status error: ".to_string().concat(error_code.as_str()),
            };
            let error = ErrorResponse {
                connector_response_reference_id: response.order_number.clone(),
                network_error_message: response.action_code_description.clone(),
                ..ErrorResponse::plain(
                    error_code,
                    message,
                    item.http_code,
                    Some(AttemptStatus::Failure),
                )
            };
            return Ok(
                RouterData { status: AttemptStatus::Failure, response: Err(error), ..item.data },
            );
        }
        let order_status_int: i32 = response.order_status.unwrap_or(0);
        let order_status = AtbbankOrderStatus::from_i32(order_status_int).unwrap_or(
            AtbbankOrderStatus::Registered,
        );
        let status = atb_status_to_attempt_status(order_status, true);
        let connector_metadata = match &response.order_number {
            Some(_) => Some(
                ConnectorMetadata::OrderStatus(
                    OrderStatusMetadata {
                        action_code: response.action_code,
                        action_code_description: response.action_code_description.clone(),
                        approval_code: response.approval_code.clone(),
                        auth_code: response.auth_code.clone(),
                        deposit_amount: response.deposit_amount,
                        refunded_amount: response.refunded_amount,
                    },
                ),
            ),
            None => None,
        };
        let order_number = response.order_number.clone().unwrap_or_default();
        Ok(
            RouterData {
                status,
                response: Ok(
                    PaymentsResponseData::transaction(
                        ResponseId::ConnectorTransactionId(order_number),
                        None,
                        connector_metadata,
                        response.order_number.clone(),
                    ),
                ),
                ..item.data
            },
        )
    }
}

impl<F, T> TryFromSpecImpl<
    ResponseRouterData<F, AtbbankOrderStatusResponse, T, PaymentsResponseData>,
> for RouterData<F, T, PaymentsResponseData> {
    open spec fn obeys_try_from_spec() -> bool {
        false
    }

    open spec fn try_from_spec(
        item: ResponseRouterData<F, AtbbankOrderStatusResponse, T, PaymentsResponseData>,
    ) -> Result<Self, ConnectorError> {
        arbitrary()
    }
}

} // verus!
