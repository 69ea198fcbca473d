//! Answers to `register.do` and `paymentorder.do`.
use vstd::prelude::*;
use vstd::std_specs::convert::TryFromSpecImpl;

use crate::decimal::{decimal, decimal_of};
use crate::domain::enums::AttemptStatus;
use crate::domain::http::Method;
use crate::domain::response_types::{
    ErrorResponse, ErrorResponseView, FormField, PaymentsResponseData, RedirectForm,
    RedirectFormView, ResponseId, ResponseIdView, TransactionView,
};
use crate::domain::router_data::{PaymentOutcome, ResponseRouterData, RouterData};
use crate::errors::ConnectorError;
use crate::transformers::meta::{AtbbankMeta, ConnectorMetadata, ConnectorMetadataView, MetaView};
use crate::views::{opt_view, or_empty};

verus! {

/// A JSON value of the crate `serde_json`, which is carried along unread.
#[verifier::external_type_specification]
#[verifier::external_body]
pub struct ExJsonValue(serde_json::Value);

/// Answer of `register.do`.
#[derive(PartialEq, Eq, Debug)]
pub struct AtbbankRegisterResponse {
    /// Identifier that the bank gave to the order.
    pub order_id: Option<String>,
    /// Page on which the cardholder can pay.
    pub form_url: Option<String>,
    /// 0 = success, non-zero = error.
    pub error_code: Option<i32>,
    pub error_message: Option<String>,
}

impl Clone for AtbbankRegisterResponse {
    fn clone(&self) -> (r: Self)
        ensures
            r == *self,
    {
        AtbbankRegisterResponse {
            order_id: self.order_id.clone(),
            form_url: self.form_url.clone(),
            error_code: self.error_code,
            error_message: self.error_message.clone(),
        }
    }
}

/// Answer of `paymentorder.do`.
#[derive(Clone, PartialEq, Debug)]
pub struct AtbbankPaymentOrderResponse {
    /// Non-zero means error.
    pub error_code: Option<i32>,
    /// Human-readable info / error description.
    pub info: Option<String>,
    /// If 3DS is required, the ACS URL to redirect to.
    pub acs_url: Option<String>,
    /// The CReq value for the 3DS2 challenge.
    pub creq: Option<String>,
    /// Redirect URL (non-3DS success).
    pub redirect: Option<String>,
    /// Whether the payment was successful without 3DS.
    pub success: Option<bool>,
    /// Additional data.
    pub data: Option<serde_json::Value>,
}

/// The two answers of the authorize flow: an order is registered first, and then a card is
/// submitted for it.
#[derive(Clone, PartialEq, Debug)]
pub enum AtbbankPaymentsResponse {
    /// Answer of `register.do`: the order and the page for the cardholder.
    Register(AtbbankRegisterResponse),
    /// Answer of `paymentorder.do`: a 3DS challenge, a redirect, or a result.
    PaymentOrder(AtbbankPaymentOrderResponse),
}

/// The error code of an answer. An answer without one is a success.
pub open spec fn code_or_zero(error_code: Option<i32>) -> int {
    match error_code {
        Some(code) => code as int,
        None => 0,
    }
}

/// The bank's own message, or else a prefix with the error code behind it.
pub open spec fn message_or(own: Option<String>, prefix: Seq<char>, code: int) -> Seq<char> {
    match own {
        Some(message) => message@,
        None => prefix + decimal(code),
    }
}

/// A refusal by error code, with the bank's own message where there is one.
pub open spec fn refusal(
    own: Option<String>,
    prefix: Seq<char>,
    code: int,
    http_code: u16,
    attempt_status: AttemptStatus,
) -> ErrorResponseView {
    ErrorResponseView::plain(
        decimal(code),
        message_or(own, prefix, code),
        http_code,
        Some(attempt_status),
    )
}

/// What an answer of `register.do` makes of a payment. A registered order waits for the
/// cardholder, who is sent to the bank's page where the answer names one; its identifier becomes
/// the payment's and is stored.
pub open spec fn register_outcome(
    answer: AtbbankRegisterResponse,
    http_code: u16,
) -> PaymentOutcome {
    let code = code_or_zero(answer.error_code);
    let order_id = or_empty(opt_view(answer.order_id));
    let form_url = or_empty(opt_view(answer.form_url));
    if code != 0 {
        PaymentOutcome::refused(
            AttemptStatus::Failure,
            refusal(
                answer.error_message,
                "ATB error code: "@,
                code,
                http_code,
                AttemptStatus::Failure,
            ),
        )
    } else {
        PaymentOutcome::taken(
            AttemptStatus::AuthenticationPending,
            TransactionView {
                redirection_data: if form_url.len() == 0 {
                    None
                } else {
                    Some(RedirectFormView::visit(form_url))
                },
                connector_metadata: Some(ConnectorMetadataView::Order(MetaView::order(order_id))),
                ..TransactionView::plain(ResponseIdView::ConnectorTransactionId(order_id))
            },
        )
    }
}

/// The 3DS challenge that an answer asks for, where both its parts are there.
pub open spec fn challenge(answer: AtbbankPaymentOrderResponse) -> Option<RedirectFormView> {
    match (answer.acs_url, answer.creq) {
        (Some(acs_url), Some(creq)) => if acs_url@.len() > 0 && creq@.len() > 0 {
            Some(
                RedirectFormView {
                    endpoint: acs_url@,
                    method: Method::Post,
                    form_fields: seq![("creq"@, creq@)],
                },
            )
        } else {
            None
        },
        _ => None,
    }
}

/// What an answer of `paymentorder.do` makes of a payment. An error code comes before a challenge,
/// a challenge before a reported success, and a success before a redirect; an answer with none of
/// them leaves the payment pending.
pub open spec fn payment_order_outcome(
    answer: AtbbankPaymentOrderResponse,
    http_code: u16,
) -> PaymentOutcome {
    let code = code_or_zero(answer.error_code);
    let bare = TransactionView::plain(ResponseIdView::NoResponseId);
    if code != 0 {
        PaymentOutcome::refused(
            AttemptStatus::Failure,
            refusal(
                answer.info,
                "ATB paymentorder error: "@,
                code,
                http_code,
                AttemptStatus::Failure,
            ),
        )
    } else if let Some(form) = challenge(answer) {
        PaymentOutcome::taken(
            AttemptStatus::AuthenticationPending,
            TransactionView { redirection_data: Some(form), ..bare },
        )
    } else if answer.success == Some(true) {
        PaymentOutcome::taken(AttemptStatus::Charged, bare)
    } else if let Some(url) = answer.redirect {
        PaymentOutcome::taken(
            AttemptStatus::AuthenticationPending,
            TransactionView { redirection_data: Some(RedirectFormView::visit(url@)), ..bare },
        )
    } else {
        PaymentOutcome::taken(AttemptStatus::Pending, bare)
    }
}

/// What an answer of the authorize flow makes of a payment.
pub open spec fn payments_outcome(
    answer: AtbbankPaymentsResponse,
    http_code: u16,
) -> PaymentOutcome {
    match answer {
        AtbbankPaymentsResponse::Register(register) => register_outcome(register, http_code),
        AtbbankPaymentsResponse::PaymentOrder(order) => payment_order_outcome(order, http_code),
    }
}

/// The bank's own message, or else a prefix with the error code behind it.
pub(crate) fn error_message_or(own: &Option<String>, prefix: &str, code: i32) -> (r: String)
    ensures
        r@ == message_or(*own, prefix@, code as int),
{
    match own {
        Some(message) => message.clone(),
        None => prefix.to_string().concat(decimal_of(code as i64).as_str()),
    }
}

/// A refusal by error code, with the bank's own message where there is one.
pub(crate) fn refuse(
    own: &Option<String>,
    prefix: &str,
    code: i32,
    http_code: u16,
    attempt_status: AttemptStatus,
) -> (r: ErrorResponse)
    ensures
        r@ == refusal(*own, prefix@, code as int, http_code, attempt_status),
{
    ErrorResponse::plain(
        decimal_of(code as i64),
        error_message_or(own, prefix, code),
        http_code,
        Some(attempt_status),
    )
}

/// The 3DS challenge that an answer asks for, where both its parts are there.
fn challenge_form(answer: &AtbbankPaymentOrderResponse) -> (r: Option<RedirectForm>)
    ensures
        opt_view(r) == challenge(*answer),
{
    match (&answer.acs_url, &answer.creq) {
        (Some(acs_url), Some(creq)) => {
            if acs_url.as_str().is_empty() || creq.as_str().is_empty() {
                return None;
            }
            let mut form_fields: Vec<FormField> = Vec::new();
            form_fields.push(FormField { name: "creq".to_string(), value: creq.clone() });
            let form = RedirectForm {
                endpoint: acs_url.clone(),
                method: Method::Post,
                form_fields,
            };
            assert(form@.form_fields =~= seq![("creq"@, creq@)]);
            Some(form)
        },
        _ => None,
    }
}

impl<F, T> TryFrom<
    ResponseRouterData<F, AtbbankPaymentsResponse, T, PaymentsResponseData>,
> for RouterData<F, T, PaymentsResponseData> {
    type Error = ConnectorError;

    fn try_from(item: ResponseRouterData<F, AtbbankPaymentsResponse, T, PaymentsResponseData>) -> (r:
        Result<Self, ConnectorError>)
        ensures
            r matches Ok(payment) && {
                &&& payment.outcome() == payments_outcome(item.response, item.http_code)
                &&& payment.same_payment(item.data)
                &&& payment.amount_captured == item.data.amount_captured
            },
    {
        match item.response {
            AtbbankPaymentsResponse::Register(register) => {
                let error_code: i32 = register.error_code.unwrap_or(0);
                if error_code != 0 {
                    return Ok(
                        RouterData {
                            status: AttemptStatus::Failure,
                            response: Err(
                                refuse(
                                    &register.error_message,
                                    "ATB error code: ",
                                    error_code,
                                    item.http_code,
                                    AttemptStatus::Failure,
                                ),
                            ),
                            ..item.data
                        },
                    );
                }
                let order_id = register.order_id.unwrap_or_default();
                let form_url = register.form_url.unwrap_or_default();
                let redirection_data = if form_url.as_str().is_empty() {
                    None
                } else {
                    Some(RedirectForm::visit(form_url))
                };
                let meta = AtbbankMeta::order(order_id.clone());
                Ok(
                    RouterData {
                        status: AttemptStatus::AuthenticationPending,
                        response: Ok(
                            PaymentsResponseData::transaction(
                                ResponseId::ConnectorTransactionId(order_id),
                                redirection_data,
                                Some(ConnectorMetadata::Order(meta)),
                                None,
                            ),
                        ),
                        ..item.data
                    },
                )
            },
            AtbbankPaymentsResponse::PaymentOrder(order) => {
                let error_code: i32 = order.error_code.unwrap_or(0);
                if error_code != 0 {
                    return Ok(
                        RouterData {
                            status: AttemptStatus::Failure,
                            response: Err(
                                refuse(
                                    &order.info,
                                    "ATB paymentorder error: ",
                                    error_code,
                                    item.http_code,
                                    AttemptStatus::Failure,
                                ),
                            ),
                            ..item.data
                        },
                    );
                }
                let challenge_form = challenge_form(&order);
                if challenge_form.is_some() {
                    return Ok(
                        RouterData {
                            status: AttemptStatus::AuthenticationPending,
                            response: Ok(
                                PaymentsResponseData::transaction(
                                    ResponseId::NoResponseId,
                                    challenge_form,
                                    None,
                                    None,
                                ),
                            ),
                            ..item.data
                        },
                    );
                }
                let (status, redirection_data) = if order.success == Some(true) {
                    (AttemptStatus::Charged, None)
                } else {
                    match order.redirect {
                        Some(url) => (
                            AttemptStatus::AuthenticationPending,
                            Some(RedirectForm::visit(url)),
                        ),
                        None => (AttemptStatus::Pending, None),
                    }
                };
                Ok(
                    RouterData {
                        status,
                        response: Ok(
                            PaymentsResponseData::transaction(
                                ResponseId::NoResponseId,
                                redirection_data,
                                None,
                                None,
                            ),
                        ),
                        ..item.data
                    },
                )
            },
        }
    }
}

impl<F, T> TryFromSpecImpl<
    ResponseRouterData<F, AtbbankPaymentsResponse, T, PaymentsResponseData>,
> for RouterData<F, T, PaymentsResponseData> {
    open spec fn obeys_try_from_spec() -> bool {
        false
    }

    open spec fn try_from_spec(
        item: ResponseRouterData<F, AtbbankPaymentsResponse, T, PaymentsResponseData>,
    ) -> Result<Self, ConnectorError> {
        arbitrary()
    }
}

} // verus!
