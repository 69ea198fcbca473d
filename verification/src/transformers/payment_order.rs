//! Submitting the card: `paymentorder.do`.
use vstd::prelude::*;
use vstd::std_specs::convert::TryFromSpecImpl;

use crate::domain::payment_method::{Card, CardView, PaymentMethodData};
use crate::domain::router_data::PaymentsCompleteAuthorizeRouterData;
use crate::errors::{missing, ConnectorError, ConnectorErrorView};
use crate::secret::Secret;
use crate::transformers::auth::{credentials, AtbbankAuthType, Credentials};
use crate::transformers::meta::{AtbbankMeta, MetaView};
use crate::views::{or_empty, result_view};

verus! {

/// Request body of `paymentorder.do` with a card.
pub struct AtbbankPaymentOrderRequest {
    pub user_name: Secret<String>,
    pub password: Secret<String>,
    /// The `orderId` from the register step.
    pub mdorder: String,
    /// Card number.
    pub pan: Secret<String>,
    /// CVV/CVC.
    pub cvc: Secret<String>,
    /// 4-digit expiry year.
    pub expiry_year: Secret<String>,
    /// 2-digit expiry month.
    pub expiry_month: Secret<String>,
    /// Cardholder name.
    pub text: String,
    pub language: String,
}

/// What an [`AtbbankPaymentOrderRequest`] says.
#[verifier::ext_equal]
pub struct PaymentOrderRequestView {
    pub user_name: Seq<char>,
    pub password: Seq<char>,
    pub mdorder: Seq<char>,
    pub pan: Seq<char>,
    pub cvc: Seq<char>,
    pub expiry_year: Seq<char>,
    pub expiry_month: Seq<char>,
    pub text: Seq<char>,
    pub language: Seq<char>,
}

impl View for AtbbankPaymentOrderRequest {
    type V = PaymentOrderRequestView;

    open spec fn view(&self) -> PaymentOrderRequestView {
        PaymentOrderRequestView {
            user_name: self.user_name@,
            password: self.password@,
            mdorder: self.mdorder@,
            pan: self.pan@,
            cvc: self.cvc@,
            expiry_year: self.expiry_year@,
            expiry_month: self.expiry_month@,
            text: self.text@,
            language: self.language@,
        }
    }
}

/// A text of decimal digits alone.
pub open spec fn all_digits(text: Seq<char>) -> bool {
    forall|i: int| 0 <= i < text.len() ==> '0' <= #[trigger] text[i] <= '9'
}

/// An expiry year as the bank takes it: with four digits. One of two digits gets its century; any
/// other text stays as it is.
pub open spec fn four_digit_year(year: Seq<char>) -> Seq<char> {
    if year.len() == 2 && all_digits(year) {
        "20"@ + year
    } else {
        year
    }
}

/// An expiry month as the bank takes it: with two digits. One of one digit gets a zero in front;
/// any other text stays as it is.
pub open spec fn two_digit_month(month: Seq<char>) -> Seq<char> {
    if month.len() == 1 && all_digits(month) {
        "0"@ + month
    } else {
        month
    }
}

/// The request that pays an order with a card. The year of expiry has four digits in it and the
/// month has two, where they were entered in digits, with or without the century and the leading
/// zero. A card without a holder's name is submitted with an
/// empty one.
pub open spec fn payment_order(
    auth: Credentials,
    order_id: Seq<char>,
    card: CardView,
    language: Seq<char>,
) -> PaymentOrderRequestView {
    PaymentOrderRequestView {
        user_name: auth.user_name,
        password: auth.password,
        mdorder: order_id,
        pan: card.number,
        cvc: card.cvc,
        expiry_year: four_digit_year(card.exp_year),
        expiry_month: two_digit_month(card.exp_month),
        text: or_empty(card.holder),
        language,
    }
}

/// The card that a stored record holds: a number, and then all of the security code and the
/// expiry date.
pub open spec fn stored_card(meta: MetaView) -> Result<CardView, ConnectorErrorView> {
    match (meta.card_number, meta.card_cvc, meta.card_exp_year, meta.card_exp_month) {
        (None, _, _, _) => Err(
            missing("payment_method_data (Card) or card data in connector_meta"@),
        ),
        (_, None, _, _) => Err(missing("card_cvc in connector_meta"@)),
        (_, _, None, _) => Err(missing("card_exp_year in connector_meta"@)),
        (_, _, _, None) => Err(missing("card_exp_month in connector_meta"@)),
        (Some(number), Some(cvc), Some(exp_year), Some(exp_month)) => Ok(
            CardView { number, exp_month, exp_year, cvc, holder: meta.card_holder },
        ),
    }
}

/// The card of a payment that is continued: the one that comes with it, else the stored one.
pub open spec fn card_to_submit(
    payment: PaymentsCompleteAuthorizeRouterData,
    meta: MetaView,
) -> Result<CardView, ConnectorErrorView> {
    match payment.request.payment_method_data {
        Some(PaymentMethodData::Card(card)) => Ok(card@),
        _ => stored_card(meta),
    }
}

/// The request that submits the card of a payment that is continued. It is refused, in this
/// order, for credentials of another kind, for want of a stored record, for a record that cannot
/// be decoded, and for want of a card.
pub open spec fn payment_order_request(
    payment: PaymentsCompleteAuthorizeRouterData,
) -> Result<PaymentOrderRequestView, ConnectorErrorView> {
    match (credentials(payment.connector_auth_type), payment.request.connector_meta) {
        (Err(error), _) => Err(error),
        (_, None) => Err(missing("connector_meta (AtbbankMeta)"@)),
        (_, Some(Err(_))) => Err(ConnectorErrorView::RequestEncodingFailed),
        (Ok(auth), Some(Ok(meta))) => match card_to_submit(payment, meta@) {
            Ok(card) => Ok(payment_order(auth, meta@.order_id, card, "en"@)),
            Err(error) => Err(error),
        },
    }
}

/// Whether a text is made of a given number of decimal digits.
fn has_digits(text: &str, count: usize) -> (r: bool)
    ensures
        r == (text@.len() == count && all_digits(text@)),
{
    if text.unicode_len() != count {
        return false;
    }
    let mut i: usize = 0;
    while i < count
        invariant
            i <= count == text@.len(),
            forall|j: int| 0 <= j < i ==> '0' <= #[trigger] text@[j] <= '9',
        decreases count - i,
    {
        let c = text.get_char(i);
        if c < '0' || '9' < c {
            assert(!('0' <= text@[i as int] <= '9'));
            return false;
        }
        i = i + 1;
    }
    true
}

/// An expiry year as the bank takes it.
fn expiry_year_of(year: &Secret<String>) -> (r: Secret<String>)
    ensures
        r@ == four_digit_year(year@),
{
    let text = year.peek();
    if has_digits(text.as_str(), 2) {
        Secret::new("20".to_string().concat(text.as_str()))
    } else {
        year.clone()
    }
}

/// An expiry month as the bank takes it.
fn expiry_month_of(month: &Secret<String>) -> (r: Secret<String>)
    ensures
        r@ == two_digit_month(month@),
{
    let text = month.peek();
    if has_digits(text.as_str(), 1) {
        Secret::new("0".to_string().concat(text.as_str()))
    } else {
        month.clone()
    }
}

impl AtbbankPaymentOrderRequest {
    pub fn try_new(auth: &AtbbankAuthType, order_id: &str, card: &Card, language: &str) -> (r:
        Result<Self, ConnectorError>)
        ensures
            result_view(r) == Ok::<PaymentOrderRequestView, ConnectorErrorView>(
                payment_order(auth@, order_id@, card@, language@),
            ),
    {
        Ok(
            AtbbankPaymentOrderRequest {
                user_name: auth.user_name.clone(),
                password: auth.password.clone(),
                mdorder: order_id.to_string(),
                pan: card.card_number.clone(),
                cvc: card.card_cvc.clone(),
                expiry_year: expiry_year_of(&card.card_exp_year),
                expiry_month: expiry_month_of(&card.card_exp_month),
                text: match &card.card_holder_name {
                    Some(name) => name.peek().clone(),
                    None => String::new(),
                },
                language: language.to_string(),
            },
        )
    }
}

impl<'a> TryFrom<&'a PaymentsCompleteAuthorizeRouterData> for AtbbankPaymentOrderRequest {
    type Error = ConnectorError;

    fn try_from(item: &'a PaymentsCompleteAuthorizeRouterData) -> (r: Result<Self, ConnectorError>)
        ensures
            result_view(r) == payment_order_request(*item),
    {
        let auth = AtbbankAuthType::try_from(&item.connector_auth_type)?;

        let meta: AtbbankMeta = match &item.request.connector_meta {
            None => {
                return Err(
                    ConnectorError::MissingRequiredField {
                        field_name: "connector_meta (AtbbankMeta)",
                    },
                );
            },
            Some(Err(_)) => {
                return Err(ConnectorError::RequestEncodingFailed);
            },
            Some(Ok(meta)) => meta.clone(),
        };

        if let Some(PaymentMethodData::Card(card)) = &item.request.payment_method_data {
            return Self::try_new(&auth, meta.order_id.as_str(), card, "en");
        }
        let pan = match meta.card_number {
            Some(pan) => pan,
            None => {
                return Err(
                    ConnectorError::MissingRequiredField {
                        field_name: "payment_method_data (Card) or card data in connector_meta",
                    },
                );
            },
        };
        let cvc = match meta.card_cvc {
            Some(cvc) => cvc,
            None => {
                return Err(
                    ConnectorError::MissingRequiredField {
                        field_name: "card_cvc in connector_meta",
                    },
                );
            },
        };
        let expiry_year = match meta.card_exp_year {
            Some(expiry_year) => expiry_year,
            None => {
                return Err(
                    ConnectorError::MissingRequiredField {
                        field_name: "card_exp_year in connector_meta",
                    },
                );
            },
        };
        let expiry_month = match meta.card_exp_month {
            Some(expiry_month) => expiry_month,
            None => {
                return Err(
                    ConnectorError::MissingRequiredField {
                        field_name: "card_exp_month in connector_meta",
                    },
                );
            },
        };

        Ok(
            AtbbankPaymentOrderRequest {
                user_name: auth.user_name,
                password: auth.password,
                mdorder: meta.order_id,
                pan,
                cvc,
                expiry_year: expiry_year_of(&expiry_year),
                expiry_month: expiry_month_of(&expiry_month),
                text: match meta.card_holder {
                    Some(holder) => holder,
                    None => String::new(),
                },
                language: "en".to_string(),
            },
        )
    }
}

impl<'a> TryFromSpecImpl<&'a PaymentsCompleteAuthorizeRouterData> for AtbbankPaymentOrderRequest {
    open spec fn obeys_try_from_spec() -> bool {
        false
    }

    open spec fn try_from_spec(item: &'a PaymentsCompleteAuthorizeRouterData) -> Result<
        Self,
        ConnectorError,
    > {
        arbitrary()
    }
}

/// Request body of `paymentorder.do` after the first of two card submissions: the 3DS server's
/// transaction in place of a card.
pub struct AtbbankPaymentOrderStage2Request {
    pub user_name: Secret<String>,
    pub password: Secret<String>,
    /// The `orderId` from the register step.
    pub mdorder: String,
    pub three_ds_server_trans_id: String,
    pub language: String,
}

/// What an [`AtbbankPaymentOrderStage2Request`] says.
#[verifier::ext_equal]
pub struct Stage2RequestView {
    pub user_name: Seq<char>,
    pub password: Seq<char>,
    pub mdorder: Seq<char>,
    pub three_ds_server_trans_id: Seq<char>,
    pub language: Seq<char>,
}

impl View for AtbbankPaymentOrderStage2Request {
    type V = Stage2RequestView;

    open spec fn view(&self) -> Stage2RequestView {
        Stage2RequestView {
            user_name: self.user_name@,
            password: self.password@,
            mdorder: self.mdorder@,
            three_ds_server_trans_id: self.three_ds_server_trans_id@,
            language: self.language@,
        }
    }
}

} // verus!
