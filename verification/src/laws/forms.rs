//! What stands in the forms, by what stands in the payment, and where they are posted.
use vstd::prelude::*;

use crate::connector::authorize::{authorize_form, register_path};
use crate::connector::capture::capture_form;
use crate::connector::common::endpoint;
use crate::connector::complete_authorize::complete_authorize_form;
use crate::connector::refund::{refund_form, refund_sync_form};
use crate::connector::request::{common_headers, form_content_type, posted_if, FormView};
use crate::connector::sync::sync_form;
use crate::connector::void::void_form;
use crate::decimal::decimal;
use crate::domain::enums::CaptureMethod;
use crate::domain::http::{Connectors, MaskableView, Method};
use crate::domain::payment_method::{Card, CardView, PaymentMethodData};
use crate::domain::response_types::ResponseId;
use crate::domain::router_data::{
    ConnectorAuthType, PaymentsAuthorizeRouterData, PaymentsCancelRouterData,
    PaymentsCaptureRouterData, PaymentsCompleteAuthorizeRouterData, PaymentsSyncRouterData,
    RefundExecuteRouterData, RefundSyncRouterData, RefundsRouterData,
};
use crate::errors::ConnectorErrorView;
use crate::transformers::auth::{credentials, Credentials};
use crate::transformers::capture::capture_request;
use crate::transformers::currency::{currency_code, numeric_code};
use crate::transformers::payment_order::{
    four_digit_year, payment_order, payment_order_request, two_digit_month,
};
use crate::transformers::refund::refund_request;
use crate::transformers::register::register_request;
use crate::transformers::reverse::reverse_request;
use crate::transformers::status::{payment_status_request, refund_status_request};

verus! {

/// The credentials of an account are those of its body key: the key's two parts are the user name
/// and the password, in this order. An account of any other kind has none.
pub proof fn credentials_are_the_body_key(auth_type: ConnectorAuthType)
    ensures
        auth_type matches ConnectorAuthType::BodyKey { api_key, key1 } ==> (
        credentials(auth_type) matches Ok(auth) && auth.user_name == api_key@ && auth.password
            == key1@),
        !(auth_type is BodyKey) ==> (credentials(auth_type) matches Err(error) && error
            == ConnectorErrorView::FailedToObtainAuthType),
{
}

/// The six currencies that the bank takes have their ISO numbers, and any other currency is refused
/// by its name.
pub proof fn currencies_have_their_iso_numbers(currency: Seq<char>)
    ensures
        numeric_code("AZN"@) == Some("944"@),
        numeric_code("USD"@) == Some("840"@),
        numeric_code("EUR"@) == Some("978"@),
        numeric_code("GBP"@) == Some("826"@),
        numeric_code("TRY"@) == Some("949"@),
        numeric_code("RUB"@) == Some("643"@),
        numeric_code(currency) is Some ==> currency == "AZN"@ || currency == "USD"@ || currency
            == "EUR"@ || currency == "GBP"@ || currency == "TRY"@ || currency == "RUB"@,
        numeric_code(currency) matches Some(code) ==> (currency_code(currency) matches Ok(sent)
            && sent == code),
        numeric_code(currency) is None ==> (currency_code(currency) matches Err(
            ConnectorErrorView::NotSupported { message, connector },
        ) && message == "Currency "@ + currency && connector == "atbbank"@),
{
    reveal_strlit("AZN");
    reveal_strlit("USD");
    reveal_strlit("EUR");
    reveal_strlit("GBP");
    reveal_strlit("TRY");
    reveal_strlit("RUB");
    assert("AZN"@[0] == 'A');
    assert("USD"@[0] == 'U');
    assert("EUR"@[0] == 'E');
    assert("GBP"@[0] == 'G');
    assert("TRY"@[0] == 'T');
    assert("RUB"@[0] == 'R');
}

/// A registration is made exactly for an account with a body key, a currency that the bank takes
/// and a return URL, whatever the capture method, the payment method and the rest. It has the
/// payment's own currency by its number, the payment's reference as order number, the amount in
/// decimal, the return URL for both ways back, and the language of the browser or English.
pub proof fn registrations_say_what_the_payment_is(payment: PaymentsAuthorizeRouterData)
    ensures
        authorize_form(payment) is Ok <==> payment.connector_auth_type is BodyKey && numeric_code(
            payment.request.currency.code@,
        ) is Some && payment.request.router_return_url is Some,
        authorize_form(payment) matches Ok(form) ==> form is Register,
        authorize_form(payment) matches Ok(FormView::Register(form)) ==> {
            &&& payment.connector_auth_type matches ConnectorAuthType::BodyKey { api_key, key1 }
                && form.user_name == api_key@ && form.password == key1@
            &&& form.order_number == payment.connector_request_reference_id@
            &&& form.amount == decimal(payment.request.minor_amount.0 as int)
            &&& Some(form.currency) == numeric_code(payment.request.currency.code@)
            &&& Some(form.return_url) == match payment.request.router_return_url {
                Some(url) => Some(url@),
                None => None,
            }
            &&& form.fail_url == form.return_url
            &&& form.language == match payment.request.browser_info {
                Some(info) => match info.language {
                    Some(language) => language@,
                    None => "en"@,
                },
                None => "en"@,
            }
        },
{
    currencies_have_their_iso_numbers(payment.request.currency.code@);
}

/// A registration is refused for the credentials first, then for the currency, then for want of a
/// return URL.
pub proof fn registrations_are_refused_in_order(payment: PaymentsAuthorizeRouterData)
    ensures
        authorize_form(payment) matches Err(error) ==> {
            if !(payment.connector_auth_type is BodyKey) {
                error == ConnectorErrorView::FailedToObtainAuthType
            } else if numeric_code(payment.request.currency.code@) is None {
                error matches ConnectorErrorView::NotSupported { message, connector } && message
                    == "Currency "@ + payment.request.currency.code@ && connector == "atbbank"@
            } else {
                error matches ConnectorErrorView::MissingRequiredField { field_name } && field_name
                    == "return_url"@
            }
        },
{
    currencies_have_their_iso_numbers(payment.request.currency.code@);
}

/// A registration takes the amount as it is given, and is otherwise the same for every amount.
pub proof fn registrations_take_the_amount_given(
    payment: PaymentsAuthorizeRouterData,
    amount: Seq<char>,
)
    ensures
        match (register_request(amount, payment), authorize_form(payment)) {
            (Ok(form), Ok(FormView::Register(sent))) => {
                &&& form.amount == amount
                &&& form.user_name == sent.user_name
                &&& form.password == sent.password
                &&& form.order_number == sent.order_number
                &&& form.currency == sent.currency
                &&& form.return_url == sent.return_url
                &&& form.fail_url == sent.fail_url
                &&& form.language == sent.language
            },
            (Err(error), Err(other)) => error == other,
            _ => false,
        },
{
}

/// A year of two decimal digits gets the century in front, and any other text is left alone; a
/// month of one decimal digit gets a zero in front, and any other text is left alone.
pub proof fn expiry_dates_are_completed(text: Seq<char>)
    ensures
        ({
            let year = four_digit_year(text);
            let month = two_digit_month(text);
            let first = text.len() > 0 && '0' <= text[0] <= '9';
            let second = text.len() > 1 && '0' <= text[1] <= '9';
            &&& text.len() == 2 && first && second ==> year == seq!['2', '0', text[0], text[1]]
            &&& !(text.len() == 2 && first && second) ==> year == text
            &&& text.len() == 1 && first ==> month == seq!['0', text[0]]
            &&& !(text.len() == 1 && first) ==> month == text
        }),
{
    reveal_strlit("20");
    reveal_strlit("0");
    if text.len() == 2 && '0' <= text[0] <= '9' && '0' <= text[1] <= '9' {
        assert(four_digit_year(text) =~= seq!['2', '0', text[0], text[1]]);
    }
    if text.len() == 1 && '0' <= text[0] <= '9' {
        assert(two_digit_month(text) =~= seq!['0', text[0]]);
    }
}

/// The form with a card has the number and the security code of that card, its expiry completed, and
/// its holder's name or an empty text, for every card; and the credentials, the order and the
/// language that are given.
pub proof fn card_forms_say_what_the_card_is(
    auth: Credentials,
    order_id: Seq<char>,
    card: CardView,
    language: Seq<char>,
)
    ensures
        ({
            let form = payment_order(auth, order_id, card, language);
            &&& form.pan == card.number
            &&& form.cvc == card.cvc
            &&& form.expiry_year == four_digit_year(card.exp_year)
            &&& form.expiry_month == two_digit_month(card.exp_month)
            &&& form.text == match card.holder {
                Some(holder) => holder,
                None => Seq::<char>::empty(),
            }
            &&& form.user_name == auth.user_name
            &&& form.password == auth.password
            &&& form.mdorder == order_id
            &&& form.language == language
        }),
{
}

/// A card that comes with a payment that is continued is submitted for the stored order, whatever
/// card is stored, with or without a holder's name.
pub proof fn given_cards_are_submitted(payment: PaymentsCompleteAuthorizeRouterData, card: Card)
    requires
        payment.request.payment_method_data == Some(PaymentMethodData::Card(card)),
    ensures
        payment_order_request(payment) is Ok <==> payment.connector_auth_type is BodyKey && (
        payment.request.connector_meta matches Some(Ok(_))),
        payment_order_request(payment) matches Ok(form) ==> {
            &&& payment.connector_auth_type matches ConnectorAuthType::BodyKey { api_key, key1 }
                && form.user_name == api_key@ && form.password == key1@
            &&& payment.request.connector_meta matches Some(Ok(meta)) && form.mdorder
                == meta.order_id@
            &&& form.pan == card.card_number@
            &&& form.cvc == card.card_cvc@
            &&& form.expiry_year == four_digit_year(card.card_exp_year@)
            &&& form.expiry_month == two_digit_month(card.card_exp_month@)
            &&& form.text == match card.card_holder_name {
                Some(name) => name@,
                None => Seq::<char>::empty(),
            }
            &&& form.language == "en"@
        },
{
}

/// Without a card of its own, a payment that is continued is submitted with the stored card,
/// exactly where that has a number, a security code and an expiry date; a holder's name is not
/// needed.
pub proof fn stored_cards_are_submitted(payment: PaymentsCompleteAuthorizeRouterData)
    requires
        !(payment.request.payment_method_data matches Some(PaymentMethodData::Card(_))),
    ensures
        payment_order_request(payment) is Ok <==> payment.connector_auth_type is BodyKey && (
        payment.request.connector_meta matches Some(Ok(meta)) && meta.card_number is Some
            && meta.card_cvc is Some && meta.card_exp_year is Some && meta.card_exp_month is Some),
        payment_order_request(payment) matches Ok(form) ==> {
            &&& payment.connector_auth_type matches ConnectorAuthType::BodyKey { api_key, key1 }
                && form.user_name == api_key@ && form.password == key1@
            &&& payment.request.connector_meta matches Some(Ok(meta)) && {
                &&& form.mdorder == meta.order_id@
                &&& form.pan == meta.card_number->0@
                &&& form.cvc == meta.card_cvc->0@
                &&& form.expiry_year == four_digit_year(meta.card_exp_year->0@)
                &&& form.expiry_month == two_digit_month(meta.card_exp_month->0@)
                &&& form.text == match meta.card_holder {
                    Some(holder) => holder@,
                    None => Seq::<char>::empty(),
                }
            }
            &&& form.language == "en"@
        },
{
}

/// A submission is refused for the credentials first, then for want of a stored record, then for a
/// record that cannot be read, and then for what the stored card lacks: the number, the security
/// code, the year, the month, in this order.
pub proof fn submissions_are_refused_in_order(payment: PaymentsCompleteAuthorizeRouterData)
    ensures
        payment_order_request(payment) matches Err(error) ==> {
            if !(payment.connector_auth_type is BodyKey) {
                error == ConnectorErrorView::FailedToObtainAuthType
            } else {
                match payment.request.connector_meta {
                    None => error == ConnectorErrorView::MissingRequiredField {
                        field_name: "connector_meta (AtbbankMeta)"@,
                    },
                    Some(Err(_)) => error == ConnectorErrorView::RequestEncodingFailed,
                    Some(Ok(meta)) => if meta.card_number is None {
                        error == ConnectorErrorView::MissingRequiredField {
                            field_name: "payment_method_data (Card) or card data in connector_meta"@,
                        }
                    } else if meta.card_cvc is None {
                        error == ConnectorErrorView::MissingRequiredField {
                            field_name: "card_cvc in connector_meta"@,
                        }
                    } else if meta.card_exp_year is None {
                        error == ConnectorErrorView::MissingRequiredField {
                            field_name: "card_exp_year in connector_meta"@,
                        }
                    } else {
                        error == ConnectorErrorView::MissingRequiredField {
                            field_name: "card_exp_month in connector_meta"@,
                        }
                    },
                }
            }
        },
{
}

/// A payment that is continued submits the 3DS transaction that its record names, whatever card
/// there is: the form has the account's credentials, the stored order and that transaction, and is
/// refused for the credentials alone.
pub proof fn named_transactions_are_submitted(payment: PaymentsCompleteAuthorizeRouterData)
    requires
        payment.request.connector_meta matches Some(Ok(meta)) && meta.three_ds_server_trans_id
            is Some,
    ensures
        match payment.connector_auth_type {
            ConnectorAuthType::BodyKey { api_key, key1 } => complete_authorize_form(
                payment,
            ) matches Ok(FormView::PaymentOrderStage2(form)) && {
                &&& form.user_name == api_key@
                &&& form.password == key1@
                &&& form.mdorder == payment.request.connector_meta->0->Ok_0.order_id@
                &&& form.three_ds_server_trans_id
                    == payment.request.connector_meta->0->Ok_0.three_ds_server_trans_id->0@
                &&& form.language == "en"@
            },
            _ => complete_authorize_form(payment) matches Err(error) && error
                == ConnectorErrorView::FailedToObtainAuthType,
        },
{
}

/// A payment that is continued submits a card where its record names no 3DS transaction, cannot be
/// read or is not there.
pub proof fn cards_are_submitted_otherwise(payment: PaymentsCompleteAuthorizeRouterData)
    requires
        !(payment.request.connector_meta matches Some(Ok(meta)) && meta.three_ds_server_trans_id
            is Some),
    ensures
        match (complete_authorize_form(payment), payment_order_request(payment)) {
            (Ok(FormView::PaymentOrder(form)), Ok(order)) => form == order,
            (Err(error), Err(other)) => error == other,
            _ => false,
        },
{
}

/// The status of a payment is asked for exactly with a body key and an identifier of the bank: the
/// form has the credentials and that identifier.
pub proof fn status_forms_ask_for_the_payment(payment: PaymentsSyncRouterData)
    ensures
        match (payment.connector_auth_type, payment.request.connector_transaction_id) {
            (
                ConnectorAuthType::BodyKey { api_key, key1 },
                ResponseId::ConnectorTransactionId(id),
            ) => {
                &&& payment_status_request(payment) matches Ok(form) && {
                    &&& form.user_name == api_key@
                    &&& form.password == key1@
                    &&& form.order_id == id@
                    &&& form.language == "en"@
                    &&& sync_form(payment) matches Ok(FormView::Status(sent)) && sent == form
                }
            },
            (ConnectorAuthType::BodyKey { .. }, _) => {
                &&& payment_status_request(payment) matches Err(error) && error
                    == ConnectorErrorView::MissingConnectorTransactionID
                &&& sync_form(payment) matches Err(other) && other
                    == ConnectorErrorView::MissingConnectorTransactionID
            },
            _ => {
                &&& payment_status_request(payment) matches Err(error) && error
                    == ConnectorErrorView::FailedToObtainAuthType
                &&& sync_form(payment) matches Err(other) && other
                    == ConnectorErrorView::FailedToObtainAuthType
            },
        },
{
}

/// The status of a refund is asked for exactly with a body key: the form has the credentials and the
/// identifier of the order that was refunded.
pub proof fn status_forms_ask_for_the_refund(refund: RefundSyncRouterData)
    ensures
        match refund.connector_auth_type {
            ConnectorAuthType::BodyKey { api_key, key1 } => {
                &&& refund_status_request(refund) matches Ok(form) && {
                    &&& form.user_name == api_key@
                    &&& form.password == key1@
                    &&& form.order_id == refund.request.connector_transaction_id@
                    &&& form.language == "en"@
                    &&& refund_sync_form(refund) matches Ok(FormView::Status(sent)) && sent == form
                }
            },
            _ => {
                &&& refund_status_request(refund) matches Err(error) && error
                    == ConnectorErrorView::FailedToObtainAuthType
                &&& refund_sync_form(refund) matches Err(other) && other
                    == ConnectorErrorView::FailedToObtainAuthType
            },
        },
{
}

/// A capture is asked for exactly with a body key: the form has the credentials, the payment's
/// identifier and the amount to capture in decimal.
pub proof fn capture_forms_say_what_is_captured(
    payment: PaymentsCaptureRouterData,
    amount: Seq<char>,
)
    ensures
        match payment.connector_auth_type {
            ConnectorAuthType::BodyKey { api_key, key1 } => {
                &&& capture_request(payment, amount) matches Ok(form) && {
                    &&& form.user_name == api_key@
                    &&& form.password == key1@
                    &&& form.order_id == payment.request.connector_transaction_id@
                    &&& form.amount == amount
                }
                &&& capture_form(payment) matches Ok(FormView::Capture(form)) && {
                    &&& form.user_name == api_key@
                    &&& form.password == key1@
                    &&& form.order_id == payment.request.connector_transaction_id@
                    &&& form.amount == decimal(payment.request.minor_amount_to_capture.0 as int)
                }
            },
            _ => {
                &&& capture_request(payment, amount) matches Err(error) && error
                    == ConnectorErrorView::FailedToObtainAuthType
                &&& capture_form(payment) matches Err(other) && other
                    == ConnectorErrorView::FailedToObtainAuthType
            },
        },
{
}

/// A reversal is asked for exactly with a body key: the form has the credentials and the payment's
/// identifier.
pub proof fn reverse_forms_say_what_is_reversed(payment: PaymentsCancelRouterData)
    ensures
        match payment.connector_auth_type {
            ConnectorAuthType::BodyKey { api_key, key1 } => {
                &&& reverse_request(payment) matches Ok(form) && {
                    &&& form.user_name == api_key@
                    &&& form.password == key1@
                    &&& form.order_id == payment.request.connector_transaction_id@
                    &&& void_form(payment) matches Ok(FormView::Reverse(sent)) && sent == form
                }
            },
            _ => {
                &&& reverse_request(payment) matches Err(error) && error
                    == ConnectorErrorView::FailedToObtainAuthType
                &&& void_form(payment) matches Err(other) && other
                    == ConnectorErrorView::FailedToObtainAuthType
            },
        },
{
}

/// A refund is asked for exactly with a body key: the form has the credentials, the identifier of
/// the order and the amount that is given.
pub proof fn refund_forms_say_what_is_refunded<F>(refund: RefundsRouterData<F>, amount: Seq<char>)
    ensures
        match refund.connector_auth_type {
            ConnectorAuthType::BodyKey { api_key, key1 } => {
                &&& refund_request(amount, refund) matches Ok(form) && {
                    &&& form.user_name == api_key@
                    &&& form.password == key1@
                    &&& form.order_id == refund.request.connector_transaction_id@
                    &&& form.amount == amount
                }
            },
            _ => refund_request(amount, refund) matches Err(error) && error
                == ConnectorErrorView::FailedToObtainAuthType,
        },
{
}

/// The amount of a refund's form is the amount to refund in decimal, and the rest of it is the
/// refund's.
pub proof fn refunds_are_asked_for_in_decimal(refund: RefundExecuteRouterData)
    ensures
        match refund.connector_auth_type {
            ConnectorAuthType::BodyKey { api_key, key1 } => refund_form(refund) matches Ok(
                FormView::Refund(form),
            ) && {
                &&& form.user_name == api_key@
                &&& form.password == key1@
                &&& form.order_id == refund.request.connector_transaction_id@
                &&& form.amount == decimal(refund.request.minor_refund_amount.0 as int)
            },
            _ => refund_form(refund) matches Err(error) && error
                == ConnectorErrorView::FailedToObtainAuthType,
        },
{
}

/// A form that is made is posted to the URL, with the content type of forms as the one header of its
/// own; a form that is refused gives that refusal and no request.
pub proof fn forms_are_posted(url: Seq<char>, form: Result<FormView, ConnectorErrorView>)
    ensures
        match form {
            Ok(made) => posted_if(url, form) matches Ok(Some(request)) && {
                &&& request.method == Method::Post
                &&& request.url == url
                &&& request.default_headers
                &&& request.headers == seq![
                    (
                        "Content-Type"@,
                        MaskableView::Normal("application/x-www-form-urlencoded"@),
                    ),
                ]
                &&& request.body == Some(made)
            },
            Err(error) => posted_if(url, form) matches Err(other) && other == error,
        },
        common_headers() == seq![
            ("Content-Type"@, MaskableView::Normal("application/x-www-form-urlencoded"@)),
        ],
        form_content_type() == "application/x-www-form-urlencoded"@,
{
}

/// A call's URL is the configured base with the call's path behind it. Orders are registered under
/// one path where the amount is captured by hand, and under the other in all other cases.
pub proof fn urls_have_the_configured_base(
    connectors: Connectors,
    path: Seq<char>,
    capture_method: Option<CaptureMethod>,
)
    ensures
        endpoint(connectors, path) == connectors.atbbank.base_url@ + path,
        capture_method == Some(CaptureMethod::Manual) ==> register_path(capture_method)
            == "rest/registerPreAuth.do"@,
        capture_method != Some(CaptureMethod::Manual) ==> register_path(capture_method)
            == "rest/register.do"@,
{
}

/// Each form is encoded under the gateway's names, in order, with the values that stand in it, and
/// with everything secret masked.
pub proof fn forms_are_encoded_under_the_gateways_names(form: FormView)
    ensures
        form.fields()[0].0 == "userName"@,
        form.fields()[1].0 == "password"@,
        match form {
            FormView::Register(f) => {
                &&& form.fields().len() == 8
                &&& form.fields()[0].1 == MaskableView::Masked(f.user_name)
                &&& form.fields()[1].1 == MaskableView::Masked(f.password)
                &&& form.fields()[2] == ("orderNumber"@, MaskableView::Normal(f.order_number))
                &&& form.fields()[3] == ("amount"@, MaskableView::Normal(f.amount))
                &&& form.fields()[4] == ("currency"@, MaskableView::Normal(f.currency))
                &&& form.fields()[5] == ("returnUrl"@, MaskableView::Normal(f.return_url))
                &&& form.fields()[6] == ("failUrl"@, MaskableView::Normal(f.fail_url))
                &&& form.fields()[7] == ("language"@, MaskableView::Normal(f.language))
            },
            FormView::PaymentOrder(f) => {
                &&& form.fields().len() == 9
                &&& form.fields()[0].1 == MaskableView::Masked(f.user_name)
                &&& form.fields()[1].1 == MaskableView::Masked(f.password)
                &&& form.fields()[2] == ("MDORDER"@, MaskableView::Normal(f.mdorder))
                &&& form.fields()[3] == ("$PAN"@, MaskableView::Masked(f.pan))
                &&& form.fields()[4] == ("$CVC"@, MaskableView::Masked(f.cvc))
                &&& form.fields()[5] == ("YYYY"@, MaskableView::Masked(f.expiry_year))
                &&& form.fields()[6] == ("MM"@, MaskableView::Masked(f.expiry_month))
                &&& form.fields()[7] == ("TEXT"@, MaskableView::Normal(f.text))
                &&& form.fields()[8] == ("language"@, MaskableView::Normal(f.language))
            },
            FormView::PaymentOrderStage2(f) => {
                &&& form.fields().len() == 5
                &&& form.fields()[0].1 == MaskableView::Masked(f.user_name)
                &&& form.fields()[1].1 == MaskableView::Masked(f.password)
                &&& form.fields()[2] == ("MDORDER"@, MaskableView::Normal(f.mdorder))
                &&& form.fields()[3] == (
                    "threeDSServerTransId"@,
                    MaskableView::Normal(f.three_ds_server_trans_id),
                )
                &&& form.fields()[4] == ("language"@, MaskableView::Normal(f.language))
            },
            FormView::Status(f) => {
                &&& form.fields().len() == 4
                &&& form.fields()[0].1 == MaskableView::Masked(f.user_name)
                &&& form.fields()[1].1 == MaskableView::Masked(f.password)
                &&& form.fields()[2] == ("orderId"@, MaskableView::Normal(f.order_id))
                &&& form.fields()[3] == ("language"@, MaskableView::Normal(f.language))
            },
            FormView::Capture(f) => {
                &&& form.fields().len() == 4
                &&& form.fields()[0].1 == MaskableView::Masked(f.user_name)
                &&& form.fields()[1].1 == MaskableView::Masked(f.password)
                &&& form.fields()[2] == ("orderId"@, MaskableView::Normal(f.order_id))
                &&& form.fields()[3] == ("amount"@, MaskableView::Normal(f.amount))
            },
            FormView::Reverse(f) => {
                &&& form.fields().len() == 3
                &&& form.fields()[0].1 == MaskableView::Masked(f.user_name)
                &&& form.fields()[1].1 == MaskableView::Masked(f.password)
                &&& form.fields()[2] == ("orderId"@, MaskableView::Normal(f.order_id))
            },
            FormView::Refund(f) => {
                &&& form.fields().len() == 4
                &&& form.fields()[0].1 == MaskableView::Masked(f.user_name)
                &&& form.fields()[1].1 == MaskableView::Masked(f.password)
                &&& form.fields()[2] == ("orderId"@, MaskableView::Normal(f.order_id))
                &&& form.fields()[3] == ("amount"@, MaskableView::Normal(f.amount))
            },
        },
{
}

} // verus!
