//! That values say what they hold, and how numbers are written.
use vstd::prelude::*;

use crate::connector::request::{
    entries_view, request_view, AtbbankForm, FormEntry, FormView, Request, RequestContent,
};
use crate::connector::specifications::{
    supported_card, CardNetwork, FeatureStatus, PaymentMethod, PaymentMethodType,
    SupportedPaymentMethod,
};
use crate::decimal::{decimal, lemma_digits_value};
use crate::domain::amount::StringMinorUnit;
use crate::domain::enums::{AttemptStatus, CaptureMethod, Currency};
use crate::domain::http::{headers_view, Header, Maskable, MaskableView, Method};
use crate::domain::payment_method::{Card, CardView, PaymentMethodData};
use crate::domain::request_types::{PaymentsAuthorizeData, RefundsData};
use crate::domain::response_types::{
    ErrorResponse, ErrorResponseView, PaymentsResponseData, RedirectForm, RedirectFormView,
    RefundsResponseData, ResponseId, ResponseIdView, TransactionView,
};
use crate::domain::router_data::RouterData;
use crate::errors::{missing, ConnectorError, ConnectorErrorView};
use crate::transformers::auth::AtbbankAuthType;
use crate::transformers::capture::AtbbankCaptureRequest;
use crate::transformers::meta::{
    AtbbankMeta, ConnectorMetadata, ConnectorMetadataView, MetaView, OrderStatusMetadata,
    OrderStatusMetadataView,
};
use crate::transformers::payment_order::{
    AtbbankPaymentOrderRequest, AtbbankPaymentOrderStage2Request,
};
use crate::transformers::record::{record_view, RecordEntry, RecordValue, RecordValueView};
use crate::transformers::refund::AtbbankRefundRequest;
use crate::transformers::register::AtbbankRegisterRequest;
use crate::transformers::reverse::AtbbankReverseRequest;
use crate::transformers::status::AtbbankStatusRequest;
use crate::views::{opt_view, or_empty, result_view};

verus! {

/// Numbers are written in decimal: a digit by its character, a larger number by the numeral of its
/// tens with the character of its last digit behind it, and a negative one by a minus sign in
/// front of the numeral without it.
pub proof fn numbers_are_written_in_decimal(n: int)
    ensures
        0 <= n < 10 ==> decimal(n).len() == 1 && decimal(n)[0] as int == '0' as int + n,
        n >= 10 ==> {
            &&& decimal(n).len() == decimal(n / 10).len() + 1
            &&& decimal(n).drop_last() == decimal(n / 10)
            &&& decimal(n).last() as int == '0' as int + n % 10
        },
        n < 0 ==> decimal(n) == seq!['-'] + decimal(-n),
{
    if n >= 10 {
        assert(decimal(n).drop_last() =~= decimal(n / 10));
    }
}

/// The numeral of a number that is not negative is made of decimal digits, without a zero in front
/// of other digits.
pub proof fn numerals_are_digits(n: nat)
    ensures
        decimal(n as int).len() >= 1,
        forall|i: int|
            0 <= i < decimal(n as int).len() ==> '0' <= #[trigger] decimal(n as int)[i] <= '9',
        decimal(n as int)[0] == '0' ==> n == 0,
    decreases n,
{
    lemma_digits_value(n);
    if n >= 10 {
        numerals_are_digits(n / 10);
    }
}

/// A value that may be missing is seen as missing exactly where it is, and as what it is otherwise.
pub proof fn missing_values_are_seen_as_missing<T: View, E: View>(
    value: Option<T>,
    result: Result<T, E>,
    text: Option<Seq<char>>,
)
    ensures
        match value {
            Some(inner) => opt_view(value) == Some(inner@),
            None => opt_view(value) is None,
        },
        match result {
            Ok(inner) => result_view(result) matches Ok(seen) && seen == inner@,
            Err(error) => result_view(result) matches Err(seen) && seen == error@,
        },
        match text {
            Some(known) => or_empty(text) == known,
            None => or_empty(text).len() == 0,
        },
{
}

/// An error says which it is, and its own texts.
pub proof fn errors_say_what_they_hold(error: ConnectorError, field: Seq<char>)
    ensures
        match error {
            ConnectorError::FailedToObtainAuthType => error@ is FailedToObtainAuthType,
            ConnectorError::NotSupported { message, connector } => error@ matches
                ConnectorErrorView::NotSupported { message: m, connector: c } && m == message@ && c
                == connector@,
            ConnectorError::NotImplemented(what) => error@ matches
                ConnectorErrorView::NotImplemented(w) && w == what@,
            ConnectorError::MissingRequiredField { field_name } => error@ matches
                ConnectorErrorView::MissingRequiredField { field_name: f } && f == field_name@,
            ConnectorError::MissingConnectorTransactionID => error@
                is MissingConnectorTransactionID,
            ConnectorError::RequestEncodingFailed => error@ is RequestEncodingFailed,
            ConnectorError::ResponseDeserializationFailed => error@
                is ResponseDeserializationFailed,
            ConnectorError::WebhooksNotImplemented => error@ is WebhooksNotImplemented,
        },
        missing(field) matches ConnectorErrorView::MissingRequiredField { field_name } && field_name
            == field,
{
}

/// Amounts, currencies and credentials say the texts that they hold.
pub proof fn small_values_say_what_they_hold(
    amount: StringMinorUnit,
    currency: Currency,
    auth: AtbbankAuthType,
    value: Maskable,
    id: ResponseId,
)
    ensures
        amount@ == amount.0@,
        currency@ == currency.code@,
        auth@.user_name == auth.user_name@,
        auth@.password == auth.password@,
        match value {
            Maskable::Masked(secret) => value@ == MaskableView::Masked(secret@),
            Maskable::Normal(text) => value@ == MaskableView::Normal(text@),
        },
        match id {
            ResponseId::ConnectorTransactionId(text) => id@
                == ResponseIdView::ConnectorTransactionId(text@),
            ResponseId::EncodedData(text) => id@ == ResponseIdView::EncodedData(text@),
            ResponseId::NoResponseId => id@ == ResponseIdView::NoResponseId,
        },
{
}

/// A card says its number, its security code, its expiry date and its holder's name; a payment
/// method has a card exactly where it is one.
pub proof fn cards_say_what_they_hold(card: Card, method: PaymentMethodData)
    ensures
        card@.number == card.card_number@,
        card@.cvc == card.card_cvc@,
        card@.exp_month == card.card_exp_month@,
        card@.exp_year == card.card_exp_year@,
        match card.card_holder_name {
            Some(name) => card@.holder == Some(name@),
            None => card@.holder is None,
        },
        match method {
            PaymentMethodData::Card(own) => method.card() == Some(own@),
            PaymentMethodData::Other => method.card() is None,
        },
{
}

/// The language of a browser is known exactly where its information names one.
pub proof fn languages_are_known_where_named(request: PaymentsAuthorizeData)
    ensures
        match request.browser_info {
            Some(info) => match info.language {
                Some(language) => request.browser_language() == Some(language@),
                None => request.browser_language() is None,
            },
            None => request.browser_language() is None,
        },
{
}

/// The forms say what they hold, field by field.
pub proof fn forms_say_what_they_hold(
    register: AtbbankRegisterRequest,
    order: AtbbankPaymentOrderRequest,
    second: AtbbankPaymentOrderStage2Request,
    status: AtbbankStatusRequest,
    capture: AtbbankCaptureRequest,
    reverse: AtbbankReverseRequest,
    refund: AtbbankRefundRequest,
)
    ensures
        register@.user_name == register.user_name@,
        register@.password == register.password@,
        register@.order_number == register.order_number@,
        register@.amount == register.amount@,
        register@.currency == register.currency@,
        register@.return_url == register.return_url@,
        register@.fail_url == register.fail_url@,
        register@.language == register.language@,
        order@.user_name == order.user_name@,
        order@.password == order.password@,
        order@.mdorder == order.mdorder@,
        order@.pan == order.pan@,
        order@.cvc == order.cvc@,
        order@.expiry_year == order.expiry_year@,
        order@.expiry_month == order.expiry_month@,
        order@.text == order.text@,
        order@.language == order.language@,
        second@.user_name == second.user_name@,
        second@.password == second.password@,
        second@.mdorder == second.mdorder@,
        second@.three_ds_server_trans_id == second.three_ds_server_trans_id@,
        second@.language == second.language@,
        status@.user_name == status.user_name@,
        status@.password == status.password@,
        status@.order_id == status.order_id@,
        status@.language == status.language@,
        capture@.user_name == capture.user_name@,
        capture@.password == capture.password@,
        capture@.order_id == capture.order_id@,
        capture@.amount == capture.amount@,
        reverse@.user_name == reverse.user_name@,
        reverse@.password == reverse.password@,
        reverse@.order_id == reverse.order_id@,
        refund@.user_name == refund.user_name@,
        refund@.password == refund.password@,
        refund@.order_id == refund.order_id@,
        refund@.amount == refund.amount@,
{
}

/// A request says what it holds: its method, its URL, its headers one by one, and its form, which
/// is of the kind that it is.
pub proof fn requests_say_what_they_hold(
    request: Request,
    form: AtbbankForm,
    result: Result<Option<Request>, ConnectorError>,
)
    ensures
        request@.method == request.method,
        request@.url == request.url@,
        request@.default_headers == request.default_headers,
        request@.headers == headers_view(request.headers@),
        match request.body {
            Some(RequestContent::FormUrlEncoded(body)) => request@.body == Some(body@),
            None => request@.body is None,
        },
        RequestContent::FormUrlEncoded(form)@ == form@,
        match form {
            AtbbankForm::Register(own) => form@ == FormView::Register(own@),
            AtbbankForm::PaymentOrder(own) => form@ == FormView::PaymentOrder(own@),
            AtbbankForm::PaymentOrderStage2(own) => form@ == FormView::PaymentOrderStage2(own@),
            AtbbankForm::Status(own) => form@ == FormView::Status(own@),
            AtbbankForm::Capture(own) => form@ == FormView::Capture(own@),
            AtbbankForm::Reverse(own) => form@ == FormView::Reverse(own@),
            AtbbankForm::Refund(own) => form@ == FormView::Refund(own@),
        },
        match result {
            Ok(Some(made)) => request_view(result) matches Ok(Some(seen)) && seen == made@,
            Ok(None) => request_view(result) matches Ok(None),
            Err(error) => request_view(result) matches Err(seen) && seen == error@,
        },
{
}

/// Headers, form fields and the entries of a record are seen one by one, by name and value.
pub proof fn lists_are_seen_one_by_one(
    headers: Seq<Header>,
    fields: Seq<FormEntry>,
    entries: Seq<RecordEntry>,
)
    ensures
        headers_view(headers).len() == headers.len(),
        forall|i: int|
            0 <= i < headers.len() ==> #[trigger] headers_view(headers)[i] == (
                headers[i].name@,
                headers[i].value@,
            ),
        entries_view(fields).len() == fields.len(),
        forall|i: int|
            0 <= i < fields.len() ==> #[trigger] entries_view(fields)[i] == (
                fields[i].name@,
                fields[i].value@,
            ),
        record_view(entries).len() == entries.len(),
        forall|i: int|
            0 <= i < entries.len() ==> #[trigger] record_view(entries)[i] == (
                entries[i].key@,
                entries[i].value@,
            ),
{
}

/// A redirect says where it leads, how, and with which fields, one by one; a visit is a plain one.
pub proof fn redirects_say_what_they_hold(form: RedirectForm, endpoint: Seq<char>)
    ensures
        form@.endpoint == form.endpoint@,
        form@.method == form.method,
        form@.form_fields.len() == form.form_fields@.len(),
        forall|i: int|
            0 <= i < form.form_fields@.len() ==> #[trigger] form@.form_fields[i] == (
                form.form_fields@[i].name@,
                form.form_fields@[i].value@,
            ),
        RedirectFormView::visit(endpoint).endpoint == endpoint,
        RedirectFormView::visit(endpoint).method == Method::Get,
        RedirectFormView::visit(endpoint).form_fields.len() == 0,
{
}

/// A response to a payment says what it holds, field by field.
pub proof fn responses_say_what_they_hold(response: PaymentsResponseData, id: ResponseIdView)
    ensures
        match response {
            PaymentsResponseData::TransactionResponse {
                resource_id,
                redirection_data,
                mandate_reference,
                connector_metadata,
                network_txn_id,
                connector_response_reference_id,
                incremental_authorization_allowed,
                authentication_data,
                charges,
            } => {
                &&& response@.resource_id == resource_id@
                &&& response@.redirection_data == opt_view(redirection_data)
                &&& response@.mandate_reference == opt_view(mandate_reference)
                &&& response@.connector_metadata == opt_view(connector_metadata)
                &&& response@.network_txn_id == opt_view(network_txn_id)
                &&& response@.connector_response_reference_id == opt_view(
                    connector_response_reference_id,
                )
                &&& response@.incremental_authorization_allowed
                    == incremental_authorization_allowed
                &&& response@.authentication_data == opt_view(authentication_data)
                &&& response@.charges == opt_view(charges)
            },
        },
        TransactionView::plain(id).resource_id == id,
        TransactionView::plain(id).redirection_data is None,
        TransactionView::plain(id).mandate_reference is None,
        TransactionView::plain(id).connector_metadata is None,
        TransactionView::plain(id).network_txn_id is None,
        TransactionView::plain(id).connector_response_reference_id is None,
        TransactionView::plain(id).incremental_authorization_allowed is None,
        TransactionView::plain(id).authentication_data is None,
        TransactionView::plain(id).charges is None,
{
}

/// A response to a refund and a refusal say what they hold, field by field; a plain refusal has its
/// message as the reason too, and nothing beyond its code and its statuses.
pub proof fn refunds_and_refusals_say_what_they_hold(
    refund: RefundsResponseData,
    error: ErrorResponse,
    code: Seq<char>,
    message: Seq<char>,
    status_code: u16,
    attempt_status: Option<AttemptStatus>,
)
    ensures
        refund@.connector_refund_id == refund.connector_refund_id@,
        refund@.refund_status == refund.refund_status,
        error@.code == error.code@,
        error@.message == error.message@,
        error@.reason == opt_view(error.reason),
        error@.status_code == error.status_code,
        error@.attempt_status == error.attempt_status,
        error@.connector_transaction_id == opt_view(error.connector_transaction_id),
        error@.connector_response_reference_id == opt_view(error.connector_response_reference_id),
        error@.network_advice_code == opt_view(error.network_advice_code),
        error@.network_decline_code == opt_view(error.network_decline_code),
        error@.network_error_message == opt_view(error.network_error_message),
        error@.connector_metadata == opt_view(error.connector_metadata),
        ({
            let plain = ErrorResponseView::plain(code, message, status_code, attempt_status);
            &&& plain.code == code
            &&& plain.message == message
            &&& plain.reason == Some(message)
            &&& plain.status_code == status_code
            &&& plain.attempt_status == attempt_status
            &&& plain.connector_transaction_id is None
            &&& plain.connector_response_reference_id is None
            &&& plain.network_advice_code is None
            &&& plain.network_decline_code is None
            &&& plain.network_error_message is None
            &&& plain.connector_metadata is None
        }),
{
}

/// What an answer made of a payment or a refund is read off its status and its response, and two of
/// them are the same payment only where the credentials, the reference and the request are.
pub proof fn outcomes_are_read_off_the_payment<F, T>(
    payment: RouterData<F, T, PaymentsResponseData>,
    other: RouterData<F, T, PaymentsResponseData>,
    refund: RouterData<F, RefundsData, RefundsResponseData>,
    other_refund: RouterData<F, RefundsData, RefundsResponseData>,
)
    ensures
        payment.outcome().status == payment.status,
        match payment.response {
            Ok(response) => payment.outcome().response matches Ok(seen) && seen == response@,
            Err(error) => payment.outcome().response matches Err(seen) && seen == error@,
        },
        match refund.response {
            Ok(response) => refund.refund() matches Ok(seen) && seen == response@,
            Err(error) => refund.refund() matches Err(seen) && seen == error@,
        },
        payment.same_payment(other) ==> payment.connector_auth_type == other.connector_auth_type
            && payment.connector_request_reference_id == other.connector_request_reference_id
            && payment.request == other.request,
        refund.same_payment(other_refund) ==> refund.connector_auth_type
            == other_refund.connector_auth_type && refund.connector_request_reference_id
            == other_refund.connector_request_reference_id && refund.request
            == other_refund.request,
{
}

/// The records say what they hold, field by field, and of the kind that they are.
pub proof fn records_say_what_they_hold(
    meta: AtbbankMeta,
    details: OrderStatusMetadata,
    metadata: ConnectorMetadata,
)
    ensures
        meta@.order_id == meta.order_id@,
        meta@.card_number == opt_view(meta.card_number),
        meta@.card_cvc == opt_view(meta.card_cvc),
        meta@.card_exp_month == opt_view(meta.card_exp_month),
        meta@.card_exp_year == opt_view(meta.card_exp_year),
        meta@.card_holder == opt_view(meta.card_holder),
        meta@.three_ds_server_trans_id == opt_view(meta.three_ds_server_trans_id),
        details@.action_code == details.action_code,
        details@.action_code_description == opt_view(details.action_code_description),
        details@.approval_code == opt_view(details.approval_code),
        details@.auth_code == opt_view(details.auth_code),
        details@.deposit_amount == details.deposit_amount,
        details@.refunded_amount == details.refunded_amount,
        match metadata {
            ConnectorMetadata::Order(own) => metadata@ == ConnectorMetadataView::Order(own@),
            ConnectorMetadata::OrderStatus(own) => metadata@ == ConnectorMetadataView::OrderStatus(
                own@,
            ),
        },
{
}

/// An order's record starts with the order alone; saving a card fills in that card and keeps the
/// order and the 3DS transaction; finishing the first stage keeps the order, notes the 3DS
/// transaction and forgets the card.
pub proof fn records_change_as_they_should(
    meta: MetaView,
    card: CardView,
    text: Seq<char>,
    metadata: ConnectorMetadataView,
)
    ensures
        ({
            let bare = MetaView::order(text);
            &&& bare.order_id == text
            &&& bare.card_number is None
            &&& bare.card_cvc is None
            &&& bare.card_exp_month is None
            &&& bare.card_exp_year is None
            &&& bare.card_holder is None
            &&& bare.three_ds_server_trans_id is None
        }),
        ({
            let saved = meta.with_card(card);
            &&& saved.order_id == meta.order_id
            &&& saved.card_number == Some(card.number)
            &&& saved.card_cvc == Some(card.cvc)
            &&& saved.card_exp_month == Some(card.exp_month)
            &&& saved.card_exp_year == Some(card.exp_year)
            &&& saved.card_holder == card.holder
            &&& saved.three_ds_server_trans_id == meta.three_ds_server_trans_id
        }),
        ({
            let finished = meta.after_first_stage(text);
            &&& finished.order_id == meta.order_id
            &&& finished.card_number is None
            &&& finished.card_cvc is None
            &&& finished.card_exp_month is None
            &&& finished.card_exp_year is None
            &&& finished.card_holder is None
            &&& finished.three_ds_server_trans_id == Some(text)
        }),
        match metadata {
            ConnectorMetadataView::Order(own) => metadata.three_ds_server_trans_id()
                == own.three_ds_server_trans_id,
            ConnectorMetadataView::OrderStatus(_) => metadata.three_ds_server_trans_id() is None,
        },
{
}

/// A value in a record is of the kind that it is; the record of a status call has each detail under
/// its own key, or null there; and a record is stored with the entries of its kind.
pub proof fn stored_details_keep_their_keys(
    value: RecordValue,
    details: OrderStatusMetadataView,
    meta: MetaView,
)
    ensures
        match value {
            RecordValue::Text(text) => value@ == RecordValueView::Text(text@),
            RecordValue::Hidden(text) => value@ == RecordValueView::Hidden(text@),
            RecordValue::Integer(number) => value@ == RecordValueView::Integer(number as int),
            RecordValue::Null => value@ == RecordValueView::Null,
        },
        details.entries().len() == 6,
        details.entries()[0] == (
            "action_code"@,
            match details.action_code {
                Some(code) => RecordValueView::Integer(code as int),
                None => RecordValueView::Null,
            },
        ),
        details.entries()[1] == (
            "action_code_description"@,
            match details.action_code_description {
                Some(text) => RecordValueView::Text(text),
                None => RecordValueView::Null,
            },
        ),
        details.entries()[2] == (
            "approval_code"@,
            match details.approval_code {
                Some(text) => RecordValueView::Text(text),
                None => RecordValueView::Null,
            },
        ),
        details.entries()[3] == (
            "auth_code"@,
            match details.auth_code {
                Some(text) => RecordValueView::Text(text),
                None => RecordValueView::Null,
            },
        ),
        details.entries()[4] == (
            "deposit_amount"@,
            match details.deposit_amount {
                Some(amount) => RecordValueView::Integer(amount as int),
                None => RecordValueView::Null,
            },
        ),
        details.entries()[5] == (
            "refunded_amount"@,
            match details.refunded_amount {
                Some(amount) => RecordValueView::Integer(amount as int),
                None => RecordValueView::Null,
            },
        ),
        ConnectorMetadataView::Order(meta).entries() == meta.entries(),
        ConnectorMetadataView::OrderStatus(details).entries() == details.entries(),
{
}

/// An order's record has one entry for the order and one for each other thing that is known.
pub proof fn order_records_have_one_entry_for_each_thing(meta: MetaView)
    ensures
        meta.entries().len() == 1 + (if meta.card_number is Some {
            1int
        } else {
            0
        }) + (if meta.card_cvc is Some {
            1int
        } else {
            0
        }) + (if meta.card_exp_month is Some {
            1int
        } else {
            0
        }) + (if meta.card_exp_year is Some {
            1int
        } else {
            0
        }) + (if meta.card_holder is Some {
            1int
        } else {
            0
        }) + (if meta.three_ds_server_trans_id is Some {
            1int
        } else {
            0
        }),
{
}

/// Both types of cards are offered alike: of both networks, captured at once or by hand, with 3DS or
/// without, with refunds and without mandates. A method says what it holds.
pub proof fn cards_are_offered_alike(
    payment_method_type: PaymentMethodType,
    method: SupportedPaymentMethod,
)
    ensures
        ({
            let offered = supported_card(payment_method_type);
            &&& offered.payment_method == PaymentMethod::Card
            &&& offered.payment_method_type == payment_method_type
            &&& offered.mandates == FeatureStatus::NotSupported
            &&& offered.refunds == FeatureStatus::Supported
            &&& offered.supported_capture_methods == seq![
                CaptureMethod::Automatic,
                CaptureMethod::Manual,
            ]
            &&& offered.card_features matches Some(features) && {
                &&& features.three_ds == FeatureStatus::Supported
                &&& features.no_three_ds == FeatureStatus::Supported
                &&& features.supported_card_networks == seq![
                    CardNetwork::Visa,
                    CardNetwork::Mastercard,
                ]
            }
        }),
        method@.payment_method == method.payment_method,
        method@.payment_method_type == method.payment_method_type,
        method@.mandates == method.details.mandates,
        method@.refunds == method.details.refunds,
        method@.supported_capture_methods == method.details.supported_capture_methods@,
        match method.details.specific_features {
            Some(features) => method@.card_features matches Some(seen) && {
                &&& seen.three_ds == features.three_ds
                &&& seen.no_three_ds == features.no_three_ds
                &&& seen.supported_card_networks == features.supported_card_networks@
            },
            None => method@.card_features is None,
        },
{
}

} // verus!
