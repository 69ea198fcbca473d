//! What holds across the flows of a payment.
pub mod answers;
pub mod flows;
pub mod forms;
pub mod statuses;
pub mod values;

use vstd::prelude::*;

use crate::connector::authorize::{authorize_form, authorize_outcome, register_path};
use crate::connector::capture::capture_form;
use crate::connector::common::error_outcome;
use crate::connector::complete_authorize::{
    complete_authorize_form, complete_authorize_outcome, first_stage, led_to_second_stage,
    pending_three_ds,
};
use crate::connector::refund::{refund_form, refund_sync_form};
use crate::connector::request::{field_names, FormView};
use crate::connector::sync::sync_form;
use crate::connector::void::void_form;
use crate::decimal::decimal_is_injective;
use crate::domain::enums::{AttemptStatus, CaptureMethod, RefundStatus};
use crate::domain::http::{MaskableView, Response};
use crate::domain::payment_method::{CardView, PaymentMethodData};
use crate::domain::request_types::{CompleteAuthorizeData, PaymentsAuthorizeData};
use crate::domain::response_types::{RedirectFormView, ResponseIdView, TransactionView};
use crate::domain::router_data::{
    ConnectorAuthType, PaymentsAuthorizeRouterData, PaymentsCancelRouterData,
    PaymentsCaptureRouterData, PaymentsCompleteAuthorizeRouterData, PaymentsSyncRouterData,
    RefundExecuteRouterData, RefundSyncRouterData,
};
use crate::errors::ConnectorErrorView;
use crate::transformers::auth::{credentials, Credentials};
use crate::transformers::capture::{capture_outcome, AtbbankCaptureResponse};
use crate::transformers::currency::numeric_code;
use crate::transformers::error_response::AtbbankErrorResponse;
use crate::transformers::meta::{ConnectorMetadataView, MetaView, OrderStatusMetadataView};
use crate::transformers::payment_order::{
    all_digits, payment_order, payment_order_request, Stage2RequestView,
};
use crate::transformers::payments_response::{
    code_or_zero, payments_outcome, AtbbankPaymentOrderResponse,
    AtbbankPaymentsResponse, AtbbankRegisterResponse,
};
use crate::transformers::record::{hidden_if_known, text_if_known, RecordValueView};
use crate::transformers::refund::{refund_outcome, refund_sync_status, AtbbankRefundResponse};
use crate::transformers::reverse::reverse_outcome;
use crate::transformers::status::{
    attempt_status, status_outcome, AtbbankOrderStatus, AtbbankOrderStatusResponse,
};
use crate::views::{opt_view, or_empty};

verus! {

/// The card of an authorized payment reaches the bank in the step that follows, although that
/// step brings no card: from the record that the register answer led to, as it is read back, the
/// form with that card is made for the registered order.
pub proof fn authorized_card_is_submitted(
    authorize: PaymentsAuthorizeRouterData,
    answer: AtbbankRegisterResponse,
    http_code: u16,
    complete: PaymentsCompleteAuthorizeRouterData,
)
    requires
        authorize.request.payment_method_data is Card,
        code_or_zero(answer.error_code) == 0,
        credentials(complete.connector_auth_type) is Ok,
        complete.request.payment_method_data matches Some(method) ==> !(method is Card),
        complete.request.connector_meta matches Some(Ok(meta)) && Some(
            ConnectorMetadataView::Order(meta@),
        ) == authorize_outcome(
            AtbbankPaymentsResponse::Register(answer),
            http_code,
            authorize.request,
        ).response->Ok_0.connector_metadata,
    ensures
        complete_authorize_form(complete) == Ok::<FormView, ConnectorErrorView>(
            FormView::PaymentOrder(
                payment_order(
                    credentials(complete.connector_auth_type)->Ok_0,
                    or_empty(opt_view(answer.order_id)),
                    authorize.request.payment_method_data->Card_0@,
                    "en"@,
                ),
            ),
        ),
{
}

/// A card that comes with the step that continues a payment goes before a stored one: the form
/// is the same whatever card the record holds.
pub proof fn given_card_goes_before_stored_card(
    a: PaymentsCompleteAuthorizeRouterData,
    b: PaymentsCompleteAuthorizeRouterData,
)
    requires
        a.request.payment_method_data matches Some(PaymentMethodData::Card(_)),
        a.request.payment_method_data == b.request.payment_method_data,
        a.connector_auth_type == b.connector_auth_type,
        a.request.connector_meta matches Some(Ok(meta_a)) && b.request.connector_meta matches Some(
            Ok(meta_b),
        ) && meta_a@.order_id == meta_b@.order_id && meta_a@.three_ds_server_trans_id
            == meta_b@.three_ds_server_trans_id,
    ensures
        complete_authorize_form(a) == complete_authorize_form(b),
{
}

/// A payment that is not made with a card leaves no card data in the record.
pub proof fn no_card_is_stored_without_a_card(
    request: PaymentsAuthorizeData,
    answer: AtbbankPaymentsResponse,
    http_code: u16,
)
    requires
        !(request.payment_method_data is Card),
    ensures
        authorize_outcome(answer, http_code, request).response matches Ok(transaction) ==> (
        transaction.connector_metadata matches Some(ConnectorMetadataView::Order(meta))
            ==> meta.has_no_card_data()),
{
}

/// The identifier of a registered order becomes the payment's and stands in the record, and the
/// form of each later flow carries the identifier that this flow is given: the record's where the
/// payment is continued, and the payment's or refund's own elsewhere.
pub proof fn later_calls_are_about_the_registered_order(
    request: PaymentsAuthorizeData,
    answer: AtbbankRegisterResponse,
    http_code: u16,
    complete: PaymentsCompleteAuthorizeRouterData,
    sync: PaymentsSyncRouterData,
    capture: PaymentsCaptureRouterData,
    void: PaymentsCancelRouterData,
    refund: RefundExecuteRouterData,
    refund_sync: RefundSyncRouterData,
)
    requires
        code_or_zero(answer.error_code) == 0,
    ensures
        ({
            let id = or_empty(opt_view(answer.order_id));
            let outcome = authorize_outcome(
                AtbbankPaymentsResponse::Register(answer),
                http_code,
                request,
            );
            &&& outcome.response matches Ok(transaction) && {
                &&& transaction.resource_id == ResponseIdView::ConnectorTransactionId(id)
                &&& transaction.connector_metadata matches Some(ConnectorMetadataView::Order(meta))
                    && meta.order_id == id
            }
        }),
        complete_authorize_form(complete) matches Ok(form) ==> (
        complete.request.connector_meta matches Some(Ok(meta)) && form.order_id() == Some(
            meta@.order_id,
        )),
        sync_form(sync) matches Ok(form) ==> (sync.request.connector_transaction_id@
            == ResponseIdView::ConnectorTransactionId(form.order_id()->0) && form.order_id() is Some),
        capture_form(capture) matches Ok(form) ==> form.order_id() == Some(
            capture.request.connector_transaction_id@,
        ),
        void_form(void) matches Ok(form) ==> form.order_id() == Some(
            void.request.connector_transaction_id@,
        ),
        refund_form(refund) matches Ok(form) ==> form.order_id() == Some(
            refund.request.connector_transaction_id@,
        ),
        refund_sync_form(refund_sync) matches Ok(form) ==> form.order_id() == Some(
            refund_sync.request.connector_transaction_id@,
        ),
{
}

/// A status call that is taken gives the payment the order's number as its identifier and as its
/// reference, whatever identifier it had. Calls made with that identifier are then about it.
pub proof fn status_calls_name_the_order_number(
    answer: AtbbankOrderStatusResponse,
    http_code: u16,
)
    requires
        answer.error() is None,
    ensures
        status_outcome(answer, http_code).response matches Ok(transaction) && {
            &&& transaction.resource_id == ResponseIdView::ConnectorTransactionId(
                or_empty(opt_view(answer.order_number)),
            )
            &&& transaction.connector_response_reference_id == opt_view(answer.order_number)
        },
{
}

/// The form with a card has the gateway's names and no others, with a dollar sign in front of the
/// card number's and the security code's alone. It is made exactly where the card can be
/// submitted, and the refusal of that is the flow's, unless the record names a 3DS transaction.
pub proof fn card_form_has_the_gateways_names(payment: PaymentsCompleteAuthorizeRouterData)
    requires
        pending_three_ds(payment.request) is None,
    ensures
        match payment_order_request(payment) {
            Ok(order) => {
                let names = field_names(FormView::PaymentOrder(order).fields());
                &&& complete_authorize_form(payment) == Ok::<FormView, ConnectorErrorView>(
                    FormView::PaymentOrder(order),
                )
                &&& names == seq![
                    "userName"@,
                    "password"@,
                    "MDORDER"@,
                    "$PAN"@,
                    "$CVC"@,
                    "YYYY"@,
                    "MM"@,
                    "TEXT"@,
                    "language"@,
                ]
                &&& forall|i: int|
                    0 <= i < names.len() ==> ((#[trigger] names[i])[0] == '$' <==> i == 3 || i == 4)
            },
            Err(error) => complete_authorize_form(payment) == Err::<FormView, ConnectorErrorView>(
                error,
            ),
        },
{
    reveal_strlit("userName");
    reveal_strlit("password");
    reveal_strlit("MDORDER");
    reveal_strlit("$PAN");
    reveal_strlit("$CVC");
    reveal_strlit("YYYY");
    reveal_strlit("MM");
    reveal_strlit("TEXT");
    reveal_strlit("language");
}

/// No form has two fields of one name.
pub proof fn form_fields_are_distinct(form: FormView)
    ensures
        field_names(form.fields()).no_duplicates(),
{
    reveal_strlit("userName");
    reveal_strlit("password");
    reveal_strlit("orderNumber");
    reveal_strlit("amount");
    reveal_strlit("currency");
    reveal_strlit("returnUrl");
    reveal_strlit("failUrl");
    reveal_strlit("language");
    reveal_strlit("MDORDER");
    reveal_strlit("$PAN");
    reveal_strlit("$CVC");
    reveal_strlit("YYYY");
    reveal_strlit("MM");
    reveal_strlit("TEXT");
    reveal_strlit("threeDSServerTransId");
    reveal_strlit("orderId");
    let names = field_names(form.fields());
    assert forall|i: int, j: int| 0 <= i < j < names.len() implies names[i] != names[j] by {
        let a = names[i];
        let b = names[j];
        assert(a.len() != b.len() || a[0] != b[0] || a[1] != b[1]);
    }
}

/// A form carries the credentials and, but for a registration, the order in its fields.
pub proof fn form_fields_carry_credentials_and_order(form: FormView)
    ensures
        form.fields()[0] == ("userName"@, MaskableView::Masked(form.user_name())),
        form.fields()[1] == ("password"@, MaskableView::Masked(form.password())),
        form.order_id() matches Some(id) ==> form.fields()[2].1 == MaskableView::Normal(id),
{
}

/// A card's year of expiry is submitted in four digits where it was entered in two or four, and its
/// month in two where it was entered in one or two. What was not entered in digits is submitted as
/// it was entered.
pub proof fn expiry_is_submitted_in_full(
    auth: Credentials,
    order_id: Seq<char>,
    card: CardView,
    language: Seq<char>,
)
    ensures
        ({
            let form = payment_order(auth, order_id, card, language);
            let year = card.exp_year;
            let month = card.exp_month;
            &&& all_digits(year) && (year.len() == 2 || year.len() == 4) ==> all_digits(
                form.expiry_year,
            ) && form.expiry_year.len() == 4
            &&& all_digits(month) && (month.len() == 1 || month.len() == 2) ==> all_digits(
                form.expiry_month,
            ) && form.expiry_month.len() == 2
            &&& !all_digits(year) ==> form.expiry_year == year
            &&& !all_digits(month) ==> form.expiry_month == month
        }),
{
    reveal_strlit("20");
    reveal_strlit("0");
}

/// An order's record holds an entry for each thing that is known, under its key, and no others.
pub proof fn order_record_holds_what_is_known(
    meta: MetaView,
    key: Seq<char>,
    value: RecordValueView,
)
    ensures
        meta.entries().contains((key, value)) <==> {
            ||| key == "order_id"@ && value == RecordValueView::Text(meta.order_id)
            ||| key == "card_number"@ && is_hidden(meta.card_number, value)
            ||| key == "card_cvc"@ && is_hidden(meta.card_cvc, value)
            ||| key == "card_exp_month"@ && is_hidden(meta.card_exp_month, value)
            ||| key == "card_exp_year"@ && is_hidden(meta.card_exp_year, value)
            ||| key == "card_holder"@ && is_text(meta.card_holder, value)
            ||| key == "three_ds_server_trans_id"@ && is_text(meta.three_ds_server_trans_id, value)
        },
{
    broadcast use vstd::seq_lib::group_seq_properties;

    lemma_hidden("card_number"@, meta.card_number, key, value);
    lemma_hidden("card_cvc"@, meta.card_cvc, key, value);
    lemma_hidden("card_exp_month"@, meta.card_exp_month, key, value);
    lemma_hidden("card_exp_year"@, meta.card_exp_year, key, value);
    lemma_text("card_holder"@, meta.card_holder, key, value);
    lemma_text("three_ds_server_trans_id"@, meta.three_ds_server_trans_id, key, value);
    let first = seq![("order_id"@, RecordValueView::Text(meta.order_id))];
    assert(first[0] == ("order_id"@, RecordValueView::Text(meta.order_id)));
}

/// A value that is the given hidden text.
pub open spec fn is_hidden(text: Option<Seq<char>>, value: RecordValueView) -> bool {
    text matches Some(text) && value == RecordValueView::Hidden(text)
}

/// A value that is the given text.
pub open spec fn is_text(text: Option<Seq<char>>, value: RecordValueView) -> bool {
    text matches Some(text) && value == RecordValueView::Text(text)
}

proof fn lemma_hidden(
    own: Seq<char>,
    text: Option<Seq<char>>,
    key: Seq<char>,
    value: RecordValueView,
)
    ensures
        hidden_if_known(own, text).contains((key, value)) <==> key == own && is_hidden(text, value),
{
    if let Some(hidden) = text {
        assert(hidden_if_known(own, text)[0] == (own, RecordValueView::Hidden(hidden)));
    }
}

proof fn lemma_text(
    own: Seq<char>,
    text: Option<Seq<char>>,
    key: Seq<char>,
    value: RecordValueView,
)
    ensures
        text_if_known(own, text).contains((key, value)) <==> key == own && is_text(text, value),
{
    if let Some(known) = text {
        assert(text_if_known(own, text)[0] == (own, RecordValueView::Text(known)));
    }
}

/// The keys of an order's record.
pub open spec fn order_record_keys() -> Seq<Seq<char>> {
    seq![
        "order_id"@,
        "card_number"@,
        "card_cvc"@,
        "card_exp_month"@,
        "card_exp_year"@,
        "card_holder"@,
        "three_ds_server_trans_id"@,
    ]
}

/// The keys of an order's record are distinct.
pub proof fn order_record_keys_are_distinct()
    ensures
        order_record_keys().no_duplicates(),
{
    reveal_strlit("order_id");
    reveal_strlit("card_number");
    reveal_strlit("card_cvc");
    reveal_strlit("card_exp_month");
    reveal_strlit("card_exp_year");
    reveal_strlit("card_holder");
    reveal_strlit("three_ds_server_trans_id");
    let keys = order_record_keys();
    assert forall|i: int, j: int| 0 <= i < j < keys.len() implies keys[i] != keys[j] by {
        let a = keys[i];
        let b = keys[j];
        assert(a.len() != b.len() || a[0] != b[0] || a[5] != b[5]);
    }
}

/// The entries of an order's record give the record back: two records with the same entries say
/// the same.
pub proof fn order_records_are_told_by_their_entries(a: MetaView, b: MetaView)
    requires
        a.entries() == b.entries(),
    ensures
        a == b,
{
    lemma_same_known(a, b);
    lemma_same_known(b, a);
}

/// What a first record knows, a second one with the same entries knows alike.
proof fn lemma_same_known(a: MetaView, b: MetaView)
    requires
        a.entries() == b.entries(),
    ensures
        a.order_id == b.order_id,
        a.card_number is Some ==> a.card_number == b.card_number,
        a.card_cvc is Some ==> a.card_cvc == b.card_cvc,
        a.card_exp_month is Some ==> a.card_exp_month == b.card_exp_month,
        a.card_exp_year is Some ==> a.card_exp_year == b.card_exp_year,
        a.card_holder is Some ==> a.card_holder == b.card_holder,
        a.three_ds_server_trans_id is Some ==> a.three_ds_server_trans_id
            == b.three_ds_server_trans_id,
{
    order_record_keys_are_distinct();
    let keys = order_record_keys();
    assert(keys[0] == "order_id"@);
    assert(keys[1] == "card_number"@);
    assert(keys[2] == "card_cvc"@);
    assert(keys[3] == "card_exp_month"@);
    assert(keys[4] == "card_exp_year"@);
    assert(keys[5] == "card_holder"@);
    assert(keys[6] == "three_ds_server_trans_id"@);
    let order = RecordValueView::Text(a.order_id);
    order_record_holds_what_is_known(a, "order_id"@, order);
    order_record_holds_what_is_known(b, "order_id"@, order);
    if let Some(text) = a.card_number {
        let value = RecordValueView::Hidden(text);
        order_record_holds_what_is_known(a, "card_number"@, value);
        order_record_holds_what_is_known(b, "card_number"@, value);
    }
    if let Some(text) = a.card_cvc {
        let value = RecordValueView::Hidden(text);
        order_record_holds_what_is_known(a, "card_cvc"@, value);
        order_record_holds_what_is_known(b, "card_cvc"@, value);
    }
    if let Some(text) = a.card_exp_month {
        let value = RecordValueView::Hidden(text);
        order_record_holds_what_is_known(a, "card_exp_month"@, value);
        order_record_holds_what_is_known(b, "card_exp_month"@, value);
    }
    if let Some(text) = a.card_exp_year {
        let value = RecordValueView::Hidden(text);
        order_record_holds_what_is_known(a, "card_exp_year"@, value);
        order_record_holds_what_is_known(b, "card_exp_year"@, value);
    }
    if let Some(text) = a.card_holder {
        let value = RecordValueView::Text(text);
        order_record_holds_what_is_known(a, "card_holder"@, value);
        order_record_holds_what_is_known(b, "card_holder"@, value);
    }
    if let Some(text) = a.three_ds_server_trans_id {
        let value = RecordValueView::Text(text);
        order_record_holds_what_is_known(a, "three_ds_server_trans_id"@, value);
        order_record_holds_what_is_known(b, "three_ds_server_trans_id"@, value);
    }
}

/// The record of a status call has its six keys whatever is known, and its entries give it back.
pub proof fn status_records_have_all_keys(a: OrderStatusMetadataView, b: OrderStatusMetadataView)
    ensures
        a.entries().map_values(|entry: (Seq<char>, RecordValueView)| entry.0) == seq![
            "action_code"@,
            "action_code_description"@,
            "approval_code"@,
            "auth_code"@,
            "deposit_amount"@,
            "refunded_amount"@,
        ],
        a.entries() == b.entries() ==> a == b,
{
    if a.entries() == b.entries() {
        assert(a.entries()[0] == b.entries()[0]);
        assert(a.entries()[1] == b.entries()[1]);
        assert(a.entries()[2] == b.entries()[2]);
        assert(a.entries()[3] == b.entries()[3]);
        assert(a.entries()[4] == b.entries()[4]);
        assert(a.entries()[5] == b.entries()[5]);
    }
}

/// No answer of the bank brings a 3DS transaction to be stored, so none starts a first stage: a
/// payment that is being continued is left as its answer reads. The two stages are run where the
/// host stores a record that names a 3DS transaction.
pub proof fn no_answer_starts_a_first_stage(
    answer: AtbbankPaymentsResponse,
    http_code: u16,
    request: CompleteAuthorizeData,
)
    ensures
        payments_outcome(answer, http_code).response matches Ok(transaction) ==> first_stage(
            transaction,
        ) is None,
        complete_authorize_outcome(answer, http_code, request) == payments_outcome(
            answer,
            http_code,
        ),
{
}

/// After the first of two stages, the record keeps the order and holds no card data, and the
/// next form, made from the record as it is read back, names the order and the 3DS transaction
/// in place of a card, whatever payment method comes with it.
pub proof fn second_stage_needs_no_card(
    transaction: TransactionView,
    request: CompleteAuthorizeData,
    next: PaymentsCompleteAuthorizeRouterData,
)
    requires
        first_stage(transaction) is Some,
        request.connector_meta matches Some(Ok(_)),
        credentials(next.connector_auth_type) is Ok,
        next.request.connector_meta matches Some(Ok(meta)) && Some(
            ConnectorMetadataView::Order(meta@),
        ) == led_to_second_stage(transaction, request).connector_metadata,
    ensures
        ({
            let auth = credentials(next.connector_auth_type)->Ok_0;
            let order_id = request.connector_meta->0->Ok_0@.order_id;
            let stored = next.request.connector_meta->0->Ok_0@;
            &&& stored.order_id == order_id
            &&& stored.has_no_card_data()
            &&& complete_authorize_form(next) == Ok::<FormView, ConnectorErrorView>(
                FormView::PaymentOrderStage2(
                    Stage2RequestView {
                        user_name: auth.user_name,
                        password: auth.password,
                        mdorder: order_id,
                        three_ds_server_trans_id: first_stage(transaction)->0,
                        language: "en"@,
                    },
                ),
            )
        }),
{
}

/// After the first of two stages the cardholder is led to where the payment is continued, and
/// nowhere else.
pub proof fn first_stage_leads_back(transaction: TransactionView, request: CompleteAuthorizeData)
    requires
        first_stage(transaction) is Some,
    ensures
        led_to_second_stage(transaction, request).redirection_data == (
        match request.complete_authorize_url {
            Some(url) => Some(RedirectFormView::visit(url@)),
            None => None,
        }),
{
}

/// Where the router can continue a payment, the cardholder of an authorized payment is never
/// sent to the bank's page.
pub proof fn authorized_payment_goes_on_at_the_router(
    request: PaymentsAuthorizeData,
    answer: AtbbankPaymentsResponse,
    http_code: u16,
)
    requires
        request.complete_authorize_url is Some,
    ensures
        authorize_outcome(answer, http_code, request).response matches Ok(transaction) ==> (
        transaction.redirection_data matches Some(form) ==> form == RedirectFormView::visit(
            request.complete_authorize_url->0@,
        )),
{
}

/// Every redirect has distinct field names.
pub proof fn redirect_fields_are_distinct(
    answer: AtbbankPaymentsResponse,
    http_code: u16,
    authorize: PaymentsAuthorizeData,
    complete: CompleteAuthorizeData,
)
    ensures
        payments_outcome(answer, http_code).response matches Ok(transaction) ==> (
        transaction.redirection_data matches Some(form) ==> form.names_are_distinct()),
        authorize_outcome(answer, http_code, authorize).response matches Ok(transaction) ==> (
        transaction.redirection_data matches Some(form) ==> form.names_are_distinct()),
        complete_authorize_outcome(answer, http_code, complete).response matches Ok(transaction)
            ==> (transaction.redirection_data matches Some(form) ==> form.names_are_distinct()),
{
}

/// A form carries the credentials of an account.
pub open spec fn carries(form: FormView, auth: Credentials) -> bool {
    form.user_name() == auth.user_name && form.password() == auth.password
}

/// The form of a flow, against the credentials of its account: where there are some, a form that
/// is made carries them; where there are none, no form is made.
pub open spec fn is_signed(
    form: Result<FormView, ConnectorErrorView>,
    auth_type: ConnectorAuthType,
) -> bool {
    match (credentials(auth_type), form) {
        (Ok(auth), Ok(form)) => carries(form, auth),
        (Ok(_), Err(error)) => error != ConnectorErrorView::FailedToObtainAuthType,
        (Err(_), form) => form == Err::<FormView, ConnectorErrorView>(
            ConnectorErrorView::FailedToObtainAuthType,
        ),
    }
}

/// Every flow signs its form with the user name and the password of the account, and is refused
/// for an account that has none, before anything else is looked at.
pub proof fn every_form_is_signed(
    authorize: PaymentsAuthorizeRouterData,
    complete: PaymentsCompleteAuthorizeRouterData,
    sync: PaymentsSyncRouterData,
    capture: PaymentsCaptureRouterData,
    void: PaymentsCancelRouterData,
    refund: RefundExecuteRouterData,
    refund_sync: RefundSyncRouterData,
)
    ensures
        is_signed(authorize_form(authorize), authorize.connector_auth_type),
        is_signed(complete_authorize_form(complete), complete.connector_auth_type),
        is_signed(sync_form(sync), sync.connector_auth_type),
        is_signed(capture_form(capture), capture.connector_auth_type),
        is_signed(void_form(void), void.connector_auth_type),
        is_signed(refund_form(refund), refund.connector_auth_type),
        is_signed(refund_sync_form(refund_sync), refund_sync.connector_auth_type),
{
}

/// A capture, a void, a refund and a refund's status need nothing but the credentials.
pub proof fn follow_up_calls_need_only_credentials(
    capture: PaymentsCaptureRouterData,
    void: PaymentsCancelRouterData,
    refund: RefundExecuteRouterData,
    refund_sync: RefundSyncRouterData,
)
    ensures
        capture_form(capture) is Ok <==> capture.connector_auth_type is BodyKey,
        void_form(void) is Ok <==> void.connector_auth_type is BodyKey,
        refund_form(refund) is Ok <==> refund.connector_auth_type is BodyKey,
        refund_sync_form(refund_sync) is Ok <==> refund_sync.connector_auth_type is BodyKey,
{
}

/// Different amounts are sent as different texts: the amount of a form gives the amount of the
/// payment.
pub proof fn amounts_are_sent_faithfully(
    a: PaymentsAuthorizeRouterData,
    b: PaymentsAuthorizeRouterData,
    capture_a: PaymentsCaptureRouterData,
    capture_b: PaymentsCaptureRouterData,
    refund_a: RefundExecuteRouterData,
    refund_b: RefundExecuteRouterData,
)
    ensures
        authorize_form(a) is Ok && authorize_form(a) == authorize_form(b) ==> a.request.minor_amount
            == b.request.minor_amount,
        capture_form(capture_a) is Ok && capture_form(capture_a) == capture_form(capture_b)
            ==> capture_a.request.minor_amount_to_capture
            == capture_b.request.minor_amount_to_capture,
        refund_form(refund_a) is Ok && refund_form(refund_a) == refund_form(refund_b)
            ==> refund_a.request.minor_refund_amount == refund_b.request.minor_refund_amount,
{
    if authorize_form(a) is Ok && authorize_form(a) == authorize_form(b) {
        decimal_is_injective(a.request.minor_amount.0 as int, b.request.minor_amount.0 as int);
    }
    if capture_form(capture_a) is Ok && capture_form(capture_a) == capture_form(capture_b) {
        decimal_is_injective(
            capture_a.request.minor_amount_to_capture.0 as int,
            capture_b.request.minor_amount_to_capture.0 as int,
        );
    }
    if refund_form(refund_a) is Ok && refund_form(refund_a) == refund_form(refund_b) {
        decimal_is_injective(
            refund_a.request.minor_refund_amount.0 as int,
            refund_b.request.minor_refund_amount.0 as int,
        );
    }
}

/// No two currencies have the same numeric code.
pub proof fn currency_codes_are_distinct(a: Seq<char>, b: Seq<char>)
    requires
        numeric_code(a) is Some,
        numeric_code(a) == numeric_code(b),
    ensures
        a == b,
{
    reveal_strlit("944");
    reveal_strlit("840");
    reveal_strlit("978");
    reveal_strlit("826");
    reveal_strlit("949");
    reveal_strlit("643");
    assert("944"@[1] == '4' && "944"@[0] == '9');
    assert("840"@[0] == '8' && "840"@[1] == '4');
    assert("978"@[1] == '7');
    assert("826"@[1] == '2' && "826"@[0] == '8');
    assert("949"@[2] == '9' && "944"@[2] == '4');
    assert("643"@[0] == '6');
}

/// An amount is only held exactly where it is to be captured by hand.
pub proof fn only_manual_capture_is_preauthorized(capture_method: Option<CaptureMethod>)
    ensures
        register_path(capture_method) == "rest/registerPreAuth.do"@ <==> capture_method == Some(
            CaptureMethod::Manual,
        ),
{
    reveal_strlit("rest/registerPreAuth.do");
    reveal_strlit("rest/register.do");
    assert("rest/registerPreAuth.do"@.len() != "rest/register.do"@.len());
}

/// An answer with an error code other than zero refuses the request, and any other answer takes
/// it.
pub proof fn answers_are_taken_without_an_error_code(
    register: AtbbankRegisterResponse,
    order: AtbbankPaymentOrderResponse,
    action: AtbbankCaptureResponse,
    refund: AtbbankRefundResponse,
    id: Seq<char>,
    http_code: u16,
)
    ensures
        payments_outcome(AtbbankPaymentsResponse::Register(register), http_code).response is Ok
            <==> code_or_zero(register.error_code) == 0,
        payments_outcome(AtbbankPaymentsResponse::PaymentOrder(order), http_code).response is Ok
            <==> code_or_zero(order.error_code) == 0,
        capture_outcome(action, id, http_code).response is Ok <==> code_or_zero(action.error_code)
            == 0,
        reverse_outcome(action.error_code, action.error_message, http_code).response is Ok
            <==> code_or_zero(action.error_code) == 0,
        refund_outcome(refund, id, http_code) is Ok <==> code_or_zero(refund.error_code) == 0,
{
}

/// A refusal gives its message as the reason too, and the HTTP status of the answer.
pub proof fn refusals_give_reason_and_status(
    payments: AtbbankPaymentsResponse,
    status: AtbbankOrderStatusResponse,
    action: AtbbankCaptureResponse,
    refund: AtbbankRefundResponse,
    error: Response<AtbbankErrorResponse>,
    id: Seq<char>,
    http_code: u16,
)
    ensures
        payments_outcome(payments, http_code).response matches Err(e) ==> e.reason == Some(e.message)
            && e.status_code == http_code,
        status_outcome(status, http_code).response matches Err(e) ==> e.reason == Some(e.message)
            && e.status_code == http_code,
        capture_outcome(action, id, http_code).response matches Err(e) ==> e.reason == Some(
            e.message,
        ) && e.status_code == http_code,
        reverse_outcome(action.error_code, action.error_message, http_code).response matches Err(e)
            ==> e.reason == Some(e.message) && e.status_code == http_code,
        refund_outcome(refund, id, http_code) matches Err(e) ==> e.reason == Some(e.message)
            && e.status_code == http_code,
        error_outcome(error) matches Ok(e) ==> e.reason == Some(e.message) && e.status_code
            == error.status_code,
{
}

/// The payment is failed whenever an answer of the authorize flow or of a status call refuses
/// it.
pub proof fn refused_payments_fail(
    payments: AtbbankPaymentsResponse,
    status: AtbbankOrderStatusResponse,
    http_code: u16,
)
    ensures
        payments_outcome(payments, http_code).response is Err ==> payments_outcome(
            payments,
            http_code,
        ).status == AttemptStatus::Failure,
        status_outcome(status, http_code).response is Err ==> status_outcome(
            status,
            http_code,
        ).status == AttemptStatus::Failure,
{
}

/// How the amount is captured matters for a held amount alone.
pub proof fn capture_mode_matters_for_held_amounts_alone(status: AtbbankOrderStatus)
    ensures
        attempt_status(status, true) != attempt_status(status, false) <==> status
            == AtbbankOrderStatus::Authorized,
{
}

/// A status call never reports a held amount: one that is held counts as charged.
pub proof fn status_calls_report_held_amounts_as_charged(
    answer: AtbbankOrderStatusResponse,
    http_code: u16,
)
    ensures
        status_outcome(answer, http_code).status != AttemptStatus::Authorized,
        answer.error() is None && answer.status() == AtbbankOrderStatus::Authorized
            ==> status_outcome(answer, http_code).status == AttemptStatus::Charged,
{
}

/// A refunded order is still charged as a payment, and its refund has succeeded.
pub proof fn refunded_order_stays_charged(
    answer: AtbbankOrderStatusResponse,
    http_code: u16,
    requested: int,
)
    requires
        answer.known_status() == Some(AtbbankOrderStatus::Refunded),
        answer.error() is None,
    ensures
        status_outcome(answer, http_code).status == AttemptStatus::Charged,
        refund_sync_status(answer, requested) == RefundStatus::Success,
{
}

/// The more of an amount is paid back, the further its refund is: with the order's status and
/// the requested amount unchanged, a refund that has succeeded does not become pending.
pub proof fn refunds_do_not_fall_back(
    earlier: AtbbankOrderStatusResponse,
    later: AtbbankOrderStatusResponse,
    requested: int,
)
    requires
        earlier.order_status == later.order_status,
        earlier.refunded_amount matches Some(before) && later.refunded_amount matches Some(after)
            && before <= after,
        refund_sync_status(earlier, requested) == RefundStatus::Success,
    ensures
        refund_sync_status(later, requested) == RefundStatus::Success,
{
}

/// A payment whose order has a status that is not known counts as one that waits for the
/// cardholder.
pub proof fn unknown_statuses_wait_for_the_cardholder(
    answer: AtbbankOrderStatusResponse,
    http_code: u16,
)
    requires
        answer.error() is None,
        answer.known_status() is None,
    ensures
        status_outcome(answer, http_code).status == AttemptStatus::AuthenticationPending,
{
}

} // verus!
