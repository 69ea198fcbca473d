use core::marker::PhantomData;

use atbbank::connector::common::Atbbank;
use atbbank::connector::complete_authorize::lead_to_second_stage;
use atbbank::connector::integration::ConnectorIntegration;
use atbbank::connector::request::{AtbbankForm, RequestContent};
use atbbank::decimal::decimal_of;
use atbbank::domain::amount::MinorUnit;
use atbbank::domain::enums::{AttemptStatus, Currency, RefundStatus};
use atbbank::domain::http::{ConnectorParams, Connectors, Response};
use atbbank::domain::payment_method::{Card, PaymentMethodData};
use atbbank::domain::request_types::{
    CompleteAuthorizeData, PaymentsAuthorizeData, PaymentsCancelData, PaymentsCaptureData,
    PaymentsSyncData, RefundsData,
};
use atbbank::domain::response_types::{ErrorResponse, PaymentsResponseData, ResponseId};
use atbbank::domain::router_data::{
    ConnectorAuthType, PaymentsAuthorizeRouterData, PaymentsCancelRouterData,
    PaymentsCaptureRouterData, PaymentsCompleteAuthorizeRouterData, PaymentsSyncRouterData,
    RefundExecuteRouterData, RefundSyncRouterData, RouterData,
};
use atbbank::errors::{ConnectorError, ParsingError};
use atbbank::secret::Secret;
use atbbank::transformers::capture::AtbbankCaptureResponse;
use atbbank::transformers::currency::currency_to_numeric;
use atbbank::transformers::meta::{AtbbankMeta, ConnectorMetadata, OrderStatusMetadata};
use atbbank::transformers::payments_response::{
    AtbbankPaymentOrderResponse, AtbbankPaymentsResponse, AtbbankRegisterResponse,
};
use atbbank::transformers::record::RecordValue;
use atbbank::transformers::refund::AtbbankRefundResponse;
use atbbank::transformers::reverse::AtbbankReverseResponse;
use atbbank::transformers::status::AtbbankOrderStatusResponse;

fn secret(text: &str) -> Secret<String> {
    Secret::new(text.to_string())
}

fn card(number: &str) -> Card {
    Card {
        card_number: secret(number),
        card_exp_month: secret("03"),
        card_exp_year: secret("2030"),
        card_cvc: secret("737"),
        card_holder_name: None,
    }
}

fn connectors() -> Connectors {
    Connectors { atbbank: ConnectorParams { base_url: "https://epg.example/".to_string() } }
}

fn router_data<F, T, R>(request: T) -> RouterData<F, T, R> {
    RouterData {
        flow: PhantomData,
        status: AttemptStatus::Started,
        connector_auth_type: ConnectorAuthType::BodyKey {
            api_key: secret("merchant"),
            key1: secret("pass"),
        },
        connector_request_reference_id: "pay_1".to_string(),
        request,
        response: Err(ErrorResponse::plain(String::new(), String::new(), 0, None)),
        amount_captured: None,
    }
}

fn authorize(amount: i64) -> PaymentsAuthorizeRouterData {
    router_data(PaymentsAuthorizeData {
        minor_amount: MinorUnit(amount),
        currency: Currency::new("AZN"),
        capture_method: None,
        payment_method_data: PaymentMethodData::Card(card("4111")),
        router_return_url: Some("https://router/return".to_string()),
        complete_authorize_url: Some("https://router/complete".to_string()),
        browser_info: None,
    })
}

fn complete(
    method: Option<PaymentMethodData>,
    meta: AtbbankMeta,
) -> PaymentsCompleteAuthorizeRouterData {
    router_data(CompleteAuthorizeData {
        payment_method_data: method,
        connector_meta: Some(Ok(meta)),
        complete_authorize_url: Some("https://router/complete".to_string()),
    })
}

fn refunds(id: &str) -> RefundsData {
    RefundsData {
        minor_refund_amount: MinorUnit(100),
        currency: Currency::new("AZN"),
        connector_transaction_id: id.to_string(),
    }
}

fn form(content: RequestContent) -> AtbbankForm {
    match content {
        RequestContent::FormUrlEncoded(form) => form,
    }
}

fn signed_by(form: &AtbbankForm) -> (String, String) {
    let (user_name, password) = match form {
        AtbbankForm::Register(form) => (&form.user_name, &form.password),
        AtbbankForm::PaymentOrder(form) => (&form.user_name, &form.password),
        AtbbankForm::PaymentOrderStage2(form) => (&form.user_name, &form.password),
        AtbbankForm::Status(form) => (&form.user_name, &form.password),
        AtbbankForm::Capture(form) => (&form.user_name, &form.password),
        AtbbankForm::Reverse(form) => (&form.user_name, &form.password),
        AtbbankForm::Refund(form) => (&form.user_name, &form.password),
    };
    (user_name.peek().clone(), password.peek().clone())
}

fn order_of(form: &AtbbankForm) -> Option<String> {
    match form {
        AtbbankForm::Register(_) => None,
        AtbbankForm::PaymentOrder(form) => Some(form.mdorder.clone()),
        AtbbankForm::PaymentOrderStage2(form) => Some(form.mdorder.clone()),
        AtbbankForm::Status(form) => Some(form.order_id.clone()),
        AtbbankForm::Capture(form) => Some(form.order_id.clone()),
        AtbbankForm::Reverse(form) => Some(form.order_id.clone()),
        AtbbankForm::Refund(form) => Some(form.order_id.clone()),
    }
}

fn later_forms(id: &str, meta: AtbbankMeta) -> Vec<AtbbankForm> {
    let connector = Atbbank::new();
    let connectors = connectors();
    let sync: PaymentsSyncRouterData = router_data(PaymentsSyncData {
        connector_transaction_id: ResponseId::ConnectorTransactionId(id.to_string()),
    });
    let capture: PaymentsCaptureRouterData = router_data(PaymentsCaptureData {
        minor_amount_to_capture: MinorUnit(5),
        currency: Currency::new("AZN"),
        connector_transaction_id: id.to_string(),
    });
    let void: PaymentsCancelRouterData =
        router_data(PaymentsCancelData { connector_transaction_id: id.to_string() });
    let refund: RefundExecuteRouterData = router_data(refunds(id));
    let refund_sync: RefundSyncRouterData = router_data(refunds(id));
    vec![
        form(connector.get_request_body(&complete(None, meta), &connectors).ok().unwrap()),
        form(connector.get_request_body(&sync, &connectors).ok().unwrap()),
        form(connector.get_request_body(&capture, &connectors).ok().unwrap()),
        form(connector.get_request_body(&void, &connectors).ok().unwrap()),
        form(connector.get_request_body(&refund, &connectors).ok().unwrap()),
        form(connector.get_request_body(&refund_sync, &connectors).ok().unwrap()),
    ]
}

fn registered() -> (String, AtbbankMeta) {
    let answer = AtbbankPaymentsResponse::Register(AtbbankRegisterResponse {
        order_id: Some("order-9".to_string()),
        form_url: Some("https://epg/page".to_string()),
        error_code: Some(0),
        error_message: None,
    });
    let res = Response { response: Ok(answer), status_code: 200 };
    let payment = Atbbank::new().handle_response(&authorize(10), res).ok().unwrap();
    match payment.response.ok().unwrap() {
        PaymentsResponseData::TransactionResponse {
            resource_id: ResponseId::ConnectorTransactionId(id),
            connector_metadata: Some(ConnectorMetadata::Order(meta)),
            ..
        } => (id, meta),
        _ => panic!("no order"),
    }
}

#[test]
fn later_calls_carry_the_registered_order() {
    let (id, meta) = registered();
    assert_eq!(id, "order-9");
    let forms = later_forms(&id, meta);
    assert_eq!(forms.len(), 6);
    for form in forms {
        assert_eq!(order_of(&form), Some("order-9".to_string()));
    }
}

#[test]
fn all_forms_carry_the_credentials() {
    let (id, meta) = registered();
    let mut forms = later_forms(&id, meta);
    let body = Atbbank::new().get_request_body(&authorize(10), &connectors()).ok().unwrap();
    forms.push(form(body));
    let mut second = AtbbankMeta::order("order-9".to_string());
    second.three_ds_server_trans_id = Some("tds-1".to_string());
    let body =
        Atbbank::new().get_request_body(&complete(None, second), &connectors()).ok().unwrap();
    forms.push(form(body));
    for form in forms {
        assert_eq!(signed_by(&form), ("merchant".to_string(), "pass".to_string()));
    }
}

#[test]
fn given_card_is_submitted_whatever_is_stored() {
    for stored in ["4222", "4333"] {
        let mut meta = AtbbankMeta::order("order-9".to_string());
        meta.save_card(&card(stored));
        let payment = complete(Some(PaymentMethodData::Card(card("4111"))), meta);
        let body = Atbbank::new().get_request_body(&payment, &connectors()).ok().unwrap();
        match form(body) {
            AtbbankForm::PaymentOrder(form) => assert_eq!(form.pan.peek(), "4111"),
            _ => panic!("no card"),
        }
    }
}

#[test]
fn record_of_the_first_stage_makes_the_second_form() {
    let mut stored = AtbbankMeta::order("order-9".to_string());
    stored.save_card(&card("4111"));
    let mut new_meta = AtbbankMeta::order(String::new());
    new_meta.three_ds_server_trans_id = Some("tds-1".to_string());
    let response = PaymentsResponseData::transaction(
        ResponseId::NoResponseId,
        None,
        Some(ConnectorMetadata::Order(new_meta)),
        None,
    );
    let led = lead_to_second_stage(response, &complete(None, stored).request);
    let meta = match led {
        PaymentsResponseData::TransactionResponse {
            connector_metadata: Some(ConnectorMetadata::Order(meta)),
            ..
        } => meta,
        _ => panic!("no record"),
    };
    assert!(meta.card_number.is_none());
    assert!(meta.card_cvc.is_none());
    assert!(meta.card_exp_month.is_none());
    assert!(meta.card_exp_year.is_none());
    assert!(meta.card_holder.is_none());
    let next = complete(Some(PaymentMethodData::Card(card("4222"))), meta);
    match form(Atbbank::new().get_request_body(&next, &connectors()).ok().unwrap()) {
        AtbbankForm::PaymentOrderStage2(form) => {
            assert_eq!(form.mdorder, "order-9");
            assert_eq!(form.three_ds_server_trans_id, "tds-1");
        }
        _ => panic!("not the second stage"),
    }
}

#[test]
fn different_amounts_are_written_differently() {
    let amounts: Vec<i64> =
        vec![0, 1, -1, 9, 10, 11, -10, 99, 100, 101, 1000, -1000, i64::MAX, i64::MIN];
    for a in &amounts {
        for b in &amounts {
            assert_eq!(decimal_of(*a) == decimal_of(*b), a == b);
        }
        assert_eq!(decimal_of(*a), format!("{}", a));
    }
}

#[test]
fn different_currencies_have_different_codes() {
    let codes = ["AZN", "USD", "EUR", "GBP", "TRY", "RUB"];
    for a in codes {
        for b in codes {
            let same =
                currency_to_numeric(&Currency::new(a)) == currency_to_numeric(&Currency::new(b));
            assert_eq!(same, a == b);
        }
    }
}

fn refund_answer(refunded: i64) -> AtbbankOrderStatusResponse {
    AtbbankOrderStatusResponse {
        order_status: Some(2),
        error_code: None,
        error_message: None,
        order_number: None,
        pan: None,
        amount: None,
        currency: None,
        action_code: None,
        action_code_description: None,
        deposit_amount: None,
        refunded_amount: Some(refunded),
        approval_code: None,
        auth_code: None,
        ip: None,
        card_auth_info: Some(serde_json::Value::from(1)),
        payment_amount_info: Some(serde_json::Value::Null),
    }
}

#[test]
fn succeeded_refund_stays_succeeded() {
    let mut succeeded = false;
    for refunded in [0, 50, 99, 100, 101, 1000] {
        let data: RefundSyncRouterData = router_data(refunds("order-9"));
        let res = Response { response: Ok(refund_answer(refunded)), status_code: 200 };
        let refund = Atbbank::new().handle_response(&data, res).ok().unwrap();
        let status = refund.response.unwrap().refund_status;
        if succeeded {
            assert_eq!(status, RefundStatus::Success);
        }
        succeeded = status == RefundStatus::Success;
    }
    assert!(succeeded);
}

#[test]
fn additional_data_changes_nothing() {
    for data in [None, Some(serde_json::Value::Bool(true))] {
        let answer = AtbbankPaymentsResponse::PaymentOrder(AtbbankPaymentOrderResponse {
            error_code: None,
            info: None,
            acs_url: None,
            creq: None,
            redirect: None,
            success: Some(true),
            data,
        });
        let res = Response { response: Ok(answer), status_code: 200 };
        let payment = complete(None, AtbbankMeta::order("order-9".to_string()));
        let payment = Atbbank::new().handle_response(&payment, res).ok().unwrap();
        assert_eq!(payment.status, AttemptStatus::Charged);
    }
}

#[test]
fn status_call_names_the_order_number() {
    let payment: PaymentsSyncRouterData = router_data(PaymentsSyncData {
        connector_transaction_id: ResponseId::ConnectorTransactionId("order-9".to_string()),
    });
    let mut answer = refund_answer(0);
    answer.order_number = Some("pay_1".to_string());
    let res = Response { response: Ok(answer), status_code: 200 };
    let payment = Atbbank::new().handle_response(&payment, res).ok().unwrap();
    match payment.response.ok().unwrap() {
        PaymentsResponseData::TransactionResponse {
            resource_id,
            connector_response_reference_id,
            ..
        } => {
            assert_eq!(resource_id, ResponseId::ConnectorTransactionId("pay_1".to_string()));
            assert_eq!(connector_response_reference_id, Some("pay_1".to_string()));
        }
    }
}

#[test]
fn refund_carries_any_status_along() {
    let mut refund: RefundSyncRouterData = router_data(refunds("order-9"));
    refund.status = AttemptStatus::PartialCharged;
    let res = Response { response: Ok(refund_answer(100)), status_code: 200 };
    let refund = Atbbank::new().handle_response(&refund, res).ok().unwrap();
    assert_eq!(refund.status, AttemptStatus::PartialCharged);
}

#[test]
fn no_answer_leads_to_a_second_stage() {
    let payment = complete(None, AtbbankMeta::order("order-9".to_string()));
    let answer = AtbbankPaymentsResponse::PaymentOrder(AtbbankPaymentOrderResponse {
        error_code: None,
        info: None,
        acs_url: None,
        creq: None,
        redirect: None,
        success: None,
        data: Some(serde_json::Value::from("tds-1")),
    });
    let res = Response { response: Ok(answer), status_code: 200 };
    let payment = Atbbank::new().handle_response(&payment, res).ok().unwrap();
    assert_eq!(payment.status, AttemptStatus::Pending);
    match payment.response.ok().unwrap() {
        PaymentsResponseData::TransactionResponse { redirection_data, connector_metadata, .. } => {
            assert_eq!(redirection_data, None);
            assert!(connector_metadata.is_none());
        }
    }
}

fn record(metadata: &ConnectorMetadata) -> Vec<(String, RecordValue)> {
    metadata.entries().into_iter().map(|entry| (entry.key, entry.value)).collect()
}

#[test]
fn order_record_has_entries_for_what_is_known() {
    let hidden = |key: &str, text: &str| (key.to_string(), RecordValue::Hidden(secret(text)));
    let shown = |key: &str, text: &str| (key.to_string(), RecordValue::Text(text.to_string()));

    let bare = AtbbankMeta::order("order-9".to_string());
    assert!(record(&ConnectorMetadata::Order(bare.clone())) == vec![shown("order_id", "order-9")]);

    let mut meta = bare;
    let mut holder = card("4111");
    holder.card_holder_name = Some(secret("A B"));
    meta.save_card(&holder);
    meta.three_ds_server_trans_id = Some("tds-1".to_string());
    let full = vec![
        shown("order_id", "order-9"),
        hidden("card_number", "4111"),
        hidden("card_cvc", "737"),
        hidden("card_exp_month", "03"),
        hidden("card_exp_year", "2030"),
        shown("card_holder", "A B"),
        shown("three_ds_server_trans_id", "tds-1"),
    ];
    assert!(record(&ConnectorMetadata::Order(meta.clone())) == full);

    meta.card_cvc = None;
    let partial = record(&ConnectorMetadata::Order(meta));
    assert_eq!(partial.len(), 6);
    assert!(partial.iter().all(|entry| entry.0 != "card_cvc"));
}

#[test]
fn status_record_has_all_keys() {
    let shown = |key: &str, text: &str| (key.to_string(), RecordValue::Text(text.to_string()));
    let number = |key: &str, number: i64| (key.to_string(), RecordValue::Integer(number));
    let null = |key: &str| (key.to_string(), RecordValue::Null);
    let full = OrderStatusMetadata {
        action_code: Some(-1),
        action_code_description: Some("refused".to_string()),
        approval_code: Some("ap".to_string()),
        auth_code: Some("au".to_string()),
        deposit_amount: Some(1050),
        refunded_amount: Some(0),
    };
    assert!(
        record(&ConnectorMetadata::OrderStatus(full))
            == vec![
                number("action_code", -1),
                shown("action_code_description", "refused"),
                shown("approval_code", "ap"),
                shown("auth_code", "au"),
                number("deposit_amount", 1050),
                number("refunded_amount", 0),
            ]
    );
    let empty = OrderStatusMetadata {
        action_code: None,
        action_code_description: None,
        approval_code: None,
        auth_code: None,
        deposit_amount: None,
        refunded_amount: None,
    };
    assert!(
        record(&ConnectorMetadata::OrderStatus(empty))
            == vec![
                null("action_code"),
                null("action_code_description"),
                null("approval_code"),
                null("auth_code"),
                null("deposit_amount"),
                null("refunded_amount"),
            ]
    );
}

#[test]
fn each_flow_reads_its_own_answer() {
    let answer = AtbbankRegisterResponse {
        order_id: Some("order-9".to_string()),
        form_url: Some("https://epg/page".to_string()),
        error_code: None,
        error_message: None,
    };
    let same = Response {
        response: Ok(AtbbankPaymentsResponse::Register(answer.clone())),
        status_code: 200,
    };
    let res = Response { response: Ok(answer), status_code: 200 };
    let payment = Atbbank::new().handle_register_response(&authorize(10), res).ok().unwrap();
    let other = Atbbank::new().handle_response(&authorize(10), same).ok().unwrap();
    assert_eq!(payment.status, AttemptStatus::AuthenticationPending);
    assert!(payment.response == other.response);

    let answer = AtbbankPaymentOrderResponse {
        error_code: Some(0),
        info: None,
        acs_url: None,
        creq: None,
        redirect: None,
        success: Some(true),
        data: None,
    };
    let res = Response { response: Ok(answer), status_code: 200 };
    let data = complete(None, AtbbankMeta::order("order-9".to_string()));
    let payment = Atbbank::new().handle_payment_order_response(&data, res).ok().unwrap();
    assert_eq!(payment.status, AttemptStatus::Charged);
    assert!(
        payment.response
            == Ok(PaymentsResponseData::transaction(ResponseId::NoResponseId, None, None, None))
    );

    let unreadable = Some(ConnectorError::ResponseDeserializationFailed);
    let res = Response { response: Err(ParsingError), status_code: 200 };
    assert_eq!(Atbbank::new().handle_register_response(&authorize(10), res).err(), unreadable);
    let res = Response { response: Err(ParsingError), status_code: 200 };
    assert_eq!(Atbbank::new().handle_payment_order_response(&data, res).err(), unreadable);
}

#[test]
fn copies_of_answers_are_equal() {
    let answer = refund_answer(5);
    assert_eq!(answer.clone(), answer);
    let answer = AtbbankCaptureResponse { error_code: Some(1), error_message: None };
    assert_eq!(answer.clone(), answer);
    let answer =
        AtbbankReverseResponse { error_code: None, error_message: Some("late".to_string()) };
    assert_eq!(answer.clone(), answer);
    let answer = AtbbankRefundResponse { error_code: Some(2), error_message: None };
    assert_eq!(answer.clone(), answer);
}

#[test]
fn answer_is_completed_by_another_reading() {
    let mut first = refund_answer(5);
    first.order_status = None;
    first.pan = Some("4111".to_string());
    let mut second = refund_answer(6);
    second.order_status = Some(4);
    second.ip = Some("10.0.0.1".to_string());
    let mut expected = refund_answer(5);
    expected.order_status = Some(4);
    expected.pan = Some("4111".to_string());
    expected.ip = Some("10.0.0.1".to_string());
    assert_eq!(first.completed_by(second), expected);
}
