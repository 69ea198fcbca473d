use core::marker::PhantomData;

use atbbank::connector::authorize::continue_at_router;
use atbbank::connector::common::Atbbank;
use atbbank::connector::complete_authorize::lead_to_second_stage;
use atbbank::connector::integration::ConnectorIntegration;
use atbbank::connector::request::{AtbbankForm, RequestContent};
use atbbank::connector::specifications::{
    CardNetwork, ConnectorCategory, ConnectorIntegrationStatus, FeatureStatus, PaymentMethod,
    PaymentMethodType,
};
use atbbank::connector::unsupported::IncomingWebhookRequestDetails;
use atbbank::domain::amount::MinorUnit;
use atbbank::domain::enums::{AttemptStatus, CaptureMethod, Currency, RefundStatus};
use atbbank::domain::http::{ConnectorParams, Connectors, Method, Response};
use atbbank::domain::payment_method::{Card, PaymentMethodData};
use atbbank::domain::request_types::{
    CompleteAuthorizeData, PaymentsAuthorizeData, PaymentsCancelData, PaymentsCaptureData,
    PaymentsSyncData, RefundsData,
};
use atbbank::domain::response_types::{
    ErrorResponse, PaymentsResponseData, RedirectForm, ResponseId,
};
use atbbank::domain::router_data::{
    ConnectorAuthType, PaymentsAuthorizeRouterData, PaymentsCancelRouterData,
    PaymentsCaptureRouterData, PaymentsCompleteAuthorizeRouterData, PaymentsSyncRouterData,
    RefundExecuteRouterData, RefundSyncRouterData, ResponseRouterData, RouterData,
};
use atbbank::errors::{ConnectorError, ParsingError};
use atbbank::secret::Secret;
use atbbank::transformers::capture::AtbbankCaptureResponse;
use atbbank::transformers::error_response::AtbbankErrorResponse;
use atbbank::transformers::meta::{AtbbankMeta, ConnectorMetadata, OrderStatusMetadata};
use atbbank::transformers::payments_response::{
    AtbbankPaymentOrderResponse, AtbbankPaymentsResponse, AtbbankRegisterResponse,
};
use atbbank::transformers::refund::AtbbankRefundResponse;
use atbbank::transformers::reverse::AtbbankReverseResponse;
use atbbank::transformers::status::{
    atb_status_to_attempt_status, AtbbankOrderStatus, AtbbankOrderStatusResponse,
};

fn secret(text: &str) -> Secret<String> {
    Secret::new(text.to_string())
}

fn text(value: &str) -> Option<String> {
    Some(value.to_string())
}

fn body_key() -> ConnectorAuthType {
    ConnectorAuthType::BodyKey { api_key: secret("merchant"), key1: secret("pass") }
}

fn connectors() -> Connectors {
    Connectors { atbbank: ConnectorParams { base_url: "https://epg.example/".to_string() } }
}

fn card() -> Card {
    Card {
        card_number: secret("4111111111111111"),
        card_exp_month: secret("03"),
        card_exp_year: secret("2030"),
        card_cvc: secret("737"),
        card_holder_name: Some(secret("A B")),
    }
}

fn router_data<F, T, R>(request: T) -> RouterData<F, T, R> {
    RouterData {
        flow: PhantomData,
        status: AttemptStatus::Started,
        connector_auth_type: body_key(),
        connector_request_reference_id: "pay_1".to_string(),
        request,
        response: Err(ErrorResponse::plain(String::new(), String::new(), 0, None)),
        amount_captured: Some(7),
    }
}

fn authorize(method: PaymentMethodData, url: Option<&str>) -> PaymentsAuthorizeRouterData {
    router_data(PaymentsAuthorizeData {
        minor_amount: MinorUnit(1050),
        currency: Currency::new("AZN"),
        capture_method: None,
        payment_method_data: method,
        router_return_url: text("https://router/return"),
        complete_authorize_url: url.map(|url| url.to_string()),
        browser_info: None,
    })
}

fn complete(connector_meta: Option<Result<AtbbankMeta, ParsingError>>) -> CompleteAuthorizeData {
    CompleteAuthorizeData {
        payment_method_data: None,
        connector_meta,
        complete_authorize_url: text("https://router/complete"),
    }
}

fn answer<R>(response: R) -> Response<R> {
    Response { response: Ok(response), status_code: 200 }
}

fn register(order_id: Option<&str>, form_url: Option<&str>) -> AtbbankPaymentsResponse {
    AtbbankPaymentsResponse::Register(AtbbankRegisterResponse {
        order_id: order_id.map(|id| id.to_string()),
        form_url: form_url.map(|url| url.to_string()),
        error_code: None,
        error_message: None,
    })
}

fn order() -> AtbbankPaymentOrderResponse {
    AtbbankPaymentOrderResponse {
        error_code: None,
        info: None,
        acs_url: None,
        creq: None,
        redirect: None,
        success: None,
        data: None,
    }
}

fn status_answer(order_status: Option<i32>) -> AtbbankOrderStatusResponse {
    AtbbankOrderStatusResponse {
        order_status,
        error_code: None,
        error_message: None,
        order_number: None,
        pan: None,
        amount: None,
        currency: None,
        action_code: None,
        action_code_description: None,
        deposit_amount: None,
        refunded_amount: None,
        approval_code: None,
        auth_code: None,
        ip: None,
        card_auth_info: None,
        payment_amount_info: None,
    }
}

fn plain_transaction(resource_id: ResponseId) -> PaymentsResponseData {
    PaymentsResponseData::transaction(resource_id, None, None, None)
}

fn transform(response: AtbbankPaymentsResponse) -> PaymentsAuthorizeRouterData {
    let r = RouterData::try_from(ResponseRouterData {
        response,
        data: authorize(PaymentMethodData::Other, None),
        http_code: 200,
    });
    match r {
        Ok(payment) => payment,
        Err(_) => panic!("not read"),
    }
}

fn metadata(payment: PaymentsResponseData) -> Option<ConnectorMetadata> {
    match payment {
        PaymentsResponseData::TransactionResponse { connector_metadata, .. } => connector_metadata,
    }
}

fn redirect(payment: PaymentsResponseData) -> Option<RedirectForm> {
    match payment {
        PaymentsResponseData::TransactionResponse { redirection_data, .. } => redirection_data,
    }
}

#[test]
fn registered_order_waits_for_the_cardholder() {
    let payment = transform(register(Some("order-9"), Some("https://epg/page")));
    assert_eq!(payment.status, AttemptStatus::AuthenticationPending);
    let expected = PaymentsResponseData::transaction(
        ResponseId::ConnectorTransactionId("order-9".to_string()),
        Some(RedirectForm {
            endpoint: "https://epg/page".to_string(),
            method: Method::Get,
            form_fields: vec![],
        }),
        Some(ConnectorMetadata::Order(AtbbankMeta::order("order-9".to_string()))),
        None,
    );
    assert!(payment.response == Ok(expected));
    assert_eq!(payment.amount_captured, Some(7));
    assert_eq!(payment.connector_request_reference_id, "pay_1");
}

#[test]
fn registered_order_without_a_page_has_no_redirect() {
    for form_url in [None, Some("")] {
        let payment = transform(register(None, form_url));
        let expected = PaymentsResponseData::transaction(
            ResponseId::ConnectorTransactionId(String::new()),
            None,
            Some(ConnectorMetadata::Order(AtbbankMeta::order(String::new()))),
            None,
        );
        assert!(payment.response == Ok(expected));
    }
}

#[test]
fn refused_registration_fails_the_payment() {
    for (own, message) in [(text("Duplicate order"), "Duplicate order"), (None, "ATB error code: -5")] {
        let payment = transform(AtbbankPaymentsResponse::Register(AtbbankRegisterResponse {
            order_id: text("order-9"),
            form_url: text("https://epg/page"),
            error_code: Some(-5),
            error_message: own,
        }));
        assert_eq!(payment.status, AttemptStatus::Failure);
        let expected = ErrorResponse {
            code: "-5".to_string(),
            message: message.to_string(),
            reason: text(message),
            status_code: 200,
            attempt_status: Some(AttemptStatus::Failure),
            connector_transaction_id: None,
            connector_response_reference_id: None,
            network_advice_code: None,
            network_decline_code: None,
            network_error_message: None,
            connector_metadata: None,
        };
        assert!(payment.response == Err(expected));
    }
}

#[test]
fn error_code_goes_before_a_challenge() {
    let mut reply = order();
    reply.error_code = Some(3);
    reply.acs_url = text("https://acs");
    reply.creq = text("eyJ0");
    reply.success = Some(true);
    let payment = transform(AtbbankPaymentsResponse::PaymentOrder(reply));
    assert_eq!(payment.status, AttemptStatus::Failure);
    assert!(
        payment.response
            == Err(ErrorResponse::plain(
                "3".to_string(),
                "ATB paymentorder error: 3".to_string(),
                200,
                Some(AttemptStatus::Failure)
            ))
    );
}

#[test]
fn challenge_goes_before_a_success() {
    for error_code in [None, Some(0)] {
        let mut reply = order();
        reply.error_code = error_code;
        reply.acs_url = text("https://acs");
        reply.creq = text("eyJ0");
        reply.success = Some(true);
        let payment = transform(AtbbankPaymentsResponse::PaymentOrder(reply));
        assert_eq!(payment.status, AttemptStatus::AuthenticationPending);
        let form = redirect(payment.response.ok().unwrap()).unwrap();
        assert_eq!(form.endpoint, "https://acs");
        assert_eq!(form.method, Method::Post);
        assert_eq!(form.form_fields.len(), 1);
        assert_eq!(form.form_fields[0].name, "creq");
        assert_eq!(form.form_fields[0].value, "eyJ0");
    }
}

#[test]
fn half_a_challenge_is_none() {
    for (acs_url, creq) in [
        (None, text("eyJ0")),
        (text("https://acs"), None),
        (text(""), text("eyJ0")),
        (text("https://acs"), text("")),
    ] {
        let mut reply = order();
        reply.acs_url = acs_url;
        reply.creq = creq;
        let payment = transform(AtbbankPaymentsResponse::PaymentOrder(reply));
        assert_eq!(payment.status, AttemptStatus::Pending);
        assert!(payment.response == Ok(plain_transaction(ResponseId::NoResponseId)));
    }
}

#[test]
fn refused_card_fails_the_payment() {
    for (info, message) in [(text("Declined"), "Declined"), (None, "ATB paymentorder error: 5")] {
        let mut reply = order();
        reply.error_code = Some(5);
        reply.info = info;
        reply.success = Some(true);
        reply.redirect = text("https://epg/done");
        let payment = transform(AtbbankPaymentsResponse::PaymentOrder(reply));
        assert_eq!(payment.status, AttemptStatus::Failure);
        assert!(
            payment.response
                == Err(ErrorResponse::plain(
                    "5".to_string(),
                    message.to_string(),
                    200,
                    Some(AttemptStatus::Failure)
                ))
        );
    }
}

#[test]
fn reported_success_goes_before_a_redirect() {
    let mut reply = order();
    reply.error_code = Some(0);
    reply.success = Some(true);
    reply.redirect = text("https://epg/done");
    let payment = transform(AtbbankPaymentsResponse::PaymentOrder(reply));
    assert_eq!(payment.status, AttemptStatus::Charged);
    assert!(payment.response == Ok(plain_transaction(ResponseId::NoResponseId)));
}

#[test]
fn redirect_without_success_is_followed() {
    for success in [None, Some(false)] {
        let mut reply = order();
        reply.success = success;
        reply.redirect = text("https://epg/next");
        let payment = transform(AtbbankPaymentsResponse::PaymentOrder(reply));
        assert_eq!(payment.status, AttemptStatus::AuthenticationPending);
        let form = redirect(payment.response.ok().unwrap()).unwrap();
        assert_eq!(form, RedirectForm::visit("https://epg/next".to_string()));
        assert_eq!(form.method, Method::Get);
    }
}

#[test]
fn authorized_payment_is_continued_at_the_router() {
    let data = authorize(PaymentMethodData::Card(card()), Some("https://router/complete"));
    let reply = answer(register(Some("order-9"), Some("https://epg/page")));
    let payment = match Atbbank::new().handle_response(&data, reply) {
        Ok(payment) => payment,
        Err(_) => panic!("not read"),
    };
    assert_eq!(payment.status, AttemptStatus::AuthenticationPending);
    let response = payment.response.ok().unwrap();
    assert_eq!(
        redirect(response.clone()),
        Some(RedirectForm::visit("https://router/complete".to_string()))
    );
    match metadata(response) {
        Some(ConnectorMetadata::Order(meta)) => {
            assert_eq!(meta.order_id, "order-9");
            assert_eq!(meta.card_number.unwrap().peek(), "4111111111111111");
            assert_eq!(meta.card_cvc.unwrap().peek(), "737");
            assert_eq!(meta.card_exp_month.unwrap().peek(), "03");
            assert_eq!(meta.card_exp_year.unwrap().peek(), "2030");
            assert_eq!(meta.card_holder, text("A B"));
            assert_eq!(meta.three_ds_server_trans_id, None);
        }
        _ => panic!("nothing stored"),
    }
}

#[test]
fn without_a_page_no_redirect_is_made() {
    let data = authorize(PaymentMethodData::Other, Some("https://router/complete"));
    let payment = Atbbank::new().handle_response(&data, answer(register(Some("o"), None)));
    let response = payment.ok().unwrap().response.ok().unwrap();
    assert_eq!(redirect(response.clone()), None);
    assert!(
        metadata(response)
            == Some(ConnectorMetadata::Order(AtbbankMeta::order("o".to_string())))
    );
}

#[test]
fn without_a_url_the_bank_page_stays() {
    let data = authorize(PaymentMethodData::Card(card()), None);
    let reply = answer(register(Some("o"), Some("https://epg/page")));
    let response = Atbbank::new().handle_response(&data, reply).ok().unwrap().response.ok().unwrap();
    assert_eq!(redirect(response), Some(RedirectForm::visit("https://epg/page".to_string())));
}

#[test]
fn details_of_an_order_are_not_a_place_for_a_card() {
    let details = OrderStatusMetadata {
        action_code: Some(0),
        action_code_description: None,
        approval_code: None,
        auth_code: None,
        deposit_amount: None,
        refunded_amount: None,
    };
    let response = PaymentsResponseData::transaction(
        ResponseId::NoResponseId,
        None,
        Some(ConnectorMetadata::OrderStatus(details.clone())),
        None,
    );
    let data = authorize(PaymentMethodData::Card(card()), None);
    let r = continue_at_router(response, &data.request);
    assert!(metadata(r) == Some(ConnectorMetadata::OrderStatus(details)));
}

#[test]
fn authorized_card_is_submitted_in_the_next_step() {
    let data = authorize(PaymentMethodData::Card(card()), Some("https://router/complete"));
    let reply = answer(register(Some("order-9"), Some("https://epg/page")));
    let response = Atbbank::new().handle_response(&data, reply).ok().unwrap().response.ok().unwrap();
    let stored = match metadata(response) {
        Some(ConnectorMetadata::Order(meta)) => meta,
        _ => panic!("nothing stored"),
    };
    let next: PaymentsCompleteAuthorizeRouterData = router_data(complete(Some(Ok(stored))));
    let body = Atbbank::new().get_request_body(&next, &connectors()).ok().unwrap();
    match body {
        RequestContent::FormUrlEncoded(AtbbankForm::PaymentOrder(form)) => {
            assert_eq!(form.mdorder, "order-9");
            assert_eq!(form.pan.peek(), "4111111111111111");
            assert_eq!(form.cvc.peek(), "737");
            assert_eq!(form.expiry_month.peek(), "03");
            assert_eq!(form.expiry_year.peek(), "2030");
            assert_eq!(form.text, "A B");
        }
        _ => panic!("no card"),
    }
}

#[test]
fn unreadable_answers_are_errors_in_every_flow() {
    let connector = Atbbank::new();
    let expected = Some(ConnectorError::ResponseDeserializationFailed);
    let data = authorize(PaymentMethodData::Other, None);
    let res = Response { response: Err(ParsingError), status_code: 200 };
    assert_eq!(connector.handle_response(&data, res).err(), expected);
    let data: PaymentsCompleteAuthorizeRouterData = router_data(complete(None));
    let res = Response { response: Err(ParsingError), status_code: 200 };
    assert_eq!(connector.handle_response(&data, res).err(), expected);
    let data: PaymentsSyncRouterData =
        router_data(PaymentsSyncData { connector_transaction_id: ResponseId::NoResponseId });
    let res = Response { response: Err(ParsingError), status_code: 200 };
    assert_eq!(connector.handle_response(&data, res).err(), expected);
    let data = capture_data();
    let res = Response { response: Err(ParsingError), status_code: 200 };
    assert_eq!(connector.handle_response(&data, res).err(), expected);
    let data = void_data();
    let res = Response { response: Err(ParsingError), status_code: 200 };
    assert_eq!(connector.handle_response(&data, res).err(), expected);
    let data: RefundExecuteRouterData = router_data(refunds_data());
    let res = Response { response: Err(ParsingError), status_code: 200 };
    assert_eq!(connector.handle_response(&data, res).err(), expected);
    let data: RefundSyncRouterData = router_data(refunds_data());
    let res = Response { response: Err(ParsingError), status_code: 200 };
    assert_eq!(connector.handle_response(&data, res).err(), expected);
}

#[test]
fn first_stage_leads_to_the_second() {
    let mut new_meta = AtbbankMeta::order(String::new());
    new_meta.three_ds_server_trans_id = text("tds-1");
    let response = PaymentsResponseData::transaction(
        ResponseId::NoResponseId,
        None,
        Some(ConnectorMetadata::Order(new_meta)),
        None,
    );
    let mut stored = AtbbankMeta::order("order-9".to_string());
    stored.save_card(&card());

    let r = lead_to_second_stage(response.clone(), &complete(Some(Ok(stored.clone()))));
    assert_eq!(
        redirect(r.clone()),
        Some(RedirectForm::visit("https://router/complete".to_string()))
    );
    let mut expected = AtbbankMeta::order("order-9".to_string());
    expected.three_ds_server_trans_id = text("tds-1");
    assert!(metadata(r) == Some(ConnectorMetadata::Order(expected)));

    let mut without_url = complete(Some(Ok(stored)));
    without_url.complete_authorize_url = None;
    assert_eq!(redirect(lead_to_second_stage(response.clone(), &without_url)), None);

    let r = lead_to_second_stage(response.clone(), &complete(Some(Err(ParsingError))));
    assert!(metadata(r) == metadata(response));
}

#[test]
fn other_answers_lead_to_no_second_stage() {
    let redirecting = PaymentsResponseData::transaction(
        ResponseId::NoResponseId,
        Some(RedirectForm::visit("https://acs".to_string())),
        {
            let mut meta = AtbbankMeta::order(String::new());
            meta.three_ds_server_trans_id = text("tds-1");
            Some(ConnectorMetadata::Order(meta))
        },
        None,
    );
    let request = complete(Some(Ok(AtbbankMeta::order("order-9".to_string()))));
    assert!(lead_to_second_stage(redirecting.clone(), &request) == redirecting);
    let plain = plain_transaction(ResponseId::NoResponseId);
    assert!(lead_to_second_stage(plain.clone(), &request) == plain);
}

#[test]
fn continued_payment_is_read() {
    let data: PaymentsCompleteAuthorizeRouterData =
        router_data(complete(Some(Ok(AtbbankMeta::order("order-9".to_string())))));
    let mut reply = order();
    reply.success = Some(true);
    let reply = answer(AtbbankPaymentsResponse::PaymentOrder(reply));
    let payment = Atbbank::new().handle_response(&data, reply).ok().unwrap();
    assert_eq!(payment.status, AttemptStatus::Charged);
    assert!(payment.response == Ok(plain_transaction(ResponseId::NoResponseId)));
}

#[test]
fn order_statuses_have_numbers() {
    for (number, status) in [
        (0, AtbbankOrderStatus::Registered),
        (1, AtbbankOrderStatus::Authorized),
        (2, AtbbankOrderStatus::Deposited),
        (3, AtbbankOrderStatus::Reversed),
        (4, AtbbankOrderStatus::Refunded),
        (6, AtbbankOrderStatus::Declined),
        (7, AtbbankOrderStatus::SystemError),
    ] {
        assert_eq!(AtbbankOrderStatus::from_i32(number), Some(status));
        assert_eq!(status.to_i32(), number);
    }
    for number in [-1, 5, 8, i32::MAX, i32::MIN] {
        assert_eq!(AtbbankOrderStatus::from_i32(number), None);
    }
}

#[test]
fn order_statuses_of_payments() {
    for (status, held, auto) in [
        (
            AtbbankOrderStatus::Registered,
            AttemptStatus::AuthenticationPending,
            AttemptStatus::AuthenticationPending,
        ),
        (AtbbankOrderStatus::Authorized, AttemptStatus::Authorized, AttemptStatus::Charged),
        (AtbbankOrderStatus::Deposited, AttemptStatus::Charged, AttemptStatus::Charged),
        (AtbbankOrderStatus::Reversed, AttemptStatus::Voided, AttemptStatus::Voided),
        (AtbbankOrderStatus::Refunded, AttemptStatus::Charged, AttemptStatus::Charged),
        (AtbbankOrderStatus::Declined, AttemptStatus::Failure, AttemptStatus::Failure),
        (AtbbankOrderStatus::SystemError, AttemptStatus::Failure, AttemptStatus::Failure),
    ] {
        assert_eq!(atb_status_to_attempt_status(status, false), held);
        assert_eq!(atb_status_to_attempt_status(status, true), auto);
    }
}

fn sync(reply: AtbbankOrderStatusResponse) -> PaymentsSyncRouterData {
    let data: PaymentsSyncRouterData =
        router_data(PaymentsSyncData { connector_transaction_id: ResponseId::NoResponseId });
    match Atbbank::new().handle_response(&data, answer(reply)) {
        Ok(payment) => payment,
        Err(_) => panic!("not read"),
    }
}

#[test]
fn synced_payment_has_the_order_details() {
    let mut reply = status_answer(Some(2));
    reply.error_code = text("0");
    reply.order_number = text("pay_1");
    reply.action_code = Some(0);
    reply.approval_code = text("ap");
    reply.auth_code = text("au");
    reply.deposit_amount = Some(1050);
    reply.refunded_amount = Some(0);
    let payment = sync(reply);
    assert_eq!(payment.status, AttemptStatus::Charged);
    let expected = PaymentsResponseData::transaction(
        ResponseId::ConnectorTransactionId("pay_1".to_string()),
        None,
        Some(ConnectorMetadata::OrderStatus(OrderStatusMetadata {
            action_code: Some(0),
            action_code_description: None,
            approval_code: text("ap"),
            auth_code: text("au"),
            deposit_amount: Some(1050),
            refunded_amount: Some(0),
        })),
        text("pay_1"),
    );
    assert!(payment.response == Ok(expected));
}

#[test]
fn synced_payment_without_a_number() {
    let mut reply = status_answer(Some(1));
    reply.error_code = text("");
    let payment = sync(reply);
    assert_eq!(payment.status, AttemptStatus::Charged);
    assert!(
        payment.response
            == Ok(plain_transaction(ResponseId::ConnectorTransactionId(String::new())))
    );
}

#[test]
fn unknown_and_missing_statuses_wait() {
    for order_status in [None, Some(5), Some(99)] {
        assert_eq!(sync(status_answer(order_status)).status, AttemptStatus::AuthenticationPending);
    }
}

#[test]
fn status_error_fails_the_payment() {
    for (own, message) in [(text("No such order"), "No such order"), (None, "ATB status error: 6")] {
        let mut reply = status_answer(Some(2));
        reply.error_code = text("6");
        reply.error_message = own;
        reply.order_number = text("pay_1");
        reply.action_code_description = text("refused");
        let payment = sync(reply);
        assert_eq!(payment.status, AttemptStatus::Failure);
        let expected = ErrorResponse {
            connector_response_reference_id: text("pay_1"),
            network_error_message: text("refused"),
            ..ErrorResponse::plain(
                "6".to_string(),
                message.to_string(),
                200,
                Some(AttemptStatus::Failure),
            )
        };
        assert!(payment.response == Err(expected));
    }
}

fn capture_data() -> PaymentsCaptureRouterData {
    router_data(PaymentsCaptureData {
        minor_amount_to_capture: MinorUnit(300),
        currency: Currency::new("AZN"),
        connector_transaction_id: "order-9".to_string(),
    })
}

fn void_data() -> PaymentsCancelRouterData {
    router_data(PaymentsCancelData { connector_transaction_id: "order-9".to_string() })
}

#[test]
fn captured_payment_is_charged() {
    for error_code in [None, Some(0)] {
        let reply = AtbbankCaptureResponse { error_code, error_message: None };
        let payment = Atbbank::new().handle_response(&capture_data(), answer(reply)).ok().unwrap();
        assert_eq!(payment.status, AttemptStatus::Charged);
        assert_eq!(payment.amount_captured, None);
        assert!(
            payment.response
                == Ok(plain_transaction(ResponseId::ConnectorTransactionId("order-9".to_string())))
        );
    }
}

#[test]
fn refused_capture_fails() {
    for (own, message) in [(text("Too late"), "Too late"), (None, "ATB capture error: 7")] {
        let reply = AtbbankCaptureResponse { error_code: Some(7), error_message: own };
        let payment = Atbbank::new().handle_response(&capture_data(), answer(reply)).ok().unwrap();
        assert_eq!(payment.status, AttemptStatus::Failure);
        assert_eq!(payment.amount_captured, None);
        assert!(
            payment.response
                == Err(ErrorResponse::plain(
                    "7".to_string(),
                    message.to_string(),
                    200,
                    Some(AttemptStatus::CaptureFailed)
                ))
        );
    }
}

#[test]
fn reversed_payment_is_voided() {
    let reply = AtbbankCaptureResponse { error_code: Some(0), error_message: text("ignored") };
    let payment = Atbbank::new().handle_response(&void_data(), answer(reply)).ok().unwrap();
    assert_eq!(payment.status, AttemptStatus::Voided);
    assert_eq!(payment.amount_captured, Some(7));
    assert!(payment.response == Ok(plain_transaction(ResponseId::NoResponseId)));
}

#[test]
fn refused_void_fails() {
    for (own, message) in [(text("Too late"), "Too late"), (None, "ATB reverse error: 7")] {
        let expected = ErrorResponse::plain(
            "7".to_string(),
            message.to_string(),
            200,
            Some(AttemptStatus::VoidFailed),
        );
        let reply = AtbbankCaptureResponse { error_code: Some(7), error_message: own.clone() };
        let payment = Atbbank::new().handle_response(&void_data(), answer(reply)).ok().unwrap();
        assert_eq!(payment.status, AttemptStatus::VoidFailed);
        assert!(payment.response == Err(expected.clone()));

        let payment = RouterData::try_from(ResponseRouterData {
            response: AtbbankReverseResponse { error_code: Some(7), error_message: own },
            data: void_data(),
            http_code: 200,
        });
        let payment = payment.ok().unwrap();
        assert_eq!(payment.status, AttemptStatus::VoidFailed);
        assert!(payment.response == Err(expected));
    }
}

#[test]
fn reverse_answer_without_a_code_voids() {
    let payment = RouterData::try_from(ResponseRouterData {
        response: AtbbankReverseResponse { error_code: None, error_message: None },
        data: void_data(),
        http_code: 200,
    });
    let payment = payment.ok().unwrap();
    assert_eq!(payment.status, AttemptStatus::Voided);
    assert!(payment.response == Ok(plain_transaction(ResponseId::NoResponseId)));
}

fn refunds_data() -> RefundsData {
    RefundsData {
        minor_refund_amount: MinorUnit(120),
        currency: Currency::new("AZN"),
        connector_transaction_id: "order-9".to_string(),
    }
}

#[test]
fn refund_status_by_error_code() {
    for (error_code, status) in [
        (None, RefundStatus::Success),
        (Some(0), RefundStatus::Success),
        (Some(1), RefundStatus::Failure),
        (Some(-1), RefundStatus::Failure),
    ] {
        let reply = AtbbankRefundResponse { error_code, error_message: None };
        assert_eq!(RefundStatus::from(&reply), status);
    }
}

#[test]
fn taken_refund_goes_by_the_order() {
    let data: RefundExecuteRouterData = router_data(refunds_data());
    let reply = AtbbankRefundResponse { error_code: None, error_message: None };
    let refund = Atbbank::new().handle_response(&data, answer(reply)).ok().unwrap();
    let response = refund.response.unwrap();
    assert_eq!(response.connector_refund_id, "order-9");
    assert_eq!(response.refund_status, RefundStatus::Success);
    assert_eq!(refund.status, AttemptStatus::Started);
}

#[test]
fn refused_refund_is_an_error() {
    for (own, message) in [(text("Too much"), "Too much"), (None, "ATB refund failed")] {
        let data: RefundExecuteRouterData = router_data(refunds_data());
        let reply = AtbbankRefundResponse { error_code: Some(7), error_message: own };
        let refund = Atbbank::new().handle_response(&data, answer(reply)).ok().unwrap();
        assert_eq!(
            refund.response,
            Err(ErrorResponse::plain("7".to_string(), message.to_string(), 200, None))
        );
    }
}

#[test]
fn refund_sync_by_status_and_amount() {
    for (order_status, refunded, expected) in [
        (Some(4), None, RefundStatus::Success),
        (Some(4), Some(1), RefundStatus::Success),
        (Some(6), Some(120), RefundStatus::Failure),
        (Some(7), None, RefundStatus::Failure),
        (Some(2), Some(120), RefundStatus::Success),
        (Some(2), Some(500), RefundStatus::Success),
        (Some(2), Some(119), RefundStatus::Pending),
        (Some(2), Some(0), RefundStatus::Pending),
        (Some(2), None, RefundStatus::Pending),
        (Some(5), Some(120), RefundStatus::Success),
        (None, Some(-1), RefundStatus::Pending),
    ] {
        let data: RefundSyncRouterData = router_data(refunds_data());
        let mut reply = status_answer(order_status);
        reply.refunded_amount = refunded;
        reply.order_number = text("pay_1");
        let refund = Atbbank::new().handle_response(&data, answer(reply)).ok().unwrap();
        let response = refund.response.unwrap();
        assert_eq!(response.refund_status, expected);
        assert_eq!(response.connector_refund_id, "pay_1");
    }
}

#[test]
fn refund_sync_without_a_number() {
    let data: RefundSyncRouterData = router_data(refunds_data());
    let refund = Atbbank::new().handle_response(&data, answer(status_answer(Some(4))));
    assert_eq!(refund.ok().unwrap().response.unwrap().connector_refund_id, "");
}

#[test]
fn error_answers_are_read() {
    let connector = Atbbank::new();
    let known = AtbbankErrorResponse { error_code: text("E1"), error_message: text("bad") };
    let res = Response { response: Ok(known), status_code: 400 };
    assert_eq!(
        connector.build_error_response(res),
        Ok(ErrorResponse::plain("E1".to_string(), "bad".to_string(), 400, None))
    );
    let res = Response { response: Ok(AtbbankErrorResponse::default()), status_code: 500 };
    assert_eq!(
        connector.get_error_response(res),
        Ok(ErrorResponse::plain("UNKNOWN".to_string(), "Unknown error".to_string(), 500, None))
    );
    let res = Response { response: Err(ParsingError), status_code: 502 };
    assert_eq!(
        connector.build_error_response(res),
        Err(ConnectorError::ResponseDeserializationFailed)
    );
}

#[test]
fn webhooks_are_not_taken() {
    let connector = Atbbank::new();
    let request = IncomingWebhookRequestDetails { body: vec![1, 2] };
    let expected = Err(ConnectorError::WebhooksNotImplemented);
    assert_eq!(connector.get_webhook_object_reference_id(&request), expected);
    assert_eq!(connector.get_webhook_event_type(&request), expected);
    assert_eq!(connector.get_webhook_resource_object(&request), expected);
    assert!(connector.get_supported_webhook_flows().unwrap().is_empty());
}

#[test]
fn the_connector_describes_itself() {
    let info = Atbbank::new().get_connector_about().unwrap();
    assert_eq!(info.display_name, "ATB Bank");
    assert_eq!(
        info.description,
        "AzerTurkBank SmartVista EPG - direct bank card processing gateway supporting Visa, Mastercard, 3DS2, Apple Pay, and Google Pay for AZN/USD/EUR transactions."
    );
    assert_eq!(info.connector_type, ConnectorCategory::PaymentGateway);
    assert_eq!(info.integration_status, ConnectorIntegrationStatus::Live);

    let methods = Atbbank::new().get_supported_payment_methods().unwrap();
    assert_eq!(methods.len(), 2);
    assert_eq!(methods[0].payment_method_type, PaymentMethodType::Credit);
    assert_eq!(methods[1].payment_method_type, PaymentMethodType::Debit);
    for method in methods {
        assert_eq!(method.payment_method, PaymentMethod::Card);
        assert_eq!(method.details.mandates, FeatureStatus::NotSupported);
        assert_eq!(method.details.refunds, FeatureStatus::Supported);
        assert_eq!(
            method.details.supported_capture_methods,
            vec![CaptureMethod::Automatic, CaptureMethod::Manual]
        );
        let features = method.details.specific_features.unwrap();
        assert_eq!(features.three_ds, FeatureStatus::Supported);
        assert_eq!(features.no_three_ds, FeatureStatus::Supported);
        assert_eq!(
            features.supported_card_networks,
            vec![CardNetwork::Visa, CardNetwork::Mastercard]
        );
    }
}
