use core::marker::PhantomData;

use atbbank::connector::common::Atbbank;
use atbbank::connector::integration::ConnectorIntegration;
use atbbank::connector::request::{AtbbankForm, Request, RequestContent};
use atbbank::domain::amount::{MinorUnit, StringMinorUnit, StringMinorUnitForConnector};
use atbbank::domain::enums::{AttemptStatus, CaptureMethod, Currency, CurrencyUnit};
use atbbank::domain::flows::SetupMandate;
use atbbank::domain::http::{ConnectorParams, Connectors, Maskable, Method};
use atbbank::domain::payment_method::{Card, PaymentMethodData};
use atbbank::domain::request_types::{
    BrowserInformation, CompleteAuthorizeData, PaymentsAuthorizeData, PaymentsCancelData,
    PaymentsCaptureData, PaymentsSyncData, RefundsData,
};
use atbbank::domain::response_types::{ErrorResponse, ResponseId};
use atbbank::domain::router_data::{
    ConnectorAuthType, PaymentsAuthorizeRouterData, PaymentsCancelRouterData,
    PaymentsCaptureRouterData, PaymentsCompleteAuthorizeRouterData, PaymentsSyncRouterData,
    RefundExecuteRouterData, RefundSyncRouterData, RouterData,
};
use atbbank::errors::{ConnectorError, ParsingError};
use atbbank::secret::Secret;
use atbbank::transformers::auth::AtbbankAuthType;
use atbbank::transformers::capture::AtbbankCaptureRequest;
use atbbank::transformers::currency::currency_to_numeric;
use atbbank::transformers::meta::AtbbankMeta;
use atbbank::transformers::payment_order::AtbbankPaymentOrderRequest;
use atbbank::transformers::refund::AtbbankRefundRequest;
use atbbank::transformers::register::{AtbbankRegisterRequest, AtbbankRouterData};
use atbbank::transformers::reverse::AtbbankReverseRequest;
use atbbank::transformers::status::AtbbankStatusRequest;

fn secret(text: &str) -> Secret<String> {
    Secret::new(text.to_string())
}

fn body_key() -> ConnectorAuthType {
    ConnectorAuthType::BodyKey { api_key: secret("merchant"), key1: secret("pass") }
}

fn card(holder: Option<&str>) -> Card {
    Card {
        card_number: secret("4111111111111111"),
        card_exp_month: secret("03"),
        card_exp_year: secret("2030"),
        card_cvc: secret("737"),
        card_holder_name: holder.map(secret),
    }
}

fn connectors() -> Connectors {
    Connectors { atbbank: ConnectorParams { base_url: "https://epg.example/".to_string() } }
}

fn router_data<F, T, R>(auth: ConnectorAuthType, request: T) -> RouterData<F, T, R> {
    RouterData {
        flow: PhantomData,
        status: AttemptStatus::Started,
        connector_auth_type: auth,
        connector_request_reference_id: "pay_1".to_string(),
        request,
        response: Err(ErrorResponse::plain(String::new(), String::new(), 0, None)),
        amount_captured: Some(7),
    }
}

fn authorize_data() -> PaymentsAuthorizeData {
    PaymentsAuthorizeData {
        minor_amount: MinorUnit(1050),
        currency: Currency::new("AZN"),
        capture_method: None,
        payment_method_data: PaymentMethodData::Card(card(Some("A B"))),
        router_return_url: Some("https://router/return".to_string()),
        complete_authorize_url: Some("https://router/complete".to_string()),
        browser_info: None,
    }
}

fn meta(order_id: &str) -> AtbbankMeta {
    AtbbankMeta::order(order_id.to_string())
}

fn complete(
    method: Option<PaymentMethodData>,
    connector_meta: Option<Result<AtbbankMeta, ParsingError>>,
) -> PaymentsCompleteAuthorizeRouterData {
    router_data(
        body_key(),
        CompleteAuthorizeData {
            payment_method_data: method,
            connector_meta,
            complete_authorize_url: Some("https://router/complete".to_string()),
        },
    )
}

fn form(content: RequestContent) -> AtbbankForm {
    match content {
        RequestContent::FormUrlEncoded(form) => form,
    }
}

fn assert_posted(request: &Request, url: &str) {
    assert_eq!(request.method, Method::Post);
    assert_eq!(request.url, url);
    assert!(request.default_headers);
    assert_eq!(request.headers.len(), 1);
    assert_eq!(request.headers[0].name, "Content-Type");
    assert!(
        request.headers[0].value
            == Maskable::Normal("application/x-www-form-urlencoded".to_string())
    );
    assert!(request.body.is_some());
}

#[test]
fn currencies_have_numeric_codes() {
    for (code, numeric) in [
        ("AZN", "944"),
        ("USD", "840"),
        ("EUR", "978"),
        ("GBP", "826"),
        ("TRY", "949"),
        ("RUB", "643"),
    ] {
        assert_eq!(currency_to_numeric(&Currency::new(code)), Ok(numeric.to_string()));
    }
}

#[test]
fn other_currencies_are_refused_by_name() {
    assert_eq!(
        currency_to_numeric(&Currency::new("JPY")),
        Err(ConnectorError::NotSupported {
            message: "Currency JPY".to_string(),
            connector: "atbbank",
        })
    );
}

#[test]
fn body_key_is_user_name_and_password() {
    let auth = AtbbankAuthType::try_from(&body_key()).unwrap();
    assert_eq!(auth.user_name.peek(), "merchant");
    assert_eq!(auth.password.peek(), "pass");
}

#[test]
fn other_credentials_are_refused() {
    for auth in [
        ConnectorAuthType::TemporaryAuth,
        ConnectorAuthType::HeaderKey { api_key: secret("k") },
        ConnectorAuthType::SignatureKey {
            api_key: secret("k"),
            key1: secret("l"),
            api_secret: secret("m"),
        },
        ConnectorAuthType::MultiAuthKey {
            api_key: secret("k"),
            key1: secret("l"),
            api_secret: secret("m"),
            key2: secret("n"),
        },
        ConnectorAuthType::CertificateAuth { certificate: secret("c"), private_key: secret("p") },
        ConnectorAuthType::CurrencyAuthKey,
        ConnectorAuthType::NoKey,
    ] {
        assert_eq!(
            AtbbankAuthType::try_from(&auth).err(),
            Some(ConnectorError::FailedToObtainAuthType)
        );
    }
}

#[test]
fn amounts_are_written_in_decimal() {
    let currency = Currency::new("USD");
    for (amount, text) in [
        (0, "0"),
        (9, "9"),
        (10, "10"),
        (1050, "1050"),
        (-25, "-25"),
        (i64::MAX, "9223372036854775807"),
        (i64::MIN, "-9223372036854775808"),
    ] {
        assert_eq!(
            StringMinorUnitForConnector.convert(MinorUnit(amount), &currency),
            StringMinorUnit(text.to_string())
        );
    }
}

#[test]
fn register_request_of_a_payment() {
    let payment: PaymentsAuthorizeRouterData = router_data(body_key(), authorize_data());
    let item = AtbbankRouterData::from((StringMinorUnit("1050".to_string()), &payment));
    let request = AtbbankRegisterRequest::try_from(&item).unwrap();
    assert_eq!(request.user_name.peek(), "merchant");
    assert_eq!(request.password.peek(), "pass");
    assert_eq!(request.order_number, "pay_1");
    assert_eq!(request.amount, "1050");
    assert_eq!(request.currency, "944");
    assert_eq!(request.return_url, "https://router/return");
    assert_eq!(request.fail_url, "https://router/return");
    assert_eq!(request.language, "en");
}

#[test]
fn register_request_takes_the_browser_language() {
    let mut data = authorize_data();
    data.browser_info = Some(BrowserInformation { language: Some("az".to_string()) });
    let payment: PaymentsAuthorizeRouterData = router_data(body_key(), data);
    let item = AtbbankRouterData::from((StringMinorUnit("1".to_string()), &payment));
    assert_eq!(AtbbankRegisterRequest::try_from(&item).unwrap().language, "az");

    let mut data = authorize_data();
    data.browser_info = Some(BrowserInformation { language: None });
    let payment: PaymentsAuthorizeRouterData = router_data(body_key(), data);
    let item = AtbbankRouterData::from((StringMinorUnit("1".to_string()), &payment));
    assert_eq!(AtbbankRegisterRequest::try_from(&item).unwrap().language, "en");
}

#[test]
fn register_request_is_refused_in_order() {
    let mut data = authorize_data();
    data.currency = Currency::new("JPY");
    data.router_return_url = None;
    let mut payment: PaymentsAuthorizeRouterData = router_data(ConnectorAuthType::NoKey, data);
    let connector = Atbbank::new();
    let connectors = connectors();
    assert_eq!(
        connector.get_request_body(&payment, &connectors).err(),
        Some(ConnectorError::FailedToObtainAuthType)
    );
    payment.connector_auth_type = body_key();
    assert_eq!(
        connector.get_request_body(&payment, &connectors).err(),
        Some(ConnectorError::NotSupported {
            message: "Currency JPY".to_string(),
            connector: "atbbank",
        })
    );
    payment.request.currency = Currency::new("EUR");
    assert_eq!(
        connector.build_request(&payment, &connectors).err(),
        Some(ConnectorError::MissingRequiredField { field_name: "return_url" })
    );
}

#[test]
fn authorize_is_posted_to_register() {
    let payment: PaymentsAuthorizeRouterData = router_data(body_key(), authorize_data());
    let request = Atbbank::new().build_request(&payment, &connectors()).unwrap().unwrap();
    assert_posted(&request, "https://epg.example/rest/register.do");
    match form(request.body.unwrap()) {
        AtbbankForm::Register(form) => {
            assert_eq!(form.amount, "1050");
            assert_eq!(form.order_number, "pay_1");
        }
        _ => panic!("not a registration"),
    }
}

#[test]
fn manual_capture_is_posted_to_pre_auth() {
    for (capture_method, url) in [
        (Some(CaptureMethod::Manual), "https://epg.example/rest/registerPreAuth.do"),
        (Some(CaptureMethod::ManualMultiple), "https://epg.example/rest/register.do"),
        (Some(CaptureMethod::Scheduled), "https://epg.example/rest/register.do"),
        (Some(CaptureMethod::SequentialAutomatic), "https://epg.example/rest/register.do"),
        (Some(CaptureMethod::Automatic), "https://epg.example/rest/register.do"),
        (None, "https://epg.example/rest/register.do"),
    ] {
        let mut data = authorize_data();
        data.capture_method = capture_method;
        let payment: PaymentsAuthorizeRouterData = router_data(body_key(), data);
        assert_eq!(Atbbank::new().get_url(&payment, &connectors()), Ok(url.to_string()));
    }
}

#[test]
fn payment_order_of_a_card() {
    let auth = AtbbankAuthType::try_from(&body_key()).unwrap();
    let request =
        AtbbankPaymentOrderRequest::try_new(&auth, "order-9", &card(Some("A B")), "ru").unwrap();
    assert_eq!(request.user_name.peek(), "merchant");
    assert_eq!(request.password.peek(), "pass");
    assert_eq!(request.mdorder, "order-9");
    assert_eq!(request.pan.peek(), "4111111111111111");
    assert_eq!(request.cvc.peek(), "737");
    assert_eq!(request.expiry_year.peek(), "2030");
    assert_eq!(request.expiry_month.peek(), "03");
    assert_eq!(request.text, "A B");
    assert_eq!(request.language, "ru");
    let request = AtbbankPaymentOrderRequest::try_new(&auth, "order-9", &card(None), "ru").unwrap();
    assert_eq!(request.text, "");
}

#[test]
fn expiry_is_written_in_full() {
    let auth = AtbbankAuthType::try_from(&body_key()).unwrap();
    for (year, month, full_year, full_month) in [
        ("30", "3", "2030", "03"),
        ("2030", "03", "2030", "03"),
        ("30", "12", "2030", "12"),
        ("", "", "", ""),
        ("030", "003", "030", "003"),
        ("ab", "x", "ab", "x"),
        ("3b", "/", "3b", "/"),
        ("a0", ":", "a0", ":"),
        ("\u{0663}\u{0660}", "\u{0663}", "\u{0663}\u{0660}", "\u{0663}"),
    ] {
        let mut card = card(None);
        card.card_exp_year = secret(year);
        card.card_exp_month = secret(month);
        let request = AtbbankPaymentOrderRequest::try_new(&auth, "order-9", &card, "en").unwrap();
        assert_eq!(request.expiry_year.peek(), full_year);
        assert_eq!(request.expiry_month.peek(), full_month);

        let mut stored = meta("order-9");
        stored.save_card(&card);
        let request =
            AtbbankPaymentOrderRequest::try_from(&complete(None, Some(Ok(stored)))).unwrap();
        assert_eq!(request.expiry_year.peek(), full_year);
        assert_eq!(request.expiry_month.peek(), full_month);
    }
}

fn names_and_values(form: &AtbbankForm) -> Vec<(String, String, bool)> {
    form.fields()
        .into_iter()
        .map(|entry| match entry.value {
            Maskable::Masked(value) => (entry.name, value.peek().clone(), true),
            Maskable::Normal(value) => (entry.name, value, false),
        })
        .collect()
}

fn entries(expected: &[(&str, &str, bool)]) -> Vec<(String, String, bool)> {
    expected
        .iter()
        .map(|(name, value, masked)| (name.to_string(), value.to_string(), *masked))
        .collect()
}

#[test]
fn fields_of_the_registration() {
    let payment: PaymentsAuthorizeRouterData = router_data(body_key(), authorize_data());
    let form = form(Atbbank::new().get_request_body(&payment, &connectors()).unwrap());
    assert_eq!(
        names_and_values(&form),
        entries(&[
            ("userName", "merchant", true),
            ("password", "pass", true),
            ("orderNumber", "pay_1", false),
            ("amount", "1050", false),
            ("currency", "944", false),
            ("returnUrl", "https://router/return", false),
            ("failUrl", "https://router/return", false),
            ("language", "en", false),
        ])
    );
}

#[test]
fn fields_of_the_card_and_of_the_second_stage() {
    let mut stored = meta("order-9");
    let method = Some(PaymentMethodData::Card(card(Some("A B"))));
    let payment = complete(method, Some(Ok(stored.clone())));
    let first = form(Atbbank::new().get_request_body(&payment, &connectors()).unwrap());
    assert_eq!(
        names_and_values(&first),
        entries(&[
            ("userName", "merchant", true),
            ("password", "pass", true),
            ("MDORDER", "order-9", false),
            ("$PAN", "4111111111111111", true),
            ("$CVC", "737", true),
            ("YYYY", "2030", true),
            ("MM", "03", true),
            ("TEXT", "A B", false),
            ("language", "en", false),
        ])
    );
    stored.three_ds_server_trans_id = Some("tds-1".to_string());
    let payment = complete(None, Some(Ok(stored)));
    let second = form(Atbbank::new().get_request_body(&payment, &connectors()).unwrap());
    assert_eq!(
        names_and_values(&second),
        entries(&[
            ("userName", "merchant", true),
            ("password", "pass", true),
            ("MDORDER", "order-9", false),
            ("threeDSServerTransId", "tds-1", false),
            ("language", "en", false),
        ])
    );
}

#[test]
fn fields_of_the_follow_up_calls() {
    let connector = Atbbank::new();
    let connectors = connectors();
    let sync: PaymentsSyncRouterData = router_data(
        body_key(),
        PaymentsSyncData {
            connector_transaction_id: ResponseId::ConnectorTransactionId("order-9".to_string()),
        },
    );
    let capture: PaymentsCaptureRouterData = router_data(
        body_key(),
        PaymentsCaptureData {
            minor_amount_to_capture: MinorUnit(300),
            currency: Currency::new("AZN"),
            connector_transaction_id: "order-9".to_string(),
        },
    );
    let void: PaymentsCancelRouterData = router_data(
        body_key(),
        PaymentsCancelData { connector_transaction_id: "order-9".to_string() },
    );
    let refund: RefundExecuteRouterData = router_data(body_key(), refunds_data());
    let signed = [("userName", "merchant", true), ("password", "pass", true)];
    let order = ("orderId", "order-9", false);
    let body = form(connector.get_request_body(&sync, &connectors).unwrap());
    assert_eq!(
        names_and_values(&body),
        entries(&[signed[0], signed[1], order, ("language", "en", false)])
    );
    let body = form(connector.get_request_body(&capture, &connectors).unwrap());
    assert_eq!(
        names_and_values(&body),
        entries(&[signed[0], signed[1], order, ("amount", "300", false)])
    );
    let body = form(connector.get_request_body(&void, &connectors).unwrap());
    assert_eq!(names_and_values(&body), entries(&[signed[0], signed[1], order]));
    let body = form(connector.get_request_body(&refund, &connectors).unwrap());
    assert_eq!(
        names_and_values(&body),
        entries(&[signed[0], signed[1], order, ("amount", "120", false)])
    );
}

#[test]
fn card_of_the_payment_goes_before_the_stored_one() {
    let mut stored = meta("order-9");
    stored.card_number = Some(secret("5555"));
    let payment = complete(
        Some(PaymentMethodData::Card(card(Some("A B")))),
        Some(Ok(stored)),
    );
    let request = AtbbankPaymentOrderRequest::try_from(&payment).unwrap();
    assert_eq!(request.pan.peek(), "4111111111111111");
    assert_eq!(request.mdorder, "order-9");
    assert_eq!(request.language, "en");
}

#[test]
fn stored_card_is_submitted() {
    let mut stored = meta("order-9");
    stored.save_card(&card(Some("A B")));
    for method in [None, Some(PaymentMethodData::Other)] {
        let payment = complete(method, Some(Ok(stored.clone())));
        let request = AtbbankPaymentOrderRequest::try_from(&payment).unwrap();
        assert_eq!(request.mdorder, "order-9");
        assert_eq!(request.pan.peek(), "4111111111111111");
        assert_eq!(request.cvc.peek(), "737");
        assert_eq!(request.expiry_year.peek(), "2030");
        assert_eq!(request.expiry_month.peek(), "03");
        assert_eq!(request.text, "A B");
        assert_eq!(request.language, "en");
    }
}

#[test]
fn payment_order_is_refused_in_order() {
    let refusal = |payment: &PaymentsCompleteAuthorizeRouterData| {
        AtbbankPaymentOrderRequest::try_from(payment).err().unwrap()
    };
    let missing = |field_name: &'static str| ConnectorError::MissingRequiredField { field_name };

    let mut payment = complete(None, None);
    payment.connector_auth_type = ConnectorAuthType::NoKey;
    assert_eq!(refusal(&payment), ConnectorError::FailedToObtainAuthType);
    payment.connector_auth_type = body_key();
    assert_eq!(refusal(&payment), missing("connector_meta (AtbbankMeta)"));
    payment.request.connector_meta = Some(Err(ParsingError));
    assert_eq!(refusal(&payment), ConnectorError::RequestEncodingFailed);

    let mut stored = meta("order-9");
    payment.request.connector_meta = Some(Ok(stored.clone()));
    assert_eq!(
        refusal(&payment),
        missing("payment_method_data (Card) or card data in connector_meta")
    );
    stored.card_number = Some(secret("4111"));
    payment.request.connector_meta = Some(Ok(stored.clone()));
    assert_eq!(refusal(&payment), missing("card_cvc in connector_meta"));
    stored.card_cvc = Some(secret("1"));
    payment.request.connector_meta = Some(Ok(stored.clone()));
    assert_eq!(refusal(&payment), missing("card_exp_year in connector_meta"));
    stored.card_exp_year = Some(secret("2030"));
    payment.request.connector_meta = Some(Ok(stored.clone()));
    assert_eq!(refusal(&payment), missing("card_exp_month in connector_meta"));
    stored.card_exp_month = Some(secret("01"));
    payment.request.connector_meta = Some(Ok(stored));
    assert_eq!(AtbbankPaymentOrderRequest::try_from(&payment).unwrap().text, "");
}

#[test]
fn complete_authorize_is_posted_with_the_card() {
    let payment = complete(Some(PaymentMethodData::Card(card(None))), Some(Ok(meta("order-9"))));
    let request = Atbbank::new().build_request(&payment, &connectors()).unwrap().unwrap();
    assert_posted(&request, "https://epg.example/rest/paymentorder.do");
    match form(request.body.unwrap()) {
        AtbbankForm::PaymentOrder(form) => assert_eq!(form.mdorder, "order-9"),
        _ => panic!("not a card"),
    }
}

#[test]
fn second_stage_is_posted_with_the_three_ds_transaction() {
    let mut stored = meta("order-9");
    stored.three_ds_server_trans_id = Some("tds-1".to_string());
    let mut payment = complete(Some(PaymentMethodData::Card(card(None))), Some(Ok(stored)));
    match form(Atbbank::new().get_request_body(&payment, &connectors()).unwrap()) {
        AtbbankForm::PaymentOrderStage2(form) => {
            assert_eq!(form.user_name.peek(), "merchant");
            assert_eq!(form.password.peek(), "pass");
            assert_eq!(form.mdorder, "order-9");
            assert_eq!(form.three_ds_server_trans_id, "tds-1");
            assert_eq!(form.language, "en");
        }
        _ => panic!("not the second stage"),
    }
    payment.connector_auth_type = ConnectorAuthType::NoKey;
    assert_eq!(
        Atbbank::new().get_request_body(&payment, &connectors()).err(),
        Some(ConnectorError::FailedToObtainAuthType)
    );
}

#[test]
fn payment_sync_asks_for_the_order() {
    let mut payment: PaymentsSyncRouterData = router_data(
        body_key(),
        PaymentsSyncData {
            connector_transaction_id: ResponseId::ConnectorTransactionId("order-9".to_string()),
        },
    );
    let request = AtbbankStatusRequest::try_from(&payment).unwrap();
    assert_eq!(request.user_name.peek(), "merchant");
    assert_eq!(request.password.peek(), "pass");
    assert_eq!(request.order_id, "order-9");
    assert_eq!(request.language, "en");
    let request = Atbbank::new().build_request(&payment, &connectors()).unwrap().unwrap();
    assert_posted(&request, "https://epg.example/rest/getOrderStatusExtended.do");

    for id in [ResponseId::NoResponseId, ResponseId::EncodedData("x".to_string())] {
        payment.request.connector_transaction_id = id;
        assert_eq!(
            AtbbankStatusRequest::try_from(&payment).err(),
            Some(ConnectorError::MissingConnectorTransactionID)
        );
    }
}

#[test]
fn capture_is_posted_with_the_amount() {
    let payment: PaymentsCaptureRouterData = router_data(
        body_key(),
        PaymentsCaptureData {
            minor_amount_to_capture: MinorUnit(300),
            currency: Currency::new("AZN"),
            connector_transaction_id: "order-9".to_string(),
        },
    );
    let request = Atbbank::new().build_request(&payment, &connectors()).unwrap().unwrap();
    assert_posted(&request, "https://epg.example/rest/deposit.do");
    match form(request.body.unwrap()) {
        AtbbankForm::Capture(form) => {
            assert_eq!(form.order_id, "order-9");
            assert_eq!(form.amount, "300");
        }
        _ => panic!("not a capture"),
    }
    let own = AtbbankCaptureRequest::try_from(&payment).unwrap();
    assert_eq!(own.amount, "300");
    assert_eq!(own.user_name.peek(), "merchant");
    let given = AtbbankCaptureRequest::try_from((&payment, StringMinorUnit("299".to_string())));
    assert_eq!(given.unwrap().amount, "299");
}

#[test]
fn void_is_posted_for_the_order() {
    let payment: PaymentsCancelRouterData = router_data(
        body_key(),
        PaymentsCancelData { connector_transaction_id: "order-9".to_string() },
    );
    let own = AtbbankReverseRequest::try_from(&payment).unwrap();
    assert_eq!(own.order_id, "order-9");
    assert_eq!(own.user_name.peek(), "merchant");
    assert_eq!(own.password.peek(), "pass");
    let request = Atbbank::new().build_request(&payment, &connectors()).unwrap().unwrap();
    assert_posted(&request, "https://epg.example/rest/reverse.do");
}

fn refunds_data() -> RefundsData {
    RefundsData {
        minor_refund_amount: MinorUnit(120),
        currency: Currency::new("AZN"),
        connector_transaction_id: "order-9".to_string(),
    }
}

#[test]
fn refund_is_posted_with_the_amount() {
    let refund: RefundExecuteRouterData = router_data(body_key(), refunds_data());
    let request = Atbbank::new().build_request(&refund, &connectors()).unwrap().unwrap();
    assert_posted(&request, "https://epg.example/rest/refund.do");
    match form(request.body.unwrap()) {
        AtbbankForm::Refund(form) => {
            assert_eq!(form.order_id, "order-9");
            assert_eq!(form.amount, "120");
        }
        _ => panic!("not a refund"),
    }
    let item = AtbbankRouterData::from((StringMinorUnit("5".to_string()), &refund));
    assert_eq!(AtbbankRefundRequest::try_from(&item).unwrap().amount, "5");
}

#[test]
fn refund_sync_asks_for_the_order() {
    let refund: RefundSyncRouterData = router_data(body_key(), refunds_data());
    let request = AtbbankStatusRequest::try_from(&refund).unwrap();
    assert_eq!(request.order_id, "order-9");
    assert_eq!(request.language, "en");
    let request = Atbbank::new().build_request(&refund, &connectors()).unwrap().unwrap();
    assert_posted(&request, "https://epg.example/rest/getOrderStatusExtended.do");
}

#[test]
fn no_flow_goes_without_credentials() {
    let connector = Atbbank::new();
    let connectors = connectors();
    let refused = Some(ConnectorError::FailedToObtainAuthType);
    let sync: PaymentsSyncRouterData = router_data(
        ConnectorAuthType::NoKey,
        PaymentsSyncData { connector_transaction_id: ResponseId::NoResponseId },
    );
    assert_eq!(connector.build_request(&sync, &connectors).err(), refused);
    let capture: PaymentsCaptureRouterData = router_data(
        ConnectorAuthType::NoKey,
        PaymentsCaptureData {
            minor_amount_to_capture: MinorUnit(1),
            currency: Currency::new("AZN"),
            connector_transaction_id: "o".to_string(),
        },
    );
    assert_eq!(connector.build_request(&capture, &connectors).err(), refused);
    let void: PaymentsCancelRouterData = router_data(
        ConnectorAuthType::NoKey,
        PaymentsCancelData { connector_transaction_id: "o".to_string() },
    );
    assert_eq!(connector.build_request(&void, &connectors).err(), refused);
    let refund: RefundExecuteRouterData = router_data(ConnectorAuthType::NoKey, refunds_data());
    assert_eq!(connector.build_request(&refund, &connectors).err(), refused);
    let refund_sync: RefundSyncRouterData = router_data(ConnectorAuthType::NoKey, refunds_data());
    assert_eq!(connector.build_request(&refund_sync, &connectors).err(), refused);
}

#[test]
fn what_all_flows_share() {
    let connector = Atbbank::new();
    assert_eq!(connector.id(), "atbbank");
    assert_eq!(connector.get_currency_unit(), CurrencyUnit::Minor);
    assert_eq!(connector.common_get_content_type(), "application/x-www-form-urlencoded");
    assert_eq!(connector.get_content_type(), "application/x-www-form-urlencoded");
    assert_eq!(connector.base_url(&connectors()), "https://epg.example/");
    assert!(connector.get_auth_header(&body_key()).ok().unwrap().is_empty());
    let data = PaymentsSyncData { connector_transaction_id: ResponseId::NoResponseId };
    assert_eq!(
        connector.validate_psync_reference_id(&data, true, AttemptStatus::Started),
        Ok(())
    );
}

#[test]
fn mandates_are_not_set_up() {
    let payment: RouterData<SetupMandate, (), ()> = router_data(body_key(), ());
    assert_eq!(
        Atbbank::new().build_setup_mandate_request(&payment, &connectors()).err(),
        Some(ConnectorError::NotImplemented("Setup Mandate flow for Atbbank".to_string()))
    );
}
