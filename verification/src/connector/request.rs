//! Requests as they are handed to the HTTP client.
use vstd::prelude::*;

use crate::domain::http::{headers_view, Header, Maskable, MaskableView, Method};
use crate::errors::{ConnectorError, ConnectorErrorView};
use crate::secret::Secret;
use crate::transformers::capture::{AtbbankCaptureRequest, CaptureRequestView};
use crate::transformers::payment_order::{
    AtbbankPaymentOrderRequest, AtbbankPaymentOrderStage2Request, PaymentOrderRequestView,
    Stage2RequestView,
};
use crate::transformers::refund::{AtbbankRefundRequest, RefundRequestView};
use crate::transformers::register::{AtbbankRegisterRequest, RegisterRequestView};
use crate::transformers::reverse::{AtbbankReverseRequest, ReverseRequestView};
use crate::transformers::status::{AtbbankStatusRequest, StatusRequestView};

verus! {

/// The form that a request submits.
pub enum AtbbankForm {
    Register(AtbbankRegisterRequest),
    PaymentOrder(AtbbankPaymentOrderRequest),
    PaymentOrderStage2(AtbbankPaymentOrderStage2Request),
    Status(AtbbankStatusRequest),
    Capture(AtbbankCaptureRequest),
    Reverse(AtbbankReverseRequest),
    Refund(AtbbankRefundRequest),
}

/// What an [`AtbbankForm`] says.
#[verifier::ext_equal]
pub enum FormView {
    Register(RegisterRequestView),
    PaymentOrder(PaymentOrderRequestView),
    PaymentOrderStage2(Stage2RequestView),
    Status(StatusRequestView),
    Capture(CaptureRequestView),
    Reverse(ReverseRequestView),
    Refund(RefundRequestView),
}

impl View for AtbbankForm {
    type V = FormView;

    open spec fn view(&self) -> FormView {
        match self {
            AtbbankForm::Register(form) => FormView::Register(form@),
            AtbbankForm::PaymentOrder(form) => FormView::PaymentOrder(form@),
            AtbbankForm::PaymentOrderStage2(form) => FormView::PaymentOrderStage2(form@),
            AtbbankForm::Status(form) => FormView::Status(form@),
            AtbbankForm::Capture(form) => FormView::Capture(form@),
            AtbbankForm::Reverse(form) => FormView::Reverse(form@),
            AtbbankForm::Refund(form) => FormView::Refund(form@),
        }
    }
}

impl FormView {
    /// The user name that the form carries.
    pub open spec fn user_name(self) -> Seq<char> {
        match self {
            FormView::Register(form) => form.user_name,
            FormView::PaymentOrder(form) => form.user_name,
            FormView::PaymentOrderStage2(form) => form.user_name,
            FormView::Status(form) => form.user_name,
            FormView::Capture(form) => form.user_name,
            FormView::Reverse(form) => form.user_name,
            FormView::Refund(form) => form.user_name,
        }
    }

    /// The password that the form carries.
    pub open spec fn password(self) -> Seq<char> {
        match self {
            FormView::Register(form) => form.password,
            FormView::PaymentOrder(form) => form.password,
            FormView::PaymentOrderStage2(form) => form.password,
            FormView::Status(form) => form.password,
            FormView::Capture(form) => form.password,
            FormView::Reverse(form) => form.password,
            FormView::Refund(form) => form.password,
        }
    }

    /// The order that the form is about; a registration has none yet.
    pub open spec fn order_id(self) -> Option<Seq<char>> {
        match self {
            FormView::Register(_) => None,
            FormView::PaymentOrder(form) => Some(form.mdorder),
            FormView::PaymentOrderStage2(form) => Some(form.mdorder),
            FormView::Status(form) => Some(form.order_id),
            FormView::Capture(form) => Some(form.order_id),
            FormView::Reverse(form) => Some(form.order_id),
            FormView::Refund(form) => Some(form.order_id),
        }
    }
}

/// A field of a form, under the name that the gateway gives to it.
#[derive(PartialEq, Eq)]
pub struct FormEntry {
    pub name: String,
    pub value: Maskable,
}

impl View for FormEntry {
    type V = (Seq<char>, MaskableView);

    open spec fn view(&self) -> (Seq<char>, MaskableView) {
        (self.name@, self.value@)
    }
}

/// Fields, entry by entry.
pub open spec fn entries_view(entries: Seq<FormEntry>) -> Seq<(Seq<char>, MaskableView)> {
    entries.map_values(|entry: FormEntry| entry@)
}

/// The names of fields.
pub open spec fn field_names(fields: Seq<(Seq<char>, MaskableView)>) -> Seq<Seq<char>> {
    fields.map_values(|field: (Seq<char>, MaskableView)| field.0)
}

impl FormView {
    /// The fields of the form, in order. The gateway puts a dollar sign in front of the names of
    /// the card number and the security code. What must be kept out of logs is masked.
    pub open spec fn fields(self) -> Seq<(Seq<char>, MaskableView)> {
        match self {
            FormView::Register(form) => seq![
                ("userName"@, MaskableView::Masked(form.user_name)),
                ("password"@, MaskableView::Masked(form.password)),
                ("orderNumber"@, MaskableView::Normal(form.order_number)),
                ("amount"@, MaskableView::Normal(form.amount)),
                ("currency"@, MaskableView::Normal(form.currency)),
                ("returnUrl"@, MaskableView::Normal(form.return_url)),
                ("failUrl"@, MaskableView::Normal(form.fail_url)),
                ("language"@, MaskableView::Normal(form.language)),
            ],
            FormView::PaymentOrder(form) => seq![
                ("userName"@, MaskableView::Masked(form.user_name)),
                ("password"@, MaskableView::Masked(form.password)),
                ("MDORDER"@, MaskableView::Normal(form.mdorder)),
                ("$PAN"@, MaskableView::Masked(form.pan)),
                ("$CVC"@, MaskableView::Masked(form.cvc)),
                ("YYYY"@, MaskableView::Masked(form.expiry_year)),
                ("MM"@, MaskableView::Masked(form.expiry_month)),
                ("TEXT"@, MaskableView::Normal(form.text)),
                ("language"@, MaskableView::Normal(form.language)),
            ],
            FormView::PaymentOrderStage2(form) => seq![
                ("userName"@, MaskableView::Masked(form.user_name)),
                ("password"@, MaskableView::Masked(form.password)),
                ("MDORDER"@, MaskableView::Normal(form.mdorder)),
                ("threeDSServerTransId"@, MaskableView::Normal(form.three_ds_server_trans_id)),
                ("language"@, MaskableView::Normal(form.language)),
            ],
            FormView::Status(form) => seq![
                ("userName"@, MaskableView::Masked(form.user_name)),
                ("password"@, MaskableView::Masked(form.password)),
                ("orderId"@, MaskableView::Normal(form.order_id)),
                ("language"@, MaskableView::Normal(form.language)),
            ],
            FormView::Capture(form) => seq![
                ("userName"@, MaskableView::Masked(form.user_name)),
                ("password"@, MaskableView::Masked(form.password)),
                ("orderId"@, MaskableView::Normal(form.order_id)),
                ("amount"@, MaskableView::Normal(form.amount)),
            ],
            FormView::Reverse(form) => seq![
                ("userName"@, MaskableView::Masked(form.user_name)),
                ("password"@, MaskableView::Masked(form.password)),
                ("orderId"@, MaskableView::Normal(form.order_id)),
            ],
            FormView::Refund(form) => seq![
                ("userName"@, MaskableView::Masked(form.user_name)),
                ("password"@, MaskableView::Masked(form.password)),
                ("orderId"@, MaskableView::Normal(form.order_id)),
                ("amount"@, MaskableView::Normal(form.amount)),
            ],
        }
    }
}

fn masked(name: &str, value: &Secret<String>) -> (r: FormEntry)
    ensures
        r@ == (name@, MaskableView::Masked(value@)),
{
    FormEntry { name: name.to_string(), value: Maskable::Masked(value.clone()) }
}

fn shown(name: &str, value: &String) -> (r: FormEntry)
    ensures
        r@ == (name@, MaskableView::Normal(value@)),
{
    FormEntry { name: name.to_string(), value: Maskable::Normal(value.clone()) }
}

impl AtbbankForm {
    /// The fields of the form under the gateway's names, ready to be encoded.
    pub fn fields(&self) -> (r: Vec<FormEntry>)
        ensures
            entries_view(r@) == self@.fields(),
    {
        let r: Vec<FormEntry> = match self {
            AtbbankForm::Register(form) => vec![
                masked("userName", &form.user_name),
                masked("password", &form.password),
                shown("orderNumber", &form.order_number),
                shown("amount", &form.amount),
                shown("currency", &form.currency),
                shown("returnUrl", &form.return_url),
                shown("failUrl", &form.fail_url),
                shown("language", &form.language),
            ],
            AtbbankForm::PaymentOrder(form) => vec![
                masked("userName", &form.user_name),
                masked("password", &form.password),
                shown("MDORDER", &form.mdorder),
                masked("$PAN", &form.pan),
                masked("$CVC", &form.cvc),
                masked("YYYY", &form.expiry_year),
                masked("MM", &form.expiry_month),
                shown("TEXT", &form.text),
                shown("language", &form.language),
            ],
            AtbbankForm::PaymentOrderStage2(form) => vec![
                masked("userName", &form.user_name),
                masked("password", &form.password),
                shown("MDORDER", &form.mdorder),
                shown("threeDSServerTransId", &form.three_ds_server_trans_id),
                shown("language", &form.language),
            ],
            AtbbankForm::Status(form) => vec![
                masked("userName", &form.user_name),
                masked("password", &form.password),
                shown("orderId", &form.order_id),
                shown("language", &form.language),
            ],
            AtbbankForm::Capture(form) => vec![
                masked("userName", &form.user_name),
                masked("password", &form.password),
                shown("orderId", &form.order_id),
                shown("amount", &form.amount),
            ],
            AtbbankForm::Reverse(form) => vec![
                masked("userName", &form.user_name),
                masked("password", &form.password),
                shown("orderId", &form.order_id),
            ],
            AtbbankForm::Refund(form) => vec![
                masked("userName", &form.user_name),
                masked("password", &form.password),
                shown("orderId", &form.order_id),
                shown("amount", &form.amount),
            ],
        };
        assert(entries_view(r@) =~= self@.fields());
        r
    }
}

/// The content of a request, by its encoding.
pub enum RequestContent {
    FormUrlEncoded(AtbbankForm),
}

impl View for RequestContent {
    type V = FormView;

    open spec fn view(&self) -> FormView {
        match self {
            RequestContent::FormUrlEncoded(form) => form@,
        }
    }
}

/// A request to the bank.
pub struct Request {
    pub method: Method,
    pub url: String,
    /// Whether the HTTP client adds the headers that all requests carry.
    pub default_headers: bool,
    pub headers: Vec<Header>,
    pub body: Option<RequestContent>,
}

/// What a [`Request`] says.
#[verifier::ext_equal]
pub struct RequestView {
    pub method: Method,
    pub url: Seq<char>,
    pub default_headers: bool,
    pub headers: Seq<(Seq<char>, MaskableView)>,
    pub body: Option<FormView>,
}

impl View for Request {
    type V = RequestView;

    open spec fn view(&self) -> RequestView {
        RequestView {
            method: self.method,
            url: self.url@,
            default_headers: self.default_headers,
            headers: headers_view(self.headers@),
            body: match self.body {
                Some(content) => Some(content@),
                None => None,
            },
        }
    }
}

/// The content type of every request.
pub open spec fn form_content_type() -> Seq<char> {
    "application/x-www-form-urlencoded"@
}

/// The headers of every request: the content type alone. The credentials are in the body.
pub open spec fn common_headers() -> Seq<(Seq<char>, MaskableView)> {
    seq![("Content-Type"@, MaskableView::Normal(form_content_type()))]
}

/// A form that is posted to a URL.
pub open spec fn posted(url: Seq<char>, form: FormView) -> RequestView {
    RequestView {
        method: Method::Post,
        url,
        default_headers: true,
        headers: common_headers(),
        body: Some(form),
    }
}

/// A form that is posted to a URL, where there is one to post.
pub open spec fn posted_if(url: Seq<char>, form: Result<FormView, ConnectorErrorView>) -> Result<
    Option<RequestView>,
    ConnectorErrorView,
> {
    match form {
        Ok(form) => Ok(Some(posted(url, form))),
        Err(error) => Err(error),
    }
}

/// The view of a request that may not be made.
pub open spec fn request_view(result: Result<Option<Request>, ConnectorError>) -> Result<
    Option<RequestView>,
    ConnectorErrorView,
> {
    match result {
        Ok(Some(request)) => Ok(Some(request@)),
        Ok(None) => Ok(None),
        Err(error) => Err(error@),
    }
}

impl Request {
    /// Posts a form, with the headers that all requests carry.
    pub fn post(url: String, headers: Vec<Header>, body: RequestContent) -> (r: Self)
        ensures
            r@ == (RequestView {
                method: Method::Post,
                url: url@,
                default_headers: true,
                headers: headers_view(headers@),
                body: Some(body@),
            }),
    {
        Request { method: Method::Post, url, default_headers: true, headers, body: Some(body) }
    }
}

} // verus!
