//! Authorize: the order is registered with `register.do`, or with `registerPreAuth.do` where the
//! amount is only to be held.
use vstd::prelude::*;

use crate::connector::common::{endpoint, Atbbank};
use crate::connector::integration::ConnectorIntegration;
use crate::connector::request::{
    common_headers, posted_if, request_view, AtbbankForm, FormView, Request, RequestContent,
};
use crate::decimal::decimal;
use crate::domain::enums::CaptureMethod;
use crate::domain::flows::Authorize;
use crate::domain::http::{headers_view, Connectors, Header, Response};
use crate::domain::payment_method::PaymentMethodData;
use crate::domain::request_types::PaymentsAuthorizeData;
use crate::domain::response_types::{
    PaymentsResponseData, RedirectForm, RedirectFormView, TransactionView,
};
use crate::domain::router_data::{
    PaymentOutcome, PaymentsAuthorizeRouterData, ResponseRouterData, RouterData,
};
use crate::errors::{ConnectorError, ConnectorErrorView};
use crate::transformers::meta::{ConnectorMetadata, ConnectorMetadataView};
use crate::transformers::payments_response::{
    payments_outcome, register_outcome, AtbbankPaymentsResponse, AtbbankRegisterResponse,
};
use crate::transformers::register::{register_request, AtbbankRegisterRequest, AtbbankRouterData};
use crate::views::result_view;

verus! {

/// The call that registers an order: the amount is only held where it is captured by hand.
pub open spec fn register_path(capture_method: Option<CaptureMethod>) -> Seq<char> {
    if capture_method == Some(CaptureMethod::Manual) {
        "rest/registerPreAuth.do"@
    } else {
        "rest/register.do"@
    }
}

/// The form that registers a payment's order, with the amount in minor units.
pub open spec fn authorize_form(payment: PaymentsAuthorizeRouterData) -> Result<
    FormView,
    ConnectorErrorView,
> {
    match register_request(decimal(payment.request.minor_amount.0 as int), payment) {
        Ok(form) => Ok(FormView::Register(form)),
        Err(error) => Err(error),
    }
}

/// The payment goes on at the router instead of on the bank's page: a redirect leads to the URL
/// where the payment is continued, and the card is stored for that step.
pub open spec fn continued_at_router(
    transaction: TransactionView,
    request: PaymentsAuthorizeData,
) -> TransactionView {
    TransactionView {
        redirection_data: match (transaction.redirection_data, request.complete_authorize_url) {
            (Some(_), Some(url)) => Some(RedirectFormView::visit(url@)),
            (redirection_data, _) => redirection_data,
        },
        connector_metadata: match (
            transaction.connector_metadata,
            request.payment_method_data.card(),
        ) {
            (Some(ConnectorMetadataView::Order(meta)), Some(card)) => Some(
                ConnectorMetadataView::Order(meta.with_card(card)),
            ),
            (connector_metadata, _) => connector_metadata,
        },
        ..transaction
    }
}

/// What an answer makes of a payment that is being authorized.
pub open spec fn authorize_outcome(
    answer: AtbbankPaymentsResponse,
    http_code: u16,
    request: PaymentsAuthorizeData,
) -> PaymentOutcome {
    outcome_at_router(payments_outcome(answer, http_code), request)
}

/// An outcome of which the payment, where the bank took it, goes on at the router.
pub open spec fn outcome_at_router(
    outcome: PaymentOutcome,
    request: PaymentsAuthorizeData,
) -> PaymentOutcome {
    match outcome.response {
        Ok(transaction) => PaymentOutcome::taken(
            outcome.status,
            continued_at_router(transaction, request),
        ),
        Err(_) => outcome,
    }
}

/// Lets the payment go on at the router instead of on the bank's page.
pub fn continue_at_router(
    response: PaymentsResponseData,
    request: &PaymentsAuthorizeData,
) -> (r: PaymentsResponseData)
    ensures
        r@ == continued_at_router(response@, *request),
{
    match response {
        PaymentsResponseData::TransactionResponse {
            resource_id,
            redirection_data,
            mandate_reference,
            connector_metadata,
            network_txn_id,
            connector_response_reference_id,
            incremental_authorization_allowed,
            authentication_data,
            charges,
        } => {
            let redirection_data = match (redirection_data, &request.complete_authorize_url) {
                (Some(_), Some(url)) => Some(RedirectForm::visit(url.clone())),
                (redirection_data, _) => redirection_data,
            };
            let connector_metadata = match (connector_metadata, &request.payment_method_data) {
                (Some(ConnectorMetadata::Order(meta)), PaymentMethodData::Card(card)) => {
                    let mut meta = meta;
                    meta.save_card(card);
                    Some(ConnectorMetadata::Order(meta))
                },
                (connector_metadata, _) => connector_metadata,
            };
            PaymentsResponseData::TransactionResponse {
                resource_id,
                redirection_data,
                mandate_reference,
                connector_metadata,
                network_txn_id,
                connector_response_reference_id,
                incremental_authorization_allowed,
                authentication_data,
                charges,
            }
        },
    }
}

impl ConnectorIntegration<Authorize, PaymentsAuthorizeData, PaymentsResponseData> for Atbbank {
    type Answer = AtbbankPaymentsResponse;

    open spec fn path(req: PaymentsAuthorizeRouterData) -> Seq<char> {
        register_path(req.request.capture_method)
    }

    open spec fn form(req: PaymentsAuthorizeRouterData) -> Result<FormView, ConnectorErrorView> {
        authorize_form(req)
    }

    open spec fn reads(
        data: PaymentsAuthorizeRouterData,
        answer: AtbbankPaymentsResponse,
        http_code: u16,
        result: PaymentsAuthorizeRouterData,
    ) -> bool {
        &&& result.outcome() == authorize_outcome(answer, http_code, data.request)
        &&& result.same_payment(data)
        &&& result.amount_captured == data.amount_captured
    }

    fn get_headers(&self, req: &PaymentsAuthorizeRouterData, connectors: &Connectors) -> (r: Result<
        Vec<Header>,
        ConnectorError,
    >)
        ensures
            r matches Ok(headers) && headers_view(headers@) == common_headers(),
    {
        self.build_headers(req, connectors)
    }

    fn get_url(&self, req: &PaymentsAuthorizeRouterData, connectors: &Connectors) -> (r: Result<
        String,
        ConnectorError,
    >)
        ensures
            r matches Ok(url) && url@ == endpoint(
                *connectors,
                register_path(req.request.capture_method),
            ),
    {
        let path = if req.request.capture_method == Some(CaptureMethod::Manual) {
            "rest/registerPreAuth.do"
        } else {
            "rest/register.do"
        };
        Ok(self.endpoint_url(connectors, path))
    }

    fn get_request_body(&self, req: &PaymentsAuthorizeRouterData, _connectors: &Connectors) -> (r:
        Result<RequestContent, ConnectorError>)
        ensures
            result_view(r) == authorize_form(*req),
    {
        let amount = self.amount_converter.convert(req.request.minor_amount, &req.request.currency);
        let connector_router_data = AtbbankRouterData::from((amount, req));
        let form = AtbbankRegisterRequest::try_from(&connector_router_data)?;
        Ok(RequestContent::FormUrlEncoded(AtbbankForm::Register(form)))
    }

    fn build_request(&self, req: &PaymentsAuthorizeRouterData, connectors: &Connectors) -> (r:
        Result<Option<Request>, ConnectorError>)
        ensures
            request_view(r) == posted_if(
                endpoint(*connectors, register_path(req.request.capture_method)),
                authorize_form(*req),
            ),
    {
        let url = self.get_url(req, connectors)?;
        let headers = self.get_headers(req, connectors)?;
        let body = self.get_request_body(req, connectors)?;
        Ok(Some(Request::post(url, headers, body)))
    }

    fn handle_response(
        &self,
        data: &PaymentsAuthorizeRouterData,
        res: Response<AtbbankPaymentsResponse>,
    ) -> (r: Result<PaymentsAuthorizeRouterData, ConnectorError>)
        ensures
            match res.response {
                Ok(answer) => r matches Ok(payment) && {
                    &&& payment.outcome() == authorize_outcome(
                        answer,
                        res.status_code,
                        data.request,
                    )
                    &&& payment.same_payment(*data)
                    &&& payment.amount_captured == data.amount_captured
                },
                Err(_) => r == Err::<PaymentsAuthorizeRouterData, ConnectorError>(
                    ConnectorError::ResponseDeserializationFailed,
                ),
            },
    {
        let response = match res.response {
            Ok(response) => response,
            Err(_) => {
                return Err(ConnectorError::ResponseDeserializationFailed);
            },
        };
        let router_data = RouterData::try_from(
            ResponseRouterData { response, data: data.clone(), http_code: res.status_code },
        )?;
        let response = match router_data.response {
            Ok(response) => Ok(continue_at_router(response, &data.request)),
            Err(error) => Err(error),
        };
        Ok(RouterData { response, ..router_data })
    }
}

impl Atbbank {
    /// Reads the answer of the call that this flow makes: an order is registered, so the answer is
    /// that of a registration.
    pub fn handle_register_response(
        &self,
        data: &PaymentsAuthorizeRouterData,
        res: Response<AtbbankRegisterResponse>,
    ) -> (r: Result<PaymentsAuthorizeRouterData, ConnectorError>)
        ensures
            match res.response {
                Ok(answer) => r matches Ok(payment) && {
                    &&& payment.outcome() == outcome_at_router(
                        register_outcome(answer, res.status_code),
                        data.request,
                    )
                    &&& payment.same_payment(*data)
                    &&& payment.amount_captured == data.amount_captured
                },
                Err(_) => r == Err::<PaymentsAuthorizeRouterData, ConnectorError>(
                    ConnectorError::ResponseDeserializationFailed,
                ),
            },
    {
        let response = match res.response {
            Ok(answer) => Ok(AtbbankPaymentsResponse::Register(answer)),
            Err(error) => Err(error),
        };
        self.handle_response(data, Response { response, status_code: res.status_code })
    }
}

} // verus!
