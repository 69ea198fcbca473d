//! Complete authorize: the card is submitted with `paymentorder.do`. Where the stored record names
//! a 3DS transaction, that is submitted in place of the card: the second of two stages. An answer
//! that asked for a 3DS transaction to be stored would lead there; none that the bank gives in its
//! present form does.
use vstd::prelude::*;

use crate::connector::common::{endpoint, Atbbank};
use crate::connector::integration::ConnectorIntegration;
use crate::connector::request::{
    common_headers, posted_if, request_view, AtbbankForm, FormView, Request, RequestContent,
};
use crate::domain::flows::CompleteAuthorize;
use crate::domain::http::{headers_view, Connectors, Header, Response};
use crate::domain::request_types::CompleteAuthorizeData;
use crate::domain::response_types::{
    PaymentsResponseData, RedirectForm, RedirectFormView, TransactionView,
};
use crate::domain::router_data::{
    PaymentOutcome, PaymentsCompleteAuthorizeRouterData, ResponseRouterData, RouterData,
};
use crate::errors::{ConnectorError, ConnectorErrorView};
use crate::transformers::auth::{credentials, AtbbankAuthType};
use crate::transformers::meta::{ConnectorMetadata, ConnectorMetadataView};
use crate::transformers::payment_order::{
    payment_order_request, AtbbankPaymentOrderRequest, AtbbankPaymentOrderStage2Request,
    Stage2RequestView,
};
use crate::transformers::payments_response::{
    payment_order_outcome, payments_outcome, AtbbankPaymentOrderResponse, AtbbankPaymentsResponse,
};
use crate::views::result_view;

verus! {

/// The 3DS transaction that the stored record names, after the first submission.
pub open spec fn pending_three_ds(request: CompleteAuthorizeData) -> Option<Seq<char>> {
    match request.connector_meta {
        Some(Ok(meta)) => meta@.three_ds_server_trans_id,
        _ => None,
    }
}

/// The order that the stored record names, where it can be decoded.
pub open spec fn stored_order_id(request: CompleteAuthorizeData) -> Seq<char> {
    match request.connector_meta {
        Some(Ok(meta)) => meta@.order_id,
        _ => Seq::empty(),
    }
}

/// The form that continues a payment: the 3DS transaction where the stored record names one,
/// and a card otherwise.
pub open spec fn complete_authorize_form(payment: PaymentsCompleteAuthorizeRouterData) -> Result<
    FormView,
    ConnectorErrorView,
> {
    match pending_three_ds(payment.request) {
        Some(three_ds_server_trans_id) => match credentials(payment.connector_auth_type) {
            Ok(auth) => Ok(
                FormView::PaymentOrderStage2(
                    Stage2RequestView {
                        user_name: auth.user_name,
                        password: auth.password,
                        mdorder: stored_order_id(payment.request),
                        three_ds_server_trans_id,
                        language: "en"@,
                    },
                ),
            ),
            Err(error) => Err(error),
        },
        None => match payment_order_request(payment) {
            Ok(form) => Ok(FormView::PaymentOrder(form)),
            Err(error) => Err(error),
        },
    }
}

/// The 3DS transaction that an answer asks to be stored, where it sends the cardholder nowhere:
/// the mark of the first of two stages.
pub open spec fn first_stage(transaction: TransactionView) -> Option<Seq<char>> {
    match (transaction.redirection_data, transaction.connector_metadata) {
        (None, Some(metadata)) => metadata.three_ds_server_trans_id(),
        _ => None,
    }
}

/// After the first of two stages, the 3DS transaction joins the stored order, the card is
/// forgotten, and the payment comes back to be continued once more.
pub open spec fn led_to_second_stage(
    transaction: TransactionView,
    request: CompleteAuthorizeData,
) -> TransactionView {
    match first_stage(transaction) {
        Some(three_ds_server_trans_id) => TransactionView {
            connector_metadata: match request.connector_meta {
                Some(Ok(meta)) => Some(
                    ConnectorMetadataView::Order(meta@.after_first_stage(three_ds_server_trans_id)),
                ),
                _ => transaction.connector_metadata,
            },
            redirection_data: match request.complete_authorize_url {
                Some(url) => Some(RedirectFormView::visit(url@)),
                None => None,
            },
            ..transaction
        },
        None => transaction,
    }
}

/// What an answer makes of a payment that is being continued.
pub open spec fn complete_authorize_outcome(
    answer: AtbbankPaymentsResponse,
    http_code: u16,
    request: CompleteAuthorizeData,
) -> PaymentOutcome {
    let outcome = payments_outcome(answer, http_code);
    match outcome.response {
        Ok(transaction) => PaymentOutcome::taken(
            outcome.status,
            led_to_second_stage(transaction, request),
        ),
        Err(_) => outcome,
    }
}

/// Prepares the second stage, where the answer was the first of two.
pub fn lead_to_second_stage(
    response: PaymentsResponseData,
    request: &CompleteAuthorizeData,
) -> (r: PaymentsResponseData)
    ensures
        r@ == led_to_second_stage(response@, *request),
{
    match response {
        PaymentsResponseData::TransactionResponse {
            resource_id,
            redirection_data,
            mandate_reference,
            connector_metadata,
            network_txn_id,
            connector_response_reference_id,
            incremental_authorization_allowed,
            authentication_data,
            charges,
        } => {
            let three_ds_server_trans_id = match (&redirection_data, &connector_metadata) {
                (None, Some(metadata)) => metadata.three_ds_server_trans_id(),
                _ => None,
            };
            let (redirection_data, connector_metadata) = match three_ds_server_trans_id {
                Some(three_ds_server_trans_id) => {
                    let connector_metadata = match &request.connector_meta {
                        Some(Ok(meta)) => {
                            let mut meta = meta.clone();
                            meta.finish_first_stage(three_ds_server_trans_id);
                            Some(ConnectorMetadata::Order(meta))
                        },
                        _ => connector_metadata,
                    };
                    let redirection_data = match &request.complete_authorize_url {
                        Some(url) => Some(RedirectForm::visit(url.clone())),
                        None => None,
                    };
                    (redirection_data, connector_metadata)
                },
                None => (redirection_data, connector_metadata),
            };
            PaymentsResponseData::TransactionResponse {
                resource_id,
                redirection_data,
                mandate_reference,
                connector_metadata,
                network_txn_id,
                connector_response_reference_id,
                incremental_authorization_allowed,
                authentication_data,
                charges,
            }
        },
    }
}

impl ConnectorIntegration<
    CompleteAuthorize,
    CompleteAuthorizeData,
    PaymentsResponseData,
> for Atbbank {
    type Answer = AtbbankPaymentsResponse;

    open spec fn path(req: PaymentsCompleteAuthorizeRouterData) -> Seq<char> {
        "rest/paymentorder.do"@
    }

    open spec fn form(req: PaymentsCompleteAuthorizeRouterData) -> Result<FormView, ConnectorErrorView> {
        complete_authorize_form(req)
    }

    open spec fn reads(
        data: PaymentsCompleteAuthorizeRouterData,
        answer: AtbbankPaymentsResponse,
        http_code: u16,
        result: PaymentsCompleteAuthorizeRouterData,
    ) -> bool {
        &&& result.outcome() == complete_authorize_outcome(answer, http_code, data.request)
        &&& result.same_payment(data)
        &&& result.amount_captured == data.amount_captured
    }

    fn get_headers(
        &self,
        req: &PaymentsCompleteAuthorizeRouterData,
        connectors: &Connectors,
    ) -> (r: Result<Vec<Header>, ConnectorError>)
        ensures
            r matches Ok(headers) && headers_view(headers@) == common_headers(),
    {
        self.build_headers(req, connectors)
    }

    fn get_url(&self, _req: &PaymentsCompleteAuthorizeRouterData, connectors: &Connectors) -> (r:
        Result<String, ConnectorError>)
        ensures
            r matches Ok(url) && url@ == endpoint(*connectors, "rest/paymentorder.do"@),
    {
        Ok(self.endpoint_url(connectors, "rest/paymentorder.do"))
    }

    fn get_request_body(
        &self,
        req: &PaymentsCompleteAuthorizeRouterData,
        _connectors: &Connectors,
    ) -> (r: Result<RequestContent, ConnectorError>)
        ensures
            result_view(r) == complete_authorize_form(*req),
    {
        if let Some(Ok(meta)) = &req.request.connector_meta {
            if let Some(three_ds_server_trans_id) = &meta.three_ds_server_trans_id {
                let auth = AtbbankAuthType::try_from(&req.connector_auth_type)?;
                let form = AtbbankPaymentOrderStage2Request {
                    user_name: auth.user_name,
                    password: auth.password,
                    mdorder: meta.order_id.clone(),
                    three_ds_server_trans_id: three_ds_server_trans_id.clone(),
                    language: "en".to_string(),
                };
                return Ok(RequestContent::FormUrlEncoded(AtbbankForm::PaymentOrderStage2(form)));
            }
        }
        let form = AtbbankPaymentOrderRequest::try_from(req)?;
        Ok(RequestContent::FormUrlEncoded(AtbbankForm::PaymentOrder(form)))
    }

    fn build_request(
        &self,
        req: &PaymentsCompleteAuthorizeRouterData,
        connectors: &Connectors,
    ) -> (r: Result<Option<Request>, ConnectorError>)
        ensures
            request_view(r) == posted_if(
                endpoint(*connectors, "rest/paymentorder.do"@),
                complete_authorize_form(*req),
            ),
    {
        let url = self.get_url(req, connectors)?;
        let headers = self.get_headers(req, connectors)?;
        let body = self.get_request_body(req, connectors)?;
        Ok(Some(Request::post(url, headers, body)))
    }

    fn handle_response(
        &self,
        data: &PaymentsCompleteAuthorizeRouterData,
        res: Response<AtbbankPaymentsResponse>,
    ) -> (r: Result<PaymentsCompleteAuthorizeRouterData, ConnectorError>)
        ensures
            match res.response {
                Ok(answer) => r matches Ok(payment) && {
                    &&& payment.outcome() == complete_authorize_outcome(
                        answer,
                        res.status_code,
                        data.request,
                    )
                    &&& payment.same_payment(*data)
                    &&& payment.amount_captured == data.amount_captured
                },
                Err(_) => r == Err::<PaymentsCompleteAuthorizeRouterData, ConnectorError>(
                    ConnectorError::ResponseDeserializationFailed,
                ),
            },
    {
        let response = match res.response {
            Ok(response) => response,
            Err(_) => {
                return Err(ConnectorError::ResponseDeserializationFailed);
            },
        };
        let router_data = RouterData::try_from(
            ResponseRouterData { response, data: data.clone(), http_code: res.status_code },
        )?;
        let response = match router_data.response {
            Ok(response) => Ok(lead_to_second_stage(response, &data.request)),
            Err(error) => Err(error),
        };
        Ok(RouterData { response, ..router_data })
    }
}

impl Atbbank {
    /// Reads the answer of the call that this flow makes: a card is submitted, so the answer is
    /// that of a submission, and the payment is left as it reads.
    pub fn handle_payment_order_response(
        &self,
        data: &PaymentsCompleteAuthorizeRouterData,
        res: Response<AtbbankPaymentOrderResponse>,
    ) -> (r: Result<PaymentsCompleteAuthorizeRouterData, ConnectorError>)
        ensures
            match res.response {
                Ok(answer) => r matches Ok(payment) && {
                    &&& payment.outcome() == payment_order_outcome(answer, res.status_code)
                    &&& payment.same_payment(*data)
                    &&& payment.amount_captured == data.amount_captured
                },
                Err(_) => r == Err::<PaymentsCompleteAuthorizeRouterData, ConnectorError>(
                    ConnectorError::ResponseDeserializationFailed,
                ),
            },
    {
        let response = match res.response {
            Ok(answer) => Ok(AtbbankPaymentsResponse::PaymentOrder(answer)),
            Err(error) => Err(error),
        };
        self.handle_response(data, Response { response, status_code: res.status_code })
    }
}

} // verus!
