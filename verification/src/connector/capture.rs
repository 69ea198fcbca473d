//! Capture: a held amount is captured with `deposit.do`.
use vstd::prelude::*;

use crate::connector::common::{endpoint, Atbbank};
use crate::connector::integration::ConnectorIntegration;
use crate::connector::request::{
    common_headers, posted_if, request_view, AtbbankForm, FormView, Request, RequestContent,
};
use crate::decimal::decimal;
use crate::domain::flows::Capture;
use crate::domain::http::{headers_view, Connectors, Header, Response};
use crate::domain::request_types::PaymentsCaptureData;
use crate::domain::response_types::PaymentsResponseData;
use crate::domain::router_data::{PaymentsCaptureRouterData, ResponseRouterData, RouterData};
use crate::errors::{ConnectorError, ConnectorErrorView};
use crate::transformers::capture::{
    capture_outcome, capture_request, AtbbankCaptureRequest, AtbbankCaptureResponse,
};
use crate::views::result_view;

verus! {

/// The form that captures an amount, in minor units.
pub open spec fn capture_form(payment: PaymentsCaptureRouterData) -> Result<
    FormView,
    ConnectorErrorView,
> {
    match capture_request(
        payment,
        decimal(payment.request.minor_amount_to_capture.0 as int),
    ) {
        Ok(form) => Ok(FormView::Capture(form)),
        Err(error) => Err(error),
    }
}

impl ConnectorIntegration<Capture, PaymentsCaptureData, PaymentsResponseData> for Atbbank {
    type Answer = AtbbankCaptureResponse;

    open spec fn path(req: PaymentsCaptureRouterData) -> Seq<char> {
        "rest/deposit.do"@
    }

    open spec fn form(req: PaymentsCaptureRouterData) -> Result<FormView, ConnectorErrorView> {
        capture_form(req)
    }

    open spec fn reads(
        data: PaymentsCaptureRouterData,
        answer: AtbbankCaptureResponse,
        http_code: u16,
        result: PaymentsCaptureRouterData,
    ) -> bool {
        &&& result.outcome() == capture_outcome(
            answer,
            data.request.connector_transaction_id@,
            http_code,
        )
        &&& result.same_payment(data)
        &&& result.amount_captured is None
    }

    fn get_headers(&self, req: &PaymentsCaptureRouterData, connectors: &Connectors) -> (r: Result<
        Vec<Header>,
        ConnectorError,
    >)
        ensures
            r matches Ok(headers) && headers_view(headers@) == common_headers(),
    {
        self.build_headers(req, connectors)
    }

    fn get_url(&self, _req: &PaymentsCaptureRouterData, connectors: &Connectors) -> (r: Result<
        String,
        ConnectorError,
    >)
        ensures
            r matches Ok(url) && url@ == endpoint(*connectors, "rest/deposit.do"@),
    {
        Ok(self.endpoint_url(connectors, "rest/deposit.do"))
    }

    fn get_request_body(&self, req: &PaymentsCaptureRouterData, _connectors: &Connectors) -> (r:
        Result<RequestContent, ConnectorError>)
        ensures
            result_view(r) == capture_form(*req),
    {
        let amount = self.amount_converter.convert(
            req.request.minor_amount_to_capture,
            &req.request.currency,
        );
        let form = AtbbankCaptureRequest::try_from((req, amount))?;
        Ok(RequestContent::FormUrlEncoded(AtbbankForm::Capture(form)))
    }

    fn build_request(&self, req: &PaymentsCaptureRouterData, connectors: &Connectors) -> (r: Result<
        Option<Request>,
        ConnectorError,
    >)
        ensures
            request_view(r) == posted_if(
                endpoint(*connectors, "rest/deposit.do"@),
                capture_form(*req),
            ),
    {
        let url = self.get_url(req, connectors)?;
        let headers = self.get_headers(req, connectors)?;
        let body = self.get_request_body(req, connectors)?;
        Ok(Some(Request::post(url, headers, body)))
    }

    fn handle_response(
        &self,
        data: &PaymentsCaptureRouterData,
        res: Response<AtbbankCaptureResponse>,
    ) -> (r: Result<PaymentsCaptureRouterData, ConnectorError>)
        ensures
            match res.response {
                Ok(answer) => r matches Ok(payment) && {
                    &&& payment.outcome() == capture_outcome(
                        answer,
                        data.request.connector_transaction_id@,
                        res.status_code,
                    )
                    &&& payment.same_payment(*data)
                    &&& payment.amount_captured is None
                },
                Err(_) => r == Err::<PaymentsCaptureRouterData, ConnectorError>(
                    ConnectorError::ResponseDeserializationFailed,
                ),
            },
    {
        let response = match res.response {
            Ok(response) => response,
            Err(_) => {
                return Err(ConnectorError::ResponseDeserializationFailed);
            },
        };
        RouterData::try_from(
            ResponseRouterData { response, data: data.clone(), http_code: res.status_code },
        )
    }
}

} // verus!
