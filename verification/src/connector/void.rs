//! Void: a held amount is given back with `reverse.do`.
use vstd::prelude::*;

use crate::connector::common::{endpoint, Atbbank};
use crate::connector::integration::ConnectorIntegration;
use crate::connector::request::{
    common_headers, posted_if, request_view, AtbbankForm, FormView, Request, RequestContent,
};
use crate::domain::flows::Void;
use crate::domain::http::{headers_view, Connectors, Header, Response};
use crate::domain::request_types::PaymentsCancelData;
use crate::domain::response_types::PaymentsResponseData;
use crate::domain::router_data::{PaymentsCancelRouterData, ResponseRouterData, RouterData};
use crate::errors::{ConnectorError, ConnectorErrorView};
use crate::transformers::capture::AtbbankCaptureResponse;
use crate::transformers::reverse::{reverse_outcome, reverse_request, AtbbankReverseRequest};
use crate::views::result_view;

verus! {

/// The form that reverses a payment.
pub open spec fn void_form(payment: PaymentsCancelRouterData) -> Result<
    FormView,
    ConnectorErrorView,
> {
    match reverse_request(payment) {
        Ok(form) => Ok(FormView::Reverse(form)),
        Err(error) => Err(error),
    }
}

impl ConnectorIntegration<Void, PaymentsCancelData, PaymentsResponseData> for Atbbank {
    type Answer = AtbbankCaptureResponse;

    open spec fn path(req: PaymentsCancelRouterData) -> Seq<char> {
        "rest/reverse.do"@
    }

    open spec fn form(req: PaymentsCancelRouterData) -> Result<FormView, ConnectorErrorView> {
        void_form(req)
    }

    open spec fn reads(
        data: PaymentsCancelRouterData,
        answer: AtbbankCaptureResponse,
        http_code: u16,
        result: PaymentsCancelRouterData,
    ) -> bool {
        &&& result.outcome() == reverse_outcome(answer.error_code, answer.error_message, http_code)
        &&& result.same_payment(data)
        &&& result.amount_captured == data.amount_captured
    }

    fn get_headers(&self, req: &PaymentsCancelRouterData, connectors: &Connectors) -> (r: Result<
        Vec<Header>,
        ConnectorError,
    >)
        ensures
            r matches Ok(headers) && headers_view(headers@) == common_headers(),
    {
        self.build_headers(req, connectors)
    }

    fn get_url(&self, _req: &PaymentsCancelRouterData, connectors: &Connectors) -> (r: Result<
        String,
        ConnectorError,
    >)
        ensures
            r matches Ok(url) && url@ == endpoint(*connectors, "rest/reverse.do"@),
    {
        Ok(self.endpoint_url(connectors, "rest/reverse.do"))
    }

    fn get_request_body(&self, req: &PaymentsCancelRouterData, _connectors: &Connectors) -> (r:
        Result<RequestContent, ConnectorError>)
        ensures
            result_view(r) == void_form(*req),
    {
        let form = AtbbankReverseRequest::try_from(req)?;
        Ok(RequestContent::FormUrlEncoded(AtbbankForm::Reverse(form)))
    }

    fn build_request(&self, req: &PaymentsCancelRouterData, connectors: &Connectors) -> (r: Result<
        Option<Request>,
        ConnectorError,
    >)
        ensures
            request_view(r) == posted_if(
                endpoint(*connectors, "rest/reverse.do"@),
                void_form(*req),
            ),
    {
        let url = self.get_url(req, connectors)?;
        let headers = self.get_headers(req, connectors)?;
        let body = self.get_request_body(req, connectors)?;
        Ok(Some(Request::post(url, headers, body)))
    }

    fn handle_response(
        &self,
        data: &PaymentsCancelRouterData,
        res: Response<AtbbankCaptureResponse>,
    ) -> (r: Result<PaymentsCancelRouterData, ConnectorError>)
        ensures
            match res.response {
                Ok(answer) => r matches Ok(payment) && {
                    &&& payment.outcome() == reverse_outcome(
                        answer.error_code,
                        answer.error_message,
                        res.status_code,
                    )
                    &&& payment.same_payment(*data)
                    &&& payment.amount_captured == data.amount_captured
                },
                Err(_) => r == Err::<PaymentsCancelRouterData, ConnectorError>(
                    ConnectorError::ResponseDeserializationFailed,
                ),
            },
    {
        let response = match res.response {
            Ok(response) => response,
            Err(_) => {
                return Err(ConnectorError::ResponseDeserializationFailed);
            },
        };
        RouterData::try_from(
            ResponseRouterData { response, data: data.clone(), http_code: res.status_code },
        )
    }
}

} // verus!
