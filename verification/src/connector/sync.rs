//! Payment sync: the order's status is asked for with `getOrderStatusExtended.do`.
use vstd::prelude::*;

use crate::connector::common::{endpoint, Atbbank};
use crate::connector::integration::ConnectorIntegration;
use crate::connector::request::{
    common_headers, posted_if, request_view, AtbbankForm, FormView, Request, RequestContent,
};
use crate::domain::flows::PSync;
use crate::domain::http::{headers_view, Connectors, Header, Response};
use crate::domain::request_types::PaymentsSyncData;
use crate::domain::response_types::PaymentsResponseData;
use crate::domain::router_data::{PaymentsSyncRouterData, ResponseRouterData, RouterData};
use crate::errors::{ConnectorError, ConnectorErrorView};
use crate::transformers::status::{
    payment_status_request, status_outcome, AtbbankOrderStatusResponse, AtbbankStatusRequest,
};
use crate::views::result_view;

verus! {

/// The form that asks where a payment stands.
pub open spec fn sync_form(payment: PaymentsSyncRouterData) -> Result<
    FormView,
    ConnectorErrorView,
> {
    match payment_status_request(payment) {
        Ok(form) => Ok(FormView::Status(form)),
        Err(error) => Err(error),
    }
}

impl ConnectorIntegration<PSync, PaymentsSyncData, PaymentsResponseData> for Atbbank {
    type Answer = AtbbankOrderStatusResponse;

    open spec fn path(req: PaymentsSyncRouterData) -> Seq<char> {
        "rest/getOrderStatusExtended.do"@
    }

    open spec fn form(req: PaymentsSyncRouterData) -> Result<FormView, ConnectorErrorView> {
        sync_form(req)
    }

    open spec fn reads(
        data: PaymentsSyncRouterData,
        answer: AtbbankOrderStatusResponse,
        http_code: u16,
        result: PaymentsSyncRouterData,
    ) -> bool {
        &&& result.outcome() == status_outcome(answer, http_code)
        &&& result.same_payment(data)
        &&& result.amount_captured == data.amount_captured
    }

    fn get_headers(&self, req: &PaymentsSyncRouterData, connectors: &Connectors) -> (r: Result<
        Vec<Header>,
        ConnectorError,
    >)
        ensures
            r matches Ok(headers) && headers_view(headers@) == common_headers(),
    {
        self.build_headers(req, connectors)
    }

    fn get_url(&self, _req: &PaymentsSyncRouterData, connectors: &Connectors) -> (r: Result<
        String,
        ConnectorError,
    >)
        ensures
            r matches Ok(url) && url@ == endpoint(*connectors, "rest/getOrderStatusExtended.do"@),
    {
        Ok(self.endpoint_url(connectors, "rest/getOrderStatusExtended.do"))
    }

    fn get_request_body(&self, req: &PaymentsSyncRouterData, _connectors: &Connectors) -> (r:
        Result<RequestContent, ConnectorError>)
        ensures
            result_view(r) == sync_form(*req),
    {
        let form = AtbbankStatusRequest::try_from(req)?;
        Ok(RequestContent::FormUrlEncoded(AtbbankForm::Status(form)))
    }

    fn build_request(&self, req: &PaymentsSyncRouterData, connectors: &Connectors) -> (r: Result<
        Option<Request>,
        ConnectorError,
    >)
        ensures
            request_view(r) == posted_if(
                endpoint(*connectors, "rest/getOrderStatusExtended.do"@),
                sync_form(*req),
            ),
    {
        let url = self.get_url(req, connectors)?;
        let headers = self.get_headers(req, connectors)?;
        let body = self.get_request_body(req, connectors)?;
        Ok(Some(Request::post(url, headers, body)))
    }

    fn handle_response(
        &self,
        data: &PaymentsSyncRouterData,
        res: Response<AtbbankOrderStatusResponse>,
    ) -> (r: Result<PaymentsSyncRouterData, ConnectorError>)
        ensures
            match res.response {
                Ok(answer) => r matches Ok(payment) && {
                    &&& payment.outcome() == status_outcome(answer, res.status_code)
                    &&& payment.same_payment(*data)
                    &&& payment.amount_captured == data.amount_captured
                },
                Err(_) => r == Err::<PaymentsSyncRouterData, ConnectorError>(
                    ConnectorError::ResponseDeserializationFailed,
                ),
            },
    {
        let response = match res.response {
            Ok(response) => response,
            Err(_) => {
                return Err(ConnectorError::ResponseDeserializationFailed);
            },
        };
        RouterData::try_from(
            ResponseRouterData { response, data: data.clone(), http_code: res.status_code },
        )
    }
}

} // verus!
