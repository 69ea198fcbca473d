//! Refund, with `refund.do`, and refund sync, with `getOrderStatusExtended.do`.
use vstd::prelude::*;

use crate::connector::common::{endpoint, Atbbank};
use crate::connector::integration::ConnectorIntegration;
use crate::connector::request::{
    common_headers, posted_if, request_view, AtbbankForm, FormView, Request, RequestContent,
};
use crate::decimal::decimal;
use crate::domain::flows::{Execute, RSync};
use crate::domain::http::{headers_view, Connectors, Header, Response};
use crate::domain::request_types::RefundsData;
use crate::domain::response_types::RefundsResponseData;
use crate::domain::router_data::{
    RefundExecuteRouterData, RefundSyncRouterData, ResponseRouterData, RouterData,
};
use crate::errors::{ConnectorError, ConnectorErrorView};
use crate::transformers::refund::{
    refund_outcome, refund_request, refund_sync_outcome, AtbbankRefundRequest,
    AtbbankRefundResponse,
};
use crate::transformers::register::AtbbankRouterData;
use crate::transformers::status::{
    refund_status_request, AtbbankOrderStatusResponse, AtbbankStatusRequest,
};
use crate::views::result_view;

verus! {

/// The form that refunds an amount, in minor units.
pub open spec fn refund_form(refund: RefundExecuteRouterData) -> Result<
    FormView,
    ConnectorErrorView,
> {
    match refund_request(decimal(refund.request.minor_refund_amount.0 as int), refund) {
        Ok(form) => Ok(FormView::Refund(form)),
        Err(error) => Err(error),
    }
}

/// The form that asks where a refund stands.
pub open spec fn refund_sync_form(refund: RefundSyncRouterData) -> Result<
    FormView,
    ConnectorErrorView,
> {
    match refund_status_request(refund) {
        Ok(form) => Ok(FormView::Status(form)),
        Err(error) => Err(error),
    }
}

impl ConnectorIntegration<Execute, RefundsData, RefundsResponseData> for Atbbank {
    type Answer = AtbbankRefundResponse;

    open spec fn path(req: RefundExecuteRouterData) -> Seq<char> {
        "rest/refund.do"@
    }

    open spec fn form(req: RefundExecuteRouterData) -> Result<FormView, ConnectorErrorView> {
        refund_form(req)
    }

    open spec fn reads(
        data: RefundExecuteRouterData,
        answer: AtbbankRefundResponse,
        http_code: u16,
        result: RefundExecuteRouterData,
    ) -> bool {
        &&& result.refund() == refund_outcome(
            answer,
            data.request.connector_transaction_id@,
            http_code,
        )
        &&& result.same_payment(data)
        &&& result.status == data.status
        &&& result.amount_captured == data.amount_captured
    }

    fn get_headers(&self, req: &RefundExecuteRouterData, connectors: &Connectors) -> (r: Result<
        Vec<Header>,
        ConnectorError,
    >)
        ensures
            r matches Ok(headers) && headers_view(headers@) == common_headers(),
    {
        self.build_headers(req, connectors)
    }

    fn get_url(&self, _req: &RefundExecuteRouterData, connectors: &Connectors) -> (r: Result<
        String,
        ConnectorError,
    >)
        ensures
            r matches Ok(url) && url@ == endpoint(*connectors, "rest/refund.do"@),
    {
        Ok(self.endpoint_url(connectors, "rest/refund.do"))
    }

    fn get_request_body(&self, req: &RefundExecuteRouterData, _connectors: &Connectors) -> (r:
        Result<RequestContent, ConnectorError>)
        ensures
            result_view(r) == refund_form(*req),
    {
        let refund_amount = self.amount_converter.convert(
            req.request.minor_refund_amount,
            &req.request.currency,
        );
        let connector_router_data = AtbbankRouterData::from((refund_amount, req));
        let form = AtbbankRefundRequest::try_from(&connector_router_data)?;
        Ok(RequestContent::FormUrlEncoded(AtbbankForm::Refund(form)))
    }

    fn build_request(&self, req: &RefundExecuteRouterData, connectors: &Connectors) -> (r: Result<
        Option<Request>,
        ConnectorError,
    >)
        ensures
            request_view(r) == posted_if(
                endpoint(*connectors, "rest/refund.do"@),
                refund_form(*req),
            ),
    {
        let url = self.get_url(req, connectors)?;
        let headers = self.get_headers(req, connectors)?;
        let body = self.get_request_body(req, connectors)?;
        Ok(Some(Request::post(url, headers, body)))
    }

    fn handle_response(
        &self,
        data: &RefundExecuteRouterData,
        res: Response<AtbbankRefundResponse>,
    ) -> (r: Result<RefundExecuteRouterData, ConnectorError>)
        ensures
            match res.response {
                Ok(answer) => r matches Ok(refund) && {
                    &&& refund.refund() == refund_outcome(
                        answer,
                        data.request.connector_transaction_id@,
                        res.status_code,
                    )
                    &&& refund.same_payment(*data)
                    &&& refund.status == data.status
                    &&& refund.amount_captured == data.amount_captured
                },
                Err(_) => r == Err::<RefundExecuteRouterData, ConnectorError>(
                    ConnectorError::ResponseDeserializationFailed,
                ),
            },
    {
        let response = match res.response {
            Ok(response) => response,
            Err(_) => {
                return Err(ConnectorError::ResponseDeserializationFailed);
            },
        };
        RouterData::try_from(
            ResponseRouterData { response, data: data.clone(), http_code: res.status_code },
        )
    }
}

impl ConnectorIntegration<RSync, RefundsData, RefundsResponseData> for Atbbank {
    type Answer = AtbbankOrderStatusResponse;

    open spec fn path(req: RefundSyncRouterData) -> Seq<char> {
        "rest/getOrderStatusExtended.do"@
    }

    open spec fn form(req: RefundSyncRouterData) -> Result<FormView, ConnectorErrorView> {
        refund_sync_form(req)
    }

    open spec fn reads(
        data: RefundSyncRouterData,
        answer: AtbbankOrderStatusResponse,
        http_code: u16,
        result: RefundSyncRouterData,
    ) -> bool {
        &&& result.refund() == refund_sync_outcome(
            answer,
            data.request.minor_refund_amount.0 as int,
        )
        &&& result.same_payment(data)
        &&& result.status == data.status
        &&& result.amount_captured == data.amount_captured
    }

    fn get_headers(&self, req: &RefundSyncRouterData, connectors: &Connectors) -> (r: Result<
        Vec<Header>,
        ConnectorError,
    >)
        ensures
            r matches Ok(headers) && headers_view(headers@) == common_headers(),
    {
        self.build_headers(req, connectors)
    }

    fn get_url(&self, _req: &RefundSyncRouterData, connectors: &Connectors) -> (r: Result<
        String,
        ConnectorError,
    >)
        ensures
            r matches Ok(url) && url@ == endpoint(*connectors, "rest/getOrderStatusExtended.do"@),
    {
        Ok(self.endpoint_url(connectors, "rest/getOrderStatusExtended.do"))
    }

    fn get_request_body(&self, req: &RefundSyncRouterData, _connectors: &Connectors) -> (r: Result<
        RequestContent,
        ConnectorError,
    >)
        ensures
            result_view(r) == refund_sync_form(*req),
    {
        let form = AtbbankStatusRequest::try_from(req)?;
        Ok(RequestContent::FormUrlEncoded(AtbbankForm::Status(form)))
    }

    fn build_request(&self, req: &RefundSyncRouterData, connectors: &Connectors) -> (r: Result<
        Option<Request>,
        ConnectorError,
    >)
        ensures
            request_view(r) == posted_if(
                endpoint(*connectors, "rest/getOrderStatusExtended.do"@),
                refund_sync_form(*req),
            ),
    {
        let url = self.get_url(req, connectors)?;
        let headers = self.get_headers(req, connectors)?;
        let body = self.get_request_body(req, connectors)?;
        Ok(Some(Request::post(url, headers, body)))
    }

    fn handle_response(
        &self,
        data: &RefundSyncRouterData,
        res: Response<AtbbankOrderStatusResponse>,
    ) -> (r: Result<RefundSyncRouterData, ConnectorError>)
        ensures
            match res.response {
                Ok(answer) => r matches Ok(refund) && {
                    &&& refund.refund() == refund_sync_outcome(
                        answer,
                        data.request.minor_refund_amount.0 as int,
                    )
                    &&& refund.same_payment(*data)
                    &&& refund.status == data.status
                    &&& refund.amount_captured == data.amount_captured
                },
                Err(_) => r == Err::<RefundSyncRouterData, ConnectorError>(
                    ConnectorError::ResponseDeserializationFailed,
                ),
            },
    {
        let response = match res.response {
            Ok(response) => response,
            Err(_) => {
                return Err(ConnectorError::ResponseDeserializationFailed);
            },
        };
        RouterData::try_from(
            ResponseRouterData { response, data: data.clone(), http_code: res.status_code },
        )
    }
}

} // verus!
