//! The shape of a flow.
use vstd::prelude::*;

use crate::connector::common::endpoint;
use crate::connector::request::{
    common_headers, posted_if, request_view, FormView, Request, RequestContent,
};
use crate::domain::http::{headers_view, Connectors, Header, Response};
use crate::domain::router_data::RouterData;
use crate::errors::{ConnectorError, ConnectorErrorView};
use crate::views::result_view;

verus! {

/// A flow of a payment: how its request is made, and how the answer is read.
pub trait ConnectorIntegration<F, T, R> {
    /// The decoded body of the bank's answer.
    type Answer;

    /// The path of the flow's call.
    spec fn path(req: RouterData<F, T, R>) -> Seq<char>;

    /// The form that the flow submits.
    spec fn form(req: RouterData<F, T, R>) -> Result<FormView, ConnectorErrorView>;

    /// What an answer makes of a payment or refund.
    spec fn reads(
        data: RouterData<F, T, R>,
        answer: Self::Answer,
        http_code: u16,
        result: RouterData<F, T, R>,
    ) -> bool;

    fn get_headers(&self, req: &RouterData<F, T, R>, connectors: &Connectors) -> (r: Result<
        Vec<Header>,
        ConnectorError,
    >)
        ensures
            r matches Ok(headers) && headers_view(headers@) == common_headers(),
    ;

    fn get_url(&self, req: &RouterData<F, T, R>, connectors: &Connectors) -> (r: Result<
        String,
        ConnectorError,
    >)
        ensures
            r matches Ok(url) && url@ == endpoint(*connectors, Self::path(*req)),
    ;

    fn get_request_body(&self, req: &RouterData<F, T, R>, connectors: &Connectors) -> (r: Result<
        RequestContent,
        ConnectorError,
    >)
        ensures
            result_view(r) == Self::form(*req),
    ;

    fn build_request(&self, req: &RouterData<F, T, R>, connectors: &Connectors) -> (r: Result<
        Option<Request>,
        ConnectorError,
    >)
        ensures
            request_view(r) == posted_if(
                endpoint(*connectors, Self::path(*req)),
                Self::form(*req),
            ),
    ;

    fn handle_response(&self, data: &RouterData<F, T, R>, res: Response<Self::Answer>) -> (r: Result<
        RouterData<F, T, R>,
        ConnectorError,
    >)
        ensures
            match res.response {
                Ok(answer) => r matches Ok(result) && Self::reads(
                    *data,
                    answer,
                    res.status_code,
                    result,
                ),
                Err(_) => r == Err::<RouterData<F, T, R>, ConnectorError>(
                    ConnectorError::ResponseDeserializationFailed,
                ),
            },
    ;
}

} // verus!
