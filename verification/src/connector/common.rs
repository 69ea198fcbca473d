//! What all flows share.
use vstd::prelude::*;

use crate::connector::request::{common_headers, form_content_type};
use crate::domain::amount::StringMinorUnitForConnector;
use crate::domain::enums::{AttemptStatus, CurrencyUnit};
use crate::domain::http::{headers_view, Connectors, Header, Maskable, Response};
use crate::domain::request_types::PaymentsSyncData;
use crate::domain::response_types::{ErrorResponse, ErrorResponseView};
use crate::domain::router_data::{ConnectorAuthType, RouterData};
use crate::errors::{ConnectorError, ConnectorErrorView};
use crate::transformers::error_response::AtbbankErrorResponse;
use crate::views::result_view;

verus! {

/// The connector to ATB Bank's SmartVista gateway.
#[derive(Clone, Copy, PartialEq, Eq, Structural, Debug)]
pub struct Atbbank {
    pub amount_converter: StringMinorUnitForConnector,
}

/// The URL of one of the gateway's calls.
pub open spec fn endpoint(connectors: Connectors, path: Seq<char>) -> Seq<char> {
    connectors.atbbank.base_url@ + path
}

/// What an answer says whose HTTP status is an error.
pub open spec fn error_outcome(res: Response<AtbbankErrorResponse>) -> Result<
    ErrorResponseView,
    ConnectorErrorView,
> {
    match res.response {
        Ok(answer) => Ok(
            ErrorResponseView::plain(
                match answer.error_code {
                    Some(code) => code@,
                    None => "UNKNOWN"@,
                },
                match answer.error_message {
                    Some(message) => message@,
                    None => "Unknown error"@,
                },
                res.status_code,
                None,
            ),
        ),
        Err(_) => Err(ConnectorErrorView::ResponseDeserializationFailed),
    }
}

impl Atbbank {
    pub fn new() -> (r: &'static Self)
        ensures
            r.amount_converter == StringMinorUnitForConnector,
    {
        &Atbbank { amount_converter: StringMinorUnitForConnector }
    }

    pub fn id(&self) -> (r: &'static str)
        ensures
            r@ == "atbbank"@,
    {
        "atbbank"
    }

    /// The gateway takes amounts in minor units.
    pub fn get_currency_unit(&self) -> (r: CurrencyUnit)
        ensures
            r == CurrencyUnit::Minor,
    {
        CurrencyUnit::Minor
    }

    pub fn common_get_content_type(&self) -> (r: &'static str)
        ensures
            r@ == form_content_type(),
    {
        "application/x-www-form-urlencoded"
    }

    /// The content type of every flow's request.
    pub fn get_content_type(&self) -> (r: &'static str)
        ensures
            r@ == form_content_type(),
    {
        self.common_get_content_type()
    }

    pub fn base_url<'a>(&self, connectors: &'a Connectors) -> (r: &'a str)
        ensures
            r@ == connectors.atbbank.base_url@,
    {
        connectors.atbbank.base_url.as_str()
    }

    /// The URL of one of the gateway's calls.
    pub(crate) fn endpoint_url(&self, connectors: &Connectors, path: &str) -> (r: String)
        ensures
            r@ == endpoint(*connectors, path@),
    {
        self.base_url(connectors).to_string().concat(path)
    }

    /// The credentials are in the body of a request, so no header carries them.
    pub fn get_auth_header(&self, _auth_type: &ConnectorAuthType) -> (r: Result<
        Vec<Header>,
        ConnectorError,
    >)
        ensures
            r matches Ok(headers) && headers@.len() == 0,
    {
        Ok(Vec::new())
    }

    /// The headers of every flow's request.
    pub fn build_headers<F, T, R>(
        &self,
        _req: &RouterData<F, T, R>,
        _connectors: &Connectors,
    ) -> (r: Result<Vec<Header>, ConnectorError>)
        ensures
            r matches Ok(headers) && headers_view(headers@) == common_headers(),
    {
        let mut headers: Vec<Header> = Vec::new();
        headers.push(
            Header {
                name: "Content-Type".to_string(),
                value: Maskable::Normal(self.get_content_type().to_string()),
            },
        );
        assert(headers_view(headers@) =~= common_headers());
        Ok(headers)
    }

    pub fn build_error_response(&self, res: Response<AtbbankErrorResponse>) -> (r: Result<
        ErrorResponse,
        ConnectorError,
    >)
        ensures
            result_view(r) == error_outcome(res),
    {
        let answer = match res.response {
            Ok(answer) => answer,
            Err(_) => {
                return Err(ConnectorError::ResponseDeserializationFailed);
            },
        };
        let error_message = match answer.error_message {
            Some(message) => message,
            None => "Unknown error".to_string(),
        };
        let error_code = match answer.error_code {
            Some(code) => code,
            None => "UNKNOWN".to_string(),
        };
        Ok(ErrorResponse::plain(error_code, error_message, res.status_code, None))
    }

    /// The reading of an error answer, in every flow.
    pub fn get_error_response(&self, res: Response<AtbbankErrorResponse>) -> (r: Result<
        ErrorResponse,
        ConnectorError,
    >)
        ensures
            result_view(r) == error_outcome(res),
    {
        self.build_error_response(res)
    }

    /// A payment can be asked about whatever identifier it has.
    pub fn validate_psync_reference_id(
        &self,
        _data: &PaymentsSyncData,
        _is_three_ds: bool,
        _status: AttemptStatus,
    ) -> (r: Result<(), ConnectorError>)
        ensures
            r is Ok,
    {
        Ok(())
    }
}

} // verus!
