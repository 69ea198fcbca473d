//! Why the connector refuses to build a request or to read an answer.
use vstd::prelude::*;

verus! {

/// The connector's errors.
#[derive(PartialEq, Eq, Debug)]
pub enum ConnectorError {
    /// The account is configured with credentials that this connector cannot use.
    FailedToObtainAuthType,
    /// The connector does not offer what was asked for.
    NotSupported { message: String, connector: &'static str },
    /// The flow has not been written.
    NotImplemented(String),
    /// A value that the request needs is absent.
    MissingRequiredField { field_name: &'static str },
    /// The payment has no identifier at the bank yet.
    MissingConnectorTransactionID,
    /// The request could not be encoded.
    RequestEncodingFailed,
    /// The answer's body could not be decoded.
    ResponseDeserializationFailed,
    /// The connector takes no webhooks.
    WebhooksNotImplemented,
}

/// What a [`ConnectorError`] says.
pub enum ConnectorErrorView {
    FailedToObtainAuthType,
    NotSupported { message: Seq<char>, connector: Seq<char> },
    NotImplemented(Seq<char>),
    MissingRequiredField { field_name: Seq<char> },
    MissingConnectorTransactionID,
    RequestEncodingFailed,
    ResponseDeserializationFailed,
    WebhooksNotImplemented,
}

impl View for ConnectorError {
    type V = ConnectorErrorView;

    open spec fn view(&self) -> ConnectorErrorView {
        match self {
            ConnectorError::FailedToObtainAuthType => ConnectorErrorView::FailedToObtainAuthType,
            ConnectorError::NotSupported { message, connector } => {
                ConnectorErrorView::NotSupported { message: message@, connector: connector@ }
            },
            ConnectorError::NotImplemented(what) => ConnectorErrorView::NotImplemented(what@),
            ConnectorError::MissingRequiredField { field_name } => {
                ConnectorErrorView::MissingRequiredField { field_name: field_name@ }
            },
            ConnectorError::MissingConnectorTransactionID => {
                ConnectorErrorView::MissingConnectorTransactionID
            },
            ConnectorError::RequestEncodingFailed => ConnectorErrorView::RequestEncodingFailed,
            ConnectorError::ResponseDeserializationFailed => {
                ConnectorErrorView::ResponseDeserializationFailed
            },
            ConnectorError::WebhooksNotImplemented => ConnectorErrorView::WebhooksNotImplemented,
        }
    }
}

/// The error of an absent value.
pub open spec fn missing(field_name: Seq<char>) -> ConnectorErrorView {
    ConnectorErrorView::MissingRequiredField { field_name }
}

/// The body of an answer, or a stored record, is not what its format asks for.
#[derive(Clone, Copy, PartialEq, Eq, Structural, Debug)]
pub struct ParsingError;

} // verus!
