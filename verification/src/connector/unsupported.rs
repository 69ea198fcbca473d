//! What the connector does not offer: webhooks and mandates.
use vstd::prelude::*;

use crate::connector::common::Atbbank;
use crate::connector::request::{request_view, Request, RequestView};
use crate::domain::flows::SetupMandate;
use crate::domain::http::Connectors;
use crate::domain::router_data::RouterData;
use crate::errors::{ConnectorError, ConnectorErrorView};

verus! {

/// A call that the bank makes on its own account.
pub struct IncomingWebhookRequestDetails {
    pub body: Vec<u8>,
}

impl Atbbank {
    /// The payment that a webhook is about.
    pub fn get_webhook_object_reference_id(
        &self,
        _request: &IncomingWebhookRequestDetails,
    ) -> (r: Result<String, ConnectorError>)
        ensures
            r == Err::<String, ConnectorError>(ConnectorError::WebhooksNotImplemented),
    {
        Err(ConnectorError::WebhooksNotImplemented)
    }

    /// What a webhook reports.
    pub fn get_webhook_event_type(&self, _request: &IncomingWebhookRequestDetails) -> (r: Result<
        String,
        ConnectorError,
    >)
        ensures
            r == Err::<String, ConnectorError>(ConnectorError::WebhooksNotImplemented),
    {
        Err(ConnectorError::WebhooksNotImplemented)
    }

    /// The record that a webhook brings.
    pub fn get_webhook_resource_object(
        &self,
        _request: &IncomingWebhookRequestDetails,
    ) -> (r: Result<String, ConnectorError>)
        ensures
            r == Err::<String, ConnectorError>(ConnectorError::WebhooksNotImplemented),
    {
        Err(ConnectorError::WebhooksNotImplemented)
    }

    /// The request that would store a payment method.
    pub fn build_setup_mandate_request<T, R>(
        &self,
        _req: &RouterData<SetupMandate, T, R>,
        _connectors: &Connectors,
    ) -> (r: Result<Option<Request>, ConnectorError>)
        ensures
            request_view(r) == Err::<Option<RequestView>, ConnectorErrorView>(
                ConnectorErrorView::NotImplemented("Setup Mandate flow for Atbbank"@),
            ),
    {
        Err(ConnectorError::NotImplemented("Setup Mandate flow for Atbbank".to_string()))
    }
}

} // verus!
