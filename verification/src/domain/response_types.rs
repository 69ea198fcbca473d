//! What an answer of the bank means to the router.
use vstd::prelude::*;

use crate::domain::enums::{AttemptStatus, RefundStatus};
use crate::domain::http::Method;
use crate::transformers::meta::{ConnectorMetadata, ConnectorMetadataView};
use crate::views::opt_view;

verus! {

/// The identifier that an answer gives to the payment.
#[derive(PartialEq, Eq, Debug)]
pub enum ResponseId {
    ConnectorTransactionId(String),
    EncodedData(String),
    NoResponseId,
}

/// What a [`ResponseId`] says.
pub enum ResponseIdView {
    ConnectorTransactionId(Seq<char>),
    EncodedData(Seq<char>),
    NoResponseId,
}

impl View for ResponseId {
    type V = ResponseIdView;

    open spec fn view(&self) -> ResponseIdView {
        match self {
            ResponseId::ConnectorTransactionId(id) => ResponseIdView::ConnectorTransactionId(id@),
            ResponseId::EncodedData(data) => ResponseIdView::EncodedData(data@),
            ResponseId::NoResponseId => ResponseIdView::NoResponseId,
        }
    }
}

impl Clone for ResponseId {
    fn clone(&self) -> (r: Self)
        ensures
            r == *self,
    {
        match self {
            ResponseId::ConnectorTransactionId(id) => ResponseId::ConnectorTransactionId(
                id.clone(),
            ),
            ResponseId::EncodedData(data) => ResponseId::EncodedData(data.clone()),
            ResponseId::NoResponseId => ResponseId::NoResponseId,
        }
    }
}

/// A named value that the cardholder's browser submits.
#[derive(PartialEq, Eq, Debug)]
pub struct FormField {
    pub name: String,
    pub value: String,
}

impl View for FormField {
    type V = (Seq<char>, Seq<char>);

    open spec fn view(&self) -> (Seq<char>, Seq<char>) {
        (self.name@, self.value@)
    }
}

impl Clone for FormField {
    fn clone(&self) -> (r: Self)
        ensures
            r == *self,
    {
        FormField { name: self.name.clone(), value: self.value.clone() }
    }
}

/// Where the cardholder's browser is sent, and with what. No two fields have the same name.
#[derive(PartialEq, Eq, Debug)]
pub struct RedirectForm {
    pub endpoint: String,
    pub method: Method,
    pub form_fields: Vec<FormField>,
}

/// What a [`RedirectForm`] says.
#[verifier::ext_equal]
pub struct RedirectFormView {
    pub endpoint: Seq<char>,
    pub method: Method,
    pub form_fields: Seq<(Seq<char>, Seq<char>)>,
}

impl RedirectFormView {
    /// A plain visit to a page.
    pub open spec fn visit(endpoint: Seq<char>) -> Self {
        RedirectFormView { endpoint, method: Method::Get, form_fields: Seq::empty() }
    }

    /// No two fields have the same name.
    pub open spec fn names_are_distinct(self) -> bool {
        forall|i: int, j: int|
            0 <= i < j < self.form_fields.len() ==> (#[trigger] self.form_fields[i]).0 != (
            #[trigger] self.form_fields[j]).0
    }
}

impl View for RedirectForm {
    type V = RedirectFormView;

    open spec fn view(&self) -> RedirectFormView {
        RedirectFormView {
            endpoint: self.endpoint@,
            method: self.method,
            form_fields: self.form_fields@.map_values(|field: FormField| field@),
        }
    }
}

impl RedirectForm {
    /// A plain visit to a page.
    pub fn visit(endpoint: String) -> (r: Self)
        ensures
            r@ == RedirectFormView::visit(endpoint@),
    {
        let r = RedirectForm { endpoint, method: Method::Get, form_fields: Vec::new() };
        assert(r@ =~= RedirectFormView::visit(endpoint@));
        r
    }
}

impl Clone for RedirectForm {
    fn clone(&self) -> (r: Self)
        ensures
            r@ == self@,
    {
        let form_fields = self.form_fields.clone();
        assert(form_fields@ =~= self.form_fields@);
        RedirectForm { endpoint: self.endpoint.clone(), method: self.method, form_fields }
    }
}

/// The answer to a payment request that the bank took.
#[derive(PartialEq)]
pub enum PaymentsResponseData {
    TransactionResponse {
        resource_id: ResponseId,
        redirection_data: Option<RedirectForm>,
        mandate_reference: Option<String>,
        connector_metadata: Option<ConnectorMetadata>,
        network_txn_id: Option<String>,
        connector_response_reference_id: Option<String>,
        incremental_authorization_allowed: Option<bool>,
        authentication_data: Option<String>,
        charges: Option<String>,
    },
}

/// What a transaction response says.
#[verifier::ext_equal]
pub struct TransactionView {
    pub resource_id: ResponseIdView,
    pub redirection_data: Option<RedirectFormView>,
    pub mandate_reference: Option<Seq<char>>,
    pub connector_metadata: Option<ConnectorMetadataView>,
    pub network_txn_id: Option<Seq<char>>,
    pub connector_response_reference_id: Option<Seq<char>>,
    pub incremental_authorization_allowed: Option<bool>,
    pub authentication_data: Option<Seq<char>>,
    pub charges: Option<Seq<char>>,
}

impl TransactionView {
    /// A transaction of which only the identifier is known.
    pub open spec fn plain(resource_id: ResponseIdView) -> Self {
        TransactionView {
            resource_id,
            redirection_data: None,
            mandate_reference: None,
            connector_metadata: None,
            network_txn_id: None,
            connector_response_reference_id: None,
            incremental_authorization_allowed: None,
            authentication_data: None,
            charges: None,
        }
    }
}

impl View for PaymentsResponseData {
    type V = TransactionView;

    open spec fn view(&self) -> TransactionView {
        match self {
            PaymentsResponseData::TransactionResponse {
                resource_id,
                redirection_data,
                mandate_reference,
                connector_metadata,
                network_txn_id,
                connector_response_reference_id,
                incremental_authorization_allowed,
                authentication_data,
                charges,
            } => TransactionView {
                resource_id: resource_id@,
                redirection_data: opt_view(*redirection_data),
                mandate_reference: opt_view(*mandate_reference),
                connector_metadata: opt_view(*connector_metadata),
                network_txn_id: opt_view(*network_txn_id),
                connector_response_reference_id: opt_view(*connector_response_reference_id),
                incremental_authorization_allowed: *incremental_authorization_allowed,
                authentication_data: opt_view(*authentication_data),
                charges: opt_view(*charges),
            },
        }
    }
}

impl PaymentsResponseData {
    /// A transaction with an identifier, and what else the bank's answer gave.
    pub fn transaction(
        resource_id: ResponseId,
        redirection_data: Option<RedirectForm>,
        connector_metadata: Option<ConnectorMetadata>,
        connector_response_reference_id: Option<String>,
    ) -> (r: Self)
        ensures
            r@ == (TransactionView {
                redirection_data: opt_view(redirection_data),
                connector_metadata: opt_view(connector_metadata),
                connector_response_reference_id: opt_view(connector_response_reference_id),
                ..TransactionView::plain(resource_id@)
            }),
    {
        PaymentsResponseData::TransactionResponse {
            resource_id,
            redirection_data,
            mandate_reference: None,
            connector_metadata,
            network_txn_id: None,
            connector_response_reference_id,
            incremental_authorization_allowed: None,
            authentication_data: None,
            charges: None,
        }
    }
}

impl Clone for PaymentsResponseData {
    fn clone(&self) -> (r: Self)
        ensures
            r@ == self@,
    {
        match self {
            PaymentsResponseData::TransactionResponse {
                resource_id,
                redirection_data,
                mandate_reference,
                connector_metadata,
                network_txn_id,
                connector_response_reference_id,
                incremental_authorization_allowed,
                authentication_data,
                charges,
            } => PaymentsResponseData::TransactionResponse {
                resource_id: resource_id.clone(),
                redirection_data: redirection_data.clone(),
                mandate_reference: mandate_reference.clone(),
                connector_metadata: connector_metadata.clone(),
                network_txn_id: network_txn_id.clone(),
                connector_response_reference_id: connector_response_reference_id.clone(),
                incremental_authorization_allowed: *incremental_authorization_allowed,
                authentication_data: authentication_data.clone(),
                charges: charges.clone(),
            },
        }
    }
}

/// The answer to a refund request that the bank took.
#[derive(PartialEq, Eq, Debug)]
pub struct RefundsResponseData {
    pub connector_refund_id: String,
    pub refund_status: RefundStatus,
}

/// What a [`RefundsResponseData`] says.
pub struct RefundView {
    pub connector_refund_id: Seq<char>,
    pub refund_status: RefundStatus,
}

impl View for RefundsResponseData {
    type V = RefundView;

    open spec fn view(&self) -> RefundView {
        RefundView {
            connector_refund_id: self.connector_refund_id@,
            refund_status: self.refund_status,
        }
    }
}

impl Clone for RefundsResponseData {
    fn clone(&self) -> (r: Self)
        ensures
            r == *self,
    {
        RefundsResponseData {
            connector_refund_id: self.connector_refund_id.clone(),
            refund_status: self.refund_status,
        }
    }
}

/// The answer to a request that the bank refused.
#[derive(PartialEq, Eq, Debug)]
pub struct ErrorResponse {
    pub code: String,
    pub message: String,
    pub reason: Option<String>,
    pub status_code: u16,
    pub attempt_status: Option<AttemptStatus>,
    pub connector_transaction_id: Option<String>,
    pub connector_response_reference_id: Option<String>,
    pub network_advice_code: Option<String>,
    pub network_decline_code: Option<String>,
    pub network_error_message: Option<String>,
    pub connector_metadata: Option<String>,
}

/// What an [`ErrorResponse`] says.
#[verifier::ext_equal]
pub struct ErrorResponseView {
    pub code: Seq<char>,
    pub message: Seq<char>,
    pub reason: Option<Seq<char>>,
    pub status_code: u16,
    pub attempt_status: Option<AttemptStatus>,
    pub connector_transaction_id: Option<Seq<char>>,
    pub connector_response_reference_id: Option<Seq<char>>,
    pub network_advice_code: Option<Seq<char>>,
    pub network_decline_code: Option<Seq<char>>,
    pub network_error_message: Option<Seq<char>>,
    pub connector_metadata: Option<Seq<char>>,
}

impl ErrorResponseView {
    /// A refusal with a code and a message, which is the reason too, and no more.
    pub open spec fn plain(
        code: Seq<char>,
        message: Seq<char>,
        status_code: u16,
        attempt_status: Option<AttemptStatus>,
    ) -> Self {
        ErrorResponseView {
            code,
            message,
            reason: Some(message),
            status_code,
            attempt_status,
            connector_transaction_id: None,
            connector_response_reference_id: None,
            network_advice_code: None,
            network_decline_code: None,
            network_error_message: None,
            connector_metadata: None,
        }
    }
}

impl View for ErrorResponse {
    type V = ErrorResponseView;

    open spec fn view(&self) -> ErrorResponseView {
        ErrorResponseView {
            code: self.code@,
            message: self.message@,
            reason: opt_view(self.reason),
            status_code: self.status_code,
            attempt_status: self.attempt_status,
            connector_transaction_id: opt_view(self.connector_transaction_id),
            connector_response_reference_id: opt_view(self.connector_response_reference_id),
            network_advice_code: opt_view(self.network_advice_code),
            network_decline_code: opt_view(self.network_decline_code),
            network_error_message: opt_view(self.network_error_message),
            connector_metadata: opt_view(self.connector_metadata),
        }
    }
}

impl ErrorResponse {
    /// A refusal with a code and a message, which is the reason too, and no more.
    pub fn plain(
        code: String,
        message: String,
        status_code: u16,
        attempt_status: Option<AttemptStatus>,
    ) -> (r: Self)
        ensures
            r@ == ErrorResponseView::plain(code@, message@, status_code, attempt_status),
    {
        ErrorResponse {
            code,
            message: message.clone(),
            reason: Some(message),
            status_code,
            attempt_status,
            connector_transaction_id: None,
            connector_response_reference_id: None,
            network_advice_code: None,
            network_decline_code: None,
            network_error_message: None,
            connector_metadata: None,
        }
    }
}

impl Clone for ErrorResponse {
    fn clone(&self) -> (r: Self)
        ensures
            r == *self,
    {
        ErrorResponse {
            code: self.code.clone(),
            message: self.message.clone(),
            reason: self.reason.clone(),
            status_code: self.status_code,
            attempt_status: self.attempt_status,
            connector_transaction_id: self.connector_transaction_id.clone(),
            connector_response_reference_id: self.connector_response_reference_id.clone(),
            network_advice_code: self.network_advice_code.clone(),
            network_decline_code: self.network_decline_code.clone(),
            network_error_message: self.network_error_message.clone(),
            connector_metadata: self.connector_metadata.clone(),
        }
    }
}

} // verus!
