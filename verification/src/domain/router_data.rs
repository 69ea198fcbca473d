//! A payment on its way through the connector.
use core::marker::PhantomData;
use vstd::prelude::*;

use crate::domain::enums::AttemptStatus;
use crate::domain::flows::{Authorize, Capture, CompleteAuthorize, Execute, PSync, RSync, Void};
use crate::domain::request_types::{
    CompleteAuthorizeData, PaymentsAuthorizeData, PaymentsCancelData, PaymentsCaptureData,
    PaymentsSyncData, RefundsData,
};
use crate::domain::response_types::{
    ErrorResponse, ErrorResponseView, PaymentsResponseData, RefundView, RefundsResponseData,
    TransactionView,
};
use crate::secret::Secret;
use crate::views::result_view;

verus! {

/// The credentials that an account is configured with.
#[derive(PartialEq, Eq)]
pub enum ConnectorAuthType {
    TemporaryAuth,
    HeaderKey { api_key: Secret<String> },
    BodyKey { api_key: Secret<String>, key1: Secret<String> },
    SignatureKey { api_key: Secret<String>, key1: Secret<String>, api_secret: Secret<String> },
    MultiAuthKey {
        api_key: Secret<String>,
        key1: Secret<String>,
        api_secret: Secret<String>,
        key2: Secret<String>,
    },
    CertificateAuth { certificate: Secret<String>, private_key: Secret<String> },
    CurrencyAuthKey,
    NoKey,
}

impl Clone for ConnectorAuthType {
    fn clone(&self) -> (r: Self)
        ensures
            r == *self,
    {
        match self {
            ConnectorAuthType::TemporaryAuth => ConnectorAuthType::TemporaryAuth,
            ConnectorAuthType::HeaderKey { api_key } => ConnectorAuthType::HeaderKey {
                api_key: api_key.clone(),
            },
            ConnectorAuthType::BodyKey { api_key, key1 } => ConnectorAuthType::BodyKey {
                api_key: api_key.clone(),
                key1: key1.clone(),
            },
            ConnectorAuthType::SignatureKey { api_key, key1, api_secret } => {
                ConnectorAuthType::SignatureKey {
                    api_key: api_key.clone(),
                    key1: key1.clone(),
                    api_secret: api_secret.clone(),
                }
            },
            ConnectorAuthType::MultiAuthKey { api_key, key1, api_secret, key2 } => {
                ConnectorAuthType::MultiAuthKey {
                    api_key: api_key.clone(),
                    key1: key1.clone(),
                    api_secret: api_secret.clone(),
                    key2: key2.clone(),
                }
            },
            ConnectorAuthType::CertificateAuth { certificate, private_key } => {
                ConnectorAuthType::CertificateAuth {
                    certificate: certificate.clone(),
                    private_key: private_key.clone(),
                }
            },
            ConnectorAuthType::CurrencyAuthKey => ConnectorAuthType::CurrencyAuthKey,
            ConnectorAuthType::NoKey => ConnectorAuthType::NoKey,
        }
    }
}

/// A payment or refund, what is asked for it and what the last answer was.
pub struct RouterData<F, T, R> {
    pub flow: PhantomData<F>,
    pub status: AttemptStatus,
    pub connector_auth_type: ConnectorAuthType,
    /// The merchant's reference of this payment.
    pub connector_request_reference_id: String,
    pub request: T,
    pub response: Result<R, ErrorResponse>,
    /// The amount captured so far, in minor units.
    pub amount_captured: Option<i64>,
}

pub type PaymentsAuthorizeRouterData = RouterData<
    Authorize,
    PaymentsAuthorizeData,
    PaymentsResponseData,
>;

pub type PaymentsCompleteAuthorizeRouterData = RouterData<
    CompleteAuthorize,
    CompleteAuthorizeData,
    PaymentsResponseData,
>;

pub type PaymentsSyncRouterData = RouterData<PSync, PaymentsSyncData, PaymentsResponseData>;

pub type PaymentsCaptureRouterData = RouterData<Capture, PaymentsCaptureData, PaymentsResponseData>;

pub type PaymentsCancelRouterData = RouterData<Void, PaymentsCancelData, PaymentsResponseData>;

pub type RefundsRouterData<F> = RouterData<F, RefundsData, RefundsResponseData>;

pub type RefundExecuteRouterData = RefundsRouterData<Execute>;

pub type RefundSyncRouterData = RefundsRouterData<RSync>;

impl<F, T: Clone, R: Clone> Clone for RouterData<F, T, R> {
    fn clone(&self) -> (r: Self)
        ensures
            r.status == self.status,
            r.connector_auth_type == self.connector_auth_type,
            r.connector_request_reference_id == self.connector_request_reference_id,
            cloned::<T>(self.request, r.request),
            match self.response {
                Ok(response) => r.response is Ok && cloned::<R>(response, r.response->Ok_0),
                Err(error) => r.response == Err::<R, ErrorResponse>(error),
            },
            r.amount_captured == self.amount_captured,
    {
        RouterData {
            flow: PhantomData,
            status: self.status,
            connector_auth_type: self.connector_auth_type.clone(),
            connector_request_reference_id: self.connector_request_reference_id.clone(),
            request: self.request.clone(),
            response: match &self.response {
                Ok(response) => Ok(response.clone()),
                Err(error) => Err(error.clone()),
            },
            amount_captured: self.amount_captured,
        }
    }
}

/// An answer of the bank together with the payment it is about.
pub struct ResponseRouterData<F, R, T, Res> {
    pub response: R,
    pub data: RouterData<F, T, Res>,
    pub http_code: u16,
}

/// What an answer makes of a payment: its status, and the response or the refusal.
#[verifier::ext_equal]
pub struct PaymentOutcome {
    pub status: AttemptStatus,
    pub response: Result<TransactionView, ErrorResponseView>,
}

impl PaymentOutcome {
    /// The bank took the request.
    pub open spec fn taken(status: AttemptStatus, transaction: TransactionView) -> Self {
        PaymentOutcome { status, response: Ok(transaction) }
    }

    /// The bank refused the request.
    pub open spec fn refused(status: AttemptStatus, error: ErrorResponseView) -> Self {
        PaymentOutcome { status, response: Err(error) }
    }
}

impl<F, T, R> RouterData<F, T, R> {
    /// What no answer changes: the credentials, the merchant's reference and the request.
    pub open spec fn same_payment(self, other: Self) -> bool {
        &&& self.connector_auth_type == other.connector_auth_type
        &&& self.connector_request_reference_id == other.connector_request_reference_id
        &&& self.request == other.request
    }
}

impl<F, T> RouterData<F, T, PaymentsResponseData> {
    /// The payment as the last answer left it.
    pub open spec fn outcome(self) -> PaymentOutcome {
        PaymentOutcome { status: self.status, response: result_view(self.response) }
    }
}

impl<F> RouterData<F, RefundsData, RefundsResponseData> {
    /// The refund as the last answer left it.
    pub open spec fn refund(self) -> Result<RefundView, ErrorResponseView> {
        result_view(self.response)
    }
}

} // verus!
