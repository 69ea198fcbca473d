//! What the router asks of the connector, flow by flow.
use vstd::prelude::*;

use crate::domain::amount::MinorUnit;
use crate::domain::enums::{CaptureMethod, Currency};
use crate::domain::payment_method::PaymentMethodData;
use crate::domain::response_types::ResponseId;
use crate::errors::{missing, ConnectorError, ConnectorErrorView, ParsingError};
use crate::transformers::meta::AtbbankMeta;
use crate::views::{opt_view, result_view};

verus! {

/// What is known of the cardholder's browser.
#[derive(PartialEq, Eq, Debug)]
pub struct BrowserInformation {
    pub language: Option<String>,
}

impl Clone for BrowserInformation {
    fn clone(&self) -> (r: Self)
        ensures
            r == *self,
    {
        BrowserInformation { language: self.language.clone() }
    }
}

/// A payment to be started.
pub struct PaymentsAuthorizeData {
    pub minor_amount: MinorUnit,
    pub currency: Currency,
    pub capture_method: Option<CaptureMethod>,
    pub payment_method_data: PaymentMethodData,
    /// Where the cardholder comes back to.
    pub router_return_url: Option<String>,
    /// Where the payment is continued.
    pub complete_authorize_url: Option<String>,
    pub browser_info: Option<BrowserInformation>,
}

impl PaymentsAuthorizeData {
    /// The language of the cardholder's browser, where it is known.
    pub open spec fn browser_language(self) -> Option<Seq<char>> {
        match self.browser_info {
            Some(info) => opt_view(info.language),
            None => None,
        }
    }

    pub fn get_router_return_url(&self) -> (r: Result<String, ConnectorError>)
        ensures
            result_view(r) == match self.router_return_url {
                Some(url) => Ok::<Seq<char>, ConnectorErrorView>(url@),
                None => Err(missing("return_url"@)),
            },
    {
        match &self.router_return_url {
            Some(url) => Ok(url.clone()),
            None => Err(ConnectorError::MissingRequiredField { field_name: "return_url" }),
        }
    }

    pub fn get_optional_language_from_browser_info(&self) -> (r: Option<String>)
        ensures
            opt_view(r) == self.browser_language(),
    {
        match &self.browser_info {
            Some(info) => info.language.clone(),
            None => None,
        }
    }
}

impl Clone for PaymentsAuthorizeData {
    fn clone(&self) -> (r: Self)
        ensures
            r == *self,
    {
        PaymentsAuthorizeData {
            minor_amount: self.minor_amount,
            currency: self.currency.clone(),
            capture_method: self.capture_method,
            payment_method_data: self.payment_method_data.clone(),
            router_return_url: self.router_return_url.clone(),
            complete_authorize_url: self.complete_authorize_url.clone(),
            browser_info: self.browser_info.clone(),
        }
    }
}

/// A payment to be continued.
pub struct CompleteAuthorizeData {
    pub payment_method_data: Option<PaymentMethodData>,
    /// What the connector stored with the payment, decoded where that was possible.
    pub connector_meta: Option<Result<AtbbankMeta, ParsingError>>,
    /// Where the payment is continued.
    pub complete_authorize_url: Option<String>,
}

impl Clone for CompleteAuthorizeData {
    fn clone(&self) -> (r: Self)
        ensures
            r == *self,
    {
        CompleteAuthorizeData {
            payment_method_data: self.payment_method_data.clone(),
            connector_meta: match &self.connector_meta {
                Some(Ok(meta)) => Some(Ok(meta.clone())),
                Some(Err(error)) => Some(Err(*error)),
                None => None,
            },
            complete_authorize_url: self.complete_authorize_url.clone(),
        }
    }
}

/// A payment whose status is asked for.
pub struct PaymentsSyncData {
    pub connector_transaction_id: ResponseId,
}

impl Clone for PaymentsSyncData {
    fn clone(&self) -> (r: Self)
        ensures
            r == *self,
    {
        PaymentsSyncData { connector_transaction_id: self.connector_transaction_id.clone() }
    }
}

/// An amount to be captured.
pub struct PaymentsCaptureData {
    pub minor_amount_to_capture: MinorUnit,
    pub currency: Currency,
    pub connector_transaction_id: String,
}

impl Clone for PaymentsCaptureData {
    fn clone(&self) -> (r: Self)
        ensures
            r == *self,
    {
        PaymentsCaptureData {
            minor_amount_to_capture: self.minor_amount_to_capture,
            currency: self.currency.clone(),
            connector_transaction_id: self.connector_transaction_id.clone(),
        }
    }
}

/// A payment to be reversed.
pub struct PaymentsCancelData {
    pub connector_transaction_id: String,
}

impl Clone for PaymentsCancelData {
    fn clone(&self) -> (r: Self)
        ensures
            r == *self,
    {
        PaymentsCancelData { connector_transaction_id: self.connector_transaction_id.clone() }
    }
}

/// An amount to be refunded.
pub struct RefundsData {
    pub minor_refund_amount: MinorUnit,
    pub currency: Currency,
    pub connector_transaction_id: String,
}

impl Clone for RefundsData {
    fn clone(&self) -> (r: Self)
        ensures
            r == *self,
    {
        RefundsData {
            minor_refund_amount: self.minor_refund_amount,
            currency: self.currency.clone(),
            connector_transaction_id: self.connector_transaction_id.clone(),
        }
    }
}

} // verus!
