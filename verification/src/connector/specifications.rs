//! What the connector says about itself.
use vstd::prelude::*;

use crate::connector::common::Atbbank;
use crate::domain::enums::CaptureMethod;

verus! {

/// A kind of payment method.
#[derive(Clone, Copy, PartialEq, Eq, Structural, Debug)]
pub enum PaymentMethod {
    Card,
}

/// A payment method within its kind.
#[derive(Clone, Copy, PartialEq, Eq, Structural, Debug)]
pub enum PaymentMethodType {
    Credit,
    Debit,
}

#[derive(Clone, Copy, PartialEq, Eq, Structural, Debug)]
pub enum FeatureStatus {
    NotSupported,
    Supported,
}

#[derive(Clone, Copy, PartialEq, Eq, Structural, Debug)]
pub enum CardNetwork {
    Visa,
    Mastercard,
}

/// What is offered for cards.
#[derive(PartialEq, Eq, Debug)]
pub struct CardSpecificFeatures {
    pub three_ds: FeatureStatus,
    pub no_three_ds: FeatureStatus,
    pub supported_card_networks: Vec<CardNetwork>,
}

/// What is offered for a payment method.
#[derive(PartialEq, Eq, Debug)]
pub struct PaymentMethodDetails {
    pub mandates: FeatureStatus,
    pub refunds: FeatureStatus,
    pub supported_capture_methods: Vec<CaptureMethod>,
    pub specific_features: Option<CardSpecificFeatures>,
}

/// A payment method and what is offered for it.
#[derive(PartialEq, Eq, Debug)]
pub struct SupportedPaymentMethod {
    pub payment_method: PaymentMethod,
    pub payment_method_type: PaymentMethodType,
    pub details: PaymentMethodDetails,
}

/// What a [`SupportedPaymentMethod`] says.
#[verifier::ext_equal]
pub struct SupportedPaymentMethodView {
    pub payment_method: PaymentMethod,
    pub payment_method_type: PaymentMethodType,
    pub mandates: FeatureStatus,
    pub refunds: FeatureStatus,
    pub supported_capture_methods: Seq<CaptureMethod>,
    pub card_features: Option<CardFeaturesView>,
}

/// What a [`CardSpecificFeatures`] says.
#[verifier::ext_equal]
pub struct CardFeaturesView {
    pub three_ds: FeatureStatus,
    pub no_three_ds: FeatureStatus,
    pub supported_card_networks: Seq<CardNetwork>,
}

impl View for CardSpecificFeatures {
    type V = CardFeaturesView;

    open spec fn view(&self) -> CardFeaturesView {
        CardFeaturesView {
            three_ds: self.three_ds,
            no_three_ds: self.no_three_ds,
            supported_card_networks: self.supported_card_networks@,
        }
    }
}

impl View for SupportedPaymentMethod {
    type V = SupportedPaymentMethodView;

    open spec fn view(&self) -> SupportedPaymentMethodView {
        SupportedPaymentMethodView {
            payment_method: self.payment_method,
            payment_method_type: self.payment_method_type,
            mandates: self.details.mandates,
            refunds: self.details.refunds,
            supported_capture_methods: self.details.supported_capture_methods@,
            card_features: match self.details.specific_features {
                Some(features) => Some(features@),
                None => None,
            },
        }
    }
}

/// Cards of one type, of both networks, captured at once or by hand, with 3DS or without; they
/// can be refunded, and no mandates can be set up with them.
pub open spec fn supported_card(payment_method_type: PaymentMethodType) -> SupportedPaymentMethodView {
    SupportedPaymentMethodView {
        payment_method: PaymentMethod::Card,
        payment_method_type,
        mandates: FeatureStatus::NotSupported,
        refunds: FeatureStatus::Supported,
        supported_capture_methods: seq![CaptureMethod::Automatic, CaptureMethod::Manual],
        card_features: Some(
            CardFeaturesView {
                three_ds: FeatureStatus::Supported,
                no_three_ds: FeatureStatus::Supported,
                supported_card_networks: seq![CardNetwork::Visa, CardNetwork::Mastercard],
            },
        ),
    }
}

/// The category of a connector.
#[derive(Clone, Copy, PartialEq, Eq, Structural, Debug)]
pub enum ConnectorCategory {
    PaymentGateway,
    AlternativePaymentMethod,
    BankAcquirer,
}

/// How far a connector is in use.
#[derive(Clone, Copy, PartialEq, Eq, Structural, Debug)]
pub enum ConnectorIntegrationStatus {
    Live,
    Beta,
    Alpha,
}

/// What the connector is.
#[derive(Clone, Copy, PartialEq, Eq, Debug)]
pub struct ConnectorInfo {
    pub display_name: &'static str,
    pub description: &'static str,
    pub connector_type: ConnectorCategory,
    pub integration_status: ConnectorIntegrationStatus,
}

/// A class of events that webhooks report.
#[derive(Clone, Copy, PartialEq, Eq, Structural, Debug)]
pub enum EventClass {
    Payments,
    Refunds,
    Disputes,
    Mandates,
}

fn card_method(payment_method_type: PaymentMethodType) -> (r: SupportedPaymentMethod)
    ensures
        r@ == supported_card(payment_method_type),
{
    let supported_capture_methods: Vec<CaptureMethod> = vec![
        CaptureMethod::Automatic,
        CaptureMethod::Manual,
    ];
    let supported_card_networks: Vec<CardNetwork> = vec![CardNetwork::Visa, CardNetwork::Mastercard];
    let r = SupportedPaymentMethod {
        payment_method: PaymentMethod::Card,
        payment_method_type,
        details: PaymentMethodDetails {
            mandates: FeatureStatus::NotSupported,
            refunds: FeatureStatus::Supported,
            supported_capture_methods,
            specific_features: Some(
                CardSpecificFeatures {
                    three_ds: FeatureStatus::Supported,
                    no_three_ds: FeatureStatus::Supported,
                    supported_card_networks,
                },
            ),
        },
    };
    assert(r@.supported_capture_methods =~= supported_card(
        payment_method_type,
    ).supported_capture_methods);
    assert(r@.card_features->0.supported_card_networks =~= supported_card(
        payment_method_type,
    ).card_features->0.supported_card_networks);
    r
}

impl Atbbank {
    pub fn get_connector_about(&self) -> (r: Option<ConnectorInfo>)
        ensures
            r matches Some(info) && {
                &&& info.display_name@ == "ATB Bank"@
                &&& info.description@
                    == "AzerTurkBank SmartVista EPG - direct bank card processing gateway supporting Visa, Mastercard, 3DS2, Apple Pay, and Google Pay for AZN/USD/EUR transactions."@
                &&& info.connector_type == ConnectorCategory::PaymentGateway
                &&& info.integration_status == ConnectorIntegrationStatus::Live
            },
    {
        Some(
            ConnectorInfo {
                display_name: "ATB Bank",
                description: "AzerTurkBank SmartVista EPG - direct bank card processing gateway supporting Visa, Mastercard, 3DS2, Apple Pay, and Google Pay for AZN/USD/EUR transactions.",
                connector_type: ConnectorCategory::PaymentGateway,
                integration_status: ConnectorIntegrationStatus::Live,
            },
        )
    }

    /// Credit and debit cards.
    pub fn get_supported_payment_methods(&self) -> (r: Option<Vec<SupportedPaymentMethod>>)
        ensures
            r matches Some(methods) && methods@.map_values(|method: SupportedPaymentMethod| method@)
                == seq![
                supported_card(PaymentMethodType::Credit),
                supported_card(PaymentMethodType::Debit),
            ],
    {
        let mut methods: Vec<SupportedPaymentMethod> = Vec::new();
        methods.push(card_method(PaymentMethodType::Credit));
        methods.push(card_method(PaymentMethodType::Debit));
        assert(methods@.map_values(|method: SupportedPaymentMethod| method@) =~= seq![
            supported_card(PaymentMethodType::Credit),
            supported_card(PaymentMethodType::Debit),
        ]);
        Some(methods)
    }

    /// No webhook is taken.
    pub fn get_supported_webhook_flows(&self) -> (r: Option<Vec<EventClass>>)
        ensures
            r matches Some(flows) && flows@.len() == 0,
    {
        Some(Vec::new())
    }
}

} // verus!
