//! What the connector stores with a payment between its calls.
use vstd::prelude::*;

use crate::domain::payment_method::{Card, CardView};
use crate::secret::Secret;
use crate::views::opt_view;

verus! {

/// Connector metadata, stored between the authorize step and the steps that follow.
#[derive(PartialEq, Eq)]
pub struct AtbbankMeta {
    /// The `orderId` that the register step returned. Every later call needs it.
    pub order_id: String,
    /// Card data saved by the authorize step, for the step that follows: that one is entered by
    /// a redirect, which brings no payment method.
    pub card_number: Option<Secret<String>>,
    pub card_cvc: Option<Secret<String>>,
    pub card_exp_month: Option<Secret<String>>,
    pub card_exp_year: Option<Secret<String>>,
    pub card_holder: Option<String>,
    /// The 3DS server's transaction, from the first of two card submissions.
    pub three_ds_server_trans_id: Option<String>,
}

/// What an [`AtbbankMeta`] says.
#[verifier::ext_equal]
pub struct MetaView {
    pub order_id: Seq<char>,
    pub card_number: Option<Seq<char>>,
    pub card_cvc: Option<Seq<char>>,
    pub card_exp_month: Option<Seq<char>>,
    pub card_exp_year: Option<Seq<char>>,
    pub card_holder: Option<Seq<char>>,
    pub three_ds_server_trans_id: Option<Seq<char>>,
}

impl MetaView {
    /// A registered order and nothing else.
    pub open spec fn order(order_id: Seq<char>) -> Self {
        MetaView {
            order_id,
            card_number: None,
            card_cvc: None,
            card_exp_month: None,
            card_exp_year: None,
            card_holder: None,
            three_ds_server_trans_id: None,
        }
    }

    /// The same record with a card saved in it.
    pub open spec fn with_card(self, card: CardView) -> Self {
        MetaView {
            card_number: Some(card.number),
            card_cvc: Some(card.cvc),
            card_exp_month: Some(card.exp_month),
            card_exp_year: Some(card.exp_year),
            card_holder: card.holder,
            ..self
        }
    }

    /// The same order after the first card submission: the 3DS transaction is known, and the
    /// card is forgotten.
    pub open spec fn after_first_stage(self, three_ds_server_trans_id: Seq<char>) -> Self {
        MetaView {
            three_ds_server_trans_id: Some(three_ds_server_trans_id),
            ..MetaView::order(self.order_id)
        }
    }

    /// Nothing of a card is stored.
    pub open spec fn has_no_card_data(self) -> bool {
        &&& self.card_number is None
        &&& self.card_cvc is None
        &&& self.card_exp_month is None
        &&& self.card_exp_year is None
        &&& self.card_holder is None
    }
}

impl View for AtbbankMeta {
    type V = MetaView;

    open spec fn view(&self) -> MetaView {
        MetaView {
            order_id: self.order_id@,
            card_number: opt_view(self.card_number),
            card_cvc: opt_view(self.card_cvc),
            card_exp_month: opt_view(self.card_exp_month),
            card_exp_year: opt_view(self.card_exp_year),
            card_holder: opt_view(self.card_holder),
            three_ds_server_trans_id: opt_view(self.three_ds_server_trans_id),
        }
    }
}

impl AtbbankMeta {
    /// A registered order and nothing else.
    pub fn order(order_id: String) -> (r: Self)
        ensures
            r@ == MetaView::order(order_id@),
    {
        AtbbankMeta {
            order_id,
            card_number: None,
            card_cvc: None,
            card_exp_month: None,
            card_exp_year: None,
            card_holder: None,
            three_ds_server_trans_id: None,
        }
    }

    /// Saves a card in the record, over any card that was there.
    pub fn save_card(&mut self, card: &Card)
        ensures
            final(self)@ == old(self)@.with_card(card@),
    {
        self.card_number = Some(card.card_number.clone());
        self.card_cvc = Some(card.card_cvc.clone());
        self.card_exp_month = Some(card.card_exp_month.clone());
        self.card_exp_year = Some(card.card_exp_year.clone());
        self.card_holder = match &card.card_holder_name {
            Some(name) => Some(name.peek().clone()),
            None => None,
        };
    }

    /// Notes the 3DS transaction of the first card submission, and forgets the card.
    pub fn finish_first_stage(&mut self, three_ds_server_trans_id: String)
        ensures
            final(self)@ == old(self)@.after_first_stage(three_ds_server_trans_id@),
    {
        self.three_ds_server_trans_id = Some(three_ds_server_trans_id);
        self.card_number = None;
        self.card_cvc = None;
        self.card_exp_month = None;
        self.card_exp_year = None;
        self.card_holder = None;
    }
}

impl Clone for AtbbankMeta {
    fn clone(&self) -> (r: Self)
        ensures
            r == *self,
    {
        AtbbankMeta {
            order_id: self.order_id.clone(),
            card_number: self.card_number.clone(),
            card_cvc: self.card_cvc.clone(),
            card_exp_month: self.card_exp_month.clone(),
            card_exp_year: self.card_exp_year.clone(),
            card_holder: self.card_holder.clone(),
            three_ds_server_trans_id: self.three_ds_server_trans_id.clone(),
        }
    }
}

/// Details of an order, as the status call reports them.
#[derive(PartialEq, Eq, Debug)]
pub struct OrderStatusMetadata {
    pub action_code: Option<i32>,
    pub action_code_description: Option<String>,
    pub approval_code: Option<String>,
    pub auth_code: Option<String>,
    pub deposit_amount: Option<i64>,
    pub refunded_amount: Option<i64>,
}

/// What an [`OrderStatusMetadata`] says.
#[verifier::ext_equal]
pub struct OrderStatusMetadataView {
    pub action_code: Option<i32>,
    pub action_code_description: Option<Seq<char>>,
    pub approval_code: Option<Seq<char>>,
    pub auth_code: Option<Seq<char>>,
    pub deposit_amount: Option<i64>,
    pub refunded_amount: Option<i64>,
}

impl View for OrderStatusMetadata {
    type V = OrderStatusMetadataView;

    open spec fn view(&self) -> OrderStatusMetadataView {
        OrderStatusMetadataView {
            action_code: self.action_code,
            action_code_description: opt_view(self.action_code_description),
            approval_code: opt_view(self.approval_code),
            auth_code: opt_view(self.auth_code),
            deposit_amount: self.deposit_amount,
            refunded_amount: self.refunded_amount,
        }
    }
}

impl Clone for OrderStatusMetadata {
    fn clone(&self) -> (r: Self)
        ensures
            r == *self,
    {
        OrderStatusMetadata {
            action_code: self.action_code,
            action_code_description: self.action_code_description.clone(),
            approval_code: self.approval_code.clone(),
            auth_code: self.auth_code.clone(),
            deposit_amount: self.deposit_amount,
            refunded_amount: self.refunded_amount,
        }
    }
}

/// What an answer asks the router to store with the payment.
#[derive(PartialEq, Eq)]
pub enum ConnectorMetadata {
    Order(AtbbankMeta),
    OrderStatus(OrderStatusMetadata),
}

/// What a [`ConnectorMetadata`] says.
#[verifier::ext_equal]
pub enum ConnectorMetadataView {
    Order(MetaView),
    OrderStatus(OrderStatusMetadataView),
}

impl View for ConnectorMetadata {
    type V = ConnectorMetadataView;

    open spec fn view(&self) -> ConnectorMetadataView {
        match self {
            ConnectorMetadata::Order(meta) => ConnectorMetadataView::Order(meta@),
            ConnectorMetadata::OrderStatus(details) => ConnectorMetadataView::OrderStatus(details@),
        }
    }
}

impl ConnectorMetadataView {
    /// The 3DS server's transaction, where the record names one.
    pub open spec fn three_ds_server_trans_id(self) -> Option<Seq<char>> {
        match self {
            ConnectorMetadataView::Order(meta) => meta.three_ds_server_trans_id,
            ConnectorMetadataView::OrderStatus(_) => None,
        }
    }
}

impl ConnectorMetadata {
    /// The 3DS server's transaction, where the record names one.
    pub fn three_ds_server_trans_id(&self) -> (r: Option<String>)
        ensures
            opt_view(r) == self@.three_ds_server_trans_id(),
    {
        match self {
            ConnectorMetadata::Order(meta) => meta.three_ds_server_trans_id.clone(),
            ConnectorMetadata::OrderStatus(_) => None,
        }
    }
}

impl Clone for ConnectorMetadata {
    fn clone(&self) -> (r: Self)
        ensures
            r == *self,
    {
        match self {
            ConnectorMetadata::Order(meta) => ConnectorMetadata::Order(meta.clone()),
            ConnectorMetadata::OrderStatus(details) => ConnectorMetadata::OrderStatus(
                details.clone(),
            ),
        }
    }
}

} // verus!
