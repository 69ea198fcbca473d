//! What a customer pays with.
use vstd::prelude::*;

use crate::secret::Secret;
use crate::views::opt_view;

verus! {

/// A card as the customer entered it.
#[derive(PartialEq, Eq)]
pub struct Card {
    pub card_number: Secret<String>,
    pub card_exp_month: Secret<String>,
    pub card_exp_year: Secret<String>,
    pub card_cvc: Secret<String>,
    pub card_holder_name: Option<Secret<String>>,
}

/// What a [`Card`] says.
pub struct CardView {
    pub number: Seq<char>,
    pub exp_month: Seq<char>,
    pub exp_year: Seq<char>,
    pub cvc: Seq<char>,
    pub holder: Option<Seq<char>>,
}

impl View for Card {
    type V = CardView;

    open spec fn view(&self) -> CardView {
        CardView {
            number: self.card_number@,
            exp_month: self.card_exp_month@,
            exp_year: self.card_exp_year@,
            cvc: self.card_cvc@,
            holder: opt_view(self.card_holder_name),
        }
    }
}

impl Clone for Card {
    fn clone(&self) -> (r: Self)
        ensures
            r == *self,
    {
        Card {
            card_number: self.card_number.clone(),
            card_exp_month: self.card_exp_month.clone(),
            card_exp_year: self.card_exp_year.clone(),
            card_cvc: self.card_cvc.clone(),
            card_holder_name: self.card_holder_name.clone(),
        }
    }
}

/// The payment method of a payment. The connector takes cards alone.
#[derive(PartialEq, Eq)]
pub enum PaymentMethodData {
    Card(Card),
    Other,
}

impl PaymentMethodData {
    /// The card, where the method is one.
    pub open spec fn card(self) -> Option<CardView> {
        match self {
            PaymentMethodData::Card(card) => Some(card@),
            PaymentMethodData::Other => None,
        }
    }
}

impl Clone for PaymentMethodData {
    fn clone(&self) -> (r: Self)
        ensures
            r == *self,
    {
        match self {
            PaymentMethodData::Card(card) => PaymentMethodData::Card(card.clone()),
            PaymentMethodData::Other => PaymentMethodData::Other,
        }
    }
}

} // verus!
