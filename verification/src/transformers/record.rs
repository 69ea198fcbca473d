//! Stored records, key by key.
use vstd::prelude::*;

use crate::secret::Secret;
use crate::transformers::meta::{
    AtbbankMeta, ConnectorMetadata, ConnectorMetadataView, MetaView, OrderStatusMetadata,
    OrderStatusMetadataView,
};
use crate::views::opt_view;

verus! {

/// A value in a record.
#[derive(PartialEq, Eq)]
pub enum RecordValue {
    Text(String),
    /// A text that must be kept out of logs.
    Hidden(Secret<String>),
    Integer(i64),
    Null,
}

/// What a [`RecordValue`] says.
pub enum RecordValueView {
    Text(Seq<char>),
    Hidden(Seq<char>),
    Integer(int),
    Null,
}

impl View for RecordValue {
    type V = RecordValueView;

    open spec fn view(&self) -> RecordValueView {
        match self {
            RecordValue::Text(text) => RecordValueView::Text(text@),
            RecordValue::Hidden(text) => RecordValueView::Hidden(text@),
            RecordValue::Integer(number) => RecordValueView::Integer(*number as int),
            RecordValue::Null => RecordValueView::Null,
        }
    }
}

/// An entry of a record.
#[derive(PartialEq, Eq)]
pub struct RecordEntry {
    pub key: String,
    pub value: RecordValue,
}

impl View for RecordEntry {
    type V = (Seq<char>, RecordValueView);

    open spec fn view(&self) -> (Seq<char>, RecordValueView) {
        (self.key@, self.value@)
    }
}

/// Entries, one by one.
pub open spec fn record_view(entries: Seq<RecordEntry>) -> Seq<(Seq<char>, RecordValueView)> {
    entries.map_values(|entry: RecordEntry| entry@)
}

/// An entry for a text that is known, and none for one that is not.
pub open spec fn text_if_known(key: Seq<char>, text: Option<Seq<char>>) -> Seq<
    (Seq<char>, RecordValueView),
> {
    match text {
        Some(text) => seq![(key, RecordValueView::Text(text))],
        None => Seq::empty(),
    }
}

/// An entry for a hidden text that is known, and none for one that is not.
pub open spec fn hidden_if_known(key: Seq<char>, text: Option<Seq<char>>) -> Seq<
    (Seq<char>, RecordValueView),
> {
    match text {
        Some(text) => seq![(key, RecordValueView::Hidden(text))],
        None => Seq::empty(),
    }
}

/// A text, or null in place of a missing one.
pub open spec fn text_or_null(text: Option<Seq<char>>) -> RecordValueView {
    match text {
        Some(text) => RecordValueView::Text(text),
        None => RecordValueView::Null,
    }
}

/// A number, or null in place of a missing one.
pub open spec fn integer_or_null(number: Option<i64>) -> RecordValueView {
    match number {
        Some(number) => RecordValueView::Integer(number as int),
        None => RecordValueView::Null,
    }
}

impl MetaView {
    /// The entries of an order's record. What is not known has no entry.
    pub open spec fn entries(self) -> Seq<(Seq<char>, RecordValueView)> {
        seq![("order_id"@, RecordValueView::Text(self.order_id))] + hidden_if_known(
            "card_number"@,
            self.card_number,
        ) + hidden_if_known("card_cvc"@, self.card_cvc) + hidden_if_known(
            "card_exp_month"@,
            self.card_exp_month,
        ) + hidden_if_known("card_exp_year"@, self.card_exp_year) + text_if_known(
            "card_holder"@,
            self.card_holder,
        ) + text_if_known("three_ds_server_trans_id"@, self.three_ds_server_trans_id)
    }
}

impl OrderStatusMetadataView {
    /// The entries of the record of a status call. What is not known is null.
    pub open spec fn entries(self) -> Seq<(Seq<char>, RecordValueView)> {
        seq![
            (
                "action_code"@,
                match self.action_code {
                    Some(code) => RecordValueView::Integer(code as int),
                    None => RecordValueView::Null,
                },
            ),
            ("action_code_description"@, text_or_null(self.action_code_description)),
            ("approval_code"@, text_or_null(self.approval_code)),
            ("auth_code"@, text_or_null(self.auth_code)),
            ("deposit_amount"@, integer_or_null(self.deposit_amount)),
            ("refunded_amount"@, integer_or_null(self.refunded_amount)),
        ]
    }
}

impl ConnectorMetadataView {
    /// The entries of a record.
    pub open spec fn entries(self) -> Seq<(Seq<char>, RecordValueView)> {
        match self {
            ConnectorMetadataView::Order(meta) => meta.entries(),
            ConnectorMetadataView::OrderStatus(details) => details.entries(),
        }
    }
}

fn push_text(entries: &mut Vec<RecordEntry>, key: &str, text: &Option<String>)
    ensures
        record_view(final(entries)@) == record_view(old(entries)@) + text_if_known(
            key@,
            opt_view(*text),
        ),
{
    if let Some(text) = text {
        entries.push(RecordEntry { key: key.to_string(), value: RecordValue::Text(text.clone()) });
    }
    assert(record_view(entries@) =~= record_view(old(entries)@) + text_if_known(
        key@,
        opt_view(*text),
    ));
}

fn push_hidden(entries: &mut Vec<RecordEntry>, key: &str, text: &Option<Secret<String>>)
    ensures
        record_view(final(entries)@) == record_view(old(entries)@) + hidden_if_known(
            key@,
            opt_view(*text),
        ),
{
    if let Some(text) = text {
        entries.push(
            RecordEntry { key: key.to_string(), value: RecordValue::Hidden(text.clone()) },
        );
    }
    assert(record_view(entries@) =~= record_view(old(entries)@) + hidden_if_known(
        key@,
        opt_view(*text),
    ));
}

fn text_entry(key: &str, text: &Option<String>) -> (r: RecordEntry)
    ensures
        r@ == (
            key@,
            text_or_null(opt_view(*text)),
        ),
{
    let value = match text {
        Some(text) => RecordValue::Text(text.clone()),
        None => RecordValue::Null,
    };
    RecordEntry { key: key.to_string(), value }
}

fn integer_entry(key: &str, number: Option<i64>) -> (r: RecordEntry)
    ensures
        r@ == (key@, integer_or_null(number)),
{
    let value = match number {
        Some(number) => RecordValue::Integer(number),
        None => RecordValue::Null,
    };
    RecordEntry { key: key.to_string(), value }
}

impl AtbbankMeta {
    /// The entries of an order's record. What is not known has no entry.
    pub fn entries(&self) -> (r: Vec<RecordEntry>)
        ensures
            record_view(r@) == self@.entries(),
    {
        let mut entries: Vec<RecordEntry> = Vec::new();
        entries.push(
            RecordEntry {
                key: "order_id".to_string(),
                value: RecordValue::Text(self.order_id.clone()),
            },
        );
        assert(record_view(entries@) =~= seq![
            ("order_id"@, RecordValueView::Text(self.order_id@)),
        ]);
        push_hidden(&mut entries, "card_number", &self.card_number);
        push_hidden(&mut entries, "card_cvc", &self.card_cvc);
        push_hidden(&mut entries, "card_exp_month", &self.card_exp_month);
        push_hidden(&mut entries, "card_exp_year", &self.card_exp_year);
        push_text(&mut entries, "card_holder", &self.card_holder);
        push_text(&mut entries, "three_ds_server_trans_id", &self.three_ds_server_trans_id);
        entries
    }
}

impl OrderStatusMetadata {
    /// The entries of the record of a status call. What is not known is null.
    pub fn entries(&self) -> (r: Vec<RecordEntry>)
        ensures
            record_view(r@) == self@.entries(),
    {
        let action_code: Option<i64> = match self.action_code {
            Some(code) => Some(code as i64),
            None => None,
        };
        let r: Vec<RecordEntry> = vec![
            integer_entry("action_code", action_code),
            text_entry("action_code_description", &self.action_code_description),
            text_entry("approval_code", &self.approval_code),
            text_entry("auth_code", &self.auth_code),
            integer_entry("deposit_amount", self.deposit_amount),
            integer_entry("refunded_amount", self.refunded_amount),
        ];
        assert(record_view(r@) =~= self@.entries());
        r
    }
}

impl ConnectorMetadata {
    /// The entries of a record, ready to be encoded.
    pub fn entries(&self) -> (r: Vec<RecordEntry>)
        ensures
            record_view(r@) == self@.entries(),
    {
        match self {
            ConnectorMetadata::Order(meta) => meta.entries(),
            ConnectorMetadata::OrderStatus(details) => details.entries(),
        }
    }
}

} // verus!
