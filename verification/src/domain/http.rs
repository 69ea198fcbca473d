//! What goes over the wire, as far as the connector decides it.
use vstd::prelude::*;

use crate::errors::ParsingError;
use crate::secret::Secret;

verus! {

/// The HTTP method of a request.
#[derive(Clone, Copy, PartialEq, Eq, Structural, Debug)]
pub enum Method {
    Get,
    Post,
}

/// A header's value, which may have to be kept out of logs.
#[derive(PartialEq, Eq)]
pub enum Maskable {
    Masked(Secret<String>),
    Normal(String),
}

/// What a [`Maskable`] says, and whether it is masked.
pub enum MaskableView {
    Masked(Seq<char>),
    Normal(Seq<char>),
}

impl View for Maskable {
    type V = MaskableView;

    open spec fn view(&self) -> MaskableView {
        match self {
            Maskable::Masked(value) => MaskableView::Masked(value@),
            Maskable::Normal(value) => MaskableView::Normal(value@),
        }
    }
}

/// A header of a request.
#[derive(PartialEq, Eq)]
pub struct Header {
    pub name: String,
    pub value: Maskable,
}

impl View for Header {
    type V = (Seq<char>, MaskableView);

    open spec fn view(&self) -> (Seq<char>, MaskableView) {
        (self.name@, self.value@)
    }
}

/// Headers, name by name.
pub open spec fn headers_view(headers: Seq<Header>) -> Seq<(Seq<char>, MaskableView)> {
    headers.map_values(|header: Header| header@)
}

/// An answer of the bank: its body as it was decoded, where it could be, and its HTTP status.
pub struct Response<R> {
    pub response: Result<R, ParsingError>,
    pub status_code: u16,
}

/// Where a connector is reached.
#[derive(PartialEq, Eq, Debug)]
pub struct ConnectorParams {
    pub base_url: String,
}

/// The configuration of the connectors.
#[derive(PartialEq, Eq, Debug)]
pub struct Connectors {
    pub atbbank: ConnectorParams,
}

} // verus!
