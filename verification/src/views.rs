//! Views of optional and fallible values, and comparison of text with literals.
use vstd::prelude::*;

verus! {

/// The view of an optional value: the view of what it holds.
pub open spec fn opt_view<T: View>(value: Option<T>) -> Option<T::V> {
    match value {
        Some(inner) => Some(inner@),
        None => None,
    }
}

/// An optional text with the empty text in place of a missing one.
pub open spec fn or_empty(value: Option<Seq<char>>) -> Seq<char> {
    match value {
        Some(text) => text,
        None => Seq::empty(),
    }
}

/// The view of a fallible value: the view of whichever side it holds.
pub open spec fn result_view<T: View, E: View>(value: Result<T, E>) -> Result<T::V, E::V> {
    match value {
        Ok(inner) => Ok(inner@),
        Err(error) => Err(error@),
    }
}

/// Whether a text equals a literal.
pub fn text_is(text: &String, literal: &str) -> (r: bool)
    ensures
        r == (text@ == literal@),
{
    *text == literal.to_string()
}

} // verus!
