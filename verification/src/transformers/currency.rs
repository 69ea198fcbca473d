//! Numeric ISO 4217 currency codes.
use vstd::prelude::*;

use crate::domain::enums::Currency;
use crate::errors::{ConnectorError, ConnectorErrorView};
use crate::views::{result_view, text_is};

verus! {

/// The numeric code of a currency that the bank takes.
pub open spec fn numeric_code(currency: Seq<char>) -> Option<Seq<char>> {
    if currency == "AZN"@ {
        Some("944"@)
    } else if currency == "USD"@ {
        Some("840"@)
    } else if currency == "EUR"@ {
        Some("978"@)
    } else if currency == "GBP"@ {
        Some("826"@)
    } else if currency == "TRY"@ {
        Some("949"@)
    } else if currency == "RUB"@ {
        Some("643"@)
    } else {
        None
    }
}

/// The numeric code of a currency, or the refusal of one that the bank does not take.
pub open spec fn currency_code(currency: Seq<char>) -> Result<Seq<char>, ConnectorErrorView> {
    match numeric_code(currency) {
        Some(code) => Ok(code),
        None => Err(
            ConnectorErrorView::NotSupported {
                message: "Currency "@ + currency,
                connector: "atbbank"@,
            },
        ),
    }
}

/// The numeric ISO 4217 code of a currency.
pub fn currency_to_numeric(currency: &Currency) -> (r: Result<String, ConnectorError>)
    ensures
        result_view(r) == currency_code(currency@),
{
    if text_is(&currency.code, "AZN") {
        Ok("944".to_string())
    } else if text_is(&currency.code, "USD") {
        Ok("840".to_string())
    } else if text_is(&currency.code, "EUR") {
        Ok("978".to_string())
    } else if text_is(&currency.code, "GBP") {
        Ok("826".to_string())
    } else if text_is(&currency.code, "TRY") {
        Ok("949".to_string())
    } else if text_is(&currency.code, "RUB") {
        Ok("643".to_string())
    } else {
        Err(
            ConnectorError::NotSupported {
                message: "Currency ".to_string().concat(currency.code.as_str()),
                connector: "atbbank",
            },
        )
    }
}

} // verus!
