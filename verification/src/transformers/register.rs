//! Registering an order: `register.do`.
use vstd::prelude::*;
use vstd::std_specs::convert::{FromSpecImpl, TryFromSpecImpl};

use crate::domain::amount::StringMinorUnit;
use crate::domain::router_data::PaymentsAuthorizeRouterData;
use crate::errors::{missing, ConnectorError, ConnectorErrorView};
use crate::secret::Secret;
use crate::transformers::auth::{credentials, AtbbankAuthType};
use crate::transformers::currency::{currency_code, currency_to_numeric};
use crate::views::result_view;

verus! {

/// A payment together with its amount as the bank takes it.
pub struct AtbbankRouterData<T> {
    pub amount: StringMinorUnit,
    pub router_data: T,
}

impl<T> From<(StringMinorUnit, T)> for AtbbankRouterData<T> {
    fn from(item: (StringMinorUnit, T)) -> (r: Self) {
        AtbbankRouterData { amount: item.0, router_data: item.1 }
    }
}

impl<T> FromSpecImpl<(StringMinorUnit, T)> for AtbbankRouterData<T> {
    open spec fn obeys_from_spec() -> bool {
        true
    }

    open spec fn from_spec(item: (StringMinorUnit, T)) -> Self {
        AtbbankRouterData { amount: item.0, router_data: item.1 }
    }
}

/// Request body of `register.do`.
pub struct AtbbankRegisterRequest {
    pub user_name: Secret<String>,
    pub password: Secret<String>,
    pub order_number: String,
    /// Amount in minor units.
    pub amount: String,
    /// Numeric ISO 4217 currency code.
    pub currency: String,
    pub return_url: String,
    pub fail_url: String,
    pub language: String,
}

/// What an [`AtbbankRegisterRequest`] says.
#[verifier::ext_equal]
pub struct RegisterRequestView {
    pub user_name: Seq<char>,
    pub password: Seq<char>,
    pub order_number: Seq<char>,
    pub amount: Seq<char>,
    pub currency: Seq<char>,
    pub return_url: Seq<char>,
    pub fail_url: Seq<char>,
    pub language: Seq<char>,
}

impl View for AtbbankRegisterRequest {
    type V = RegisterRequestView;

    open spec fn view(&self) -> RegisterRequestView {
        RegisterRequestView {
            user_name: self.user_name@,
            password: self.password@,
            order_number: self.order_number@,
            amount: self.amount@,
            currency: self.currency@,
            return_url: self.return_url@,
            fail_url: self.fail_url@,
            language: self.language@,
        }
    }
}

/// The request that registers a payment's order. It is refused, in this order, for credentials
/// of another kind, for a currency that the bank does not take, and for want of a return URL.
pub open spec fn register_request(
    amount: Seq<char>,
    payment: PaymentsAuthorizeRouterData,
) -> Result<RegisterRequestView, ConnectorErrorView> {
    match (
        credentials(payment.connector_auth_type),
        currency_code(payment.request.currency@),
        payment.request.router_return_url,
    ) {
        (Err(error), _, _) => Err(error),
        (_, Err(error), _) => Err(error),
        (_, _, None) => Err(missing("return_url"@)),
        (Ok(auth), Ok(currency), Some(return_url)) => Ok(
            RegisterRequestView {
                user_name: auth.user_name,
                password: auth.password,
                order_number: payment.connector_request_reference_id@,
                amount,
                currency,
                return_url: return_url@,
                fail_url: return_url@,
                language: match payment.request.browser_language() {
                    Some(language) => language,
                    None => "en"@,
                },
            },
        ),
    }
}

impl<'a, 'b> TryFrom<
    &'a AtbbankRouterData<&'b PaymentsAuthorizeRouterData>,
> for AtbbankRegisterRequest {
    type Error = ConnectorError;

    fn try_from(item: &'a AtbbankRouterData<&'b PaymentsAuthorizeRouterData>) -> (r: Result<
        Self,
        ConnectorError,
    >)
        ensures
            result_view(r) == register_request(item.amount@, *item.router_data),
    {
        let router_data = item.router_data;
        let auth = AtbbankAuthType::try_from(&router_data.connector_auth_type)?;
        let currency_code = currency_to_numeric(&router_data.request.currency)?;
        let return_url = router_data.request.get_router_return_url()?;
        let language = match router_data.request.get_optional_language_from_browser_info() {
            Some(language) => language,
            None => "en".to_string(),
        };

        Ok(
            AtbbankRegisterRequest {
                user_name: auth.user_name,
                password: auth.password,
                order_number: router_data.connector_request_reference_id.clone(),
                amount: item.amount.0.clone(),
                currency: currency_code,
                return_url: return_url.clone(),
                fail_url: return_url,
                language,
            },
        )
    }
}

impl<'a, 'b> TryFromSpecImpl<
    &'a AtbbankRouterData<&'b PaymentsAuthorizeRouterData>,
> for AtbbankRegisterRequest {
    open spec fn obeys_try_from_spec() -> bool {
        false
    }

    open spec fn try_from_spec(
        item: &'a AtbbankRouterData<&'b PaymentsAuthorizeRouterData>,
    ) -> Result<Self, ConnectorError> {
        arbitrary()
    }
}

} // verus!
