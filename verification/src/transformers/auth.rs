//! The credentials of the merchant at the bank.
use vstd::prelude::*;
use vstd::std_specs::convert::TryFromSpecImpl;

use crate::domain::router_data::ConnectorAuthType;
use crate::errors::{ConnectorError, ConnectorErrorView};
use crate::secret::Secret;
use crate::views::result_view;

verus! {

/// The credentials that go into every request. The account is configured with a body key, whose
/// `api_key` is the user name and whose `key1` is the password.
pub struct AtbbankAuthType {
    pub user_name: Secret<String>,
    pub password: Secret<String>,
}

/// What an [`AtbbankAuthType`] says.
pub struct Credentials {
    pub user_name: Seq<char>,
    pub password: Seq<char>,
}

impl View for AtbbankAuthType {
    type V = Credentials;

    open spec fn view(&self) -> Credentials {
        Credentials { user_name: self.user_name@, password: self.password@ }
    }
}

/// The credentials of an account that is configured with a body key, and of no other.
pub open spec fn credentials(auth_type: ConnectorAuthType) -> Result<
    Credentials,
    ConnectorErrorView,
> {
    match auth_type {
        ConnectorAuthType::BodyKey { api_key, key1 } => Ok(
            Credentials { user_name: api_key@, password: key1@ },
        ),
        _ => Err(ConnectorErrorView::FailedToObtainAuthType),
    }
}

impl<'a> TryFrom<&'a ConnectorAuthType> for AtbbankAuthType {
    type Error = ConnectorError;

    fn try_from(auth_type: &'a ConnectorAuthType) -> (r: Result<Self, ConnectorError>)
        ensures
            result_view(r) == credentials(*auth_type),
    {
        match auth_type {
            ConnectorAuthType::BodyKey { api_key, key1 } => Ok(
                AtbbankAuthType { user_name: api_key.clone(), password: key1.clone() },
            ),
            _ => Err(ConnectorError::FailedToObtainAuthType),
        }
    }
}

impl<'a> TryFromSpecImpl<&'a ConnectorAuthType> for AtbbankAuthType {
    open spec fn obeys_try_from_spec() -> bool {
        false
    }

    open spec fn try_from_spec(auth_type: &'a ConnectorAuthType) -> Result<Self, ConnectorError> {
        arbitrary()
    }
}

} // verus!
