//! The payment router's vocabulary, as far as the connector reads or fills it.
pub mod amount;
pub mod enums;
pub mod flows;
pub mod http;
pub mod payment_method;
pub mod request_types;
pub mod response_types;
pub mod router_data;
