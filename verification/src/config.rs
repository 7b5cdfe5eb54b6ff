//! The settings that the service is started with.

use vstd::prelude::*;

verus! {

/// Where the database and the payment service are, and the secrets for them.
#[derive(Clone, Debug)]
pub struct Config {
    pub database_url: String,
    pub jwt_secret: String,
    pub payment_api_key: String,
    pub payment_api_url: String,
}

} // verus!
