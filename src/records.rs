//! The upstream records whose fields the mirror reads.
use vstd::prelude::*;

verus! {

/// A list response of the data API.
pub struct Response<T> {
    pub results: Vec<T>,
}

pub struct UserInfoResult {
    pub full_name: String,
}

/// A bank account as the data API lists it.
#[derive(Clone, Debug, PartialEq)]
pub struct AccountsResult {
    pub account_id: String,
    pub account_type: String,
    pub display_name: String,
    pub currency: String,
    pub account_number: AccountNumber,
    pub provider: AccountsProvider,
}

#[derive(Clone, Debug, PartialEq, Eq)]
pub struct AccountNumber {
    pub iban: Option<String>,
    pub number: Option<String>,
    pub sort_code: Option<String>,
    pub swift_bic: Option<String>,
}

#[derive(Clone, Debug)]
pub struct AccountsProvider {
    pub provider_id: String,
}

/// Providers are the same when their identifiers are.
impl PartialEq for AccountsProvider {
    fn eq(&self, other: &Self) -> (r: bool) {
        self.provider_id == other.provider_id
    }
}

impl vstd::std_specs::cmp::PartialEqSpecImpl for AccountsProvider {
    open spec fn obeys_eq_spec() -> bool {
        true
    }

    open spec fn eq_spec(&self, other: &AccountsProvider) -> bool {
        self.provider_id@ == other.provider_id@
    }
}

/// A card account as the data API lists it.
#[derive(Clone, Debug, PartialEq, Eq)]
pub struct CardsResult {
    pub account_id: String,
    pub card_network: String,
    pub card_type: String,
    pub currency: String,
    pub display_name: String,
    pub partial_card_number: String,
    pub name_on_card: String,
    pub valid_from: Option<String>,
    pub valid_to: Option<String>,
    pub provider: CardsProvider,
}

#[derive(Clone, Debug, PartialEq, Eq)]
pub struct CardsProvider {
    pub provider_id: String,
    pub logo_uri: Option<String>,
    pub display_name: Option<String>,
}

} // verus!
