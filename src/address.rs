//! The components of a matched address.
use vstd::prelude::*;

verus! {

/// The parts of an address the provider matched; each is absent when the
/// provider matched no such part.
#[derive(Default, Debug, Clone, PartialEq, Eq)]
pub struct AddressComponents {
    pub number: Option<String>,
    pub street: Option<String>,
    pub suffix: Option<String>,
    pub secondary_number: Option<String>,
    pub secondary_unit: Option<String>,
    pub post_directional: Option<String>,
    pub formatted_street: Option<String>,
    pub city: Option<String>,
    pub state: Option<String>,
    pub zip: Option<String>,
    pub county: Option<String>,
    pub country: Option<String>,
    pub pre_directional: Option<String>,
    pub prefix: Option<String>,
}

} // verus!
