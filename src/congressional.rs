//! Congressional and state legislative districts, and the legislators who
//! represent them. Records in the wild are incomplete, so every member is
//! optional.
use vstd::prelude::*;

verus! {

/// The state house and senate districts of an address.
#[derive(Default, Debug, Clone, PartialEq)]
pub struct StateLegislativeDistricts {
    pub house: Option<Vec<StateLegislativeDistrict>>,
    pub senate: Option<Vec<StateLegislativeDistrict>>,
}

/// One state legislative district.
#[derive(Default, Debug, Clone, PartialEq)]
pub struct StateLegislativeDistrict {
    pub name: Option<String>,
    pub district_number: Option<String>,
    pub is_upcoming_state_legislative_district: Option<bool>,
    pub proportion: Option<i16>,
}

/// A congressional district, with its current legislators when known.
#[derive(Default, Debug, Clone, PartialEq)]
pub struct CongressionalDistrict {
    pub name: Option<String>,
    pub district_number: Option<i16>,
    pub congress_number: Option<String>,
    pub congress_years: Option<String>,
    pub proportion: Option<i16>,
    pub current_legislators: Option<Vec<Legislator>>,
}

/// A member of Congress.
#[derive(Default, Debug, Clone, PartialEq)]
pub struct Legislator {
    pub type_field: Option<String>,
    pub bio: Option<Bio>,
    pub contact: Option<Contact>,
    pub social: Option<CongressionalSocial>,
    pub references: Option<References>,
    pub source: Option<String>,
}

/// Biographical facts of a legislator; any may be unknown.
#[derive(Default, Debug, Clone, PartialEq)]
pub struct Bio {
    pub first_name: Option<String>,
    pub last_name: Option<String>,
    pub birthday: Option<String>,
    pub gender: Option<String>,
    pub party: Option<String>,
}

/// How to reach a legislator.
#[derive(Default, Debug, Clone, PartialEq)]
pub struct Contact {
    pub url: Option<String>,
    pub address: Option<String>,
    pub phone: Option<String>,
    pub contact_form: Option<String>,
}

/// A legislator's social media accounts.
#[derive(Default, Debug, Clone, PartialEq)]
pub struct CongressionalSocial {
    pub rss_url: Option<String>,
    pub twitter: Option<String>,
    pub facebook: Option<String>,
    pub youtube: Option<String>,
    pub youtube_id: Option<String>,
}

/// A legislator's identifiers in other databases.
#[derive(Default, Debug, Clone, PartialEq)]
pub struct References {
    pub bioguide_id: Option<String>,
    pub thomas_id: Option<String>,
    pub govtrack_id: Option<String>,
    pub opensecrets_id: Option<String>,
    pub votesmart_id: Option<String>,
    pub lis_id: Option<String>,
    pub cspan_id: Option<String>,
    pub icpsr_id: Option<String>,
    pub wikipedia_id: Option<String>,
    pub washington_post_id: Option<String>,
}

} // verus!
