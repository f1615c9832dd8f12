//! Extension data attached to an address when field selectors ask for it:
//! school districts, time zone and ZIP+4 delivery data, and the echo of the
//! parsed input. Below the bundle every member is optional.
use vstd::prelude::*;

use crate::address::AddressComponents;
use crate::congressional::{CongressionalDistrict, StateLegislativeDistricts};
use crate::json::JsonValue;

verus! {

/// Extension data attached to an address when field selectors ask for it.
/// Each part is present only where it was asked for and returned.
#[derive(Debug, PartialEq)]
pub struct Fields {
    pub timezone: Option<Timezone>,
    pub zip4: Option<Zip4>,
    pub congressional_district: Option<CongressionalDistrict>,
    pub congressional_districts: Option<Vec<CongressionalDistrict>>,
    pub state_legislative_districts: Option<StateLegislativeDistricts>,
    pub school_districts: Option<SchoolDistricts>,
    pub census: Option<JsonValue>,
    pub acs: Option<JsonValue>,
}

/// The school districts of an address.
#[derive(Default, Debug, Clone, PartialEq, Eq)]
pub struct SchoolDistricts {
    pub unified: Option<SchoolDistrict>,
    pub elementary: Option<SchoolDistrict>,
    pub secondary: Option<SchoolDistrict>,
}

/// One school district.
#[derive(Default, Debug, Clone, PartialEq, Eq)]
pub struct SchoolDistrict {
    pub name: Option<String>,
    pub lea_code: Option<String>,
    pub grade_low: Option<String>,
    pub grade_high: Option<String>,
}

/// The time zone of an address.
#[derive(Default, Debug, Clone, PartialEq, Eq)]
pub struct Timezone {
    pub name: Option<String>,
    pub abbreviation: Option<String>,
    pub utc_offset: Option<i16>,
    pub observes_dst: Option<bool>,
    pub source: Option<String>,
}

/// ZIP+4 postal delivery data.
#[derive(Default, Debug, Clone, PartialEq, Eq)]
pub struct Zip4 {
    pub record_type: Option<RecordType>,
    pub carrier_route: Option<CarrierRoute>,
    pub building_or_firm_name: Option<String>,
    pub plus4: Option<Vec<String>>,
    pub zip9: Option<Vec<String>>,
    pub government_building: Option<String>,
    pub facility_code: Option<FacilityCode>,
    pub city_delivery: Option<bool>,
    pub valid_delivery_area: Option<bool>,
    pub exact_match: Option<bool>,
}

/// The kind of a ZIP+4 record.
#[derive(Default, Debug, Clone, PartialEq, Eq)]
pub struct RecordType {
    pub code: Option<String>,
    pub description: Option<String>,
}

/// A postal carrier route.
#[derive(Default, Debug, Clone, PartialEq, Eq)]
pub struct CarrierRoute {
    pub id: Option<String>,
    pub description: Option<String>,
}

/// A postal facility code.
#[derive(Default, Debug, Clone, PartialEq, Eq)]
pub struct FacilityCode {
    pub code: Option<String>,
    pub description: Option<String>,
}

/// The provider's reading of the query it was sent.
#[derive(Default, Debug, Clone, PartialEq, Eq)]
pub struct Input {
    pub address_components: AddressComponents,
    pub formatted_address: String,
}

/// Debug data of a response; it carries nothing.
#[derive(Default, Debug, Clone, PartialEq, Eq)]
pub struct Debug {}

} // verus!
