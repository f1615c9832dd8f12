//! Reading the response schema from JSON. Every record is read from an
//! object. Below the top level no member is assumed present: a member that
//! is absent or null is absent in the record, a member of the wrong kind
//! does not match, and unknown members are ignored.
use vstd::prelude::*;
use vstd::string::*;

use crate::address::AddressComponents;
use crate::congressional::{
    Bio, CongressionalDistrict, CongressionalSocial, Contact, Legislator, References,
    StateLegislativeDistrict, StateLegislativeDistricts,
};
use crate::json::{
    is_object, lemma_object_member, left_out, member_of, member_position, member_value,
    object_with, opt_bool_member, opt_boolean, opt_small_int, opt_small_int_member, opt_text,
    opt_text_json, opt_text_member, opt_text_to_json, text, text_member, JsonValue,
};
use crate::types::{
    CarrierRoute, FacilityCode, Fields, Input, RecordType, SchoolDistrict, SchoolDistricts,
    Timezone, Zip4,
};

verus! {

/// The `AddressComponents` a JSON value stands for, if it matches the schema.
pub open spec fn address_components_of(v: JsonValue) -> Option<AddressComponents> {
    let number = opt_text(member_of(v, "number"@));
    let street = opt_text(member_of(v, "street"@));
    let suffix = opt_text(member_of(v, "suffix"@));
    let secondary_number = opt_text(member_of(v, "secondarynumber"@));
    let secondary_unit = opt_text(member_of(v, "secondaryunit"@));
    let post_directional = opt_text(member_of(v, "postdirectional"@));
    let formatted_street = opt_text(member_of(v, "formatted_street"@));
    let city = opt_text(member_of(v, "city"@));
    let state = opt_text(member_of(v, "state"@));
    let zip = opt_text(member_of(v, "zip"@));
    let county = opt_text(member_of(v, "county"@));
    let country = opt_text(member_of(v, "country"@));
    let pre_directional = opt_text(member_of(v, "predirectional"@));
    let prefix = opt_text(member_of(v, "prefix"@));
    if v is Object && number is Some && street is Some && suffix is Some
        && secondary_number is Some && secondary_unit is Some && post_directional is Some
        && formatted_street is Some && city is Some && state is Some && zip is Some
        && county is Some && country is Some && pre_directional is Some && prefix is Some {
        Some(
            AddressComponents {
                number: number.unwrap(),
                street: street.unwrap(),
                suffix: suffix.unwrap(),
                secondary_number: secondary_number.unwrap(),
                secondary_unit: secondary_unit.unwrap(),
                post_directional: post_directional.unwrap(),
                formatted_street: formatted_street.unwrap(),
                city: city.unwrap(),
                state: state.unwrap(),
                zip: zip.unwrap(),
                county: county.unwrap(),
                country: country.unwrap(),
                pre_directional: pre_directional.unwrap(),
                prefix: prefix.unwrap(),
            },
        )
    } else {
        None
    }
}

impl AddressComponents {
    /// Reads a `AddressComponents` from a JSON object; `None` where a member that is
    /// present does not match the schema.
    pub fn from_json(v: &JsonValue) -> (r: Option<AddressComponents>)
        ensures
            r == address_components_of(*v),
    {
        if !is_object(v) {
            return None;
        }
        let number = match opt_text_member(v, "number") {
            Some(x) => x,
            None => return None,
        };
        let street = match opt_text_member(v, "street") {
            Some(x) => x,
            None => return None,
        };
        let suffix = match opt_text_member(v, "suffix") {
            Some(x) => x,
            None => return None,
        };
        let secondary_number = match opt_text_member(v, "secondarynumber") {
            Some(x) => x,
            None => return None,
        };
        let secondary_unit = match opt_text_member(v, "secondaryunit") {
            Some(x) => x,
            None => return None,
        };
        let post_directional = match opt_text_member(v, "postdirectional") {
            Some(x) => x,
            None => return None,
        };
        let formatted_street = match opt_text_member(v, "formatted_street") {
            Some(x) => x,
            None => return None,
        };
        let city = match opt_text_member(v, "city") {
            Some(x) => x,
            None => return None,
        };
        let state = match opt_text_member(v, "state") {
            Some(x) => x,
            None => return None,
        };
        let zip = match opt_text_member(v, "zip") {
            Some(x) => x,
            None => return None,
        };
        let county = match opt_text_member(v, "county") {
            Some(x) => x,
            None => return None,
        };
        let country = match opt_text_member(v, "country") {
            Some(x) => x,
            None => return None,
        };
        let pre_directional = match opt_text_member(v, "predirectional") {
            Some(x) => x,
            None => return None,
        };
        let prefix = match opt_text_member(v, "prefix") {
            Some(x) => x,
            None => return None,
        };
        Some(
            AddressComponents {
                number,
                street,
                suffix,
                secondary_number,
                secondary_unit,
                post_directional,
                formatted_street,
                city,
                state,
                zip,
                county,
                country,
                pre_directional,
                prefix,
            },
        )
    }
}

/// The `Bio` a JSON value stands for, if it matches the schema.
pub open spec fn bio_of(v: JsonValue) -> Option<Bio> {
    let first_name = opt_text(member_of(v, "first_name"@));
    let last_name = opt_text(member_of(v, "last_name"@));
    let birthday = opt_text(member_of(v, "birthday"@));
    let gender = opt_text(member_of(v, "gender"@));
    let party = opt_text(member_of(v, "party"@));
    if v is Object && first_name is Some && last_name is Some && birthday is Some
        && gender is Some && party is Some {
        Some(
            Bio {
                first_name: first_name.unwrap(),
                last_name: last_name.unwrap(),
                birthday: birthday.unwrap(),
                gender: gender.unwrap(),
                party: party.unwrap(),
            },
        )
    } else {
        None
    }
}

impl Bio {
    /// Reads a `Bio` from a JSON object; `None` where a member that is
    /// present does not match the schema.
    pub fn from_json(v: &JsonValue) -> (r: Option<Bio>)
        ensures
            r == bio_of(*v),
    {
        if !is_object(v) {
            return None;
        }
        let first_name = match opt_text_member(v, "first_name") {
            Some(x) => x,
            None => return None,
        };
        let last_name = match opt_text_member(v, "last_name") {
            Some(x) => x,
            None => return None,
        };
        let birthday = match opt_text_member(v, "birthday") {
            Some(x) => x,
            None => return None,
        };
        let gender = match opt_text_member(v, "gender") {
            Some(x) => x,
            None => return None,
        };
        let party = match opt_text_member(v, "party") {
            Some(x) => x,
            None => return None,
        };
        Some(
            Bio {
                first_name,
                last_name,
                birthday,
                gender,
                party,
            },
        )
    }
}

/// An optional member that is a `Bio`: absent where the member is
/// absent or null.
pub open spec fn opt_bio(m: Option<JsonValue>) -> Option<Option<Bio>> {
    match m {
        None => Some(None),
        Some(JsonValue::Null) => Some(None),
        Some(x) => match bio_of(x) {
            Some(d) => Some(Some(d)),
            None => None,
        },
    }
}

fn opt_bio_member(v: &JsonValue, key: &str) -> (r: Option<Option<Bio>>)
    ensures
        r == opt_bio(member_of(*v, key@)),
{
    match member_value(v, key) {
        None => Some(None),
        Some(JsonValue::Null) => Some(None),
        Some(x) => match Bio::from_json(x) {
            Some(d) => Some(Some(d)),
            None => None,
        },
    }
}

/// The `Contact` a JSON value stands for, if it matches the schema.
pub open spec fn contact_of(v: JsonValue) -> Option<Contact> {
    let url = opt_text(member_of(v, "url"@));
    let address = opt_text(member_of(v, "address"@));
    let phone = opt_text(member_of(v, "phone"@));
    let contact_form = opt_text(member_of(v, "contact_form"@));
    if v is Object && url is Some && address is Some && phone is Some && contact_form is Some {
        Some(
            Contact {
                url: url.unwrap(),
                address: address.unwrap(),
                phone: phone.unwrap(),
                contact_form: contact_form.unwrap(),
            },
        )
    } else {
        None
    }
}

impl Contact {
    /// Reads a `Contact` from a JSON object; `None` where a member that is
    /// present does not match the schema.
    pub fn from_json(v: &JsonValue) -> (r: Option<Contact>)
        ensures
            r == contact_of(*v),
    {
        if !is_object(v) {
            return None;
        }
        let url = match opt_text_member(v, "url") {
            Some(x) => x,
            None => return None,
        };
        let address = match opt_text_member(v, "address") {
            Some(x) => x,
            None => return None,
        };
        let phone = match opt_text_member(v, "phone") {
            Some(x) => x,
            None => return None,
        };
        let contact_form = match opt_text_member(v, "contact_form") {
            Some(x) => x,
            None => return None,
        };
        Some(
            Contact {
                url,
                address,
                phone,
                contact_form,
            },
        )
    }
}

/// An optional member that is a `Contact`: absent where the member is
/// absent or null.
pub open spec fn opt_contact(m: Option<JsonValue>) -> Option<Option<Contact>> {
    match m {
        None => Some(None),
        Some(JsonValue::Null) => Some(None),
        Some(x) => match contact_of(x) {
            Some(d) => Some(Some(d)),
            None => None,
        },
    }
}

fn opt_contact_member(v: &JsonValue, key: &str) -> (r: Option<Option<Contact>>)
    ensures
        r == opt_contact(member_of(*v, key@)),
{
    match member_value(v, key) {
        None => Some(None),
        Some(JsonValue::Null) => Some(None),
        Some(x) => match Contact::from_json(x) {
            Some(d) => Some(Some(d)),
            None => None,
        },
    }
}

/// The `CongressionalSocial` a JSON value stands for, if it matches the schema.
pub open spec fn congressional_social_of(v: JsonValue) -> Option<CongressionalSocial> {
    let rss_url = opt_text(member_of(v, "rss_url"@));
    let twitter = opt_text(member_of(v, "twitter"@));
    let facebook = opt_text(member_of(v, "facebook"@));
    let youtube = opt_text(member_of(v, "youtube"@));
    let youtube_id = opt_text(member_of(v, "youtube_id"@));
    if v is Object && rss_url is Some && twitter is Some && facebook is Some && youtube is Some
        && youtube_id is Some {
        Some(
            CongressionalSocial {
                rss_url: rss_url.unwrap(),
                twitter: twitter.unwrap(),
                facebook: facebook.unwrap(),
                youtube: youtube.unwrap(),
                youtube_id: youtube_id.unwrap(),
            },
        )
    } else {
        None
    }
}

impl CongressionalSocial {
    /// Reads a `CongressionalSocial` from a JSON object; `None` where a member that is
    /// present does not match the schema.
    pub fn from_json(v: &JsonValue) -> (r: Option<CongressionalSocial>)
        ensures
            r == congressional_social_of(*v),
    {
        if !is_object(v) {
            return None;
        }
        let rss_url = match opt_text_member(v, "rss_url") {
            Some(x) => x,
            None => return None,
        };
        let twitter = match opt_text_member(v, "twitter") {
            Some(x) => x,
            None => return None,
        };
        let facebook = match opt_text_member(v, "facebook") {
            Some(x) => x,
            None => return None,
        };
        let youtube = match opt_text_member(v, "youtube") {
            Some(x) => x,
            None => return None,
        };
        let youtube_id = match opt_text_member(v, "youtube_id") {
            Some(x) => x,
            None => return None,
        };
        Some(
            CongressionalSocial {
                rss_url,
                twitter,
                facebook,
                youtube,
                youtube_id,
            },
        )
    }
}

/// An optional member that is a `CongressionalSocial`: absent where the member is
/// absent or null.
pub open spec fn opt_congressional_social(m: Option<JsonValue>) -> Option<Option<CongressionalSocial>> {
    match m {
        None => Some(None),
        Some(JsonValue::Null) => Some(None),
        Some(x) => match congressional_social_of(x) {
            Some(d) => Some(Some(d)),
            None => None,
        },
    }
}

fn opt_congressional_social_member(v: &JsonValue, key: &str) -> (r: Option<Option<CongressionalSocial>>)
    ensures
        r == opt_congressional_social(member_of(*v, key@)),
{
    match member_value(v, key) {
        None => Some(None),
        Some(JsonValue::Null) => Some(None),
        Some(x) => match CongressionalSocial::from_json(x) {
            Some(d) => Some(Some(d)),
            None => None,
        },
    }
}

/// The `References` a JSON value stands for, if it matches the schema.
pub open spec fn references_of(v: JsonValue) -> Option<References> {
    let bioguide_id = opt_text(member_of(v, "bioguide_id"@));
    let thomas_id = opt_text(member_of(v, "thomas_id"@));
    let govtrack_id = opt_text(member_of(v, "govtrack_id"@));
    let opensecrets_id = opt_text(member_of(v, "opensecrets_id"@));
    let votesmart_id = opt_text(member_of(v, "votesmart_id"@));
    let lis_id = opt_text(member_of(v, "lis_id"@));
    let cspan_id = opt_text(member_of(v, "cspan_id"@));
    let icpsr_id = opt_text(member_of(v, "icpsr_id"@));
    let wikipedia_id = opt_text(member_of(v, "wikipedia_id"@));
    let washington_post_id = opt_text(member_of(v, "washington_post_id"@));
    if v is Object && bioguide_id is Some && thomas_id is Some && govtrack_id is Some
        && opensecrets_id is Some && votesmart_id is Some && lis_id is Some && cspan_id is Some
        && icpsr_id is Some && wikipedia_id is Some && washington_post_id is Some {
        Some(
            References {
                bioguide_id: bioguide_id.unwrap(),
                thomas_id: thomas_id.unwrap(),
                govtrack_id: govtrack_id.unwrap(),
                opensecrets_id: opensecrets_id.unwrap(),
                votesmart_id: votesmart_id.unwrap(),
                lis_id: lis_id.unwrap(),
                cspan_id: cspan_id.unwrap(),
                icpsr_id: icpsr_id.unwrap(),
                wikipedia_id: wikipedia_id.unwrap(),
                washington_post_id: washington_post_id.unwrap(),
            },
        )
    } else {
        None
    }
}

impl References {
    /// Reads a `References` from a JSON object; `None` where a member that is
    /// present does not match the schema.
    pub fn from_json(v: &JsonValue) -> (r: Option<References>)
        ensures
            r == references_of(*v),
    {
        if !is_object(v) {
            return None;
        }
        let bioguide_id = match opt_text_member(v, "bioguide_id") {
            Some(x) => x,
            None => return None,
        };
        let thomas_id = match opt_text_member(v, "thomas_id") {
            Some(x) => x,
            None => return None,
        };
        let govtrack_id = match opt_text_member(v, "govtrack_id") {
            Some(x) => x,
            None => return None,
        };
        let opensecrets_id = match opt_text_member(v, "opensecrets_id") {
            Some(x) => x,
            None => return None,
        };
        let votesmart_id = match opt_text_member(v, "votesmart_id") {
            Some(x) => x,
            None => return None,
        };
        let lis_id = match opt_text_member(v, "lis_id") {
            Some(x) => x,
            None => return None,
        };
        let cspan_id = match opt_text_member(v, "cspan_id") {
            Some(x) => x,
            None => return None,
        };
        let icpsr_id = match opt_text_member(v, "icpsr_id") {
            Some(x) => x,
            None => return None,
        };
        let wikipedia_id = match opt_text_member(v, "wikipedia_id") {
            Some(x) => x,
            None => return None,
        };
        let washington_post_id = match opt_text_member(v, "washington_post_id") {
            Some(x) => x,
            None => return None,
        };
        Some(
            References {
                bioguide_id,
                thomas_id,
                govtrack_id,
                opensecrets_id,
                votesmart_id,
                lis_id,
                cspan_id,
                icpsr_id,
                wikipedia_id,
                washington_post_id,
            },
        )
    }
}

/// An optional member that is a `References`: absent where the member is
/// absent or null.
pub open spec fn opt_references(m: Option<JsonValue>) -> Option<Option<References>> {
    match m {
        None => Some(None),
        Some(JsonValue::Null) => Some(None),
        Some(x) => match references_of(x) {
            Some(d) => Some(Some(d)),
            None => None,
        },
    }
}

fn opt_references_member(v: &JsonValue, key: &str) -> (r: Option<Option<References>>)
    ensures
        r == opt_references(member_of(*v, key@)),
{
    match member_value(v, key) {
        None => Some(None),
        Some(JsonValue::Null) => Some(None),
        Some(x) => match References::from_json(x) {
            Some(d) => Some(Some(d)),
            None => None,
        },
    }
}

/// The `Legislator` a JSON value stands for, if it matches the schema.
pub open spec fn legislator_of(v: JsonValue) -> Option<Legislator> {
    let type_field = opt_text(member_of(v, "type"@));
    let bio = opt_bio(member_of(v, "bio"@));
    let contact = opt_contact(member_of(v, "contact"@));
    let social = opt_congressional_social(member_of(v, "social"@));
    let references = opt_references(member_of(v, "references"@));
    let source = opt_text(member_of(v, "source"@));
    if v is Object && type_field is Some && bio is Some && contact is Some && social is Some
        && references is Some && source is Some {
        Some(
            Legislator {
                type_field: type_field.unwrap(),
                bio: bio.unwrap(),
                contact: contact.unwrap(),
                social: social.unwrap(),
                references: references.unwrap(),
                source: source.unwrap(),
            },
        )
    } else {
        None
    }
}

impl Legislator {
    /// Reads a `Legislator` from a JSON object; `None` where a member that is
    /// present does not match the schema.
    pub fn from_json(v: &JsonValue) -> (r: Option<Legislator>)
        ensures
            r == legislator_of(*v),
    {
        if !is_object(v) {
            return None;
        }
        let type_field = match opt_text_member(v, "type") {
            Some(x) => x,
            None => return None,
        };
        let bio = match opt_bio_member(v, "bio") {
            Some(x) => x,
            None => return None,
        };
        let contact = match opt_contact_member(v, "contact") {
            Some(x) => x,
            None => return None,
        };
        let social = match opt_congressional_social_member(v, "social") {
            Some(x) => x,
            None => return None,
        };
        let references = match opt_references_member(v, "references") {
            Some(x) => x,
            None => return None,
        };
        let source = match opt_text_member(v, "source") {
            Some(x) => x,
            None => return None,
        };
        Some(
            Legislator {
                type_field,
                bio,
                contact,
                social,
                references,
                source,
            },
        )
    }
}

/// The `StateLegislativeDistrict` a JSON value stands for, if it matches the schema.
pub open spec fn state_legislative_district_of(v: JsonValue) -> Option<StateLegislativeDistrict> {
    let name = opt_text(member_of(v, "name"@));
    let district_number = opt_text(member_of(v, "district_number"@));
    let is_upcoming_state_legislative_district = opt_boolean(
        member_of(v, "is_upcoming_state_legislative_district"@),
    );
    let proportion = opt_small_int(member_of(v, "proportion"@));
    if v is Object && name is Some && district_number is Some
        && is_upcoming_state_legislative_district is Some && proportion is Some {
        Some(
            StateLegislativeDistrict {
                name: name.unwrap(),
                district_number: district_number.unwrap(),
                is_upcoming_state_legislative_district: is_upcoming_state_legislative_district.unwrap(),
                proportion: proportion.unwrap(),
            },
        )
    } else {
        None
    }
}

impl StateLegislativeDistrict {
    /// Reads a `StateLegislativeDistrict` from a JSON object; `None` where a member that is
    /// present does not match the schema.
    pub fn from_json(v: &JsonValue) -> (r: Option<StateLegislativeDistrict>)
        ensures
            r == state_legislative_district_of(*v),
    {
        if !is_object(v) {
            return None;
        }
        let name = match opt_text_member(v, "name") {
            Some(x) => x,
            None => return None,
        };
        let district_number = match opt_text_member(v, "district_number") {
            Some(x) => x,
            None => return None,
        };
        let is_upcoming_state_legislative_district = match opt_bool_member(
            v,
            "is_upcoming_state_legislative_district",
        ) {
            Some(x) => x,
            None => return None,
        };
        let proportion = match opt_small_int_member(v, "proportion") {
            Some(x) => x,
            None => return None,
        };
        Some(
            StateLegislativeDistrict {
                name,
                district_number,
                is_upcoming_state_legislative_district,
                proportion,
            },
        )
    }
}

/// The `SchoolDistrict` a JSON value stands for, if it matches the schema.
pub open spec fn school_district_of(v: JsonValue) -> Option<SchoolDistrict> {
    let name = opt_text(member_of(v, "name"@));
    let lea_code = opt_text(member_of(v, "lea_code"@));
    let grade_low = opt_text(member_of(v, "grade_low"@));
    let grade_high = opt_text(member_of(v, "grade_high"@));
    if v is Object && name is Some && lea_code is Some && grade_low is Some
        && grade_high is Some {
        Some(
            SchoolDistrict {
                name: name.unwrap(),
                lea_code: lea_code.unwrap(),
                grade_low: grade_low.unwrap(),
                grade_high: grade_high.unwrap(),
            },
        )
    } else {
        None
    }
}

impl SchoolDistrict {
    /// Reads a `SchoolDistrict` from a JSON object; `None` where a member that is
    /// present does not match the schema.
    pub fn from_json(v: &JsonValue) -> (r: Option<SchoolDistrict>)
        ensures
            r == school_district_of(*v),
    {
        if !is_object(v) {
            return None;
        }
        let name = match opt_text_member(v, "name") {
            Some(x) => x,
            None => return None,
        };
        let lea_code = match opt_text_member(v, "lea_code") {
            Some(x) => x,
            None => return None,
        };
        let grade_low = match opt_text_member(v, "grade_low") {
            Some(x) => x,
            None => return None,
        };
        let grade_high = match opt_text_member(v, "grade_high") {
            Some(x) => x,
            None => return None,
        };
        Some(
            SchoolDistrict {
                name,
                lea_code,
                grade_low,
                grade_high,
            },
        )
    }
}

/// An optional member that is a `SchoolDistrict`: absent where the member is
/// absent or null.
pub open spec fn opt_school_district(m: Option<JsonValue>) -> Option<Option<SchoolDistrict>> {
    match m {
        None => Some(None),
        Some(JsonValue::Null) => Some(None),
        Some(x) => match school_district_of(x) {
            Some(d) => Some(Some(d)),
            None => None,
        },
    }
}

fn opt_school_district_member(v: &JsonValue, key: &str) -> (r: Option<Option<SchoolDistrict>>)
    ensures
        r == opt_school_district(member_of(*v, key@)),
{
    match member_value(v, key) {
        None => Some(None),
        Some(JsonValue::Null) => Some(None),
        Some(x) => match SchoolDistrict::from_json(x) {
            Some(d) => Some(Some(d)),
            None => None,
        },
    }
}

/// The `SchoolDistricts` a JSON value stands for, if it matches the schema.
pub open spec fn school_districts_of(v: JsonValue) -> Option<SchoolDistricts> {
    let unified = opt_school_district(member_of(v, "unified"@));
    let elementary = opt_school_district(member_of(v, "elementary"@));
    let secondary = opt_school_district(member_of(v, "secondary"@));
    if v is Object && unified is Some && elementary is Some && secondary is Some {
        Some(
            SchoolDistricts {
                unified: unified.unwrap(),
                elementary: elementary.unwrap(),
                secondary: secondary.unwrap(),
            },
        )
    } else {
        None
    }
}

impl SchoolDistricts {
    /// Reads a `SchoolDistricts` from a JSON object; `None` where a member that is
    /// present does not match the schema.
    pub fn from_json(v: &JsonValue) -> (r: Option<SchoolDistricts>)
        ensures
            r == school_districts_of(*v),
    {
        if !is_object(v) {
            return None;
        }
        let unified = match opt_school_district_member(v, "unified") {
            Some(x) => x,
            None => return None,
        };
        let elementary = match opt_school_district_member(v, "elementary") {
            Some(x) => x,
            None => return None,
        };
        let secondary = match opt_school_district_member(v, "secondary") {
            Some(x) => x,
            None => return None,
        };
        Some(
            SchoolDistricts {
                unified,
                elementary,
                secondary,
            },
        )
    }
}

/// The `Timezone` a JSON value stands for, if it matches the schema.
pub open spec fn timezone_of(v: JsonValue) -> Option<Timezone> {
    let name = opt_text(member_of(v, "name"@));
    let abbreviation = opt_text(member_of(v, "abbreviation"@));
    let utc_offset = opt_small_int(member_of(v, "utc_offset"@));
    let observes_dst = opt_boolean(member_of(v, "observes_dst"@));
    let source = opt_text(member_of(v, "source"@));
    if v is Object && name is Some && abbreviation is Some && utc_offset is Some
        && observes_dst is Some && source is Some {
        Some(
            Timezone {
                name: name.unwrap(),
                abbreviation: abbreviation.unwrap(),
                utc_offset: utc_offset.unwrap(),
                observes_dst: observes_dst.unwrap(),
                source: source.unwrap(),
            },
        )
    } else {
        None
    }
}

impl Timezone {
    /// Reads a `Timezone` from a JSON object; `None` where a member that is
    /// present does not match the schema.
    pub fn from_json(v: &JsonValue) -> (r: Option<Timezone>)
        ensures
            r == timezone_of(*v),
    {
        if !is_object(v) {
            return None;
        }
        let name = match opt_text_member(v, "name") {
            Some(x) => x,
            None => return None,
        };
        let abbreviation = match opt_text_member(v, "abbreviation") {
            Some(x) => x,
            None => return None,
        };
        let utc_offset = match opt_small_int_member(v, "utc_offset") {
            Some(x) => x,
            None => return None,
        };
        let observes_dst = match opt_bool_member(v, "observes_dst") {
            Some(x) => x,
            None => return None,
        };
        let source = match opt_text_member(v, "source") {
            Some(x) => x,
            None => return None,
        };
        Some(
            Timezone {
                name,
                abbreviation,
                utc_offset,
                observes_dst,
                source,
            },
        )
    }
}

/// The `RecordType` a JSON value stands for, if it matches the schema.
pub open spec fn record_type_of(v: JsonValue) -> Option<RecordType> {
    let code = opt_text(member_of(v, "code"@));
    let description = opt_text(member_of(v, "description"@));
    if v is Object && code is Some && description is Some {
        Some(
            RecordType {
                code: code.unwrap(),
                description: description.unwrap(),
            },
        )
    } else {
        None
    }
}

impl RecordType {
    /// Reads a `RecordType` from a JSON object; `None` where a member that is
    /// present does not match the schema.
    pub fn from_json(v: &JsonValue) -> (r: Option<RecordType>)
        ensures
            r == record_type_of(*v),
    {
        if !is_object(v) {
            return None;
        }
        let code = match opt_text_member(v, "code") {
            Some(x) => x,
            None => return None,
        };
        let description = match opt_text_member(v, "description") {
            Some(x) => x,
            None => return None,
        };
        Some(
            RecordType {
                code,
                description,
            },
        )
    }
}

/// An optional member that is a `RecordType`: absent where the member is
/// absent or null.
pub open spec fn opt_record_type(m: Option<JsonValue>) -> Option<Option<RecordType>> {
    match m {
        None => Some(None),
        Some(JsonValue::Null) => Some(None),
        Some(x) => match record_type_of(x) {
            Some(d) => Some(Some(d)),
            None => None,
        },
    }
}

fn opt_record_type_member(v: &JsonValue, key: &str) -> (r: Option<Option<RecordType>>)
    ensures
        r == opt_record_type(member_of(*v, key@)),
{
    match member_value(v, key) {
        None => Some(None),
        Some(JsonValue::Null) => Some(None),
        Some(x) => match RecordType::from_json(x) {
            Some(d) => Some(Some(d)),
            None => None,
        },
    }
}

/// The `CarrierRoute` a JSON value stands for, if it matches the schema.
pub open spec fn carrier_route_of(v: JsonValue) -> Option<CarrierRoute> {
    let id = opt_text(member_of(v, "id"@));
    let description = opt_text(member_of(v, "description"@));
    if v is Object && id is Some && description is Some {
        Some(
            CarrierRoute {
                id: id.unwrap(),
                description: description.unwrap(),
            },
        )
    } else {
        None
    }
}

impl CarrierRoute {
    /// Reads a `CarrierRoute` from a JSON object; `None` where a member that is
    /// present does not match the schema.
    pub fn from_json(v: &JsonValue) -> (r: Option<CarrierRoute>)
        ensures
            r == carrier_route_of(*v),
    {
        if !is_object(v) {
            return None;
        }
        let id = match opt_text_member(v, "id") {
            Some(x) => x,
            None => return None,
        };
        let description = match opt_text_member(v, "description") {
            Some(x) => x,
            None => return None,
        };
        Some(
            CarrierRoute {
                id,
                description,
            },
        )
    }
}

/// An optional member that is a `CarrierRoute`: absent where the member is
/// absent or null.
pub open spec fn opt_carrier_route(m: Option<JsonValue>) -> Option<Option<CarrierRoute>> {
    match m {
        None => Some(None),
        Some(JsonValue::Null) => Some(None),
        Some(x) => match carrier_route_of(x) {
            Some(d) => Some(Some(d)),
            None => None,
        },
    }
}

fn opt_carrier_route_member(v: &JsonValue, key: &str) -> (r: Option<Option<CarrierRoute>>)
    ensures
        r == opt_carrier_route(member_of(*v, key@)),
{
    match member_value(v, key) {
        None => Some(None),
        Some(JsonValue::Null) => Some(None),
        Some(x) => match CarrierRoute::from_json(x) {
            Some(d) => Some(Some(d)),
            None => None,
        },
    }
}

/// The `FacilityCode` a JSON value stands for, if it matches the schema.
pub open spec fn facility_code_of(v: JsonValue) -> Option<FacilityCode> {
    let code = opt_text(member_of(v, "code"@));
    let description = opt_text(member_of(v, "description"@));
    if v is Object && code is Some && description is Some {
        Some(
            FacilityCode {
                code: code.unwrap(),
                description: description.unwrap(),
            },
        )
    } else {
        None
    }
}

impl FacilityCode {
    /// Reads a `FacilityCode` from a JSON object; `None` where a member that is
    /// present does not match the schema.
    pub fn from_json(v: &JsonValue) -> (r: Option<FacilityCode>)
        ensures
            r == facility_code_of(*v),
    {
        if !is_object(v) {
            return None;
        }
        let code = match opt_text_member(v, "code") {
            Some(x) => x,
            None => return None,
        };
        let description = match opt_text_member(v, "description") {
            Some(x) => x,
            None => return None,
        };
        Some(
            FacilityCode {
                code,
                description,
            },
        )
    }
}

/// An optional member that is a `FacilityCode`: absent where the member is
/// absent or null.
pub open spec fn opt_facility_code(m: Option<JsonValue>) -> Option<Option<FacilityCode>> {
    match m {
        None => Some(None),
        Some(JsonValue::Null) => Some(None),
        Some(x) => match facility_code_of(x) {
            Some(d) => Some(Some(d)),
            None => None,
        },
    }
}

fn opt_facility_code_member(v: &JsonValue, key: &str) -> (r: Option<Option<FacilityCode>>)
    ensures
        r == opt_facility_code(member_of(*v, key@)),
{
    match member_value(v, key) {
        None => Some(None),
        Some(JsonValue::Null) => Some(None),
        Some(x) => match FacilityCode::from_json(x) {
            Some(d) => Some(Some(d)),
            None => None,
        },
    }
}

/// The `Input` a JSON value stands for, if it matches the schema.
pub open spec fn input_of(v: JsonValue) -> Option<Input> {
    let address_components = match member_of(v, "address_components"@) {
        Some(x) => address_components_of(x),
        None => None,
    };
    let formatted_address = text(member_of(v, "formatted_address"@));
    if v is Object && address_components is Some && formatted_address is Some {
        Some(
            Input {
                address_components: address_components.unwrap(),
                formatted_address: formatted_address.unwrap(),
            },
        )
    } else {
        None
    }
}

impl Input {
    /// Reads a `Input` from a JSON object; `None` where a member that is
    /// present does not match the schema.
    pub fn from_json(v: &JsonValue) -> (r: Option<Input>)
        ensures
            r == input_of(*v),
    {
        if !is_object(v) {
            return None;
        }
        let address_components = match member_value(v, "address_components") {
            Some(x) => match AddressComponents::from_json(x) {
                Some(d) => d,
                None => return None,
            },
            None => return None,
        };
        let formatted_address = match text_member(v, "formatted_address") {
            Some(x) => x,
            None => return None,
        };
        Some(
            Input {
                address_components,
                formatted_address,
            },
        )
    }
}

/// The JSON members of address components, in schema order: each part as
/// a string, or null where it is absent.
pub open spec fn components_members(c: AddressComponents) -> Seq<(Seq<char>, JsonValue)> {
    seq![
        ("number"@, opt_text_json(c.number)),
        ("street"@, opt_text_json(c.street)),
        ("suffix"@, opt_text_json(c.suffix)),
        ("secondarynumber"@, opt_text_json(c.secondary_number)),
        ("secondaryunit"@, opt_text_json(c.secondary_unit)),
        ("postdirectional"@, opt_text_json(c.post_directional)),
        ("formatted_street"@, opt_text_json(c.formatted_street)),
        ("city"@, opt_text_json(c.city)),
        ("state"@, opt_text_json(c.state)),
        ("zip"@, opt_text_json(c.zip)),
        ("county"@, opt_text_json(c.county)),
        ("country"@, opt_text_json(c.country)),
        ("predirectional"@, opt_text_json(c.pre_directional)),
        ("prefix"@, opt_text_json(c.prefix)),
    ]
}

impl AddressComponents {
    /// Writes address components as a JSON object, an absent part as null.
    pub fn to_json(&self) -> (r: JsonValue)
        ensures
            object_with(r, components_members(*self)),
    {
        let mut m: Vec<(String, JsonValue)> = Vec::new();
        m.push((String::from_str("number"), opt_text_to_json(&self.number)));
        m.push((String::from_str("street"), opt_text_to_json(&self.street)));
        m.push((String::from_str("suffix"), opt_text_to_json(&self.suffix)));
        m.push((String::from_str("secondarynumber"), opt_text_to_json(&self.secondary_number)));
        m.push((String::from_str("secondaryunit"), opt_text_to_json(&self.secondary_unit)));
        m.push((String::from_str("postdirectional"), opt_text_to_json(&self.post_directional)));
        m.push((String::from_str("formatted_street"), opt_text_to_json(&self.formatted_street)));
        m.push((String::from_str("city"), opt_text_to_json(&self.city)));
        m.push((String::from_str("state"), opt_text_to_json(&self.state)));
        m.push((String::from_str("zip"), opt_text_to_json(&self.zip)));
        m.push((String::from_str("county"), opt_text_to_json(&self.county)));
        m.push((String::from_str("country"), opt_text_to_json(&self.country)));
        m.push((String::from_str("predirectional"), opt_text_to_json(&self.pre_directional)));
        m.push((String::from_str("prefix"), opt_text_to_json(&self.prefix)));
        JsonValue::Object(m)
    }
}

/// Address components written to JSON read back as the same components; in
/// particular components with every part absent are written as an object
/// of nulls and read back with every part absent.
pub proof fn lemma_components_round_trip(c: AddressComponents, v: JsonValue)
    requires
        object_with(v, components_members(c)),
    ensures
        address_components_of(v) == Some(c),
{
    reveal_strlit("number");
    reveal_strlit("street");
    reveal_strlit("suffix");
    reveal_strlit("secondarynumber");
    reveal_strlit("secondaryunit");
    reveal_strlit("postdirectional");
    reveal_strlit("formatted_street");
    reveal_strlit("city");
    reveal_strlit("state");
    reveal_strlit("zip");
    reveal_strlit("county");
    reveal_strlit("country");
    reveal_strlit("predirectional");
    reveal_strlit("prefix");
    let members = components_members(c);
    lemma_object_member(v, members, 0);
    assert forall|j: int| 0 <= j < 1 implies #[trigger] members[j].0 != members[1].0 by {
        if j == 0 {
            assert("number"@[0] != "street"@[0]);
        }
    }
    lemma_object_member(v, members, 1);
    assert forall|j: int| 0 <= j < 2 implies #[trigger] members[j].0 != members[2].0 by {
        if j == 0 {
            assert("number"@[0] != "suffix"@[0]);
        } else if j == 1 {
            assert("street"@[1] != "suffix"@[1]);
        }
    }
    lemma_object_member(v, members, 2);
    assert forall|j: int| 0 <= j < 3 implies #[trigger] members[j].0 != members[3].0 by {
        if j == 0 {
            assert("number"@.len() != "secondarynumber"@.len());
        } else if j == 1 {
            assert("street"@.len() != "secondarynumber"@.len());
        } else if j == 2 {
            assert("suffix"@.len() != "secondarynumber"@.len());
        }
    }
    lemma_object_member(v, members, 3);
    assert forall|j: int| 0 <= j < 4 implies #[trigger] members[j].0 != members[4].0 by {
        if j == 0 {
            assert("number"@.len() != "secondaryunit"@.len());
        } else if j == 1 {
            assert("street"@.len() != "secondaryunit"@.len());
        } else if j == 2 {
            assert("suffix"@.len() != "secondaryunit"@.len());
        } else if j == 3 {
            assert("secondarynumber"@.len() != "secondaryunit"@.len());
        }
    }
    lemma_object_member(v, members, 4);
    assert forall|j: int| 0 <= j < 5 implies #[trigger] members[j].0 != members[5].0 by {
        if j == 0 {
            assert("number"@.len() != "postdirectional"@.len());
        } else if j == 1 {
            assert("street"@.len() != "postdirectional"@.len());
        } else if j == 2 {
            assert("suffix"@.len() != "postdirectional"@.len());
        } else if j == 3 {
            assert("secondarynumber"@[0] != "postdirectional"@[0]);
        } else if j == 4 {
            assert("secondaryunit"@.len() != "postdirectional"@.len());
        }
    }
    lemma_object_member(v, members, 5);
    assert forall|j: int| 0 <= j < 6 implies #[trigger] members[j].0 != members[6].0 by {
        if j == 0 {
            assert("number"@.len() != "formatted_street"@.len());
        } else if j == 1 {
            assert("street"@.len() != "formatted_street"@.len());
        } else if j == 2 {
            assert("suffix"@.len() != "formatted_street"@.len());
        } else if j == 3 {
            assert("secondarynumber"@.len() != "formatted_street"@.len());
        } else if j == 4 {
            assert("secondaryunit"@.len() != "formatted_street"@.len());
        } else if j == 5 {
            assert("postdirectional"@.len() != "formatted_street"@.len());
        }
    }
    lemma_object_member(v, members, 6);
    assert forall|j: int| 0 <= j < 7 implies #[trigger] members[j].0 != members[7].0 by {
        if j == 0 {
            assert("number"@.len() != "city"@.len());
        } else if j == 1 {
            assert("street"@.len() != "city"@.len());
        } else if j == 2 {
            assert("suffix"@.len() != "city"@.len());
        } else if j == 3 {
            assert("secondarynumber"@.len() != "city"@.len());
        } else if j == 4 {
            assert("secondaryunit"@.len() != "city"@.len());
        } else if j == 5 {
            assert("postdirectional"@.len() != "city"@.len());
        } else if j == 6 {
            assert("formatted_street"@.len() != "city"@.len());
        }
    }
    lemma_object_member(v, members, 7);
    assert forall|j: int| 0 <= j < 8 implies #[trigger] members[j].0 != members[8].0 by {
        if j == 0 {
            assert("number"@.len() != "state"@.len());
        } else if j == 1 {
            assert("street"@.len() != "state"@.len());
        } else if j == 2 {
            assert("suffix"@.len() != "state"@.len());
        } else if j == 3 {
            assert("secondarynumber"@.len() != "state"@.len());
        } else if j == 4 {
            assert("secondaryunit"@.len() != "state"@.len());
        } else if j == 5 {
            assert("postdirectional"@.len() != "state"@.len());
        } else if j == 6 {
            assert("formatted_street"@.len() != "state"@.len());
        } else if j == 7 {
            assert("city"@.len() != "state"@.len());
        }
    }
    lemma_object_member(v, members, 8);
    assert forall|j: int| 0 <= j < 9 implies #[trigger] members[j].0 != members[9].0 by {
        if j == 0 {
            assert("number"@.len() != "zip"@.len());
        } else if j == 1 {
            assert("street"@.len() != "zip"@.len());
        } else if j == 2 {
            assert("suffix"@.len() != "zip"@.len());
        } else if j == 3 {
            assert("secondarynumber"@.len() != "zip"@.len());
        } else if j == 4 {
            assert("secondaryunit"@.len() != "zip"@.len());
        } else if j == 5 {
            assert("postdirectional"@.len() != "zip"@.len());
        } else if j == 6 {
            assert("formatted_street"@.len() != "zip"@.len());
        } else if j == 7 {
            assert("city"@.len() != "zip"@.len());
        } else if j == 8 {
            assert("state"@.len() != "zip"@.len());
        }
    }
    lemma_object_member(v, members, 9);
    assert forall|j: int| 0 <= j < 10 implies #[trigger] members[j].0 != members[10].0 by {
        if j == 0 {
            assert("number"@[0] != "county"@[0]);
        } else if j == 1 {
            assert("street"@[0] != "county"@[0]);
        } else if j == 2 {
            assert("suffix"@[0] != "county"@[0]);
        } else if j == 3 {
            assert("secondarynumber"@.len() != "county"@.len());
        } else if j == 4 {
            assert("secondaryunit"@.len() != "county"@.len());
        } else if j == 5 {
            assert("postdirectional"@.len() != "county"@.len());
        } else if j == 6 {
            assert("formatted_street"@.len() != "county"@.len());
        } else if j == 7 {
            assert("city"@.len() != "county"@.len());
        } else if j == 8 {
            assert("state"@.len() != "county"@.len());
        } else if j == 9 {
            assert("zip"@.len() != "county"@.len());
        }
    }
    lemma_object_member(v, members, 10);
    assert forall|j: int| 0 <= j < 11 implies #[trigger] members[j].0 != members[11].0 by {
        if j == 0 {
            assert("number"@.len() != "country"@.len());
        } else if j == 1 {
            assert("street"@.len() != "country"@.len());
        } else if j == 2 {
            assert("suffix"@.len() != "country"@.len());
        } else if j == 3 {
            assert("secondarynumber"@.len() != "country"@.len());
        } else if j == 4 {
            assert("secondaryunit"@.len() != "country"@.len());
        } else if j == 5 {
            assert("postdirectional"@.len() != "country"@.len());
        } else if j == 6 {
            assert("formatted_street"@.len() != "country"@.len());
        } else if j == 7 {
            assert("city"@.len() != "country"@.len());
        } else if j == 8 {
            assert("state"@.len() != "country"@.len());
        } else if j == 9 {
            assert("zip"@.len() != "country"@.len());
        } else if j == 10 {
            assert("county"@.len() != "country"@.len());
        }
    }
    lemma_object_member(v, members, 11);
    assert forall|j: int| 0 <= j < 12 implies #[trigger] members[j].0 != members[12].0 by {
        if j == 0 {
            assert("number"@.len() != "predirectional"@.len());
        } else if j == 1 {
            assert("street"@.len() != "predirectional"@.len());
        } else if j == 2 {
            assert("suffix"@.len() != "predirectional"@.len());
        } else if j == 3 {
            assert("secondarynumber"@.len() != "predirectional"@.len());
        } else if j == 4 {
            assert("secondaryunit"@.len() != "predirectional"@.len());
        } else if j == 5 {
            assert("postdirectional"@.len() != "predirectional"@.len());
        } else if j == 6 {
            assert("formatted_street"@.len() != "predirectional"@.len());
        } else if j == 7 {
            assert("city"@.len() != "predirectional"@.len());
        } else if j == 8 {
            assert("state"@.len() != "predirectional"@.len());
        } else if j == 9 {
            assert("zip"@.len() != "predirectional"@.len());
        } else if j == 10 {
            assert("county"@.len() != "predirectional"@.len());
        } else if j == 11 {
            assert("country"@.len() != "predirectional"@.len());
        }
    }
    lemma_object_member(v, members, 12);
    assert forall|j: int| 0 <= j < 13 implies #[trigger] members[j].0 != members[13].0 by {
        if j == 0 {
            assert("number"@[0] != "prefix"@[0]);
        } else if j == 1 {
            assert("street"@[0] != "prefix"@[0]);
        } else if j == 2 {
            assert("suffix"@[0] != "prefix"@[0]);
        } else if j == 3 {
            assert("secondarynumber"@.len() != "prefix"@.len());
        } else if j == 4 {
            assert("secondaryunit"@.len() != "prefix"@.len());
        } else if j == 5 {
            assert("postdirectional"@.len() != "prefix"@.len());
        } else if j == 6 {
            assert("formatted_street"@.len() != "prefix"@.len());
        } else if j == 7 {
            assert("city"@.len() != "prefix"@.len());
        } else if j == 8 {
            assert("state"@.len() != "prefix"@.len());
        } else if j == 9 {
            assert("zip"@.len() != "prefix"@.len());
        } else if j == 10 {
            assert("county"@[0] != "prefix"@[0]);
        } else if j == 11 {
            assert("country"@.len() != "prefix"@.len());
        } else if j == 12 {
            assert("predirectional"@.len() != "prefix"@.len());
        }
    }
    lemma_object_member(v, members, 13);
}

/// A bio without a birthday is still read, with only the birthday absent:
/// it is read exactly when its other members are, and they keep their
/// values.
pub proof fn lemma_bio_without_birthday(v: JsonValue)
    requires
        v is Object,
        member_of(v, "birthday"@) is None,
    ensures
        bio_of(v) is Some <==> (opt_text(member_of(v, "first_name"@)) is Some && opt_text(
            member_of(v, "last_name"@),
        ) is Some && opt_text(member_of(v, "gender"@)) is Some && opt_text(
            member_of(v, "party"@),
        ) is Some),
        bio_of(v) matches Some(b) ==> b.birthday is None && Some(b.first_name) == opt_text(
            member_of(v, "first_name"@),
        ) && Some(b.last_name) == opt_text(member_of(v, "last_name"@)) && Some(b.gender)
            == opt_text(member_of(v, "gender"@)) && Some(b.party) == opt_text(
            member_of(v, "party"@),
        ),
{
}

/// A legislator without a bio, contact, social or references member is
/// still read, with those parts absent: it is read exactly when its type and
/// source members are, and they keep their values.
pub proof fn lemma_legislator_without_parts(v: JsonValue)
    requires
        v is Object,
        member_of(v, "bio"@) is None,
        member_of(v, "contact"@) is None,
        member_of(v, "social"@) is None,
        member_of(v, "references"@) is None,
    ensures
        legislator_of(v) is Some <==> (opt_text(member_of(v, "type"@)) is Some && opt_text(
            member_of(v, "source"@),
        ) is Some),
        legislator_of(v) matches Some(l) ==> l.bio is None && l.contact is None && l.social is None
            && l.references is None && Some(l.type_field) == opt_text(member_of(v, "type"@))
            && Some(l.source) == opt_text(member_of(v, "source"@)),
{
}

/// The text of a string value.
fn text_value(x: &JsonValue) -> (r: Option<String>)
    ensures
        match r {
            Some(t) => *x == JsonValue::Text(t),
            None => !(x is Text),
        },
{
    match x {
        JsonValue::Text(t) => Some(t.clone()),
        _ => None,
    }
}

/// A list of JSON values stands for the list `ds` of legislators, in order.
pub open spec fn legislators_decode(a: Seq<JsonValue>, ds: Seq<Legislator>) -> bool {
    ds.len() == a.len() && forall|i: int|
        0 <= i < a.len() ==> legislator_of(#[trigger] a[i]) == Some(ds[i])
}

/// Every value of a list stands for one of the legislators.
pub open spec fn legislators_decodable(a: Seq<JsonValue>) -> bool {
    forall|i: int| 0 <= i < a.len() ==> legislator_of(#[trigger] a[i]) is Some
}

/// Reads a list of legislators; `None` where any entry does not match.
pub fn legislators_from_json(a: &Vec<JsonValue>) -> (r: Option<Vec<Legislator>>)
    ensures
        match r {
            Some(ds) => legislators_decode(a@, ds@),
            None => !legislators_decodable(a@),
        },
{
    let mut ds: Vec<Legislator> = Vec::new();
    let mut i: usize = 0;
    while i < a.len()
        invariant
            0 <= i <= a@.len(),
            legislators_decode(a@.subrange(0, i as int), ds@),
        decreases a@.len() - i,
    {
        match Legislator::from_json(&a[i]) {
            Some(d) => ds.push(d),
            None => return None,
        }
        proof {
            assert forall|j: int| 0 <= j < i + 1 implies legislator_of(#[trigger] a@.subrange(0, i + 1)[j]) == Some(ds@[j]) by {
                if j < i {
                    assert(a@.subrange(0, i + 1)[j] == a@.subrange(0, i as int)[j]);
                }
            }
        }
        i = i + 1;
    }
    assert(a@.subrange(0, a@.len() as int) =~= a@);
    Some(ds)
}

/// An optional member that is a list of legislators: absent where the member
/// is absent or null.
pub open spec fn opt_legislators_decodes(m: Option<JsonValue>, d: Option<Vec<Legislator>>) -> bool {
    if left_out(m) {
        d is None
    } else {
        m matches Some(JsonValue::Array(a)) && d matches Some(l) && legislators_decode(a@, l@)
    }
}

/// An optional member that is absent, null, or a list of legislators.
pub open spec fn opt_legislators_decodable(m: Option<JsonValue>) -> bool {
    left_out(m) || (m matches Some(JsonValue::Array(a)) && legislators_decodable(a@))
}

fn opt_legislators_member(v: &JsonValue, key: &str) -> (r: Option<Option<Vec<Legislator>>>)
    ensures
        match r {
            Some(d) => opt_legislators_decodes(member_of(*v, key@), d),
            None => !opt_legislators_decodable(member_of(*v, key@)),
        },
{
    match member_value(v, key) {
        None => Some(None),
        Some(JsonValue::Null) => Some(None),
        Some(JsonValue::Array(a)) => match legislators_from_json(a) {
            Some(l) => Some(Some(l)),
            None => None,
        },
        Some(_) => None,
    }
}

/// A list of JSON values stands for the list `ds` of state legislative districts, in order.
pub open spec fn state_districts_decode(a: Seq<JsonValue>, ds: Seq<StateLegislativeDistrict>) -> bool {
    ds.len() == a.len() && forall|i: int|
        0 <= i < a.len() ==> state_legislative_district_of(#[trigger] a[i]) == Some(ds[i])
}

/// Every value of a list stands for one of the state legislative districts.
pub open spec fn state_districts_decodable(a: Seq<JsonValue>) -> bool {
    forall|i: int| 0 <= i < a.len() ==> state_legislative_district_of(#[trigger] a[i]) is Some
}

/// Reads a list of state legislative districts; `None` where any entry does not match.
pub fn state_districts_from_json(a: &Vec<JsonValue>) -> (r: Option<Vec<StateLegislativeDistrict>>)
    ensures
        match r {
            Some(ds) => state_districts_decode(a@, ds@),
            None => !state_districts_decodable(a@),
        },
{
    let mut ds: Vec<StateLegislativeDistrict> = Vec::new();
    let mut i: usize = 0;
    while i < a.len()
        invariant
            0 <= i <= a@.len(),
            state_districts_decode(a@.subrange(0, i as int), ds@),
        decreases a@.len() - i,
    {
        match StateLegislativeDistrict::from_json(&a[i]) {
            Some(d) => ds.push(d),
            None => return None,
        }
        proof {
            assert forall|j: int| 0 <= j < i + 1 implies state_legislative_district_of(#[trigger] a@.subrange(0, i + 1)[j]) == Some(ds@[j]) by {
                if j < i {
                    assert(a@.subrange(0, i + 1)[j] == a@.subrange(0, i as int)[j]);
                }
            }
        }
        i = i + 1;
    }
    assert(a@.subrange(0, a@.len() as int) =~= a@);
    Some(ds)
}

/// An optional member that is a list of state legislative districts: absent where the member
/// is absent or null.
pub open spec fn opt_state_districts_decodes(m: Option<JsonValue>, d: Option<Vec<StateLegislativeDistrict>>) -> bool {
    if left_out(m) {
        d is None
    } else {
        m matches Some(JsonValue::Array(a)) && d matches Some(l) && state_districts_decode(a@, l@)
    }
}

/// An optional member that is absent, null, or a list of state legislative districts.
pub open spec fn opt_state_districts_decodable(m: Option<JsonValue>) -> bool {
    left_out(m) || (m matches Some(JsonValue::Array(a)) && state_districts_decodable(a@))
}

fn opt_state_districts_member(v: &JsonValue, key: &str) -> (r: Option<Option<Vec<StateLegislativeDistrict>>>)
    ensures
        match r {
            Some(d) => opt_state_districts_decodes(member_of(*v, key@), d),
            None => !opt_state_districts_decodable(member_of(*v, key@)),
        },
{
    match member_value(v, key) {
        None => Some(None),
        Some(JsonValue::Null) => Some(None),
        Some(JsonValue::Array(a)) => match state_districts_from_json(a) {
            Some(l) => Some(Some(l)),
            None => None,
        },
        Some(_) => None,
    }
}

/// A list of JSON values stands for the list `ds` of congressional districts, in order.
pub open spec fn districts_decode(a: Seq<JsonValue>, ds: Seq<CongressionalDistrict>) -> bool {
    ds.len() == a.len() && forall|i: int|
        0 <= i < a.len() ==> congressional_district_decodes(#[trigger] a[i], ds[i])
}

/// Every value of a list stands for one of the congressional districts.
pub open spec fn districts_decodable(a: Seq<JsonValue>) -> bool {
    forall|i: int| 0 <= i < a.len() ==> congressional_district_decodable(#[trigger] a[i])
}

/// Reads a list of congressional districts; `None` where any entry does not match.
pub fn districts_from_json(a: &Vec<JsonValue>) -> (r: Option<Vec<CongressionalDistrict>>)
    ensures
        match r {
            Some(ds) => districts_decode(a@, ds@),
            None => !districts_decodable(a@),
        },
{
    let mut ds: Vec<CongressionalDistrict> = Vec::new();
    let mut i: usize = 0;
    while i < a.len()
        invariant
            0 <= i <= a@.len(),
            districts_decode(a@.subrange(0, i as int), ds@),
        decreases a@.len() - i,
    {
        match CongressionalDistrict::from_json(&a[i]) {
            Some(d) => ds.push(d),
            None => return None,
        }
        proof {
            assert forall|j: int| 0 <= j < i + 1 implies congressional_district_decodes(#[trigger] a@.subrange(0, i + 1)[j], ds@[j]) by {
                if j < i {
                    assert(a@.subrange(0, i + 1)[j] == a@.subrange(0, i as int)[j]);
                }
            }
        }
        i = i + 1;
    }
    assert(a@.subrange(0, a@.len() as int) =~= a@);
    Some(ds)
}

/// An optional member that is a list of congressional districts: absent where the member
/// is absent or null.
pub open spec fn opt_districts_decodes(m: Option<JsonValue>, d: Option<Vec<CongressionalDistrict>>) -> bool {
    if left_out(m) {
        d is None
    } else {
        m matches Some(JsonValue::Array(a)) && d matches Some(l) && districts_decode(a@, l@)
    }
}

/// An optional member that is absent, null, or a list of congressional districts.
pub open spec fn opt_districts_decodable(m: Option<JsonValue>) -> bool {
    left_out(m) || (m matches Some(JsonValue::Array(a)) && districts_decodable(a@))
}

fn opt_districts_member(v: &JsonValue, key: &str) -> (r: Option<Option<Vec<CongressionalDistrict>>>)
    ensures
        match r {
            Some(d) => opt_districts_decodes(member_of(*v, key@), d),
            None => !opt_districts_decodable(member_of(*v, key@)),
        },
{
    match member_value(v, key) {
        None => Some(None),
        Some(JsonValue::Null) => Some(None),
        Some(JsonValue::Array(a)) => match districts_from_json(a) {
            Some(l) => Some(Some(l)),
            None => None,
        },
        Some(_) => None,
    }
}

/// A list of JSON values stands for the list `ds` of strings, in order.
pub open spec fn texts_decode(a: Seq<JsonValue>, ds: Seq<String>) -> bool {
    ds.len() == a.len() && forall|i: int|
        0 <= i < a.len() ==> #[trigger] a[i] == JsonValue::Text(ds[i])
}

/// Every value of a list stands for one of the strings.
pub open spec fn texts_decodable(a: Seq<JsonValue>) -> bool {
    forall|i: int| 0 <= i < a.len() ==> #[trigger] a[i] is Text
}

/// Reads a list of strings; `None` where any entry does not match.
pub fn texts_from_json(a: &Vec<JsonValue>) -> (r: Option<Vec<String>>)
    ensures
        match r {
            Some(ds) => texts_decode(a@, ds@),
            None => !texts_decodable(a@),
        },
{
    let mut ds: Vec<String> = Vec::new();
    let mut i: usize = 0;
    while i < a.len()
        invariant
            0 <= i <= a@.len(),
            texts_decode(a@.subrange(0, i as int), ds@),
        decreases a@.len() - i,
    {
        match text_value(&a[i]) {
            Some(d) => ds.push(d),
            None => return None,
        }
        proof {
            assert forall|j: int| 0 <= j < i + 1 implies #[trigger] a@.subrange(0, i + 1)[j] == JsonValue::Text(ds@[j]) by {
                if j < i {
                    assert(a@.subrange(0, i + 1)[j] == a@.subrange(0, i as int)[j]);
                }
            }
        }
        i = i + 1;
    }
    assert(a@.subrange(0, a@.len() as int) =~= a@);
    Some(ds)
}

/// An optional member that is a list of strings: absent where the member
/// is absent or null.
pub open spec fn opt_texts_decodes(m: Option<JsonValue>, d: Option<Vec<String>>) -> bool {
    if left_out(m) {
        d is None
    } else {
        m matches Some(JsonValue::Array(a)) && d matches Some(l) && texts_decode(a@, l@)
    }
}

/// An optional member that is absent, null, or a list of strings.
pub open spec fn opt_texts_decodable(m: Option<JsonValue>) -> bool {
    left_out(m) || (m matches Some(JsonValue::Array(a)) && texts_decodable(a@))
}

fn opt_texts_member(v: &JsonValue, key: &str) -> (r: Option<Option<Vec<String>>>)
    ensures
        match r {
            Some(d) => opt_texts_decodes(member_of(*v, key@), d),
            None => !opt_texts_decodable(member_of(*v, key@)),
        },
{
    match member_value(v, key) {
        None => Some(None),
        Some(JsonValue::Null) => Some(None),
        Some(JsonValue::Array(a)) => match texts_from_json(a) {
            Some(l) => Some(Some(l)),
            None => None,
        },
        Some(_) => None,
    }
}

/// A JSON value stands for a congressional district `d`: each member that is absent or
/// null is absent in `d`.
pub open spec fn congressional_district_decodes(v: JsonValue, d: CongressionalDistrict) -> bool {
    &&& v is Object
    &&& opt_text(member_of(v, "name"@)) == Some(d.name)
    &&& opt_small_int(member_of(v, "district_number"@)) == Some(d.district_number)
    &&& opt_text(member_of(v, "congress_number"@)) == Some(d.congress_number)
    &&& opt_text(member_of(v, "congress_years"@)) == Some(d.congress_years)
    &&& opt_small_int(member_of(v, "proportion"@)) == Some(d.proportion)
    &&& opt_legislators_decodes(member_of(v, "current_legislators"@), d.current_legislators)
}

/// A JSON value stands for some congressional district.
pub open spec fn congressional_district_decodable(v: JsonValue) -> bool {
    &&& v is Object
    &&& opt_text(member_of(v, "name"@)) is Some
    &&& opt_small_int(member_of(v, "district_number"@)) is Some
    &&& opt_text(member_of(v, "congress_number"@)) is Some
    &&& opt_text(member_of(v, "congress_years"@)) is Some
    &&& opt_small_int(member_of(v, "proportion"@)) is Some
    &&& opt_legislators_decodable(member_of(v, "current_legislators"@))
}

impl CongressionalDistrict {
    /// Reads a congressional district from a JSON object; `None` where a member that is
    /// present does not match the schema.
    pub fn from_json(v: &JsonValue) -> (r: Option<CongressionalDistrict>)
        ensures
            match r {
                Some(d) => congressional_district_decodes(*v, d),
                None => !congressional_district_decodable(*v),
            },
    {
        if !is_object(v) {
            return None;
        }
        let name = match opt_text_member(v, "name") {
            Some(x) => x,
            None => return None,
        };
        let district_number = match opt_small_int_member(v, "district_number") {
            Some(x) => x,
            None => return None,
        };
        let congress_number = match opt_text_member(v, "congress_number") {
            Some(x) => x,
            None => return None,
        };
        let congress_years = match opt_text_member(v, "congress_years") {
            Some(x) => x,
            None => return None,
        };
        let proportion = match opt_small_int_member(v, "proportion") {
            Some(x) => x,
            None => return None,
        };
        let current_legislators = match opt_legislators_member(v, "current_legislators") {
            Some(x) => x,
            None => return None,
        };
        Some(
            CongressionalDistrict {
                name,
                district_number,
                congress_number,
                congress_years,
                proportion,
                current_legislators,
            },
        )
    }
}

/// A JSON value stands for the state house and senate districts `d`: each member that is absent or
/// null is absent in `d`.
pub open spec fn state_legislative_districts_decodes(v: JsonValue, d: StateLegislativeDistricts) -> bool {
    &&& v is Object
    &&& opt_state_districts_decodes(member_of(v, "house"@), d.house)
    &&& opt_state_districts_decodes(member_of(v, "senate"@), d.senate)
}

/// A JSON value stands for some the state house and senate districts.
pub open spec fn state_legislative_districts_decodable(v: JsonValue) -> bool {
    &&& v is Object
    &&& opt_state_districts_decodable(member_of(v, "house"@))
    &&& opt_state_districts_decodable(member_of(v, "senate"@))
}

impl StateLegislativeDistricts {
    /// Reads the state house and senate districts from a JSON object; `None` where a member that is
    /// present does not match the schema.
    pub fn from_json(v: &JsonValue) -> (r: Option<StateLegislativeDistricts>)
        ensures
            match r {
                Some(d) => state_legislative_districts_decodes(*v, d),
                None => !state_legislative_districts_decodable(*v),
            },
    {
        if !is_object(v) {
            return None;
        }
        let house = match opt_state_districts_member(v, "house") {
            Some(x) => x,
            None => return None,
        };
        let senate = match opt_state_districts_member(v, "senate") {
            Some(x) => x,
            None => return None,
        };
        Some(
            StateLegislativeDistricts {
                house,
                senate,
            },
        )
    }
}

/// A JSON value stands for a ZIP+4 record `d`: each member that is absent or
/// null is absent in `d`.
pub open spec fn zip4_decodes(v: JsonValue, d: Zip4) -> bool {
    &&& v is Object
    &&& opt_record_type(member_of(v, "record_type"@)) == Some(d.record_type)
    &&& opt_carrier_route(member_of(v, "carrier_route"@)) == Some(d.carrier_route)
    &&& opt_text(member_of(v, "building_or_firm_name"@)) == Some(d.building_or_firm_name)
    &&& opt_texts_decodes(member_of(v, "plus4"@), d.plus4)
    &&& opt_texts_decodes(member_of(v, "zip9"@), d.zip9)
    &&& opt_text(member_of(v, "government_building"@)) == Some(d.government_building)
    &&& opt_facility_code(member_of(v, "facility_code"@)) == Some(d.facility_code)
    &&& opt_boolean(member_of(v, "city_delivery"@)) == Some(d.city_delivery)
    &&& opt_boolean(member_of(v, "valid_delivery_area"@)) == Some(d.valid_delivery_area)
    &&& opt_boolean(member_of(v, "exact_match"@)) == Some(d.exact_match)
}

/// A JSON value stands for some ZIP+4 record.
pub open spec fn zip4_decodable(v: JsonValue) -> bool {
    &&& v is Object
    &&& opt_record_type(member_of(v, "record_type"@)) is Some
    &&& opt_carrier_route(member_of(v, "carrier_route"@)) is Some
    &&& opt_text(member_of(v, "building_or_firm_name"@)) is Some
    &&& opt_texts_decodable(member_of(v, "plus4"@))
    &&& opt_texts_decodable(member_of(v, "zip9"@))
    &&& opt_text(member_of(v, "government_building"@)) is Some
    &&& opt_facility_code(member_of(v, "facility_code"@)) is Some
    &&& opt_boolean(member_of(v, "city_delivery"@)) is Some
    &&& opt_boolean(member_of(v, "valid_delivery_area"@)) is Some
    &&& opt_boolean(member_of(v, "exact_match"@)) is Some
}

impl Zip4 {
    /// Reads a ZIP+4 record from a JSON object; `None` where a member that is
    /// present does not match the schema.
    pub fn from_json(v: &JsonValue) -> (r: Option<Zip4>)
        ensures
            match r {
                Some(d) => zip4_decodes(*v, d),
                None => !zip4_decodable(*v),
            },
    {
        if !is_object(v) {
            return None;
        }
        let record_type = match opt_record_type_member(v, "record_type") {
            Some(x) => x,
            None => return None,
        };
        let carrier_route = match opt_carrier_route_member(v, "carrier_route") {
            Some(x) => x,
            None => return None,
        };
        let building_or_firm_name = match opt_text_member(v, "building_or_firm_name") {
            Some(x) => x,
            None => return None,
        };
        let plus4 = match opt_texts_member(v, "plus4") {
            Some(x) => x,
            None => return None,
        };
        let zip9 = match opt_texts_member(v, "zip9") {
            Some(x) => x,
            None => return None,
        };
        let government_building = match opt_text_member(v, "government_building") {
            Some(x) => x,
            None => return None,
        };
        let facility_code = match opt_facility_code_member(v, "facility_code") {
            Some(x) => x,
            None => return None,
        };
        let city_delivery = match opt_bool_member(v, "city_delivery") {
            Some(x) => x,
            None => return None,
        };
        let valid_delivery_area = match opt_bool_member(v, "valid_delivery_area") {
            Some(x) => x,
            None => return None,
        };
        let exact_match = match opt_bool_member(v, "exact_match") {
            Some(x) => x,
            None => return None,
        };
        Some(
            Zip4 {
                record_type,
                carrier_route,
                building_or_firm_name,
                plus4,
                zip9,
                government_building,
                facility_code,
                city_delivery,
                valid_delivery_area,
                exact_match,
            },
        )
    }
}

/// What an optional member of any shape holds: nothing where it is absent
/// or null.
pub open spec fn kept(m: Option<JsonValue>) -> Option<JsonValue> {
    if left_out(m) {
        None
    } else {
        m
    }
}

/// A JSON value stands for the extension bundle `f`: each part is absent
/// exactly where its member is absent or null.
pub open spec fn fields_decodes(v: JsonValue, f: Fields) -> bool {
    let timezone = member_of(v, "timezone"@);
    let zip4 = member_of(v, "zip4"@);
    let district = member_of(v, "congressional_district"@);
    let districts = member_of(v, "congressional_districts"@);
    let state = member_of(v, "state_legislative_districts"@);
    let schools = member_of(v, "school_districts"@);
    &&& v is Object
    &&& if left_out(timezone) {
        f.timezone is None
    } else {
        f.timezone is Some && timezone_of(timezone.unwrap()) == f.timezone
    }
    &&& if left_out(zip4) {
        f.zip4 is None
    } else {
        f.zip4 matches Some(z) && zip4_decodes(zip4.unwrap(), z)
    }
    &&& if left_out(district) {
        f.congressional_district is None
    } else {
        f.congressional_district matches Some(d) && congressional_district_decodes(
            district.unwrap(),
            d,
        )
    }
    &&& if left_out(districts) {
        f.congressional_districts is None
    } else {
        districts matches Some(JsonValue::Array(a))
            && f.congressional_districts matches Some(ds) && districts_decode(a@, ds@)
    }
    &&& if left_out(state) {
        f.state_legislative_districts is None
    } else {
        f.state_legislative_districts matches Some(d) && state_legislative_districts_decodes(
            state.unwrap(),
            d,
        )
    }
    &&& if left_out(schools) {
        f.school_districts is None
    } else {
        f.school_districts is Some && school_districts_of(schools.unwrap()) == f.school_districts
    }
    &&& f.census == kept(member_of(v, "census"@))
    &&& f.acs == kept(member_of(v, "acs"@))
}

/// A JSON value stands for some extension bundle.
pub open spec fn fields_decodable(v: JsonValue) -> bool {
    let timezone = member_of(v, "timezone"@);
    let zip4 = member_of(v, "zip4"@);
    let district = member_of(v, "congressional_district"@);
    let districts = member_of(v, "congressional_districts"@);
    let state = member_of(v, "state_legislative_districts"@);
    let schools = member_of(v, "school_districts"@);
    &&& v is Object
    &&& left_out(timezone) || timezone_of(timezone.unwrap()) is Some
    &&& left_out(zip4) || zip4_decodable(zip4.unwrap())
    &&& left_out(district) || congressional_district_decodable(district.unwrap())
    &&& left_out(districts) || (districts matches Some(JsonValue::Array(a)) && districts_decodable(
        a@,
    ))
    &&& left_out(state) || state_legislative_districts_decodable(state.unwrap())
    &&& left_out(schools) || school_districts_of(schools.unwrap()) is Some
}

/// Moves out of a list of members the values at two distinct positions.
fn take_two(members: Vec<(String, JsonValue)>, i: Option<usize>, j: Option<usize>) -> (r: (
    Option<JsonValue>,
    Option<JsonValue>,
))
    requires
        i matches Some(a) ==> a < members@.len(),
        j matches Some(b) ==> b < members@.len(),
        i is Some && j is Some ==> i.unwrap() != j.unwrap(),
    ensures
        r.0 == (match i {
            Some(a) => Some(members@[a as int].1),
            None => None,
        }),
        r.1 == (match j {
            Some(b) => Some(members@[b as int].1),
            None => None,
        }),
{
    let mut m = members;
    match (i, j) {
        (Some(a), Some(b)) => if a < b {
            let (_, y) = m.remove(b);
            let (_, x) = m.remove(a);
            (Some(x), Some(y))
        } else {
            let (_, x) = m.remove(a);
            let (_, y) = m.remove(b);
            (Some(x), Some(y))
        },
        (Some(a), None) => {
            let (_, x) = m.remove(a);
            (Some(x), None)
        },
        (None, Some(b)) => {
            let (_, y) = m.remove(b);
            (None, Some(y))
        },
        (None, None) => (None, None),
    }
}

/// Drops a null.
fn unless_null(m: Option<JsonValue>) -> (r: Option<JsonValue>)
    ensures
        r == kept(m),
{
    match m {
        Some(JsonValue::Null) => None,
        _ => m,
    }
}

impl Fields {
    /// Reads an extension bundle from a JSON object; `None` where a part
    /// that is present does not match the schema. Absent and null parts are
    /// never an error.
    pub fn from_json(v: JsonValue) -> (r: Option<Fields>)
        ensures
            match r {
                Some(f) => fields_decodes(v, f),
                None => !fields_decodable(v),
            },
    {
        if !is_object(&v) {
            return None;
        }
        let timezone = match member_value(&v, "timezone") {
            None => None,
            Some(JsonValue::Null) => None,
            Some(x) => match Timezone::from_json(x) {
                Some(d) => Some(d),
                None => return None,
            },
        };
        let zip4 = match member_value(&v, "zip4") {
            None => None,
            Some(JsonValue::Null) => None,
            Some(x) => match Zip4::from_json(x) {
                Some(d) => Some(d),
                None => return None,
            },
        };
        let congressional_district = match member_value(&v, "congressional_district") {
            None => None,
            Some(JsonValue::Null) => None,
            Some(x) => match CongressionalDistrict::from_json(x) {
                Some(d) => Some(d),
                None => return None,
            },
        };
        let congressional_districts = match member_value(&v, "congressional_districts") {
            None => None,
            Some(JsonValue::Null) => None,
            Some(JsonValue::Array(a)) => match districts_from_json(a) {
                Some(ds) => Some(ds),
                None => return None,
            },
            Some(_) => return None,
        };
        let state_legislative_districts = match member_value(&v, "state_legislative_districts") {
            None => None,
            Some(JsonValue::Null) => None,
            Some(x) => match StateLegislativeDistricts::from_json(x) {
                Some(d) => Some(d),
                None => return None,
            },
        };
        let school_districts = match member_value(&v, "school_districts") {
            None => None,
            Some(JsonValue::Null) => None,
            Some(x) => match SchoolDistricts::from_json(x) {
                Some(d) => Some(d),
                None => return None,
            },
        };
        let (census, acs) = match v {
            JsonValue::Object(m) => {
                let ci = member_position(&m, "census");
                let ai = member_position(&m, "acs");
                proof {
                    reveal_strlit("census");
                    reveal_strlit("acs");
                    if ci is Some && ai is Some {
                        assert("census"@.len() != "acs"@.len());
                        assert(m@[ci.unwrap() as int].0@ != m@[ai.unwrap() as int].0@);
                        assert(ci.unwrap() != ai.unwrap());
                    }
                }
                take_two(m, ci, ai)
            },
            _ => return None,
        };
        Some(
            Fields {
                timezone,
                zip4,
                congressional_district,
                congressional_districts,
                state_legislative_districts,
                school_districts,
                census: unless_null(census),
                acs: unless_null(acs),
            },
        )
    }
}

/// A bundle without any extension member is still read, with every part
/// absent: missing optional nesting is never an error.
pub proof fn lemma_fields_all_absent(v: JsonValue)
    requires
        v is Object,
        member_of(v, "timezone"@) is None,
        member_of(v, "zip4"@) is None,
        member_of(v, "congressional_district"@) is None,
        member_of(v, "congressional_districts"@) is None,
        member_of(v, "state_legislative_districts"@) is None,
        member_of(v, "school_districts"@) is None,
        member_of(v, "census"@) is None,
        member_of(v, "acs"@) is None,
    ensures
        fields_decodable(v),
        forall|f: Fields|
            fields_decodes(v, f) ==> f.timezone is None && f.zip4 is None
                && f.congressional_district is None && f.congressional_districts is None
                && f.state_legislative_districts is None && f.school_districts is None
                && f.census is None && f.acs is None,
{
}

/// The extension bundle of a geocode result: absent where the result has no
/// `fields` member or it is null.
pub open spec fn result_fields_decodes(v: JsonValue, f: Option<Fields>) -> bool {
    let m = member_of(v, "fields"@);
    if left_out(m) {
        f is None
    } else {
        f matches Some(b) && fields_decodes(m.unwrap(), b)
    }
}

/// The `fields` member of a geocode result is absent, null, or a bundle.
pub open spec fn result_fields_decodable(v: JsonValue) -> bool {
    let m = member_of(v, "fields"@);
    left_out(m) || fields_decodable(m.unwrap())
}

/// Reads the extension bundle of a geocode result; `None` where a bundle is
/// present and does not match the schema.
pub fn fields_of_result(v: JsonValue) -> (r: Option<Option<Fields>>)
    ensures
        match r {
            Some(f) => result_fields_decodes(v, f),
            None => !result_fields_decodable(v),
        },
{
    match v {
        JsonValue::Object(m) => {
            let mut m = m;
            match member_position(&m, "fields") {
                None => Some(None),
                Some(i) => {
                    let (_, x) = m.remove(i);
                    match x {
                        JsonValue::Null => Some(None),
                        _ => match Fields::from_json(x) {
                            Some(f) => Some(Some(f)),
                            None => None,
                        },
                    }
                },
            }
        },
        _ => Some(None),
    }
}

/// A geocode result without a `fields` member is read with no extension
/// bundle: a missing bundle is never an error.
pub proof fn lemma_result_without_fields(v: JsonValue)
    requires
        member_of(v, "fields"@) is None,
    ensures
        result_fields_decodable(v),
        forall|f: Option<Fields>| result_fields_decodes(v, f) <==> f is None,
{
}

} // verus!
