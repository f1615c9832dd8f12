use geocodio::decode::fields_of_result;
use geocodio::{
    AddressComponents, CongressionalDistrict, Fields, JsonValue, SchoolDistricts,
    StateLegislativeDistricts, Timezone, Zip4,
};

fn to_json_value(v: &serde_json::Value) -> JsonValue {
    match v {
        serde_json::Value::Null => JsonValue::Null,
        serde_json::Value::Bool(b) => JsonValue::Bool(*b),
        serde_json::Value::Number(n) => match n.as_i64() {
            Some(i) => JsonValue::Int(i),
            None => JsonValue::Decimal(n.to_string()),
        },
        serde_json::Value::String(s) => JsonValue::Text(s.clone()),
        serde_json::Value::Array(a) => JsonValue::Array(a.iter().map(to_json_value).collect()),
        serde_json::Value::Object(m) => JsonValue::Object(
            m.iter()
                .map(|(k, v)| (k.clone(), to_json_value(v)))
                .collect(),
        ),
    }
}

fn parse(text: &str) -> JsonValue {
    to_json_value(&serde_json::from_str::<serde_json::Value>(text).unwrap())
}

fn full_components() -> AddressComponents {
    AddressComponents {
        number: Some("1109".to_string()),
        street: Some("Highland".to_string()),
        suffix: Some("St".to_string()),
        secondary_number: Some("4".to_string()),
        secondary_unit: Some("Apt".to_string()),
        post_directional: Some("NW".to_string()),
        formatted_street: Some("N Highland St".to_string()),
        city: Some("Arlington".to_string()),
        state: Some("VA".to_string()),
        zip: Some("22201".to_string()),
        county: Some("Arlington County".to_string()),
        country: Some("US".to_string()),
        pre_directional: Some("N".to_string()),
        prefix: Some("Old".to_string()),
    }
}

#[test]
fn full_components_round_trip() {
    let c = full_components();
    let back = AddressComponents::from_json(&c.to_json());
    assert_eq!(back, Some(c));
}

#[test]
fn empty_components_round_trip_through_nulls() {
    let c = AddressComponents::default();
    let v = c.to_json();
    match &v {
        JsonValue::Object(m) => {
            assert_eq!(m.len(), 14);
            assert!(m.iter().all(|(_, x)| matches!(x, JsonValue::Null)));
        }
        _ => panic!("components are written as an object"),
    }
    assert_eq!(AddressComponents::from_json(&v), Some(c));
}

#[test]
fn components_use_the_provider_member_names() {
    let v = parse(
        r#"{"number":"1109","predirectional":"N","street":"Highland","suffix":"St",
            "secondarynumber":"4","secondaryunit":"Apt","postdirectional":"NW",
            "city":"Arlington","state":"VA","zip":"22201","country":"US",
            "formatted_street":"N Highland St","county":"Arlington County","prefix":"Old"}"#,
    );
    assert_eq!(AddressComponents::from_json(&v), Some(full_components()));
    let names: Vec<String> = match full_components().to_json() {
        JsonValue::Object(m) => m.into_iter().map(|(k, _)| k).collect(),
        _ => Vec::new(),
    };
    assert!(names.contains(&"secondarynumber".to_string()));
    assert!(names.contains(&"predirectional".to_string()));
}

#[test]
fn components_tolerate_missing_and_unknown_members() {
    let v = parse(r#"{"city":"Denver","state":null,"extra":[1,2,3]}"#);
    let c = AddressComponents::from_json(&v).unwrap();
    assert_eq!(c.city, Some("Denver".to_string()));
    assert_eq!(c.state, None);
    assert_eq!(c.number, None);
}

#[test]
fn components_reject_a_wrong_kind() {
    assert_eq!(AddressComponents::from_json(&parse(r#"{"city":12}"#)), None);
    assert_eq!(AddressComponents::from_json(&parse(r#"["Denver"]"#)), None);
}

const DISTRICT: &str = r#"{
    "name": "Congressional District 8",
    "district_number": 8,
    "congress_number": "118th",
    "congress_years": "2023-2025",
    "proportion": 1,
    "current_legislators": [
        {
            "type": "representative",
            "bio": {"last_name": "Beyer", "first_name": "Donald", "gender": "M", "party": "Democrat"},
            "contact": {"url": "https://beyer.house.gov", "phone": "202-225-4376"},
            "social": {"twitter": "RepDonBeyer"},
            "references": {"bioguide_id": "B001292"},
            "source": "Legislator data"
        },
        {
            "type": "senator",
            "bio": {"last_name": "Warner", "first_name": "Mark", "birthday": "1954-12-15", "gender": "M", "party": "Democrat"},
            "contact": {},
            "social": {},
            "references": {},
            "source": "Legislator data"
        }
    ]
}"#;

#[test]
fn legislator_without_birthday_still_decodes() {
    let d = CongressionalDistrict::from_json(&parse(DISTRICT)).unwrap();
    assert_eq!(d.name, Some("Congressional District 8".to_string()));
    assert_eq!(d.district_number, Some(8));
    let ls = d.current_legislators.unwrap();
    assert_eq!(ls.len(), 2);
    let bio = ls[0].bio.as_ref().unwrap();
    assert_eq!(bio.birthday, None);
    assert_eq!(bio.first_name, Some("Donald".to_string()));
    assert_eq!(bio.last_name, Some("Beyer".to_string()));
    assert_eq!(bio.gender, Some("M".to_string()));
    assert_eq!(bio.party, Some("Democrat".to_string()));
    assert_eq!(ls[0].type_field, Some("representative".to_string()));
    let references = ls[0].references.as_ref().unwrap();
    assert_eq!(references.bioguide_id, Some("B001292".to_string()));
    assert_eq!(
        ls[1].bio.as_ref().unwrap().birthday,
        Some("1954-12-15".to_string())
    );
}

#[test]
fn district_without_legislators() {
    let v = parse(
        r#"{"name":"At Large","district_number":0,"congress_number":"118th",
            "congress_years":"2023-2025","proportion":1,"current_legislators":null}"#,
    );
    let d = CongressionalDistrict::from_json(&v).unwrap();
    assert_eq!(d.current_legislators, None);
}

#[test]
fn legislator_without_parts_reads_them_as_absent() {
    let v = parse(
        r#"{"name":"D","district_number":1,"congress_number":"118th","congress_years":"x",
            "proportion":1,"current_legislators":[{"type":"senator","source":"s"},{}]}"#,
    );
    let d = CongressionalDistrict::from_json(&v).unwrap();
    let ls = d.current_legislators.unwrap();
    assert_eq!(ls.len(), 2);
    assert!(ls[0].bio.is_none());
    assert!(ls[0].contact.is_none());
    assert!(ls[0].social.is_none());
    assert!(ls[0].references.is_none());
    assert_eq!(ls[0].type_field, Some("senator".to_string()));
    assert_eq!(ls[1].type_field, None);
}

#[test]
fn district_without_any_member_is_all_absent() {
    let d = CongressionalDistrict::from_json(&parse("{}")).unwrap();
    assert_eq!(d, CongressionalDistrict::default());
    let bad = parse(r#"{"current_legislators":[{"bio":"Beyer"}]}"#);
    assert!(CongressionalDistrict::from_json(&bad).is_none());
}

#[test]
fn fields_hold_a_district_whose_legislator_lacks_a_bio() {
    let v = parse(
        r#"{"congressional_districts":[{"name":"D","current_legislators":[{"type":"senator"}]}]}"#,
    );
    let f = Fields::from_json(v).unwrap();
    let ds = f.congressional_districts.unwrap();
    let ls = ds[0].current_legislators.as_ref().unwrap();
    assert!(ls[0].bio.is_none());
}

#[test]
fn district_number_must_fit_sixteen_bits() {
    let v = parse(
        r#"{"name":"D","district_number":70000,"congress_number":"118th",
            "congress_years":"x","proportion":1}"#,
    );
    assert!(CongressionalDistrict::from_json(&v).is_none());
    let w = parse(
        r#"{"name":"D","district_number":1.5,"congress_number":"118th",
            "congress_years":"x","proportion":1}"#,
    );
    assert!(CongressionalDistrict::from_json(&w).is_none());
}

#[test]
fn fields_without_any_member_are_all_absent() {
    let f = Fields::from_json(parse("{}")).unwrap();
    assert!(f.timezone.is_none());
    assert!(f.zip4.is_none());
    assert!(f.congressional_district.is_none());
    assert!(f.congressional_districts.is_none());
    assert!(f.state_legislative_districts.is_none());
    assert!(f.school_districts.is_none());
    assert!(f.census.is_none());
    assert!(f.acs.is_none());
}

#[test]
fn fields_read_the_parts_that_are_present() {
    let text = format!(
        r#"{{"timezone":{{"name":"America/New_York","abbreviation":"EST","utc_offset":-5,
            "observes_dst":true,"source":"tz"}},
            "congressional_districts":[{}],
            "school_districts":{{"unified":{{"name":"Arlington","lea_code":"00270",
            "grade_low":"PK","grade_high":"12"}}}},
            "census":{{"2020":{{"block":"1000"}}}},
            "acs":null,
            "zip4":null}}"#,
        DISTRICT
    );
    let f = Fields::from_json(parse(&text)).unwrap();
    assert_eq!(
        f.timezone,
        Some(Timezone {
            name: Some("America/New_York".to_string()),
            abbreviation: Some("EST".to_string()),
            utc_offset: Some(-5),
            observes_dst: Some(true),
            source: Some("tz".to_string()),
        })
    );
    assert_eq!(f.congressional_districts.unwrap().len(), 1);
    let schools: SchoolDistricts = f.school_districts.unwrap();
    assert_eq!(schools.unified.unwrap().lea_code, Some("00270".to_string()));
    assert!(schools.elementary.is_none());
    assert!(matches!(f.census, Some(JsonValue::Object(_))));
    assert!(f.acs.is_none());
    assert!(f.zip4.is_none());
}

#[test]
fn fields_reject_a_malformed_part() {
    assert!(Fields::from_json(parse(r#"{"timezone":{"name":5}}"#)).is_none());
    assert!(Fields::from_json(parse(r#"{"congressional_districts":{}}"#)).is_none());
    assert!(Fields::from_json(parse("[]")).is_none());
    let partial = Fields::from_json(parse(r#"{"timezone":{"name":"UTC"}}"#)).unwrap();
    let tz = partial.timezone.unwrap();
    assert_eq!(tz.name, Some("UTC".to_string()));
    assert_eq!(tz.source, None);
    assert_eq!(tz.utc_offset, None);
}

#[test]
fn result_without_fields_has_no_bundle() {
    let v = parse(r#"{"formatted_address":"Denver, CO","accuracy":1}"#);
    assert!(fields_of_result(v).unwrap().is_none());
    let null = parse(r#"{"fields":null}"#);
    assert!(fields_of_result(null).unwrap().is_none());
    let some = parse(r#"{"fields":{"timezone":{"abbreviation":"MST"}}}"#);
    let f = fields_of_result(some).unwrap().unwrap();
    assert_eq!(f.timezone.unwrap().abbreviation, Some("MST".to_string()));
    assert!(fields_of_result(parse(r#"{"fields":[1]}"#)).is_none());
}

#[test]
fn zip4_record() {
    let v = parse(
        r#"{"record_type":{"code":"S","description":"Street"},
            "carrier_route":{"id":"C007","description":"City Delivery"},
            "building_or_firm_name":null,"plus4":["2317"],"zip9":["22201-2317"],
            "government_building":null,
            "facility_code":{"code":"P","description":"Post Office"},
            "city_delivery":true,"valid_delivery_area":true,"exact_match":false}"#,
    );
    let z: Zip4 = Zip4::from_json(&v).unwrap();
    assert_eq!(z.record_type.unwrap().code, Some("S".to_string()));
    assert_eq!(z.carrier_route.unwrap().id, Some("C007".to_string()));
    assert_eq!(z.plus4, Some(vec!["2317".to_string()]));
    assert_eq!(z.zip9, Some(vec!["22201-2317".to_string()]));
    assert_eq!(z.city_delivery, Some(true));
    assert_eq!(z.exact_match, Some(false));
    assert!(Zip4::from_json(&parse(r#"{"plus4":[1]}"#)).is_none());
    let sparse = Zip4::from_json(&parse(r#"{"zip9":["80205-1234"]}"#)).unwrap();
    assert!(sparse.plus4.is_none());
    assert!(sparse.record_type.is_none());
}

#[test]
fn state_legislative_districts_are_lists() {
    let v = parse(
        r#"{"house":[{"name":"Assembly District 48","district_number":"48",
            "is_upcoming_state_legislative_district":false,"proportion":1}],
            "senate":[]}"#,
    );
    let d: StateLegislativeDistricts = StateLegislativeDistricts::from_json(&v).unwrap();
    let house = d.house.unwrap();
    assert_eq!(house.len(), 1);
    assert_eq!(house[0].district_number, Some("48".to_string()));
    assert_eq!(house[0].proportion, Some(1));
    assert!(d.senate.unwrap().is_empty());
    let no_senate = StateLegislativeDistricts::from_json(&parse(r#"{"house":[]}"#)).unwrap();
    assert!(no_senate.senate.is_none());
    assert!(StateLegislativeDistricts::from_json(&parse(r#"{"senate":3}"#)).is_none());
}
