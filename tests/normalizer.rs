use geocodio::{AddressInput, AddressParams};

fn denver(line_2: Option<String>) -> AddressInput {
    AddressInput {
        line_1: Some("2322 N Marion St".to_string()),
        line_2,
        city: Some("Denver".to_string()),
        state: Some("CO".to_string()),
        country: Some("US".to_string()),
        postal_code: Some("80205".to_string()),
    }
}

fn empty_input() -> AddressInput {
    AddressInput {
        line_1: None,
        line_2: None,
        city: None,
        state: None,
        country: None,
        postal_code: None,
    }
}

#[test]
fn structured_input_encodes_every_position() {
    let expected = "street=2322 N Marion St&city=Denver&state=CO&country=US&postal_code=80205";
    assert_eq!(denver(None).fmt_string(), expected);
    assert_eq!(denver(Some("Apt 4".to_string())).fmt_string(), expected);
}

#[test]
fn absent_fields_are_written_empty() {
    assert_eq!(
        empty_input().fmt_string(),
        "street=&city=&state=&country=&postal_code="
    );
    let mut partial = empty_input();
    partial.city = Some("Denver".to_string());
    assert_eq!(
        partial.fmt_string(),
        "street=&city=Denver&state=&country=&postal_code="
    );
}

#[test]
fn structured_input_on_one_line() {
    assert_eq!(
        denver(None).to_string(),
        "2322 N Marion St Denver, CO, US, 80205"
    );
    assert_eq!(empty_input().to_string(), " , , , ");
}

#[test]
fn free_form_text_is_the_q_parameter() {
    let a = AddressParams::String("1600 Amphitheatre Parkway, Mountain View, CA".to_string());
    assert_eq!(
        a.query_string(),
        "q=1600 Amphitheatre Parkway, Mountain View, CA"
    );
    assert_eq!(
        a.batch_text(),
        "1600 Amphitheatre Parkway, Mountain View, CA"
    );
}

#[test]
fn structured_params_use_the_structured_encodings() {
    let a = AddressParams::AddressInput(denver(None));
    assert_eq!(
        a.query_string(),
        "street=2322 N Marion St&city=Denver&state=CO&country=US&postal_code=80205"
    );
    assert_eq!(a.batch_text(), "2322 N Marion St Denver, CO, US, 80205");
}
