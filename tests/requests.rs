use geocodio::{
    api_key_from_env, batch_payload, geocode_params, geocode_target, join_fields, request_query,
    request_target, AddressInput, AddressParams, Error,
};

#[test]
fn credential_is_appended_after_the_parameters() {
    assert_eq!(request_query("q=Denver", "abc123"), "q=Denver&api_key=abc123");
}

#[test]
fn credential_alone_has_no_separator() {
    assert_eq!(request_query("", "abc123"), "api_key=abc123");
}

#[test]
fn credential_is_form_encoded() {
    assert_eq!(request_query("q=x", "a b&c=d"), "q=x&api_key=a+b%26c%3Dd");
    assert_eq!(request_query("q=x", "*-._~"), "q=x&api_key=*-._%7E");
    assert_eq!(request_query("q=x", "\u{e9}"), "q=x&api_key=%C3%A9");
}

#[test]
fn caller_api_key_does_not_override_the_credential() {
    let q = request_query("q=1 Main St&api_key=forged", "real");
    assert_eq!(q, "q=1 Main St&api_key=forged&api_key=real");
    let last = q.rsplit('&').next().unwrap();
    assert_eq!(last, "api_key=real");
    let injected = request_query("q=x", "real&api_key=forged");
    assert_eq!(injected.rsplit('&').next().unwrap(), "api_key=real%26api_key%3Dforged");
}

#[test]
fn fields_are_comma_joined() {
    assert_eq!(join_fields(&["cd", "stateleg", "timezone"]), "cd,stateleg,timezone");
    assert_eq!(join_fields(&["zip4"]), "zip4");
    assert_eq!(join_fields(&[]), "");
}

#[test]
fn geocode_params_with_and_without_fields() {
    let a = AddressParams::AddressInput(AddressInput {
        line_1: Some("48965 Co Rd 262".to_string()),
        line_2: None,
        city: Some("Marcell".to_string()),
        state: Some("MN".to_string()),
        country: Some("US".to_string()),
        postal_code: Some("56657".to_string()),
    });
    assert_eq!(
        geocode_params(&a, Some(&["cd", "stateleg"])),
        "street=48965 Co Rd 262&city=Marcell&state=MN&country=US&postal_code=56657&fields=cd,stateleg"
    );
    let s = AddressParams::String("Denver".to_string());
    assert_eq!(geocode_params(&s, None), "q=Denver");
    assert_eq!(geocode_params(&s, Some(&[])), "q=Denver&fields=");
}

#[test]
fn geocode_request_target() {
    let s = AddressParams::String("Denver CO".to_string());
    let t = geocode_target(&s, Some(&["timezone"]), "k1");
    assert_eq!(t.endpoint, "geocode");
    assert_eq!(t.query, "q=Denver CO&fields=timezone&api_key=k1");
}

#[test]
fn reverse_geocode_request_target() {
    let t = request_target("reverse_geocode", "lat=38.9&lng=-77.04", "k1");
    assert_eq!(t.endpoint, "reverse_geocode");
    assert_eq!(t.query, "lat=38.9&lng=-77.04&api_key=k1");
}

#[test]
fn batch_request_target() {
    let t = request_target("geocode", "", "k 1");
    assert_eq!(t.endpoint, "geocode");
    assert_eq!(t.query, "api_key=k+1");
}

#[test]
fn batch_payload_keeps_order_and_length() {
    let inputs = [
        "1109 N Highland St, Arlington VA",
        "525 University Ave, Toronto, ON, Canada",
        "4410 S Highway 17 92, Casselberry FL",
        "15000 NE 24th Street, Redmond WA",
        "17015 Walnut Grove Drive, Morgan Hill CA",
    ];
    let addresses: Vec<AddressParams> = inputs
        .iter()
        .map(|s| AddressParams::String(s.to_string()))
        .collect();
    let payload = batch_payload(&addresses);
    assert_eq!(payload.len(), 5);
    for (entry, input) in payload.iter().zip(inputs.iter()) {
        assert_eq!(entry, input);
    }
}

#[test]
fn batch_payload_holds_the_plain_texts() {
    let addresses = vec![
        AddressParams::String("say \"hi\"\\ok".to_string()),
        AddressParams::String("a\nb".to_string()),
        AddressParams::AddressInput(AddressInput {
            line_1: Some("1 Main St".to_string()),
            line_2: None,
            city: Some("Denver".to_string()),
            state: None,
            country: Some("US".to_string()),
            postal_code: None,
        }),
    ];
    let payload = batch_payload(&addresses);
    assert_eq!(payload[0], "say \"hi\"\\ok");
    assert_eq!(payload[1], "a\nb");
    assert_eq!(payload[2], "1 Main St Denver, , US, ");
    assert_eq!(
        serde_json::to_string(&payload).unwrap(),
        "[\"say \\\"hi\\\"\\\\ok\",\"a\\nb\",\"1 Main St Denver, , US, \"]"
    );
    assert!(batch_payload(&Vec::new()).is_empty());
}

#[test]
fn empty_addresses_are_refused() {
    let empty = AddressParams::String(String::new());
    assert!(matches!(empty.require_text(), Err(Error::EmptyAddress)));
    let blank = AddressParams::AddressInput(AddressInput {
        line_1: Some(String::new()),
        line_2: Some("Suite 1".to_string()),
        city: None,
        state: None,
        country: None,
        postal_code: None,
    });
    assert!(matches!(blank.require_text(), Err(Error::EmptyAddress)));
    let city_only = AddressParams::AddressInput(AddressInput {
        line_1: None,
        line_2: None,
        city: Some("Denver".to_string()),
        state: None,
        country: None,
        postal_code: None,
    });
    assert!(city_only.require_text().is_ok());
    assert!(AddressParams::String("Denver".to_string()).require_text().is_ok());
}

#[test]
fn missing_credential_variable_is_missing_api_key() {
    assert!(matches!(api_key_from_env(None), Err(Error::MissingAPIKey)));
}

#[test]
fn present_credential_variable_is_the_key() {
    match api_key_from_env(Some("abc123".to_string())) {
        Ok(k) => assert_eq!(k, "abc123"),
        Err(_) => panic!("a present variable is the key"),
    }
}
