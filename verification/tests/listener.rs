use sms_chat::listener::{param, query_handler};

fn params(pairs: &[(&str, &str)]) -> Vec<(String, String)> {
    pairs.iter().map(|(n, v)| (n.to_string(), v.to_string())).collect()
}

#[test]
fn delivery_is_text_then_number() {
    let query = params(&[("From", "+15551234"), ("To", "+1000"), ("Body", "hi there")]);
    assert_eq!(query_handler(&query), Some(("hi there".to_string(), "+15551234".to_string())));
}

#[test]
fn delivery_needs_both_parameters() {
    assert_eq!(query_handler(&params(&[("From", "+1")])), None);
    assert_eq!(query_handler(&params(&[("Body", "x")])), None);
    assert_eq!(query_handler(&params(&[])), None);
    assert_eq!(query_handler(&params(&[("body", "x"), ("from", "+1")])), None);
}

#[test]
fn first_parameter_of_a_name_counts() {
    let query = params(&[("Body", "one"), ("Body", "two"), ("From", "+1")]);
    assert_eq!(param(&query, &"Body".to_string()), Some("one".to_string()));
    assert_eq!(param(&query, &"Nope".to_string()), None);
    assert_eq!(query_handler(&query), Some(("one".to_string(), "+1".to_string())));
}
