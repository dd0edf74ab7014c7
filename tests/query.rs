use twitch_client::query::{encode, params_into_query_string};

#[test]
fn no_present_value_gives_empty_query() {
    let q = params_into_query_string(vec![("a", None), ("b", None)]);
    assert_eq!(q, "");
}

#[test]
fn single_present_value_has_no_separator() {
    let q = params_into_query_string(vec![("a", None), ("b", Some("x".to_string())), ("c", None)]);
    assert_eq!(q, "?b=x");
}

#[test]
fn present_values_keep_order_with_separators() {
    let q = params_into_query_string(vec![
        ("z", Some("1".to_string())),
        ("a", None),
        ("m", Some("2".to_string())),
        ("b", Some("3".to_string())),
    ]);
    assert_eq!(q, "?z=1&m=2&b=3");
    assert_eq!(q.matches('&').count(), 2);
}

#[test]
fn reserved_characters_are_escaped() {
    let q = params_into_query_string(vec![("q", Some("a b\"#<>:,&=?%+/".to_string()))]);
    assert_eq!(q, "?q=a%20b%22%23%3C%3E%3A%2C%26%3D%3F%25%2B%2F");
}

#[test]
fn non_ascii_values_are_escaped_as_utf8() {
    let q = params_into_query_string(vec![("q", Some("é\n".to_string()))]);
    assert_eq!(q, "?q=%C3%A9%0A");
}

#[test]
fn unreserved_characters_are_kept() {
    let q = params_into_query_string(vec![("q", Some("AZaz09-._~".to_string()))]);
    assert_eq!(q, "?q=AZaz09-._~");
}

#[test]
fn separators_in_values_are_escaped() {
    let q = params_into_query_string(vec![("a", Some("&".to_string())), ("b", Some("&".to_string()))]);
    assert_eq!(q, "?a=%26&b=%26");
    assert_eq!(q.matches('&').count(), 1);
}

#[test]
fn names_are_not_escaped() {
    let q = params_into_query_string(vec![("a b", Some("c".to_string()))]);
    assert_eq!(q, "?a b=c");
}

#[test]
fn escaped_values_decode_back() {
    for value in ["StarCraft II: Heart of the Swarm", "a,b c:d", "x y", "ü ß", "%41", "a+b&c=d?"] {
        let q = params_into_query_string(vec![("v", Some(value.to_string()))]);
        let pairs: Vec<(String, String)> = url::form_urlencoded::parse(q[1..].as_bytes()).into_owned().collect();
        assert_eq!(pairs, vec![("v".to_string(), value.to_string())]);
    }
}

#[test]
fn escape_text_is_itself_escaped() {
    assert_eq!(encode("%41"), "%2541");
    assert_eq!(encode(""), "");
    assert_eq!(encode("é"), "%C3%A9");
}
