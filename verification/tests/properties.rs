use query_string_builder::QueryString;

#[test]
fn test_two_pairs_scenario() {
    let qs = QueryString::dynamic()
        .with_value("q", "apple???")
        .with_value("category", "fruits and vegetables");
    assert_eq!(
        qs.to_string(),
        "?q=apple???&category=fruits%20and%20vegetables"
    );
}

#[test]
fn test_optional_scenario() {
    let qs = QueryString::dynamic()
        .with_value("q", "celery")
        .with_opt_value("taste", None)
        .with_opt_value("category", Some("fruits and vegetables"));
    assert_eq!(qs.len(), 2);
    assert_eq!(qs.to_string(), "?q=celery&category=fruits%20and%20vegetables");
}

#[test]
fn test_merge_scenario() {
    let a = QueryString::dynamic().with_value("q", "apple");
    let b = QueryString::dynamic().with_value("q", "pear");
    let merged = a.append_into(b);
    assert_eq!(merged.to_string(), "?q=apple&q=pear");
}

#[test]
fn test_count_mixed_appends() {
    // Two required appends and three optional ones with two absent values:
    // the count is 2 + 3 - 2.
    let qs = QueryString::dynamic()
        .with_value("a", "1")
        .with_opt_value("b", None)
        .with_value("c", "2")
        .with_opt_value("d", Some("3"))
        .with_opt_value("e", None);
    assert_eq!(qs.len(), 3);
    assert!(!qs.is_empty());
    assert_eq!(qs.to_string(), "?a=1&c=2&d=3");

    let slim = QueryString::simple()
        .with_value("a", "1")
        .with_opt_value("b", None)
        .with_value("c", "2")
        .with_opt_value("d", Some("3"))
        .with_opt_value("e", None);
    assert_eq!(slim.len(), 3);
    assert!(!slim.is_empty());
    assert_eq!(slim.to_string(), "?a=1&c=2&d=3");
}

#[test]
fn test_render_twice_identical() {
    let qs = QueryString::dynamic()
        .with_value("q", "Grünkohl")
        .with_value("mixed", "a b+c");
    let first = qs.to_string();
    let second = qs.to_string();
    assert_eq!(first, second);

    let slim = QueryString::simple()
        .with_value("q", "Grünkohl")
        .with_opt_value("skipped", None)
        .with_value("mixed", "a b+c");
    let slim_first = slim.to_string();
    let slim_second = slim.to_string();
    assert_eq!(slim_first, slim_second);
}

#[test]
fn test_order_preserved_across_append() {
    let mut qs = QueryString::dynamic().with_value("first", "1").with_value("second", "2");
    qs.append(QueryString::dynamic().with_value("third", "3").with_value("fourth", "4"));
    assert_eq!(qs.to_string(), "?first=1&second=2&third=3&fourth=4");
}

#[test]
fn test_append_into_empty_receiver() {
    let empty = QueryString::dynamic();
    let filled = QueryString::dynamic().with_value("q", "pear");
    let merged = empty.append_into(filled);
    assert_eq!(merged.len(), 1);
    assert_eq!(merged.to_string(), "?q=pear");
}

#[test]
fn test_empty_key_and_value() {
    let qs = QueryString::dynamic().with_value("", "");
    assert_eq!(qs.len(), 1);
    assert_eq!(qs.to_string(), "?=");
}

#[test]
fn test_control_bytes_escaped() {
    let qs = QueryString::dynamic().with_value("text", "a\tb\nc");
    assert_eq!(qs.to_string(), "?text=a%09b%0Ac");
}

#[test]
fn test_slim_absent_tail_keeps_separators() {
    // A trailing absent append must not leave a stray separator and must
    // not change the count.
    let qs = QueryString::simple()
        .with_value("a", "1")
        .with_opt_value("b", None);
    assert_eq!(qs.len(), 1);
    assert!(!qs.is_empty());
    assert_eq!(qs.to_string(), "?a=1");
}

#[test]
fn test_slim_absent_head_keeps_separators() {
    let qs = QueryString::simple()
        .with_opt_value("a", None)
        .with_value("b", "2")
        .with_value("c", "3");
    assert_eq!(qs.len(), 2);
    assert_eq!(qs.to_string(), "?b=2&c=3");
}

#[test]
fn test_unreserved_pass_through() {
    let qs = QueryString::dynamic().with_value("k", "AZaz09-._~$'*(),/:;?@[]^_{|}");
    assert_eq!(qs.to_string(), "?k=AZaz09-._~$'*(),/:;?@[]^_{|}");
}

#[test]
fn test_percent_sign_escaped() {
    // A literal escape in the input is itself escaped, so decoding cannot
    // confuse it with the encoder's own output.
    let qs = QueryString::dynamic().with_value("k", "100%20");
    assert_eq!(qs.to_string(), "?k=100%2520");
}
