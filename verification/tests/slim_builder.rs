use query_string_builder::QueryString;

#[test]
fn slim_test_empty() {
    let qs = QueryString::simple();

    assert!(qs.is_empty());
    assert_eq!(qs.len(), 0);

    assert_eq!(qs.to_string(), "");
}

#[test]
fn test_empty_complex() {
    let qs = QueryString::simple().with_opt_value("key", None);

    assert!(qs.is_empty());
    assert_eq!(qs.len(), 0);

    assert_eq!(qs.to_string(), "");
}

#[test]
fn slim_test_simple() {
    let apple = "apple???";

    let qs = QueryString::simple()
        .with_value("q", apple)
        .with_value("category", "fruits and vegetables")
        .with_value("tasty", &format!("{}", true))
        .with_value("weight", &format!("{}", 99.9));

    assert!(!qs.is_empty());
    assert_eq!(qs.len(), 4);

    assert_eq!(
        qs.to_string(),
        "?q=apple???&category=fruits%20and%20vegetables&tasty=true&weight=99.9"
    );
}

#[test]
fn slim_test_encoding() {
    let qs = QueryString::simple()
        .with_value("q", "Grünkohl")
        .with_value("category", "Gemüse");

    assert!(!qs.is_empty());
    assert_eq!(qs.len(), 2);

    assert_eq!(qs.to_string(), "?q=Gr%C3%BCnkohl&category=Gem%C3%BCse");
}

#[test]
fn slim_test_emoji() {
    let qs = QueryString::simple()
        .with_value("q", "🥦")
        .with_value("🍽️", "🍔🍕");

    assert!(!qs.is_empty());
    assert_eq!(qs.len(), 2);

    assert_eq!(
        qs.to_string(),
        "?q=%F0%9F%A5%A6&%F0%9F%8D%BD%EF%B8%8F=%F0%9F%8D%94%F0%9F%8D%95"
    );
}

#[test]
fn slim_test_optional() {
    let qs = QueryString::simple()
        .with_value("q", "celery")
        .with_opt_value("taste", None)
        .with_opt_value("category", Some("fruits and vegetables"))
        .with_opt_value("tasty", Some(&format!("{}", true)))
        .with_opt_value("weight", Some(&format!("{}", 99.9)));

    assert!(!qs.is_empty());
    assert_eq!(qs.len(), 4);

    assert_eq!(
        qs.to_string(),
        "?q=celery&category=fruits%20and%20vegetables&tasty=true&weight=99.9"
    );
    assert_eq!(qs.len(), 4); // not five!
}
