use peer_negotiator::json::Json;

fn text(s: &str) -> String {
    String::from(s)
}

#[test]
fn parse_builds_the_tree() {
    assert_eq!(
        Json::parse(r#"{"b":[1,null,true,"x"],"a":{"n":18446744073709551615}}"#),
        Some(Json::Object(vec![
            (
                text("b"),
                Json::List(vec![
                    Json::Number(Some(1)),
                    Json::Null,
                    Json::Bool(true),
                    Json::Text(text("x")),
                ])
            ),
            (text("a"), Json::Object(vec![(text("n"), Json::Number(Some(u64::MAX)))])),
        ]))
    );
}

#[test]
fn parse_keeps_other_numbers_without_value() {
    assert_eq!(
        Json::parse("[-1, 2.5, 1e3]"),
        Some(Json::List(vec![Json::Number(None), Json::Number(None), Json::Number(None)]))
    );
}

#[test]
fn parse_rejects_what_is_no_json() {
    assert_eq!(Json::parse(""), None);
    assert_eq!(Json::parse("{"), None);
    assert_eq!(Json::parse("{\"a\":1,}"), None);
    assert_eq!(Json::parse("nil"), None);
}

#[test]
fn parse_keeps_one_value_for_each_key() {
    assert_eq!(
        Json::parse(r#"{"a":1,"a":2}"#),
        Some(Json::Object(vec![(text("a"), Json::Number(Some(2)))]))
    );
}

#[test]
fn print_writes_compact_text_in_field_order() {
    let tree = Json::Object(vec![
        (text("z"), Json::Number(Some(7))),
        (text("a"), Json::List(vec![Json::Null, Json::Bool(false), Json::Text(text("q\"t"))])),
    ]);
    assert_eq!(tree.print(), r#"{"z":7,"a":[null,false,"q\"t"]}"#);
}

#[test]
fn print_then_parse_gives_the_tree_back() {
    let tree = Json::Object(vec![
        (text("type"), Json::Text(text("x\n\u{1F600}"))),
        (text("content"), Json::Object(vec![(text("n"), Json::Number(Some(65535)))])),
    ]);
    assert_eq!(Json::parse(&tree.print()), Some(tree));
}

#[test]
fn member_finds_the_first_field_with_the_key() {
    let tree = Json::Object(vec![
        (text("a"), Json::Number(Some(1))),
        (text("b"), Json::Number(Some(2))),
        (text("b"), Json::Number(Some(3))),
    ]);
    assert_eq!(tree.member("a"), Some(&Json::Number(Some(1))));
    assert_eq!(tree.member("b"), Some(&Json::Number(Some(2))));
    assert_eq!(tree.member("c"), None);
    assert_eq!(Json::Text(text("a")).member("a"), None);
}

#[test]
fn text_and_small_integer_read_leaves() {
    assert_eq!(Json::Text(text("hi")).text(), Some(text("hi")));
    assert_eq!(Json::Number(Some(1)).text(), None);
    assert_eq!(Json::Number(Some(65535)).small_integer(), Some(65535));
    assert_eq!(Json::Number(Some(65536)).small_integer(), None);
    assert_eq!(Json::Number(None).small_integer(), None);
    assert_eq!(Json::Text(text("1")).small_integer(), None);
}

#[test]
fn printable_trees_have_integers_and_distinct_keys() {
    let good = Json::Object(vec![
        (text("a"), Json::List(vec![Json::Number(Some(0)), Json::Null])),
        (text("b"), Json::Object(vec![(text("a"), Json::Bool(true))])),
    ]);
    assert!(good.is_printable());
    assert_eq!(good.try_print(), Some(text(r#"{"a":[0,null],"b":{"a":true}}"#)));

    let other_number = Json::List(vec![Json::Text(text("x")), Json::Number(None)]);
    assert!(!other_number.is_printable());
    assert_eq!(other_number.try_print(), None);

    let twice = Json::Object(vec![
        (text("a"), Json::Null),
        (text("b"), Json::Null),
        (text("a"), Json::Null),
    ]);
    assert!(!twice.is_printable());
    assert_eq!(twice.try_print(), None);

    let nested = Json::Object(vec![(text("a"), Json::List(vec![twice]))]);
    assert!(!nested.is_printable());
    assert!(Json::Null.is_printable());
    assert!(Json::List(vec![]).is_printable());
    assert!(Json::Object(vec![]).is_printable());
    assert_eq!(Json::Object(vec![]).try_print(), Some(text("{}")));
}
