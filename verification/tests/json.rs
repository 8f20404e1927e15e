use git_summarizer::json::{string_items, Json, Member};

fn sample() -> Json {
    Json::object()
        .with("name", Json::text("stage_files"))
        .with("count", Json::number("3"))
        .with("flag", Json::Bool(true))
        .with("nothing", Json::Null)
}

#[test]
fn with_appends_members_in_order() {
    let built = Json::object().with("a", Json::text("x")).with("b", Json::Null);
    let expected = Json::Object(vec![
        Member { key: "a".to_string(), value: Json::Str("x".to_string()) },
        Member { key: "b".to_string(), value: Json::Null },
    ]);
    assert_eq!(built, expected);
}

#[test]
fn with_leaves_other_values_alone() {
    assert_eq!(Json::Null.with("a", Json::Bool(true)), Json::Null);
    assert_eq!(Json::text("t").with("a", Json::Bool(true)), Json::Str("t".to_string()));
}

#[test]
fn object_is_empty() {
    assert_eq!(Json::object(), Json::Object(vec![]));
}

#[test]
fn list_of_holds_one_entry() {
    assert_eq!(Json::list_of(Json::text("paths")), Json::Array(vec![Json::Str("paths".to_string())]));
}

#[test]
fn array_holds_the_items() {
    assert_eq!(
        Json::array(vec![Json::Null, Json::Bool(false)]),
        Json::Array(vec![Json::Null, Json::Bool(false)])
    );
}

#[test]
fn get_finds_a_member() {
    let value = sample();
    assert_eq!(value.get("name"), Some(&Json::Str("stage_files".to_string())));
    assert_eq!(value.get("count"), Some(&Json::Number("3".to_string())));
    assert_eq!(value.get("nothing"), Some(&Json::Null));
}

#[test]
fn get_misses_an_absent_key() {
    assert_eq!(sample().get("missing"), None);
    assert_eq!(sample().get("Name"), None);
    assert_eq!(Json::object().get("name"), None);
}

#[test]
fn get_on_a_value_that_is_no_object() {
    assert_eq!(Json::text("name").get("name"), None);
    assert_eq!(Json::Array(vec![Json::text("name")]).get("name"), None);
    assert_eq!(Json::Null.get("name"), None);
}

#[test]
fn get_takes_the_last_of_a_repeated_key() {
    let value = Json::object().with("k", Json::number("1")).with("k", Json::number("2"));
    assert_eq!(value.get("k"), Some(&Json::Number("2".to_string())));
}

#[test]
fn as_str_only_for_strings() {
    assert_eq!(Json::text("abc").as_str(), Some(&"abc".to_string()));
    assert_eq!(Json::number("1").as_str(), None);
    assert_eq!(Json::Null.as_str(), None);
    assert_eq!(Json::Array(vec![]).as_str(), None);
}

#[test]
fn as_array_only_for_arrays() {
    let items = vec![Json::text("a"), Json::Null];
    assert_eq!(Json::Array(vec![Json::text("a"), Json::Null]).as_array(), Some(&items));
    assert_eq!(Json::text("a").as_array(), None);
    assert_eq!(Json::object().as_array(), None);
}

#[test]
fn string_items_keeps_strings_in_order() {
    let items = vec![
        Json::text("first"),
        Json::number("2"),
        Json::text("second"),
        Json::Null,
        Json::Bool(true),
        Json::Array(vec![Json::text("nested")]),
        Json::object(),
        Json::text("first"),
    ];
    assert_eq!(
        string_items(&items),
        vec!["first".to_string(), "second".to_string(), "first".to_string()]
    );
}

#[test]
fn string_items_of_no_strings_is_empty() {
    assert_eq!(string_items(&vec![Json::Null, Json::number("1")]), Vec::<String>::new());
    assert_eq!(string_items(&vec![]), Vec::<String>::new());
}
