use meril_cat::json::Json;

fn obj(fields: Vec<(&str, Json)>) -> Json {
    Json::Object(fields.into_iter().map(|(k, v)| (k.to_string(), v)).collect())
}

#[test]
fn parses_documents() {
    let j = Json::from_text(r#"{"a": 1, "b": [true, null, "x"], "c": {"d": -2.5}}"#).unwrap();
    assert_eq!(j.get("a"), Some(&Json::Num("1".to_string())));
    assert_eq!(
        j.get("b"),
        Some(&Json::Array(vec![Json::Bool(true), Json::Null, Json::Str("x".to_string())]))
    );
    assert_eq!(j.get("c").unwrap().get("d"), Some(&Json::Num("-2.5".to_string())));
    assert_eq!(j.get("missing"), None);
    assert_eq!(Json::from_text("{not json"), None);
    assert_eq!(Json::from_text(""), None);
}

#[test]
fn prints_documents() {
    let j = obj(vec![("n", Json::from_i64(-3)), ("s", Json::Str("hi".to_string()))]);
    assert_eq!(j.to_text(), r#"{"n":-3,"s":"hi"}"#);
    assert_eq!(Json::Null.to_text(), "null");
    let back = Json::from_text(&j.to_text()).unwrap();
    assert_eq!(back.get("n"), Some(&Json::Num("-3".to_string())));
}

#[test]
fn lookup_takes_first_member_and_needs_an_object() {
    let j = obj(vec![("k", Json::Bool(true)), ("k", Json::Bool(false))]);
    assert_eq!(j.get("k"), Some(&Json::Bool(true)));
    assert_eq!(Json::Array(vec![]).get("k"), None);
    assert_eq!(Json::Str("k".to_string()).as_str(), Some(&"k".to_string()));
    assert_eq!(Json::Null.as_str(), None);
}

#[test]
fn copies_are_equal() {
    let j = Json::from_text(r#"{"a":[1,{"b":"c"}],"d":false}"#).unwrap();
    assert_eq!(j.copy(), j);
    assert_eq!(j.clone(), j);
}
