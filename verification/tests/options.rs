use texlab_launcher::options::ConfigValue;

#[test]
fn get_finds_a_key() {
    let obj = ConfigValue::Obj(vec![
        ("a".to_string(), ConfigValue::Str("one".to_string())),
        ("b".to_string(), ConfigValue::Other),
    ]);
    assert_eq!(obj.get("b"), Some(&ConfigValue::Other));
    assert_eq!(obj.get("c"), None);
}

#[test]
fn get_takes_the_first_entry_with_the_key() {
    let obj = ConfigValue::Obj(vec![
        ("k".to_string(), ConfigValue::Str("first".to_string())),
        ("k".to_string(), ConfigValue::Str("second".to_string())),
    ]);
    assert_eq!(obj.get("k"), Some(&ConfigValue::Str("first".to_string())));
}

#[test]
fn get_on_a_non_object_is_none() {
    assert_eq!(ConfigValue::Str("x".to_string()).get("k"), None);
    assert_eq!(ConfigValue::Other.get("k"), None);
}

#[test]
fn as_str_and_as_array_match_the_variant() {
    let s = ConfigValue::Str("x".to_string());
    assert_eq!(s.as_str(), Some(&"x".to_string()));
    assert_eq!(s.as_array(), None);

    let a = ConfigValue::Arr(vec![ConfigValue::Other]);
    assert_eq!(a.as_str(), None);
    assert_eq!(a.as_array(), Some(&vec![ConfigValue::Other]));
}
