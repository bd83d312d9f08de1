use servant_macro::naming::{snake_to_camel, snake_to_camel2};

#[test]
fn test_snake_to_camel() {
    assert_eq!(snake_to_camel2("abc_def"), "AbcDef".to_string());
    assert_eq!(snake_to_camel2("abc_def_"), "AbcDef".to_string());
    assert_eq!(snake_to_camel2("_abc_def"), "AbcDef".to_string());
    assert_eq!(snake_to_camel2("abc__def"), "AbcDef".to_string());
    assert_eq!(snake_to_camel2("aBc_dEf"), "AbcDef".to_string());
    assert_eq!(snake_to_camel2("__abc__def__"), "AbcDef".to_string());
}

#[test]
fn both_conversions_agree() {
    for name in [
        "abc_def",
        "abc_def_",
        "_abc_def",
        "abc__def",
        "aBc_dEf",
        "__abc__def__",
        "export_servants",
        "f1",
        "f_1",
        "",
        "_",
        "x",
    ] {
        assert_eq!(snake_to_camel(name), snake_to_camel2(name));
    }
}

#[test]
fn method_names_become_tags() {
    assert_eq!(snake_to_camel("export_servants"), "ExportServants");
    assert_eq!(snake_to_camel("hello"), "Hello");
    assert_eq!(snake_to_camel("f1"), "F1");
    assert_eq!(snake_to_camel("login2_now"), "Login2Now");
    assert_eq!(snake_to_camel("a_b_c"), "ABC");
}

#[test]
fn empty_and_underscores_only_give_nothing() {
    assert_eq!(snake_to_camel(""), "");
    assert_eq!(snake_to_camel("_"), "");
    assert_eq!(snake_to_camel("____"), "");
}

#[test]
fn snake_case_gives_no_underscore() {
    for name in ["abc_def", "_a_b_", "a1_b2__c3", "x", "__", "get_9_lives"] {
        assert!(!snake_to_camel(name).contains('_'));
    }
}

#[test]
fn one_more_underscore_changes_nothing() {
    let name = "abc_def";
    let expected = snake_to_camel(name);
    assert_eq!(expected, "AbcDef");
    // at the start, at the end, before and after the underscore
    for at in [0, 3, 4, 7] {
        let mut longer = name.to_string();
        longer.insert(at, '_');
        assert_eq!(snake_to_camel(&longer), expected);
    }
    // inside a segment it makes a new segment
    assert_eq!(snake_to_camel("ab_c_def"), "AbCDef");
}

#[test]
fn camel_case_is_not_kept() {
    assert_eq!(snake_to_camel("AbcDef"), "Abcdef");
    assert_eq!(snake_to_camel("ABC_DEF"), "AbcDef");
}

#[test]
fn digits_and_signs_stay_as_they_are() {
    assert_eq!(snake_to_camel("9_lives"), "9Lives");
    assert_eq!(snake_to_camel("a-b"), "A-b");
}

#[test]
fn letters_beyond_ascii_follow_unicode() {
    assert_eq!(snake_to_camel("été_ÉTÉ"), "ÉtéÉté");
    assert_eq!(snake_to_camel("ß"), "SS");
    assert_eq!(snake_to_camel2("x_ß"), "XSS");
    assert_eq!(snake_to_camel("aİ"), "Ai\u{307}");
}
