use derive_lit::derive_macro_name;

#[test]
fn camel_case_splits_at_capitals() {
    assert_eq!(derive_macro_name("AbcDef"), "abc_def");
    assert_eq!(derive_macro_name("MyStruct"), "my_struct");
    assert_eq!(derive_macro_name("SomeLongTypeName"), "some_long_type_name");
}

#[test]
fn acronym_runs_stay_one_word() {
    assert_eq!(derive_macro_name("ABC"), "abc");
    assert_eq!(derive_macro_name("XMLHttpRequest"), "xml_http_request");
    assert_eq!(derive_macro_name("HTTPServer"), "http_server");
}

#[test]
fn digits_and_single_words() {
    assert_eq!(derive_macro_name("A"), "a");
    assert_eq!(derive_macro_name("Abc123Def"), "abc123_def");
    assert_eq!(derive_macro_name("lowercase"), "lowercase");
}

#[test]
fn separators_collapse_and_edges_drop() {
    assert_eq!(derive_macro_name("My_Struct"), "my_struct");
    assert_eq!(derive_macro_name("_Leading"), "leading");
    assert_eq!(derive_macro_name("Trailing_"), "trailing");
    assert_eq!(derive_macro_name(""), "");
}

#[test]
fn transform_is_idempotent_on_samples() {
    for name in ["AbcDef", "XMLHttpRequest", "Abc123Def", "My_Struct", "x"] {
        let once = derive_macro_name(name);
        let twice = derive_macro_name(&once);
        assert_eq!(twice, once);
    }
}
