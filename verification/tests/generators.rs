use derive_lit::build_def;
use derive_lit::derive_map_lit;
use derive_lit::derive_set_lit;
use derive_lit::derive_vec_front_lit;
use derive_lit::derive_vec_lit;
use derive_lit::Decl;
use derive_lit::DeriveError;
use derive_lit::Shape;
use derive_lit::Variant;

const LIST_MACRO: &str = "macro_rules! my_struct {\n    ( $( $elem:expr ),* ) => {\n        {\n            let mut temp = MyStruct::new();\n            $(\n                temp.push($elem);\n            )*\n            temp\n        }\n    };\n}\n";

#[test]
fn vec_lit_renders_push_macro() {
    let out = derive_vec_lit("struct MyStruct;").unwrap();
    assert_eq!(out, LIST_MACRO);
}

#[test]
fn field_layout_is_ignored() {
    let named = derive_vec_lit("struct MyStruct { items: Vec<usize> }").unwrap();
    let tuple = derive_vec_lit("pub struct MyStruct(usize, usize);").unwrap();
    assert_eq!(named, LIST_MACRO);
    assert_eq!(tuple, LIST_MACRO);
}

#[test]
fn vec_front_lit_renders_push_front_macro() {
    let out = derive_vec_front_lit("struct MyStruct;").unwrap();
    assert_eq!(out, LIST_MACRO.replace("temp.push(", "temp.push_front("));
}

#[test]
fn set_lit_renders_insert_macro() {
    let out = derive_set_lit("struct MyStruct;").unwrap();
    assert_eq!(out, LIST_MACRO.replace("temp.push(", "temp.insert("));
}

#[test]
fn map_lit_renders_pairwise_insert_macro() {
    let out = derive_map_lit("struct MyMap;").unwrap();
    let expected = "macro_rules! my_map {\n    ( $( $key:expr => $val:expr ),* ) => {\n        {\n            let mut temp = MyMap::new();\n            $(\n                temp.insert($key, $val);\n            )*\n            temp\n        }\n    };\n}\n";
    assert_eq!(out, expected);
}

#[test]
fn generated_text_parses_as_a_macro_definition() {
    for out in [
        derive_vec_lit("struct AType;").unwrap(),
        derive_vec_front_lit("struct AType;").unwrap(),
        derive_set_lit("struct AType;").unwrap(),
        derive_map_lit("struct AType;").unwrap(),
    ] {
        let parsed = syn::parse_str::<syn::ItemMacro>(&out);
        assert!(parsed.is_ok(), "generated macro does not parse: {}", out);
    }
}

#[test]
fn non_struct_is_rejected_by_all_four() {
    let enum_src = "enum Foo { A, B }";
    assert_eq!(derive_vec_lit(enum_src), Err(DeriveError::UnsupportedShape));
    assert_eq!(
        derive_vec_front_lit(enum_src),
        Err(DeriveError::UnsupportedShape)
    );
    assert_eq!(derive_set_lit(enum_src), Err(DeriveError::UnsupportedShape));
    assert_eq!(derive_map_lit(enum_src), Err(DeriveError::UnsupportedShape));

    let union_src = "union U { a: u32, b: f32 }";
    assert_eq!(derive_vec_lit(union_src), Err(DeriveError::UnsupportedShape));
    assert_eq!(derive_map_lit(union_src), Err(DeriveError::UnsupportedShape));
}

#[test]
fn unparsable_input_is_rejected() {
    assert_eq!(derive_vec_lit("fn main() {}"), Err(DeriveError::Unparsable));
    assert_eq!(derive_map_lit("not rust at all ("), Err(DeriveError::Unparsable));
    assert_eq!(derive_set_lit(""), Err(DeriveError::Unparsable));
}

#[test]
fn empty_struct_succeeds() {
    assert!(derive_vec_lit("struct Empty;").is_ok());
    assert!(derive_set_lit("struct Empty {}").is_ok());
}

#[test]
fn build_def_records_name_target_and_variant() {
    let decl = Decl {
        name: String::from("MyStruct"),
        shape: Shape::Struct,
    };
    let def = build_def(&decl, Variant::SetLit).unwrap();
    assert_eq!(def.macro_name, "my_struct");
    assert_eq!(def.target, "MyStruct");
    assert_eq!(def.variant, Variant::SetLit);
    assert_eq!(
        def.render(),
        LIST_MACRO.replace("temp.push(", "temp.insert(")
    );
}

#[test]
fn build_def_rejects_non_struct_shapes() {
    let decl = Decl {
        name: String::from("Foo"),
        shape: Shape::Enum,
    };
    assert_eq!(
        build_def(&decl, Variant::VecLit).unwrap_err(),
        DeriveError::UnsupportedShape
    );
    let decl = Decl {
        name: String::from("U"),
        shape: Shape::Union,
    };
    assert_eq!(
        build_def(&decl, Variant::MapLit).unwrap_err(),
        DeriveError::UnsupportedShape
    );
}

#[test]
fn colliding_names_yield_two_conflicting_definitions() {
    // Two distinct struct names that case-fold to the same macro name: both
    // derives succeed, each emits a definition, and the definitions carry
    // the same macro name while differing in their target type. Nothing
    // detects the collision here; the host compiler fails on the
    // redefinition.
    let first = derive_vec_lit("struct AbcDef;").unwrap();
    let second = derive_vec_lit("struct ABCDef;").unwrap();
    assert!(first.starts_with("macro_rules! abc_def {"));
    assert!(second.starts_with("macro_rules! abc_def {"));
    assert_ne!(first, second);
}
