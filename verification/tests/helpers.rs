//! Tests of the text helpers and the small accessors.

use glsl_shaderinfo::pluralise;
use glsl_shaderinfo::text::decimal_str;
use glsl_shaderinfo::BlockInfo;
use glsl_shaderinfo::FieldInfo;
use glsl_shaderinfo::VarInfo;

#[test]
fn pluralise_one_is_singular() {
    assert_eq!(pluralise("variable", 1), "variable");
}

#[test]
fn pluralise_zero_appends_s() {
    assert_eq!(pluralise("variable", 0), "variables");
}

#[test]
fn pluralise_many_appends_s() {
    assert_eq!(pluralise("input", 2), "inputs");
    assert_eq!(pluralise("block", 17), "blocks");
}

#[test]
fn decimal_renders_digits() {
    assert_eq!(decimal_str(0), "0");
    assert_eq!(decimal_str(7), "7");
    assert_eq!(decimal_str(450), "450");
    assert_eq!(decimal_str(100), "100");
}

#[test]
fn var_array_str_forms() {
    let scalar = VarInfo {
        name: "a".to_string(),
        storage: None,
        ty_name: "Float".to_string(),
        array: None,
    };
    assert_eq!(scalar.array_str(), "");
    let unsized_arr = VarInfo { array: Some(vec![]), ..scalar };
    assert_eq!(unsized_arr.array_str(), "[]");
    let fixed = VarInfo { array: Some(vec![12]), ..unsized_arr };
    assert_eq!(fixed.array_str(), "[12]");
}

#[test]
fn field_array_str_forms() {
    let field = FieldInfo {
        name: "f".to_string(),
        ty_name: "Vec3".to_string(),
        array: Some(vec![3]),
    };
    assert_eq!(field.array_str(), "[3]");
}

#[test]
fn var_repr_lowercases_storage() {
    let var = VarInfo {
        name: "position".to_string(),
        storage: Some("In".to_string()),
        ty_name: "Vec3".to_string(),
        array: None,
    };
    assert_eq!(var.repr(), "<VarInfo in Vec3 \"position\">");
}

#[test]
fn var_repr_without_storage_and_with_array() {
    let var = VarInfo {
        name: "xs".to_string(),
        storage: None,
        ty_name: "Float".to_string(),
        array: Some(vec![4]),
    };
    assert_eq!(var.repr(), "<VarInfo Float \"xs[4]\">");
}

#[test]
fn field_repr() {
    let field = FieldInfo {
        name: "f".to_string(),
        ty_name: "Float".to_string(),
        array: Some(vec![]),
    };
    assert_eq!(field.repr(), "<FieldInfo Float \"f[]\">");
}

#[test]
fn block_repr_pluralises_fields() {
    let one = BlockInfo {
        name: "Data".to_string(),
        fields: vec![FieldInfo {
            name: "a".to_string(),
            ty_name: "Float".to_string(),
            array: None,
        }],
    };
    assert_eq!(one.repr(), "<BlockInfo \"Data\" (1 field)>");
    let none = BlockInfo { name: "Empty".to_string(), fields: vec![] };
    assert_eq!(none.repr(), "<BlockInfo \"Empty\" (0 fields)>");
}
