//! Tests of the reflection on hand-built model programs, covering the
//! defensive shapes the parser itself rarely produces.

use glsl_shaderinfo::reflect::reflect;
use glsl_shaderinfo::reflect::resolve_array;
use glsl_shaderinfo::syntax::ArraySpec;
use glsl_shaderinfo::syntax::BlockDecl;
use glsl_shaderinfo::syntax::DeclaredId;
use glsl_shaderinfo::syntax::DimSpec;
use glsl_shaderinfo::syntax::FieldDecl;
use glsl_shaderinfo::syntax::Node;
use glsl_shaderinfo::syntax::Profile;
use glsl_shaderinfo::syntax::Program;
use glsl_shaderinfo::syntax::Qualifier;
use glsl_shaderinfo::syntax::SizeExpr;
use glsl_shaderinfo::syntax::Storage;
use glsl_shaderinfo::syntax::VarDecl;
use glsl_shaderinfo::syntax::VersionDirective;

fn plain_var(name: &str, storage: Option<Storage>) -> VarDecl {
    let qualifiers = match storage {
        Some(s) => vec![Qualifier::Storage(s)],
        None => vec![],
    };
    VarDecl {
        qualifiers,
        ty_name: "Float".to_string(),
        name: Some(name.to_string()),
        array: None,
    }
}

#[test]
fn unnamed_declaration_is_skipped() {
    let decl = VarDecl {
        qualifiers: vec![],
        ty_name: "Float".to_string(),
        name: None,
        array: None,
    };
    let program = Program { items: vec![Node::Declaration(decl)] };
    let info = reflect(&program);
    assert_eq!(info.vars.len(), 0);
}

#[test]
fn first_storage_qualifier_wins() {
    let decl = VarDecl {
        qualifiers: vec![
            Qualifier::Other,
            Qualifier::Storage(Storage::In),
            Qualifier::Storage(Storage::Uniform),
        ],
        ty_name: "Vec2".to_string(),
        name: Some("a".to_string()),
        array: None,
    };
    let program = Program { items: vec![Node::Declaration(decl)] };
    let info = reflect(&program);
    assert_eq!(info.vars[0].storage, Some("In".to_string()));
    assert_eq!(info.inputs.len(), 1);
    assert_eq!(info.uniforms.len(), 0);
}

#[test]
fn inout_stays_unclassified() {
    let program = Program {
        items: vec![Node::Declaration(plain_var("x", Some(Storage::InOut)))],
    };
    let info = reflect(&program);
    assert_eq!(info.vars.len(), 1);
    assert_eq!(info.vars[0].storage, Some("InOut".to_string()));
    assert_eq!(info.inputs.len(), 0);
    assert_eq!(info.outputs.len(), 0);
    assert_eq!(info.uniforms.len(), 0);
}

#[test]
fn multi_dimensional_array_is_unsupported() {
    let decl = VarDecl {
        qualifiers: vec![Qualifier::Storage(Storage::Uniform)],
        ty_name: "Float".to_string(),
        name: Some("m".to_string()),
        array: Some(ArraySpec {
            dims: vec![
                DimSpec::Sized(SizeExpr::IntConst(2)),
                DimSpec::Sized(SizeExpr::IntConst(3)),
            ],
        }),
    };
    let program = Program { items: vec![Node::Declaration(decl)] };
    let info = reflect(&program);
    assert_eq!(info.vars[0].array, None);
}

#[test]
fn resolver_cases() {
    assert_eq!(resolve_array(&None), None);
    let fixed = ArraySpec { dims: vec![DimSpec::Sized(SizeExpr::IntConst(4))] };
    assert_eq!(resolve_array(&Some(fixed)), Some(vec![4]));
    let unsigned = ArraySpec { dims: vec![DimSpec::Sized(SizeExpr::UIntConst(7))] };
    assert_eq!(resolve_array(&Some(unsigned)), Some(vec![7]));
    let unsized_arr = ArraySpec { dims: vec![DimSpec::Unsized] };
    assert_eq!(resolve_array(&Some(unsized_arr)), Some(vec![]));
    let unresolved = ArraySpec { dims: vec![DimSpec::Sized(SizeExpr::Other)] };
    assert_eq!(resolve_array(&Some(unresolved)), None);
    let empty = ArraySpec { dims: vec![] };
    assert_eq!(resolve_array(&Some(empty)), None);
}

#[test]
fn field_without_identifier_is_skipped() {
    let block = BlockDecl {
        qualifiers: vec![Qualifier::Storage(Storage::Uniform)],
        name: "Data".to_string(),
        fields: vec![
            FieldDecl { ty_name: "Float".to_string(), identifiers: vec![] },
            FieldDecl {
                ty_name: "Vec3".to_string(),
                identifiers: vec![DeclaredId { name: "b".to_string(), array: None }],
            },
        ],
        instance: None,
    };
    let program = Program { items: vec![Node::Block(block)] };
    let info = reflect(&program);
    assert_eq!(info.blocks[0].fields.len(), 1);
    assert_eq!(info.blocks[0].fields[0].name, "b");
}

#[test]
fn later_version_directive_wins() {
    let program = Program {
        items: vec![
            Node::Version(VersionDirective { version: 110, profile: None }),
            Node::Version(VersionDirective { version: 460, profile: Some(Profile::Compatibility) }),
        ],
    };
    let info = reflect(&program);
    assert_eq!(info.version, 460);
    assert_eq!(info.version_str, "460 compatibility");
}

#[test]
fn es_profile_renders_lowercase() {
    let program = Program {
        items: vec![Node::Version(VersionDirective { version: 300, profile: Some(Profile::Es) })],
    };
    let info = reflect(&program);
    assert_eq!(info.version_str, "300 es");
}

#[test]
fn other_nodes_contribute_nothing() {
    let program = Program {
        items: vec![
            Node::Other,
            Node::Declaration(plain_var("v", Some(Storage::Out))),
            Node::Other,
        ],
    };
    let info = reflect(&program);
    assert_eq!(info.vars.len(), 1);
    assert_eq!(info.outputs.len(), 1);
    assert_eq!(info.blocks.len(), 0);
    assert_eq!(info.version, 0);
}
