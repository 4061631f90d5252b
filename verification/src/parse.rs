//! The trusted boundary to the `glsl` crate.
//!
//! Parsing GLSL source text, and reading the parse tree the `glsl` crate
//! produces, cannot be verified: the tree's types are opaque here. Each
//! function below is an `external_body` wrapper that either makes the one
//! parse call or converts one node of the tree, field for field, into the
//! crate's own model (`crate::syntax`). No contract is assumed about the
//! converted values: the verified reflection holds for every model value.

use vstd::prelude::*;

use glsl::parser::Parse;
use glsl::syntax;
use glsl::syntax::ArraySpecifierDimension;
use glsl::syntax::ExternalDeclaration;
use glsl::syntax::Expr;
use glsl::syntax::Preprocessor;
use glsl::syntax::PreprocessorVersionProfile;
use glsl::syntax::StorageQualifier;
use glsl::syntax::TypeQualifierSpec;

use crate::syntax::ArraySpec;
use crate::syntax::BlockDecl;
use crate::syntax::DeclaredId;
use crate::syntax::DimSpec;
use crate::syntax::FieldDecl;
use crate::syntax::Node;
use crate::syntax::Profile;
use crate::syntax::Program;
use crate::syntax::Qualifier;
use crate::syntax::SizeExpr;
use crate::syntax::Storage;
use crate::scan::has_version_overflow;
use crate::syntax::NodeView;
use crate::syntax::VarDecl;
use crate::syntax::VersionDirective;

verus! {

/// What the parser makes of a source text: the model of the syntax tree it
/// produces, or nothing when the text does not parse. The parse is a pure
/// function of the text — `glsl`'s parser reads nothing else — so the
/// outcome carries a name that every run returns alike; what the name is on
/// a given text is not stated.
pub uninterp spec fn parsed_of(source: Seq<char>) -> Option<Seq<NodeView>>;

#[verifier::external_type_specification]
#[verifier::external_body]
pub struct ExTranslationUnit(syntax::TranslationUnit);

#[verifier::external_type_specification]
#[verifier::external_body]
pub struct ExExternalDeclaration(syntax::ExternalDeclaration);

#[verifier::external_type_specification]
#[verifier::external_body]
pub struct ExPreprocessorVersion(syntax::PreprocessorVersion);

#[verifier::external_type_specification]
#[verifier::external_body]
pub struct ExSingleDeclaration(syntax::SingleDeclaration);

#[verifier::external_type_specification]
#[verifier::external_body]
pub struct ExBlock(syntax::Block);

#[verifier::external_type_specification]
#[verifier::external_body]
pub struct ExStructFieldSpecifier(syntax::StructFieldSpecifier);

#[verifier::external_type_specification]
#[verifier::external_body]
pub struct ExArrayedIdentifier(syntax::ArrayedIdentifier);

#[verifier::external_type_specification]
#[verifier::external_body]
pub struct ExArraySpecifier(syntax::ArraySpecifier);

#[verifier::external_type_specification]
#[verifier::external_body]
pub struct ExArraySpecifierDimension(syntax::ArraySpecifierDimension);

#[verifier::external_type_specification]
#[verifier::external_body]
pub struct ExExpr(syntax::Expr);

#[verifier::external_type_specification]
#[verifier::external_body]
pub struct ExTypeQualifier(syntax::TypeQualifier);

#[verifier::external_type_specification]
#[verifier::external_body]
pub struct ExTypeQualifierSpec(syntax::TypeQualifierSpec);

#[verifier::external_type_specification]
#[verifier::external_body]
pub struct ExStorageQualifier(syntax::StorageQualifier);

/// Relies on `glsl::parser::Parse` for `glsl::syntax::TranslationUnit`:
/// parses GLSL source text into a syntax tree, or reports why it cannot.
/// The tree is converted to the crate's model; the error's diagnostic text
/// is handed back as it came. Success and the converted tree are
/// [`parsed_of`] the text alone.
///
/// The parser aborts instead of returning on a `#version` directive whose
/// number does not fit sixteen bits, so such texts are excluded here; the
/// caller screens them out with [`crate::scan::version_overflows`] first.
#[verifier::external_body]
pub(crate) fn parse_nodes(source: &str) -> (r: Result<Program, String>)
    requires
        !has_version_overflow(source@),
    ensures
        (match r {
            Ok(program) => parsed_of(source@) == Some(program@),
            Err(_) => parsed_of(source@) is None,
        }),
{
    match syntax::TranslationUnit::parse(source) {
        Ok(tu) => Ok(Program { items: unit_nodes(tu) }),
        Err(e) => Err(e.info),
    }
}

/// Converts `glsl::syntax::TranslationUnit`: one model node per top-level
/// external declaration, in order.
#[verifier::external_body]
fn unit_nodes(tu: syntax::TranslationUnit) -> (r: Vec<Node>) {
    let mut items: Vec<Node> = Vec::new();
    for ed in ((tu.0).0).into_iter() {
        items.push(node_of_external(ed));
    }
    items
}

/// Converts `glsl::syntax::ExternalDeclaration`: the three node kinds the
/// reflection reads are converted in full, every other kind is opaque.
#[verifier::external_body]
fn node_of_external(ed: syntax::ExternalDeclaration) -> (r: Node) {
    match ed {
        ExternalDeclaration::Preprocessor(Preprocessor::Version(v)) => Node::Version(version_node(v)),
        ExternalDeclaration::Declaration(syntax::Declaration::InitDeclaratorList(l)) => {
            Node::Declaration(var_decl_node(l.head))
        },
        ExternalDeclaration::Declaration(syntax::Declaration::Block(b)) => Node::Block(block_node(b)),
        _ => Node::Other,
    }
}

/// Converts `glsl::syntax::PreprocessorVersion`: version number and profile.
#[verifier::external_body]
fn version_node(v: syntax::PreprocessorVersion) -> (r: VersionDirective) {
    let profile = match v.profile {
        Some(PreprocessorVersionProfile::Core) => Some(Profile::Core),
        Some(PreprocessorVersionProfile::Compatibility) => Some(Profile::Compatibility),
        Some(PreprocessorVersionProfile::ES) => Some(Profile::Es),
        None => None,
    };
    VersionDirective { version: v.version, profile }
}

/// Converts `glsl::syntax::SingleDeclaration`: name, qualifier list, the
/// `Debug` rendering of the type specifier, and the declaration's own array
/// specifier.
#[verifier::external_body]
fn var_decl_node(d: syntax::SingleDeclaration) -> (r: VarDecl) {
    VarDecl {
        qualifiers: qualifier_nodes(d.ty.qualifier),
        ty_name: format!("{:?}", d.ty.ty.ty),
        name: d.name.map(|i| i.0),
        array: d.array_specifier.map(array_spec_node),
    }
}

/// Converts `glsl::syntax::Block`: qualifier list, block name, fields, and
/// the optional named instance.
#[verifier::external_body]
fn block_node(b: syntax::Block) -> (r: BlockDecl) {
    let mut fields: Vec<FieldDecl> = Vec::new();
    for f in b.fields.into_iter() {
        fields.push(field_node(f));
    }
    BlockDecl {
        qualifiers: qualifier_nodes(Some(b.qualifier)),
        name: b.name.0,
        fields,
        instance: b.identifier.map(declared_id_node),
    }
}

/// Converts `glsl::syntax::StructFieldSpecifier`: the `Debug` rendering of
/// the field's type specifier and its declared identifiers.
#[verifier::external_body]
fn field_node(f: syntax::StructFieldSpecifier) -> (r: FieldDecl) {
    let mut identifiers: Vec<DeclaredId> = Vec::new();
    for i in (f.identifiers.0).into_iter() {
        identifiers.push(declared_id_node(i));
    }
    FieldDecl { ty_name: format!("{:?}", f.ty.ty), identifiers }
}

/// Converts `glsl::syntax::ArrayedIdentifier`: the identifier's text and its
/// own array specifier.
#[verifier::external_body]
fn declared_id_node(i: syntax::ArrayedIdentifier) -> (r: DeclaredId) {
    DeclaredId { name: (i.ident).0, array: i.array_spec.map(array_spec_node) }
}

/// Converts an optional `glsl::syntax::TypeQualifier`: its qualifier
/// entries, in order; an absent qualifier gives the empty list.
#[verifier::external_body]
fn qualifier_nodes(q: Option<syntax::TypeQualifier>) -> (r: Vec<Qualifier>) {
    let mut out: Vec<Qualifier> = Vec::new();
    if let Some(q) = q {
        for spec in (q.qualifiers.0).into_iter() {
            out.push(qualifier_node(spec));
        }
    }
    out
}

/// Converts `glsl::syntax::TypeQualifierSpec`: storage qualifiers are kept,
/// every other qualifier kind carries nothing the reflection reads.
#[verifier::external_body]
fn qualifier_node(s: syntax::TypeQualifierSpec) -> (r: Qualifier) {
    match s {
        TypeQualifierSpec::Storage(sq) => Qualifier::Storage(storage_node(sq)),
        _ => Qualifier::Other,
    }
}

/// Converts `glsl::syntax::StorageQualifier`, variant for variant. The type
/// names a `subroutine` qualifier may list are dropped: the reflection reads
/// none of them.
#[verifier::external_body]
fn storage_node(s: syntax::StorageQualifier) -> (r: Storage) {
    match s {
        StorageQualifier::Const => Storage::Const, StorageQualifier::InOut => Storage::InOut,
        StorageQualifier::In => Storage::In, StorageQualifier::Out => Storage::Out,
        StorageQualifier::Centroid => Storage::Centroid, StorageQualifier::Patch => Storage::Patch,
        StorageQualifier::Sample => Storage::Sample, StorageQualifier::Uniform => Storage::Uniform,
        StorageQualifier::Attribute => Storage::Attribute, StorageQualifier::Varying => Storage::Varying,
        StorageQualifier::Buffer => Storage::Buffer, StorageQualifier::Shared => Storage::Shared,
        StorageQualifier::Coherent => Storage::Coherent, StorageQualifier::Volatile => Storage::Volatile,
        StorageQualifier::Restrict => Storage::Restrict, StorageQualifier::ReadOnly => Storage::ReadOnly,
        StorageQualifier::WriteOnly => Storage::WriteOnly, StorageQualifier::Subroutine(_) => Storage::Subroutine,
    }
}

/// Converts `glsl::syntax::ArraySpecifier`: its dimensions, in order.
#[verifier::external_body]
fn array_spec_node(a: syntax::ArraySpecifier) -> (r: ArraySpec) {
    let mut dims: Vec<DimSpec> = Vec::new();
    for d in (a.dimensions.0).into_iter() {
        dims.push(dim_node(d));
    }
    ArraySpec { dims }
}

/// Converts `glsl::syntax::ArraySpecifierDimension`: `[]` or a sized
/// dimension.
#[verifier::external_body]
fn dim_node(d: syntax::ArraySpecifierDimension) -> (r: DimSpec) {
    match d {
        ArraySpecifierDimension::Unsized => DimSpec::Unsized,
        ArraySpecifierDimension::ExplicitlySized(e) => DimSpec::Sized(size_expr_node(*e)),
    }
}

/// Converts `glsl::syntax::Expr` as far as array sizes go: the two literal
/// integer constant forms are kept, everything else is unresolvable.
#[verifier::external_body]
fn size_expr_node(e: syntax::Expr) -> (r: SizeExpr) {
    match e {
        Expr::IntConst(x) => SizeExpr::IntConst(x),
        Expr::UIntConst(x) => SizeExpr::UIntConst(x),
        _ => SizeExpr::Other,
    }
}

} // verus!
