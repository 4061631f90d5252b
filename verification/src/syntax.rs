//! The crate's own model of a parsed shader.
//!
//! A translation unit is a sequence of top-level nodes. Only the node kinds
//! the reflection reads are modelled in full: the version directive, a single
//! variable declaration, and an interface block. Every other kind of
//! top-level construct (function definitions, precision statements, the other
//! preprocessor directives) contributes nothing to a shader's external
//! interface and is kept as [`Node::Other`].
//!
//! Each type with heap-allocated contents has a ghost view (`...View`) over
//! `Seq`, so that contracts can speak of values mathematically.

use vstd::prelude::*;

verus! {

/// The size expression inside one array-specifier dimension.
///
/// Only literal integer constants are ever resolved; every other expression
/// form (an identifier, arithmetic, a call) is kept as `Other` and resolves
/// to "no dimension".
#[derive(Clone, Copy, Debug, PartialEq, Eq)]
pub enum SizeExpr {
    IntConst(i32),
    UIntConst(u32),
    Other,
}

/// One dimension of an array specifier: `[e]` or `[]`.
#[derive(Clone, Copy, Debug, PartialEq, Eq)]
pub enum DimSpec {
    Sized(SizeExpr),
    Unsized,
}

/// An array specifier as written in source: one bracket group per entry.
#[derive(Clone, Debug, PartialEq, Eq)]
pub struct ArraySpec {
    pub dims: Vec<DimSpec>,
}

/// The profile name a version directive may carry.
#[derive(Clone, Copy, Debug, PartialEq, Eq)]
pub enum Profile {
    Core,
    Compatibility,
    Es,
}

/// A `#version` directive: number and optional profile.
#[derive(Clone, Copy, Debug, PartialEq, Eq)]
pub struct VersionDirective {
    pub version: u16,
    pub profile: Option<Profile>,
}

/// A storage qualifier keyword.
#[derive(Clone, Copy, Debug, PartialEq, Eq)]
pub enum Storage {
    Const,
    InOut,
    In,
    Out,
    Centroid,
    Patch,
    Sample,
    Uniform,
    Attribute,
    Varying,
    Buffer,
    Shared,
    Coherent,
    Volatile,
    Restrict,
    ReadOnly,
    WriteOnly,
    Subroutine,
}

/// One entry of a declaration's qualifier list. Qualifiers that are not
/// storage qualifiers (layout, precision, interpolation, ...) carry nothing
/// the reflection reads.
#[derive(Clone, Copy, Debug, PartialEq, Eq)]
pub enum Qualifier {
    Storage(Storage),
    Other,
}

/// An identifier together with its own array specifier, as in `inst[2]`.
#[derive(Clone, Debug, PartialEq, Eq)]
pub struct DeclaredId {
    pub name: String,
    pub array: Option<ArraySpec>,
}

/// A single top-level variable declaration.
///
/// `array` is the array specifier written on the declared name itself,
/// distinct from any array specifier on the type.
#[derive(Clone, Debug, PartialEq, Eq)]
pub struct VarDecl {
    pub qualifiers: Vec<Qualifier>,
    pub ty_name: String,
    pub name: Option<String>,
    pub array: Option<ArraySpec>,
}

/// One field statement inside an interface block. The grammar allows several
/// identifiers in one statement; the reflection reads only the first.
#[derive(Clone, Debug, PartialEq, Eq)]
pub struct FieldDecl {
    pub ty_name: String,
    pub identifiers: Vec<DeclaredId>,
}

/// An interface block: qualifiers, block type name, fields, and optionally a
/// named instance.
#[derive(Clone, Debug, PartialEq, Eq)]
pub struct BlockDecl {
    pub qualifiers: Vec<Qualifier>,
    pub name: String,
    pub fields: Vec<FieldDecl>,
    pub instance: Option<DeclaredId>,
}

/// One top-level node of a translation unit.
#[derive(Clone, Debug, PartialEq, Eq)]
pub enum Node {
    Version(VersionDirective),
    Declaration(VarDecl),
    Block(BlockDecl),
    Other,
}

/// A whole parsed shader, in lexical order.
#[derive(Clone, Debug, PartialEq, Eq)]
pub struct Program {
    pub items: Vec<Node>,
}

// ------------------------------------------------------------------
// Ghost views
// ------------------------------------------------------------------

#[verifier::ext_equal]
pub ghost struct DeclaredIdView {
    pub name: Seq<char>,
    pub array: Option<Seq<DimSpec>>,
}

#[verifier::ext_equal]
pub ghost struct VarDeclView {
    pub qualifiers: Seq<Qualifier>,
    pub ty_name: Seq<char>,
    pub name: Option<Seq<char>>,
    pub array: Option<Seq<DimSpec>>,
}

#[verifier::ext_equal]
pub ghost struct FieldDeclView {
    pub ty_name: Seq<char>,
    pub identifiers: Seq<DeclaredIdView>,
}

#[verifier::ext_equal]
pub ghost struct BlockDeclView {
    pub qualifiers: Seq<Qualifier>,
    pub name: Seq<char>,
    pub fields: Seq<FieldDeclView>,
    pub instance: Option<DeclaredIdView>,
}

#[verifier::ext_equal]
pub ghost enum NodeView {
    Version(VersionDirective),
    Declaration(VarDeclView),
    Block(BlockDeclView),
    Other,
}

impl View for SizeExpr {
    type V = SizeExpr;

    open spec fn view(&self) -> SizeExpr {
        *self
    }
}

impl DeepView for SizeExpr {
    type V = SizeExpr;

    open spec fn deep_view(&self) -> SizeExpr {
        *self
    }
}

impl View for DimSpec {
    type V = DimSpec;

    open spec fn view(&self) -> DimSpec {
        *self
    }
}

impl DeepView for DimSpec {
    type V = DimSpec;

    open spec fn deep_view(&self) -> DimSpec {
        *self
    }
}

impl View for ArraySpec {
    type V = Seq<DimSpec>;

    open spec fn view(&self) -> Seq<DimSpec> {
        self.dims@
    }
}

impl DeepView for ArraySpec {
    type V = Seq<DimSpec>;

    open spec fn deep_view(&self) -> Seq<DimSpec> {
        self@
    }
}

impl View for Qualifier {
    type V = Qualifier;

    open spec fn view(&self) -> Qualifier {
        *self
    }
}

impl DeepView for Qualifier {
    type V = Qualifier;

    open spec fn deep_view(&self) -> Qualifier {
        *self
    }
}

impl View for DeclaredId {
    type V = DeclaredIdView;

    open spec fn view(&self) -> DeclaredIdView {
        DeclaredIdView { name: self.name@, array: self.array.deep_view() }
    }
}

impl DeepView for DeclaredId {
    type V = DeclaredIdView;

    open spec fn deep_view(&self) -> DeclaredIdView {
        self@
    }
}

impl View for VarDecl {
    type V = VarDeclView;

    open spec fn view(&self) -> VarDeclView {
        VarDeclView {
            qualifiers: self.qualifiers@,
            ty_name: self.ty_name@,
            name: self.name.deep_view(),
            array: self.array.deep_view(),
        }
    }
}

impl DeepView for VarDecl {
    type V = VarDeclView;

    open spec fn deep_view(&self) -> VarDeclView {
        self@
    }
}

impl View for FieldDecl {
    type V = FieldDeclView;

    open spec fn view(&self) -> FieldDeclView {
        FieldDeclView { ty_name: self.ty_name@, identifiers: self.identifiers.deep_view() }
    }
}

impl DeepView for FieldDecl {
    type V = FieldDeclView;

    open spec fn deep_view(&self) -> FieldDeclView {
        self@
    }
}

impl View for BlockDecl {
    type V = BlockDeclView;

    open spec fn view(&self) -> BlockDeclView {
        BlockDeclView {
            qualifiers: self.qualifiers@,
            name: self.name@,
            fields: self.fields.deep_view(),
            instance: self.instance.deep_view(),
        }
    }
}

impl DeepView for BlockDecl {
    type V = BlockDeclView;

    open spec fn deep_view(&self) -> BlockDeclView {
        self@
    }
}

impl View for Node {
    type V = NodeView;

    open spec fn view(&self) -> NodeView {
        match self {
            Node::Version(v) => NodeView::Version(*v),
            Node::Declaration(d) => NodeView::Declaration(d@),
            Node::Block(b) => NodeView::Block(b@),
            Node::Other => NodeView::Other,
        }
    }
}

impl DeepView for Node {
    type V = NodeView;

    open spec fn deep_view(&self) -> NodeView {
        self@
    }
}

impl View for Program {
    type V = Seq<NodeView>;

    open spec fn view(&self) -> Seq<NodeView> {
        self.items.deep_view()
    }
}

impl DeepView for Program {
    type V = Seq<NodeView>;

    open spec fn deep_view(&self) -> Seq<NodeView> {
        self@
    }
}

} // verus!
