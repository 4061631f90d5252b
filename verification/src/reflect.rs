//! The reflection engine: classification of storage qualifiers, resolution
//! of array dimensions, collection of interface-block fields, and the single
//! traversal that builds a [`ShaderInfo`] from a parsed program.
//!
//! The intended result is pinned down by the spec functions here:
//! [`reflect_nodes`] folds [`step_node`] over the program's top-level nodes,
//! and every exec function is proved to produce exactly that.

use vstd::prelude::*;

use crate::info::BlockInfo;
use crate::info::BlockInfoView;
use crate::info::FieldInfo;
use crate::info::FieldInfoView;
use crate::info::ShaderInfo;
use crate::info::ShaderInfoView;
use crate::info::VarInfo;
use crate::info::VarInfoView;
use crate::info::empty_info;
use crate::scan::has_version_overflow;
use crate::scan::version_overflows;
use crate::syntax::ArraySpec;
use crate::syntax::BlockDecl;
use crate::syntax::BlockDeclView;
use crate::syntax::DimSpec;
use crate::syntax::FieldDecl;
use crate::syntax::FieldDeclView;
use crate::syntax::Node;
use crate::syntax::NodeView;
use crate::syntax::Profile;
use crate::syntax::Program;
use crate::syntax::Qualifier;
use crate::syntax::SizeExpr;
use crate::syntax::Storage;
use crate::syntax::VarDecl;
use crate::syntax::VarDeclView;
use crate::syntax::VersionDirective;
use crate::text::decimal_str;
use crate::text::spec_decimal;

verus! {

// ------------------------------------------------------------------
// Storage qualifiers and interface roles
// ------------------------------------------------------------------

/// The interface role of one variable, derived from its storage qualifier.
/// Only the exact qualifiers `in`, `out` and `uniform` classify; everything
/// else — a compound qualifier such as `inout` included — is left
/// unclassified.
#[derive(Clone, Copy, Debug, PartialEq, Eq)]
pub enum InterfaceRole {
    Input,
    Output,
    Uniform,
    Unclassified,
}

/// The textual form of a storage qualifier, as stored in a descriptor.
pub open spec fn spec_storage_label(s: Storage) -> Seq<char> {
    match s {
        Storage::Const => "Const"@,
        Storage::InOut => "InOut"@,
        Storage::In => "In"@,
        Storage::Out => "Out"@,
        Storage::Centroid => "Centroid"@,
        Storage::Patch => "Patch"@,
        Storage::Sample => "Sample"@,
        Storage::Uniform => "Uniform"@,
        Storage::Attribute => "Attribute"@,
        Storage::Varying => "Varying"@,
        Storage::Buffer => "Buffer"@,
        Storage::Shared => "Shared"@,
        Storage::Coherent => "Coherent"@,
        Storage::Volatile => "Volatile"@,
        Storage::Restrict => "Restrict"@,
        Storage::ReadOnly => "ReadOnly"@,
        Storage::WriteOnly => "WriteOnly"@,
        Storage::Subroutine => "Subroutine"@,
    }
}

/// The textual form of a storage qualifier.
pub fn storage_label(s: &Storage) -> (r: &'static str)
    ensures
        r@ == spec_storage_label(*s),
{
    match s {
        Storage::Const => "Const",
        Storage::InOut => "InOut",
        Storage::In => "In",
        Storage::Out => "Out",
        Storage::Centroid => "Centroid",
        Storage::Patch => "Patch",
        Storage::Sample => "Sample",
        Storage::Uniform => "Uniform",
        Storage::Attribute => "Attribute",
        Storage::Varying => "Varying",
        Storage::Buffer => "Buffer",
        Storage::Shared => "Shared",
        Storage::Coherent => "Coherent",
        Storage::Volatile => "Volatile",
        Storage::Restrict => "Restrict",
        Storage::ReadOnly => "ReadOnly",
        Storage::WriteOnly => "WriteOnly",
        Storage::Subroutine => "Subroutine",
    }
}

/// The first storage qualifier of a qualifier list, if any. Later storage
/// qualifiers do not override it.
pub open spec fn spec_first_storage(qs: Seq<Qualifier>) -> Option<Storage>
    decreases qs.len(),
{
    if qs.len() == 0 {
        None
    } else {
        match qs[0] {
            Qualifier::Storage(s) => Some(s),
            Qualifier::Other => spec_first_storage(qs.drop_first()),
        }
    }
}

/// The first storage qualifier of a qualifier list, if any.
pub fn first_storage(qs: &Vec<Qualifier>) -> (r: Option<Storage>)
    ensures
        r == spec_first_storage(qs@),
{
    let n = qs.len();
    proof {
        assert(qs@.skip(0) =~= qs@);
    }
    for i in 0..n
        invariant
            n == qs@.len(),
            spec_first_storage(qs@) == spec_first_storage(qs@.skip(i as int)),
            forall|j: int| 0 <= j < i ==> qs@[j] is Other,
    {
        match qs[i] {
            Qualifier::Storage(s) => {
                proof {
                    assert(qs@.skip(i as int)[0] == qs@[i as int]);
                }
                return Some(s);
            },
            Qualifier::Other => {
                proof {
                    assert(qs@.skip(i as int).drop_first() =~= qs@.skip(i + 1));
                    assert(qs@.skip(i as int)[0] == qs@[i as int]);
                }
            },
        }
    }
    proof {
        assert(qs@.skip(n as int).len() == 0);
    }
    None
}

/// The role a storage qualifier classifies as.
pub open spec fn spec_role(s: Option<Storage>) -> InterfaceRole {
    match s {
        Some(Storage::In) => InterfaceRole::Input,
        Some(Storage::Out) => InterfaceRole::Output,
        Some(Storage::Uniform) => InterfaceRole::Uniform,
        _ => InterfaceRole::Unclassified,
    }
}

/// The role a storage qualifier classifies as.
pub fn role_of(s: &Option<Storage>) -> (r: InterfaceRole)
    ensures
        r == spec_role(*s),
{
    match s {
        Some(Storage::In) => InterfaceRole::Input,
        Some(Storage::Out) => InterfaceRole::Output,
        Some(Storage::Uniform) => InterfaceRole::Uniform,
        _ => InterfaceRole::Unclassified,
    }
}

/// The storage field of a descriptor: the label of the first storage
/// qualifier, if any.
pub open spec fn spec_storage_string(qs: Seq<Qualifier>) -> Option<Seq<char>> {
    match spec_first_storage(qs) {
        Some(s) => Some(spec_storage_label(s)),
        None => None,
    }
}

/// The storage field of a descriptor for an already-extracted qualifier.
fn storage_string(s: &Option<Storage>) -> (r: Option<String>)
    ensures
        r.deep_view() == (match *s {
            Some(q) => Some(spec_storage_label(q)),
            None => None::<Seq<char>>,
        }),
{
    match s {
        Some(q) => Some(String::from_str(storage_label(q))),
        None => None,
    }
}

// ------------------------------------------------------------------
// Array dimension resolution
// ------------------------------------------------------------------

/// The count one size expression resolves to: a literal integer constant is
/// cast to `usize`; any other expression form stays unresolved.
pub open spec fn spec_size_value(e: SizeExpr) -> Option<usize> {
    match e {
        SizeExpr::IntConst(x) => Some(x as usize),
        SizeExpr::UIntConst(x) => Some(x as usize),
        SizeExpr::Other => None,
    }
}

/// The resolved array dimension of a declaration:
/// * no array specifier — `None` (a scalar);
/// * exactly one unsized dimension `[]` — an empty sequence;
/// * exactly one dimension sized by an integer literal — that one size;
/// * anything else (an unresolvable size, several dimensions) — `None`.
pub open spec fn spec_resolve(a: Option<Seq<DimSpec>>) -> Option<Seq<usize>> {
    match a {
        None => None,
        Some(dims) => if dims.len() != 1 {
            None
        } else {
            match dims[0] {
                DimSpec::Unsized => Some(Seq::empty()),
                DimSpec::Sized(e) => match spec_size_value(e) {
                    Some(n) => Some(seq![n]),
                    None => None,
                },
            }
        },
    }
}

/// Resolves a declaration's array specifier to its dimension.
pub fn resolve_array(a: &Option<ArraySpec>) -> (r: Option<Vec<usize>>)
    ensures
        r.deep_view() == spec_resolve(a.deep_view()),
{
    let r: Option<Vec<usize>> = match a {
        None => None,
        Some(spec) => {
            if spec.dims.len() != 1 {
                None
            } else {
                match spec.dims[0] {
                    DimSpec::Unsized => Some(Vec::new()),
                    DimSpec::Sized(e) => match e {
                        SizeExpr::IntConst(x) => Some(vec![#[verifier::truncate] (x as usize)]),
                        SizeExpr::UIntConst(x) => Some(vec![x as usize]),
                        SizeExpr::Other => None,
                    },
                }
            }
        },
    };
    proof {
        assert(r.deep_view() =~~= spec_resolve(a.deep_view()));
    }
    r
}

// ------------------------------------------------------------------
// Descriptors of one declaration
// ------------------------------------------------------------------

/// The descriptor a named top-level declaration produces.
pub open spec fn spec_var_info(d: VarDeclView) -> VarInfoView
    recommends
        d.name is Some,
{
    VarInfoView {
        name: match d.name {
            Some(n) => n,
            None => Seq::empty(),
        },
        storage: spec_storage_string(d.qualifiers),
        ty_name: d.ty_name,
        array: spec_resolve(d.array),
    }
}

/// The descriptor a named block instance produces: the instance name, typed
/// with the block's name, qualified by the block's own qualifier list, with
/// the array dimension of the instance identifier itself.
pub open spec fn spec_instance_var(b: BlockDeclView) -> VarInfoView
    recommends
        b.instance is Some,
{
    VarInfoView {
        name: match b.instance {
            Some(i) => i.name,
            None => Seq::empty(),
        },
        storage: spec_storage_string(b.qualifiers),
        ty_name: b.name,
        array: spec_resolve(
            match b.instance {
                Some(i) => i.array,
                None => None,
            },
        ),
    }
}

/// The descriptor one block field produces, if any: a field statement with
/// no identifier at all is skipped; of several identifiers only the first is
/// read.
pub open spec fn spec_field_info(f: FieldDeclView) -> Option<FieldInfoView> {
    if f.identifiers.len() == 0 {
        None
    } else {
        Some(
            FieldInfoView {
                name: f.identifiers[0].name,
                ty_name: f.ty_name,
                array: spec_resolve(f.identifiers[0].array),
            },
        )
    }
}

/// The field descriptors of a block's member list, in declaration order.
pub open spec fn spec_fields(fs: Seq<FieldDeclView>) -> Seq<FieldInfoView>
    decreases fs.len(),
{
    if fs.len() == 0 {
        Seq::empty()
    } else {
        let front = spec_fields(fs.drop_last());
        match spec_field_info(fs.last()) {
            Some(fi) => front.push(fi),
            None => front,
        }
    }
}

/// The descriptor of a block type: its name and its fields.
pub open spec fn spec_block_info(b: BlockDeclView) -> BlockInfoView {
    BlockInfoView { name: b.name, fields: spec_fields(b.fields) }
}

// ------------------------------------------------------------------
// One traversal step
// ------------------------------------------------------------------

/// Appends one variable descriptor: always to `vars`, and to the one
/// role sequence its classification selects, if any.
pub open spec fn push_classified(s: ShaderInfoView, v: VarInfoView, role: InterfaceRole) -> ShaderInfoView {
    let s1 = ShaderInfoView { vars: s.vars.push(v), ..s };
    match role {
        InterfaceRole::Input => ShaderInfoView { inputs: s1.inputs.push(v), ..s1 },
        InterfaceRole::Output => ShaderInfoView { outputs: s1.outputs.push(v), ..s1 },
        InterfaceRole::Uniform => ShaderInfoView { uniforms: s1.uniforms.push(v), ..s1 },
        InterfaceRole::Unclassified => s1,
    }
}

/// The display form of a profile name.
pub open spec fn spec_profile_label(p: Profile) -> Seq<char> {
    match p {
        Profile::Core => "core"@,
        Profile::Compatibility => "compatibility"@,
        Profile::Es => "es"@,
    }
}

/// The display form of a profile name.
pub fn profile_label(p: &Profile) -> (r: &'static str)
    ensures
        r@ == spec_profile_label(*p),
{
    match p {
        Profile::Core => "core",
        Profile::Compatibility => "compatibility",
        Profile::Es => "es",
    }
}

/// The display string of a version directive: the number, followed by the
/// lower-cased profile name when one is present.
pub open spec fn spec_version_str(v: VersionDirective) -> Seq<char> {
    match v.profile {
        Some(p) => spec_decimal(v.version as nat) + " "@ + spec_profile_label(p),
        None => spec_decimal(v.version as nat),
    }
}

/// What a version directive contributes: the version fields are replaced,
/// the descriptor sequences stay.
pub open spec fn step_version(s: ShaderInfoView, v: VersionDirective) -> ShaderInfoView {
    ShaderInfoView { version: v.version as usize, version_str: spec_version_str(v), ..s }
}

/// What a single declaration contributes: one classified descriptor when it
/// has a name, nothing otherwise.
pub open spec fn step_decl(s: ShaderInfoView, d: VarDeclView) -> ShaderInfoView {
    match d.name {
        Some(_) => push_classified(s, spec_var_info(d), spec_role(spec_first_storage(d.qualifiers))),
        None => s,
    }
}

/// What a block declaration contributes: always its block descriptor, and a
/// classified variable descriptor when a named instance exists.
pub open spec fn step_block(s: ShaderInfoView, b: BlockDeclView) -> ShaderInfoView {
    let s1 = match b.instance {
        Some(_) => push_classified(s, spec_instance_var(b), spec_role(spec_first_storage(b.qualifiers))),
        None => s,
    };
    ShaderInfoView { blocks: s1.blocks.push(spec_block_info(b)), ..s1 }
}

/// What one top-level node contributes to the reflection.
pub open spec fn step_node(s: ShaderInfoView, n: NodeView) -> ShaderInfoView {
    match n {
        NodeView::Version(v) => step_version(s, v),
        NodeView::Declaration(d) => step_decl(s, d),
        NodeView::Block(b) => step_block(s, b),
        NodeView::Other => s,
    }
}

/// The reflection of a whole program: the fold of [`step_node`] over its
/// top-level nodes, in lexical order, starting from the empty reflection.
pub open spec fn reflect_nodes(nodes: Seq<NodeView>) -> ShaderInfoView
    decreases nodes.len(),
{
    if nodes.len() == 0 {
        empty_info()
    } else {
        step_node(reflect_nodes(nodes.drop_last()), nodes.last())
    }
}

// ------------------------------------------------------------------
// The exec traversal
// ------------------------------------------------------------------

impl ShaderInfo {
    /// Appends one variable descriptor under its role.
    fn push_var(&mut self, info: VarInfo, role: InterfaceRole)
        ensures
            final(self)@ == push_classified(old(self)@, info@, role),
    {
        let ghost iv = info@;
        match role {
            InterfaceRole::Input => {
                let copy = info.clone();
                self.inputs.push(copy);
            },
            InterfaceRole::Output => {
                let copy = info.clone();
                self.outputs.push(copy);
            },
            InterfaceRole::Uniform => {
                let copy = info.clone();
                self.uniforms.push(copy);
            },
            InterfaceRole::Unclassified => {},
        }
        self.vars.push(info);
        proof {
            assert(self@ =~~= push_classified(old(self)@, iv, role));
        }
    }

    /// Records the version directive: number and display string.
    pub fn visit_preprocessor_version(&mut self, version: &VersionDirective)
        ensures
            final(self)@ == step_version(old(self)@, *version),
    {
        self.version = version.version as usize;
        let mut s = decimal_str(self.version);
        match &version.profile {
            Some(profile) => {
                s.append(" ");
                s.append(profile_label(profile));
                self.version_str = s;
            },
            None => {
                self.version_str = s;
            },
        }
        proof {
            assert(self@ =~~= step_version(old(self)@, *version));
        }
    }

    /// Reflects one top-level declaration. A declaration without a name
    /// produces nothing; a named one produces exactly one descriptor.
    pub fn visit_single_declaration(&mut self, declaration: &VarDecl)
        ensures
            final(self)@ == step_decl(old(self)@, declaration@),
    {
        match &declaration.name {
            Some(name) => {
                let storage = first_storage(&declaration.qualifiers);
                let info = VarInfo {
                    name: name.clone(),
                    storage: storage_string(&storage),
                    ty_name: declaration.ty_name.clone(),
                    array: resolve_array(&declaration.array),
                };
                proof {
                    assert(info@ =~~= spec_var_info(declaration@));
                }
                let role = role_of(&storage);
                self.push_var(info, role);
            },
            None => {},
        }
    }

    /// Reflects one interface block: its block descriptor always, and, when
    /// it declares a named instance, one classified variable descriptor for
    /// that instance. A block without an instance contributes only the block
    /// descriptor; its fields are not promoted to top-level variables.
    pub fn visit_block(&mut self, block: &BlockDecl)
        ensures
            final(self)@ == step_block(old(self)@, block@),
    {
        let mut block_info = BlockInfo::default();
        block_info.name = block.name.clone();
        let n = block.fields.len();
        for i in 0..n
            invariant
                n == block.fields@.len(),
                block_info@.name == block.name@,
                block_info@.fields == spec_fields(block.fields.deep_view().take(i as int)),
        {
            block_info.visit_struct_field_specifier(&block.fields[i]);
            proof {
                let dv = block.fields.deep_view();
                assert(dv.take(i + 1).drop_last() =~= dv.take(i as int));
                assert(dv.take(i + 1).last() == dv[i as int]);
            }
        }
        proof {
            assert(block.fields.deep_view().take(n as int) =~= block.fields.deep_view());
            assert(block_info@ =~~= spec_block_info(block@));
        }
        match &block.instance {
            Some(identifier) => {
                let storage = first_storage(&block.qualifiers);
                let var_info = VarInfo {
                    name: identifier.name.clone(),
                    storage: storage_string(&storage),
                    ty_name: block.name.clone(),
                    array: resolve_array(&identifier.array),
                };
                proof {
                    assert(var_info@ =~~= spec_instance_var(block@));
                }
                let role = role_of(&storage);
                self.push_var(var_info, role);
            },
            None => {},
        }
        self.blocks.push(block_info);
        proof {
            assert(self@ =~~= step_block(old(self)@, block@));
        }
    }
}

impl BlockInfo {
    /// Appends the descriptor of one block field, if the statement declares
    /// an identifier to read.
    pub fn visit_struct_field_specifier(&mut self, field_spec: &FieldDecl)
        ensures
            final(self)@.name == old(self)@.name,
            final(self)@.fields == (match spec_field_info(field_spec@) {
                Some(fi) => old(self)@.fields.push(fi),
                None => old(self)@.fields,
            }),
    {
        if field_spec.identifiers.len() > 0 {
            let identifier = &field_spec.identifiers[0];
            let info = FieldInfo {
                name: identifier.name.clone(),
                ty_name: field_spec.ty_name.clone(),
                array: resolve_array(&identifier.array),
            };
            proof {
                assert(info@ =~~= spec_field_info(field_spec@).unwrap());
            }
            self.fields.push(info);
        }
    }
}

/// Reflects a whole parsed program: one pass over its top-level nodes, in
/// lexical order.
pub fn reflect(program: &Program) -> (r: ShaderInfo)
    ensures
        r@ == reflect_nodes(program@),
{
    let mut info = ShaderInfo::default();
    let n = program.items.len();
    for i in 0..n
        invariant
            n == program.items@.len(),
            program@.len() == n,
            info@ == reflect_nodes(program@.take(i as int)),
    {
        match &program.items[i] {
            Node::Version(v) => info.visit_preprocessor_version(v),
            Node::Declaration(d) => info.visit_single_declaration(d),
            Node::Block(b) => info.visit_block(b),
            Node::Other => {},
        }
        proof {
            assert(program@.take(i + 1).drop_last() =~= program@.take(i as int));
            assert(program@.take(i + 1).last() == program@[i as int]);
        }
    }
    proof {
        assert(program@.take(n as int) =~= program@);
    }
    info
}

/// The external parser could not produce a syntax tree. Carries the
/// parser's own diagnostic text.
#[derive(Debug, PartialEq, Eq)]
pub struct ParseFailure {
    pub message: String,
}

impl View for ParseFailure {
    type V = Seq<char>;

    open spec fn view(&self) -> Seq<char> {
        self.message@
    }
}

/// What `get_info` computes, as a function of the source text alone: the
/// reflection of the tree the text parses to, or nothing when it does not
/// parse.
pub open spec fn spec_get_info(source: Seq<char>) -> Option<ShaderInfoView> {
    match crate::parse::parsed_of(source) {
        Some(nodes) => Some(reflect_nodes(nodes)),
        None => None,
    }
}

/// Parses GLSL source text and reflects it.
///
/// Succeeds exactly on the texts the parser accepts, with the reflection
/// [`reflect`] computes on the parsed tree — so two runs on identical text
/// return structurally equal results. A failed parse is surfaced as a
/// [`ParseFailure`] carrying a diagnostic, never as a partial reflection
/// and never as an abort: a text carrying a `#version` directive whose
/// number does not fit sixteen bits — on which the outside parser would
/// abort rather than return — is screened out first and refused the same
/// way.
pub fn get_info(contents: &String) -> (r: Result<ShaderInfo, ParseFailure>)
    ensures
        (match r {
            Ok(info) => !has_version_overflow(contents@) && spec_get_info(contents@) == Some(
                info@,
            ),
            Err(_) => has_version_overflow(contents@) || spec_get_info(contents@) is None,
        }),
{
    if version_overflows(contents) {
        return Err(
            ParseFailure {
                message: String::from_str("version directive number does not fit 16 bits"),
            },
        );
    }
    match crate::parse::parse_nodes(contents.as_str()) {
        Ok(program) => {
            let info = reflect(&program);
            proof {
                assert(info@ == reflect_nodes(program@));
            }
            Ok(info)
        },
        Err(message) => Err(ParseFailure { message }),
    }
}

} // verus!
