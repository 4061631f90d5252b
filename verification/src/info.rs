//! The descriptor types a caller of the reflection consumes, together with
//! their ghost views and the small accessors offered on them.

use vstd::prelude::*;

use crate::text::ascii_lower;
use crate::text::decimal_str;
use crate::text::pluralise;
use crate::text::spec_decimal;
use crate::text::spec_lower;
use crate::text::spec_pluralise;

verus! {

/// Descriptor of one declared variable.
///
/// `array` encodes the resolved array dimension: `None` for a scalar,
/// `Some` of an empty vector for an unsized array, `Some` of a one-element
/// vector for an array of that fixed size.
#[derive(Debug, PartialEq, Eq)]
pub struct VarInfo {
    pub name: String,
    pub storage: Option<String>,
    pub ty_name: String,
    pub array: Option<Vec<usize>>,
}

/// Descriptor of one field of an interface block. Fields carry no storage
/// qualifier of their own: qualifiers apply to the block instance.
#[derive(Debug, PartialEq, Eq)]
pub struct FieldInfo {
    pub name: String,
    pub ty_name: String,
    pub array: Option<Vec<usize>>,
}

/// Descriptor of one interface block type: its name and its fields in
/// declaration order.
#[derive(Debug, PartialEq, Eq)]
pub struct BlockInfo {
    pub name: String,
    pub fields: Vec<FieldInfo>,
}

/// The full reflection of one shader: version information and every
/// descriptor found, in declaration order. `inputs`, `outputs` and
/// `uniforms` are filtered copies of `vars`, in the same order.
#[derive(Debug, PartialEq, Eq)]
pub struct ShaderInfo {
    pub version: usize,
    pub version_str: String,
    pub vars: Vec<VarInfo>,
    pub blocks: Vec<BlockInfo>,
    pub inputs: Vec<VarInfo>,
    pub outputs: Vec<VarInfo>,
    pub uniforms: Vec<VarInfo>,
}

// ------------------------------------------------------------------
// Ghost views
// ------------------------------------------------------------------

#[verifier::ext_equal]
pub ghost struct VarInfoView {
    pub name: Seq<char>,
    pub storage: Option<Seq<char>>,
    pub ty_name: Seq<char>,
    pub array: Option<Seq<usize>>,
}

#[verifier::ext_equal]
pub ghost struct FieldInfoView {
    pub name: Seq<char>,
    pub ty_name: Seq<char>,
    pub array: Option<Seq<usize>>,
}

#[verifier::ext_equal]
pub ghost struct BlockInfoView {
    pub name: Seq<char>,
    pub fields: Seq<FieldInfoView>,
}

#[verifier::ext_equal]
pub ghost struct ShaderInfoView {
    pub version: usize,
    pub version_str: Seq<char>,
    pub vars: Seq<VarInfoView>,
    pub blocks: Seq<BlockInfoView>,
    pub inputs: Seq<VarInfoView>,
    pub outputs: Seq<VarInfoView>,
    pub uniforms: Seq<VarInfoView>,
}

impl View for VarInfo {
    type V = VarInfoView;

    open spec fn view(&self) -> VarInfoView {
        VarInfoView {
            name: self.name@,
            storage: self.storage.deep_view(),
            ty_name: self.ty_name@,
            array: self.array.deep_view(),
        }
    }
}

impl DeepView for VarInfo {
    type V = VarInfoView;

    open spec fn deep_view(&self) -> VarInfoView {
        self@
    }
}

impl View for FieldInfo {
    type V = FieldInfoView;

    open spec fn view(&self) -> FieldInfoView {
        FieldInfoView {
            name: self.name@,
            ty_name: self.ty_name@,
            array: self.array.deep_view(),
        }
    }
}

impl DeepView for FieldInfo {
    type V = FieldInfoView;

    open spec fn deep_view(&self) -> FieldInfoView {
        self@
    }
}

impl View for BlockInfo {
    type V = BlockInfoView;

    open spec fn view(&self) -> BlockInfoView {
        BlockInfoView { name: self.name@, fields: self.fields.deep_view() }
    }
}

impl DeepView for BlockInfo {
    type V = BlockInfoView;

    open spec fn deep_view(&self) -> BlockInfoView {
        self@
    }
}

/// The reflection of a shader with nothing declared and no version
/// directive.
pub open spec fn empty_info() -> ShaderInfoView {
    ShaderInfoView {
        version: 0,
        version_str: Seq::empty(),
        vars: Seq::empty(),
        blocks: Seq::empty(),
        inputs: Seq::empty(),
        outputs: Seq::empty(),
        uniforms: Seq::empty(),
    }
}

impl View for ShaderInfo {
    type V = ShaderInfoView;

    open spec fn view(&self) -> ShaderInfoView {
        ShaderInfoView {
            version: self.version,
            version_str: self.version_str@,
            vars: self.vars.deep_view(),
            blocks: self.blocks.deep_view(),
            inputs: self.inputs.deep_view(),
            outputs: self.outputs.deep_view(),
            uniforms: self.uniforms.deep_view(),
        }
    }
}

impl DeepView for ShaderInfo {
    type V = ShaderInfoView;

    open spec fn deep_view(&self) -> ShaderInfoView {
        self@
    }
}

// ------------------------------------------------------------------
// Construction and cloning
// ------------------------------------------------------------------

impl Default for VarInfo {
    /// A descriptor with empty name and type and no qualifier or array.
    fn default() -> (r: VarInfo)
        ensures
            r@ == (VarInfoView {
                name: Seq::<char>::empty(),
                storage: None,
                ty_name: Seq::<char>::empty(),
                array: None,
            }),
    {
        let r = VarInfo { name: String::new(), storage: None, ty_name: String::new(), array: None };
        proof {
            assert(r@ =~= (VarInfoView {
                name: Seq::<char>::empty(),
                storage: None,
                ty_name: Seq::<char>::empty(),
                array: None,
            }));
        }
        r
    }
}

impl Default for FieldInfo {
    /// A descriptor with empty name and type and no array.
    fn default() -> (r: FieldInfo)
        ensures
            r@ == (FieldInfoView {
                name: Seq::<char>::empty(),
                ty_name: Seq::<char>::empty(),
                array: None,
            }),
    {
        let r = FieldInfo { name: String::new(), ty_name: String::new(), array: None };
        proof {
            assert(r@ =~= (FieldInfoView {
                name: Seq::<char>::empty(),
                ty_name: Seq::<char>::empty(),
                array: None,
            }));
        }
        r
    }
}

impl Default for BlockInfo {
    /// A descriptor with empty name and no fields.
    fn default() -> (r: BlockInfo)
        ensures
            r@ == (BlockInfoView { name: Seq::<char>::empty(), fields: Seq::<FieldInfoView>::empty() }),
    {
        let r = BlockInfo { name: String::new(), fields: Vec::new() };
        proof {
            assert(r@ =~= (BlockInfoView {
                name: Seq::<char>::empty(),
                fields: Seq::<FieldInfoView>::empty(),
            }));
        }
        r
    }
}

impl Default for ShaderInfo {
    /// The reflection of a shader with nothing declared: version zero and
    /// every sequence empty.
    fn default() -> (r: ShaderInfo)
        ensures
            r@ == empty_info(),
    {
        let r = ShaderInfo {
            version: 0,
            version_str: String::new(),
            vars: Vec::new(),
            blocks: Vec::new(),
            inputs: Vec::new(),
            outputs: Vec::new(),
            uniforms: Vec::new(),
        };
        proof {
            assert(r@ =~= empty_info());
        }
        r
    }
}

/// Clone of the resolved array dimension.
fn clone_array(array: &Option<Vec<usize>>) -> (r: Option<Vec<usize>>)
    ensures
        r.deep_view() == array.deep_view(),
{
    broadcast use vstd::std_specs::vec::vec_clone_deep_view_proof;

    match array {
        Some(v) => Some(v.clone()),
        None => None,
    }
}

impl Clone for VarInfo {
    /// A clone carries the same name, qualifier, type and array dimension.
    fn clone(&self) -> (r: VarInfo)
        ensures
            r@ == self@,
    {
        let storage = match &self.storage {
            Some(s) => Some(s.clone()),
            None => None,
        };
        VarInfo {
            name: self.name.clone(),
            storage,
            ty_name: self.ty_name.clone(),
            array: clone_array(&self.array),
        }
    }
}

impl Clone for FieldInfo {
    /// A clone carries the same name, type and array dimension.
    fn clone(&self) -> (r: FieldInfo)
        ensures
            r@ == self@,
    {
        FieldInfo {
            name: self.name.clone(),
            ty_name: self.ty_name.clone(),
            array: clone_array(&self.array),
        }
    }
}

// ------------------------------------------------------------------
// Accessors
// ------------------------------------------------------------------

/// The capability every descriptor kind shares: it has a name.
pub trait Declaration {
    /// The name, as a sequence of characters.
    spec fn spec_name(&self) -> Seq<char>;

    /// The declared name of this descriptor.
    fn get_name(&self) -> (r: &String)
        ensures
            r@ == self.spec_name(),
    ;
}

impl Declaration for VarInfo {
    open spec fn spec_name(&self) -> Seq<char> {
        self.name@
    }

    fn get_name(&self) -> (r: &String) {
        &self.name
    }
}

impl Declaration for FieldInfo {
    open spec fn spec_name(&self) -> Seq<char> {
        self.name@
    }

    fn get_name(&self) -> (r: &String) {
        &self.name
    }
}

impl Declaration for BlockInfo {
    open spec fn spec_name(&self) -> Seq<char> {
        self.name@
    }

    fn get_name(&self) -> (r: &String) {
        &self.name
    }
}

/// The names of a sequence of descriptors, in the same order.
pub open spec fn names_of<T: Declaration>(declarations: Seq<T>) -> Seq<Seq<char>> {
    Seq::new(declarations.len(), |i: int| declarations[i].spec_name())
}

/// The names of the given descriptors, in order.
fn get_names<T: Declaration>(declarations: &Vec<T>) -> (r: Vec<String>)
    ensures
        r.deep_view() == names_of(declarations@),
{
    let mut r: Vec<String> = Vec::new();
    let n = declarations.len();
    for i in 0..n
        invariant
            n == declarations@.len(),
            r@.len() == i,
            forall|j: int| 0 <= j < i ==> r@[j]@ == declarations@[j].spec_name(),
    {
        r.push(declarations[i].get_name().clone());
    }
    proof {
        assert(r.deep_view() =~= names_of(declarations@));
    }
    r
}

/// What `array_str` renders: nothing for a scalar, `[]` for an unsized
/// array, the size in brackets for a fixed-size array.
pub open spec fn spec_array_str(array: Option<Seq<usize>>) -> Seq<char> {
    match array {
        Some(v) => if v.len() > 0 {
            "["@ + spec_decimal(v[0] as nat) + "]"@
        } else {
            "[]"@
        },
        None => ""@,
    }
}

/// The bracketed rendering of a resolved array dimension.
fn array_str(array: &Option<Vec<usize>>) -> (r: String)
    ensures
        r@ == spec_array_str(array.deep_view()),
{
    match array {
        Some(v) => {
            if v.len() > 0 {
                let mut r = String::from_str("[");
                r.append(decimal_str(v[0]).as_str());
                r.append("]");
                proof {
                    assert(r@ =~= spec_array_str(array.deep_view()));
                }
                r
            } else {
                String::from_str("[]")
            }
        },
        None => String::from_str(""),
    }
}

impl VarInfo {
    /// The bracketed rendering of this variable's array dimension.
    pub fn array_str(&self) -> (r: String)
        ensures
            r@ == spec_array_str(self@.array),
    {
        array_str(&self.array)
    }
}

impl FieldInfo {
    /// The bracketed rendering of this field's array dimension.
    pub fn array_str(&self) -> (r: String)
        ensures
            r@ == spec_array_str(self@.array),
    {
        array_str(&self.array)
    }
}

/// What `VarInfo::repr` renders: the qualifier lower-cased when present,
/// the type, and the quoted name with its array suffix.
pub open spec fn spec_var_repr(v: VarInfoView) -> Seq<char> {
    "<VarInfo "@ + (match v.storage {
        Some(s) => spec_lower(s) + " "@,
        None => Seq::<char>::empty(),
    }) + v.ty_name + " \""@ + v.name + spec_array_str(v.array) + "\">"@
}

/// What `FieldInfo::repr` renders: the type and the quoted name with its
/// array suffix.
pub open spec fn spec_field_repr(f: FieldInfoView) -> Seq<char> {
    "<FieldInfo "@ + f.ty_name + " \""@ + f.name + spec_array_str(f.array) + "\">"@
}

/// What `BlockInfo::repr` renders: the quoted block name and its field
/// count with a pluralised label.
pub open spec fn spec_block_repr(b: BlockInfoView) -> Seq<char> {
    "<BlockInfo \""@ + b.name + "\" ("@ + spec_decimal(b.fields.len()) + " "@ + spec_pluralise(
        "field"@,
        b.fields.len(),
    ) + ")>"@
}

/// What `ShaderInfo::repr` renders: the version display string and the
/// input and output counts with pluralised labels.
pub open spec fn spec_shader_repr(s: ShaderInfoView) -> Seq<char> {
    "<ShaderInfo for GLSL: "@ + s.version_str + " ("@ + spec_decimal(s.inputs.len()) + " "@
        + spec_pluralise("in"@, s.inputs.len()) + ", "@ + spec_decimal(s.outputs.len()) + " "@
        + spec_pluralise("out"@, s.outputs.len()) + ")>"@
}

impl VarInfo {
    /// A one-line summary of this variable.
    pub fn repr(&self) -> (r: String)
        ensures
            r@ == spec_var_repr(self@),
    {
        let mut r = String::from_str("<VarInfo ");
        match &self.storage {
            Some(v) => {
                let lowered = ascii_lower(v);
                r.append(lowered.as_str());
                r.append(" ");
            },
            None => {},
        }
        r.append(self.ty_name.as_str());
        r.append(" \"");
        r.append(self.name.as_str());
        let arr = self.array_str();
        r.append(arr.as_str());
        r.append("\">");
        proof {
            assert(r@ =~= spec_var_repr(self@));
        }
        r
    }
}

impl FieldInfo {
    /// A one-line summary of this field.
    pub fn repr(&self) -> (r: String)
        ensures
            r@ == spec_field_repr(self@),
    {
        let mut r = String::from_str("<FieldInfo ");
        r.append(self.ty_name.as_str());
        r.append(" \"");
        r.append(self.name.as_str());
        let arr = self.array_str();
        r.append(arr.as_str());
        r.append("\">");
        proof {
            assert(r@ =~= spec_field_repr(self@));
        }
        r
    }
}

impl BlockInfo {
    /// A one-line summary of this block: its name and how many fields it
    /// declares.
    pub fn repr(&self) -> (r: String)
        ensures
            r@ == spec_block_repr(self@),
    {
        let mut r = String::from_str("<BlockInfo \"");
        r.append(self.name.as_str());
        r.append("\" (");
        let count = decimal_str(self.fields.len());
        r.append(count.as_str());
        r.append(" ");
        let label = pluralise("field", self.fields.len());
        r.append(label.as_str());
        r.append(")>");
        proof {
            assert(r@ =~= spec_block_repr(self@));
        }
        r
    }
}

impl ShaderInfo {
    /// A one-line summary of the reflection: the version and the input and
    /// output counts.
    pub fn repr(&self) -> (r: String)
        ensures
            r@ == spec_shader_repr(self@),
    {
        let mut r = String::from_str("<ShaderInfo for GLSL: ");
        r.append(self.version_str.as_str());
        r.append(" (");
        let in_count = decimal_str(self.inputs.len());
        r.append(in_count.as_str());
        r.append(" ");
        let in_label = pluralise("in", self.inputs.len());
        r.append(in_label.as_str());
        r.append(", ");
        let out_count = decimal_str(self.outputs.len());
        r.append(out_count.as_str());
        r.append(" ");
        let out_label = pluralise("out", self.outputs.len());
        r.append(out_label.as_str());
        r.append(")>");
        proof {
            assert(r@ =~= spec_shader_repr(self@));
        }
        r
    }
}

impl ShaderInfo {
    /// The names of the uniform variables, in declaration order.
    pub fn uniform_names(&self) -> (r: Vec<String>)
        ensures
            r.deep_view() == names_of(self.uniforms@),
    {
        get_names(&self.uniforms)
    }

    /// The names of the input variables, in declaration order.
    pub fn input_names(&self) -> (r: Vec<String>)
        ensures
            r.deep_view() == names_of(self.inputs@),
    {
        get_names(&self.inputs)
    }

    /// The names of the output variables, in declaration order.
    pub fn output_names(&self) -> (r: Vec<String>)
        ensures
            r.deep_view() == names_of(self.outputs@),
    {
        get_names(&self.outputs)
    }

    /// The names of the interface blocks, in declaration order.
    pub fn block_names(&self) -> (r: Vec<String>)
        ensures
            r.deep_view() == names_of(self.blocks@),
    {
        get_names(&self.blocks)
    }
}

} // verus!
