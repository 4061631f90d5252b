//! The general properties of the reflection, stated and proved once over
//! all programs: every named top-level declaration yields exactly one
//! descriptor, in declaration order; the three role sequences are the
//! role-filtered copies of the variable sequence and no descriptor can fall
//! under two roles; a program without a version directive keeps the zero
//! default; and the reflection is a pure function of the syntax tree.

use vstd::prelude::*;

use crate::info::ShaderInfoView;
use crate::info::VarInfoView;
use crate::reflect::reflect_nodes;
use crate::reflect::spec_get_info;
use crate::reflect::spec_first_storage;
use crate::reflect::spec_instance_var;
use crate::reflect::spec_storage_label;
use crate::reflect::spec_var_info;
use crate::syntax::NodeView;
use crate::syntax::Program;
use crate::syntax::Storage;

verus! {

/// The variable descriptor one top-level node contributes, if any: exactly
/// one for a named single declaration and for a block with a named
/// instance; none for anything else.
pub open spec fn node_var(n: NodeView) -> Option<VarInfoView> {
    match n {
        NodeView::Declaration(d) => match d.name {
            Some(_) => Some(spec_var_info(d)),
            None => None,
        },
        NodeView::Block(b) => match b.instance {
            Some(_) => Some(spec_instance_var(b)),
            None => None,
        },
        _ => None,
    }
}

/// The variable descriptors a program's nodes contribute, one per
/// contributing node, in lexical order.
pub open spec fn vars_of(nodes: Seq<NodeView>) -> Seq<VarInfoView>
    decreases nodes.len(),
{
    if nodes.len() == 0 {
        Seq::empty()
    } else {
        match node_var(nodes.last()) {
            Some(v) => vars_of(nodes.drop_last()).push(v),
            None => vars_of(nodes.drop_last()),
        }
    }
}

/// Every top-level declaration with a name — and every block with a named
/// instance — produces exactly one variable descriptor, and the "all
/// variables" sequence lists those descriptors in declaration order,
/// whatever their roles.
pub proof fn lemma_one_descriptor_per_declaration(nodes: Seq<NodeView>)
    ensures
        reflect_nodes(nodes).vars == vars_of(nodes),
    decreases nodes.len(),
{
    if nodes.len() != 0 {
        lemma_one_descriptor_per_declaration(nodes.drop_last());
    }
}

/// A descriptor classified as an input: its storage qualifier is exactly
/// `in`.
pub open spec fn is_input(v: VarInfoView) -> bool {
    v.storage == Some(spec_storage_label(Storage::In))
}

/// A descriptor classified as an output: its storage qualifier is exactly
/// `out`.
pub open spec fn is_output(v: VarInfoView) -> bool {
    v.storage == Some(spec_storage_label(Storage::Out))
}

/// A descriptor classified as a uniform: its storage qualifier is exactly
/// `uniform`.
pub open spec fn is_uniform(v: VarInfoView) -> bool {
    v.storage == Some(spec_storage_label(Storage::Uniform))
}

proof fn reveal_labels()
    ensures
        "In"@.len() == 2,
        "Out"@.len() == 3,
        "Uniform"@.len() == 7,
        "Const"@.len() == 5,
        "InOut"@.len() == 5,
        "Centroid"@.len() == 8,
        "Patch"@.len() == 5,
        "Sample"@.len() == 6,
        "Attribute"@.len() == 9,
        "Varying"@.len() == 7,
        "Varying"@[0] == 'V',
        "Uniform"@[0] == 'U',
        "Buffer"@.len() == 6,
        "Shared"@.len() == 6,
        "Coherent"@.len() == 8,
        "Volatile"@.len() == 8,
        "Restrict"@.len() == 8,
        "ReadOnly"@.len() == 8,
        "WriteOnly"@.len() == 9,
        "Subroutine"@.len() == 10,
{
    reveal_strlit("In");
    reveal_strlit("Out");
    reveal_strlit("Uniform");
    reveal_strlit("Const");
    reveal_strlit("InOut");
    reveal_strlit("Centroid");
    reveal_strlit("Patch");
    reveal_strlit("Sample");
    reveal_strlit("Attribute");
    reveal_strlit("Varying");
    reveal_strlit("Buffer");
    reveal_strlit("Shared");
    reveal_strlit("Coherent");
    reveal_strlit("Volatile");
    reveal_strlit("Restrict");
    reveal_strlit("ReadOnly");
    reveal_strlit("WriteOnly");
    reveal_strlit("Subroutine");
}

/// The three classifying labels each name their own qualifier: no other
/// storage qualifier renders to the same text.
pub proof fn lemma_labels_classify(s: Storage)
    ensures
        (spec_storage_label(s) == spec_storage_label(Storage::In)) <==> s == Storage::In,
        (spec_storage_label(s) == spec_storage_label(Storage::Out)) <==> s == Storage::Out,
        (spec_storage_label(s) == spec_storage_label(Storage::Uniform)) <==> s == Storage::Uniform,
{
    reveal_labels();
}

/// No descriptor can classify under two roles at once: the three
/// classifying predicates are pairwise exclusive.
pub proof fn lemma_roles_exclusive(v: VarInfoView)
    ensures
        !(is_input(v) && is_output(v)),
        !(is_input(v) && is_uniform(v)),
        !(is_output(v) && is_uniform(v)),
{
    reveal_labels();
}

/// The three role sequences are exactly the role-filtered copies of the
/// "all variables" sequence, in the same order. Together with
/// [`lemma_roles_exclusive`] this puts every descriptor in at most one of
/// inputs, outputs and uniforms, and in none when it is unclassified.
pub proof fn lemma_role_sequences_are_filters(nodes: Seq<NodeView>)
    ensures
        reflect_nodes(nodes).inputs == reflect_nodes(nodes).vars.filter(|v: VarInfoView| is_input(v)),
        reflect_nodes(nodes).outputs == reflect_nodes(nodes).vars.filter(
            |v: VarInfoView| is_output(v),
        ),
        reflect_nodes(nodes).uniforms == reflect_nodes(nodes).vars.filter(
            |v: VarInfoView| is_uniform(v),
        ),
    decreases nodes.len(),
{
    reveal(Seq::filter);
    if nodes.len() != 0 {
        lemma_role_sequences_are_filters(nodes.drop_last());
        let s = reflect_nodes(nodes.drop_last());
        let t = reflect_nodes(nodes);
        match node_var(nodes.last()) {
            Some(v) => {
                assert(t.vars == s.vars.push(v));
                assert(t.vars.drop_last() == s.vars) by {
                    assert(s.vars.push(v).drop_last() =~= s.vars);
                }
                match nodes.last() {
                    NodeView::Declaration(d) => {
                        match spec_first_storage(d.qualifiers) {
                            Some(q) => {
                                lemma_labels_classify(q);
                            },
                            None => {},
                        }
                    },
                    NodeView::Block(b) => {
                        match spec_first_storage(b.qualifiers) {
                            Some(q) => {
                                lemma_labels_classify(q);
                            },
                            None => {},
                        }
                    },
                    _ => {},
                }
            },
            None => {
                assert(t.vars == s.vars);
            },
        }
    }
}

/// A program with no version directive keeps the defaults: version zero and
/// an empty display string.
pub proof fn lemma_absent_version_defaults(nodes: Seq<NodeView>)
    requires
        forall|i: int| 0 <= i < nodes.len() ==> !(#[trigger] nodes[i] is Version),
    ensures
        reflect_nodes(nodes).version == 0,
        reflect_nodes(nodes).version_str == Seq::<char>::empty(),
    decreases nodes.len(),
{
    if nodes.len() != 0 {
        assert(forall|i: int|
            0 <= i < nodes.drop_last().len() ==> #[trigger] nodes.drop_last()[i] == nodes[i]);
        lemma_absent_version_defaults(nodes.drop_last());
        assert(!(nodes[nodes.len() - 1] is Version));
    }
}

/// The reflection is a pure function of the syntax tree: two structurally
/// equal programs reflect to structurally equal results.
pub proof fn lemma_reflection_deterministic(a: &Program, b: &Program)
    requires
        a@ == b@,
    ensures
        reflect_nodes(a@) == reflect_nodes(b@),
{
}

/// Running the reflection twice on identical source text yields
/// structurally equal results: any two reflections that `get_info`'s
/// contract admits for the same text are equal, parse and traversal both
/// being functions of the text alone.
pub proof fn lemma_reflection_idempotent(contents: Seq<char>, first: ShaderInfoView, second: ShaderInfoView)
    requires
        spec_get_info(contents) == Some(first),
        spec_get_info(contents) == Some(second),
    ensures
        first == second,
{
}

} // verus!
