//! Properties of the checker, stated over the mathematical model and
//! proved once and for all.

use vstd::prelude::*;
use crate::types::{SpecType, SpecValueType};
use crate::value::{SpecValue, spec_value_shape, spec_from_value};
use crate::instr::SpecInstr;
use crate::env::{
    SpecEnv, spec_env_wf, spec_pop, spec_step, spec_run, all_types_equal, all_shapes_equal,
    closed_array_type,
};

verus! {

/// Describing a concrete value never fails, and the description always
/// carries the value's actual shape, exactly.
pub proof fn lemma_from_value_total(v: SpecValue)
    ensures
        spec_from_value(v).shape == Some(spec_value_shape(v)),
{
}

/// Closing a non-boxed array literal over one or more items of one
/// identical description yields that same element type, with the item
/// count prepended to the common shape.
pub proof fn lemma_close_homogeneous(items: Seq<SpecType>, value: SpecValueType, dims: Seq<nat>)
    requires
        items.len() > 0,
        forall|i: int|
            0 <= i < items.len() ==> items[i] == (SpecType { value, shape: Some(dims) }),
    ensures
        closed_array_type(items, false) == (SpecType {
            value,
            shape: Some(seq![items.len()] + dims),
        }),
{
    assert forall|i: int| 0 <= i && i + 1 < items.len() implies #[trigger] items[i] == items[i
        + 1] by {
        assert(items[i] == (SpecType { value, shape: Some(dims) }));
        assert(items[i + 1] == (SpecType { value, shape: Some(dims) }));
    }
    assert(all_types_equal(items));
    assert(all_shapes_equal(items));
    assert(items[0] == (SpecType { value, shape: Some(dims) }));
}

/// Closing a non-boxed array literal over items whose descriptions differ
/// somewhere yields the `Unknown` element type; the shape is still present,
/// with the item count as leading dimension, exactly when all items
/// nonetheless share one known shape.
pub proof fn lemma_close_heterogeneous(items: Seq<SpecType>)
    requires
        exists|i: int| 0 <= i && i + 1 < items.len() && #[trigger] items[i] != items[i + 1],
    ensures
        closed_array_type(items, false).value == SpecValueType::Unknown,
        all_shapes_equal(items) && items[0].shape is Some ==> closed_array_type(items, false).shape
            == Some(seq![items.len()] + items[0].shape->0),
        !(all_shapes_equal(items) && items[0].shape is Some) ==> closed_array_type(
            items,
            false,
        ).shape is None,
{
    let i = choose|i: int| 0 <= i && i + 1 < items.len() && #[trigger] items[i] != items[i + 1];
    assert(!all_types_equal(items));
}

/// Closing an array literal over zero items yields the default element
/// kind — numeric when not boxed, a box around `Unknown` when boxed — and
/// the single known dimension 0.
pub proof fn lemma_close_empty()
    ensures
        closed_array_type(Seq::<SpecType>::empty(), false) == (SpecType {
            value: SpecValueType::Num,
            shape: Some(seq![0nat]),
        }),
        closed_array_type(Seq::<SpecType>::empty(), true) == (SpecType {
            value: SpecValueType::Boxed(
                Box::new(SpecType { value: SpecValueType::Unknown, shape: None }),
            ),
            shape: Some(seq![0nat]),
        }),
{
    assert(seq![Seq::<SpecType>::empty().len()] =~= seq![0nat]);
}

/// Closing a boxed array literal always yields the single dimension
/// `items.len()`, whatever the items' own shapes were.
pub proof fn lemma_boxed_close_shape(items: Seq<SpecType>)
    ensures
        closed_array_type(items, true).shape == Some(seq![items.len()]),
{
}

/// Whether one symbolic step can model the instruction at all: only
/// pushing a literal and opening or closing an array literal are modelled.
pub open spec fn modelled_instr(i: SpecInstr) -> bool {
    match i {
        SpecInstr::Push(_) => true,
        SpecInstr::BeginArray => true,
        SpecInstr::EndArray { .. } => true,
        SpecInstr::Prim(_) => false,
    }
}

/// An unmodelled instruction anywhere in the sequence makes the whole run
/// bail out to "unknown", whatever the state it is reached in.
pub proof fn lemma_bail_propagates(env: SpecEnv, instrs: Seq<SpecInstr>, k: int)
    requires
        0 <= k < instrs.len(),
        !modelled_instr(instrs[k]),
    ensures
        spec_run(env, instrs) is None,
    decreases instrs.len(),
{
    if k == 0 {
        assert(spec_step(env, instrs[0]) is None);
    } else {
        match spec_step(env, instrs[0]) {
            Some(e) => {
                assert(instrs.drop_first()[k - 1] == instrs[k]);
                lemma_bail_propagates(e, instrs.drop_first(), k - 1);
            }
            None => {}
        }
    }
}

/// The driver's reading of the same: a function holding one unmodelled
/// instruction anywhere checks to "unknown", whatever the inputs.
pub proof fn lemma_driver_bails(instrs: Seq<SpecInstr>, inputs: Seq<SpecValue>, k: int)
    requires
        0 <= k < instrs.len(),
        !modelled_instr(instrs[k]),
    ensures
        crate::spec_check_type(instrs, inputs) is None,
{
    lemma_bail_propagates(crate::seed_env(inputs), instrs, k);
}

/// After a pop, every recorded open-array depth is clamped to the new
/// stack length — no marker ever points past the stack top — and a
/// well-formed engine stays well-formed.
pub proof fn lemma_pop_clamps(env: SpecEnv)
    ensures
        forall|i: int|
            0 <= i < spec_pop(env).0.marks.len() ==> #[trigger] spec_pop(env).0.marks[i]
                <= spec_pop(env).0.stack.len(),
        spec_env_wf(env) ==> spec_env_wf(spec_pop(env).0),
{
    let after = spec_pop(env).0;
    assert forall|i: int| 0 <= i < after.marks.len() implies #[trigger] after.marks[i]
        <= after.stack.len() by {
        assert(env.marks[i] == env.marks[i]);
    }
    if spec_env_wf(env) {
        assert forall|a: int, b: int| 0 <= a <= b < after.marks.len() implies after.marks[a]
            <= after.marks[b] by {
            assert(env.marks[a] <= env.marks[b]);
        }
    }
}

} // verus!
