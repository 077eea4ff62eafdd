//! The abstract stack engine: it simulates instruction execution over
//! abstract value descriptions, tracking where each in-progress array
//! literal begins.

use vstd::prelude::*;
use vstd::pervasive::VecAdditionalExecFns;
use crate::types::{
    Type, ValueType, SpecType, SpecValueType, spec_default_type, dims_model, type_eq, shape_eq,
    value_type_model, shape_model,
};
use crate::value::spec_from_value;
use crate::instr::{Instr, SpecInstr, Primitive};

verus! {

/// Mathematical state of the engine: the abstract stack (tail = top) and
/// the recorded depths at which open array literals begin.
pub ghost struct SpecEnv {
    pub stack: Seq<SpecType>,
    pub marks: Seq<nat>,
}

/// The engine's invariant: no recorded depth points past the stack top, and
/// the depths are recorded innermost-last, so they never decrease.
pub open spec fn spec_env_wf(env: SpecEnv) -> bool {
    &&& forall|i: int| 0 <= i < env.marks.len() ==> #[trigger] env.marks[i] <= env.stack.len()
    &&& forall|i: int, j: int|
        0 <= i <= j < env.marks.len() ==> #[trigger] env.marks[i] <= #[trigger] env.marks[j]
}

/// Every adjacent pair of items carries the same type and shape.
pub open spec fn all_types_equal(items: Seq<SpecType>) -> bool {
    forall|i: int| 0 <= i && i + 1 < items.len() ==> #[trigger] items[i] == items[i + 1]
}

/// Every adjacent pair of items carries the same shape.
pub open spec fn all_shapes_equal(items: Seq<SpecType>) -> bool {
    forall|i: int| 0 <= i && i + 1 < items.len() ==> #[trigger] items[i].shape == items[i + 1].shape
}

/// The unified element type of an array literal's items: the common type if
/// the items are homogeneous (an empty literal defaults to `Unknown` when
/// boxed, `Num` when not), and `Unknown` otherwise.
pub open spec fn unified_value(items: Seq<SpecType>, boxed: bool) -> SpecValueType {
    if all_types_equal(items) {
        if items.len() == 0 {
            if boxed {
                SpecValueType::Unknown
            } else {
                SpecValueType::Num
            }
        } else {
            items[0].value
        }
    } else {
        SpecValueType::Unknown
    }
}

/// The shape of a closed, non-boxed array literal: the item count followed
/// by the items' common shape, provided all items share one known shape; an
/// empty literal has the single known dimension 0.
pub open spec fn closed_array_shape(items: Seq<SpecType>) -> Option<Seq<nat>> {
    if all_shapes_equal(items) {
        if items.len() == 0 {
            Some(seq![0nat])
        } else {
            match items[0].shape {
                Some(dims) => Some(seq![items.len()] + dims),
                None => None,
            }
        }
    } else {
        None
    }
}

/// The description pushed when an array literal over `items` is closed.
/// Boxing erases the internal structure: the result is a box around the
/// unified type with unknown shape, and its own shape is always the single
/// dimension `items.len()`.
pub open spec fn closed_array_type(items: Seq<SpecType>, boxed: bool) -> SpecType {
    let value = unified_value(items, boxed);
    if boxed {
        SpecType {
            value: SpecValueType::Boxed(
                Box::new(SpecType { value, shape: None }),
            ),
            shape: Some(seq![items.len()]),
        }
    } else {
        SpecType { value, shape: closed_array_shape(items) }
    }
}

/// Every recorded depth clamped down to the stack length.
pub open spec fn clamp_marks(marks: Seq<nat>, len: nat) -> Seq<nat> {
    marks.map_values(|m: nat| if m <= len { m } else { len })
}

/// Removing the top of the stack: on an empty stack the default description
/// comes back and nothing changes; in either case every recorded depth is
/// clamped to the new stack length.
pub open spec fn spec_pop(env: SpecEnv) -> (SpecEnv, SpecType) {
    if env.stack.len() == 0 {
        (SpecEnv { stack: env.stack, marks: clamp_marks(env.marks, 0) }, spec_default_type())
    } else {
        let rest = env.stack.drop_last();
        (SpecEnv { stack: rest, marks: clamp_marks(env.marks, rest.len()) }, env.stack.last())
    }
}

/// One symbolic instruction step. `None` means the analysis cannot model
/// the instruction (or an array close had no matching open) and bails out.
pub open spec fn spec_step(env: SpecEnv, instr: SpecInstr) -> Option<SpecEnv> {
    match instr {
        SpecInstr::Push(v) => Some(
            SpecEnv { stack: env.stack.push(spec_from_value(v)), marks: env.marks },
        ),
        SpecInstr::BeginArray => Some(
            SpecEnv { stack: env.stack, marks: env.marks.push(env.stack.len()) },
        ),
        SpecInstr::EndArray { boxed } => {
            if env.marks.len() == 0 {
                None
            } else {
                let bottom = env.marks.last();
                let items = env.stack.subrange(bottom as int, env.stack.len() as int);
                Some(
                    SpecEnv {
                        stack: env.stack.subrange(0, bottom as int).push(
                            closed_array_type(items, boxed),
                        ),
                        marks: env.marks.drop_last(),
                    },
                )
            }
        }
        SpecInstr::Prim(_) => None,
    }
}

/// A whole instruction sequence run from `env`: the first step that cannot
/// be modelled makes the entire run `None`.
pub open spec fn spec_run(env: SpecEnv, instrs: Seq<SpecInstr>) -> Option<SpecEnv>
    decreases instrs.len(),
{
    if instrs.len() == 0 {
        Some(env)
    } else {
        match spec_step(env, instrs[0]) {
            Some(e) => spec_run(e, instrs.drop_first()),
            None => None,
        }
    }
}

/// Checks that every adjacent pair of items carries the same type and shape.
fn adjacent_types_equal(items: &Vec<Type>) -> (r: bool)
    ensures
        r == all_types_equal(items.deep_view()),
{
    let ghost m = items.deep_view();
    if items.len() == 0 {
        return true;
    }
    let mut r = true;
    let mut i: usize = 0;
    while i < items.len() - 1
        invariant
            m == items.deep_view(),
            items@.len() > 0,
            i <= items@.len() - 1,
            r <==> (forall|j: int| 0 <= j < i ==> #[trigger] m[j] == m[j + 1]),
        decreases items@.len() - i,
    {
        if !type_eq(&items[i], &items[i + 1]) {
            proof {
                assert(m[i as int] != m[i as int + 1]);
            }
            r = false;
        }
        i = i + 1;
    }
    r
}

/// Checks that every adjacent pair of items carries the same shape.
fn adjacent_shapes_equal(items: &Vec<Type>) -> (r: bool)
    ensures
        r == all_shapes_equal(items.deep_view()),
{
    let ghost m = items.deep_view();
    if items.len() == 0 {
        return true;
    }
    let mut r = true;
    let mut i: usize = 0;
    while i < items.len() - 1
        invariant
            m == items.deep_view(),
            items@.len() > 0,
            i <= items@.len() - 1,
            r <==> (forall|j: int| 0 <= j < i ==> #[trigger] m[j].shape == m[j + 1].shape),
        decreases items@.len() - i,
    {
        if !shape_eq(&items[i].shape, &items[i + 1].shape) {
            proof {
                assert(m[i as int].shape != m[i as int + 1].shape);
            }
            r = false;
        }
        i = i + 1;
    }
    r
}

/// The abstract stack engine's state.
pub struct TypeEnv {
    stack: Vec<Type>,
    array: Vec<usize>,
}

impl View for TypeEnv {
    type V = SpecEnv;

    closed spec fn view(&self) -> SpecEnv {
        SpecEnv {
            stack: self.stack.deep_view(),
            marks: self.array@.map_values(|m: usize| m as nat),
        }
    }
}

impl TypeEnv {
    pub open spec fn wf(&self) -> bool {
        spec_env_wf(self@)
    }

    /// An engine with an empty stack and no open array literal.
    pub fn new() -> (r: TypeEnv)
        ensures
            r@.stack == Seq::<SpecType>::empty(),
            r@.marks == Seq::<nat>::empty(),
            r.wf(),
    {
        let r = TypeEnv { stack: Vec::new(), array: Vec::new() };
        proof {
            assert(r@.stack =~= Seq::<SpecType>::empty());
            assert(r@.marks =~= Seq::<nat>::empty());
        }
        r
    }

    /// The final stack, handed out when an analysis completes.
    pub fn into_stack(self) -> (r: Vec<Type>)
        ensures
            r.deep_view() == self@.stack,
    {
        let TypeEnv { stack, array: _ } = self;
        stack
    }

    /// Appends a description to the stack; always succeeds.
    pub fn push(&mut self, ty: Type)
        ensures
            final(self)@.stack == old(self)@.stack.push(ty@),
            final(self)@.marks == old(self)@.marks,
            old(self).wf() ==> final(self).wf(),
    {
        self.stack.push(ty);
        proof {
            assert(self@.stack =~= old(self)@.stack.push(ty@));
            if spec_env_wf(old(self)@) {
                assert forall|i: int| 0 <= i < self@.marks.len() implies self@.marks[i]
                    <= self@.stack.len() by {
                    assert(old(self)@.marks[i] <= old(self)@.stack.len());
                }
                assert(spec_env_wf(self@));
            }
        }
    }

    /// Executes one instruction symbolically. `None` bails the analysis
    /// out: the instruction is unmodelled, or an array literal was closed
    /// with none open. In either case the engine is left unchanged.
    pub fn instr(&mut self, instr: &Instr) -> (r: Option<()>)
        requires
            old(self).wf(),
        ensures
            final(self).wf(),
            match spec_step(old(self)@, instr@) {
                Some(e) => r == Some(()) && final(self)@ == e,
                None => r == None::<()> && final(self)@ == old(self)@,
            },
    {
        match instr {
            Instr::Push(val) => {
                self.push(Type::from_value(val));
                Some(())
            }
            Instr::BeginArray => {
                let depth = self.stack.len();
                self.array.push(depth);
                proof {
                    assert(self@.marks =~= old(self)@.marks.push(old(self)@.stack.len()));
                    assert forall|a: int, b: int|
                        0 <= a <= b < self@.marks.len() implies self@.marks[a]
                        <= self@.marks[b] by {
                        if b < self@.marks.len() - 1 {
                            assert(old(self)@.marks[a] <= old(self)@.marks[b]);
                        } else if a < b {
                            assert(old(self)@.marks[a] <= old(self)@.stack.len());
                        }
                    }
                }
                Some(())
            }
            Instr::EndArray { boxed } => {
                let ghost env0 = old(self)@;
                let bottom = match self.array.pop() {
                    Some(b) => b,
                    None => {
                        return None;
                    }
                };
                proof {
                    assert(env0.marks[env0.marks.len() - 1] == bottom as nat);
                    assert(bottom as nat <= env0.stack.len());
                    assert(self@.marks =~= env0.marks.drop_last());
                }
                let mut items = self.stack.split_off(bottom);
                let ghost items_m = env0.stack.subrange(bottom as int, env0.stack.len() as int);
                proof {
                    assert(items.deep_view() =~= items_m);
                }
                let n = items.len();
                let types_homog = adjacent_types_equal(&items);
                let shapes_homog = adjacent_shapes_equal(&items);
                let first: Option<Type> = if items.len() > 0 {
                    Some(items.remove(0))
                } else {
                    None
                };
                let (first_value, first_shape): (Option<ValueType>, Option<Vec<usize>>) =
                    match first {
                    Some(t) => {
                        let Type { value, shape } = t;
                        (Some(value), shape)
                    }
                    None => (None, None),
                };
                proof {
                    if items_m.len() > 0 {
                        assert(first_value matches Some(v) && items_m[0].value
                            == value_type_model(v));
                        assert(items_m[0].shape == shape_model(first_shape));
                    } else {
                        assert(first_value is None);
                    }
                }
                let unified: ValueType = if types_homog {
                    match first_value {
                        Some(v) => v,
                        None => if *boxed {
                            ValueType::Unknown
                        } else {
                            ValueType::Num
                        },
                    }
                } else {
                    ValueType::Unknown
                };
                proof {
                    assert(unified@ == unified_value(items_m, *boxed));
                }
                let result: Type = if *boxed {
                    let mut dims: Vec<usize> = Vec::new();
                    dims.push(n);
                    proof {
                        assert(dims_model(dims@) =~= seq![items_m.len()]);
                    }
                    let inner = Type { value: unified, shape: None };
                    proof {
                        assert(inner@ == (SpecType {
                            value: unified_value(items_m, true),
                            shape: None,
                        }));
                    }
                    let boxed_res = Type {
                        value: ValueType::Boxed(Box::new(inner)),
                        shape: Some(dims),
                    };
                    proof {
                        assert(boxed_res@.value == closed_array_type(items_m, true).value);
                    }
                    boxed_res
                } else {
                    let shape: Option<Vec<usize>> = if shapes_homog {
                        if n == 0 {
                            let mut dims: Vec<usize> = Vec::new();
                            dims.push(0);
                            proof {
                                assert(dims_model(dims@) =~= seq![0nat]);
                            }
                            Some(dims)
                        } else {
                            match first_shape {
                                Some(mut dims) => {
                                    let ghost dims0 = dims_model(dims@);
                                    dims.insert(0, n);
                                    proof {
                                        assert(dims_model(dims@) =~= seq![items_m.len()]
                                            + dims0);
                                    }
                                    Some(dims)
                                }
                                None => None,
                            }
                        }
                    } else {
                        None
                    };
                    Type { value: unified, shape }
                };
                proof {
                    assert(result@.value == closed_array_type(items_m, *boxed).value);
                    assert(result@.shape == closed_array_type(items_m, *boxed).shape);
                    assert(result@ == closed_array_type(items_m, *boxed));
                }
                self.push(result);
                proof {
                    let e = spec_step(env0, instr@).unwrap();
                    assert(self@.stack =~= e.stack);
                    assert(self@.marks == e.marks);
                    assert forall|a: int, b: int|
                        0 <= a <= b < self@.marks.len() implies self@.marks[a]
                        <= self@.marks[b] by {
                        assert(env0.marks[a] <= env0.marks[b]);
                    }
                    assert forall|a: int| 0 <= a < self@.marks.len() implies self@.marks[a]
                        <= self@.stack.len() by {
                        assert(env0.marks[a] <= env0.marks[env0.marks.len() - 1]);
                    }
                }
                Some(())
            }
            Instr::Prim(_) => None,
        }
    }

    /// Dispatch of a primitive operation: none is modelled yet, so the
    /// analysis always bails out and the engine is left unchanged.
    pub fn prim(&mut self, prim: Primitive) -> (r: Option<()>)
        ensures
            r == None::<()>,
            final(self)@ == old(self)@,
    {
        match prim {
            _ => None,
        }
    }

    /// Removes and returns the top of the stack, or the default description
    /// if the stack is empty: running past the bottom never fails. Every
    /// recorded open-array depth is then clamped to the new stack length.
    pub fn pop(&mut self) -> (r: Type)
        ensures
            final(self)@ == spec_pop(old(self)@).0,
            r@ == spec_pop(old(self)@).1,
            old(self).wf() ==> final(self).wf(),
    {
        let r = match self.stack.pop() {
            Some(t) => t,
            None => Type::default(),
        };
        let n = self.stack.len();
        let ghost stack1 = self.stack@;
        let mut i: usize = 0;
        while i < self.array.len()
            invariant
                i <= self.array@.len(),
                self.array@.len() == old(self).array@.len(),
                self.stack@ == stack1,
                n as int == stack1.len(),
                forall|j: int|
                    0 <= j < i ==> #[trigger] self.array@[j] == (if old(self).array@[j] <= n {
                        old(self).array@[j]
                    } else {
                        n
                    }),
                forall|j: int|
                    i <= j < self.array@.len() ==> #[trigger] self.array@[j] == old(
                        self,
                    ).array@[j],
            decreases self.array@.len() - i,
        {
            if self.array[i] > n {
                self.array.set(i, n);
            }
            i = i + 1;
        }
        proof {
            let env0 = old(self)@;
            let after = spec_pop(env0).0;
            assert(self@.stack =~= after.stack);
            assert forall|j: int| 0 <= j < self.array@.len() implies self@.marks[j]
                == after.marks[j] by {
                assert(env0.marks[j] == old(self).array@[j] as nat);
            }
            assert(self@.marks =~= after.marks);
            if spec_env_wf(env0) {
                assert forall|a: int, b: int|
                    0 <= a <= b < self@.marks.len() implies self@.marks[a] <= self@.marks[b] by {
                    assert(env0.marks[a] <= env0.marks[b]);
                }
                assert(spec_env_wf(self@));
            }
        }
        r
    }
}

} // verus!
