//! A best-effort static type-and-shape checker for a stack-based,
//! array-oriented virtual machine: instructions are executed symbolically
//! over abstract descriptions of values, and whenever an instruction cannot
//! be modelled the whole analysis degrades to "unknown" rather than guess.

pub mod types;
pub mod value;
pub mod instr;
pub mod env;
pub mod laws;

use vstd::prelude::*;
use crate::types::{Type, SpecType};
use crate::value::{Value, SpecValue, spec_from_value};
use crate::instr::{Function, SpecInstr};
use crate::env::{TypeEnv, SpecEnv, spec_run};

verus! {

/// The abstract stack seeded from the concrete input values, supplied
/// bottom-to-top, with no array literal open.
pub open spec fn seed_env(inputs: Seq<SpecValue>) -> SpecEnv {
    SpecEnv {
        stack: inputs.map_values(|v: SpecValue| spec_from_value(v)),
        marks: Seq::<nat>::empty(),
    }
}

/// What the checker computes: the final abstract stack of running the
/// instruction sequence over the seeded stack, or `None` when the run
/// cannot be modelled.
pub open spec fn spec_check_type(instrs: Seq<SpecInstr>, inputs: Seq<SpecValue>) -> Option<
    Seq<SpecType>,
> {
    match spec_run(seed_env(inputs), instrs) {
        Some(env) => Some(env.stack),
        None => None,
    }
}

/// Runs a function's instructions symbolically over a stack seeded from the
/// concrete inputs. Returns one description per final stack slot, or `None`
/// the moment an instruction cannot be modelled or an array close finds no
/// matching open.
pub fn check_type(f: &Function, inputs: &[Value]) -> (r: Option<Vec<Type>>)
    ensures
        match r {
            Some(stack) => spec_check_type(f@, inputs.deep_view()) == Some(stack.deep_view()),
            None => spec_check_type(f@, inputs.deep_view()) is None,
        },
{
    let ghost inputs_m = inputs.deep_view();
    let mut env = TypeEnv::new();
    let mut i: usize = 0;
    while i < inputs.len()
        invariant
            inputs_m == inputs.deep_view(),
            i <= inputs@.len(),
            env.wf(),
            env@.marks == Seq::<nat>::empty(),
            env@.stack == inputs_m.take(i as int).map_values(
                |v: SpecValue| spec_from_value(v),
            ),
        decreases inputs@.len() - i,
    {
        env.push(Type::from_value(&inputs[i]));
        proof {
            assert(env@.stack =~= inputs_m.take(i as int + 1).map_values(
                |v: SpecValue| spec_from_value(v),
            ));
        }
        i = i + 1;
    }
    proof {
        assert(inputs_m.take(inputs@.len() as int) =~= inputs_m);
        assert(env@ == seed_env(inputs_m));
        assert(f@.skip(0) =~= f@);
    }
    let mut j: usize = 0;
    while j < f.instrs.len()
        invariant
            inputs_m == inputs.deep_view(),
            j <= f.instrs@.len(),
            env.wf(),
            spec_run(seed_env(inputs_m), f@) == spec_run(env@, f@.skip(j as int)),
        decreases f.instrs@.len() - j,
    {
        let ghost before = env@;
        let step = env.instr(&f.instrs[j]);
        proof {
            assert(f@.skip(j as int)[0] == f@[j as int]);
            assert(f@.skip(j as int).drop_first() =~= f@.skip(j as int + 1));
        }
        match step {
            Some(_) => {}
            None => {
                proof {
                    assert(f@.skip(j as int).len() > 0);
                    assert(spec_run(env@, f@.skip(j as int)) is None);
                }
                return None;
            }
        }
        j = j + 1;
    }
    proof {
        assert(f@.skip(f.instrs@.len() as int) =~= Seq::<SpecInstr>::empty());
    }
    Some(env.into_stack())
}

} // verus!
