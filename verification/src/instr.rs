//! The instruction interface consumed by the checker. Only pushing a
//! literal and opening or closing an array literal are modelled; every
//! other instruction, primitives included, makes the analysis bail out.

use vstd::prelude::*;
use crate::value::{Value, SpecValue, value_model};

verus! {

/// A primitive operation of the machine. The catalogue is consumed for
/// future extension only: no primitive is modelled yet.
#[derive(Debug, Clone, Copy, PartialEq, Eq)]
pub enum Primitive {
    Add,
    Sub,
    Mul,
    Div,
    Neg,
    Len,
    Reverse,
}

/// One instruction of a compiled function.
#[derive(Debug, PartialEq, Eq)]
pub enum Instr {
    /// Push a literal value.
    Push(Value),
    /// Open an array literal: its items are everything pushed from here on.
    BeginArray,
    /// Close the innermost array literal, boxed or not.
    EndArray { boxed: bool },
    /// Apply a primitive operation (unmodelled).
    Prim(Primitive),
}

/// Mathematical counterpart of `Instr`.
pub ghost enum SpecInstr {
    Push(SpecValue),
    BeginArray,
    EndArray { boxed: bool },
    Prim(Primitive),
}

pub open spec fn instr_model(i: Instr) -> SpecInstr {
    match i {
        Instr::Push(v) => SpecInstr::Push(value_model(v)),
        Instr::BeginArray => SpecInstr::BeginArray,
        Instr::EndArray { boxed } => SpecInstr::EndArray { boxed },
        Instr::Prim(p) => SpecInstr::Prim(p),
    }
}

impl View for Instr {
    type V = SpecInstr;

    open spec fn view(&self) -> SpecInstr {
        instr_model(*self)
    }
}

impl DeepView for Instr {
    type V = SpecInstr;

    open spec fn deep_view(&self) -> SpecInstr {
        instr_model(*self)
    }
}

/// A compiled function: its ordered instruction sequence.
#[derive(Debug, PartialEq, Eq)]
pub struct Function {
    pub instrs: Vec<Instr>,
}

impl View for Function {
    type V = Seq<SpecInstr>;

    open spec fn view(&self) -> Seq<SpecInstr> {
        self.instrs.deep_view()
    }
}

} // verus!
