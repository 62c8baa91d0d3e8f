//! A small two-operand instruction form: registers or the stack pointer,
//! destinations that are registers or named variables, and immediate or
//! register operands.

use vstd::prelude::*;

verus! {

/// A machine register: a numbered one or the stack pointer.
pub enum Reg {
    R(usize),
    Sp,
}

/// Where an instruction writes: a named variable or a register.
pub enum Dest {
    Var(String),
    Reg(Reg),
}

/// An operand: an immediate or a register.
pub enum Expr {
    Imm(i64),
    Reg(Reg),
}

/// A two-operand instruction.
pub enum Instr {
    Add { dest: Dest, src1: Expr, src2: Expr },
    Sub { dest: Dest, src1: Expr, src2: Expr },
}

/// A function: its name, its argument names, and its body.
pub struct Func {
    pub name: String,
    pub args: Vec<String>,
    pub body: Vec<Instr>,
}

} // verus!
