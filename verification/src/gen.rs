//! Rendering of the two-operand instruction form as assembly text. The
//! spec functions give the exact characters produced, and each renderer
//! is proved to produce them.

use crate::fmtnum::dec_rep;
use crate::fmtnum::dec_rep_signed;
use crate::fmtnum::push_i64_dec;
use crate::fmtnum::push_usize_dec;
use crate::ir2::Dest;
use crate::ir2::Expr;
use crate::ir2::Func;
use crate::ir2::Instr;
use crate::ir2::Reg;
use vstd::prelude::*;
use vstd::string::StringExecFns;

verus! {

/// A value that renders itself as assembly text.
pub trait GenAsm {
    /// The exact characters the rendering produces.
    spec fn asm_form(&self) -> Seq<char>;

    /// The rendered assembly text.
    fn gen_asm(&self) -> (r: String)
        ensures
            r@ == self.asm_form(),
    ;
}

/// The assembly name of a register: `X` and its number, or `SP`.
pub open spec fn reg_asm(r: &Reg) -> Seq<char> {
    match r {
        Reg::R(n) => "X"@ + dec_rep(*n as nat),
        Reg::Sp => "SP"@,
    }
}

/// The assembly form of a destination: the variable's name, or the
/// register's name.
pub open spec fn dest_asm(d: &Dest) -> Seq<char> {
    match d {
        Dest::Var(name) => name@,
        Dest::Reg(r) => reg_asm(r),
    }
}

/// The assembly form of an operand: `#` and the immediate, or the
/// register's name.
pub open spec fn expr_asm(e: &Expr) -> Seq<char> {
    match e {
        Expr::Imm(imm) => "#"@ + dec_rep_signed(*imm as int),
        Expr::Reg(r) => reg_asm(r),
    }
}

/// The assembly form of an instruction: the mnemonic, then the
/// destination and the two operands, comma separated.
pub open spec fn instr_asm(i: &Instr) -> Seq<char> {
    match i {
        Instr::Add { dest, src1, src2 } => "add "@ + dest_asm(dest) + ", "@ + expr_asm(src1)
            + ", "@ + expr_asm(src2),
        Instr::Sub { dest, src1, src2 } => "sub "@ + dest_asm(dest) + ", "@ + expr_asm(src1)
            + ", "@ + expr_asm(src2),
    }
}

/// The assembly form of a run of instructions: each on its own line,
/// preceded by `indent`.
pub open spec fn instrs_asm_block(s: Seq<Instr>, indent: Seq<char>) -> Seq<char>
    decreases s.len(),
{
    if s.len() == 0 {
        Seq::empty()
    } else {
        instrs_asm_block(s.drop_last(), indent) + indent + instr_asm(&s.last()) + "\n"@
    }
}

impl GenAsm for Reg {
    open spec fn asm_form(&self) -> Seq<char> {
        reg_asm(self)
    }

    fn gen_asm(&self) -> (r: String) {
        match self {
            Reg::R(n) => {
                let mut s = String::from_str("X");
                push_usize_dec(&mut s, *n);
                s
            },
            Reg::Sp => String::from_str("SP"),
        }
    }
}

impl GenAsm for Dest {
    open spec fn asm_form(&self) -> Seq<char> {
        dest_asm(self)
    }

    fn gen_asm(&self) -> (r: String) {
        match self {
            Dest::Var(name) => name.clone(),
            Dest::Reg(reg) => reg.gen_asm(),
        }
    }
}

impl GenAsm for Expr {
    open spec fn asm_form(&self) -> Seq<char> {
        expr_asm(self)
    }

    fn gen_asm(&self) -> (r: String) {
        match self {
            Expr::Imm(imm) => {
                let mut s = String::from_str("#");
                push_i64_dec(&mut s, *imm);
                s
            },
            Expr::Reg(reg) => reg.gen_asm(),
        }
    }
}

impl GenAsm for Instr {
    open spec fn asm_form(&self) -> Seq<char> {
        instr_asm(self)
    }

    fn gen_asm(&self) -> (r: String) {
        match self {
            Instr::Add { dest, src1, src2 } => {
                let mut s = String::from_str("add ");
                s.append(dest.gen_asm().as_str());
                s.append(", ");
                s.append(src1.gen_asm().as_str());
                s.append(", ");
                s.append(src2.gen_asm().as_str());
                proof {
                    assert(s@ =~= instr_asm(self));
                }
                s
            },
            Instr::Sub { dest, src1, src2 } => {
                let mut s = String::from_str("sub ");
                s.append(dest.gen_asm().as_str());
                s.append(", ");
                s.append(src1.gen_asm().as_str());
                s.append(", ");
                s.append(src2.gen_asm().as_str());
                proof {
                    assert(s@ =~= instr_asm(self));
                }
                s
            },
        }
    }
}

impl GenAsm for Func {
    open spec fn asm_form(&self) -> Seq<char> {
        ".global "@ + self.name@ + "\n"@ + ".align 2\n"@ + self.name@ + ":\n"@ + instrs_asm_block(
            self.body@,
            "    "@,
        )
    }

    fn gen_asm(&self) -> (r: String) {
        let mut out = String::from_str(".global ");
        out.append(self.name.as_str());
        out.append("\n");
        out.append(".align 2\n");
        out.append(self.name.as_str());
        out.append(":\n");
        let ghost head = out@;
        let mut i: usize = 0;
        while i < self.body.len()
            invariant
                i <= self.body@.len(),
                head == ".global "@ + self.name@ + "\n"@ + ".align 2\n"@ + self.name@ + ":\n"@,
                out@ == head + instrs_asm_block(self.body@.subrange(0, i as int), "    "@),
            decreases self.body@.len() - i,
        {
            out.append("    ");
            let line = self.body[i].gen_asm();
            out.append(line.as_str());
            out.append("\n");
            proof {
                assert(self.body@.subrange(0, i + 1 as int).drop_last() =~= self.body@.subrange(
                    0,
                    i as int,
                ));
                assert(self.body@.subrange(0, i + 1 as int).last() == self.body@[i as int]);
                assert(out@ =~= head + instrs_asm_block(
                    self.body@.subrange(0, i + 1 as int),
                    "    "@,
                ));
            }
            i = i + 1;
        }
        proof {
            assert(self.body@.subrange(0, self.body@.len() as int) =~= self.body@);
            assert(out@ =~= self.asm_form());
        }
        out
    }
}

impl GenAsm for Vec<Instr> {
    open spec fn asm_form(&self) -> Seq<char> {
        instrs_asm_block(self@, Seq::empty())
    }

    fn gen_asm(&self) -> (r: String) {
        let mut out = String::new();
        let mut i: usize = 0;
        while i < self.len()
            invariant
                i <= self@.len(),
                out@ == instrs_asm_block(self@.subrange(0, i as int), Seq::empty()),
            decreases self@.len() - i,
        {
            let line = self[i].gen_asm();
            out.append(line.as_str());
            out.append("\n");
            proof {
                assert(self@.subrange(0, i + 1 as int).drop_last() =~= self@.subrange(0, i as int));
                assert(self@.subrange(0, i + 1 as int).last() == self@[i as int]);
                assert(out@ =~= instrs_asm_block(self@.subrange(0, i + 1 as int), Seq::empty()));
            }
            i = i + 1;
        }
        proof {
            assert(self@.subrange(0, self@.len() as int) =~= self@);
            assert(out@ =~= self.asm_form());
        }
        out
    }
}

} // verus!
