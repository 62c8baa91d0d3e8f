//! The register-level intermediate form and its two textual renderings:
//! one as intermediate-representation listings, one as assembly. The spec
//! functions give the exact characters each rendering produces; values
//! whose rendering the form does not define (stack pushes and adds in the
//! listing, adds in the assembly) are excluded by `ir_defined` /
//! `asm_defined` instead of being guessed at.

use crate::fmtnum::dec_rep;
use crate::fmtnum::dec_rep_signed;
use crate::fmtnum::push_i64_dec;
use crate::fmtnum::push_usize_dec;
use vstd::prelude::*;
use vstd::string::StringExecFns;

verus! {

/// A value that renders itself as an intermediate-representation listing.
pub trait DumpIr {
    /// The exact characters of the listing.
    spec fn ir_form(&self) -> Seq<char>;

    /// Which values have a listing.
    spec fn ir_defined(&self) -> bool;

    /// The rendered listing.
    fn dump_ir(&self) -> (r: String)
        requires
            self.ir_defined(),
        ensures
            r@ == self.ir_form(),
    ;
}

/// A value that renders itself as assembly text.
pub trait DumpAsm {
    /// The exact characters of the assembly text.
    spec fn asm_form(&self) -> Seq<char>;

    /// Which values have an assembly form.
    spec fn asm_defined(&self) -> bool;

    /// The rendered assembly text.
    fn dump_asm(&self) -> (r: String)
        requires
            self.asm_defined(),
        ensures
            r@ == self.asm_form(),
    ;
}

/// A machine register.
#[derive(Debug, Clone, Copy, PartialEq, Eq, Structural)]
pub enum Reg {
    X0,
    X1,
    X2,
    X3,
    X4,
    X5,
    X6,
    X7,
    X8,
    X9,
    X10,
    X11,
    X12,
    X13,
    X14,
    X15,
    X16,
    Iota,
    Sp,
    Fp,
    Lr,
    Pc,
}

/// The written name of a register.
pub open spec fn reg_name(r: Reg) -> Seq<char> {
    match r {
        Reg::X0 => "X0"@,
        Reg::X1 => "X1"@,
        Reg::X2 => "X2"@,
        Reg::X3 => "X3"@,
        Reg::X4 => "X4"@,
        Reg::X5 => "X5"@,
        Reg::X6 => "X6"@,
        Reg::X7 => "X7"@,
        Reg::X8 => "X8"@,
        Reg::X9 => "X9"@,
        Reg::X10 => "X10"@,
        Reg::X11 => "X11"@,
        Reg::X12 => "X12"@,
        Reg::X13 => "X13"@,
        Reg::X14 => "X14"@,
        Reg::X15 => "X15"@,
        Reg::X16 => "X16"@,
        Reg::Iota => "XIota"@,
        Reg::Sp => "Sp"@,
        Reg::Fp => "Fp"@,
        Reg::Lr => "Lr"@,
        Reg::Pc => "Pc"@,
    }
}

/// The register a written name denotes, if any.
pub open spec fn reg_of_name(s: Seq<char>) -> Option<Reg> {
    if s == "X0"@ {
        Some(Reg::X0)
    } else if s == "X1"@ {
        Some(Reg::X1)
    } else if s == "X2"@ {
        Some(Reg::X2)
    } else if s == "X3"@ {
        Some(Reg::X3)
    } else if s == "X4"@ {
        Some(Reg::X4)
    } else if s == "X5"@ {
        Some(Reg::X5)
    } else if s == "X6"@ {
        Some(Reg::X6)
    } else if s == "X7"@ {
        Some(Reg::X7)
    } else if s == "X8"@ {
        Some(Reg::X8)
    } else if s == "X9"@ {
        Some(Reg::X9)
    } else if s == "X10"@ {
        Some(Reg::X10)
    } else if s == "X11"@ {
        Some(Reg::X11)
    } else if s == "X12"@ {
        Some(Reg::X12)
    } else if s == "X13"@ {
        Some(Reg::X13)
    } else if s == "X14"@ {
        Some(Reg::X14)
    } else if s == "X15"@ {
        Some(Reg::X15)
    } else if s == "X16"@ {
        Some(Reg::X16)
    } else if s == "XIota"@ {
        Some(Reg::Iota)
    } else if s == "Sp"@ {
        Some(Reg::Sp)
    } else if s == "Fp"@ {
        Some(Reg::Fp)
    } else if s == "Lr"@ {
        Some(Reg::Lr)
    } else if s == "Pc"@ {
        Some(Reg::Pc)
    } else {
        None
    }
}

/// Whether two pieces of text hold the same characters.
fn str_eq(a: &str, b: &str) -> (r: bool)
    ensures
        r == (a@ == b@),
{
    String::from_str(a).eq(&String::from_str(b))
}

impl Reg {
    /// The written name of this register.
    pub fn to_string(&self) -> (r: String)
        ensures
            r@ == reg_name(*self),
    {
        match self {
            Reg::X0 => String::from_str("X0"),
            Reg::X1 => String::from_str("X1"),
            Reg::X2 => String::from_str("X2"),
            Reg::X3 => String::from_str("X3"),
            Reg::X4 => String::from_str("X4"),
            Reg::X5 => String::from_str("X5"),
            Reg::X6 => String::from_str("X6"),
            Reg::X7 => String::from_str("X7"),
            Reg::X8 => String::from_str("X8"),
            Reg::X9 => String::from_str("X9"),
            Reg::X10 => String::from_str("X10"),
            Reg::X11 => String::from_str("X11"),
            Reg::X12 => String::from_str("X12"),
            Reg::X13 => String::from_str("X13"),
            Reg::X14 => String::from_str("X14"),
            Reg::X15 => String::from_str("X15"),
            Reg::X16 => String::from_str("X16"),
            Reg::Iota => String::from_str("XIota"),
            Reg::Sp => String::from_str("Sp"),
            Reg::Fp => String::from_str("Fp"),
            Reg::Lr => String::from_str("Lr"),
            Reg::Pc => String::from_str("Pc"),
        }
    }

    /// The register `s` names, or a message naming the invalid text.
    pub fn from_str(s: &str) -> (r: Result<Reg, String>)
        ensures
            (match reg_of_name(s@) {
                Some(reg) => r == Ok::<Reg, String>(reg),
                None => r is Err && r->Err_0@ == "Invalid register: "@ + s@,
            }),
    {
        if str_eq(s, "X0") {
            Ok(Reg::X0)
        } else if str_eq(s, "X1") {
            Ok(Reg::X1)
        } else if str_eq(s, "X2") {
            Ok(Reg::X2)
        } else if str_eq(s, "X3") {
            Ok(Reg::X3)
        } else if str_eq(s, "X4") {
            Ok(Reg::X4)
        } else if str_eq(s, "X5") {
            Ok(Reg::X5)
        } else if str_eq(s, "X6") {
            Ok(Reg::X6)
        } else if str_eq(s, "X7") {
            Ok(Reg::X7)
        } else if str_eq(s, "X8") {
            Ok(Reg::X8)
        } else if str_eq(s, "X9") {
            Ok(Reg::X9)
        } else if str_eq(s, "X10") {
            Ok(Reg::X10)
        } else if str_eq(s, "X11") {
            Ok(Reg::X11)
        } else if str_eq(s, "X12") {
            Ok(Reg::X12)
        } else if str_eq(s, "X13") {
            Ok(Reg::X13)
        } else if str_eq(s, "X14") {
            Ok(Reg::X14)
        } else if str_eq(s, "X15") {
            Ok(Reg::X15)
        } else if str_eq(s, "X16") {
            Ok(Reg::X16)
        } else if str_eq(s, "XIota") {
            Ok(Reg::Iota)
        } else if str_eq(s, "Sp") {
            Ok(Reg::Sp)
        } else if str_eq(s, "Fp") {
            Ok(Reg::Fp)
        } else if str_eq(s, "Lr") {
            Ok(Reg::Lr)
        } else if str_eq(s, "Pc") {
            Ok(Reg::Pc)
        } else {
            let mut msg = String::from_str("Invalid register: ");
            msg.append(s);
            Err(msg)
        }
    }
}

/// Where a static variable is visible.
pub enum Scope {
    Global,
    Local(String),
}

/// A value type of the intermediate form. The floating-point widths are
/// carried as names only; no floating-point value ever appears.
pub enum Ty {
    I64,
    I32,
    I16,
    I8,
    U64,
    U32,
    U16,
    U8,
    F64,
    F32,
    Ptr(Box<Ty>),
    Arr(Box<Ty>, usize),
    Void,
}

/// The listing form of a type: its name, a pointee type and a star, or an
/// element type and a length in brackets.
pub open spec fn ty_ir(t: Ty) -> Seq<char>
    decreases t,
{
    match t {
        Ty::I64 => "i64"@,
        Ty::I32 => "i32"@,
        Ty::I16 => "i16"@,
        Ty::I8 => "i8"@,
        Ty::U64 => "u64"@,
        Ty::U32 => "u32"@,
        Ty::U16 => "u16"@,
        Ty::U8 => "u8"@,
        Ty::F64 => "f64"@,
        Ty::F32 => "f32"@,
        Ty::Ptr(inner) => ty_ir(*inner) + "*"@,
        Ty::Arr(inner, len) => "["@ + ty_ir(*inner) + "; "@ + dec_rep(len as nat) + "]"@,
        Ty::Void => "void"@,
    }
}

impl DumpIr for Ty {
    open spec fn ir_form(&self) -> Seq<char> {
        ty_ir(*self)
    }

    open spec fn ir_defined(&self) -> bool {
        true
    }

    fn dump_ir(&self) -> (r: String)
        decreases *self,
    {
        match self {
            Ty::I64 => String::from_str("i64"),
            Ty::I32 => String::from_str("i32"),
            Ty::I16 => String::from_str("i16"),
            Ty::I8 => String::from_str("i8"),
            Ty::U64 => String::from_str("u64"),
            Ty::U32 => String::from_str("u32"),
            Ty::U16 => String::from_str("u16"),
            Ty::U8 => String::from_str("u8"),
            Ty::F64 => String::from_str("f64"),
            Ty::F32 => String::from_str("f32"),
            Ty::Ptr(inner) => {
                let mut s = inner.dump_ir();
                s.append("*");
                s
            },
            Ty::Arr(inner, len) => {
                let mut s = String::from_str("[");
                s.append(inner.dump_ir().as_str());
                s.append("; ");
                push_usize_dec(&mut s, *len);
                s.append("]");
                proof {
                    assert(s@ =~= self.ir_form());
                }
                s
            },
            Ty::Void => String::from_str("void"),
        }
    }
}

/// An operand of the intermediate form.
pub enum Expr {
    Reg(Reg),
    Imm { ty: Ty, val: i64 },
    Global(String),
}

/// The listing form of an operand: a register name, a typed immediate, or
/// a global's name.
pub open spec fn expr_ir(e: Expr) -> Seq<char> {
    match e {
        Expr::Reg(r) => reg_name(r),
        Expr::Imm { ty, val } => ty_ir(ty) + " "@ + dec_rep_signed(val as int),
        Expr::Global(g) => g@,
    }
}

impl DumpIr for Expr {
    open spec fn ir_form(&self) -> Seq<char> {
        expr_ir(*self)
    }

    open spec fn ir_defined(&self) -> bool {
        true
    }

    fn dump_ir(&self) -> (r: String) {
        match self {
            Expr::Reg(reg) => reg.to_string(),
            Expr::Imm { ty, val } => {
                let mut s = ty.dump_ir();
                s.append(" ");
                push_i64_dec(&mut s, *val);
                proof {
                    assert(s@ =~= self.ir_form());
                }
                s
            },
            Expr::Global(global) => global.clone(),
        }
    }
}

/// An instruction of the intermediate form.
pub enum Instr {
    Const { reg: Reg, ty: Ty, val: i64 },
    Call { name: String, ty: String, args: Vec<Expr> },
    AddrOf { dst: Reg, ty: Ty, ptr: String, ix: String, offset: String },
    Push {
        /// Space in bytes: allocation space for one item is eight bytes.
        space: usize,
        expr: Expr,
    },
    Add { dst: Reg, ty: Ty, first: Expr, second: Expr },
    /// A placeholder until linking exists.
    Syscall { imm: String },
}

/// The listing form of a call's arguments: a comma and a space before
/// each one.
pub open spec fn call_args_ir(args: Seq<Expr>) -> Seq<char>
    decreases args.len(),
{
    if args.len() == 0 {
        Seq::empty()
    } else {
        call_args_ir(args.drop_last()) + ", "@ + expr_ir(args.last())
    }
}

/// The listing form of an instruction. Stack pushes and adds have none.
pub open spec fn instr_ir_form(i: Instr) -> Seq<char> {
    match i {
        Instr::Const { reg, ty, val } => reg_name(reg) + " = const "@ + ty_ir(ty) + " "@
            + dec_rep_signed(val as int),
        Instr::Call { name, ty, args } => "call "@ + ty@ + " @"@ + name@ + " ("@ + call_args_ir(
            args@,
        ) + ")"@,
        Instr::AddrOf { dst, ty, ptr, ix, offset } => reg_name(dst) + " = addrof "@ + ty_ir(ty)
            + ", "@ + ptr@ + ", "@ + ix@ + ", "@ + offset@,
        Instr::Push { .. } => Seq::empty(),
        Instr::Add { .. } => Seq::empty(),
        Instr::Syscall { imm } => "syscall #"@ + imm@,
    }
}

impl DumpIr for Instr {
    open spec fn ir_form(&self) -> Seq<char> {
        instr_ir_form(*self)
    }

    open spec fn ir_defined(&self) -> bool {
        !(self is Push || self is Add)
    }

    fn dump_ir(&self) -> (r: String) {
        match self {
            Instr::Const { reg, ty, val } => {
                let mut s = reg.to_string();
                s.append(" = const ");
                s.append(ty.dump_ir().as_str());
                s.append(" ");
                push_i64_dec(&mut s, *val);
                proof {
                    assert(s@ =~= self.ir_form());
                }
                s
            },
            Instr::Call { name, ty, args } => {
                let mut s = String::from_str("call ");
                s.append(ty.as_str());
                s.append(" @");
                s.append(name.as_str());
                s.append(" (");
                let ghost head = s@;
                let mut i: usize = 0;
                while i < args.len()
                    invariant
                        i <= args@.len(),
                        head == "call "@ + ty@ + " @"@ + name@ + " ("@,
                        s@ == head + call_args_ir(args@.subrange(0, i as int)),
                    decreases args@.len() - i,
                {
                    s.append(", ");
                    let rendered = args[i].dump_ir();
                    s.append(rendered.as_str());
                    proof {
                        assert(args@.subrange(0, i + 1 as int).drop_last() =~= args@.subrange(
                            0,
                            i as int,
                        ));
                        assert(args@.subrange(0, i + 1 as int).last() == args@[i as int]);
                        assert(s@ =~= head + call_args_ir(args@.subrange(0, i + 1 as int)));
                    }
                    i = i + 1;
                }
                s.append(")");
                proof {
                    assert(args@.subrange(0, args@.len() as int) =~= args@);
                    assert(s@ =~= self.ir_form());
                }
                s
            },
            Instr::AddrOf { dst, ty, ptr, ix, offset } => {
                let mut s = dst.to_string();
                s.append(" = addrof ");
                s.append(ty.dump_ir().as_str());
                s.append(", ");
                s.append(ptr.as_str());
                s.append(", ");
                s.append(ix.as_str());
                s.append(", ");
                s.append(offset.as_str());
                proof {
                    assert(s@ =~= self.ir_form());
                }
                s
            },
            Instr::Push { .. } => String::new(),
            Instr::Add { .. } => String::new(),
            Instr::Syscall { imm } => {
                let mut s = String::from_str("syscall #");
                s.append(imm.as_str());
                s
            },
        }
    }
}

/// A function defined in another module and linked against.
pub struct Extern {
    pub _name: String,
    pub _ty: Ty,
    pub _args: Vec<String>,
}

/// A variable defined and initialized at compile time, stored in the data
/// section.
pub struct Static {
    pub name: String,
    pub _scope: Scope,
    pub ty: Ty,
    pub val: String,
}

/// A top-level declaration.
pub enum Decl {
    Func(Func),
    Extern(Extern),
    Static(Static),
}

/// A function of the intermediate form.
pub struct Func {
    pub name: String,
    pub ty: Ty,
    pub params: Vec<(String, Ty)>,
    pub body: Vec<Instr>,
}

/// A compilation unit: its functions, its static variables, and the
/// externs it links against.
pub struct Module {
    pub funcs: Vec<Func>,
    pub globals: Vec<Static>,
    pub _externs: Vec<Extern>,
}

/// The listing form of one parameter: its name, a space, a percent sign,
/// and its type.
pub open spec fn param_ir(p: (String, Ty)) -> Seq<char> {
    p.0@ + " %"@ + ty_ir(p.1)
}

/// The listing form of a parameter list, comma separated.
pub open spec fn params_ir(ps: Seq<(String, Ty)>) -> Seq<char>
    decreases ps.len(),
{
    if ps.len() == 0 {
        Seq::empty()
    } else if ps.len() == 1 {
        param_ir(ps[0])
    } else {
        params_ir(ps.drop_last()) + ", "@ + param_ir(ps.last())
    }
}

/// The listing form of a function body: each instruction indented on its
/// own line.
pub open spec fn body_ir(body: Seq<Instr>) -> Seq<char>
    decreases body.len(),
{
    if body.len() == 0 {
        Seq::empty()
    } else {
        body_ir(body.drop_last()) + "    "@ + instr_ir_form(body.last()) + "\n"@
    }
}

/// The listing form of a function: its header, an entry label, and its
/// body.
pub open spec fn func_ir(f: Func) -> Seq<char> {
    "define "@ + ty_ir(f.ty) + " @"@ + f.name@ + "("@ + params_ir(f.params@) + ") {\nentry:\n"@
        + body_ir(f.body@) + "}\n"@
}

impl DumpIr for Func {
    open spec fn ir_form(&self) -> Seq<char> {
        func_ir(*self)
    }

    open spec fn ir_defined(&self) -> bool {
        forall|i: int| 0 <= i < self.body@.len() ==> (#[trigger] self.body@[i]).ir_defined()
    }

    fn dump_ir(&self) -> (r: String) {
        let mut s = String::from_str("define ");
        s.append(self.ty.dump_ir().as_str());
        s.append(" @");
        s.append(self.name.as_str());
        s.append("(");
        let ghost head = s@;
        let mut i: usize = 0;
        while i < self.params.len()
            invariant
                i <= self.params@.len(),
                head == "define "@ + ty_ir(self.ty) + " @"@ + self.name@ + "("@,
                s@ == head + params_ir(self.params@.subrange(0, i as int)),
            decreases self.params@.len() - i,
        {
            if i != 0 {
                s.append(", ");
            }
            let (arg, ty) = &self.params[i];
            s.append(arg.as_str());
            s.append(" %");
            s.append(ty.dump_ir().as_str());
            proof {
                assert(self.params@.subrange(0, i + 1 as int).drop_last() =~= self.params@.subrange(
                    0,
                    i as int,
                ));
                assert(self.params@.subrange(0, i + 1 as int).last() == self.params@[i as int]);
                assert(s@ =~= head + params_ir(self.params@.subrange(0, i + 1 as int)));
            }
            i = i + 1;
        }
        proof {
            assert(self.params@.subrange(0, self.params@.len() as int) =~= self.params@);
        }
        s.append(") {\nentry:\n");
        let ghost mid = s@;
        let mut j: usize = 0;
        while j < self.body.len()
            invariant
                j <= self.body@.len(),
                mid == head + params_ir(self.params@) + ") {\nentry:\n"@,
                s@ == mid + body_ir(self.body@.subrange(0, j as int)),
                self.ir_defined(),
            decreases self.body@.len() - j,
        {
            s.append("    ");
            let line = self.body[j].dump_ir();
            s.append(line.as_str());
            s.append("\n");
            proof {
                assert(self.body@.subrange(0, j + 1 as int).drop_last() =~= self.body@.subrange(
                    0,
                    j as int,
                ));
                assert(self.body@.subrange(0, j + 1 as int).last() == self.body@[j as int]);
                assert(s@ =~= mid + body_ir(self.body@.subrange(0, j + 1 as int)));
            }
            j = j + 1;
        }
        s.append("}\n");
        proof {
            assert(self.body@.subrange(0, self.body@.len() as int) =~= self.body@);
            assert(s@ =~= self.ir_form());
        }
        s
    }
}

/// The listing form of one static variable.
pub open spec fn static_ir(v: Static) -> Seq<char> {
    "@"@ + v.name@ + " = global "@ + ty_ir(v.ty) + " "@ + v.val@ + "\n"@
}

/// The listing form of a run of static variables.
pub open spec fn globals_ir(gs: Seq<Static>) -> Seq<char>
    decreases gs.len(),
{
    if gs.len() == 0 {
        Seq::empty()
    } else {
        globals_ir(gs.drop_last()) + static_ir(gs.last())
    }
}

/// The listing form of a run of functions.
pub open spec fn funcs_ir(fs: Seq<Func>) -> Seq<char>
    decreases fs.len(),
{
    if fs.len() == 0 {
        Seq::empty()
    } else {
        funcs_ir(fs.drop_last()) + func_ir(fs.last())
    }
}

impl DumpIr for Module {
    open spec fn ir_form(&self) -> Seq<char> {
        globals_ir(self.globals@) + funcs_ir(self.funcs@)
    }

    open spec fn ir_defined(&self) -> bool {
        forall|i: int| 0 <= i < self.funcs@.len() ==> (#[trigger] self.funcs@[i]).ir_defined()
    }

    fn dump_ir(&self) -> (r: String) {
        let mut s = String::new();
        let mut i: usize = 0;
        while i < self.globals.len()
            invariant
                i <= self.globals@.len(),
                s@ == globals_ir(self.globals@.subrange(0, i as int)),
            decreases self.globals@.len() - i,
        {
            let var = &self.globals[i];
            s.append("@");
            s.append(var.name.as_str());
            s.append(" = global ");
            s.append(var.ty.dump_ir().as_str());
            s.append(" ");
            s.append(var.val.as_str());
            s.append("\n");
            proof {
                assert(self.globals@.subrange(0, i + 1 as int).drop_last()
                    =~= self.globals@.subrange(0, i as int));
                assert(self.globals@.subrange(0, i + 1 as int).last() == self.globals@[i as int]);
                assert(s@ =~= globals_ir(self.globals@.subrange(0, i + 1 as int)));
            }
            i = i + 1;
        }
        proof {
            assert(self.globals@.subrange(0, self.globals@.len() as int) =~= self.globals@);
        }
        let ghost head = s@;
        let mut j: usize = 0;
        while j < self.funcs.len()
            invariant
                j <= self.funcs@.len(),
                head == globals_ir(self.globals@),
                s@ == head + funcs_ir(self.funcs@.subrange(0, j as int)),
                self.ir_defined(),
            decreases self.funcs@.len() - j,
        {
            let rendered = self.funcs[j].dump_ir();
            s.append(rendered.as_str());
            proof {
                assert(self.funcs@.subrange(0, j + 1 as int).drop_last() =~= self.funcs@.subrange(
                    0,
                    j as int,
                ));
                assert(self.funcs@.subrange(0, j + 1 as int).last() == self.funcs@[j as int]);
                assert(s@ =~= head + funcs_ir(self.funcs@.subrange(0, j + 1 as int)));
            }
            j = j + 1;
        }
        proof {
            assert(self.funcs@.subrange(0, self.funcs@.len() as int) =~= self.funcs@);
            assert(s@ =~= self.ir_form());
        }
        s
    }
}

/// The assembly lines that load a call's arguments: one `adr` per
/// argument, the destination register numbered from one.
pub open spec fn adr_lines(args: Seq<Expr>) -> Seq<char>
    decreases args.len(),
{
    if args.len() == 0 {
        Seq::empty()
    } else {
        adr_lines(args.drop_last()) + "adr X"@ + dec_rep(args.len() as nat) + ", "@ + expr_ir(
            args.last(),
        ) + "\n"@
    }
}

/// The assembly form of an instruction. Adds have none; a stack push
/// needs its byte count to fit the machine when scaled.
pub open spec fn instr_asm_form(i: Instr) -> Seq<char> {
    match i {
        Instr::Const { reg, val, .. } => "mov "@ + reg_name(reg) + ", #"@ + dec_rep_signed(
            val as int,
        ),
        Instr::Call { name, args, .. } => "mov X0, #"@ + dec_rep(args@.len()) + "\n"@ + adr_lines(
            args@,
        ) + "blr "@ + name@ + "\n"@,
        Instr::Syscall { imm } => "svc #"@ + imm@,
        Instr::AddrOf { dst, ptr, .. } => "adr "@ + reg_name(dst) + ", "@ + ptr@,
        Instr::Push { space, expr } => "sub sp, sp, #"@ + dec_rep((space * 8) as nat) + "\n"@
            + "str "@ + expr_ir(expr) + ", [sp, #0]\n"@,
        Instr::Add { .. } => Seq::empty(),
    }
}

impl DumpAsm for Instr {
    open spec fn asm_form(&self) -> Seq<char> {
        instr_asm_form(*self)
    }

    open spec fn asm_defined(&self) -> bool {
        match self {
            Instr::Add { .. } => false,
            Instr::Push { space, .. } => space <= usize::MAX / 8,
            _ => true,
        }
    }

    fn dump_asm(&self) -> (r: String) {
        match self {
            Instr::Const { reg, val, .. } => {
                let mut s = String::from_str("mov ");
                s.append(reg.to_string().as_str());
                s.append(", #");
                push_i64_dec(&mut s, *val);
                proof {
                    assert(s@ =~= self.asm_form());
                }
                s
            },
            Instr::Call { name, args, .. } => {
                let mut s = String::from_str("mov X0, #");
                push_usize_dec(&mut s, args.len());
                s.append("\n");
                let ghost head = s@;
                let mut i: usize = 0;
                while i < args.len()
                    invariant
                        i <= args@.len(),
                        head == "mov X0, #"@ + dec_rep(args@.len()) + "\n"@,
                        s@ == head + adr_lines(args@.subrange(0, i as int)),
                    decreases args@.len() - i,
                {
                    s.append("adr X");
                    push_usize_dec(&mut s, i + 1);
                    s.append(", ");
                    let rendered = args[i].dump_ir();
                    s.append(rendered.as_str());
                    s.append("\n");
                    proof {
                        assert(args@.subrange(0, i + 1 as int).drop_last() =~= args@.subrange(
                            0,
                            i as int,
                        ));
                        assert(args@.subrange(0, i + 1 as int).last() == args@[i as int]);
                        assert(args@.subrange(0, i + 1 as int).len() == i + 1);
                        assert(s@ =~= head + adr_lines(args@.subrange(0, i + 1 as int)));
                    }
                    i = i + 1;
                }
                s.append("blr ");
                s.append(name.as_str());
                s.append("\n");
                proof {
                    assert(args@.subrange(0, args@.len() as int) =~= args@);
                    assert(s@ =~= self.asm_form());
                }
                s
            },
            Instr::Syscall { imm } => {
                let mut s = String::from_str("svc #");
                s.append(imm.as_str());
                s
            },
            Instr::AddrOf { dst, ptr, .. } => {
                let mut s = String::from_str("adr ");
                s.append(dst.to_string().as_str());
                s.append(", ");
                s.append(ptr.as_str());
                proof {
                    assert(s@ =~= self.asm_form());
                }
                s
            },
            Instr::Push { space, expr } => {
                let mut s = String::from_str("sub sp, sp, #");
                push_usize_dec(&mut s, *space * 8);
                s.append("\n");
                s.append("str ");
                s.append(expr.dump_ir().as_str());
                s.append(", [sp, #0]\n");
                proof {
                    assert(s@ =~= self.asm_form());
                }
                s
            },
            Instr::Add { .. } => String::new(),
        }
    }
}

/// The assembly form of one static variable: its export, its alignment,
/// and its label with the value as text.
pub open spec fn static_asm(v: Static) -> Seq<char> {
    ".global "@ + v.name@ + "\n"@ + ".align 2\n"@ + v.name@ + ": .ascii "@ + v.val@ + "\n"@
}

/// The assembly form of a run of static variables.
pub open spec fn globals_asm(gs: Seq<Static>) -> Seq<char>
    decreases gs.len(),
{
    if gs.len() == 0 {
        Seq::empty()
    } else {
        globals_asm(gs.drop_last()) + static_asm(gs.last())
    }
}

/// The assembly lines of a function body: each instruction indented on
/// its own line.
pub open spec fn body_asm(body: Seq<Instr>) -> Seq<char>
    decreases body.len(),
{
    if body.len() == 0 {
        Seq::empty()
    } else {
        body_asm(body.drop_last()) + "    "@ + instr_asm_form(body.last()) + "\n"@
    }
}

/// The assembly form of a function: its export, its alignment, its label,
/// and its body.
pub open spec fn func_asm(f: Func) -> Seq<char> {
    ".global "@ + f.name@ + "\n"@ + ".align 2\n"@ + f.name@ + ":\n"@ + body_asm(f.body@)
}

/// The assembly form of a run of functions.
pub open spec fn funcs_asm(fs: Seq<Func>) -> Seq<char>
    decreases fs.len(),
{
    if fs.len() == 0 {
        Seq::empty()
    } else {
        funcs_asm(fs.drop_last()) + func_asm(fs.last())
    }
}

/// The assembly text of one function: its export, its alignment, its
/// label, and its body.
fn func_asm_text(f: &Func) -> (r: String)
    requires
        forall|m: int| 0 <= m < f.body@.len() ==> (#[trigger] f.body@[m]).asm_defined(),
    ensures
        r@ == func_asm(*f),
{
    let mut s = String::from_str(".global ");
    s.append(f.name.as_str());
    s.append("\n");
    s.append(".align 2\n");
    s.append(f.name.as_str());
    s.append(":\n");
    let ghost fhead = s@;
    let mut k: usize = 0;
    while k < f.body.len()
        invariant
            k <= f.body@.len(),
            fhead == ".global "@ + f.name@ + "\n"@ + ".align 2\n"@ + f.name@ + ":\n"@,
            s@ == fhead + body_asm(f.body@.subrange(0, k as int)),
            forall|m: int| 0 <= m < f.body@.len() ==> (#[trigger] f.body@[m]).asm_defined(),
        decreases f.body@.len() - k,
    {
        s.append("    ");
        let line = f.body[k].dump_asm();
        s.append(line.as_str());
        s.append("\n");
        proof {
            assert(f.body@.subrange(0, k + 1 as int).drop_last() =~= f.body@.subrange(0, k as int));
            assert(f.body@.subrange(0, k + 1 as int).last() == f.body@[k as int]);
            assert(s@ =~= fhead + body_asm(f.body@.subrange(0, k + 1 as int)));
        }
        k = k + 1;
    }
    proof {
        assert(f.body@.subrange(0, f.body@.len() as int) =~= f.body@);
        assert(s@ =~= func_asm(*f));
    }
    s
}

impl DumpAsm for Module {
    open spec fn asm_form(&self) -> Seq<char> {
        globals_asm(self.globals@) + funcs_asm(self.funcs@)
    }

    open spec fn asm_defined(&self) -> bool {
        forall|i: int, j: int|
            0 <= i < self.funcs@.len() && 0 <= j < self.funcs@[i].body@.len()
                ==> (#[trigger] self.funcs@[i].body@[j]).asm_defined()
    }

    fn dump_asm(&self) -> (r: String) {
        let mut s = String::new();
        let mut i: usize = 0;
        while i < self.globals.len()
            invariant
                i <= self.globals@.len(),
                s@ == globals_asm(self.globals@.subrange(0, i as int)),
            decreases self.globals@.len() - i,
        {
            let var = &self.globals[i];
            s.append(".global ");
            s.append(var.name.as_str());
            s.append("\n");
            s.append(".align 2\n");
            s.append(var.name.as_str());
            s.append(": .ascii ");
            s.append(var.val.as_str());
            s.append("\n");
            proof {
                assert(self.globals@.subrange(0, i + 1 as int).drop_last()
                    =~= self.globals@.subrange(0, i as int));
                assert(self.globals@.subrange(0, i + 1 as int).last() == self.globals@[i as int]);
                assert(s@ =~= globals_asm(self.globals@.subrange(0, i + 1 as int)));
            }
            i = i + 1;
        }
        proof {
            assert(self.globals@.subrange(0, self.globals@.len() as int) =~= self.globals@);
        }
        let ghost head = s@;
        let mut j: usize = 0;
        while j < self.funcs.len()
            invariant
                j <= self.funcs@.len(),
                head == globals_asm(self.globals@),
                s@ == head + funcs_asm(self.funcs@.subrange(0, j as int)),
                self.asm_defined(),
            decreases self.funcs@.len() - j,
        {
            let rendered = func_asm_text(&self.funcs[j]);
            s.append(rendered.as_str());
            proof {
                assert(self.funcs@.subrange(0, j + 1 as int).drop_last() =~= self.funcs@.subrange(
                    0,
                    j as int,
                ));
                assert(self.funcs@.subrange(0, j + 1 as int).last() == self.funcs@[j as int]);
                assert(s@ =~= head + funcs_asm(self.funcs@.subrange(0, j + 1 as int)));
            }
            j = j + 1;
        }
        proof {
            assert(self.funcs@.subrange(0, self.funcs@.len() as int) =~= self.funcs@);
            assert(s@ =~= self.asm_form());
        }
        s
    }
}

} // verus!
