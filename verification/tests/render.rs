//! The textual renderers: decimal formatting, the two-operand assembly
//! generator, and the intermediate-form dumpers.

use mik::fmtnum::push_i64_dec;
use mik::fmtnum::push_u64_dec;
use mik::fmtnum::push_usize_dec;
use mik::gen::GenAsm;
use mik::ir;
use mik::ir::DumpAsm;
use mik::ir::DumpIr;
use mik::ir2;

#[test]
fn t_func() {
    let ir_src = ir2::Func {
        name: "main".to_string(),
        args: vec![],
        body: vec![],
    };
    let act = ir_src.gen_asm();
    let exp = r#".global main
.align 2
main:
"#;
    assert_eq!(act, exp);
}

#[test]
fn t_add_imm() {
    let ir_src = ir2::Instr::Add {
        dest: ir2::Dest::Reg(ir2::Reg::R(0)),
        src1: ir2::Expr::Imm(35),
        src2: ir2::Expr::Imm(34),
    };
    let act = ir_src.gen_asm();
    let exp = "add X0, #35, #34";
    assert_eq!(act, exp);
}

#[test]
fn t_add_reg() {
    let ir_src = ir2::Instr::Add {
        dest: ir2::Dest::Reg(ir2::Reg::R(0)),
        src1: ir2::Expr::Reg(ir2::Reg::R(1)),
        src2: ir2::Expr::Imm(35),
    };
    let act = ir_src.gen_asm();
    let exp = "add X0, X1, #35";
    assert_eq!(act, exp);
}

#[test]
fn t_sub_imm() {
    let ir_src = ir2::Instr::Sub {
        dest: ir2::Dest::Reg(ir2::Reg::R(0)),
        src1: ir2::Expr::Imm(500),
        src2: ir2::Expr::Imm(80),
    };
    let act = ir_src.gen_asm();
    let exp = "sub X0, #500, #80";
    assert_eq!(act, exp);
}

#[test]
fn t_sub_reg() {
    let ir_src = ir2::Instr::Sub {
        dest: ir2::Dest::Reg(ir2::Reg::R(0)),
        src1: ir2::Expr::Reg(ir2::Reg::R(1)),
        src2: ir2::Expr::Imm(80),
    };
    let act = ir_src.gen_asm();
    let exp = "sub X0, X1, #80";
    assert_eq!(act, exp);
}

#[test]
fn gen_handles_variables_stack_pointer_and_bodies() {
    let instr = ir2::Instr::Add {
        dest: ir2::Dest::Var("total".to_string()),
        src1: ir2::Expr::Reg(ir2::Reg::Sp),
        src2: ir2::Expr::Imm(-8),
    };
    assert_eq!(instr.gen_asm(), "add total, SP, #-8");
    let body = vec![
        ir2::Instr::Add {
            dest: ir2::Dest::Reg(ir2::Reg::R(2)),
            src1: ir2::Expr::Imm(1),
            src2: ir2::Expr::Imm(2),
        },
        ir2::Instr::Sub {
            dest: ir2::Dest::Reg(ir2::Reg::R(3)),
            src1: ir2::Expr::Reg(ir2::Reg::R(2)),
            src2: ir2::Expr::Imm(1),
        },
    ];
    assert_eq!(body.gen_asm(), "add X2, #1, #2\nsub X3, X2, #1\n");
    let func = ir2::Func {
        name: "calc".to_string(),
        args: vec!["x".to_string()],
        body,
    };
    assert_eq!(
        func.gen_asm(),
        ".global calc\n.align 2\ncalc:\n    add X2, #1, #2\n    sub X3, X2, #1\n"
    );
}

#[test]
fn decimal_rendering_is_exact() {
    let mut s = String::new();
    push_u64_dec(&mut s, 0);
    assert_eq!(s, "0");
    let mut s = String::new();
    push_u64_dec(&mut s, 9070);
    assert_eq!(s, "9070");
    let mut s = String::new();
    push_usize_dec(&mut s, 18446744073709551615);
    assert_eq!(s, "18446744073709551615");
    let mut s = String::new();
    push_i64_dec(&mut s, -80);
    assert_eq!(s, "-80");
    let mut s = String::new();
    push_i64_dec(&mut s, i64::MIN);
    assert_eq!(s, "-9223372036854775808");
}

#[test]
fn types_render_recursively() {
    assert_eq!(ir::Ty::I64.dump_ir(), "i64");
    assert_eq!(ir::Ty::Void.dump_ir(), "void");
    assert_eq!(ir::Ty::Ptr(Box::new(ir::Ty::I8)).dump_ir(), "i8*");
    assert_eq!(
        ir::Ty::Arr(Box::new(ir::Ty::Ptr(Box::new(ir::Ty::U32))), 14).dump_ir(),
        "[u32*; 14]"
    );
}

#[test]
fn instructions_render_as_listing() {
    let konst = ir::Instr::Const {
        reg: ir::Reg::X0,
        ty: ir::Ty::I64,
        val: 1,
    };
    assert_eq!(konst.dump_ir(), "X0 = const i64 1");
    let call = ir::Instr::Call {
        name: "foo".to_string(),
        ty: "i64".to_string(),
        args: vec![
            ir::Expr::Reg(ir::Reg::X1),
            ir::Expr::Imm { ty: ir::Ty::I32, val: -5 },
            ir::Expr::Global("@g".to_string()),
        ],
    };
    assert_eq!(call.dump_ir(), "call i64 @foo (, X1, i32 -5, @g)");
    let addr = ir::Instr::AddrOf {
        dst: ir::Reg::X1,
        ty: ir::Ty::I64,
        ptr: "@helloworld".to_string(),
        ix: "i64 0".to_string(),
        offset: "i64 0".to_string(),
    };
    assert_eq!(addr.dump_ir(), "X1 = addrof i64, @helloworld, i64 0, i64 0");
    let syscall = ir::Instr::Syscall { imm: "0x80".to_string() };
    assert_eq!(syscall.dump_ir(), "syscall #0x80");
}

#[test]
fn module_renders_globals_then_functions() {
    let module = ir::Module {
        funcs: vec![ir::Func {
            name: "main".to_string(),
            ty: ir::Ty::I64,
            params: vec![],
            body: vec![ir::Instr::Const { reg: ir::Reg::X0, ty: ir::Ty::I64, val: 69 }],
        }],
        globals: vec![ir::Static {
            name: "g".to_string(),
            _scope: ir::Scope::Global,
            ty: ir::Ty::I64,
            val: "69".to_string(),
        }],
        _externs: vec![ir::Extern {
            _name: "write".to_string(),
            _ty: ir::Ty::Void,
            _args: vec!["i64".to_string()],
        }],
    };
    assert_eq!(
        module.dump_ir(),
        "@g = global i64 69\ndefine i64 @main() {\nentry:\n    X0 = const i64 69\n}\n"
    );
    assert_eq!(
        module.dump_asm(),
        ".global g\n.align 2\ng: .ascii 69\n.global main\n.align 2\nmain:\n    mov X0, #69\n"
    );
}

#[test]
fn function_header_renders_parameters() {
    let func = ir::Func {
        name: "two".to_string(),
        ty: ir::Ty::I32,
        params: vec![
            ("a".to_string(), ir::Ty::I64),
            ("b".to_string(), ir::Ty::I8),
        ],
        body: vec![],
    };
    assert_eq!(func.dump_ir(), "define i32 @two(a %i64, b %i8) {\nentry:\n}\n");
}

#[test]
fn stack_push_renders_as_assembly_only() {
    let push = ir::Instr::Push {
        space: 2,
        expr: ir::Expr::Reg(ir::Reg::X0),
    };
    assert_eq!(push.dump_asm(), "sub sp, sp, #16\nstr X0, [sp, #0]\n");
    let call = ir::Instr::Call {
        name: "foo".to_string(),
        ty: "i64".to_string(),
        args: vec![ir::Expr::Global("@a".to_string()), ir::Expr::Global("@b".to_string())],
    };
    assert_eq!(call.dump_asm(), "mov X0, #2\nadr X1, @a\nadr X2, @b\nblr foo\n");
    let syscall = ir::Instr::Syscall { imm: "0x80".to_string() };
    assert_eq!(syscall.dump_asm(), "svc #0x80");
}

#[test]
fn register_names_round_trip() {
    assert_eq!(ir::Reg::X0.to_string(), "X0");
    assert_eq!(ir::Reg::Iota.to_string(), "XIota");
    assert_eq!(ir::Reg::Sp.to_string(), "Sp");
    assert_eq!(ir::Reg::from_str("X3"), Ok(ir::Reg::X3));
    assert_eq!(ir::Reg::from_str("Pc"), Ok(ir::Reg::Pc));
    assert_eq!(
        ir::Reg::from_str("nope"),
        Err("Invalid register: nope".to_string())
    );
}
