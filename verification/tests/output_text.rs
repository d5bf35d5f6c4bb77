// Exact-text checks of the printer and the full emission, plus unit tests
// of the environment, the type inferencer, and the number formatting.
use minicc::assembly::{
    al, immediate, int_to_string, label, m_rax, mov, nat_to_string, pop, print_assembly_code,
    print_single_instruction, push, rax, rbp, sete, Instruction,
};
use minicc::ast::{
    data_type_eq, int_type, pointer, void, ArithExpr, Atom, Expr, Factor, Program, ProgramUnit,
    Statement, Unary,
};
use minicc::gen_code::{print_assembly, MetaInfo};
use minicc::infer_type::{infer_2types, infer_type, infer_type_expr};

fn atom_expr(a: Atom) -> Expr {
    Expr::ArithExpr(Box::new(ArithExpr::Factor(Box::new(Factor::Unary(Box::new(
        Unary::Atom(Box::new(a)),
    ))))))
}

fn num(n: i32) -> Expr {
    atom_expr(Atom::Number(n))
}

fn add_expr(l: Expr, r: Expr) -> Expr {
    let la = match l {
        Expr::ArithExpr(a) => *a,
        _ => panic!("not arithmetic"),
    };
    let rf = match r {
        Expr::ArithExpr(a) => match *a {
            ArithExpr::Factor(f) => *f,
            _ => panic!("not a factor"),
        },
        _ => panic!("not arithmetic"),
    };
    Expr::ArithExpr(Box::new(ArithExpr::Add(Box::new(la), Box::new(rf))))
}

#[test]
fn emitted_text_for_addition() {
    // 1+2; : the full emitted file, byte for byte.
    let p = Program {
        program_units: vec![ProgramUnit::Statement(Box::new(Statement::Expr(Box::new(
            add_expr(num(1), num(2)),
        ))))],
    };
    let out = print_assembly(&p).unwrap();
    let expected = "\
.intel_syntax noprefix
.global main

main:
  push rbp
  mov rbp, rsp
  sub rsp, 0
  push 1
  push 2
  pop rdi
  pop rax
  add rax, rdi
  push rax
  pop rax
  mov rsp, rbp
  pop rbp
  ret
";
    assert_eq!(out, expected);
}

#[test]
fn emitted_text_begins_with_header() {
    let p = Program {
        program_units: vec![ProgramUnit::Statement(Box::new(Statement::Expr(Box::new(
            num(5),
        ))))],
    };
    let out = print_assembly(&p).unwrap();
    assert!(out.starts_with(".intel_syntax noprefix\n.global main\n\n"));
    for line in out.lines().skip(3) {
        if line.is_empty() {
            continue;
        }
        if line.ends_with(':') && !line.starts_with(' ') {
            continue;
        }
        assert!(line.starts_with("  "), "line not indented: {:?}", line);
        assert!(!line[2..].starts_with(' '), "over-indented: {:?}", line);
    }
}

#[test]
fn while_labels_match_and_increase() {
    // a=0; while (a<3) a=a+1;  uses .L1 (loop start) and .L2 (loop end).
    let var = |n: &str| atom_expr(Atom::Variable(n.to_string()));
    let p = Program {
        program_units: vec![
            ProgramUnit::Statement(Box::new(Statement::VarDef(int_type(), "a".to_string()))),
            ProgramUnit::Statement(Box::new(Statement::While(
                Box::new(Expr::Less(
                    Box::new(match var("a") {
                        Expr::ArithExpr(a) => *a,
                        _ => unreachable!(),
                    }),
                    Box::new(match num(3) {
                        Expr::ArithExpr(a) => *a,
                        _ => unreachable!(),
                    }),
                )),
                Box::new(Statement::Expr(Box::new(var("a")))),
            ))),
        ],
    };
    let out = print_assembly(&p).unwrap();
    assert!(out.contains(".L1:\n"));
    assert!(out.contains("  je .L2\n"));
    assert!(out.contains("  jmp .L1\n"));
    assert!(out.contains(".L2:\n"));
    // each generated label is defined exactly once
    assert_eq!(out.matches(".L1:\n").count(), 1);
    assert_eq!(out.matches(".L2:\n").count(), 1);
}

#[test]
fn fresh_labels_are_monotonic() {
    let mut meta = MetaInfo::new();
    assert_eq!(meta.get_new_label(), ".L1");
    assert_eq!(meta.get_new_label(), ".L2");
    assert_eq!(meta.get_new_label(), ".L3");
    for expected in 4..=12u64 {
        assert_eq!(meta.get_new_label(), format!(".L{}", expected));
    }
}

#[test]
fn break_labels_are_a_stack() {
    let mut meta = MetaInfo::new();
    meta.push_label_for_break(".L5".to_string());
    meta.push_label_for_break(".L9".to_string());
    assert_eq!(meta.get_label_for_break(), ".L9");
    assert_eq!(meta.pop_label_for_break(), ".L9");
    assert_eq!(meta.get_label_for_break(), ".L5");
    assert_eq!(meta.pop_label_for_break(), ".L5");
}

#[test]
fn registration_assigns_slots_in_order() {
    let mut meta = MetaInfo::new();
    meta.register_variable("a", &int_type());
    meta.register_variable("b", &pointer(1, int_type()));
    assert_eq!(meta.get_number_of_variables(), 2);
    let a = meta.get_variable(&"a".to_string()).unwrap();
    let b = meta.get_variable(&"b".to_string()).unwrap();
    assert_eq!(a.id, 0);
    assert_eq!(b.id, 1);
    assert!(data_type_eq(&a.data_type, &int_type()));
    assert!(data_type_eq(&b.data_type, &pointer(1, int_type())));
    assert!(meta.get_variable(&"c".to_string()).is_none());
}

#[test]
fn scopes_hide_outer_frames() {
    let mut meta = MetaInfo::new();
    meta.register_variable("a", &int_type());
    meta.push_scope();
    // only the innermost frame is consulted
    assert!(meta.get_variable(&"a".to_string()).is_none());
    assert_eq!(meta.get_number_of_variables(), 0);
    meta.pop_scope();
    assert!(meta.get_variable(&"a".to_string()).is_some());
}

#[test]
fn batch_registration_preserves_order() {
    let mut meta = MetaInfo::new();
    let params = vec![
        (int_type(), "x".to_string()),
        (int_type(), "y".to_string()),
        (int_type(), "z".to_string()),
    ];
    meta.register_variables(&params);
    assert_eq!(meta.get_variable(&"x".to_string()).unwrap().id, 0);
    assert_eq!(meta.get_variable(&"y".to_string()).unwrap().id, 1);
    assert_eq!(meta.get_variable(&"z".to_string()).unwrap().id, 2);
}

#[test]
fn inference_of_arithmetic() {
    let meta = MetaInfo::new();
    let t = infer_type_expr(&add_expr(num(1), num(2)), &meta).unwrap();
    assert!(data_type_eq(&t, &int_type()));
}

#[test]
fn inference_of_pointer_types() {
    let mut meta = MetaInfo::new();
    meta.register_variable("p", &pointer(1, int_type()));
    // *p has the pointee's type; &p adds one level
    let deref = Expr::ArithExpr(Box::new(ArithExpr::Factor(Box::new(Factor::Unary(
        Box::new(Unary::PointerDeref(Box::new(Atom::Variable("p".to_string())))),
    )))));
    let t = infer_type_expr(&deref, &meta).unwrap();
    assert!(data_type_eq(&t, &int_type()));
    let addr = atom_expr(Atom::AddressOf("p".to_string()));
    let t2 = infer_type_expr(&addr, &meta).unwrap();
    assert!(data_type_eq(&t2, &pointer(1, pointer(1, int_type()))));
}

#[test]
fn inference_mismatch_message() {
    let e = infer_2types(int_type(), pointer(1, int_type())).unwrap_err();
    assert_eq!(e, "Type mismatch: left is int, right is int*");
}

#[test]
fn inference_undefined_variable_message() {
    let meta = MetaInfo::new();
    let e = infer_type_expr(&atom_expr(Atom::Variable("q".to_string())), &meta).unwrap_err();
    assert_eq!(e, "Undefined variable: q");
}

#[test]
fn statement_inference_follows_blocks() {
    let meta = MetaInfo::new();
    let block = Statement::Block(vec![
        Statement::Expr(Box::new(num(1))),
        Statement::Expr(Box::new(num(2))),
    ]);
    let t = infer_type(&block, &meta).unwrap();
    assert!(data_type_eq(&t, &int_type()));
    let empty = Statement::Block(Vec::new());
    let t2 = infer_type(&empty, &meta).unwrap();
    assert!(data_type_eq(&t2, &void()));
}

#[test]
fn if_branch_mismatch_message() {
    let mut meta = MetaInfo::new();
    meta.register_variable("p", &pointer(1, int_type()));
    let s = Statement::If(
        Box::new(num(1)),
        Box::new(Statement::Expr(Box::new(num(1)))),
        Box::new(Some(Statement::Expr(Box::new(atom_expr(Atom::Variable(
            "p".to_string(),
        )))))),
    );
    let e = infer_type(&s, &meta).unwrap_err();
    assert_eq!(e, "Type mismatch: if branch is int, else branch is int*");
}

#[test]
fn pointer_addition_error_message() {
    // void has no + : the generator reports the lifted inference error
    let mut meta = MetaInfo::new();
    meta.register_variable("v", &void());
    let bad = add_expr(atom_expr(Atom::Variable("v".to_string())), num(1));
    let p = Program {
        program_units: vec![
            ProgramUnit::Statement(Box::new(Statement::VarDef(void(), "v".to_string()))),
            ProgramUnit::Statement(Box::new(Statement::Expr(Box::new(bad)))),
        ],
    };
    let e = print_assembly(&p).unwrap_err();
    assert_eq!(e.to_text(), "Type mismatch: left side of + is not int or pointer");
}

#[test]
fn decimal_formatting() {
    assert_eq!(nat_to_string(0), "0");
    assert_eq!(nat_to_string(7), "7");
    assert_eq!(nat_to_string(120), "120");
    assert_eq!(nat_to_string(u64::MAX), "18446744073709551615");
    assert_eq!(int_to_string(0), "0");
    assert_eq!(int_to_string(-1), "-1");
    assert_eq!(int_to_string(i32::MAX), "2147483647");
    assert_eq!(int_to_string(i32::MIN), "-2147483648");
}

#[test]
fn instruction_rendering() {
    assert_eq!(print_single_instruction(&push(immediate(5))), "  push 5\n");
    assert_eq!(print_single_instruction(&pop(rax())), "  pop rax\n");
    assert_eq!(
        print_single_instruction(&mov(m_rax(), rbp())),
        "  mov [rax], rbp\n"
    );
    assert_eq!(print_single_instruction(&sete(al())), "  sete al\n");
    assert_eq!(
        print_single_instruction(&label(".L3".to_string())),
        ".L3:\n"
    );
    assert_eq!(
        print_single_instruction(&Instruction::Comment("assign".to_string())),
        "  // assign\n"
    );
}

#[test]
fn assembly_code_rendering_concatenates_lines() {
    let code = vec![label("f".to_string()), push(rbp()), Instruction::Ret];
    assert_eq!(print_assembly_code(&code), "f:\n  push rbp\n  ret\n");
}

#[test]
fn data_type_text_forms() {
    assert_eq!(int_type().to_text(), "int");
    assert_eq!(void().to_text(), "void");
    assert_eq!(pointer(2, int_type()).to_text(), "int**");
    assert_eq!(pointer(1, pointer(1, int_type())).to_text(), "int**");
}

#[test]
fn expression_code_nets_one_push() {
    // the straight-line stack effect of expression code: pushes minus pops
    // is exactly one, and no branches or labels appear in it
    let mut meta = MetaInfo::new();
    let e = add_expr(add_expr(num(1), num(2)), num(3));
    let code = minicc::gen_code::get_compare_instruction(
        sete(al()),
        &match e {
            Expr::ArithExpr(a) => *a,
            _ => unreachable!(),
        },
        &match num(4) {
            Expr::ArithExpr(a) => *a,
            _ => unreachable!(),
        },
        &mut meta,
    )
    .unwrap();
    let mut net: i64 = 0;
    for i in &code {
        match i {
            Instruction::Push(_) => net += 1,
            Instruction::Pop(_) => net -= 1,
            Instruction::Label(_) | Instruction::Je(_) | Instruction::Jmp(_) => {
                panic!("expression code must be straight-line")
            }
            _ => {}
        }
    }
    assert_eq!(net, 1);
}

#[test]
fn statement_code_nets_one_push() {
    // the same for a straight-line statement: an assignment
    let mut meta = MetaInfo::new();
    meta.register_variable("a", &int_type());
    let s = Statement::Assign("a".to_string(), Box::new(num(9)));
    let code = minicc::gen_code::get_assembly_statement(&s, &mut meta).unwrap();
    let mut net: i64 = 0;
    for i in &code {
        match i {
            Instruction::Push(_) => net += 1,
            Instruction::Pop(_) => net -= 1,
            _ => {}
        }
    }
    assert_eq!(net, 1);
}
