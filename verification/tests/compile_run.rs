// End-to-end scenarios: build an AST, compile it, and run the emitted
// instructions on a small x86-64 subset interpreter. The interpreter models
// the registers, the hardware stack and the `[rbp - 8k]` variable slots; the
// program's result is `rax` when `main` returns.
use minicc::assembly::{Instruction, Operand, Register};
use minicc::ast::{
    int_type, pointer, ArithExpr, Atom, Expr, Factor, Program, ProgramUnit, Statement, Unary,
};
use minicc::error::CompilerError;
use minicc::gen_code::get_assembly_program;

const MEM_WORDS: usize = 65536;

struct Machine {
    regs: [i64; 9],
    mem: Vec<i64>,
    cmp: (i64, i64),
}

fn reg_slot(r: &Register) -> usize {
    match r {
        Register::RAX => 0,
        Register::RBP => 1,
        Register::RDI => 2,
        Register::RSI => 3,
        Register::RSP => 4,
        Register::RDX => 5,
        Register::RCX => 6,
        Register::R8 => 7,
        Register::R9 => 8,
        Register::AL => 0,
    }
}

impl Machine {
    fn read_reg(&self, r: &Register) -> i64 {
        match r {
            Register::AL => self.regs[0] & 0xff,
            _ => self.regs[reg_slot(r)],
        }
    }

    fn write_reg(&mut self, r: &Register, v: i64) {
        match r {
            Register::AL => {
                self.regs[0] = (self.regs[0] & !0xff) | (v & 0xff);
            }
            _ => {
                self.regs[reg_slot(r)] = v;
            }
        }
    }

    fn read(&self, o: &Operand) -> i64 {
        match o {
            Operand::Register(r) => self.read_reg(r),
            Operand::Immediate(i) => *i as i64,
            Operand::Memory(r) => self.mem[(self.read_reg(r) / 8) as usize],
        }
    }

    fn write(&mut self, o: &Operand, v: i64) {
        match o {
            Operand::Register(r) => self.write_reg(r, v),
            Operand::Immediate(_) => panic!("write to immediate"),
            Operand::Memory(r) => {
                let a = (self.read_reg(r) / 8) as usize;
                self.mem[a] = v;
            }
        }
    }

    fn push(&mut self, v: i64) {
        let rsp = self.regs[4] - 8;
        self.regs[4] = rsp;
        self.mem[(rsp / 8) as usize] = v;
    }

    fn pop(&mut self) -> i64 {
        let rsp = self.regs[4];
        let v = self.mem[(rsp / 8) as usize];
        self.regs[4] = rsp + 8;
        v
    }
}

fn label_position(code: &[Instruction], name: &str) -> usize {
    for (i, instruction) in code.iter().enumerate() {
        if let Instruction::Label(l) = instruction {
            if l == name {
                return i;
            }
        }
    }
    panic!("label not found: {}", name);
}

/// Runs the compiled program from its `main` label; the result is `rax` at
/// the final `ret`.
fn run_main(code: &[Instruction]) -> i64 {
    let mut m = Machine {
        regs: [0; 9],
        mem: vec![0; MEM_WORDS],
        cmp: (0, 0),
    };
    m.regs[1] = (MEM_WORDS * 8) as i64;
    m.regs[4] = (MEM_WORDS * 8) as i64;
    m.push(-1);
    let mut pc = label_position(code, "main") + 1;
    let mut steps: u64 = 0;
    loop {
        steps += 1;
        assert!(steps < 1_000_000, "interpreter ran too long");
        match &code[pc] {
            Instruction::Push(o) => {
                let v = m.read(o);
                m.push(v);
                pc += 1;
            }
            Instruction::Pop(o) => {
                let v = m.pop();
                m.write(o, v);
                pc += 1;
            }
            Instruction::Ret => {
                let ra = m.pop();
                if ra < 0 {
                    return m.regs[0];
                }
                pc = ra as usize;
            }
            Instruction::Add(a, b) => {
                let v = m.read(a).wrapping_add(m.read(b));
                m.write(a, v);
                pc += 1;
            }
            Instruction::Sub(a, b) => {
                let v = m.read(a).wrapping_sub(m.read(b));
                m.write(a, v);
                pc += 1;
            }
            Instruction::Mul(o) => {
                let v = m.regs[0].wrapping_mul(m.read(o));
                m.regs[0] = v;
                pc += 1;
            }
            Instruction::IMul(a, b) => {
                let v = m.read(a).wrapping_mul(m.read(b));
                m.write(a, v);
                pc += 1;
            }
            Instruction::Idiv(o) => {
                let d = m.read(o);
                let n = m.regs[0];
                m.regs[0] = n / d;
                m.regs[5] = n % d;
                pc += 1;
            }
            Instruction::Cqo => {
                pc += 1;
            }
            Instruction::Neg(o) => {
                let v = m.read(o).wrapping_neg();
                m.write(o, v);
                pc += 1;
            }
            Instruction::Movzb(a, b) => {
                let v = m.read(b) & 0xff;
                m.write(a, v);
                pc += 1;
            }
            Instruction::Mov(a, b) => {
                let v = m.read(b);
                m.write(a, v);
                pc += 1;
            }
            Instruction::Cmp(a, b) => {
                m.cmp = (m.read(a), m.read(b));
                pc += 1;
            }
            Instruction::Sete(o) => {
                let v = (m.cmp.0 == m.cmp.1) as i64;
                m.write(o, v);
                pc += 1;
            }
            Instruction::Setne(o) => {
                let v = (m.cmp.0 != m.cmp.1) as i64;
                m.write(o, v);
                pc += 1;
            }
            Instruction::Setl(o) => {
                let v = (m.cmp.0 < m.cmp.1) as i64;
                m.write(o, v);
                pc += 1;
            }
            Instruction::Setle(o) => {
                let v = (m.cmp.0 <= m.cmp.1) as i64;
                m.write(o, v);
                pc += 1;
            }
            Instruction::Je(l) => {
                if m.cmp.0 == m.cmp.1 {
                    pc = label_position(code, l);
                } else {
                    pc += 1;
                }
            }
            Instruction::Jmp(l) => {
                pc = label_position(code, l);
            }
            Instruction::Label(_) | Instruction::Comment(_) => {
                pc += 1;
            }
            Instruction::Call(l) => {
                m.push((pc + 1) as i64);
                pc = label_position(code, l);
            }
        }
    }
}

fn atom_expr(a: Atom) -> Expr {
    Expr::ArithExpr(Box::new(ArithExpr::Factor(Box::new(Factor::Unary(Box::new(
        Unary::Atom(Box::new(a)),
    ))))))
}

fn num(n: i32) -> Expr {
    atom_expr(Atom::Number(n))
}

fn var(name: &str) -> Expr {
    atom_expr(Atom::Variable(name.to_string()))
}

fn arith_of(e: Expr) -> ArithExpr {
    match e {
        Expr::ArithExpr(a) => *a,
        _ => panic!("not an arithmetic expression"),
    }
}

fn factor_of(e: Expr) -> Factor {
    match arith_of(e) {
        ArithExpr::Factor(f) => *f,
        _ => panic!("not a factor"),
    }
}

fn unary_of(e: Expr) -> Unary {
    match factor_of(e) {
        Factor::Unary(u) => *u,
        _ => panic!("not a unary"),
    }
}

fn add_expr(l: Expr, r: Expr) -> Expr {
    Expr::ArithExpr(Box::new(ArithExpr::Add(
        Box::new(arith_of(l)),
        Box::new(factor_of(r)),
    )))
}

fn sub_expr(l: Expr, r: Expr) -> Expr {
    Expr::ArithExpr(Box::new(ArithExpr::Sub(
        Box::new(arith_of(l)),
        Box::new(factor_of(r)),
    )))
}

fn mul_expr(l: Expr, r: Expr) -> Expr {
    Expr::ArithExpr(Box::new(ArithExpr::Factor(Box::new(Factor::Mul(
        Box::new(factor_of(l)),
        Box::new(unary_of(r)),
    )))))
}

fn less_expr(l: Expr, r: Expr) -> Expr {
    Expr::Less(Box::new(arith_of(l)), Box::new(arith_of(r)))
}

fn equal_expr(l: Expr, r: Expr) -> Expr {
    Expr::Equal(Box::new(arith_of(l)), Box::new(arith_of(r)))
}

fn stmt(e: Expr) -> Statement {
    Statement::Expr(Box::new(e))
}

fn assign(name: &str, e: Expr) -> Statement {
    Statement::Assign(name.to_string(), Box::new(e))
}

fn var_def(name: &str) -> Statement {
    Statement::VarDef(int_type(), name.to_string())
}

fn program_of(stmts: Vec<Statement>) -> Program {
    Program {
        program_units: stmts
            .into_iter()
            .map(|s| ProgramUnit::Statement(Box::new(s)))
            .collect(),
    }
}

fn compile(p: &Program) -> Vec<Instruction> {
    match get_assembly_program(p) {
        Ok(code) => code,
        Err(e) => panic!("compilation failed: {}", e.to_text()),
    }
}

#[test]
fn addition_scenario() {
    // 1+2;  ->  3
    let p = program_of(vec![stmt(add_expr(num(1), num(2)))]);
    assert_eq!(run_main(&compile(&p)), 3);
}

#[test]
fn multiply_subtract_scenario() {
    // 3*4-2;  ->  10
    let p = program_of(vec![stmt(sub_expr(mul_expr(num(3), num(4)), num(2)))]);
    assert_eq!(run_main(&compile(&p)), 10);
}

#[test]
fn assignment_scenario() {
    // a=5; b=a+2; b;  ->  7 (assignments require registered slots)
    let p = program_of(vec![
        var_def("a"),
        var_def("b"),
        assign("a", num(5)),
        assign("b", add_expr(var("a"), num(2))),
        stmt(var("b")),
    ]);
    assert_eq!(run_main(&compile(&p)), 7);
}

#[test]
fn while_loop_scenario() {
    // a=0; while (a<3) a=a+1; a;  ->  3
    let p = program_of(vec![
        var_def("a"),
        assign("a", num(0)),
        Statement::While(
            Box::new(less_expr(var("a"), num(3))),
            Box::new(assign("a", add_expr(var("a"), num(1)))),
        ),
        stmt(var("a")),
    ]);
    assert_eq!(run_main(&compile(&p)), 3);
}

#[test]
fn if_else_scenario() {
    // if (1==1) x=42; else x=7; x;  ->  42: the taken branch is the first one
    let p = program_of(vec![
        var_def("x"),
        Statement::If(
            Box::new(equal_expr(num(1), num(1))),
            Box::new(assign("x", num(42))),
            Box::new(Some(assign("x", num(7)))),
        ),
        stmt(var("x")),
    ]);
    assert_eq!(run_main(&compile(&p)), 42);
    let p2 = program_of(vec![
        var_def("x"),
        Statement::If(
            Box::new(equal_expr(num(1), num(2))),
            Box::new(assign("x", num(42))),
            Box::new(Some(assign("x", num(7)))),
        ),
        stmt(var("x")),
    ]);
    assert_eq!(run_main(&compile(&p2)), 7);
}

#[test]
fn if_else_placeholder_value() {
    // A bare  if (1==1) 42; else 7;  leaves the placeholder 0 as the
    // statement's value: the branch's 42 stays beneath it on the operand
    // stack and is discarded by the epilogue.
    let p = program_of(vec![Statement::If(
        Box::new(equal_expr(num(1), num(1))),
        Box::new(stmt(num(42))),
        Box::new(Some(stmt(num(7)))),
    )]);
    assert_eq!(run_main(&compile(&p)), 0);
}

#[test]
fn pointer_scenario() {
    // int x; x=10; int *p; p=&x; *p=99; x;  ->  99
    let p = program_of(vec![
        Statement::VarDef(int_type(), "x".to_string()),
        assign("x", num(10)),
        Statement::VarDef(pointer(1, int_type()), "p".to_string()),
        assign("p", atom_expr(Atom::AddressOf("x".to_string()))),
        Statement::AssignPointer(1, "p".to_string(), Box::new(num(99))),
        stmt(var("x")),
    ]);
    assert_eq!(run_main(&compile(&p)), 99);
}

#[test]
fn function_call_scenario() {
    // int inc(int x) { return x+1; }  inc(41);  ->  42
    let p = Program {
        program_units: vec![
            ProgramUnit::FuncDef(
                int_type(),
                "inc".to_string(),
                vec![(int_type(), "x".to_string())],
                Box::new(Statement::Return(Box::new(add_expr(var("x"), num(1))))),
            ),
            ProgramUnit::Statement(Box::new(stmt(atom_expr(Atom::FunctionCall(
                "inc".to_string(),
                vec![num(41)],
            ))))),
        ],
    };
    assert_eq!(run_main(&compile(&p)), 42);
}

#[test]
fn division_scenario() {
    // (7+5)/4*2;  ->  6 via division and multiplication
    let p = program_of(vec![stmt(Expr::ArithExpr(Box::new(ArithExpr::Factor(
        Box::new(Factor::Mul(
            Box::new(Factor::Div(
                Box::new(factor_of(atom_expr(Atom::Expr(Box::new(add_expr(
                    num(7),
                    num(5),
                )))))),
                Box::new(unary_of(num(4))),
            )),
            Box::new(unary_of(num(2))),
        )),
    ))))]);
    assert_eq!(run_main(&compile(&p)), 6);
}

#[test]
fn negation_scenario() {
    // 5 + (-2);  ->  3
    let neg_two = Unary::Neg(Box::new(Atom::Number(2)));
    let neg_two_expr = Expr::ArithExpr(Box::new(ArithExpr::Factor(Box::new(Factor::Unary(
        Box::new(neg_two),
    )))));
    let p = program_of(vec![stmt(add_expr(
        num(5),
        atom_expr(Atom::Expr(Box::new(neg_two_expr))),
    ))]);
    assert_eq!(run_main(&compile(&p)), 3);
}

#[test]
fn for_loop_with_break() {
    // a=0; for (;;) { a=a+1; if (a==4) break; } a;  ->  4
    let body = Statement::Block(vec![
        assign("a", add_expr(var("a"), num(1))),
        Statement::If(
            Box::new(equal_expr(var("a"), num(4))),
            Box::new(Statement::Break),
            Box::new(None),
        ),
    ]);
    let p = program_of(vec![
        var_def("a"),
        assign("a", num(0)),
        Statement::For(
            Box::new(None),
            Box::new(None),
            Box::new(None),
            Box::new(body),
        ),
        stmt(var("a")),
    ]);
    assert_eq!(run_main(&compile(&p)), 4);
}

#[test]
fn undefined_variable_scenario() {
    // b;  ->  error "Undefined variable: b"
    let p = program_of(vec![stmt(var("b"))]);
    match minicc::gen_code::print_assembly(&p) {
        Ok(_) => panic!("expected an error"),
        Err(e) => {
            assert!(matches!(&e, CompilerError::UndefinedVariable(n) if n == "b"));
            assert_eq!(e.to_text(), "Undefined variable: b");
        }
    }
}

#[test]
fn undefined_address_of_scenario() {
    // 1+&a;  ->  undefined-variable error for a
    let p = program_of(vec![stmt(add_expr(
        num(1),
        atom_expr(Atom::AddressOf("a".to_string())),
    ))]);
    match minicc::gen_code::print_assembly(&p) {
        Ok(_) => panic!("expected an error"),
        Err(e) => {
            assert!(matches!(&e, CompilerError::UndefinedVariable(n) if n == "a"));
            assert_eq!(e.to_text(), "Undefined variable: a");
        }
    }
}
