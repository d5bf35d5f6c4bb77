//! The assembly intermediate representation: x86-64 instructions, operands
//! and registers, and the printer that renders them in Intel syntax.
//!
//! Every instruction is rendered as one line: labels flush-left as `name:`,
//! everything else indented with exactly two spaces.
use vstd::prelude::*;

verus! {

pub type Assembly = Vec<Instruction>;

#[derive(Clone)]
pub enum Instruction {
    Push(Operand),
    Pop(Operand),
    Ret,
    Add(Operand, Operand),
    Sub(Operand, Operand),
    Mul(Operand),
    IMul(Operand, Operand),
    Idiv(Operand),
    Neg(Operand),
    Cqo,
    Movzb(Operand, Operand),
    Mov(Operand, Operand),
    Cmp(Operand, Operand),
    Sete(Operand),
    Setne(Operand),
    Setl(Operand),
    Setle(Operand),
    Je(String),
    Jmp(String),
    Label(String),
    Comment(String),
    Call(String),
}

#[derive(Clone, Copy)]
pub enum Operand {
    Register(Register),
    Immediate(i32),
    Memory(Register),
}

#[derive(Clone, Copy)]
pub enum Register {
    RAX,
    RBP,
    RDI,
    RSI,
    RSP,
    RDX,
    RCX,
    R8,
    R9,
    AL,
}

/// The mathematical form of an instruction: label names as character
/// sequences instead of heap-allocated strings.
pub enum InstrV {
    Push(Operand),
    Pop(Operand),
    Ret,
    Add(Operand, Operand),
    Sub(Operand, Operand),
    Mul(Operand),
    IMul(Operand, Operand),
    Idiv(Operand),
    Neg(Operand),
    Cqo,
    Movzb(Operand, Operand),
    Mov(Operand, Operand),
    Cmp(Operand, Operand),
    Sete(Operand),
    Setne(Operand),
    Setl(Operand),
    Setle(Operand),
    Je(Seq<char>),
    Jmp(Seq<char>),
    Label(Seq<char>),
    Comment(Seq<char>),
    Call(Seq<char>),
}

impl View for Instruction {
    type V = InstrV;

    open spec fn view(&self) -> InstrV {
        match self {
            Instruction::Push(o) => InstrV::Push(*o),
            Instruction::Pop(o) => InstrV::Pop(*o),
            Instruction::Ret => InstrV::Ret,
            Instruction::Add(o1, o2) => InstrV::Add(*o1, *o2),
            Instruction::Sub(o1, o2) => InstrV::Sub(*o1, *o2),
            Instruction::Mul(o) => InstrV::Mul(*o),
            Instruction::IMul(o1, o2) => InstrV::IMul(*o1, *o2),
            Instruction::Idiv(o) => InstrV::Idiv(*o),
            Instruction::Neg(o) => InstrV::Neg(*o),
            Instruction::Cqo => InstrV::Cqo,
            Instruction::Movzb(o1, o2) => InstrV::Movzb(*o1, *o2),
            Instruction::Mov(o1, o2) => InstrV::Mov(*o1, *o2),
            Instruction::Cmp(o1, o2) => InstrV::Cmp(*o1, *o2),
            Instruction::Sete(o) => InstrV::Sete(*o),
            Instruction::Setne(o) => InstrV::Setne(*o),
            Instruction::Setl(o) => InstrV::Setl(*o),
            Instruction::Setle(o) => InstrV::Setle(*o),
            Instruction::Je(l) => InstrV::Je(l@),
            Instruction::Jmp(l) => InstrV::Jmp(l@),
            Instruction::Label(l) => InstrV::Label(l@),
            Instruction::Comment(c) => InstrV::Comment(c@),
            Instruction::Call(l) => InstrV::Call(l@),
        }
    }
}

/// The views of a sequence of instructions, element by element.
pub open spec fn asm_view(s: Seq<Instruction>) -> Seq<InstrV> {
    Seq::new(s.len(), |i: int| s[i]@)
}

pub fn push(operand: Operand) -> (r: Instruction)
    ensures
        r == Instruction::Push(operand),
{
    Instruction::Push(operand)
}

pub fn pop(operand: Operand) -> (r: Instruction)
    ensures
        r == Instruction::Pop(operand),
{
    Instruction::Pop(operand)
}

pub fn ret() -> (r: Instruction)
    ensures
        r == Instruction::Ret,
{
    Instruction::Ret
}

pub fn add(operand1: Operand, operand2: Operand) -> (r: Instruction)
    ensures
        r == Instruction::Add(operand1, operand2),
{
    Instruction::Add(operand1, operand2)
}

pub fn sub(operand1: Operand, operand2: Operand) -> (r: Instruction)
    ensures
        r == Instruction::Sub(operand1, operand2),
{
    Instruction::Sub(operand1, operand2)
}

pub fn mul(operand: Operand) -> (r: Instruction)
    ensures
        r == Instruction::Mul(operand),
{
    Instruction::Mul(operand)
}

pub fn imul(operand1: Operand, operand2: Operand) -> (r: Instruction)
    ensures
        r == Instruction::IMul(operand1, operand2),
{
    Instruction::IMul(operand1, operand2)
}

pub fn idiv(operand: Operand) -> (r: Instruction)
    ensures
        r == Instruction::Idiv(operand),
{
    Instruction::Idiv(operand)
}

pub fn cqo() -> (r: Instruction)
    ensures
        r == Instruction::Cqo,
{
    Instruction::Cqo
}

pub fn neg(operand: Operand) -> (r: Instruction)
    ensures
        r == Instruction::Neg(operand),
{
    Instruction::Neg(operand)
}

pub fn movzb(operand1: Operand, operand2: Operand) -> (r: Instruction)
    ensures
        r == Instruction::Movzb(operand1, operand2),
{
    Instruction::Movzb(operand1, operand2)
}

pub fn mov(operand1: Operand, operand2: Operand) -> (r: Instruction)
    ensures
        r == Instruction::Mov(operand1, operand2),
{
    Instruction::Mov(operand1, operand2)
}

pub fn cmp(operand1: Operand, operand2: Operand) -> (r: Instruction)
    ensures
        r == Instruction::Cmp(operand1, operand2),
{
    Instruction::Cmp(operand1, operand2)
}

pub fn sete(operand: Operand) -> (r: Instruction)
    ensures
        r == Instruction::Sete(operand),
{
    Instruction::Sete(operand)
}

pub fn setne(operand: Operand) -> (r: Instruction)
    ensures
        r == Instruction::Setne(operand),
{
    Instruction::Setne(operand)
}

pub fn setl(operand: Operand) -> (r: Instruction)
    ensures
        r == Instruction::Setl(operand),
{
    Instruction::Setl(operand)
}

pub fn setle(operand: Operand) -> (r: Instruction)
    ensures
        r == Instruction::Setle(operand),
{
    Instruction::Setle(operand)
}

pub fn je(label: String) -> (r: Instruction)
    ensures
        r == Instruction::Je(label),
{
    Instruction::Je(label)
}

pub fn jmp(label: String) -> (r: Instruction)
    ensures
        r == Instruction::Jmp(label),
{
    Instruction::Jmp(label)
}

pub fn label(name: String) -> (r: Instruction)
    ensures
        r == Instruction::Label(name),
{
    Instruction::Label(name)
}

pub fn comment(text: &str) -> (r: Instruction)
    ensures
        r@ == InstrV::Comment(text@),
{
    Instruction::Comment(text.to_owned())
}

pub fn call(label: String) -> (r: Instruction)
    ensures
        r == Instruction::Call(label),
{
    Instruction::Call(label)
}

pub fn immediate(value: i32) -> (r: Operand)
    ensures
        r == Operand::Immediate(value),
{
    Operand::Immediate(value)
}

pub fn rax() -> (r: Operand)
    ensures
        r == Operand::Register(Register::RAX),
{
    Operand::Register(Register::RAX)
}

pub fn m_rax() -> (r: Operand)
    ensures
        r == Operand::Memory(Register::RAX),
{
    Operand::Memory(Register::RAX)
}

pub fn rbp() -> (r: Operand)
    ensures
        r == Operand::Register(Register::RBP),
{
    Operand::Register(Register::RBP)
}

pub fn rdi() -> (r: Operand)
    ensures
        r == Operand::Register(Register::RDI),
{
    Operand::Register(Register::RDI)
}

pub fn rsp() -> (r: Operand)
    ensures
        r == Operand::Register(Register::RSP),
{
    Operand::Register(Register::RSP)
}

pub fn al() -> (r: Operand)
    ensures
        r == Operand::Register(Register::AL),
{
    Operand::Register(Register::AL)
}

/// The decimal digit `d` as a character; `d` must be below ten.
pub open spec fn digit_char(d: nat) -> char {
    if d == 0 {
        '0'
    } else if d == 1 {
        '1'
    } else if d == 2 {
        '2'
    } else if d == 3 {
        '3'
    } else if d == 4 {
        '4'
    } else if d == 5 {
        '5'
    } else if d == 6 {
        '6'
    } else if d == 7 {
        '7'
    } else if d == 8 {
        '8'
    } else {
        '9'
    }
}

/// The decimal form of a natural number, without leading zeros
/// (except for the number zero itself).
pub open spec fn dec_nat(n: nat) -> Seq<char>
    decreases n,
{
    if n < 10 {
        seq![digit_char(n)]
    } else {
        dec_nat(n / 10) + seq![digit_char(n % 10)]
    }
}

/// The decimal form of an integer: a minus sign for negative values,
/// then the digits.
pub open spec fn dec_int(v: int) -> Seq<char> {
    if v < 0 {
        seq!['-'] + dec_nat((-v) as nat)
    } else {
        dec_nat(v as nat)
    }
}

fn digit_str(d: u64) -> (s: &'static str)
    requires
        d < 10,
    ensures
        s@ == seq![digit_char(d as nat)],
{
    proof {
        reveal_strlit("0");
        reveal_strlit("1");
        reveal_strlit("2");
        reveal_strlit("3");
        reveal_strlit("4");
        reveal_strlit("5");
        reveal_strlit("6");
        reveal_strlit("7");
        reveal_strlit("8");
        reveal_strlit("9");
    }
    if d == 0 {
        proof {
            assert("0"@ =~= seq![digit_char(0)]);
        }
        "0"
    } else if d == 1 {
        proof {
            assert("1"@ =~= seq![digit_char(1)]);
        }
        "1"
    } else if d == 2 {
        proof {
            assert("2"@ =~= seq![digit_char(2)]);
        }
        "2"
    } else if d == 3 {
        proof {
            assert("3"@ =~= seq![digit_char(3)]);
        }
        "3"
    } else if d == 4 {
        proof {
            assert("4"@ =~= seq![digit_char(4)]);
        }
        "4"
    } else if d == 5 {
        proof {
            assert("5"@ =~= seq![digit_char(5)]);
        }
        "5"
    } else if d == 6 {
        proof {
            assert("6"@ =~= seq![digit_char(6)]);
        }
        "6"
    } else if d == 7 {
        proof {
            assert("7"@ =~= seq![digit_char(7)]);
        }
        "7"
    } else if d == 8 {
        proof {
            assert("8"@ =~= seq![digit_char(8)]);
        }
        "8"
    } else {
        proof {
            assert("9"@ =~= seq![digit_char(9)]);
        }
        "9"
    }
}

/// Renders a natural number in decimal.
pub fn nat_to_string(n: u64) -> (s: String)
    ensures
        s@ == dec_nat(n as nat),
    decreases n,
{
    let d = digit_str(n % 10);
    if n < 10 {
        String::from_str(d)
    } else {
        let mut s = nat_to_string(n / 10);
        s.append(d);
        s
    }
}

/// Renders a signed immediate in decimal.
pub fn int_to_string(v: i32) -> (s: String)
    ensures
        s@ == dec_int(v as int),
{
    if v < 0 {
        let m = (-(v as i64)) as u64;
        let mut s = String::from_str("-");
        proof {
            reveal_strlit("-");
            assert("-"@ =~= seq!['-']);
        }
        let t = nat_to_string(m);
        s.append(t.as_str());
        s
    } else {
        nat_to_string(v as u64)
    }
}

/// The lowercase name of a register.
pub open spec fn register_text(r: Register) -> Seq<char> {
    match r {
        Register::RAX => "rax"@,
        Register::RBP => "rbp"@,
        Register::RDI => "rdi"@,
        Register::RSI => "rsi"@,
        Register::RSP => "rsp"@,
        Register::RDX => "rdx"@,
        Register::RCX => "rcx"@,
        Register::R8 => "r8"@,
        Register::R9 => "r9"@,
        Register::AL => "al"@,
    }
}

pub fn register_to_str(r: &Register) -> (s: &'static str)
    ensures
        s@ == register_text(*r),
{
    match r {
        Register::RAX => "rax",
        Register::RBP => "rbp",
        Register::RDI => "rdi",
        Register::RSI => "rsi",
        Register::RSP => "rsp",
        Register::RDX => "rdx",
        Register::RCX => "rcx",
        Register::R8 => "r8",
        Register::R9 => "r9",
        Register::AL => "al",
    }
}

/// The textual form of an operand: a register name, a decimal immediate,
/// or an indirect operand in square brackets.
pub open spec fn operand_text(o: Operand) -> Seq<char> {
    match o {
        Operand::Register(r) => register_text(r),
        Operand::Immediate(i) => dec_int(i as int),
        Operand::Memory(r) => "["@ + register_text(r) + "]"@,
    }
}

pub fn operand_to_string(o: &Operand) -> (s: String)
    ensures
        s@ == operand_text(*o),
{
    match o {
        Operand::Register(r) => String::from_str(register_to_str(r)),
        Operand::Immediate(i) => int_to_string(*i),
        Operand::Memory(r) => {
            let mut s = String::from_str("[");
            s.append(register_to_str(r));
            s.append("]");
            s
        },
    }
}

/// The textual form of an instruction with one operand.
pub open spec fn op1_text(mnemonic: Seq<char>, o: Operand) -> Seq<char> {
    mnemonic + " "@ + operand_text(o)
}

/// The textual form of an instruction with two operands.
pub open spec fn op2_text(mnemonic: Seq<char>, o1: Operand, o2: Operand) -> Seq<char> {
    mnemonic + " "@ + operand_text(o1) + ", "@ + operand_text(o2)
}

/// The body of an instruction's line, without indentation or newline.
pub open spec fn instr_text(i: InstrV) -> Seq<char> {
    match i {
        InstrV::Push(o) => op1_text("push"@, o),
        InstrV::Pop(o) => op1_text("pop"@, o),
        InstrV::Ret => "ret"@,
        InstrV::Add(o1, o2) => op2_text("add"@, o1, o2),
        InstrV::Sub(o1, o2) => op2_text("sub"@, o1, o2),
        InstrV::Mul(o) => op1_text("mul"@, o),
        InstrV::IMul(o1, o2) => op2_text("imul"@, o1, o2),
        InstrV::Idiv(o) => op1_text("idiv"@, o),
        InstrV::Neg(o) => op1_text("neg"@, o),
        InstrV::Cqo => "cqo"@,
        InstrV::Movzb(o1, o2) => op2_text("movzb"@, o1, o2),
        InstrV::Mov(o1, o2) => op2_text("mov"@, o1, o2),
        InstrV::Cmp(o1, o2) => op2_text("cmp"@, o1, o2),
        InstrV::Sete(o) => op1_text("sete"@, o),
        InstrV::Setne(o) => op1_text("setne"@, o),
        InstrV::Setl(o) => op1_text("setl"@, o),
        InstrV::Setle(o) => op1_text("setle"@, o),
        InstrV::Je(l) => "je "@ + l,
        InstrV::Jmp(l) => "jmp "@ + l,
        InstrV::Label(l) => l + ":"@,
        InstrV::Comment(c) => "// "@ + c,
        InstrV::Call(l) => "call "@ + l,
    }
}

/// One full output line: labels flush-left, everything else indented with
/// two spaces; every line ends with a newline.
pub open spec fn instr_line(i: InstrV) -> Seq<char> {
    match i {
        InstrV::Label(_) => instr_text(i) + "\n"@,
        _ => "  "@ + instr_text(i) + "\n"@,
    }
}

/// The concatenation of the lines of a sequence of instructions.
pub open spec fn code_text(s: Seq<InstrV>) -> Seq<char>
    decreases s.len(),
{
    if s.len() == 0 {
        Seq::empty()
    } else {
        code_text(s.drop_last()) + instr_line(s.last())
    }
}

/// A decimal digit.
pub open spec fn is_digit(c: char) -> bool {
    '0' <= c && c <= '9'
}

/// The decimal form of a number is one or more digits, and exactly one
/// digit for numbers below ten.
pub proof fn lemma_dec_nat_digits(n: nat)
    ensures
        dec_nat(n).len() >= 1,
        dec_nat(n).len() == 1 <==> n < 10,
        forall|j: int| 0 <= j < dec_nat(n).len() ==> is_digit(#[trigger] dec_nat(n)[j]),
    decreases n,
{
    if n >= 10 {
        lemma_dec_nat_digits(n / 10);
        assert(forall|j: int|
            0 <= j < dec_nat(n / 10).len() ==> #[trigger] dec_nat(n)[j] == dec_nat(n / 10)[j]);
        assert(dec_nat(n).last() == digit_char(n % 10));
    }
}

/// Distinct numbers have distinct decimal forms.
pub proof fn lemma_dec_nat_injective(a: nat, b: nat)
    requires
        dec_nat(a) == dec_nat(b),
    ensures
        a == b,
    decreases a,
{
    lemma_dec_nat_digits(a);
    lemma_dec_nat_digits(b);
    if a < 10 && b < 10 {
        assert(dec_nat(a)[0] == digit_char(a));
        assert(dec_nat(b)[0] == digit_char(b));
    } else if a >= 10 && b >= 10 {
        assert(dec_nat(a).last() == digit_char(a % 10));
        assert(dec_nat(b).last() == digit_char(b % 10));
        assert(dec_nat(a).drop_last() =~= dec_nat(a / 10));
        assert(dec_nat(b).drop_last() =~= dec_nat(b / 10));
        lemma_dec_nat_injective(a / 10, b / 10);
    }
}

/// TESTABLE: every rendered line ends with a newline; a label's line is the
/// label name flush-left followed by a colon; every other line is indented
/// with exactly two spaces.
pub proof fn lemma_instr_line_shape(i: InstrV)
    ensures
        instr_line(i).len() >= 1,
        instr_line(i).last() == '\n',
        i matches InstrV::Label(l) ==> instr_line(i) == l + ":"@ + "\n"@,
        !(i is Label) ==> instr_line(i).len() >= 4 && instr_line(i)[0] == ' '
            && instr_line(i)[1] == ' ' && instr_line(i)[2] != ' ',
{
    reveal_strlit("push");
    reveal_strlit("pop");
    reveal_strlit("ret");
    reveal_strlit("add");
    reveal_strlit("sub");
    reveal_strlit("mul");
    reveal_strlit("imul");
    reveal_strlit("idiv");
    reveal_strlit("neg");
    reveal_strlit("cqo");
    reveal_strlit("movzb");
    reveal_strlit("mov");
    reveal_strlit("cmp");
    reveal_strlit("sete");
    reveal_strlit("setne");
    reveal_strlit("setl");
    reveal_strlit("setle");
    reveal_strlit("je ");
    reveal_strlit("jmp ");
    reveal_strlit("// ");
    reveal_strlit("call ");
    reveal_strlit(" ");
    reveal_strlit(", ");
    reveal_strlit(":");
    reveal_strlit("\n");
    reveal_strlit("  ");
}

fn op1_string(mnemonic: &str, o: &Operand) -> (s: String)
    ensures
        s@ == op1_text(mnemonic@, *o),
{
    let mut s = String::from_str(mnemonic);
    s.append(" ");
    let t = operand_to_string(o);
    s.append(t.as_str());
    s
}

fn op2_string(mnemonic: &str, o1: &Operand, o2: &Operand) -> (s: String)
    ensures
        s@ == op2_text(mnemonic@, *o1, *o2),
{
    let mut s = String::from_str(mnemonic);
    s.append(" ");
    let t1 = operand_to_string(o1);
    s.append(t1.as_str());
    s.append(", ");
    let t2 = operand_to_string(o2);
    s.append(t2.as_str());
    s
}

fn jump_string(mnemonic: &str, l: &String) -> (s: String)
    ensures
        s@ == mnemonic@ + l@,
{
    let mut s = String::from_str(mnemonic);
    s.append(l.as_str());
    s
}

/// Renders one instruction as its full output line, newline included.
pub fn print_single_instruction(instruction: &Instruction) -> (s: String)
    ensures
        s@ == instr_line(instruction@),
{
    let body = match instruction {
        Instruction::Push(o) => op1_string("push", o),
        Instruction::Pop(o) => op1_string("pop", o),
        Instruction::Ret => String::from_str("ret"),
        Instruction::Add(o1, o2) => op2_string("add", o1, o2),
        Instruction::Sub(o1, o2) => op2_string("sub", o1, o2),
        Instruction::Mul(o) => op1_string("mul", o),
        Instruction::IMul(o1, o2) => op2_string("imul", o1, o2),
        Instruction::Idiv(o) => op1_string("idiv", o),
        Instruction::Neg(o) => op1_string("neg", o),
        Instruction::Cqo => String::from_str("cqo"),
        Instruction::Movzb(o1, o2) => op2_string("movzb", o1, o2),
        Instruction::Mov(o1, o2) => op2_string("mov", o1, o2),
        Instruction::Cmp(o1, o2) => op2_string("cmp", o1, o2),
        Instruction::Sete(o) => op1_string("sete", o),
        Instruction::Setne(o) => op1_string("setne", o),
        Instruction::Setl(o) => op1_string("setl", o),
        Instruction::Setle(o) => op1_string("setle", o),
        Instruction::Je(l) => jump_string("je ", l),
        Instruction::Jmp(l) => jump_string("jmp ", l),
        Instruction::Label(l) => {
            let mut s = String::from_str(l.as_str());
            s.append(":");
            s
        },
        Instruction::Comment(c) => jump_string("// ", c),
        Instruction::Call(l) => jump_string("call ", l),
    };
    if matches!(instruction, Instruction::Label(_)) {
        let mut s = body;
        s.append("\n");
        s
    } else {
        let mut s = String::from_str("  ");
        s.append(body.as_str());
        s.append("\n");
        s
    }
}

/// Renders a sequence of instructions, one line each.
pub fn print_assembly_code(assembly: &Assembly) -> (s: String)
    ensures
        s@ == code_text(asm_view(assembly@)),
{
    let mut s = String::new();
    let mut i: usize = 0;
    while i < assembly.len()
        invariant
            i <= assembly.len(),
            s@ == code_text(asm_view(assembly@).subrange(0, i as int)),
        decreases assembly.len() - i,
    {
        let line = print_single_instruction(&assembly[i]);
        s.append(line.as_str());
        proof {
            let v = asm_view(assembly@);
            assert(v.subrange(0, i + 1).drop_last() =~= v.subrange(0, i as int));
            assert(v.subrange(0, i + 1).last() == assembly@[i as int]@);
        }
        i = i + 1;
    }
    proof {
        assert(asm_view(assembly@).subrange(0, assembly@.len() as int) =~= asm_view(assembly@));
    }
    s
}

} // verus!
