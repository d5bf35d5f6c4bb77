//! The abstract syntax tree that the code generator consumes, together with
//! the textual form of data types used in diagnostics.
use vstd::prelude::*;

verus! {

broadcast use vstd::std_specs::vec::axiom_vec_decreases_to_view, vstd::seq::axiom_seq_index_decreases;

/// A complete program: an ordered sequence of program units.
pub struct Program {
    pub program_units: Vec<ProgramUnit>,
}

/// A top-level unit: either a function definition or a bare statement that
/// becomes part of `main`.
#[derive(Debug)]
pub enum ProgramUnit {
    FuncDef(DataType, String, Vec<(DataType, String)>, Box<Statement>),
    Statement(Box<Statement>),
}

#[derive(Debug)]
pub enum Statement {
    Expr(Box<Expr>),
    Assign(String, Box<Expr>),
    AssignPointer(u32, String, Box<Expr>),
    Return(Box<Expr>),
    If(Box<Expr>, Box<Statement>, Box<Option<Statement>>),
    Block(Vec<Statement>),
    While(Box<Expr>, Box<Statement>),
    For(
        Box<Option<Statement>>,
        Box<Option<Expr>>,
        Box<Option<Statement>>,
        Box<Statement>,
    ),
    Break,
    VarDef(DataType, String),
}

#[derive(Debug)]
pub enum DataType {
    Primitive(PrimitiveType),
    Pointer(u32, Box<DataType>),
}

#[derive(Clone, Copy, PartialEq, Eq, Structural, Debug)]
pub enum PrimitiveType {
    Int,
    Void,
}

#[derive(Debug)]
pub enum Expr {
    ArithExpr(Box<ArithExpr>),
    Equal(Box<ArithExpr>, Box<ArithExpr>),
    NotEqual(Box<ArithExpr>, Box<ArithExpr>),
    Less(Box<ArithExpr>, Box<ArithExpr>),
    LessOrEqual(Box<ArithExpr>, Box<ArithExpr>),
}

#[derive(Debug)]
pub enum ArithExpr {
    Factor(Box<Factor>),
    Add(Box<ArithExpr>, Box<Factor>),
    Sub(Box<ArithExpr>, Box<Factor>),
}

#[derive(Debug)]
pub enum Factor {
    Unary(Box<Unary>),
    Mul(Box<Factor>, Box<Unary>),
    Div(Box<Factor>, Box<Unary>),
}

#[derive(Debug)]
pub enum Unary {
    Atom(Box<Atom>),
    Neg(Box<Atom>),
    PointerDeref(Box<Atom>),
}

#[derive(Debug)]
pub enum Atom {
    Number(i32),
    Expr(Box<Expr>),
    Variable(String),
    AddressOf(String),
    FunctionCall(String, Vec<Expr>),
}

pub fn int_type() -> (t: DataType)
    ensures
        t == DataType::Primitive(PrimitiveType::Int),
{
    DataType::Primitive(PrimitiveType::Int)
}

pub fn void() -> (t: DataType)
    ensures
        t == DataType::Primitive(PrimitiveType::Void),
{
    DataType::Primitive(PrimitiveType::Void)
}

pub fn pointer(depth: u32, data_type: DataType) -> (t: DataType)
    ensures
        t == DataType::Pointer(depth, Box::new(data_type)),
{
    DataType::Pointer(depth, Box::new(data_type))
}

impl Clone for DataType {
    fn clone(&self) -> (r: Self)
        ensures
            r == *self,
        decreases *self,
    {
        match self {
            DataType::Primitive(p) => DataType::Primitive(*p),
            DataType::Pointer(depth, base) => DataType::Pointer(*depth, Box::new((**base).clone())),
        }
    }
}

/// Structural equality of data types, as executable code.
pub fn data_type_eq(a: &DataType, b: &DataType) -> (r: bool)
    ensures
        r == (*a == *b),
    decreases *a,
{
    match (a, b) {
        (DataType::Primitive(p), DataType::Primitive(q)) => p == q,
        (DataType::Pointer(d1, b1), DataType::Pointer(d2, b2)) => {
            *d1 == *d2 && data_type_eq(&**b1, &**b2)
        },
        _ => false,
    }
}

impl PartialEq for DataType {
    fn eq(&self, other: &Self) -> (r: bool) {
        data_type_eq(self, other)
    }
}

impl Eq for DataType {

}

impl vstd::std_specs::cmp::PartialEqSpecImpl for DataType {
    open spec fn obeys_eq_spec() -> bool {
        true
    }

    open spec fn eq_spec(&self, other: &Self) -> bool {
        *self == *other
    }
}

/// Node counts of the expression grammar, used as termination measures by
/// the recursive walks over it.
pub open spec fn expr_size(e: Expr) -> nat
    decreases e,
{
    match e {
        Expr::ArithExpr(a) => 1 + arith_size(*a),
        Expr::Equal(l, r) => 1 + arith_size(*l) + arith_size(*r),
        Expr::NotEqual(l, r) => 1 + arith_size(*l) + arith_size(*r),
        Expr::Less(l, r) => 1 + arith_size(*l) + arith_size(*r),
        Expr::LessOrEqual(l, r) => 1 + arith_size(*l) + arith_size(*r),
    }
}

pub open spec fn arith_size(a: ArithExpr) -> nat
    decreases a,
{
    match a {
        ArithExpr::Factor(f) => 1 + factor_size(*f),
        ArithExpr::Add(l, r) => 1 + arith_size(*l) + factor_size(*r),
        ArithExpr::Sub(l, r) => 1 + arith_size(*l) + factor_size(*r),
    }
}

pub open spec fn factor_size(f: Factor) -> nat
    decreases f,
{
    match f {
        Factor::Unary(u) => 1 + unary_size(*u),
        Factor::Mul(l, r) => 1 + factor_size(*l) + unary_size(*r),
        Factor::Div(l, r) => 1 + factor_size(*l) + unary_size(*r),
    }
}

pub open spec fn unary_size(u: Unary) -> nat
    decreases u,
{
    match u {
        Unary::Atom(a) => 1 + atom_size(*a),
        Unary::Neg(a) => 1 + atom_size(*a),
        Unary::PointerDeref(a) => 1 + atom_size(*a),
    }
}

pub open spec fn atom_size(a: Atom) -> nat
    decreases a,
{
    match a {
        Atom::Number(_) => 1,
        Atom::Expr(e) => 1 + expr_size(*e),
        Atom::Variable(_) => 1,
        Atom::AddressOf(_) => 1,
        Atom::FunctionCall(_, args) => 1 + exprs_size(args@),
    }
}

pub open spec fn exprs_size(es: Seq<Expr>) -> nat
    decreases es, 0int,
{
    if es.len() == 0 {
        0
    } else {
        expr_size(es[0]) + exprs_size(es.drop_first())
    }
}

/// Every element of an expression list counts into the list's size.
pub proof fn lemma_exprs_size_element(es: Seq<Expr>, i: int)
    requires
        0 <= i < es.len(),
    ensures
        expr_size(es[i]) <= exprs_size(es),
    decreases es.len(),
{
    if i > 0 {
        lemma_exprs_size_element(es.drop_first(), i - 1);
    }
}

/// Node counts of the statement grammar.
pub open spec fn stmt_size(s: Statement) -> nat
    decreases s,
{
    match s {
        Statement::Expr(e) => 1 + expr_size(*e),
        Statement::Assign(_, e) => 1 + expr_size(*e),
        Statement::AssignPointer(_, _, e) => 1 + expr_size(*e),
        Statement::Return(e) => 1 + expr_size(*e),
        Statement::If(c, t, e) => 1 + expr_size(*c) + stmt_size(*t) + (match *e {
            Some(else_stmt) => stmt_size(else_stmt),
            None => 0,
        }),
        Statement::Block(ss) => 1 + stmts_size(ss@),
        Statement::While(c, b) => 1 + expr_size(*c) + stmt_size(*b),
        Statement::For(i, c, u, b) => 1 + (match *i {
            Some(init_stmt) => stmt_size(init_stmt),
            None => 0,
        }) + (match *c {
            Some(cond) => expr_size(cond),
            None => 0,
        }) + (match *u {
            Some(update_stmt) => stmt_size(update_stmt),
            None => 0,
        }) + stmt_size(*b),
        Statement::Break => 1,
        Statement::VarDef(_, _) => 1,
    }
}

pub open spec fn stmts_size(ss: Seq<Statement>) -> nat
    decreases ss, 0int,
{
    if ss.len() == 0 {
        0
    } else {
        stmt_size(ss[0]) + stmts_size(ss.drop_first())
    }
}

/// Every element of a statement list counts into the list's size.
pub proof fn lemma_stmts_size_element(ss: Seq<Statement>, i: int)
    requires
        0 <= i < ss.len(),
    ensures
        stmt_size(ss[i]) <= stmts_size(ss),
    decreases ss.len(),
{
    if i > 0 {
        lemma_stmts_size_element(ss.drop_first(), i - 1);
    }
}

/// A run of `n` asterisks, as written after a pointer's base type.
pub open spec fn stars(n: nat) -> Seq<char>
    decreases n,
{
    if n == 0 {
        Seq::empty()
    } else {
        stars((n - 1) as nat) + "*"@
    }
}

/// The textual form of a data type: the base type followed by one asterisk
/// per level of indirection.
pub open spec fn data_type_text(t: DataType) -> Seq<char>
    decreases t,
{
    match t {
        DataType::Primitive(PrimitiveType::Int) => "int"@,
        DataType::Primitive(PrimitiveType::Void) => "void"@,
        DataType::Pointer(depth, base) => data_type_text(*base) + stars(depth as nat),
    }
}

impl DataType {
    /// Renders the type as it appears in diagnostics.
    pub fn to_text(&self) -> (s: String)
        ensures
            s@ == data_type_text(*self),
        decreases *self,
    {
        match self {
            DataType::Primitive(PrimitiveType::Int) => String::from_str("int"),
            DataType::Primitive(PrimitiveType::Void) => String::from_str("void"),
            DataType::Pointer(depth, base) => {
                let mut s = base.to_text();
                let mut i: u32 = 0;
                while i < *depth
                    invariant
                        i <= *depth,
                        s@ == data_type_text(**base) + stars(i as nat),
                    decreases *depth - i,
                {
                    s.append("*");
                    i = i + 1;
                }
                s
            },
        }
    }
}

} // verus!
