//! A structural type inferencer over expressions and statements. The code
//! generator consults it at `+` to tell integer from pointer arithmetic.
//!
//! Lookups consult only the innermost scope frame, exactly as the code
//! generator's own variable accesses do.
use crate::ast::{
    data_type_text, int_type, pointer, void, ArithExpr, Atom, DataType, Expr, Factor,
    PrimitiveType, Statement, Unary,
};
use crate::gen_code::{frame_lookup, MetaInfo, MetaInfoV};
use vstd::prelude::*;

verus! {

broadcast use vstd::std_specs::vec::axiom_vec_decreases_to_view, vstd::seq::axiom_seq_index_decreases;

pub open spec fn ty_int() -> DataType {
    DataType::Primitive(PrimitiveType::Int)
}

pub open spec fn ty_void() -> DataType {
    DataType::Primitive(PrimitiveType::Void)
}

/// The message for a name that the innermost frame does not hold.
pub open spec fn undefined_text(name: Seq<char>) -> Seq<char> {
    "Undefined variable: "@ + name
}

/// The message for two operands whose types disagree.
pub open spec fn mismatch_text(l: DataType, r: DataType) -> Seq<char> {
    "Type mismatch: left is "@ + data_type_text(l) + ", right is "@ + data_type_text(r)
}

/// The message for an `if` whose branches disagree.
pub open spec fn branch_mismatch_text(t: DataType, e: DataType) -> Seq<char> {
    "Type mismatch: if branch is "@ + data_type_text(t) + ", else branch is "@ + data_type_text(e)
}

/// The message for a negation of a non-integer operand.
pub open spec fn neg_mismatch_text() -> Seq<char> {
    "Type mismatch: operand of negation is not int"@
}

/// The message for a dereference of a non-pointer operand.
pub open spec fn deref_mismatch_text() -> Seq<char> {
    "Type mismatch: operand of dereference is not a pointer"@
}

/// Unification of the two sides of a binary operator: both must have the
/// same type, which is then the operator's type.
pub open spec fn spec_infer_2types(l: DataType, r: DataType) -> Result<DataType, Seq<char>> {
    if l == r {
        Ok(l)
    } else {
        Err(mismatch_text(l, r))
    }
}

pub open spec fn spec_infer_atom(atom: Atom, m: MetaInfoV) -> Result<DataType, Seq<char>>
    decreases atom,
{
    match atom {
        Atom::Number(_) => Ok(ty_int()),
        Atom::Expr(expr) => spec_infer_expr(*expr, m),
        Atom::Variable(name) => match frame_lookup(m.scopes.last(), name@) {
            Some(var_info) => Ok(var_info.data_type),
            None => Err(undefined_text(name@)),
        },
        Atom::AddressOf(name) => match frame_lookup(m.scopes.last(), name@) {
            Some(var_info) => Ok(DataType::Pointer(1, Box::new(var_info.data_type))),
            None => Err(undefined_text(name@)),
        },
        Atom::FunctionCall(_, _) => Ok(ty_int()),
    }
}

pub open spec fn spec_infer_unary(unary: Unary, m: MetaInfoV) -> Result<DataType, Seq<char>>
    decreases unary,
{
    match unary {
        Unary::Atom(atom) => spec_infer_atom(*atom, m),
        Unary::Neg(atom) => match spec_infer_atom(*atom, m) {
            Ok(DataType::Primitive(PrimitiveType::Int)) => Ok(ty_int()),
            Ok(_) => Err(neg_mismatch_text()),
            Err(e) => Err(e),
        },
        Unary::PointerDeref(atom) => match spec_infer_atom(*atom, m) {
            Ok(DataType::Pointer(_, t)) => Ok(*t),
            _ => Err(deref_mismatch_text()),
        },
    }
}

pub open spec fn spec_infer_factor(factor: Factor, m: MetaInfoV) -> Result<DataType, Seq<char>>
    decreases factor,
{
    match factor {
        Factor::Unary(unary) => spec_infer_unary(*unary, m),
        Factor::Mul(left, right) => match (spec_infer_factor(*left, m), spec_infer_unary(
            *right,
            m,
        )) {
            (Ok(l), Ok(r)) => spec_infer_2types(l, r),
            (Err(e), _) => Err(e),
            (_, Err(e)) => Err(e),
        },
        Factor::Div(left, right) => match (spec_infer_factor(*left, m), spec_infer_unary(
            *right,
            m,
        )) {
            (Ok(l), Ok(r)) => spec_infer_2types(l, r),
            (Err(e), _) => Err(e),
            (_, Err(e)) => Err(e),
        },
    }
}

pub open spec fn spec_infer_arith_expr(arith_expr: ArithExpr, m: MetaInfoV) -> Result<
    DataType,
    Seq<char>,
>
    decreases arith_expr,
{
    match arith_expr {
        ArithExpr::Factor(factor) => spec_infer_factor(*factor, m),
        ArithExpr::Add(left, right) => match (spec_infer_arith_expr(*left, m), spec_infer_factor(
            *right,
            m,
        )) {
            (Ok(l), Ok(r)) => spec_infer_2types(l, r),
            (Err(e), _) => Err(e),
            (_, Err(e)) => Err(e),
        },
        ArithExpr::Sub(left, right) => match (spec_infer_arith_expr(*left, m), spec_infer_factor(
            *right,
            m,
        )) {
            (Ok(l), Ok(r)) => spec_infer_2types(l, r),
            (Err(e), _) => Err(e),
            (_, Err(e)) => Err(e),
        },
    }
}

pub open spec fn spec_infer_expr(expr: Expr, m: MetaInfoV) -> Result<DataType, Seq<char>>
    decreases expr,
{
    match expr {
        Expr::ArithExpr(arith_expr) => spec_infer_arith_expr(*arith_expr, m),
        _ => Ok(ty_int()),
    }
}

pub open spec fn spec_infer_stmt(statement: Statement, m: MetaInfoV) -> Result<
    DataType,
    Seq<char>,
>
    decreases statement,
{
    match statement {
        Statement::Expr(expr) => spec_infer_expr(*expr, m),
        Statement::Assign(_, right) => spec_infer_expr(*right, m),
        Statement::AssignPointer(_, _, expr) => spec_infer_expr(*expr, m),
        Statement::Return(expr) => spec_infer_expr(*expr, m),
        Statement::If(_, if_branch, else_branch) => match spec_infer_stmt(*if_branch, m) {
            Ok(if_type) => match *else_branch {
                Some(else_stmt) => match spec_infer_stmt(else_stmt, m) {
                    Ok(else_type) => if if_type == else_type {
                        Ok(if_type)
                    } else {
                        Err(branch_mismatch_text(if_type, else_type))
                    },
                    Err(e) => Err(e),
                },
                None => Ok(ty_void()),
            },
            Err(e) => Err(e),
        },
        Statement::Block(statements) => if statements@.len() == 0 {
            Ok(ty_void())
        } else {
            spec_infer_stmt(statements@.last(), m)
        },
        Statement::While(_, _) => Ok(ty_void()),
        Statement::For(_, _, _, _) => Ok(ty_void()),
        Statement::Break => Ok(ty_void()),
        Statement::VarDef(_, _) => Ok(ty_void()),
    }
}

/// The mathematical form of an inference result.
pub open spec fn infer_res_view(r: Result<DataType, String>) -> Result<DataType, Seq<char>> {
    match r {
        Ok(t) => Ok(t),
        Err(s) => Err(s@),
    }
}

fn mismatch_string(l: &DataType, r: &DataType) -> (s: String)
    ensures
        s@ == mismatch_text(*l, *r),
{
    let mut s = String::from_str("Type mismatch: left is ");
    let lt = l.to_text();
    s.append(lt.as_str());
    s.append(", right is ");
    let rt = r.to_text();
    s.append(rt.as_str());
    s
}

fn undefined_string(name: &String) -> (s: String)
    ensures
        s@ == undefined_text(name@),
{
    let mut s = String::from_str("Undefined variable: ");
    s.append(name.as_str());
    s
}

/// Unifies the types of the two sides of a binary operator.
pub fn infer_2types(left: DataType, right: DataType) -> (r: Result<DataType, String>)
    ensures
        infer_res_view(r) == spec_infer_2types(left, right),
{
    if left == right {
        Ok(left)
    } else {
        Err(mismatch_string(&left, &right))
    }
}

pub fn infer_type_atom(atom: &Atom, meta_info: &MetaInfo) -> (r: Result<DataType, String>)
    requires
        meta_info@.scopes.len() > 0,
    ensures
        infer_res_view(r) == spec_infer_atom(*atom, meta_info@),
    decreases *atom,
{
    match atom {
        Atom::Number(_) => Ok(int_type()),
        Atom::Expr(expr) => infer_type_expr(expr, meta_info),
        Atom::Variable(name) => match meta_info.get_variable(name) {
            Some(var_info) => Ok(var_info.data_type),
            None => Err(undefined_string(name)),
        },
        Atom::AddressOf(name) => match meta_info.get_variable(name) {
            Some(var_info) => Ok(pointer(1, var_info.data_type)),
            None => Err(undefined_string(name)),
        },
        Atom::FunctionCall(_, _) => Ok(int_type()),
    }
}

pub fn infer_type_unary(unary: &Unary, meta_info: &MetaInfo) -> (r: Result<DataType, String>)
    requires
        meta_info@.scopes.len() > 0,
    ensures
        infer_res_view(r) == spec_infer_unary(*unary, meta_info@),
    decreases *unary,
{
    match unary {
        Unary::Atom(atom) => infer_type_atom(atom, meta_info),
        Unary::Neg(atom) => match infer_type_atom(atom, meta_info) {
            Ok(t) => match t {
                DataType::Primitive(PrimitiveType::Int) => Ok(int_type()),
                _ => Err(String::from_str("Type mismatch: operand of negation is not int")),
            },
            Err(e) => Err(e),
        },
        Unary::PointerDeref(atom) => match infer_type_atom(atom, meta_info) {
            Ok(t) => match t {
                DataType::Pointer(_, base) => Ok(*base),
                _ => Err(
                    String::from_str("Type mismatch: operand of dereference is not a pointer"),
                ),
            },
            Err(_) => Err(
                String::from_str("Type mismatch: operand of dereference is not a pointer"),
            ),
        },
    }
}

pub fn infer_type_factor(factor: &Factor, meta_info: &MetaInfo) -> (r: Result<DataType, String>)
    requires
        meta_info@.scopes.len() > 0,
    ensures
        infer_res_view(r) == spec_infer_factor(*factor, meta_info@),
    decreases *factor,
{
    match factor {
        Factor::Unary(unary) => infer_type_unary(unary, meta_info),
        Factor::Mul(left, right) => match infer_type_factor(left, meta_info) {
            Ok(l) => match infer_type_unary(right, meta_info) {
                Ok(r) => infer_2types(l, r),
                Err(e) => Err(e),
            },
            Err(e) => Err(e),
        },
        Factor::Div(left, right) => match infer_type_factor(left, meta_info) {
            Ok(l) => match infer_type_unary(right, meta_info) {
                Ok(r) => infer_2types(l, r),
                Err(e) => Err(e),
            },
            Err(e) => Err(e),
        },
    }
}

pub fn infer_type_arith_expr(arith_expr: &ArithExpr, meta_info: &MetaInfo) -> (r: Result<
    DataType,
    String,
>)
    requires
        meta_info@.scopes.len() > 0,
    ensures
        infer_res_view(r) == spec_infer_arith_expr(*arith_expr, meta_info@),
    decreases *arith_expr,
{
    match arith_expr {
        ArithExpr::Factor(factor) => infer_type_factor(factor, meta_info),
        ArithExpr::Add(left, right) => match infer_type_arith_expr(left, meta_info) {
            Ok(l) => match infer_type_factor(right, meta_info) {
                Ok(r) => infer_2types(l, r),
                Err(e) => Err(e),
            },
            Err(e) => Err(e),
        },
        ArithExpr::Sub(left, right) => match infer_type_arith_expr(left, meta_info) {
            Ok(l) => match infer_type_factor(right, meta_info) {
                Ok(r) => infer_2types(l, r),
                Err(e) => Err(e),
            },
            Err(e) => Err(e),
        },
    }
}

pub fn infer_type_expr(expr: &Expr, meta_info: &MetaInfo) -> (r: Result<DataType, String>)
    requires
        meta_info@.scopes.len() > 0,
    ensures
        infer_res_view(r) == spec_infer_expr(*expr, meta_info@),
    decreases *expr,
{
    match expr {
        Expr::ArithExpr(arith_expr) => infer_type_arith_expr(arith_expr, meta_info),
        _ => Ok(int_type()),
    }
}

pub fn infer_type(statement: &Statement, meta_info: &MetaInfo) -> (r: Result<DataType, String>)
    requires
        meta_info@.scopes.len() > 0,
    ensures
        infer_res_view(r) == spec_infer_stmt(*statement, meta_info@),
    decreases *statement,
{
    match statement {
        Statement::Expr(expr) => infer_type_expr(expr, meta_info),
        Statement::Assign(_, right) => infer_type_expr(right, meta_info),
        Statement::AssignPointer(_, _, expr) => infer_type_expr(expr, meta_info),
        Statement::Return(expr) => infer_type_expr(expr, meta_info),
        Statement::If(_, if_branch, else_branch) => match infer_type(if_branch, meta_info) {
            Ok(if_type) => match &**else_branch {
                Some(else_stmt) => match infer_type(else_stmt, meta_info) {
                    Ok(else_type) => {
                        if if_type == else_type {
                            Ok(if_type)
                        } else {
                            let mut s = String::from_str("Type mismatch: if branch is ");
                            let tt = if_type.to_text();
                            s.append(tt.as_str());
                            s.append(", else branch is ");
                            let et = else_type.to_text();
                            s.append(et.as_str());
                            Err(s)
                        }
                    },
                    Err(e) => Err(e),
                },
                None => Ok(void()),
            },
            Err(e) => Err(e),
        },
        Statement::Block(statements) => {
            if statements.len() == 0 {
                Ok(void())
            } else {
                infer_type(&statements[statements.len() - 1], meta_info)
            }
        },
        Statement::While(_, _) => Ok(void()),
        Statement::For(_, _, _, _) => Ok(void()),
        Statement::Break => Ok(void()),
        Statement::VarDef(_, _) => Ok(void()),
    }
}

} // verus!
