//! Where `label` instructions can come from, proved: expression code never
//! defines a label, so every label definition in a statement's code was
//! placed by the control-flow construct that drew it from the counter —
//! which, by the counter's strict growth and the injectivity of label
//! names, never hands out the same name twice.
use crate::assembly::InstrV;
use crate::gen_code::{
    spec_gen_args, spec_gen_arith_expr, spec_gen_atom, spec_gen_expr, spec_gen_factor,
    spec_gen_unary, MetaInfoV,
};
use vstd::prelude::*;

verus! {

broadcast use vstd::std_specs::vec::axiom_vec_decreases_to_view, vstd::seq::axiom_seq_index_decreases;

/// How many `label` instructions define `l`.
pub open spec fn count_label_defs(code: Seq<InstrV>, l: Seq<char>) -> nat
    decreases code.len(),
{
    if code.len() == 0 {
        0
    } else {
        (match code[0] {
            InstrV::Label(x) => if x == l {
                1nat
            } else {
                0nat
            },
            _ => 0nat,
        }) + count_label_defs(code.drop_first(), l)
    }
}

/// How many jumps target `l`.
pub open spec fn count_label_refs(code: Seq<InstrV>, l: Seq<char>) -> nat
    decreases code.len(),
{
    if code.len() == 0 {
        0
    } else {
        (match code[0] {
            InstrV::Je(x) => if x == l {
                1nat
            } else {
                0nat
            },
            InstrV::Jmp(x) => if x == l {
                1nat
            } else {
                0nat
            },
            _ => 0nat,
        }) + count_label_refs(code.drop_first(), l)
    }
}

/// Counting distributes over concatenation.
pub proof fn lemma_counts_concat(a: Seq<InstrV>, b: Seq<InstrV>, l: Seq<char>)
    ensures
        count_label_defs(a + b, l) == count_label_defs(a, l) + count_label_defs(b, l),
        count_label_refs(a + b, l) == count_label_refs(a, l) + count_label_refs(b, l),
    decreases a.len(),
{
    if a.len() == 0 {
        assert(a + b =~= b);
    } else {
        assert((a + b)[0] == a[0]);
        assert((a + b).drop_first() =~= a.drop_first() + b);
        lemma_counts_concat(a.drop_first(), b, l);
    }
}

/// Code that holds no `label` instruction defines nothing.
pub open spec fn has_no_label_defs(code: Seq<InstrV>) -> bool {
    forall|i: int| 0 <= i < code.len() ==> !((#[trigger] code[i]) is Label)
}

pub proof fn lemma_no_defs_count(code: Seq<InstrV>, l: Seq<char>)
    requires
        has_no_label_defs(code),
    ensures
        count_label_defs(code, l) == 0,
    decreases code.len(),
{
    if code.len() > 0 {
        assert(forall|i: int|
            0 <= i < code.drop_first().len() ==> code.drop_first()[i] == code[i + 1]);
        lemma_no_defs_count(code.drop_first(), l);
    }
}

/// The code of an expression contains no `label` instruction at all.
#[verifier::rlimit(100)]
#[verifier::spinoff_prover]
pub proof fn lemma_gen_expr_no_labels(e: crate::ast::Expr, m: MetaInfoV)
    requires
        spec_gen_expr(e, m) is Ok,
    ensures
        has_no_label_defs(spec_gen_expr(e, m)->Ok_0),
    decreases e, 2int,
{
    reveal_with_fuel(spec_gen_expr, 1);
    reveal_with_fuel(spec_gen_arith_expr, 1);
    reveal_with_fuel(spec_gen_factor, 1);
    reveal_with_fuel(spec_gen_unary, 1);
    reveal_with_fuel(spec_gen_atom, 1);
    reveal_with_fuel(spec_gen_args, 1);
    match e {
        crate::ast::Expr::ArithExpr(a) => {
            lemma_gen_arith_no_labels(*a, m);
        },
        crate::ast::Expr::Equal(l, r) => {
            lemma_gen_arith_no_labels(*l, m);
            lemma_gen_arith_no_labels(*r, m);
        },
        crate::ast::Expr::NotEqual(l, r) => {
            lemma_gen_arith_no_labels(*l, m);
            lemma_gen_arith_no_labels(*r, m);
        },
        crate::ast::Expr::Less(l, r) => {
            lemma_gen_arith_no_labels(*l, m);
            lemma_gen_arith_no_labels(*r, m);
        },
        crate::ast::Expr::LessOrEqual(l, r) => {
            lemma_gen_arith_no_labels(*l, m);
            lemma_gen_arith_no_labels(*r, m);
        },
    }
}

#[verifier::rlimit(100)]
#[verifier::spinoff_prover]
proof fn lemma_gen_arith_no_labels(a: crate::ast::ArithExpr, m: MetaInfoV)
    requires
        spec_gen_arith_expr(a, m) is Ok,
    ensures
        has_no_label_defs(spec_gen_arith_expr(a, m)->Ok_0),
    decreases a, 1int,
{
    reveal_with_fuel(spec_gen_expr, 1);
    reveal_with_fuel(spec_gen_arith_expr, 1);
    reveal_with_fuel(spec_gen_factor, 1);
    reveal_with_fuel(spec_gen_unary, 1);
    reveal_with_fuel(spec_gen_atom, 1);
    reveal_with_fuel(spec_gen_args, 1);
    match a {
        crate::ast::ArithExpr::Factor(f) => {
            lemma_gen_factor_no_labels(*f, m);
        },
        crate::ast::ArithExpr::Add(l, r) => {
            lemma_gen_arith_no_labels(*l, m);
            lemma_gen_factor_no_labels(*r, m);
        },
        crate::ast::ArithExpr::Sub(l, r) => {
            lemma_gen_arith_no_labels(*l, m);
            lemma_gen_factor_no_labels(*r, m);
        },
    }
}

#[verifier::rlimit(100)]
#[verifier::spinoff_prover]
proof fn lemma_gen_factor_no_labels(f: crate::ast::Factor, m: MetaInfoV)
    requires
        spec_gen_factor(f, m) is Ok,
    ensures
        has_no_label_defs(spec_gen_factor(f, m)->Ok_0),
    decreases f, 1int,
{
    reveal_with_fuel(spec_gen_expr, 1);
    reveal_with_fuel(spec_gen_arith_expr, 1);
    reveal_with_fuel(spec_gen_factor, 1);
    reveal_with_fuel(spec_gen_unary, 1);
    reveal_with_fuel(spec_gen_atom, 1);
    reveal_with_fuel(spec_gen_args, 1);
    match f {
        crate::ast::Factor::Unary(u) => {
            lemma_gen_unary_no_labels(*u, m);
        },
        crate::ast::Factor::Mul(l, r) => {
            lemma_gen_factor_no_labels(*l, m);
            lemma_gen_unary_no_labels(*r, m);
        },
        crate::ast::Factor::Div(l, r) => {
            lemma_gen_factor_no_labels(*l, m);
            lemma_gen_unary_no_labels(*r, m);
        },
    }
}

#[verifier::rlimit(100)]
#[verifier::spinoff_prover]
proof fn lemma_gen_unary_no_labels(u: crate::ast::Unary, m: MetaInfoV)
    requires
        spec_gen_unary(u, m) is Ok,
    ensures
        has_no_label_defs(spec_gen_unary(u, m)->Ok_0),
    decreases u, 1int,
{
    reveal_with_fuel(spec_gen_expr, 1);
    reveal_with_fuel(spec_gen_arith_expr, 1);
    reveal_with_fuel(spec_gen_factor, 1);
    reveal_with_fuel(spec_gen_unary, 1);
    reveal_with_fuel(spec_gen_atom, 1);
    reveal_with_fuel(spec_gen_args, 1);
    match u {
        crate::ast::Unary::Atom(a) => {
            lemma_gen_atom_no_labels(*a, m);
        },
        crate::ast::Unary::Neg(a) => {
            lemma_gen_atom_no_labels(*a, m);
        },
        crate::ast::Unary::PointerDeref(a) => {
            lemma_gen_atom_no_labels(*a, m);
        },
    }
}

#[verifier::rlimit(100)]
#[verifier::spinoff_prover]
proof fn lemma_gen_atom_no_labels(a: crate::ast::Atom, m: MetaInfoV)
    requires
        spec_gen_atom(a, m) is Ok,
    ensures
        has_no_label_defs(spec_gen_atom(a, m)->Ok_0),
    decreases a, 1int,
{
    reveal_with_fuel(spec_gen_expr, 1);
    reveal_with_fuel(spec_gen_arith_expr, 1);
    reveal_with_fuel(spec_gen_factor, 1);
    reveal_with_fuel(spec_gen_unary, 1);
    reveal_with_fuel(spec_gen_atom, 1);
    reveal_with_fuel(spec_gen_args, 1);
    match a {
        crate::ast::Atom::Number(_) => {},
        crate::ast::Atom::Expr(e) => {
            lemma_gen_expr_no_labels(*e, m);
        },
        crate::ast::Atom::Variable(_) => {},
        crate::ast::Atom::AddressOf(_) => {},
        crate::ast::Atom::FunctionCall(_, args) => {
            lemma_gen_args_no_labels(args@, args@.len() as int, m);
            lemma_pop_args_no_labels(
                if args@.len() < 6 {
                    args@.len() as int
                } else {
                    6
                },
            );
        },
    }
}

#[verifier::rlimit(100)]
#[verifier::spinoff_prover]
proof fn lemma_gen_args_no_labels(es: Seq<crate::ast::Expr>, n: int, m: MetaInfoV)
    requires
        0 <= n <= es.len(),
        spec_gen_args(es, n, m) is Ok,
    ensures
        has_no_label_defs(spec_gen_args(es, n, m)->Ok_0),
    decreases es, 0int, n,
{
    reveal_with_fuel(spec_gen_expr, 1);
    reveal_with_fuel(spec_gen_arith_expr, 1);
    reveal_with_fuel(spec_gen_factor, 1);
    reveal_with_fuel(spec_gen_unary, 1);
    reveal_with_fuel(spec_gen_atom, 1);
    reveal_with_fuel(spec_gen_args, 1);
    if n > 0 {
        lemma_gen_args_no_labels(es, n - 1, m);
        lemma_gen_expr_no_labels(es[n - 1], m);
    }
}

proof fn lemma_pop_args_no_labels(k: int)
    ensures
        has_no_label_defs(crate::gen_code::pop_args_code(k)),
    decreases k,
{
    if k > 0 {
        lemma_pop_args_no_labels(k - 1);
    }
}

/// TESTABLE (part): expression code defines no label at all — for every
/// name, the count of `label` instructions in it is zero. Together with the
/// injectivity of `label_name` and the strictly increasing counter, a fresh
/// label can only be defined by the one control-flow construct that drew it.
pub proof fn lemma_expr_defines_no_labels(e: crate::ast::Expr, m: MetaInfoV, l: Seq<char>)
    requires
        spec_gen_expr(e, m) is Ok,
    ensures
        count_label_defs(spec_gen_expr(e, m)->Ok_0, l) == 0,
{
    lemma_gen_expr_no_labels(e, m);
    lemma_no_defs_count(spec_gen_expr(e, m)->Ok_0, l);
}

} // verus!
