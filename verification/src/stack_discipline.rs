//! The emission convention, proved: code generated for an expression pushes
//! exactly one value onto the operand stack.
//!
//! The model is a straight-line stack machine that tracks only the operand
//! stack's height. `push` deepens it, `pop` shallows it (and gets stuck on
//! an empty stack); arithmetic, moves, comparisons and `set` instructions
//! leave it alone. A `call` is neutral: the callee's prologue and epilogue
//! balance the return address, and its result travels in `rax`. Branches,
//! labels and `ret` end the straight-line model; expression code never
//! contains them, so the model covers it completely.
use crate::ast::{ArithExpr, Atom, Expr, Factor, Statement, Unary};
use crate::assembly::InstrV;
use crate::gen_code::{
    deref_chain, pop_args_code, spec_gen_args, spec_gen_arith_expr, spec_gen_atom, spec_gen_expr,
    spec_gen_factor, spec_gen_lval, spec_gen_stmt, spec_gen_unary, MetaInfoV,
};
use vstd::prelude::*;

verus! {

broadcast use vstd::std_specs::vec::axiom_vec_decreases_to_view, vstd::seq::axiom_seq_index_decreases;

/// The effect of one instruction on the operand stack's height, when the
/// instruction neither jumps nor returns.
pub open spec fn line_step(i: InstrV, h: nat) -> Option<nat> {
    match i {
        InstrV::Push(_) => Some((h + 1) as nat),
        InstrV::Pop(_) => if h > 0 {
            Some((h - 1) as nat)
        } else {
            None
        },
        InstrV::Ret => None,
        InstrV::Je(_) => None,
        InstrV::Jmp(_) => None,
        InstrV::Label(_) => None,
        _ => Some(h),
    }
}

/// Runs a straight-line instruction sequence on a stack of height `h`:
/// the final height, or `None` when the code pops an empty stack or leaves
/// straight-line execution.
pub open spec fn run_line(code: Seq<InstrV>, h: nat) -> Option<nat>
    decreases code.len(),
{
    if code.len() == 0 {
        Some(h)
    } else {
        match line_step(code[0], h) {
            Some(h2) => run_line(code.drop_first(), h2),
            None => None,
        }
    }
}

/// Straight-line execution of concatenated code runs the parts in order.
pub proof fn lemma_run_line_concat(a: Seq<InstrV>, b: Seq<InstrV>, h: nat)
    ensures
        run_line(a + b, h) == (match run_line(a, h) {
            Some(h2) => run_line(b, h2),
            None => None,
        }),
    decreases a.len(),
{
    if a.len() == 0 {
        assert(a + b =~= b);
    } else {
        assert((a + b)[0] == a[0]);
        assert((a + b).drop_first() =~= a.drop_first() + b);
        match line_step(a[0], h) {
            Some(h2) => {
                lemma_run_line_concat(a.drop_first(), b, h2);
            },
            None => {},
        }
    }
}

/// Evaluates straight-line code along an explicit height trace: entry
/// `hs[j]` holds before instruction `j`, and each step agrees with
/// `line_step`.
pub proof fn lemma_run_line_steps(code: Seq<InstrV>, hs: Seq<nat>)
    requires
        hs.len() == code.len() + 1,
        forall|j: int|
            0 <= j < code.len() ==> line_step(#[trigger] code[j], hs[j]) == Some(hs[j + 1]),
    ensures
        run_line(code, hs[0]) == Some(hs.last()),
    decreases code.len(),
{
    if code.len() > 0 {
        assert forall|j: int|
            0 <= j < code.drop_first().len() implies line_step(
            #[trigger] code.drop_first()[j],
            hs.drop_first()[j],
        ) == Some(hs.drop_first()[j + 1]) by {
            assert(code.drop_first()[j] == code[j + 1]);
            assert(hs.drop_first()[j] == hs[j + 1]);
            assert(hs.drop_first()[j + 1] == hs[j + 2]);
        }
        lemma_run_line_steps(code.drop_first(), hs.drop_first());
        assert(hs.drop_first()[0] == hs[1]);
        assert(hs.drop_first().last() == hs.last());
        assert(line_step(code[0], hs[0]) == Some(hs[1]));
    }
}

/// Every function call in the expression passes at most six arguments — the
/// calling convention's register budget, beyond which the generated pops no
/// longer balance the pushed arguments.
pub open spec fn calls_bounded_expr(e: Expr) -> bool
    decreases e,
{
    match e {
        Expr::ArithExpr(a) => calls_bounded_arith(*a),
        Expr::Equal(l, r) => calls_bounded_arith(*l) && calls_bounded_arith(*r),
        Expr::NotEqual(l, r) => calls_bounded_arith(*l) && calls_bounded_arith(*r),
        Expr::Less(l, r) => calls_bounded_arith(*l) && calls_bounded_arith(*r),
        Expr::LessOrEqual(l, r) => calls_bounded_arith(*l) && calls_bounded_arith(*r),
    }
}

pub open spec fn calls_bounded_arith(a: ArithExpr) -> bool
    decreases a,
{
    match a {
        ArithExpr::Factor(f) => calls_bounded_factor(*f),
        ArithExpr::Add(l, r) => calls_bounded_arith(*l) && calls_bounded_factor(*r),
        ArithExpr::Sub(l, r) => calls_bounded_arith(*l) && calls_bounded_factor(*r),
    }
}

pub open spec fn calls_bounded_factor(f: Factor) -> bool
    decreases f,
{
    match f {
        Factor::Unary(u) => calls_bounded_unary(*u),
        Factor::Mul(l, r) => calls_bounded_factor(*l) && calls_bounded_unary(*r),
        Factor::Div(l, r) => calls_bounded_factor(*l) && calls_bounded_unary(*r),
    }
}

pub open spec fn calls_bounded_unary(u: Unary) -> bool
    decreases u,
{
    match u {
        Unary::Atom(a) => calls_bounded_atom(*a),
        Unary::Neg(a) => calls_bounded_atom(*a),
        Unary::PointerDeref(a) => calls_bounded_atom(*a),
    }
}

pub open spec fn calls_bounded_atom(a: Atom) -> bool
    decreases a,
{
    match a {
        Atom::Number(_) => true,
        Atom::Expr(e) => calls_bounded_expr(*e),
        Atom::Variable(_) => true,
        Atom::AddressOf(_) => true,
        Atom::FunctionCall(_, args) => args@.len() <= 6 && calls_bounded_args(args@),
    }
}

pub open spec fn calls_bounded_args(es: Seq<Expr>) -> bool
    decreases es, 0int,
{
    if es.len() == 0 {
        true
    } else {
        calls_bounded_expr(es[0]) && calls_bounded_args(es.drop_first())
    }
}

proof fn lemma_calls_bounded_args_element(es: Seq<Expr>, i: int)
    requires
        0 <= i < es.len(),
        calls_bounded_args(es),
    ensures
        calls_bounded_expr(es[i]),
    decreases es.len(),
{
    if i > 0 {
        lemma_calls_bounded_args_element(es.drop_first(), i - 1);
    }
}

/// The pops that fill the argument registers remove exactly `k` values.
proof fn lemma_run_pop_args(k: int, h: nat)
    requires
        0 <= k <= h,
    ensures
        run_line(pop_args_code(k), h) == Some((h - k) as nat),
    decreases k,
{
    if k > 0 {
        assert(pop_args_code(k)[0] is Pop);
        assert(pop_args_code(k).drop_first() =~= pop_args_code(k - 1));
        lemma_run_pop_args(k - 1, (h - 1) as nat);
    }
}

/// Walking a pointer chain leaves the stack's height alone.
proof fn lemma_run_deref_chain(d: int, h: nat)
    ensures
        run_line(deref_chain(d), h) == Some(h),
    decreases d,
{
    if d <= 0 {
    } else {
        lemma_run_deref_chain(d - 1, h);
        let one = seq![InstrV::Mov(crate::gen_code::o_rax(), crate::gen_code::o_m_rax())];
        lemma_run_line_concat(deref_chain(d - 1), one, h);
        lemma_run_line_steps(one, seq![h, h]);
    }
}

/// Net effect of an atom's code: one value pushed, at any starting height.
#[verifier::rlimit(100)]
#[verifier::spinoff_prover]
pub proof fn lemma_atom_stack_discipline(a: Atom, m: MetaInfoV, h: nat)
    requires
        spec_gen_atom(a, m) is Ok,
        calls_bounded_atom(a),
    ensures
        run_line(spec_gen_atom(a, m)->Ok_0, h) == Some((h + 1) as nat),
    decreases a, 1int,
{
    reveal_with_fuel(spec_gen_expr, 1);
    reveal_with_fuel(spec_gen_arith_expr, 1);
    reveal_with_fuel(spec_gen_factor, 1);
    reveal_with_fuel(spec_gen_unary, 1);
    reveal_with_fuel(spec_gen_atom, 1);
    reveal_with_fuel(spec_gen_args, 1);
    match a {
        Atom::Number(_) => {
            lemma_run_line_steps(spec_gen_atom(a, m)->Ok_0, seq![h, (h + 1) as nat]);
        },
        Atom::Expr(e) => {
            lemma_expr_stack_discipline(*e, m, h);
        },
        Atom::Variable(_) => {
            lemma_run_line_steps(spec_gen_atom(a, m)->Ok_0, seq![h, h, h, (h + 1) as nat]);
        },
        Atom::AddressOf(lval) => {
            let code = spec_gen_atom(a, m)->Ok_0;
            lemma_run_line_steps(code, seq![h, h, h, h, (h + 1) as nat, (h + 1) as nat]);
        },
        Atom::FunctionCall(func_name, args) => {
            let n = args@.len() as int;
            lemma_args_stack_discipline(args@, n, m, h);
            let args_code = spec_gen_args(args@, n, m)->Ok_0;
            let k: int = if args@.len() < 6 {
                args@.len() as int
            } else {
                6
            };
            lemma_run_line_concat(args_code, pop_args_code(k), h);
            lemma_run_pop_args(k, (h + n) as nat);
            let tail = seq![InstrV::Call(func_name@), InstrV::Push(crate::gen_code::o_rax())];
            lemma_run_line_concat(args_code + pop_args_code(k), tail, h);
            lemma_run_line_steps(tail, seq![h, h, (h + 1) as nat]);
        },
    }
}

/// Net effect of the first `n` arguments' code: `n` values pushed.
#[verifier::rlimit(100)]
#[verifier::spinoff_prover]
proof fn lemma_args_stack_discipline(es: Seq<Expr>, n: int, m: MetaInfoV, h: nat)
    requires
        0 <= n <= es.len(),
        spec_gen_args(es, n, m) is Ok,
        calls_bounded_args(es),
    ensures
        run_line(spec_gen_args(es, n, m)->Ok_0, h) == Some((h + n) as nat),
    decreases es, 0int, n,
{
    reveal_with_fuel(spec_gen_expr, 1);
    reveal_with_fuel(spec_gen_arith_expr, 1);
    reveal_with_fuel(spec_gen_factor, 1);
    reveal_with_fuel(spec_gen_unary, 1);
    reveal_with_fuel(spec_gen_atom, 1);
    reveal_with_fuel(spec_gen_args, 1);
    if n > 0 {
        lemma_args_stack_discipline(es, n - 1, m, h);
        lemma_calls_bounded_args_element(es, n - 1);
        lemma_expr_stack_discipline(es[n - 1], m, (h + n - 1) as nat);
        lemma_run_line_concat(
            spec_gen_args(es, n - 1, m)->Ok_0,
            spec_gen_expr(es[n - 1], m)->Ok_0,
            h,
        );
    }
}

/// Net effect of a unary's code: one value pushed.
#[verifier::rlimit(100)]
#[verifier::spinoff_prover]
pub proof fn lemma_unary_stack_discipline(u: Unary, m: MetaInfoV, h: nat)
    requires
        spec_gen_unary(u, m) is Ok,
        calls_bounded_unary(u),
    ensures
        run_line(spec_gen_unary(u, m)->Ok_0, h) == Some((h + 1) as nat),
    decreases u, 1int,
{
    reveal_with_fuel(spec_gen_expr, 1);
    reveal_with_fuel(spec_gen_arith_expr, 1);
    reveal_with_fuel(spec_gen_factor, 1);
    reveal_with_fuel(spec_gen_unary, 1);
    reveal_with_fuel(spec_gen_atom, 1);
    reveal_with_fuel(spec_gen_args, 1);
    match u {
        Unary::Atom(a) => {
            lemma_atom_stack_discipline(*a, m, h);
        },
        Unary::Neg(a) => {
            lemma_atom_stack_discipline(*a, m, h);
            lemma_run_line_concat(
                spec_gen_atom(*a, m)->Ok_0,
                seq![
                    InstrV::Pop(crate::gen_code::o_rax()),
                    InstrV::Neg(crate::gen_code::o_rax()),
                    InstrV::Push(crate::gen_code::o_rax()),
                ],
                h,
            );
            lemma_run_line_steps(seq![
                InstrV::Pop(crate::gen_code::o_rax()),
                InstrV::Neg(crate::gen_code::o_rax()),
                InstrV::Push(crate::gen_code::o_rax()),
            ], seq![(h + 1) as nat, h, h, (h + 1) as nat]);
            assert(run_line(spec_gen_unary(u, m)->Ok_0, h) == Some((h + 1) as nat));
        },
        Unary::PointerDeref(a) => {
            lemma_atom_stack_discipline(*a, m, h);
            lemma_run_line_concat(
                spec_gen_atom(*a, m)->Ok_0,
                seq![
                    InstrV::Pop(crate::gen_code::o_rax()),
                    InstrV::Mov(crate::gen_code::o_rax(), crate::gen_code::o_m_rax()),
                    InstrV::Push(crate::gen_code::o_rax()),
                ],
                h,
            );
            lemma_run_line_steps(seq![
                InstrV::Pop(crate::gen_code::o_rax()),
                InstrV::Mov(crate::gen_code::o_rax(), crate::gen_code::o_m_rax()),
                InstrV::Push(crate::gen_code::o_rax()),
            ], seq![(h + 1) as nat, h, h, (h + 1) as nat]);
            assert(run_line(spec_gen_unary(u, m)->Ok_0, h) == Some((h + 1) as nat));
        },
    }
}

/// Net effect of a factor's code: one value pushed.
#[verifier::rlimit(100)]
#[verifier::spinoff_prover]
pub proof fn lemma_factor_stack_discipline(f: Factor, m: MetaInfoV, h: nat)
    requires
        spec_gen_factor(f, m) is Ok,
        calls_bounded_factor(f),
    ensures
        run_line(spec_gen_factor(f, m)->Ok_0, h) == Some((h + 1) as nat),
    decreases f, 1int,
{
    reveal_with_fuel(spec_gen_expr, 1);
    reveal_with_fuel(spec_gen_arith_expr, 1);
    reveal_with_fuel(spec_gen_factor, 1);
    reveal_with_fuel(spec_gen_unary, 1);
    reveal_with_fuel(spec_gen_atom, 1);
    reveal_with_fuel(spec_gen_args, 1);
    match f {
        Factor::Unary(u) => {
            lemma_unary_stack_discipline(*u, m, h);
        },
        Factor::Mul(l, r) => {
            lemma_factor_stack_discipline(*l, m, h);
            lemma_unary_stack_discipline(*r, m, (h + 1) as nat);
            lemma_run_line_concat(spec_gen_factor(*l, m)->Ok_0, spec_gen_unary(*r, m)->Ok_0, h);
            lemma_run_line_concat(
                spec_gen_factor(*l, m)->Ok_0 + spec_gen_unary(*r, m)->Ok_0,
                seq![
                    InstrV::Pop(crate::gen_code::o_rdi()),
                    InstrV::Pop(crate::gen_code::o_rax()),
                    InstrV::Mul(crate::gen_code::o_rdi()),
                    InstrV::Push(crate::gen_code::o_rax()),
                ],
                h,
            );
            lemma_run_line_steps(seq![
                InstrV::Pop(crate::gen_code::o_rdi()),
                InstrV::Pop(crate::gen_code::o_rax()),
                InstrV::Mul(crate::gen_code::o_rdi()),
                InstrV::Push(crate::gen_code::o_rax()),
            ], seq![(h + 2) as nat, (h + 1) as nat, h, h, (h + 1) as nat]);
        },
        Factor::Div(l, r) => {
            lemma_factor_stack_discipline(*l, m, h);
            lemma_unary_stack_discipline(*r, m, (h + 1) as nat);
            lemma_run_line_concat(spec_gen_factor(*l, m)->Ok_0, spec_gen_unary(*r, m)->Ok_0, h);
            lemma_run_line_concat(
                spec_gen_factor(*l, m)->Ok_0 + spec_gen_unary(*r, m)->Ok_0,
                seq![
                    InstrV::Pop(crate::gen_code::o_rdi()),
                    InstrV::Pop(crate::gen_code::o_rax()),
                    InstrV::Cqo,
                    InstrV::Idiv(crate::gen_code::o_rdi()),
                    InstrV::Push(crate::gen_code::o_rax()),
                ],
                h,
            );
            lemma_run_line_steps(seq![
                InstrV::Pop(crate::gen_code::o_rdi()),
                InstrV::Pop(crate::gen_code::o_rax()),
                InstrV::Cqo,
                InstrV::Idiv(crate::gen_code::o_rdi()),
                InstrV::Push(crate::gen_code::o_rax()),
            ], seq![(h + 2) as nat, (h + 1) as nat, h, h, h, (h + 1) as nat]);
        },
    }
}

/// Net effect of an additive expression's code: one value pushed, whether
/// the addition is integer or pointer-scaled.
#[verifier::rlimit(100)]
#[verifier::spinoff_prover]
pub proof fn lemma_arith_stack_discipline(a: ArithExpr, m: MetaInfoV, h: nat)
    requires
        spec_gen_arith_expr(a, m) is Ok,
        calls_bounded_arith(a),
    ensures
        run_line(spec_gen_arith_expr(a, m)->Ok_0, h) == Some((h + 1) as nat),
    decreases a, 1int,
{
    reveal_with_fuel(spec_gen_expr, 1);
    reveal_with_fuel(spec_gen_arith_expr, 1);
    reveal_with_fuel(spec_gen_factor, 1);
    reveal_with_fuel(spec_gen_unary, 1);
    reveal_with_fuel(spec_gen_atom, 1);
    reveal_with_fuel(spec_gen_args, 1);
    match a {
        ArithExpr::Factor(f) => {
            lemma_factor_stack_discipline(*f, m, h);
        },
        ArithExpr::Add(l, r) => {
            lemma_arith_stack_discipline(*l, m, h);
            lemma_factor_stack_discipline(*r, m, (h + 1) as nat);
            let lc = spec_gen_arith_expr(*l, m)->Ok_0;
            let rc = spec_gen_factor(*r, m)->Ok_0;
            lemma_run_line_concat(lc, rc, h);
            lemma_run_line_concat(lc + rc, seq![
                InstrV::Pop(crate::gen_code::o_rdi()),
                InstrV::Pop(crate::gen_code::o_rax()),
            ], h);
            let pops = seq![
                InstrV::Pop(crate::gen_code::o_rdi()),
                InstrV::Pop(crate::gen_code::o_rax()),
            ];
            let head = lc + rc + pops;
            lemma_run_line_concat(lc + rc, pops, h);
            lemma_run_line_steps(pops, seq![(h + 2) as nat, (h + 1) as nat, h]);
            match crate::infer_type::spec_infer_arith_expr(*l, m) {
                Ok(t) => match t {
                    crate::ast::DataType::Primitive(crate::ast::PrimitiveType::Int) => {
                        let tail = seq![
                            InstrV::Add(crate::gen_code::o_rax(), crate::gen_code::o_rdi()),
                            InstrV::Push(crate::gen_code::o_rax()),
                        ];
                        lemma_run_line_concat(head, tail, h);
                        lemma_run_line_steps(tail, seq![h, h, (h + 1) as nat]);
                    },
                    crate::ast::DataType::Pointer(_, _) => {
                        let tail = seq![
                            InstrV::IMul(crate::gen_code::o_rdi(), crate::gen_code::o_imm(8)),
                            InstrV::Add(crate::gen_code::o_rax(), crate::gen_code::o_rdi()),
                            InstrV::Push(crate::gen_code::o_rax()),
                        ];
                        lemma_run_line_concat(head, tail, h);
                        lemma_run_line_steps(tail, seq![h, h, h, (h + 1) as nat]);
                    },
                    _ => {},
                },
                Err(_) => {},
            }
        },
        ArithExpr::Sub(l, r) => {
            lemma_arith_stack_discipline(*l, m, h);
            lemma_factor_stack_discipline(*r, m, (h + 1) as nat);
            let lc = spec_gen_arith_expr(*l, m)->Ok_0;
            let rc = spec_gen_factor(*r, m)->Ok_0;
            lemma_run_line_concat(lc, rc, h);
            lemma_run_line_concat(lc + rc, seq![
                InstrV::Pop(crate::gen_code::o_rdi()),
                InstrV::Pop(crate::gen_code::o_rax()),
                InstrV::Sub(crate::gen_code::o_rax(), crate::gen_code::o_rdi()),
                InstrV::Push(crate::gen_code::o_rax()),
            ], h);
            lemma_run_line_steps(seq![
                InstrV::Pop(crate::gen_code::o_rdi()),
                InstrV::Pop(crate::gen_code::o_rax()),
                InstrV::Sub(crate::gen_code::o_rax(), crate::gen_code::o_rdi()),
                InstrV::Push(crate::gen_code::o_rax()),
            ], seq![(h + 2) as nat, (h + 1) as nat, h, h, (h + 1) as nat]);
        },
    }
}

/// TESTABLE: in isolation, the code of every expression leaves the operand
/// stack exactly one value deeper, at every starting height, provided no
/// call in it passes more than six arguments.
#[verifier::rlimit(100)]
#[verifier::spinoff_prover]
pub proof fn lemma_expr_stack_discipline(e: Expr, m: MetaInfoV, h: nat)
    requires
        spec_gen_expr(e, m) is Ok,
        calls_bounded_expr(e),
    ensures
        run_line(spec_gen_expr(e, m)->Ok_0, h) == Some((h + 1) as nat),
    decreases e, 2int,
{
    reveal_with_fuel(spec_gen_expr, 1);
    reveal_with_fuel(spec_gen_arith_expr, 1);
    reveal_with_fuel(spec_gen_factor, 1);
    reveal_with_fuel(spec_gen_unary, 1);
    reveal_with_fuel(spec_gen_atom, 1);
    reveal_with_fuel(spec_gen_args, 1);
    match e {
        Expr::ArithExpr(a) => {
            lemma_arith_stack_discipline(*a, m, h);
        },
        Expr::Equal(l, r) => {
            lemma_arith_stack_discipline(*l, m, h);
            lemma_arith_stack_discipline(*r, m, (h + 1) as nat);
            lemma_run_cmp_tail(
                spec_gen_arith_expr(*l, m)->Ok_0,
                spec_gen_arith_expr(*r, m)->Ok_0,
                InstrV::Sete(crate::gen_code::o_al()),
                h,
            );
        },
        Expr::NotEqual(l, r) => {
            lemma_arith_stack_discipline(*l, m, h);
            lemma_arith_stack_discipline(*r, m, (h + 1) as nat);
            lemma_run_cmp_tail(
                spec_gen_arith_expr(*l, m)->Ok_0,
                spec_gen_arith_expr(*r, m)->Ok_0,
                InstrV::Setne(crate::gen_code::o_al()),
                h,
            );
        },
        Expr::Less(l, r) => {
            lemma_arith_stack_discipline(*l, m, h);
            lemma_arith_stack_discipline(*r, m, (h + 1) as nat);
            lemma_run_cmp_tail(
                spec_gen_arith_expr(*l, m)->Ok_0,
                spec_gen_arith_expr(*r, m)->Ok_0,
                InstrV::Setl(crate::gen_code::o_al()),
                h,
            );
        },
        Expr::LessOrEqual(l, r) => {
            lemma_arith_stack_discipline(*l, m, h);
            lemma_arith_stack_discipline(*r, m, (h + 1) as nat);
            lemma_run_cmp_tail(
                spec_gen_arith_expr(*l, m)->Ok_0,
                spec_gen_arith_expr(*r, m)->Ok_0,
                InstrV::Setle(crate::gen_code::o_al()),
                h,
            );
        },
    }
}

/// A comparison's closing instructions net one push over the two operands
/// already evaluated.
proof fn lemma_run_cmp_tail(lc: Seq<InstrV>, rc: Seq<InstrV>, set_instruction: InstrV, h: nat)
    requires
        run_line(lc, h) == Some((h + 1) as nat),
        run_line(rc, (h + 1) as nat) == Some((h + 2) as nat),
        forall|x: nat| line_step(set_instruction, x) == Some(x),
    ensures
        run_line(lc + rc + crate::gen_code::cmp_tail(set_instruction), h) == Some(
            (h + 1) as nat,
        ),
{
    lemma_run_line_concat(lc, rc, h);
    lemma_run_line_concat(lc + rc, crate::gen_code::cmp_tail(set_instruction), h);
    lemma_run_line_steps(
        crate::gen_code::cmp_tail(set_instruction),
        seq![
            (h + 2) as nat,
            (h + 1) as nat,
            h,
            h,
            h,
            h,
            (h + 1) as nat,
        ],
    );
}

/// TESTABLE: the same holds for the straight-line statement forms — an
/// expression statement, an assignment, a pointer assignment, and a
/// variable definition each leave the operand stack exactly one value
/// deeper. (Control-flow statements branch and are outside the
/// straight-line model; a `return` ends the function instead.)
#[verifier::rlimit(100)]
#[verifier::spinoff_prover]
pub proof fn lemma_straight_stmt_stack_discipline(s: Statement, m: MetaInfoV, h: nat)
    requires
        spec_gen_stmt(s, m) is Ok,
        straight_line_stmt(s),
        calls_bounded_stmt(s),
    ensures
        run_line(spec_gen_stmt(s, m)->Ok_0.0, h) == Some((h + 1) as nat),
{
    reveal_with_fuel(spec_gen_stmt, 1);
    reveal_with_fuel(crate::gen_code::spec_gen_block, 1);
    match s {
        Statement::Expr(e) => {
            lemma_expr_stack_discipline(*e, m, h);
        },
        Statement::Assign(left, e) => {
            lemma_lval_stack_discipline(left@, m, (h + 1) as nat);
            let lv = spec_gen_lval(left@, m)->Ok_0;
            lemma_expr_stack_discipline(*e, m, (h + 1) as nat);
            let vv = spec_gen_expr(*e, m)->Ok_0;
            let head = seq![InstrV::Comment("assign"@)];
            lemma_run_line_steps(head, seq![h, h]);
            lemma_run_line_concat(head, lv, h);
            lemma_run_line_concat(head + lv, vv, h);
            lemma_run_line_concat(head + lv + vv, seq![
                InstrV::Pop(crate::gen_code::o_rdi()),
                InstrV::Pop(crate::gen_code::o_rax()),
                InstrV::Mov(crate::gen_code::o_m_rax(), crate::gen_code::o_rdi()),
                InstrV::Push(crate::gen_code::o_rdi()),
                InstrV::Comment("assign end"@),
            ], h);
            lemma_run_line_steps(seq![
                InstrV::Pop(crate::gen_code::o_rdi()),
                InstrV::Pop(crate::gen_code::o_rax()),
                InstrV::Mov(crate::gen_code::o_m_rax(), crate::gen_code::o_rdi()),
                InstrV::Push(crate::gen_code::o_rdi()),
                InstrV::Comment("assign end"@),
            ], seq![(h + 2) as nat, (h + 1) as nat, h, h, (h + 1) as nat, (h + 1) as nat]);
        },
        Statement::AssignPointer(depth, left, e) => {
            lemma_lval_stack_discipline(left@, m, (h + 1) as nat);
            let lv = spec_gen_lval(left@, m)->Ok_0;
            lemma_expr_stack_discipline(*e, m, (h + 1) as nat);
            let vv = spec_gen_expr(*e, m)->Ok_0;
            let head = seq![InstrV::Comment("assign pointer"@)];
            lemma_run_line_steps(head, seq![h, h]);
            lemma_run_line_concat(head, lv, h);
            lemma_run_line_concat(head + lv, vv, h);
            lemma_run_line_concat(head + lv + vv, seq![
                InstrV::Pop(crate::gen_code::o_rdi()),
                InstrV::Pop(crate::gen_code::o_rax()),
            ], h);
            lemma_run_line_steps(seq![
                InstrV::Pop(crate::gen_code::o_rdi()),
                InstrV::Pop(crate::gen_code::o_rax()),
            ], seq![(h + 2) as nat, (h + 1) as nat, h]);
            lemma_run_line_concat(head + lv + vv + seq![
                InstrV::Pop(crate::gen_code::o_rdi()),
                InstrV::Pop(crate::gen_code::o_rax()),
            ], deref_chain(depth as int), h);
            lemma_run_deref_chain(depth as int, h);
            lemma_run_line_concat(head + lv + vv + seq![
                InstrV::Pop(crate::gen_code::o_rdi()),
                InstrV::Pop(crate::gen_code::o_rax()),
            ] + deref_chain(depth as int), seq![
                InstrV::Mov(crate::gen_code::o_m_rax(), crate::gen_code::o_rdi()),
                InstrV::Push(crate::gen_code::o_rdi()),
                InstrV::Comment("assign pointer end"@),
            ], h);
            lemma_run_line_steps(seq![
                InstrV::Mov(crate::gen_code::o_m_rax(), crate::gen_code::o_rdi()),
                InstrV::Push(crate::gen_code::o_rdi()),
                InstrV::Comment("assign pointer end"@),
            ], seq![h, h, (h + 1) as nat, (h + 1) as nat]);
            assert(spec_gen_stmt(s, m)->Ok_0.0 =~= head + lv + vv + seq![
                InstrV::Pop(crate::gen_code::o_rdi()),
                InstrV::Pop(crate::gen_code::o_rax()),
            ] + deref_chain(depth as int) + seq![
                InstrV::Mov(crate::gen_code::o_m_rax(), crate::gen_code::o_rdi()),
                InstrV::Push(crate::gen_code::o_rdi()),
                InstrV::Comment("assign pointer end"@),
            ]);
        },
        Statement::VarDef(_, _) => {
            lemma_run_line_steps(spec_gen_stmt(s, m)->Ok_0.0, seq![h, (h + 1) as nat]);
        },
        _ => {},
    }
}

/// The statement forms whose code is branch-free.
pub open spec fn straight_line_stmt(s: Statement) -> bool {
    match s {
        Statement::Expr(_) => true,
        Statement::Assign(_, _) => true,
        Statement::AssignPointer(_, _, _) => true,
        Statement::VarDef(_, _) => true,
        _ => false,
    }
}

/// The call bound, lifted to the straight-line statement forms.
pub open spec fn calls_bounded_stmt(s: Statement) -> bool {
    match s {
        Statement::Expr(e) => calls_bounded_expr(*e),
        Statement::Assign(_, e) => calls_bounded_expr(*e),
        Statement::AssignPointer(_, _, e) => calls_bounded_expr(*e),
        Statement::VarDef(_, _) => true,
        _ => true,
    }
}

/// The address-of code pushes exactly one value: the slot's address.
proof fn lemma_lval_stack_discipline(lval: Seq<char>, m: MetaInfoV, h1: nat)
    requires
        spec_gen_lval(lval, m) is Ok,
        h1 >= 1,
    ensures
        run_line(spec_gen_lval(lval, m)->Ok_0, (h1 - 1) as nat) == Some(h1),
{
    let code = spec_gen_lval(lval, m)->Ok_0;
    lemma_run_line_steps(code, seq![(h1 - 1) as nat, (h1 - 1) as nat, (h1 - 1) as nat, h1]);
}

} // verus!
