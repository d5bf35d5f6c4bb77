//! The semantic environment and the code generator.
//!
//! `MetaInfo` carries the generator's state: a stack of scope frames mapping
//! variable names to slots, a monotonically increasing label counter, and a
//! stack of break-target labels. A scope frame is kept as an association
//! vector; the slot id of a newly registered variable is the frame's size at
//! the moment of registration.
use crate::assembly::{
    al, asm_view, code_text, call, cmp, comment, cqo, dec_nat, idiv, imul, immediate, je, jmp, label,
    m_rax, mov, movzb, neg, pop, push, rax, rbp, rdi, ret, rsp, sete, setle, setl, setne,
    Assembly, InstrV, Instruction, Operand, Register,
};
use crate::ast::{
    arith_size, atom_size, expr_size, exprs_size, factor_size, lemma_exprs_size_element,
    lemma_stmts_size_element, stmt_size, stmts_size, unary_size, ArithExpr, Atom, DataType, Expr,
    Factor, PrimitiveType, Program, ProgramUnit, Statement, Unary,
};
use crate::error::{CompErrV, CompilerError};
use crate::infer_type::{infer_type_arith_expr, spec_infer_arith_expr};
use vstd::prelude::*;

verus! {

broadcast use vstd::std_specs::vec::axiom_vec_decreases_to_view, vstd::seq::axiom_seq_index_decreases;

/// A variable's slot index within its frame, together with its declared type.
pub struct VarInfo {
    pub id: u32,
    pub data_type: DataType,
}

impl Clone for VarInfo {
    fn clone(&self) -> (r: Self)
        ensures
            r == *self,
    {
        VarInfo { id: self.id, data_type: self.data_type.clone() }
    }
}

/// The most variables one frame can hold: keeps every slot offset
/// `(id + 1) * 8` and every frame byte size `8 * len` within `i32`.
pub const MAX_FRAME_VARS: u32 = 268435455;

/// A scope frame in mathematical form: name-to-slot pairs in insertion order.
pub type FrameV = Seq<(Seq<char>, VarInfo)>;

/// The index of the entry for `name` in frame `f`, or `-1` when absent.
pub open spec fn frame_index_of(f: FrameV, name: Seq<char>) -> int
    decreases f.len(),
{
    if f.len() == 0 {
        -1
    } else if f[0].0 == name {
        0
    } else {
        let r = frame_index_of(f.drop_first(), name);
        if r < 0 {
            -1
        } else {
            r + 1
        }
    }
}

/// The slot information registered for `name` in frame `f`, if any.
pub open spec fn frame_lookup(f: FrameV, name: Seq<char>) -> Option<VarInfo> {
    let i = frame_index_of(f, name);
    if i < 0 {
        None
    } else {
        Some(f[i].1)
    }
}

/// Registration of `name` in frame `f`: the new slot id is the frame's
/// current size; an existing entry for the name is overwritten in place.
pub open spec fn frame_register(f: FrameV, name: Seq<char>, dt: DataType) -> FrameV {
    let vi = VarInfo { id: f.len() as u32, data_type: dt };
    let i = frame_index_of(f, name);
    if i < 0 {
        f.push((name, vi))
    } else {
        f.update(i, (name, vi))
    }
}

/// Batch registration of function parameters: the slot counter starts at the
/// frame's size and advances once per parameter, in parameter order.
pub open spec fn frame_register_params(
    f: FrameV,
    vars: Seq<(DataType, Seq<char>)>,
    id: int,
) -> FrameV
    decreases vars.len(),
{
    if vars.len() == 0 {
        f
    } else {
        let vi = VarInfo { id: id as u32, data_type: vars[0].0 };
        let i = frame_index_of(f, vars[0].1);
        let f2 = if i < 0 {
            f.push((vars[0].1, vi))
        } else {
            f.update(i, (vars[0].1, vi))
        };
        frame_register_params(f2, vars.drop_first(), id + 1)
    }
}

/// The mathematical form of a parameter list.
pub open spec fn params_view(s: Seq<(DataType, String)>) -> Seq<(DataType, Seq<char>)> {
    Seq::new(s.len(), |i: int| (s[i].0, s[i].1@))
}

/// The mathematical form of one scope frame.
pub open spec fn frame_view(s: Seq<(String, VarInfo)>) -> FrameV {
    Seq::new(s.len(), |i: int| (s[i].0@, s[i].1))
}

/// The generator's environment in mathematical form.
#[verifier::ext_equal]
pub struct MetaInfoV {
    pub scopes: Seq<FrameV>,
    pub label_count: u64,
    pub breaks: Seq<Seq<char>>,
}

/// The environment a fresh compilation starts from: one empty frame, the
/// label counter at zero, no break targets.
pub open spec fn initial_meta() -> MetaInfoV {
    MetaInfoV { scopes: seq![Seq::empty()], label_count: 0, breaks: Seq::empty() }
}

/// Every frame is small enough that its slot offsets fit an `i32`, and there
/// is at least one frame.
pub open spec fn frame_wf(f: FrameV) -> bool {
    &&& f.len() <= MAX_FRAME_VARS
    &&& forall|j: int| 0 <= j < f.len() ==> (#[trigger] f[j].1.id) < MAX_FRAME_VARS
}

pub open spec fn meta_wf(m: MetaInfoV) -> bool {
    &&& m.scopes.len() > 0
    &&& forall|i: int| 0 <= i < m.scopes.len() ==> frame_wf(#[trigger] m.scopes[i])
}

/// The name of the fresh label numbered `n`.
pub open spec fn label_name(n: nat) -> Seq<char> {
    ".L"@ + dec_nat(n)
}

pub struct MetaInfo {
    scopes: Vec<Vec<(String, VarInfo)>>,
    label_count: u64,
    label_stack_for_break: Vec<String>,
}

impl View for MetaInfo {
    type V = MetaInfoV;

    closed spec fn view(&self) -> MetaInfoV {
        MetaInfoV {
            scopes: Seq::new(self.scopes@.len(), |i: int| frame_view(self.scopes@[i]@)),
            label_count: self.label_count,
            breaks: Seq::new(
                self.label_stack_for_break@.len(),
                |i: int| self.label_stack_for_break@[i]@,
            ),
        }
    }
}

impl MetaInfo {
    pub fn new() -> (r: MetaInfo)
        ensures
            r@ == initial_meta(),
    {
        let r = MetaInfo {
            scopes: vec![Vec::new()],
            label_count: 0,
            label_stack_for_break: Vec::new(),
        };
        proof {
            assert(r@.scopes[0] =~= Seq::<(Seq<char>, VarInfo)>::empty());
            assert(r@ =~~= initial_meta());
        }
        r
    }

    /// Enters a new, empty scope frame.
    pub fn push_scope(&mut self)
        ensures
            final(self)@.scopes == old(self)@.scopes.push(Seq::empty()),
            final(self)@.label_count == old(self)@.label_count,
            final(self)@.breaks == old(self)@.breaks,
    {
        self.scopes.push(Vec::new());
        proof {
            assert(self@.scopes =~~= old(self)@.scopes.push(Seq::empty()));
            assert(self@.breaks =~= old(self)@.breaks);
        }
    }

    /// Leaves the innermost scope frame.
    pub fn pop_scope(&mut self)
        ensures
            final(self)@.scopes == if old(self)@.scopes.len() == 0 {
                old(self)@.scopes
            } else {
                old(self)@.scopes.drop_last()
            },
            final(self)@.label_count == old(self)@.label_count,
            final(self)@.breaks == old(self)@.breaks,
    {
        self.scopes.pop();
        proof {
            if old(self)@.scopes.len() > 0 {
                assert(self@.scopes =~~= old(self)@.scopes.drop_last());
            } else {
                assert(self@.scopes =~~= old(self)@.scopes);
            }
            assert(self@.breaks =~= old(self)@.breaks);
        }
    }

    /// Registers one variable in the innermost frame; its slot id is the
    /// frame's size at the moment of registration.
    pub fn register_variable(&mut self, variable: &str, data_type: &DataType)
        requires
            old(self)@.scopes.len() > 0,
            old(self)@.scopes.last().len() < u32::MAX,
        ensures
            final(self)@.scopes == old(self)@.scopes.update(
                old(self)@.scopes.len() - 1,
                frame_register(old(self)@.scopes.last(), variable@, *data_type),
            ),
            final(self)@.label_count == old(self)@.label_count,
            final(self)@.breaks == old(self)@.breaks,
    {
        let owned: String = variable.to_owned();
        let last = self.scopes.len() - 1;
        let frame_len = self.scopes[last].len();
        let var_info = VarInfo { id: frame_len as u32, data_type: data_type.clone() };
        let ghost old_frame = self@.scopes.last();
        let mut j: usize = 0;
        let mut found: bool = false;
        while j < self.scopes[last].len() && !found
            invariant
                0 <= j <= self.scopes[last as int].len(),
                last == self.scopes@.len() - 1,
                self.scopes@.len() > 0,
                *self == *old(self),
                owned@ == variable@,
                old_frame == self@.scopes.last(),
                found ==> j < old_frame.len() && old_frame[j as int].0 == variable@,
                forall|k: int| 0 <= k < j ==> (#[trigger] old_frame[k].0) != variable@,
            decreases self.scopes[last as int].len() - j + (if found { 0int } else { 1int }),
        {
            proof {
                assert(old_frame[j as int] == (
                    self.scopes@[last as int]@[j as int].0@,
                    self.scopes@[last as int]@[j as int].1,
                ));
            }
            if self.scopes[last][j].0 == owned {
                found = true;
            } else {
                j = j + 1;
            }
        }
        proof {
            lemma_frame_index_of_prefix(old_frame, variable@, j as int, found);
        }
        if found {
            self.scopes[last].set(j, (owned, var_info));
            proof {
                let target = frame_register(old(self)@.scopes.last(), variable@, *data_type);
                assert(self@.scopes.last() =~~= target);
                assert(self@.scopes =~~= old(self)@.scopes.update(
                    old(self)@.scopes.len() - 1,
                    target,
                ));
                assert(self@.breaks =~= old(self)@.breaks);
            }
        } else {
            self.scopes[last].push((owned, var_info));
            proof {
                let target = frame_register(old(self)@.scopes.last(), variable@, *data_type);
                assert(frame_index_of(old_frame, variable@) < 0);
                assert(self@.scopes.last() =~~= target);
                assert(self@.scopes =~~= old(self)@.scopes.update(
                    old(self)@.scopes.len() - 1,
                    target,
                ));
                assert(self@.breaks =~= old(self)@.breaks);
            }
        }
    }

    /// Registers a parameter list in the innermost frame, in order; slot ids
    /// count up from the frame's size at entry.
    pub fn register_variables(&mut self, variables: &[(DataType, String)])
        requires
            old(self)@.scopes.len() > 0,
            old(self)@.scopes.last().len() + variables@.len() <= u32::MAX,
        ensures
            final(self)@.scopes == old(self)@.scopes.update(
                old(self)@.scopes.len() - 1,
                frame_register_params(
                    old(self)@.scopes.last(),
                    params_view(variables@),
                    old(self)@.scopes.last().len() as int,
                ),
            ),
            final(self)@.label_count == old(self)@.label_count,
            final(self)@.breaks == old(self)@.breaks,
    {
        let last = self.scopes.len() - 1;
        let mut id: u32 = self.scopes[last].len() as u32;
        let ghost pv = params_view(variables@);
        let ghost old_top = old(self)@.scopes.last();
        proof {
            assert(pv.skip(0) =~= pv);
        }
        let mut i: usize = 0;
        while i < variables.len()
            invariant
                0 <= i <= variables@.len(),
                last == self.scopes@.len() - 1,
                self.scopes@.len() == old(self)@.scopes.len(),
                pv == params_view(variables@),
                old_top == old(self)@.scopes.last(),
                old_top.len() + variables@.len() <= u32::MAX,
                id == old_top.len() + i,
                id <= u32::MAX,
                forall|k: int|
                    0 <= k < self.scopes@.len() && k != last ==> #[trigger] self.scopes@[k]
                        == old(self).scopes@[k],
                self@.label_count == old(self)@.label_count,
                self@.breaks == old(self)@.breaks,
                frame_register_params(old_top, pv, old_top.len() as int) == frame_register_params(
                    self@.scopes.last(),
                    pv.skip(i as int),
                    id as int,
                ),
            decreases variables@.len() - i,
        {
            let ghost cur = self@.scopes.last();
            let data_type = &variables[i].0;
            let name = &variables[i].1;
            let var_info = VarInfo { id, data_type: data_type.clone() };
            let ghost vi = var_info;
            let found = frame_find(&self.scopes[last], name);
            proof {
                assert(pv.skip(i as int)[0] == (variables@[i as int].0, variables@[i as int].1@));
            }
            match found {
                Some(j) => {
                    self.scopes[last].set(j, (name.clone(), var_info));
                    proof {
                        assert(self@.scopes.last() =~~= cur.update(j as int, (name@, vi)));
                    }
                },
                None => {
                    self.scopes[last].push((name.clone(), var_info));
                    proof {
                        assert(self@.scopes.last() =~~= cur.push((name@, vi)));
                    }
                },
            }
            proof {
                assert(pv.skip(i as int).drop_first() =~= pv.skip(i + 1));
            }
            id = id + 1;
            i = i + 1;
        }
        proof {
            assert(pv.skip(variables@.len() as int) =~= Seq::<(DataType, Seq<char>)>::empty());
            assert(self@.scopes =~~= old(self)@.scopes.update(
                old(self)@.scopes.len() - 1,
                frame_register_params(old_top, pv, old_top.len() as int),
            ));
        }
    }

    /// Looks a name up in the innermost frame only.
    pub fn get_variable(&self, lval: &String) -> (r: Option<VarInfo>)
        requires
            self@.scopes.len() > 0,
        ensures
            r == frame_lookup(self@.scopes.last(), lval@),
    {
        let last = self.scopes.len() - 1;
        match frame_find(&self.scopes[last], lval) {
            Some(j) => Some(self.scopes[last][j].1.clone()),
            None => None,
        }
    }

    /// The number of variables registered in the innermost frame.
    pub fn get_number_of_variables(&self) -> (r: u32)
        requires
            self@.scopes.len() > 0,
            self@.scopes.last().len() <= u32::MAX,
        ensures
            r == self@.scopes.last().len(),
    {
        let last = self.scopes.len() - 1;
        self.scopes[last].len() as u32
    }

    /// Advances the label counter and returns the fresh label `.L{n}`.
    /// Counter values are never reused within one compilation, so labels from
    /// successive calls carry strictly increasing numeric suffixes.
    pub fn get_new_label(&mut self) -> (r: String)
        requires
            old(self)@.label_count < u64::MAX,
        ensures
            final(self)@.label_count == old(self)@.label_count + 1,
            final(self)@.scopes == old(self)@.scopes,
            final(self)@.breaks == old(self)@.breaks,
            r@ == label_name((old(self)@.label_count + 1) as nat),
    {
        self.label_count = self.label_count + 1;
        let mut s = String::from_str(".L");
        let num = crate::assembly::nat_to_string(self.label_count);
        s.append(num.as_str());
        s
    }

    /// Pushes the end-of-loop label a `break` inside the loop must jump to.
    pub fn push_label_for_break(&mut self, label: String)
        ensures
            final(self)@.breaks == old(self)@.breaks.push(label@),
            final(self)@.scopes == old(self)@.scopes,
            final(self)@.label_count == old(self)@.label_count,
    {
        self.label_stack_for_break.push(label);
        proof {
            assert(self@.breaks =~= old(self)@.breaks.push(label@));
            assert(self@.scopes =~~= old(self)@.scopes);
        }
    }

    /// Pops the innermost break target.
    pub fn pop_label_for_break(&mut self) -> (r: String)
        requires
            old(self)@.breaks.len() > 0,
        ensures
            r@ == old(self)@.breaks.last(),
            final(self)@.breaks == old(self)@.breaks.drop_last(),
            final(self)@.scopes == old(self)@.scopes,
            final(self)@.label_count == old(self)@.label_count,
    {
        let r = self.label_stack_for_break.pop().unwrap();
        proof {
            assert(self@.breaks =~= old(self)@.breaks.drop_last());
            assert(self@.scopes =~~= old(self)@.scopes);
        }
        r
    }

    /// The innermost break target, without removing it.
    pub fn get_label_for_break(&mut self) -> (r: String)
        requires
            old(self)@.breaks.len() > 0,
        ensures
            r@ == old(self)@.breaks.last(),
            *final(self) == *old(self),
    {
        let n = self.label_stack_for_break.len() - 1;
        self.label_stack_for_break[n].clone()
    }
}

/// Scans a frame for a name; the result is the position `frame_index_of`
/// describes.
fn frame_find(frame: &Vec<(String, VarInfo)>, name: &String) -> (r: Option<usize>)
    ensures
        match r {
            Some(j) => 0 <= j < frame@.len() && frame_index_of(frame_view(frame@), name@)
                == j as int,
            None => frame_index_of(frame_view(frame@), name@) < 0,
        },
{
    let ghost fv = frame_view(frame@);
    let mut j: usize = 0;
    let mut found: bool = false;
    while j < frame.len() && !found
        invariant
            0 <= j <= frame@.len(),
            fv == frame_view(frame@),
            found ==> j < fv.len() && fv[j as int].0 == name@,
            forall|k: int| 0 <= k < j ==> (#[trigger] fv[k].0) != name@,
        decreases frame@.len() - j + (if found { 0int } else { 1int }),
    {
        if frame[j].0 == *name {
            found = true;
        } else {
            j = j + 1;
        }
    }
    proof {
        lemma_frame_index_of_prefix(fv, name@, j as int, found);
    }
    if found {
        Some(j)
    } else {
        None
    }
}

/// The operand forms the generator uses, in mathematical shorthand.
pub open spec fn o_rax() -> Operand {
    Operand::Register(Register::RAX)
}

pub open spec fn o_rbp() -> Operand {
    Operand::Register(Register::RBP)
}

pub open spec fn o_rsp() -> Operand {
    Operand::Register(Register::RSP)
}

pub open spec fn o_rdi() -> Operand {
    Operand::Register(Register::RDI)
}

pub open spec fn o_al() -> Operand {
    Operand::Register(Register::AL)
}

pub open spec fn o_m_rax() -> Operand {
    Operand::Memory(Register::RAX)
}

pub open spec fn o_imm(v: i32) -> Operand {
    Operand::Immediate(v)
}

/// The integer-argument register for position `i` of a call, following the
/// System V AMD64 convention.
pub open spec fn arg_register(i: int) -> Register {
    if i == 0 {
        Register::RDI
    } else if i == 1 {
        Register::RSI
    } else if i == 2 {
        Register::RDX
    } else if i == 3 {
        Register::RCX
    } else if i == 4 {
        Register::R8
    } else {
        Register::R9
    }
}

/// The stack offset of slot `id`: slots lie at `rbp - (id + 1) * 8`.
pub open spec fn slot_offset(id: u32) -> i32 {
    ((id + 1) * 8) as i32
}

/// The code that pushes the address of slot `id`.
pub open spec fn lval_code(id: u32) -> Seq<InstrV> {
    seq![
        InstrV::Mov(o_rax(), o_rbp()),
        InstrV::Sub(o_rax(), o_imm(slot_offset(id))),
        InstrV::Push(o_rax()),
    ]
}

/// The code emitted for the left side of an assignment: the address of the
/// variable's slot, or an error when the name is not in the innermost frame.
pub open spec fn spec_gen_lval(lval: Seq<char>, m: MetaInfoV) -> Result<Seq<InstrV>, CompErrV> {
    match frame_lookup(m.scopes.last(), lval) {
        Some(var_info) => Ok(lval_code(var_info.id)),
        None => Err(CompErrV::UndefinedVariable(lval)),
    }
}

/// The pops that move the topmost `k` argument values into the argument
/// registers, last argument first.
pub open spec fn pop_args_code(k: int) -> Seq<InstrV>
    decreases k,
{
    if k <= 0 {
        Seq::empty()
    } else {
        seq![InstrV::Pop(Operand::Register(arg_register(k - 1)))] + pop_args_code(k - 1)
    }
}

/// The code generated for an atom. Every successful case pushes exactly one
/// value onto the hardware stack.
#[verifier::opaque]
pub open spec fn spec_gen_atom(atom: Atom, m: MetaInfoV) -> Result<Seq<InstrV>, CompErrV>
    decreases atom,
{
    match atom {
        Atom::Number(n) => Ok(seq![InstrV::Push(o_imm(n))]),
        Atom::Expr(expr) => spec_gen_expr(*expr, m),
        Atom::Variable(lval) => match frame_lookup(m.scopes.last(), lval@) {
            Some(var_info) => Ok(
                seq![
                    InstrV::Mov(o_rax(), o_rbp()),
                    InstrV::Sub(o_rax(), o_imm(slot_offset(var_info.id))),
                    InstrV::Push(o_m_rax()),
                ],
            ),
            None => Err(CompErrV::UndefinedVariable(lval@)),
        },
        Atom::FunctionCall(func_name, arguments) => match spec_gen_args(
            arguments@,
            arguments@.len() as int,
            m,
        ) {
            Ok(args_code) => {
                let k = if arguments@.len() < 6 {
                    arguments@.len() as int
                } else {
                    6
                };
                Ok(
                    args_code + pop_args_code(k) + seq![
                        InstrV::Call(func_name@),
                        InstrV::Push(o_rax()),
                    ],
                )
            },
            Err(e) => Err(e),
        },
        Atom::AddressOf(lval) => match frame_lookup(m.scopes.last(), lval@) {
            Some(var_info) => Ok(
                seq![InstrV::Comment("address of"@)] + lval_code(var_info.id) + seq![
                    InstrV::Comment("address of end"@),
                ],
            ),
            None => Err(CompErrV::UndefinedVariable(lval@)),
        },
    }
}

/// The code that evaluates the first `n` arguments of a call, left to right,
/// each leaving its value on the stack.
#[verifier::opaque]
pub open spec fn spec_gen_args(args: Seq<Expr>, n: int, m: MetaInfoV) -> Result<
    Seq<InstrV>,
    CompErrV,
>
    decreases args, n,
{
    if n <= 0 || n > args.len() {
        Ok(Seq::empty())
    } else {
        match spec_gen_args(args, n - 1, m) {
            Ok(code) => match spec_gen_expr(args[n - 1], m) {
                Ok(arg_code) => Ok(code + arg_code),
                Err(e) => Err(e),
            },
            Err(e) => Err(e),
        }
    }
}

#[verifier::opaque]
pub open spec fn spec_gen_unary(unary: Unary, m: MetaInfoV) -> Result<Seq<InstrV>, CompErrV>
    decreases unary,
{
    match unary {
        Unary::Atom(atom) => spec_gen_atom(*atom, m),
        Unary::Neg(atom) => match spec_gen_atom(*atom, m) {
            Ok(code) => Ok(
                code + seq![
                    InstrV::Pop(o_rax()),
                    InstrV::Neg(o_rax()),
                    InstrV::Push(o_rax()),
                ],
            ),
            Err(e) => Err(e),
        },
        Unary::PointerDeref(atom) => match spec_gen_atom(*atom, m) {
            Ok(code) => Ok(
                code + seq![
                    InstrV::Pop(o_rax()),
                    InstrV::Mov(o_rax(), o_m_rax()),
                    InstrV::Push(o_rax()),
                ],
            ),
            Err(e) => Err(e),
        },
    }
}

#[verifier::opaque]
pub open spec fn spec_gen_factor(factor: Factor, m: MetaInfoV) -> Result<Seq<InstrV>, CompErrV>
    decreases factor,
{
    match factor {
        Factor::Unary(unary) => spec_gen_unary(*unary, m),
        Factor::Mul(left, right) => match spec_gen_factor(*left, m) {
            Ok(left_code) => match spec_gen_unary(*right, m) {
                Ok(right_code) => Ok(
                    left_code + right_code + seq![
                        InstrV::Pop(o_rdi()),
                        InstrV::Pop(o_rax()),
                        InstrV::Mul(o_rdi()),
                        InstrV::Push(o_rax()),
                    ],
                ),
                Err(e) => Err(e),
            },
            Err(e) => Err(e),
        },
        Factor::Div(left, right) => match spec_gen_factor(*left, m) {
            Ok(left_code) => match spec_gen_unary(*right, m) {
                Ok(right_code) => Ok(
                    left_code + right_code + seq![
                        InstrV::Pop(o_rdi()),
                        InstrV::Pop(o_rax()),
                        InstrV::Cqo,
                        InstrV::Idiv(o_rdi()),
                        InstrV::Push(o_rax()),
                    ],
                ),
                Err(e) => Err(e),
            },
            Err(e) => Err(e),
        },
    }
}

/// The code generated for additive expressions. At `+` the type of the left
/// side decides between integer and pointer addition: a pointer's offset is
/// scaled by the pointee size, which the generator takes as eight bytes for
/// every representable base type.
#[verifier::opaque]
pub open spec fn spec_gen_arith_expr(expr: ArithExpr, m: MetaInfoV) -> Result<
    Seq<InstrV>,
    CompErrV,
>
    decreases expr,
{
    match expr {
        ArithExpr::Factor(factor) => spec_gen_factor(*factor, m),
        ArithExpr::Add(left, right) => match spec_gen_arith_expr(*left, m) {
            Ok(left_code) => match spec_gen_factor(*right, m) {
                Ok(right_code) => {
                    let head = left_code + right_code + seq![
                        InstrV::Pop(o_rdi()),
                        InstrV::Pop(o_rax()),
                    ];
                    match spec_infer_arith_expr(*left, m) {
                        Ok(DataType::Primitive(PrimitiveType::Int)) => Ok(
                            head + seq![InstrV::Add(o_rax(), o_rdi()), InstrV::Push(o_rax())],
                        ),
                        Ok(DataType::Pointer(_, _)) => Ok(
                            head + seq![
                                InstrV::IMul(o_rdi(), o_imm(8)),
                                InstrV::Add(o_rax(), o_rdi()),
                                InstrV::Push(o_rax()),
                            ],
                        ),
                        Ok(DataType::Primitive(PrimitiveType::Void)) => Err(
                            CompErrV::TypeMismatch("left side of + is not int or pointer"@),
                        ),
                        Err(e) => Err(CompErrV::TypeMismatch(e)),
                    }
                },
                Err(e) => Err(e),
            },
            Err(e) => Err(e),
        },
        ArithExpr::Sub(left, right) => match spec_gen_arith_expr(*left, m) {
            Ok(left_code) => match spec_gen_factor(*right, m) {
                Ok(right_code) => Ok(
                    left_code + right_code + seq![
                        InstrV::Pop(o_rdi()),
                        InstrV::Pop(o_rax()),
                        InstrV::Sub(o_rax(), o_rdi()),
                        InstrV::Push(o_rax()),
                    ],
                ),
                Err(e) => Err(e),
            },
            Err(e) => Err(e),
        },
    }
}

/// The instructions after a comparison's operands are on the stack: `cmp`,
/// then the given `set` instruction materialises the flag into `al`.
pub open spec fn cmp_tail(set_instruction: InstrV) -> Seq<InstrV> {
    seq![
        InstrV::Pop(o_rdi()),
        InstrV::Pop(o_rax()),
        InstrV::Cmp(o_rax(), o_rdi()),
        set_instruction,
        InstrV::Movzb(o_rax(), o_al()),
        InstrV::Push(o_rax()),
    ]
}

#[verifier::opaque]
pub open spec fn spec_gen_expr(expr: Expr, m: MetaInfoV) -> Result<Seq<InstrV>, CompErrV>
    decreases expr,
{
    match expr {
        Expr::ArithExpr(arith_expr) => spec_gen_arith_expr(*arith_expr, m),
        Expr::Equal(left, right) => match spec_gen_arith_expr(*left, m) {
            Ok(left_code) => match spec_gen_arith_expr(*right, m) {
                Ok(right_code) => Ok(left_code + right_code + cmp_tail(InstrV::Sete(o_al()))),
                Err(e) => Err(e),
            },
            Err(e) => Err(e),
        },
        Expr::NotEqual(left, right) => match spec_gen_arith_expr(*left, m) {
            Ok(left_code) => match spec_gen_arith_expr(*right, m) {
                Ok(right_code) => Ok(left_code + right_code + cmp_tail(InstrV::Setne(o_al()))),
                Err(e) => Err(e),
            },
            Err(e) => Err(e),
        },
        Expr::Less(left, right) => match spec_gen_arith_expr(*left, m) {
            Ok(left_code) => match spec_gen_arith_expr(*right, m) {
                Ok(right_code) => Ok(left_code + right_code + cmp_tail(InstrV::Setl(o_al()))),
                Err(e) => Err(e),
            },
            Err(e) => Err(e),
        },
        Expr::LessOrEqual(left, right) => match spec_gen_arith_expr(*left, m) {
            Ok(left_code) => match spec_gen_arith_expr(*right, m) {
                Ok(right_code) => Ok(left_code + right_code + cmp_tail(InstrV::Setle(o_al()))),
                Err(e) => Err(e),
            },
            Err(e) => Err(e),
        },
    }
}

/// The code for a comparison with the given `set` instruction.
pub open spec fn spec_gen_cmp(
    set_instruction: InstrV,
    left: ArithExpr,
    right: ArithExpr,
    m: MetaInfoV,
) -> Result<Seq<InstrV>, CompErrV> {
    match spec_gen_arith_expr(left, m) {
        Ok(left_code) => match spec_gen_arith_expr(right, m) {
            Ok(right_code) => Ok(left_code + right_code + cmp_tail(set_instruction)),
            Err(e) => Err(e),
        },
        Err(e) => Err(e),
    }
}

/// `break` appears only where the stack of break targets is non-empty:
/// `depth` counts the enclosing loops. The generator aborts the process on a
/// `break` outside every loop, so that input is excluded up front.
pub open spec fn breaks_ok(s: Statement, depth: int) -> bool
    decreases s,
{
    match s {
        Statement::Break => depth > 0,
        Statement::If(_, then_branch, else_branch) => breaks_ok(*then_branch, depth) && (match *else_branch {
            Some(else_stmt) => breaks_ok(else_stmt, depth),
            None => true,
        }),
        Statement::Block(statements) => breaks_ok_seq(statements@, depth),
        Statement::While(_, body) => breaks_ok(*body, depth + 1),
        Statement::For(init, _, update, body) => (match *init {
            Some(init_stmt) => breaks_ok(init_stmt, depth),
            None => true,
        }) && (match *update {
            Some(update_stmt) => breaks_ok(update_stmt, depth + 1),
            None => true,
        }) && breaks_ok(*body, depth + 1),
        _ => true,
    }
}

pub open spec fn breaks_ok_seq(ss: Seq<Statement>, depth: int) -> bool
    decreases ss, 0int,
{
    if ss.len() == 0 {
        true
    } else {
        breaks_ok(ss[0], depth) && breaks_ok_seq(ss.drop_first(), depth)
    }
}

/// The number of fresh labels the generator draws for this statement.
pub open spec fn labels_of_stmt(s: Statement) -> nat
    decreases s,
{
    match s {
        Statement::If(_, then_branch, else_branch) => match *else_branch {
            Some(else_stmt) => 2 + labels_of_stmt(*then_branch) + labels_of_stmt(else_stmt),
            None => 1 + labels_of_stmt(*then_branch),
        },
        Statement::Block(statements) => labels_of_seq(statements@),
        Statement::While(_, body) => 2 + labels_of_stmt(*body),
        Statement::For(init, _, update, body) => (match *init {
            Some(init_stmt) => labels_of_stmt(init_stmt),
            None => 0,
        }) + 2 + (match *update {
            Some(update_stmt) => labels_of_stmt(update_stmt),
            None => 0,
        }) + labels_of_stmt(*body),
        _ => 0,
    }
}

pub open spec fn labels_of_seq(ss: Seq<Statement>) -> nat
    decreases ss, 0int,
{
    if ss.len() == 0 {
        0
    } else {
        labels_of_stmt(ss[0]) + labels_of_seq(ss.drop_first())
    }
}

/// The number of variables this statement registers in the frame it runs in.
pub open spec fn var_defs_of_stmt(s: Statement) -> nat
    decreases s,
{
    match s {
        Statement::VarDef(_, _) => 1,
        Statement::If(_, then_branch, else_branch) => var_defs_of_stmt(*then_branch) + (
        match *else_branch {
            Some(else_stmt) => var_defs_of_stmt(else_stmt),
            None => 0,
        }),
        Statement::Block(statements) => var_defs_of_seq(statements@),
        Statement::While(_, body) => var_defs_of_stmt(*body),
        Statement::For(init, _, update, body) => (match *init {
            Some(init_stmt) => var_defs_of_stmt(init_stmt),
            None => 0,
        }) + (match *update {
            Some(update_stmt) => var_defs_of_stmt(update_stmt),
            None => 0,
        }) + var_defs_of_stmt(*body),
        _ => 0,
    }
}

pub open spec fn var_defs_of_seq(ss: Seq<Statement>) -> nat
    decreases ss, 0int,
{
    if ss.len() == 0 {
        0
    } else {
        var_defs_of_stmt(ss[0]) + var_defs_of_seq(ss.drop_first())
    }
}

/// `depth` repetitions of `mov rax, [rax]`: one per level of pointer
/// indirection walked by a pointer assignment.
pub open spec fn deref_chain(depth: int) -> Seq<InstrV>
    decreases depth,
{
    if depth <= 0 {
        Seq::empty()
    } else {
        deref_chain(depth - 1) + seq![InstrV::Mov(o_rax(), o_m_rax())]
    }
}

/// Registration of one variable in the innermost frame, on the environment.
pub open spec fn meta_register(m: MetaInfoV, name: Seq<char>, dt: DataType) -> MetaInfoV {
    MetaInfoV {
        scopes: m.scopes.update(
            m.scopes.len() - 1,
            frame_register(m.scopes.last(), name, dt),
        ),
        ..m
    }
}

/// The environment after drawing one fresh label.
pub open spec fn meta_next_label(m: MetaInfoV) -> (MetaInfoV) {
    MetaInfoV { label_count: (m.label_count + 1) as u64, ..m }
}

/// The code generated for a statement, together with the environment it
/// leaves behind. Every successful statement but `Return` pushes exactly one
/// value (a `for` loop is the known exception: it pushes none).
#[verifier::opaque]
pub open spec fn spec_gen_stmt(s: Statement, m: MetaInfoV) -> Result<
    (Seq<InstrV>, MetaInfoV),
    CompErrV,
>
    decreases s,
{
    match s {
        Statement::Expr(expr) => match spec_gen_expr(*expr, m) {
            Ok(code) => Ok((code, m)),
            Err(e) => Err(e),
        },
        Statement::Assign(left, expr) => match spec_gen_lval(left@, m) {
            Ok(lval) => match spec_gen_expr(*expr, m) {
                Ok(value) => Ok(
                    (
                        seq![InstrV::Comment("assign"@)] + lval + value + seq![
                            InstrV::Pop(o_rdi()),
                            InstrV::Pop(o_rax()),
                            InstrV::Mov(o_m_rax(), o_rdi()),
                            InstrV::Push(o_rdi()),
                            InstrV::Comment("assign end"@),
                        ],
                        m,
                    ),
                ),
                Err(e) => Err(e),
            },
            Err(e) => Err(e),
        },
        Statement::AssignPointer(depth, left, expr) => match spec_gen_lval(left@, m) {
            Ok(lval) => match spec_gen_expr(*expr, m) {
                Ok(value) => Ok(
                    (
                        seq![InstrV::Comment("assign pointer"@)] + lval + value + seq![
                            InstrV::Pop(o_rdi()),
                            InstrV::Pop(o_rax()),
                        ] + deref_chain(depth as int) + seq![
                            InstrV::Mov(o_m_rax(), o_rdi()),
                            InstrV::Push(o_rdi()),
                            InstrV::Comment("assign pointer end"@),
                        ],
                        m,
                    ),
                ),
                Err(e) => Err(e),
            },
            Err(e) => Err(e),
        },
        Statement::Return(expr) => match spec_gen_expr(*expr, m) {
            Ok(code) => Ok(
                (
                    code + seq![
                        InstrV::Pop(o_rax()),
                        InstrV::Mov(o_rsp(), o_rbp()),
                        InstrV::Pop(o_rbp()),
                        InstrV::Ret,
                    ],
                    m,
                ),
            ),
            Err(e) => Err(e),
        },
        Statement::Block(statements) => spec_gen_block(
            statements@,
            statements@.len() as int,
            m,
        ),
        Statement::If(cond, then_branch, else_branch) => match spec_gen_expr(*cond, m) {
            Ok(cond_code) => {
                let head = seq![InstrV::Comment("if"@)] + cond_code + seq![
                    InstrV::Pop(o_rax()),
                    InstrV::Cmp(o_rax(), o_imm(0)),
                ];
                match *else_branch {
                    Some(else_stmt) => {
                        let else_label = label_name((m.label_count + 1) as nat);
                        let end_label = label_name((m.label_count + 2) as nat);
                        let m2 = meta_next_label(meta_next_label(m));
                        match spec_gen_stmt(*then_branch, m2) {
                            Ok((then_code, m3)) => match spec_gen_stmt(else_stmt, m3) {
                                Ok((else_code, m4)) => Ok(
                                    (
                                        head + seq![InstrV::Je(else_label)] + then_code + seq![
                                            InstrV::Jmp(end_label),
                                            InstrV::Comment("else"@),
                                            InstrV::Label(else_label),
                                        ] + else_code + seq![
                                            InstrV::Label(end_label),
                                            InstrV::Push(o_imm(0)),
                                            InstrV::Comment("if end"@),
                                        ],
                                        m4,
                                    ),
                                ),
                                Err(e) => Err(e),
                            },
                            Err(e) => Err(e),
                        }
                    },
                    None => {
                        let end_label = label_name((m.label_count + 1) as nat);
                        let m2 = meta_next_label(m);
                        match spec_gen_stmt(*then_branch, m2) {
                            Ok((then_code, m3)) => Ok(
                                (
                                    head + seq![InstrV::Je(end_label)] + then_code + seq![
                                        InstrV::Pop(o_rax()),
                                        InstrV::Label(end_label),
                                        InstrV::Push(o_imm(0)),
                                        InstrV::Comment("if end"@),
                                    ],
                                    m3,
                                ),
                            ),
                            Err(e) => Err(e),
                        }
                    },
                }
            },
            Err(e) => Err(e),
        },
        Statement::While(cond, body) => {
            let start_label = label_name((m.label_count + 1) as nat);
            let end_label = label_name((m.label_count + 2) as nat);
            let m2 = MetaInfoV {
                breaks: m.breaks.push(end_label),
                ..meta_next_label(meta_next_label(m))
            };
            match spec_gen_expr(*cond, m2) {
                Ok(cond_code) => match spec_gen_stmt(*body, m2) {
                    Ok((body_code, m3)) => Ok(
                        (
                            seq![InstrV::Label(start_label), InstrV::Comment("while"@)]
                                + cond_code + seq![
                                InstrV::Pop(o_rax()),
                                InstrV::Cmp(o_rax(), o_imm(0)),
                                InstrV::Je(end_label),
                            ] + body_code + seq![
                                InstrV::Comment("while content pop"@),
                                InstrV::Pop(o_rax()),
                                InstrV::Jmp(start_label),
                                InstrV::Label(end_label),
                                InstrV::Push(o_imm(0)),
                                InstrV::Comment("while end"@),
                            ],
                            MetaInfoV { breaks: m3.breaks.drop_last(), ..m3 },
                        ),
                    ),
                    Err(e) => Err(e),
                },
                Err(e) => Err(e),
            }
        },
        Statement::For(init, cond, update, body) => {
            let init_res = match *init {
                Some(init_stmt) => match spec_gen_stmt(init_stmt, m) {
                    Ok((init_code, m1)) => Ok((init_code + seq![InstrV::Pop(o_rax())], m1)),
                    Err(e) => Err(e),
                },
                None => Ok((Seq::<InstrV>::empty(), m)),
            };
            match init_res {
                Ok((init_code, m1)) => {
                    let start_label = label_name((m1.label_count + 1) as nat);
                    let end_label = label_name((m1.label_count + 2) as nat);
                    let m2 = MetaInfoV {
                        breaks: m1.breaks.push(end_label),
                        ..meta_next_label(meta_next_label(m1))
                    };
                    let cond_res = match *cond {
                        Some(cond_expr) => match spec_gen_expr(cond_expr, m2) {
                            Ok(cond_code) => Ok(
                                cond_code + seq![
                                    InstrV::Pop(o_rax()),
                                    InstrV::Cmp(o_rax(), o_imm(0)),
                                    InstrV::Je(end_label),
                                ],
                            ),
                            Err(e) => Err(e),
                        },
                        None => Ok(Seq::<InstrV>::empty()),
                    };
                    match cond_res {
                        Ok(cond_code) => match spec_gen_stmt(*body, m2) {
                            Ok((body_code, m3)) => {
                                let update_res = match *update {
                                    Some(update_stmt) => match spec_gen_stmt(update_stmt, m3) {
                                        Ok((update_code, m4)) => Ok(
                                            (update_code + seq![InstrV::Pop(o_rax())], m4),
                                        ),
                                        Err(e) => Err(e),
                                    },
                                    None => Ok((Seq::<InstrV>::empty(), m3)),
                                };
                                match update_res {
                                    Ok((update_code, m4)) => Ok(
                                        (
                                            init_code + seq![InstrV::Label(start_label)]
                                                + cond_code + body_code + seq![
                                                InstrV::Pop(o_rax()),
                                            ] + update_code + seq![
                                                InstrV::Jmp(start_label),
                                                InstrV::Label(end_label),
                                            ],
                                            MetaInfoV { breaks: m4.breaks.drop_last(), ..m4 },
                                        ),
                                    ),
                                    Err(e) => Err(e),
                                }
                            },
                            Err(e) => Err(e),
                        },
                        Err(e) => Err(e),
                    }
                },
                Err(e) => Err(e),
            }
        },
        Statement::Break => Ok(
            (seq![InstrV::Comment("break"@), InstrV::Jmp(m.breaks.last())], m),
        ),
        Statement::VarDef(data_type, var_name) => Ok(
            (seq![InstrV::Push(o_imm(0))], meta_register(m, var_name@, data_type)),
        ),
    }
}

/// The code for the first `n` statements of a block: after every statement
/// except the block's last, the value it left is popped away.
#[verifier::opaque]
pub open spec fn spec_gen_block(ss: Seq<Statement>, n: int, m: MetaInfoV) -> Result<
    (Seq<InstrV>, MetaInfoV),
    CompErrV,
>
    decreases ss, n,
{
    if n <= 0 || n > ss.len() {
        Ok((Seq::empty(), m))
    } else {
        match spec_gen_block(ss, n - 1, m) {
            Ok((code, m1)) => match spec_gen_stmt(ss[n - 1], m1) {
                Ok((stmt_code, m2)) => {
                    let with_pop = if n - 1 != ss.len() - 1 {
                        stmt_code + seq![InstrV::Pop(o_rax())]
                    } else {
                        stmt_code
                    };
                    Ok((code + with_pop, m2))
                },
                Err(e) => Err(e),
            },
            Err(e) => Err(e),
        }
    }
}

/// The mathematical form of a generation result.
pub open spec fn gen_res_view(r: Result<Assembly, CompilerError>) -> Result<Seq<InstrV>, CompErrV> {
    match r {
        Ok(v) => Ok(asm_view(v@)),
        Err(e) => Err(e@),
    }
}

/// A successful `frame_index_of` points at an entry carrying the name.
pub proof fn lemma_frame_index_of_range(f: FrameV, name: Seq<char>)
    ensures
        frame_index_of(f, name) < f.len(),
        frame_index_of(f, name) >= 0 ==> f[frame_index_of(f, name)].0 == name,
    decreases f.len(),
{
    if f.len() == 0 {
    } else if f[0].0 == name {
    } else {
        lemma_frame_index_of_range(f.drop_first(), name);
    }
}

/// One more successfully compiled argument extends the argument code.
proof fn lemma_gen_args_step(args: Seq<Expr>, i: int, m: MetaInfoV, acc: Seq<InstrV>, code: Seq<InstrV>)
    requires
        0 <= i < args.len(),
        spec_gen_args(args, i, m) == Ok::<Seq<InstrV>, CompErrV>(acc),
        spec_gen_expr(args[i], m) == Ok::<Seq<InstrV>, CompErrV>(code),
    ensures
        spec_gen_args(args, i + 1, m) == Ok::<Seq<InstrV>, CompErrV>(acc + code),
{
    reveal_with_fuel(spec_gen_expr, 1);
    reveal_with_fuel(spec_gen_arith_expr, 1);
    reveal_with_fuel(spec_gen_factor, 1);
    reveal_with_fuel(spec_gen_unary, 1);
    reveal_with_fuel(spec_gen_atom, 1);
    reveal_with_fuel(spec_gen_args, 1);
}

/// An argument that fails to compile fails the whole argument list.
proof fn lemma_gen_args_err(args: Seq<Expr>, i: int, n: int, m: MetaInfoV)
    requires
        0 <= i < n <= args.len(),
        spec_gen_args(args, i, m) is Ok,
        spec_gen_expr(args[i], m) is Err,
    ensures
        spec_gen_args(args, n, m) == Err::<Seq<InstrV>, CompErrV>(
            spec_gen_expr(args[i], m)->Err_0,
        ),
    decreases n,
{
    reveal_with_fuel(spec_gen_expr, 1);
    reveal_with_fuel(spec_gen_arith_expr, 1);
    reveal_with_fuel(spec_gen_factor, 1);
    reveal_with_fuel(spec_gen_unary, 1);
    reveal_with_fuel(spec_gen_atom, 1);
    reveal_with_fuel(spec_gen_args, 1);
    if n > i + 1 {
        lemma_gen_args_err(args, i, n - 1, m);
    }
}

/// The pop sequence for `k` arguments, entry by entry: position `t` pops
/// into the register of argument `k - 1 - t`.
proof fn lemma_pop_args_code(k: int)
    requires
        k >= 0,
    ensures
        pop_args_code(k).len() == k,
        forall|t: int|
            0 <= t < k ==> pop_args_code(k)[t] == InstrV::Pop(
                Operand::Register(arg_register(k - 1 - t)),
            ),
    decreases k,
{
    if k > 0 {
        lemma_pop_args_code(k - 1);
    }
}

/// The integer-argument register for call position `i`.
fn argument_register(i: usize) -> (r: Register)
    requires
        i < 6,
    ensures
        r == arg_register(i as int),
{
    if i == 0 {
        Register::RDI
    } else if i == 1 {
        Register::RSI
    } else if i == 2 {
        Register::RDX
    } else if i == 3 {
        Register::RCX
    } else if i == 4 {
        Register::R8
    } else {
        Register::R9
    }
}

/// The address-of code for a known slot.
fn lval_instructions(id: u32) -> (r: Assembly)
    requires
        id < MAX_FRAME_VARS,
    ensures
        asm_view(r@) == lval_code(id),
{
    let offset: i32 = (id + 1) as i32 * 8;
    let r = vec![mov(rax(), rbp()), crate::assembly::sub(rax(), immediate(offset)), push(rax())];
    proof {
        assert(asm_view(r@) =~= lval_code(id));
    }
    r
}

/// Emits the address of the variable named by an assignment's left side.
fn get_assembly_lval(lval: &String, meta_info: &mut MetaInfo) -> (r: Result<
    Assembly,
    CompilerError,
>)
    requires
        meta_wf(old(meta_info)@),
    ensures
        *final(meta_info) == *old(meta_info),
        gen_res_view(r) == spec_gen_lval(lval@, old(meta_info)@),
{
    proof {
        lemma_frame_index_of_range(old(meta_info)@.scopes.last(), lval@);
    }
    let id = match meta_info.get_variable(lval) {
        Some(var_info) => var_info.id,
        None => {
            return Err(CompilerError::UndefinedVariable(lval.clone()));
        },
    };
    Ok(lval_instructions(id))
}

/// Emits the code for an atom; on success exactly one value is pushed.
#[verifier::rlimit(100)]
fn get_assembly_atom(atom: &Atom, meta_info: &mut MetaInfo) -> (r: Result<Assembly, CompilerError>)
    requires
        meta_wf(old(meta_info)@),
    ensures
        *final(meta_info) == *old(meta_info),
        gen_res_view(r) == spec_gen_atom(*atom, old(meta_info)@),
    decreases atom_size(*atom),
{
    reveal_with_fuel(spec_gen_expr, 1);
    reveal_with_fuel(spec_gen_arith_expr, 1);
    reveal_with_fuel(spec_gen_factor, 1);
    reveal_with_fuel(spec_gen_unary, 1);
    reveal_with_fuel(spec_gen_atom, 1);
    reveal_with_fuel(spec_gen_args, 1);
    match atom {
        Atom::Number(n) => {
            let r = vec![push(immediate(*n))];
            proof {
                assert(asm_view(r@) =~= seq![InstrV::Push(o_imm(*n))]);
            }
            Ok(r)
        },
        Atom::Expr(expr) => get_assembly_expr(expr, meta_info),
        Atom::Variable(lval) => {
            proof {
                lemma_frame_index_of_range(old(meta_info)@.scopes.last(), lval@);
            }
            let id = match meta_info.get_variable(lval) {
                Some(var_info) => var_info.id,
                None => {
                    return Err(CompilerError::UndefinedVariable(lval.clone()));
                },
            };
            let offset: i32 = (id + 1) as i32 * 8;
            let r = vec![mov(rax(), rbp()), crate::assembly::sub(rax(), immediate(offset)), push(m_rax())];
            proof {
                assert(asm_view(r@) =~= spec_gen_atom(*atom, old(meta_info)@)->Ok_0);
            }
            Ok(r)
        },
        Atom::FunctionCall(func_name, arguments) => {
            let ghost m = old(meta_info)@;
            let mut assembly: Assembly = Vec::new();
            let ghost args = arguments@;
            proof {
                assert(asm_view(assembly@) =~= Seq::<InstrV>::empty());
            }
            let mut i: usize = 0;
            while i < arguments.len()
                invariant
                    0 <= i <= args.len(),
                    args == arguments@,
                    *atom == Atom::FunctionCall(*func_name, *arguments),
                    meta_wf(m),
                    m == old(meta_info)@,
                    *meta_info == *old(meta_info),
                    exprs_size(args) < atom_size(*atom),
                    spec_gen_args(args, i as int, m) == Ok::<Seq<InstrV>, CompErrV>(
                        asm_view(assembly@),
                    ),
                decreases args.len() - i,
            {
                reveal_with_fuel(spec_gen_atom, 1);
                reveal_with_fuel(spec_gen_args, 1);
                let ghost prev = asm_view(assembly@);
                proof {
                    lemma_exprs_size_element(args, i as int);
                }
                match get_assembly_expr(&arguments[i], meta_info) {
                    Ok(mut code) => {
                        let ghost code_view = asm_view(code@);
                        assembly.append(&mut code);
                        proof {
                            lemma_gen_args_step(args, i as int, m, prev, code_view);
                            assert(asm_view(assembly@) =~= prev + code_view);
                        }
                    },
                    Err(e) => {
                        proof {
                            lemma_gen_args_err(args, i as int, args.len() as int, m);
                        }
                        return Err(e);
                    },
                }
                i = i + 1;
            }
            let k: usize = if arguments.len() < 6 {
                arguments.len()
            } else {
                6
            };
            let ghost args_code = asm_view(assembly@);
            let mut t: usize = 0;
            proof {
                lemma_pop_args_code(k as int);
                assert(pop_args_code(k as int).take(0) =~= Seq::<InstrV>::empty());
                assert(asm_view(assembly@) =~= args_code + pop_args_code(k as int).take(0));
            }
            while t < k
                invariant
                    0 <= t <= k,
                    k <= 6,
                    *atom == Atom::FunctionCall(*func_name, *arguments),
                    args == arguments@,
                    k == if args.len() < 6 { args.len() as int } else { 6int },
                    spec_gen_args(args, args.len() as int, old(meta_info)@) == Ok::<
                        Seq<InstrV>,
                        CompErrV,
                    >(args_code),
                    pop_args_code(k as int).len() == k,
                    forall|u: int|
                        0 <= u < k ==> pop_args_code(k as int)[u] == InstrV::Pop(
                            Operand::Register(arg_register(k - 1 - u)),
                        ),
                    *meta_info == *old(meta_info),
                    asm_view(assembly@) == args_code + pop_args_code(k as int).take(t as int),
                decreases k - t,
            {
                let ghost before = asm_view(assembly@);
                let reg = argument_register(k - 1 - t);
                assembly.push(pop(Operand::Register(reg)));
                proof {
                    let pk = pop_args_code(k as int);
                    assert(asm_view(assembly@) =~= before.push(
                        InstrV::Pop(Operand::Register(reg)),
                    ));
                    assert(pk[t as int] == InstrV::Pop(
                        Operand::Register(arg_register(k as int - 1 - t)),
                    ));
                    assert(pk.take(t + 1) =~= pk.take(t as int).push(pk[t as int]));
                    assert(asm_view(assembly@) =~= args_code + pk.take(t + 1));
                }
                t = t + 1;
            }
            assembly.push(call(func_name.clone()));
            assembly.push(push(rax()));
            proof {
                assert(pop_args_code(k as int).take(k as int) =~= pop_args_code(k as int));
                assert(asm_view(assembly@) =~= args_code + pop_args_code(k as int) + seq![
                    InstrV::Call(func_name@),
                    InstrV::Push(o_rax()),
                ]);
            }
            Ok(assembly)
        },
        Atom::AddressOf(lval) => {
            proof {
                lemma_frame_index_of_range(old(meta_info)@.scopes.last(), lval@);
            }
            let id = match meta_info.get_variable(lval) {
                Some(var_info) => var_info.id,
                None => {
                    return Err(CompilerError::UndefinedVariable(lval.clone()));
                },
            };
            let mut assembly: Assembly = vec![comment("address of")];
            let mut addr = lval_instructions(id);
            let ghost addr_view = asm_view(addr@);
            assembly.append(&mut addr);
            assembly.push(comment("address of end"));
            proof {
                assert(asm_view(assembly@) =~= seq![InstrV::Comment("address of"@)] + lval_code(
                    id,
                ) + seq![InstrV::Comment("address of end"@)]);
            }
            Ok(assembly)
        },
    }
}

/// Emits the code for a unary operation.
#[verifier::rlimit(50)]
fn get_assembly_unary(unary: &Unary, meta_info: &mut MetaInfo) -> (r: Result<
    Assembly,
    CompilerError,
>)
    requires
        meta_wf(old(meta_info)@),
    ensures
        *final(meta_info) == *old(meta_info),
        gen_res_view(r) == spec_gen_unary(*unary, old(meta_info)@),
    decreases unary_size(*unary),
{
    reveal_with_fuel(spec_gen_expr, 1);
    reveal_with_fuel(spec_gen_arith_expr, 1);
    reveal_with_fuel(spec_gen_factor, 1);
    reveal_with_fuel(spec_gen_unary, 1);
    reveal_with_fuel(spec_gen_atom, 1);
    reveal_with_fuel(spec_gen_args, 1);
    match unary {
        Unary::Atom(atom) => get_assembly_atom(atom, meta_info),
        Unary::Neg(atom) => {
            let mut assembly = match get_assembly_atom(atom, meta_info) {
                Ok(code) => code,
                Err(e) => {
                    return Err(e);
                },
            };
            let ghost base = asm_view(assembly@);
            assembly.push(pop(rax()));
            assembly.push(neg(rax()));
            assembly.push(push(rax()));
            proof {
                assert(asm_view(assembly@) =~= base + seq![
                    InstrV::Pop(o_rax()),
                    InstrV::Neg(o_rax()),
                    InstrV::Push(o_rax()),
                ]);
            }
            Ok(assembly)
        },
        Unary::PointerDeref(atom) => {
            let mut assembly = match get_assembly_atom(atom, meta_info) {
                Ok(code) => code,
                Err(e) => {
                    return Err(e);
                },
            };
            let ghost base = asm_view(assembly@);
            assembly.push(pop(rax()));
            assembly.push(mov(rax(), m_rax()));
            assembly.push(push(rax()));
            proof {
                assert(asm_view(assembly@) =~= base + seq![
                    InstrV::Pop(o_rax()),
                    InstrV::Mov(o_rax(), o_m_rax()),
                    InstrV::Push(o_rax()),
                ]);
            }
            Ok(assembly)
        },
    }
}

/// Emits the code for a multiplicative expression.
fn get_assembly_factor(factor: &Factor, meta_info: &mut MetaInfo) -> (r: Result<
    Assembly,
    CompilerError,
>)
    requires
        meta_wf(old(meta_info)@),
    ensures
        *final(meta_info) == *old(meta_info),
        gen_res_view(r) == spec_gen_factor(*factor, old(meta_info)@),
    decreases factor_size(*factor),
{
    reveal_with_fuel(spec_gen_expr, 1);
    reveal_with_fuel(spec_gen_arith_expr, 1);
    reveal_with_fuel(spec_gen_factor, 1);
    reveal_with_fuel(spec_gen_unary, 1);
    reveal_with_fuel(spec_gen_atom, 1);
    reveal_with_fuel(spec_gen_args, 1);
    match factor {
        Factor::Unary(unary) => get_assembly_unary(unary, meta_info),
        Factor::Mul(left, right) => {
            let mut assembly = match get_assembly_factor(left, meta_info) {
                Ok(code) => code,
                Err(e) => {
                    return Err(e);
                },
            };
            let mut right_code = match get_assembly_unary(right, meta_info) {
                Ok(code) => code,
                Err(e) => {
                    return Err(e);
                },
            };
            let ghost lv = asm_view(assembly@);
            let ghost rv = asm_view(right_code@);
            assembly.append(&mut right_code);
            assembly.push(pop(rdi()));
            assembly.push(pop(rax()));
            assembly.push(crate::assembly::mul(rdi()));
            assembly.push(push(rax()));
            proof {
                assert(asm_view(assembly@) =~= lv + rv + seq![
                    InstrV::Pop(o_rdi()),
                    InstrV::Pop(o_rax()),
                    InstrV::Mul(o_rdi()),
                    InstrV::Push(o_rax()),
                ]);
            }
            Ok(assembly)
        },
        Factor::Div(left, right) => {
            let mut assembly = match get_assembly_factor(left, meta_info) {
                Ok(code) => code,
                Err(e) => {
                    return Err(e);
                },
            };
            let mut right_code = match get_assembly_unary(right, meta_info) {
                Ok(code) => code,
                Err(e) => {
                    return Err(e);
                },
            };
            let ghost lv = asm_view(assembly@);
            let ghost rv = asm_view(right_code@);
            assembly.append(&mut right_code);
            assembly.push(pop(rdi()));
            assembly.push(pop(rax()));
            assembly.push(cqo());
            assembly.push(idiv(rdi()));
            assembly.push(push(rax()));
            proof {
                assert(asm_view(assembly@) =~= lv + rv + seq![
                    InstrV::Pop(o_rdi()),
                    InstrV::Pop(o_rax()),
                    InstrV::Cqo,
                    InstrV::Idiv(o_rdi()),
                    InstrV::Push(o_rax()),
                ]);
            }
            Ok(assembly)
        },
    }
}

/// Emits the code for an additive expression; at `+` the inferred type of
/// the left side selects integer or pointer addition.
fn get_assembly_arith_expr(expr: &ArithExpr, meta_info: &mut MetaInfo) -> (r: Result<
    Assembly,
    CompilerError,
>)
    requires
        meta_wf(old(meta_info)@),
    ensures
        *final(meta_info) == *old(meta_info),
        gen_res_view(r) == spec_gen_arith_expr(*expr, old(meta_info)@),
    decreases arith_size(*expr),
{
    reveal_with_fuel(spec_gen_expr, 1);
    reveal_with_fuel(spec_gen_arith_expr, 1);
    reveal_with_fuel(spec_gen_factor, 1);
    reveal_with_fuel(spec_gen_unary, 1);
    reveal_with_fuel(spec_gen_atom, 1);
    reveal_with_fuel(spec_gen_args, 1);
    match expr {
        ArithExpr::Factor(factor) => get_assembly_factor(factor, meta_info),
        ArithExpr::Add(left, right) => {
            let mut assembly = match get_assembly_arith_expr(left, meta_info) {
                Ok(code) => code,
                Err(e) => {
                    return Err(e);
                },
            };
            let mut right_code = match get_assembly_factor(right, meta_info) {
                Ok(code) => code,
                Err(e) => {
                    return Err(e);
                },
            };
            let ghost lv = asm_view(assembly@);
            let ghost rv = asm_view(right_code@);
            assembly.append(&mut right_code);
            assembly.push(pop(rdi()));
            assembly.push(pop(rax()));
            proof {
                assert(asm_view(assembly@) =~= lv + rv + seq![
                    InstrV::Pop(o_rdi()),
                    InstrV::Pop(o_rax()),
                ]);
            }
            let left_type = match infer_type_arith_expr(left, meta_info) {
                Ok(data_type) => data_type,
                Err(e) => {
                    return Err(CompilerError::TypeMismatch(e));
                },
            };
            let ghost head = asm_view(assembly@);
            match left_type {
                DataType::Primitive(PrimitiveType::Int) => {
                    assembly.push(crate::assembly::add(rax(), rdi()));
                    assembly.push(push(rax()));
                    proof {
                        assert(asm_view(assembly@) =~= head + seq![
                            InstrV::Add(o_rax(), o_rdi()),
                            InstrV::Push(o_rax()),
                        ]);
                    }
                    Ok(assembly)
                },
                DataType::Pointer(_, base_type) => {
                    let size: i32 = match *base_type {
                        DataType::Primitive(PrimitiveType::Int) => 8,
                        _ => 8,
                    };
                    assembly.push(imul(rdi(), immediate(size)));
                    assembly.push(crate::assembly::add(rax(), rdi()));
                    assembly.push(push(rax()));
                    proof {
                        assert(asm_view(assembly@) =~= head + seq![
                            InstrV::IMul(o_rdi(), o_imm(8)),
                            InstrV::Add(o_rax(), o_rdi()),
                            InstrV::Push(o_rax()),
                        ]);
                    }
                    Ok(assembly)
                },
                _ => Err(
                    CompilerError::TypeMismatch(
                        String::from_str("left side of + is not int or pointer"),
                    ),
                ),
            }
        },
        ArithExpr::Sub(left, right) => {
            let mut assembly = match get_assembly_arith_expr(left, meta_info) {
                Ok(code) => code,
                Err(e) => {
                    return Err(e);
                },
            };
            let mut right_code = match get_assembly_factor(right, meta_info) {
                Ok(code) => code,
                Err(e) => {
                    return Err(e);
                },
            };
            let ghost lv = asm_view(assembly@);
            let ghost rv = asm_view(right_code@);
            assembly.append(&mut right_code);
            assembly.push(pop(rdi()));
            assembly.push(pop(rax()));
            assembly.push(crate::assembly::sub(rax(), rdi()));
            assembly.push(push(rax()));
            proof {
                assert(asm_view(assembly@) =~= lv + rv + seq![
                    InstrV::Pop(o_rdi()),
                    InstrV::Pop(o_rax()),
                    InstrV::Sub(o_rax(), o_rdi()),
                    InstrV::Push(o_rax()),
                ]);
            }
            Ok(assembly)
        },
    }
}

/// Emits the code for a comparison, materialising the flag with the given
/// `set` instruction.
pub fn get_compare_instruction(
    set_instruction: Instruction,
    left: &ArithExpr,
    right: &ArithExpr,
    meta_info: &mut MetaInfo,
) -> (r: Result<Assembly, CompilerError>)
    requires
        meta_wf(old(meta_info)@),
    ensures
        *final(meta_info) == *old(meta_info),
        gen_res_view(r) == spec_gen_cmp(set_instruction@, *left, *right, old(meta_info)@),
    decreases arith_size(*left) + arith_size(*right),
{
    let mut assembly = match get_assembly_arith_expr(left, meta_info) {
        Ok(code) => code,
        Err(e) => {
            return Err(e);
        },
    };
    let mut right_code = match get_assembly_arith_expr(right, meta_info) {
        Ok(code) => code,
        Err(e) => {
            return Err(e);
        },
    };
    let ghost lv = asm_view(assembly@);
    let ghost rv = asm_view(right_code@);
    let ghost sv = set_instruction@;
    assembly.append(&mut right_code);
    assembly.push(pop(rdi()));
    assembly.push(pop(rax()));
    assembly.push(cmp(rax(), rdi()));
    assembly.push(set_instruction);
    assembly.push(movzb(rax(), al()));
    assembly.push(push(rax()));
    proof {
        assert(asm_view(assembly@) =~= lv + rv + cmp_tail(sv));
    }
    Ok(assembly)
}

/// Emits the code for an expression; on success exactly one value is pushed.
fn get_assembly_expr(expr: &Expr, meta_info: &mut MetaInfo) -> (r: Result<Assembly, CompilerError>)
    requires
        meta_wf(old(meta_info)@),
    ensures
        *final(meta_info) == *old(meta_info),
        gen_res_view(r) == spec_gen_expr(*expr, old(meta_info)@),
    decreases expr_size(*expr),
{
    reveal_with_fuel(spec_gen_expr, 1);
    reveal_with_fuel(spec_gen_arith_expr, 1);
    reveal_with_fuel(spec_gen_factor, 1);
    reveal_with_fuel(spec_gen_unary, 1);
    reveal_with_fuel(spec_gen_atom, 1);
    reveal_with_fuel(spec_gen_args, 1);
    match expr {
        Expr::ArithExpr(arith_expr) => get_assembly_arith_expr(arith_expr, meta_info),
        Expr::Equal(left, right) => get_compare_instruction(sete(al()), left, right, meta_info),
        Expr::NotEqual(left, right) => get_compare_instruction(
            setne(al()),
            left,
            right,
            meta_info,
        ),
        Expr::Less(left, right) => get_compare_instruction(setl(al()), left, right, meta_info),
        Expr::LessOrEqual(left, right) => get_compare_instruction(
            setle(al()),
            left,
            right,
            meta_info,
        ),
    }
}

/// Registration changes a frame's size by at most one and keeps it
/// well-formed while the frame is below its size limit.
pub proof fn lemma_frame_register_bounds(f: FrameV, name: Seq<char>, dt: DataType)
    ensures
        f.len() <= frame_register(f, name, dt).len() <= f.len() + 1,
        frame_wf(f) && f.len() < MAX_FRAME_VARS ==> frame_wf(frame_register(f, name, dt)),
{
    lemma_frame_index_of_range(f, name);
}

/// The labels drawn for a statement list, split at any point.
pub proof fn lemma_labels_of_seq_split(ss: Seq<Statement>, n: int)
    requires
        0 <= n <= ss.len(),
    ensures
        labels_of_seq(ss) == labels_of_seq(ss.take(n)) + labels_of_seq(ss.skip(n)),
    decreases n,
{
    if n == 0 {
        assert(ss.take(0) =~= Seq::<Statement>::empty());
        assert(ss.skip(0) =~= ss);
    } else {
        lemma_labels_of_seq_split(ss, n - 1);
        lemma_labels_of_seq_push(ss.take(n - 1), ss[n - 1]);
        assert(ss.take(n) =~= ss.take(n - 1).push(ss[n - 1]));
        assert(ss.skip(n - 1).drop_first() =~= ss.skip(n));
        assert(ss.skip(n - 1)[0] == ss[n - 1]);
    }
}

proof fn lemma_labels_of_seq_push(q: Seq<Statement>, x: Statement)
    ensures
        labels_of_seq(q.push(x)) == labels_of_seq(q) + labels_of_stmt(x),
    decreases q.len(),
{
    assert(q.push(x).len() == q.len() + 1);
    if q.len() == 0 {
        assert(q.push(x)[0] == x);
        assert(q.push(x).drop_first() =~= Seq::<Statement>::empty());
        assert(labels_of_seq(Seq::<Statement>::empty()) == 0);
        assert(labels_of_seq(q) == 0);
    } else {
        assert(q.push(x).drop_first() =~= q.drop_first().push(x));
        assert(q.push(x)[0] == q[0]);
        lemma_labels_of_seq_push(q.drop_first(), x);
    }
}

/// The variables registered by a statement list, split at any point.
pub proof fn lemma_var_defs_of_seq_split(ss: Seq<Statement>, n: int)
    requires
        0 <= n <= ss.len(),
    ensures
        var_defs_of_seq(ss) == var_defs_of_seq(ss.take(n)) + var_defs_of_seq(ss.skip(n)),
    decreases n,
{
    if n == 0 {
        assert(ss.take(0) =~= Seq::<Statement>::empty());
        assert(ss.skip(0) =~= ss);
    } else {
        lemma_var_defs_of_seq_split(ss, n - 1);
        lemma_var_defs_of_seq_push(ss.take(n - 1), ss[n - 1]);
        assert(ss.take(n) =~= ss.take(n - 1).push(ss[n - 1]));
        assert(ss.skip(n - 1).drop_first() =~= ss.skip(n));
        assert(ss.skip(n - 1)[0] == ss[n - 1]);
    }
}

proof fn lemma_var_defs_of_seq_push(q: Seq<Statement>, x: Statement)
    ensures
        var_defs_of_seq(q.push(x)) == var_defs_of_seq(q) + var_defs_of_stmt(x),
    decreases q.len(),
{
    assert(q.push(x).len() == q.len() + 1);
    if q.len() == 0 {
        assert(q.push(x)[0] == x);
        assert(q.push(x).drop_first() =~= Seq::<Statement>::empty());
        assert(var_defs_of_seq(Seq::<Statement>::empty()) == 0);
        assert(var_defs_of_seq(q) == 0);
    } else {
        assert(q.push(x).drop_first() =~= q.drop_first().push(x));
        assert(q.push(x)[0] == q[0]);
        lemma_var_defs_of_seq_push(q.drop_first(), x);
    }
}

/// How generating one statement changes the environment: the scope stack
/// keeps its depth and every outer frame, the break stack is restored, the
/// label counter advances by at most the statement's label count, and the
/// innermost frame grows by at most the statement's variable definitions.
/// The shape of `lemma_gen_stmt_meta`'s conclusion.
pub open spec fn meta_evolution(s: Statement, m: MetaInfoV, m2: MetaInfoV) -> bool {
    &&& m2.scopes.len() == m.scopes.len()
    &&& m2.breaks == m.breaks
    &&& m.label_count <= m2.label_count <= m.label_count + labels_of_stmt(s)
    &&& m2.scopes.last().len() <= m.scopes.last().len() + var_defs_of_stmt(s)
    &&& forall|k: int| 0 <= k < m.scopes.len() - 1 ==> #[trigger] m2.scopes[k] == m.scopes[k]
    &&& (meta_wf(m) && m.scopes.last().len() + var_defs_of_stmt(s) <= MAX_FRAME_VARS
        ==> meta_wf(m2))
}

/// How generating one statement changes the environment: the scope stack
/// keeps its depth and every outer frame, the break stack is restored, the
/// label counter advances by at most the statement's label count, and the
/// innermost frame grows by at most the statement's variable definitions.
#[verifier::spinoff_prover]
pub proof fn lemma_gen_stmt_meta(s: Statement, m: MetaInfoV)
    requires
        m.scopes.len() > 0,
        m.label_count + labels_of_stmt(s) <= u64::MAX,
        spec_gen_stmt(s, m) is Ok,
    ensures
        meta_evolution(s, m, spec_gen_stmt(s, m)->Ok_0.1),
    decreases s, 1int,
{
    reveal_with_fuel(spec_gen_stmt, 1);
    reveal_with_fuel(spec_gen_block, 1);
    match s {
        Statement::Expr(_) => {},
        Statement::Assign(_, _) => {},
        Statement::AssignPointer(_, _, _) => {},
        Statement::Return(_) => {},
        Statement::Break => {},
        Statement::VarDef(data_type, var_name) => {
            let m2 = spec_gen_stmt(s, m)->Ok_0.1;
            lemma_frame_register_bounds(m.scopes.last(), var_name@, data_type);
            assert(m2.scopes.last() == frame_register(m.scopes.last(), var_name@, data_type));
        },
        Statement::Block(statements) => {
            assert(statements@.take(statements@.len() as int) =~= statements@);
            lemma_gen_block_meta(statements@, statements@.len() as int, m);
        },
        Statement::If(_, _, _) => {
            lemma_gen_stmt_meta_if(s, m);
        },
        Statement::While(_, _) => {
            lemma_gen_stmt_meta_while(s, m);
        },
        Statement::For(_, _, _, _) => {
            lemma_gen_stmt_meta_for(s, m);
        },
    }
}

#[verifier::spinoff_prover]
proof fn lemma_gen_stmt_meta_if(s: Statement, m: MetaInfoV)
    requires
        m.scopes.len() > 0,
        m.label_count + labels_of_stmt(s) <= u64::MAX,
        s matches Statement::If(_, _, _),
        spec_gen_stmt(s, m) is Ok,
    ensures
        meta_evolution(s, m, spec_gen_stmt(s, m)->Ok_0.1),
    decreases s, 0int,
{
    reveal_with_fuel(spec_gen_stmt, 1);
    reveal_with_fuel(spec_gen_block, 1);
    match s {
        Statement::If(_, then_branch, else_branch) => {
            match *else_branch {
                Some(else_stmt) => {
                    let m2 = meta_next_label(meta_next_label(m));
                    lemma_gen_stmt_meta(*then_branch, m2);
                    let m3 = spec_gen_stmt(*then_branch, m2)->Ok_0.1;
                    lemma_gen_stmt_meta(else_stmt, m3);
                },
                None => {
                    let m2 = meta_next_label(m);
                    lemma_gen_stmt_meta(*then_branch, m2);
                },
            }
        },
        _ => {},
    }
}

#[verifier::spinoff_prover]
proof fn lemma_gen_stmt_meta_while(s: Statement, m: MetaInfoV)
    requires
        m.scopes.len() > 0,
        m.label_count + labels_of_stmt(s) <= u64::MAX,
        s matches Statement::While(_, _),
        spec_gen_stmt(s, m) is Ok,
    ensures
        meta_evolution(s, m, spec_gen_stmt(s, m)->Ok_0.1),
    decreases s, 0int,
{
    reveal_with_fuel(spec_gen_stmt, 1);
    reveal_with_fuel(spec_gen_block, 1);
    match s {
        Statement::While(_, body) => {
            let end_label = label_name((m.label_count + 2) as nat);
            let m2 = MetaInfoV {
                breaks: m.breaks.push(end_label),
                ..meta_next_label(meta_next_label(m))
            };
            lemma_gen_stmt_meta(*body, m2);
            let m3 = spec_gen_stmt(*body, m2)->Ok_0.1;
            assert(m3.breaks.drop_last() =~= m.breaks);
        },
        _ => {},
    }
}

#[verifier::rlimit(100)]
#[verifier::spinoff_prover]
proof fn lemma_gen_stmt_meta_for(s: Statement, m: MetaInfoV)
    requires
        m.scopes.len() > 0,
        m.label_count + labels_of_stmt(s) <= u64::MAX,
        s matches Statement::For(_, _, _, _),
        spec_gen_stmt(s, m) is Ok,
    ensures
        meta_evolution(s, m, spec_gen_stmt(s, m)->Ok_0.1),
    decreases s, 0int,
{
    reveal_with_fuel(spec_gen_stmt, 1);
    reveal_with_fuel(spec_gen_block, 1);
    match s {
        Statement::For(init, _, update, body) => {
            let m1 = match *init {
                Some(init_stmt) => {
                    lemma_gen_stmt_meta(init_stmt, m);
                    spec_gen_stmt(init_stmt, m)->Ok_0.1
                },
                None => m,
            };
            let end_label = label_name((m1.label_count + 2) as nat);
            let m2 = MetaInfoV {
                breaks: m1.breaks.push(end_label),
                ..meta_next_label(meta_next_label(m1))
            };
            if spec_gen_stmt(*body, m2) is Ok {
                lemma_gen_stmt_meta(*body, m2);
                let m3 = spec_gen_stmt(*body, m2)->Ok_0.1;
                match *update {
                    Some(update_stmt) => {
                        if spec_gen_stmt(update_stmt, m3) is Ok {
                            lemma_gen_stmt_meta(update_stmt, m3);
                            let m4 = spec_gen_stmt(update_stmt, m3)->Ok_0.1;
                            assert(m4.breaks.drop_last() =~= m1.breaks);
                        }
                    },
                    None => {
                        assert(m3.breaks.drop_last() =~= m1.breaks);
                    },
                }
            }
        },
        _ => {},
    }
}

/// The block form of `lemma_gen_stmt_meta`, over the first `n` statements.
#[verifier::spinoff_prover]
pub proof fn lemma_gen_block_meta(ss: Seq<Statement>, n: int, m: MetaInfoV)
    requires
        m.scopes.len() > 0,
        m.label_count + labels_of_seq(ss.take(n)) <= u64::MAX,
        0 <= n <= ss.len(),
        spec_gen_block(ss, n, m) is Ok,
    ensures
        ({
            let m2 = spec_gen_block(ss, n, m)->Ok_0.1;
            &&& m2.scopes.len() == m.scopes.len()
            &&& m2.breaks == m.breaks
            &&& m.label_count <= m2.label_count <= m.label_count + labels_of_seq(ss.take(n))
            &&& m2.scopes.last().len() <= m.scopes.last().len() + var_defs_of_seq(ss.take(n))
            &&& forall|k: int|
                0 <= k < m.scopes.len() - 1 ==> #[trigger] m2.scopes[k] == m.scopes[k]
            &&& (meta_wf(m) && m.scopes.last().len() + var_defs_of_seq(ss.take(n))
                <= MAX_FRAME_VARS ==> meta_wf(m2))
        }),
    decreases ss, n,
{
    reveal_with_fuel(spec_gen_stmt, 1);
    reveal_with_fuel(spec_gen_block, 1);
    if n <= 0 {
        assert(ss.take(n) =~= Seq::<Statement>::empty());
    } else {
        lemma_labels_of_seq_push(ss.take(n - 1), ss[n - 1]);
        lemma_var_defs_of_seq_push(ss.take(n - 1), ss[n - 1]);
        assert(ss.take(n) =~= ss.take(n - 1).push(ss[n - 1]));
        lemma_gen_block_meta(ss, n - 1, m);
        let m1 = spec_gen_block(ss, n - 1, m)->Ok_0.1;
        lemma_gen_stmt_meta(ss[n - 1], m1);
    }
}

/// One step of walking a statement list from position `i`.
proof fn lemma_stmt_seq_skip_step(ss: Seq<Statement>, i: int, d: int)
    requires
        0 <= i < ss.len(),
    ensures
        breaks_ok_seq(ss.skip(i), d) == (breaks_ok(ss[i], d) && breaks_ok_seq(ss.skip(i + 1), d)),
        labels_of_seq(ss.skip(i)) == labels_of_stmt(ss[i]) + labels_of_seq(ss.skip(i + 1)),
        var_defs_of_seq(ss.skip(i)) == var_defs_of_stmt(ss[i]) + var_defs_of_seq(ss.skip(i + 1)),
{
    assert(ss.skip(i)[0] == ss[i]);
    assert(ss.skip(i).drop_first() =~= ss.skip(i + 1));
}

/// A statement that fails to compile fails the whole block.
proof fn lemma_gen_block_err(ss: Seq<Statement>, i: int, n: int, m: MetaInfoV, e: CompErrV)
    requires
        0 <= i < n <= ss.len(),
        spec_gen_block(ss, i, m) is Ok,
        spec_gen_stmt(ss[i], spec_gen_block(ss, i, m)->Ok_0.1) == Err::<
            (Seq<InstrV>, MetaInfoV),
            CompErrV,
        >(e),
    ensures
        spec_gen_block(ss, n, m) == Err::<(Seq<InstrV>, MetaInfoV), CompErrV>(e),
    decreases n,
{
    reveal_with_fuel(spec_gen_stmt, 1);
    reveal_with_fuel(spec_gen_block, 1);
    if n > i + 1 {
        lemma_gen_block_err(ss, i, n - 1, m, e);
    }
}

/// One more successfully compiled statement extends a block's code.
proof fn lemma_gen_block_step(
    ss: Seq<Statement>,
    i: int,
    m: MetaInfoV,
    acc: Seq<InstrV>,
    m1: MetaInfoV,
    code: Seq<InstrV>,
    m2: MetaInfoV,
)
    requires
        0 <= i < ss.len(),
        spec_gen_block(ss, i, m) == Ok::<(Seq<InstrV>, MetaInfoV), CompErrV>((acc, m1)),
        spec_gen_stmt(ss[i], m1) == Ok::<(Seq<InstrV>, MetaInfoV), CompErrV>((code, m2)),
    ensures
        spec_gen_block(ss, i + 1, m) == Ok::<(Seq<InstrV>, MetaInfoV), CompErrV>(
            (
                acc + if i != ss.len() - 1 {
                    code + seq![InstrV::Pop(o_rax())]
                } else {
                    code
                },
                m2,
            ),
        ),
{
    reveal_with_fuel(spec_gen_stmt, 1);
    reveal_with_fuel(spec_gen_block, 1);
}

/// Emits the code for one statement. On success the environment advances
/// exactly as `spec_gen_stmt` describes. The preconditions exclude the
/// inputs on which generation cannot proceed: a `break` outside every loop
/// aborts, and a label counter or frame past its machine limit overflows.
pub fn get_assembly_statement(statement: &Statement, meta_info: &mut MetaInfo) -> (r: Result<
    Assembly,
    CompilerError,
>)
    requires
        meta_wf(old(meta_info)@),
        breaks_ok(*statement, old(meta_info)@.breaks.len() as int),
        old(meta_info)@.label_count + labels_of_stmt(*statement) <= u64::MAX,
        old(meta_info)@.scopes.last().len() + var_defs_of_stmt(*statement) <= MAX_FRAME_VARS,
    ensures
        match r {
            Ok(code) => spec_gen_stmt(*statement, old(meta_info)@) == Ok::<
                (Seq<InstrV>, MetaInfoV),
                CompErrV,
            >((asm_view(code@), final(meta_info)@)),
            Err(e) => spec_gen_stmt(*statement, old(meta_info)@) == Err::<
                (Seq<InstrV>, MetaInfoV),
                CompErrV,
            >(e@),
        },
    decreases stmt_size(*statement), 1int,
{
    reveal_with_fuel(spec_gen_stmt, 1);
    reveal_with_fuel(spec_gen_block, 1);
    match statement {
        Statement::Expr(expr) => {
            match get_assembly_expr(expr, meta_info) {
                Ok(code) => Ok(code),
                Err(e) => Err(e),
            }
        },
        Statement::Assign(left, expr) => {
            let mut assembly: Assembly = vec![comment("assign")];
            let mut lval_part = match get_assembly_lval(left, meta_info) {
                Ok(code) => code,
                Err(e) => {
                    return Err(e);
                },
            };
            let mut value_part = match get_assembly_expr(expr, meta_info) {
                Ok(code) => code,
                Err(e) => {
                    return Err(e);
                },
            };
            let ghost lv = asm_view(lval_part@);
            let ghost vv = asm_view(value_part@);
            assembly.append(&mut lval_part);
            assembly.append(&mut value_part);
            assembly.push(pop(rdi()));
            assembly.push(pop(rax()));
            assembly.push(mov(m_rax(), rdi()));
            assembly.push(push(rdi()));
            assembly.push(comment("assign end"));
            proof {
                assert(asm_view(assembly@) =~= seq![InstrV::Comment("assign"@)] + lv + vv + seq![
                    InstrV::Pop(o_rdi()),
                    InstrV::Pop(o_rax()),
                    InstrV::Mov(o_m_rax(), o_rdi()),
                    InstrV::Push(o_rdi()),
                    InstrV::Comment("assign end"@),
                ]);
            }
            Ok(assembly)
        },
        Statement::AssignPointer(depth, left, expr) => {
            let mut assembly: Assembly = vec![comment("assign pointer")];
            let mut lval_part = match get_assembly_lval(left, meta_info) {
                Ok(code) => code,
                Err(e) => {
                    return Err(e);
                },
            };
            let mut value_part = match get_assembly_expr(expr, meta_info) {
                Ok(code) => code,
                Err(e) => {
                    return Err(e);
                },
            };
            let ghost lv = asm_view(lval_part@);
            let ghost vv = asm_view(value_part@);
            assembly.append(&mut lval_part);
            assembly.append(&mut value_part);
            assembly.push(pop(rdi()));
            assembly.push(pop(rax()));
            let ghost head = seq![InstrV::Comment("assign pointer"@)] + lv + vv + seq![
                InstrV::Pop(o_rdi()),
                InstrV::Pop(o_rax()),
            ];
            proof {
                assert(asm_view(assembly@) =~= head + deref_chain(0));
            }
            let mut d: u32 = 0;
            while d < *depth
                invariant
                    0 <= d <= *depth,
                    asm_view(assembly@) == head + deref_chain(d as int),
                    *meta_info == *old(meta_info),
                decreases *depth - d,
            {
                let ghost before = asm_view(assembly@);
                assembly.push(mov(rax(), m_rax()));
                proof {
                    assert(asm_view(assembly@) =~= before.push(
                        InstrV::Mov(o_rax(), o_m_rax()),
                    ));
                    assert(deref_chain(d + 1) == deref_chain(d as int) + seq![
                        InstrV::Mov(o_rax(), o_m_rax()),
                    ]);
                    assert(asm_view(assembly@) =~= head + deref_chain(d + 1));
                }
                d = d + 1;
            }
            assembly.push(mov(m_rax(), rdi()));
            assembly.push(push(rdi()));
            assembly.push(comment("assign pointer end"));
            proof {
                assert(asm_view(assembly@) =~= head + deref_chain(*depth as int) + seq![
                    InstrV::Mov(o_m_rax(), o_rdi()),
                    InstrV::Push(o_rdi()),
                    InstrV::Comment("assign pointer end"@),
                ]);
            }
            Ok(assembly)
        },
        Statement::Return(expr) => {
            let mut assembly = match get_assembly_expr(expr, meta_info) {
                Ok(code) => code,
                Err(e) => {
                    return Err(e);
                },
            };
            let ghost base = asm_view(assembly@);
            assembly.push(pop(rax()));
            assembly.push(mov(rsp(), rbp()));
            assembly.push(pop(rbp()));
            assembly.push(ret());
            proof {
                assert(asm_view(assembly@) =~= base + seq![
                    InstrV::Pop(o_rax()),
                    InstrV::Mov(o_rsp(), o_rbp()),
                    InstrV::Pop(o_rbp()),
                    InstrV::Ret,
                ]);
            }
            Ok(assembly)
        },
        Statement::Block(statements) => get_assembly_block(statements, meta_info),
        Statement::If(_, _, _) => get_assembly_if(statement, meta_info),
        Statement::While(_, _) => get_assembly_while(statement, meta_info),
        Statement::For(_, _, _, _) => get_assembly_for(statement, meta_info),
        Statement::Break => {
            let brk = meta_info.get_label_for_break();
            let r = vec![comment("break"), jmp(brk)];
            proof {
                assert(asm_view(r@) =~= seq![
                    InstrV::Comment("break"@),
                    InstrV::Jmp(old(meta_info)@.breaks.last()),
                ]);
            }
            Ok(r)
        },
        Statement::VarDef(data_type, var_name) => {
            meta_info.register_variable(var_name.as_str(), data_type);
            let r = vec![push(immediate(0))];
            proof {
                assert(asm_view(r@) =~= seq![InstrV::Push(o_imm(0))]);
                assert(meta_info@ =~~= meta_register(old(meta_info)@, var_name@, *data_type));
            }
            Ok(r)
        },
    }
}

/// Emits the code for a block: every statement's value but the last is
/// popped away, so the block's value is its last statement's value.
fn get_assembly_block(statements: &Vec<Statement>, meta_info: &mut MetaInfo) -> (r: Result<
    Assembly,
    CompilerError,
>)
    requires
        meta_wf(old(meta_info)@),
        breaks_ok_seq(statements@, old(meta_info)@.breaks.len() as int),
        old(meta_info)@.label_count + labels_of_seq(statements@) <= u64::MAX,
        old(meta_info)@.scopes.last().len() + var_defs_of_seq(statements@) <= MAX_FRAME_VARS,
    ensures
        match r {
            Ok(code) => spec_gen_block(statements@, statements@.len() as int, old(meta_info)@)
                == Ok::<(Seq<InstrV>, MetaInfoV), CompErrV>((asm_view(code@), final(meta_info)@)),
            Err(e) => spec_gen_block(statements@, statements@.len() as int, old(meta_info)@)
                == Err::<(Seq<InstrV>, MetaInfoV), CompErrV>(e@),
        },
    decreases stmt_size(Statement::Block(*statements)), 0int,
{
    reveal_with_fuel(spec_gen_block, 1);
    let ghost m0 = old(meta_info)@;
    let ghost ss = statements@;
    let mut assembly: Assembly = Vec::new();
    proof {
        assert(asm_view(assembly@) =~= Seq::<InstrV>::empty());
    }
    let n = statements.len();
    proof {
        assert(ss.skip(0) =~= ss);
    }
    let mut i: usize = 0;
    while i < n
        invariant
            0 <= i <= n,
            n == ss.len(),
            ss == statements@,
            m0 == old(meta_info)@,
            m0.scopes.len() > 0,
            meta_wf(meta_info@),
            meta_info@.scopes.len() == m0.scopes.len(),
            meta_info@.breaks == m0.breaks,
            breaks_ok_seq(ss.skip(i as int), m0.breaks.len() as int),
            meta_info@.label_count + labels_of_seq(ss.skip(i as int)) <= u64::MAX,
            meta_info@.scopes.last().len() + var_defs_of_seq(ss.skip(i as int))
                <= MAX_FRAME_VARS,
            spec_gen_block(ss, i as int, m0) == Ok::<(Seq<InstrV>, MetaInfoV), CompErrV>(
                (asm_view(assembly@), meta_info@),
            ),
        decreases n - i,
    {
        proof {
            assert(ss.skip(0) =~= ss);
            lemma_stmt_seq_skip_step(ss, i as int, m0.breaks.len() as int);
            lemma_stmts_size_element(ss, i as int);
        }
        let ghost m1 = meta_info@;
        let ghost acc = asm_view(assembly@);
        match get_assembly_statement(&statements[i], meta_info) {
            Ok(mut code) => {
                let ghost cv = asm_view(code@);
                assembly.append(&mut code);
                if i != n - 1 {
                    assembly.push(pop(rax()));
                    proof {
                        assert(asm_view(assembly@) =~= acc + (cv + seq![InstrV::Pop(o_rax())]));
                    }
                } else {
                    proof {
                        assert(asm_view(assembly@) =~= acc + cv);
                    }
                }
                proof {
                    lemma_gen_block_step(ss, i as int, m0, acc, m1, cv, meta_info@);
                    lemma_gen_stmt_meta(ss[i as int], m1);
                }
            },
            Err(e) => {
                proof {
                    lemma_gen_block_err(ss, i as int, ss.len() as int, m0, e@);
                }
                return Err(e);
            },
        }
        i = i + 1;
    }
    proof {
        assert(ss.skip(0) =~= ss);
    }
    Ok(assembly)
}

/// Emits the code for an `if` statement. Both shapes end by pushing a
/// placeholder `0` as the statement's value.
#[verifier::rlimit(50)]
fn get_assembly_if(statement: &Statement, meta_info: &mut MetaInfo) -> (r: Result<
    Assembly,
    CompilerError,
>)
    requires
        statement matches Statement::If(_, _, _),
        meta_wf(old(meta_info)@),
        breaks_ok(*statement, old(meta_info)@.breaks.len() as int),
        old(meta_info)@.label_count + labels_of_stmt(*statement) <= u64::MAX,
        old(meta_info)@.scopes.last().len() + var_defs_of_stmt(*statement) <= MAX_FRAME_VARS,
    ensures
        match r {
            Ok(code) => spec_gen_stmt(*statement, old(meta_info)@) == Ok::<
                (Seq<InstrV>, MetaInfoV),
                CompErrV,
            >((asm_view(code@), final(meta_info)@)),
            Err(e) => spec_gen_stmt(*statement, old(meta_info)@) == Err::<
                (Seq<InstrV>, MetaInfoV),
                CompErrV,
            >(e@),
        },
    decreases stmt_size(*statement), 0int,
{
    reveal_with_fuel(spec_gen_stmt, 1);
    reveal_with_fuel(spec_gen_block, 1);
    let ghost m = old(meta_info)@;
    match statement {
        Statement::If(cond, then_branch, else_branch) => {
            let mut assembly: Assembly = vec![comment("if")];
            let mut cond_code = match get_assembly_expr(cond, meta_info) {
                Ok(code) => code,
                Err(e) => {
                    return Err(e);
                },
            };
            let ghost cv = asm_view(cond_code@);
            assembly.append(&mut cond_code);
            assembly.push(pop(rax()));
            assembly.push(cmp(rax(), immediate(0)));
            let ghost head = seq![InstrV::Comment("if"@)] + cv + seq![
                InstrV::Pop(o_rax()),
                InstrV::Cmp(o_rax(), o_imm(0)),
            ];
            proof {
                assert(asm_view(assembly@) =~= head);
            }
            match &**else_branch {
                Some(else_stmt) => {
                    let else_label = meta_info.get_new_label();
                    let end_label = meta_info.get_new_label();
                    let ghost m2 = meta_info@;
                    proof {
                        assert(m2 =~~= meta_next_label(meta_next_label(m)));
                    }
                    assembly.push(je(else_label.clone()));
                    let mut then_code = match get_assembly_statement(then_branch, meta_info) {
                        Ok(code) => code,
                        Err(e) => {
                            return Err(e);
                        },
                    };
                    let ghost m3 = meta_info@;
                    proof {
                        lemma_gen_stmt_meta(**then_branch, m2);
                    }
                    let ghost tv = asm_view(then_code@);
                    assembly.append(&mut then_code);
                    assembly.push(jmp(end_label.clone()));
                    assembly.push(comment("else"));
                    assembly.push(label(else_label));
                    let mut else_code = match get_assembly_statement(else_stmt, meta_info) {
                        Ok(code) => code,
                        Err(e) => {
                            return Err(e);
                        },
                    };
                    let ghost ev = asm_view(else_code@);
                    assembly.append(&mut else_code);
                    assembly.push(label(end_label));
                    assembly.push(push(immediate(0)));
                    assembly.push(comment("if end"));
                    proof {
                        let else_l = label_name((m.label_count + 1) as nat);
                        let end_l = label_name((m.label_count + 2) as nat);
                        assert(asm_view(assembly@) =~= head + seq![InstrV::Je(else_l)] + tv
                            + seq![
                            InstrV::Jmp(end_l),
                            InstrV::Comment("else"@),
                            InstrV::Label(else_l),
                        ] + ev + seq![
                            InstrV::Label(end_l),
                            InstrV::Push(o_imm(0)),
                            InstrV::Comment("if end"@),
                        ]);
                    }
                    Ok(assembly)
                },
                None => {
                    let end_label = meta_info.get_new_label();
                    let ghost m2 = meta_info@;
                    proof {
                        assert(m2 =~~= meta_next_label(m));
                    }
                    assembly.push(je(end_label.clone()));
                    let mut then_code = match get_assembly_statement(then_branch, meta_info) {
                        Ok(code) => code,
                        Err(e) => {
                            return Err(e);
                        },
                    };
                    let ghost tv = asm_view(then_code@);
                    assembly.append(&mut then_code);
                    assembly.push(pop(rax()));
                    assembly.push(label(end_label));
                    assembly.push(push(immediate(0)));
                    assembly.push(comment("if end"));
                    proof {
                        let end_l = label_name((m.label_count + 1) as nat);
                        assert(asm_view(assembly@) =~= head + seq![InstrV::Je(end_l)] + tv
                            + seq![
                            InstrV::Pop(o_rax()),
                            InstrV::Label(end_l),
                            InstrV::Push(o_imm(0)),
                            InstrV::Comment("if end"@),
                        ]);
                    }
                    Ok(assembly)
                },
            }
        },
        _ => unreached(),
    }
}

/// Emits the code for a `while` loop; its exit label is the break target
/// for the loop's body.
#[verifier::rlimit(50)]
fn get_assembly_while(statement: &Statement, meta_info: &mut MetaInfo) -> (r: Result<
    Assembly,
    CompilerError,
>)
    requires
        statement matches Statement::While(_, _),
        meta_wf(old(meta_info)@),
        breaks_ok(*statement, old(meta_info)@.breaks.len() as int),
        old(meta_info)@.label_count + labels_of_stmt(*statement) <= u64::MAX,
        old(meta_info)@.scopes.last().len() + var_defs_of_stmt(*statement) <= MAX_FRAME_VARS,
    ensures
        match r {
            Ok(code) => spec_gen_stmt(*statement, old(meta_info)@) == Ok::<
                (Seq<InstrV>, MetaInfoV),
                CompErrV,
            >((asm_view(code@), final(meta_info)@)),
            Err(e) => spec_gen_stmt(*statement, old(meta_info)@) == Err::<
                (Seq<InstrV>, MetaInfoV),
                CompErrV,
            >(e@),
        },
    decreases stmt_size(*statement), 0int,
{
    reveal_with_fuel(spec_gen_stmt, 1);
    reveal_with_fuel(spec_gen_block, 1);
    let ghost m = old(meta_info)@;
    match statement {
        Statement::While(cond, body) => {
            let start_label = meta_info.get_new_label();
            let end_label = meta_info.get_new_label();
            meta_info.push_label_for_break(end_label.clone());
            let ghost m2 = meta_info@;
            let ghost start_l = label_name((m.label_count + 1) as nat);
            let ghost end_l = label_name((m.label_count + 2) as nat);
            proof {
                assert(m2 =~~= (MetaInfoV {
                    breaks: m.breaks.push(end_l),
                    ..meta_next_label(meta_next_label(m))
                }));
            }
            let mut assembly: Assembly = vec![label(start_label.clone()), comment("while")];
            let mut cond_code = match get_assembly_expr(cond, meta_info) {
                Ok(code) => code,
                Err(e) => {
                    return Err(e);
                },
            };
            let ghost cv = asm_view(cond_code@);
            assembly.append(&mut cond_code);
            assembly.push(pop(rax()));
            assembly.push(cmp(rax(), immediate(0)));
            assembly.push(je(end_label.clone()));
            let mut body_code = match get_assembly_statement(body, meta_info) {
                Ok(code) => code,
                Err(e) => {
                    return Err(e);
                },
            };
            proof {
                lemma_gen_stmt_meta(**body, m2);
            }
            let ghost bv = asm_view(body_code@);
            assembly.append(&mut body_code);
            assembly.push(comment("while content pop"));
            assembly.push(pop(rax()));
            assembly.push(jmp(start_label));
            assembly.push(label(end_label));
            assembly.push(push(immediate(0)));
            assembly.push(comment("while end"));
            let ghost m3 = meta_info@;
            meta_info.pop_label_for_break();
            proof {
                assert(meta_info@ =~~= (MetaInfoV { breaks: m3.breaks.drop_last(), ..m3 }));
                assert(asm_view(assembly@) =~= seq![
                    InstrV::Label(start_l),
                    InstrV::Comment("while"@),
                ] + cv + seq![
                    InstrV::Pop(o_rax()),
                    InstrV::Cmp(o_rax(), o_imm(0)),
                    InstrV::Je(end_l),
                ] + bv + seq![
                    InstrV::Comment("while content pop"@),
                    InstrV::Pop(o_rax()),
                    InstrV::Jmp(start_l),
                    InstrV::Label(end_l),
                    InstrV::Push(o_imm(0)),
                    InstrV::Comment("while end"@),
                ]);
            }
            Ok(assembly)
        },
        _ => unreached(),
    }
}

/// Emits the code for a `for` loop. The initialiser runs before the loop's
/// labels are drawn; condition and update belong to the loop body's break
/// scope. No trailing `push 0` is emitted: a `for` statement leaves no value.
#[verifier::rlimit(50)]
fn get_assembly_for(statement: &Statement, meta_info: &mut MetaInfo) -> (r: Result<
    Assembly,
    CompilerError,
>)
    requires
        statement matches Statement::For(_, _, _, _),
        meta_wf(old(meta_info)@),
        breaks_ok(*statement, old(meta_info)@.breaks.len() as int),
        old(meta_info)@.label_count + labels_of_stmt(*statement) <= u64::MAX,
        old(meta_info)@.scopes.last().len() + var_defs_of_stmt(*statement) <= MAX_FRAME_VARS,
    ensures
        match r {
            Ok(code) => spec_gen_stmt(*statement, old(meta_info)@) == Ok::<
                (Seq<InstrV>, MetaInfoV),
                CompErrV,
            >((asm_view(code@), final(meta_info)@)),
            Err(e) => spec_gen_stmt(*statement, old(meta_info)@) == Err::<
                (Seq<InstrV>, MetaInfoV),
                CompErrV,
            >(e@),
        },
    decreases stmt_size(*statement), 0int,
{
    reveal_with_fuel(spec_gen_stmt, 1);
    reveal_with_fuel(spec_gen_block, 1);
    let ghost m = old(meta_info)@;
    match statement {
        Statement::For(init, cond, update, body) => {
            let mut assembly: Assembly = Vec::new();
            proof {
                assert(asm_view(assembly@) =~= Seq::<InstrV>::empty());
            }
            match &**init {
                Some(init_stmt) => {
                    let mut init_code = match get_assembly_statement(init_stmt, meta_info) {
                        Ok(code) => code,
                        Err(e) => {
                            return Err(e);
                        },
                    };
                    proof {
                        lemma_gen_stmt_meta(*init_stmt, m);
                    }
                    let ghost iv = asm_view(init_code@);
                    assembly.append(&mut init_code);
                    assembly.push(pop(rax()));
                    proof {
                        assert(asm_view(assembly@) =~= iv + seq![InstrV::Pop(o_rax())]);
                    }
                },
                None => {},
            }
            let ghost m1 = meta_info@;
            let ghost init_v = asm_view(assembly@);
            let start_label = meta_info.get_new_label();
            let end_label = meta_info.get_new_label();
            meta_info.push_label_for_break(end_label.clone());
            let ghost m2 = meta_info@;
            let ghost start_l = label_name((m1.label_count + 1) as nat);
            let ghost end_l = label_name((m1.label_count + 2) as nat);
            proof {
                assert(m2 =~~= (MetaInfoV {
                    breaks: m1.breaks.push(end_l),
                    ..meta_next_label(meta_next_label(m1))
                }));
            }
            assembly.push(label(start_label.clone()));
            let ghost with_start = init_v + seq![InstrV::Label(start_l)];
            proof {
                assert(asm_view(assembly@) =~= with_start);
            }
            let ghost mut cond_full: Seq<InstrV> = Seq::empty();
            match &**cond {
                Some(cond_expr) => {
                    let mut cond_code = match get_assembly_expr(cond_expr, meta_info) {
                        Ok(code) => code,
                        Err(e) => {
                            return Err(e);
                        },
                    };
                    let ghost cv = asm_view(cond_code@);
                    assembly.append(&mut cond_code);
                    assembly.push(pop(rax()));
                    assembly.push(cmp(rax(), immediate(0)));
                    assembly.push(je(end_label.clone()));
                    proof {
                        cond_full = cv + seq![
                            InstrV::Pop(o_rax()),
                            InstrV::Cmp(o_rax(), o_imm(0)),
                            InstrV::Je(end_l),
                        ];
                        assert(asm_view(assembly@) =~= with_start + cond_full);
                    }
                },
                None => {
                    proof {
                        assert(asm_view(assembly@) =~= with_start + cond_full);
                    }
                },
            }
            let mut body_code = match get_assembly_statement(body, meta_info) {
                Ok(code) => code,
                Err(e) => {
                    return Err(e);
                },
            };
            proof {
                lemma_gen_stmt_meta(**body, m2);
            }
            let ghost bv = asm_view(body_code@);
            assembly.append(&mut body_code);
            assembly.push(pop(rax()));
            let ghost m3 = meta_info@;
            let ghost with_body = with_start + cond_full + bv + seq![InstrV::Pop(o_rax())];
            proof {
                assert(asm_view(assembly@) =~= with_body);
            }
            let ghost mut update_full: Seq<InstrV> = Seq::empty();
            match &**update {
                Some(update_stmt) => {
                    let mut update_code = match get_assembly_statement(update_stmt, meta_info) {
                        Ok(code) => code,
                        Err(e) => {
                            return Err(e);
                        },
                    };
                    proof {
                        lemma_gen_stmt_meta(*update_stmt, m3);
                    }
                    let ghost uv = asm_view(update_code@);
                    assembly.append(&mut update_code);
                    assembly.push(pop(rax()));
                    proof {
                        update_full = uv + seq![InstrV::Pop(o_rax())];
                        assert(asm_view(assembly@) =~= with_body + update_full);
                    }
                },
                None => {
                    proof {
                        assert(asm_view(assembly@) =~= with_body + update_full);
                    }
                },
            }
            assembly.push(jmp(start_label));
            assembly.push(label(end_label));
            let ghost m4 = meta_info@;
            meta_info.pop_label_for_break();
            proof {
                assert(meta_info@ =~~= (MetaInfoV { breaks: m4.breaks.drop_last(), ..m4 }));
                assert(asm_view(assembly@) =~= with_body + update_full + seq![
                    InstrV::Jmp(start_l),
                    InstrV::Label(end_l),
                ]);
            }
            Ok(assembly)
        },
        _ => unreached(),
    }
}

/// The fixed first lines of every emitted file.
pub open spec fn header_text() -> Seq<char> {
    ".intel_syntax noprefix\n"@ + ".global main\n"@ + "\n"@
}

/// The prologue of `main` and of every function: save and set the frame
/// pointer.
pub open spec fn prologue_code() -> Seq<InstrV> {
    seq![InstrV::Push(o_rbp()), InstrV::Mov(o_rbp(), o_rsp())]
}

/// The epilogue of `main` and of every function: restore the stack and
/// frame pointers and return.
pub open spec fn epilogue_code() -> Seq<InstrV> {
    seq![
        InstrV::Mov(o_rsp(), o_rbp()),
        InstrV::Pop(o_rbp()),
        InstrV::Ret,
    ]
}

/// The code that copies the first `k` argument registers into the
/// function's parameter slots.
pub open spec fn copy_args_code(k: int) -> Seq<InstrV>
    decreases k,
{
    if k <= 0 {
        Seq::empty()
    } else {
        copy_args_code(k - 1) + seq![
            InstrV::Comment("copy arguments to local variables"@),
            InstrV::Mov(o_rax(), o_rbp()),
            InstrV::Sub(o_rax(), o_imm((k * 8) as i32)),
            InstrV::Mov(o_m_rax(), Operand::Register(arg_register(k - 1))),
            InstrV::Comment("copy arguments to local variables end"@),
        ]
    }
}

/// Each level of `copy_args_code` adds five instructions.
pub proof fn lemma_copy_args_code_len(k: int)
    requires
        k >= 0,
    ensures
        copy_args_code(k).len() == 5 * k,
    decreases k,
{
    if k > 0 {
        lemma_copy_args_code_len(k - 1);
    }
}

/// Registration budgets and break legality for one program unit.
pub open spec fn unit_ok(u: ProgramUnit) -> bool {
    match u {
        ProgramUnit::FuncDef(_, _, parameters, statement) => {
            &&& breaks_ok(*statement, 0)
            &&& parameters@.len() + var_defs_of_stmt(*statement) <= MAX_FRAME_VARS
        },
        ProgramUnit::Statement(statement) => breaks_ok(*statement, 0),
    }
}

pub open spec fn units_ok(us: Seq<ProgramUnit>) -> bool
    decreases us, 0int,
{
    if us.len() == 0 {
        true
    } else {
        unit_ok(us[0]) && units_ok(us.drop_first())
    }
}

/// The fresh labels the whole program draws.
pub open spec fn labels_of_unit(u: ProgramUnit) -> nat {
    match u {
        ProgramUnit::FuncDef(_, _, _, statement) => labels_of_stmt(*statement),
        ProgramUnit::Statement(statement) => labels_of_stmt(*statement),
    }
}

pub open spec fn labels_of_units(us: Seq<ProgramUnit>) -> nat
    decreases us, 0int,
{
    if us.len() == 0 {
        0
    } else {
        labels_of_unit(us[0]) + labels_of_units(us.drop_first())
    }
}

/// The variables the top-level statements register in `main`'s frame.
pub open spec fn top_var_defs(us: Seq<ProgramUnit>) -> nat
    decreases us, 0int,
{
    if us.len() == 0 {
        0
    } else {
        (match us[0] {
            ProgramUnit::FuncDef(_, _, _, _) => 0,
            ProgramUnit::Statement(statement) => var_defs_of_stmt(*statement),
        }) + top_var_defs(us.drop_first())
    }
}

/// What a whole program needs so that the generator neither aborts nor
/// overflows a counter: `break` only inside loops, and the label counter
/// and every frame within their machine limits.
pub open spec fn program_ok(p: Program) -> bool {
    &&& units_ok(p.program_units@)
    &&& labels_of_units(p.program_units@) <= u64::MAX
    &&& top_var_defs(p.program_units@) <= MAX_FRAME_VARS
}

/// The environment a function body is generated in: a fresh frame holding
/// exactly the parameters, slots in parameter order.
pub open spec fn func_entry_meta(m: MetaInfoV, pv: Seq<(DataType, Seq<char>)>) -> MetaInfoV {
    MetaInfoV { scopes: m.scopes.push(frame_register_params(Seq::empty(), pv, 0)), ..m }
}

/// A function definition's code: its label, prologue, parameter-slot
/// reservation, argument copies, body, and epilogue.
pub open spec fn func_code_of(name: Seq<char>, nparams: nat, body: Seq<InstrV>) -> Seq<InstrV> {
    let k = if nparams < 6 {
        nparams as int
    } else {
        6
    };
    seq![InstrV::Label(name)] + prologue_code() + seq![
        InstrV::Sub(o_rsp(), o_imm((8 * nparams) as i32)),
    ] + copy_args_code(k) + body + epilogue_code()
}

/// The code generated for the first `n` program units: the accumulated
/// `main` body on the left, the accumulated function definitions on the
/// right. A top-level statement's value is popped right after it.
#[verifier::opaque]
pub open spec fn spec_gen_program(us: Seq<ProgramUnit>, n: int, m: MetaInfoV) -> Result<
    (Seq<InstrV>, Seq<InstrV>, MetaInfoV),
    CompErrV,
>
    decreases us, n,
{
    if n <= 0 || n > us.len() {
        Ok((Seq::empty(), Seq::empty(), m))
    } else {
        match spec_gen_program(us, n - 1, m) {
            Ok((main_code, func_code, m1)) => match us[n - 1] {
                ProgramUnit::FuncDef(_, func_name, parameters, statement) => {
                    let m3 = func_entry_meta(m1, params_view(parameters@));
                    match spec_gen_stmt(*statement, m3) {
                        Ok((body_code, m4)) => Ok(
                            (
                                main_code,
                                func_code + func_code_of(func_name@, parameters@.len(), body_code),
                                MetaInfoV { scopes: m4.scopes.drop_last(), ..m4 },
                            ),
                        ),
                        Err(e) => Err(e),
                    }
                },
                ProgramUnit::Statement(statement) => match spec_gen_stmt(*statement, m1) {
                    Ok((code, m2)) => Ok(
                        (main_code + code + seq![InstrV::Pop(o_rax())], func_code, m2),
                    ),
                    Err(e) => Err(e),
                },
            },
            Err(e) => Err(e),
        }
    }
}

/// The complete instruction sequence of a compiled program: the `main`
/// label, prologue and frame reservation, the top-level statements, the
/// epilogue, then every function definition.
pub open spec fn spec_program_code(p: Program) -> Result<Seq<InstrV>, CompErrV> {
    match spec_gen_program(p.program_units@, p.program_units@.len() as int, initial_meta()) {
        Ok((main_code, func_code, m_end)) => Ok(
            seq![InstrV::Label("main"@)] + prologue_code() + seq![
                InstrV::Sub(o_rsp(), o_imm((8 * m_end.scopes.last().len()) as i32)),
            ] + main_code + epilogue_code() + func_code,
        ),
        Err(e) => Err(e),
    }
}

/// The complete emitted text: the fixed header, then the program's
/// instruction lines.
pub open spec fn spec_output(p: Program) -> Result<Seq<char>, CompErrV> {
    match spec_program_code(p) {
        Ok(code) => Ok(header_text() + code_text(code)),
        Err(e) => Err(e),
    }
}

/// Parameter registration into an empty frame assigns slots `0 .. n-1` in
/// order, and the result stays within the frame limit when the parameter
/// list does.
proof fn lemma_frame_register_params_bounds(f: FrameV, vars: Seq<(DataType, Seq<char>)>, id: int)
    requires
        id >= 0,
    ensures
        frame_register_params(f, vars, id).len() <= f.len() + vars.len(),
        frame_wf(f) && (forall|j: int|
            0 <= j < f.len() ==> (#[trigger] f[j].1.id) < MAX_FRAME_VARS) && id + vars.len()
            <= MAX_FRAME_VARS && f.len() + vars.len() <= MAX_FRAME_VARS
            ==> frame_wf(frame_register_params(f, vars, id)),
    decreases vars.len(),
{
    if vars.len() > 0 {
        let vi = VarInfo { id: id as u32, data_type: vars[0].0 };
        let i = frame_index_of(f, vars[0].1);
        lemma_frame_index_of_range(f, vars[0].1);
        let f2 = if i < 0 {
            f.push((vars[0].1, vi))
        } else {
            f.update(i, (vars[0].1, vi))
        };
        lemma_frame_register_params_bounds(f2, vars.drop_first(), id + 1);
    }
}

/// One step of walking a program's unit list from position `i`.
proof fn lemma_units_skip_step(us: Seq<ProgramUnit>, i: int)
    requires
        0 <= i < us.len(),
    ensures
        units_ok(us.skip(i)) == (unit_ok(us[i]) && units_ok(us.skip(i + 1))),
        labels_of_units(us.skip(i)) == labels_of_unit(us[i]) + labels_of_units(us.skip(i + 1)),
        top_var_defs(us.skip(i)) == (match us[i] {
            ProgramUnit::FuncDef(_, _, _, _) => 0int,
            ProgramUnit::Statement(statement) => var_defs_of_stmt(*statement) as int,
        }) + top_var_defs(us.skip(i + 1)),
{
    assert(us.skip(i)[0] == us[i]);
    assert(us.skip(i).drop_first() =~= us.skip(i + 1));
}

/// A unit that fails to compile fails the whole program.
proof fn lemma_gen_program_err(us: Seq<ProgramUnit>, i: int, n: int, m0: MetaInfoV, e: CompErrV)
    requires
        0 <= i < n <= us.len(),
        spec_gen_program(us, i, m0) is Ok,
        ({
            let m1 = spec_gen_program(us, i, m0)->Ok_0.2;
            match us[i] {
                ProgramUnit::FuncDef(_, _, parameters, statement) => spec_gen_stmt(
                    *statement,
                    func_entry_meta(m1, params_view(parameters@)),
                ) == Err::<(Seq<InstrV>, MetaInfoV), CompErrV>(e),
                ProgramUnit::Statement(statement) => spec_gen_stmt(*statement, m1) == Err::<
                    (Seq<InstrV>, MetaInfoV),
                    CompErrV,
                >(e),
            }
        }),
    ensures
        spec_gen_program(us, n, m0) == Err::<(Seq<InstrV>, Seq<InstrV>, MetaInfoV), CompErrV>(e),
    decreases n,
{
    reveal_with_fuel(spec_gen_program, 1);
    if n > i + 1 {
        lemma_gen_program_err(us, i, n - 1, m0, e);
    }
}

/// One more successfully compiled top-level statement extends `main`.
proof fn lemma_gen_program_step_stmt(
    us: Seq<ProgramUnit>,
    i: int,
    m0: MetaInfoV,
    main_v: Seq<InstrV>,
    func_v: Seq<InstrV>,
    m1: MetaInfoV,
    code: Seq<InstrV>,
    m2: MetaInfoV,
)
    requires
        0 <= i < us.len(),
        spec_gen_program(us, i, m0) == Ok::<(Seq<InstrV>, Seq<InstrV>, MetaInfoV), CompErrV>(
            (main_v, func_v, m1),
        ),
        us[i] matches ProgramUnit::Statement(statement) && spec_gen_stmt(*statement, m1) == Ok::<
            (Seq<InstrV>, MetaInfoV),
            CompErrV,
        >((code, m2)),
    ensures
        spec_gen_program(us, i + 1, m0) == Ok::<(Seq<InstrV>, Seq<InstrV>, MetaInfoV), CompErrV>(
            (main_v + code + seq![InstrV::Pop(o_rax())], func_v, m2),
        ),
{
    reveal_with_fuel(spec_gen_program, 1);
}

/// One more successfully compiled function definition extends the
/// function area.
proof fn lemma_gen_program_step_func(
    us: Seq<ProgramUnit>,
    i: int,
    m0: MetaInfoV,
    main_v: Seq<InstrV>,
    func_v: Seq<InstrV>,
    m1: MetaInfoV,
    body_code: Seq<InstrV>,
    m4: MetaInfoV,
)
    requires
        0 <= i < us.len(),
        spec_gen_program(us, i, m0) == Ok::<(Seq<InstrV>, Seq<InstrV>, MetaInfoV), CompErrV>(
            (main_v, func_v, m1),
        ),
        us[i] matches ProgramUnit::FuncDef(_, func_name, parameters, statement)
            && spec_gen_stmt(*statement, func_entry_meta(m1, params_view(parameters@))) == Ok::<
            (Seq<InstrV>, MetaInfoV),
            CompErrV,
        >((body_code, m4)),
    ensures
        ({
            let func_name = us[i]->FuncDef_1;
            let parameters = us[i]->FuncDef_2;
            spec_gen_program(us, i + 1, m0) == Ok::<
                (Seq<InstrV>, Seq<InstrV>, MetaInfoV),
                CompErrV,
            >(
                (
                    main_v,
                    func_v + func_code_of(func_name@, parameters@.len(), body_code),
                    MetaInfoV { scopes: m4.scopes.drop_last(), ..m4 },
                ),
            )
        }),
{
    reveal_with_fuel(spec_gen_program, 1);
}

/// Compiles a whole program to its complete instruction sequence: `main`
/// built from the top-level statements, followed by every function
/// definition. `main`'s frame reservation counts the variables left in the
/// top-level scope after all units are processed.
pub fn get_assembly_program(program: &Program) -> (r: Result<Assembly, CompilerError>)
    requires
        program_ok(*program),
    ensures
        match r {
            Ok(code) => spec_program_code(*program) == Ok::<Seq<InstrV>, CompErrV>(
                asm_view(code@),
            ),
            Err(e) => spec_program_code(*program) == Err::<Seq<InstrV>, CompErrV>(e@),
        },
{
    let mut meta_info = MetaInfo::new();
    let mut main_code: Assembly = Vec::new();
    let mut func_def_code: Assembly = Vec::new();
    let ghost us = program.program_units@;
    proof {
        reveal_with_fuel(spec_gen_program, 1);
        assert(us.skip(0) =~= us);
        assert(asm_view(main_code@) =~= Seq::<InstrV>::empty());
        assert(asm_view(func_def_code@) =~= Seq::<InstrV>::empty());
    }
    let mut i: usize = 0;
    while i < program.program_units.len()
        invariant
            0 <= i <= us.len(),
            us == program.program_units@,
            meta_wf(meta_info@),
            meta_info@.scopes.len() == 1,
            meta_info@.breaks == Seq::<Seq<char>>::empty(),
            units_ok(us.skip(i as int)),
            meta_info@.label_count + labels_of_units(us.skip(i as int)) <= u64::MAX,
            meta_info@.scopes.last().len() + top_var_defs(us.skip(i as int)) <= MAX_FRAME_VARS,
            spec_gen_program(us, i as int, initial_meta()) == Ok::<
                (Seq<InstrV>, Seq<InstrV>, MetaInfoV),
                CompErrV,
            >((asm_view(main_code@), asm_view(func_def_code@), meta_info@)),
        decreases us.len() - i,
    {
        proof {
            lemma_units_skip_step(us, i as int);
        }
        let ghost m1 = meta_info@;
        let ghost main_v = asm_view(main_code@);
        let ghost func_v = asm_view(func_def_code@);
        match &program.program_units[i] {
            ProgramUnit::FuncDef(_, func_name, parameters, statement) => {
                meta_info.push_scope();
                meta_info.register_variables(parameters.as_slice());
                let ghost m3 = meta_info@;
                proof {
                    assert(m3 =~~= func_entry_meta(m1, params_view(parameters@)));
                    lemma_frame_register_params_bounds(
                        Seq::empty(),
                        params_view(parameters@),
                        0,
                    );
                }
                func_def_code.push(label(func_name.clone()));
                func_def_code.push(push(rbp()));
                func_def_code.push(mov(rbp(), rsp()));
                func_def_code.push(crate::assembly::sub(
                    rsp(),
                    immediate(8 * parameters.len() as i32),
                ));
                let ghost with_head = func_v + seq![InstrV::Label(func_name@)]
                    + prologue_code() + seq![
                    InstrV::Sub(o_rsp(), o_imm((8 * parameters@.len()) as i32)),
                ];
                proof {
                    assert(asm_view(func_def_code@) =~= with_head + copy_args_code(0));
                }
                let k: usize = if parameters.len() < 6 {
                    parameters.len()
                } else {
                    6
                };
                let mut index: usize = 0;
                while index < k
                    invariant
                        0 <= index <= k,
                        k <= 6,
                        asm_view(func_def_code@) == with_head + copy_args_code(index as int),
                        meta_info@ == m3,
                    decreases k - index,
                {
                    let ghost before = asm_view(func_def_code@);
                    func_def_code.push(comment("copy arguments to local variables"));
                    func_def_code.push(mov(rax(), rbp()));
                    func_def_code.push(crate::assembly::sub(
                        rax(),
                        immediate((index + 1) as i32 * 8),
                    ));
                    func_def_code.push(mov(m_rax(), Operand::Register(argument_register(index))));
                    func_def_code.push(comment("copy arguments to local variables end"));
                    proof {
                        let block = seq![
                            InstrV::Comment("copy arguments to local variables"@),
                            InstrV::Mov(o_rax(), o_rbp()),
                            InstrV::Sub(o_rax(), o_imm(((index + 1) * 8) as i32)),
                            InstrV::Mov(o_m_rax(), Operand::Register(arg_register(index as int))),
                            InstrV::Comment("copy arguments to local variables end"@),
                        ];
                        assert(asm_view(func_def_code@) =~= before + block);
                        assert(copy_args_code(index + 1) == copy_args_code(index as int) + block);
                        lemma_copy_args_code_len(index as int);
                        assert(before + block =~= with_head + copy_args_code(index + 1));
                    }
                    index = index + 1;
                }
                match get_assembly_statement(statement, &mut meta_info) {
                    Ok(mut body) => {
                        let ghost bv = asm_view(body@);
                        let ghost with_body = asm_view(func_def_code@) + bv;
                        func_def_code.append(&mut body);
                        proof {
                            lemma_gen_stmt_meta(**statement, m3);
                            assert(asm_view(func_def_code@) =~= with_body);
                        }
                        func_def_code.push(mov(rsp(), rbp()));
                        func_def_code.push(pop(rbp()));
                        func_def_code.push(ret());
                        let ghost m4 = meta_info@;
                        meta_info.pop_scope();
                        proof {
                            assert(meta_info@ =~~= (MetaInfoV {
                                scopes: m4.scopes.drop_last(),
                                ..m4
                            }));
                            lemma_gen_program_step_func(
                                us,
                                i as int,
                                initial_meta(),
                                main_v,
                                func_v,
                                m1,
                                bv,
                                m4,
                            );
                            let kk: int = if parameters@.len() < 6 {
                                parameters@.len() as int
                            } else {
                                6
                            };
                            lemma_copy_args_code_len(kk);
                            assert(asm_view(func_def_code@) =~= with_body + epilogue_code());
                            assert(with_body == with_head + copy_args_code(kk) + bv);
                            assert(func_code_of(func_name@, parameters@.len(), bv)
                                == seq![InstrV::Label(func_name@)] + prologue_code() + seq![
                                InstrV::Sub(o_rsp(), o_imm((8 * parameters@.len()) as i32)),
                            ] + copy_args_code(kk) + bv + epilogue_code());
                            assert(with_body + epilogue_code() =~= func_v + func_code_of(
                                func_name@,
                                parameters@.len(),
                                bv,
                            ));
                            assert(asm_view(func_def_code@) =~= func_v + func_code_of(
                                func_name@,
                                parameters@.len(),
                                bv,
                            ));
                        }
                    },
                    Err(e) => {
                        proof {
                            lemma_gen_program_err(us, i as int, us.len() as int, initial_meta(), e@);
                        }
                        return Err(e);
                    },
                }
            },
            ProgramUnit::Statement(statement) => {
                match get_assembly_statement(statement, &mut meta_info) {
                    Ok(mut code) => {
                        let ghost cv = asm_view(code@);
                        main_code.append(&mut code);
                        main_code.push(pop(rax()));
                        proof {
                            lemma_gen_stmt_meta(**statement, m1);
                            lemma_gen_program_step_stmt(
                                us,
                                i as int,
                                initial_meta(),
                                main_v,
                                func_v,
                                m1,
                                cv,
                                meta_info@,
                            );
                            assert(asm_view(main_code@) =~= main_v + cv + seq![
                                InstrV::Pop(o_rax()),
                            ]);
                        }
                    },
                    Err(e) => {
                        proof {
                            lemma_gen_program_err(us, i as int, us.len() as int, initial_meta(), e@);
                        }
                        return Err(e);
                    },
                }
            },
        }
        i = i + 1;
    }
    let number_of_variables = meta_info.get_number_of_variables();
    let mut out: Assembly = vec![
        label(String::from_str("main")),
        push(rbp()),
        mov(rbp(), rsp()),
        crate::assembly::sub(rsp(), immediate(8 * number_of_variables as i32)),
    ];
    let ghost main_v = asm_view(main_code@);
    let ghost func_v = asm_view(func_def_code@);
    out.append(&mut main_code);
    out.push(mov(rsp(), rbp()));
    out.push(pop(rbp()));
    out.push(ret());
    out.append(&mut func_def_code);
    proof {
        assert(asm_view(out@) =~= seq![InstrV::Label("main"@)] + prologue_code() + seq![
            InstrV::Sub(o_rsp(), o_imm((8 * meta_info@.scopes.last().len()) as i32)),
        ] + main_v + epilogue_code() + func_v);
    }
    Ok(out)
}

/// Compiles a whole program and renders it: the fixed header, then one
/// line per instruction.
pub fn print_assembly(program: &Program) -> (r: Result<String, CompilerError>)
    requires
        program_ok(*program),
    ensures
        match r {
            Ok(s) => spec_output(*program) == Ok::<Seq<char>, CompErrV>(s@),
            Err(e) => spec_output(*program) == Err::<Seq<char>, CompErrV>(e@),
        },
{
    match get_assembly_program(program) {
        Ok(code) => {
            let mut s = String::from_str(".intel_syntax noprefix\n");
            s.append(".global main\n");
            s.append("\n");
            let body = crate::assembly::print_assembly_code(&code);
            s.append(body.as_str());
            Ok(s)
        },
        Err(e) => Err(e),
    }
}

/// TESTABLE: every generated label is a dot, an `L`, then one or more
/// decimal digits.
pub proof fn lemma_label_name_shape(n: nat)
    ensures
        label_name(n).len() >= 3,
        label_name(n)[0] == '.',
        label_name(n)[1] == 'L',
        forall|j: int|
            2 <= j < label_name(n).len() ==> crate::assembly::is_digit(
                #[trigger] label_name(n)[j],
            ),
{
    reveal_strlit(".L");
    crate::assembly::lemma_dec_nat_digits(n);
    assert(forall|j: int|
        2 <= j < label_name(n).len() ==> #[trigger] label_name(n)[j] == dec_nat(n)[j - 2]);
}

/// TESTABLE: labels drawn at different counter values differ, so a label
/// counter that only ever grows never hands out the same label twice; the
/// numeric suffixes of the labels one compilation draws, in the order they
/// are drawn, form a strictly increasing sequence.
pub proof fn lemma_label_name_injective(a: nat, b: nat)
    requires
        a != b,
    ensures
        label_name(a) != label_name(b),
{
    reveal_strlit(".L");
    if label_name(a) == label_name(b) {
        assert(label_name(a).skip(2) =~= dec_nat(a));
        assert(label_name(b).skip(2) =~= dec_nat(b));
        crate::assembly::lemma_dec_nat_injective(a, b);
    }
}

/// TESTABLE: the emitted text is the fixed header followed by the rendered
/// lines of the program's instructions — so it begins with the header, and
/// by `lemma_instr_line_shape` every line after it is either a label line
/// or indented with exactly two spaces.
pub proof fn lemma_output_format(p: Program)
    requires
        spec_output(p) is Ok,
    ensures
        spec_output(p)->Ok_0.len() >= header_text().len(),
        spec_output(p)->Ok_0.take(header_text().len() as int) == header_text(),
        spec_output(p)->Ok_0 == header_text() + code_text(spec_program_code(p)->Ok_0),
{
    let out = spec_output(p)->Ok_0;
    let body = code_text(spec_program_code(p)->Ok_0);
    assert(out == header_text() + body);
    assert((header_text() + body).take(header_text().len() as int) =~= header_text());
}

/// Relates a frame scan that looked at the first `j` entries to
/// `frame_index_of` over the whole frame.
proof fn lemma_frame_index_of_prefix(f: FrameV, name: Seq<char>, j: int, found: bool)
    requires
        found ==> 0 <= j < f.len() && f[j].0 == name,
        !found ==> j == f.len(),
        forall|k: int| 0 <= k < j ==> (#[trigger] f[k].0) != name,
    ensures
        found ==> frame_index_of(f, name) == j,
        !found ==> frame_index_of(f, name) < 0,
    decreases f.len(),
{
    if f.len() == 0 {
    } else if f[0].0 == name {
        assert(j == 0);
    } else {
        assert(forall|k: int|
            0 <= k < j - 1 ==> (#[trigger] f.drop_first()[k].0) == f[k + 1].0);
        lemma_frame_index_of_prefix(f.drop_first(), name, j - 1, found);
    }
}

} // verus!
