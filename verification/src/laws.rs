//! Laws of the machine: properties that hold across the components,
//! proved from the contracts the components state.

use vstd::prelude::*;

use crate::error::ErrV;
use crate::eval::{lit_slots, spec_loc_effect, spec_tok_value, spec_write_value};
use crate::lex::{Idx, Tok};
use crate::mem::{spec_mem_at, MemV};
use crate::num::{
    float_add, float_cmp, float_div, float_eq, float_mul, float_of_u64, float_rem, float_sub,
};
use crate::op::logic::truthy;
use crate::op::math::spec_binop_args;
use crate::op::{exec_rel, spec_opcode_of, Opcode, Step};

verus! {

/// The value an accumulator-writing operation stores: the rounded result
/// for the arithmetic operations, one or zero for the comparisons and the
/// logic operations, and nothing for every other operation.
pub open spec fn acc_result(op: Opcode, args: Seq<Tok>, m: MemV) -> Option<u64> {
    match op {
        Opcode::Add => match spec_binop_args(args, m) {
            Ok(p) => Some(float_add(p.0, p.1)),
            Err(_) => None,
        },
        Opcode::Sub => match spec_binop_args(args, m) {
            Ok(p) => Some(float_sub(p.0, p.1)),
            Err(_) => None,
        },
        Opcode::Mul => match spec_binop_args(args, m) {
            Ok(p) => Some(float_mul(p.0, p.1)),
            Err(_) => None,
        },
        Opcode::Div => match spec_binop_args(args, m) {
            Ok(p) => Some(float_div(p.0, p.1)),
            Err(_) => None,
        },
        Opcode::Mod => match spec_binop_args(args, m) {
            Ok(p) => Some(float_rem(p.0, p.1)),
            Err(_) => None,
        },
        Opcode::Eq => match spec_binop_args(args, m) {
            Ok(p) => Some(flag(float_eq(p.0, p.1))),
            Err(_) => None,
        },
        Opcode::Ne => match spec_binop_args(args, m) {
            Ok(p) => Some(flag(!float_eq(p.0, p.1))),
            Err(_) => None,
        },
        Opcode::Gt => match spec_binop_args(args, m) {
            Ok(p) => Some(flag(float_cmp(p.0, p.1) == Some(1i8))),
            Err(_) => None,
        },
        Opcode::Lt => match spec_binop_args(args, m) {
            Ok(p) => Some(flag(float_cmp(p.0, p.1) == Some(-1i8))),
            Err(_) => None,
        },
        Opcode::And => match spec_binop_args(args, m) {
            Ok(p) => Some(flag(truthy(p.0) && truthy(p.1))),
            Err(_) => None,
        },
        Opcode::Or => match spec_binop_args(args, m) {
            Ok(p) => Some(flag(truthy(p.0) || truthy(p.1))),
            Err(_) => None,
        },
        Opcode::Not => if args.len() == 1 {
            match spec_tok_value(args[0], m) {
                Ok(val) => Some(flag(!truthy(val))),
                Err(_) => None,
            }
        } else {
            None
        },
        _ => None,
    }
}

/// One for a true outcome, zero for a false one, as doubles.
pub open spec fn flag(b: bool) -> u64 {
    if b {
        float_of_u64(1)
    } else {
        float_of_u64(0)
    }
}

/// True of the operations that write the accumulator as their result
/// slot.
pub open spec fn is_acc_op(op: Opcode) -> bool {
    match op {
        Opcode::Add | Opcode::Sub | Opcode::Mul | Opcode::Div | Opcode::Mod | Opcode::Eq
            | Opcode::Ne | Opcode::Gt | Opcode::Lt | Opcode::And | Opcode::Or | Opcode::Not => true,
        _ => false,
    }
}

/// After a successful arithmetic, comparison or logic instruction, the
/// accumulator (slot 0 of positive memory) holds exactly that
/// instruction's result, and no other slot of any store changed.
pub proof fn lemma_acc_holds_result(line: Seq<Tok>, m0: MemV, m1: MemV, r: Result<Step, crate::error::Error>)
    requires
        line.len() > 0,
        line[0] is Sym,
        spec_opcode_of(line[0]->Sym_0.idx) matches Some(op) && is_acc_op(op),
        exec_rel(line, m0, m1, r),
        r is Ok,
    ensures
        ({
            let op = spec_opcode_of(line[0]->Sym_0.idx)->Some_0;
            let args = line.subrange(1, line.len() as int);
            &&& acc_result(op, args, m0) matches Some(res) && m1 == (MemV {
                pmem: m0.pmem.update(0, res),
                ..m0
            })
            &&& m0.pmem.len() >= 1
        }),
{
}

/// A successful instruction that is not an accumulator-writing one and
/// not an explicit store (assignment, copy, allocation, address-of or a
/// read completion) leaves positive memory untouched: nothing writes the
/// accumulator implicitly.
pub proof fn lemma_others_leave_acc(line: Seq<Tok>, m0: MemV, m1: MemV, r: Result<Step, crate::error::Error>)
    requires
        line.len() > 0,
        line[0] is Sym,
        spec_opcode_of(line[0]->Sym_0.idx) matches Some(op) && (match op {
            Opcode::Nop | Opcode::Var | Opcode::Incr | Opcode::Jmp | Opcode::Jc | Opcode::Lbl
                | Opcode::Als | Opcode::Exit | Opcode::Close | Opcode::Read | Opcode::Write
                | Opcode::Src | Opcode::PrintNum => true,
            _ => false,
        }),
        exec_rel(line, m0, m1, r),
        r is Ok,
    ensures
        m1.pmem == m0.pmem,
{
}

/// Every write through a negative address fails with the negative-write
/// error and leaves memory unchanged.
pub proof fn lemma_negative_writes_fail(a: isize, m0: MemV, v: u64)
    requires
        a < 0,
    ensures
        spec_write_value(Tok::Idx(Idx::Num(a)), m0, v) == Err::<MemV, ErrV>(
            ErrV::WriteToNMem(a as int),
        ),
{
}

/// Every write through a non-negative address within the positive store
/// succeeds, and a subsequent read at the same address observes the
/// written value.
pub proof fn lemma_write_then_read(a: isize, m0: MemV, v: u64)
    requires
        0 <= a < m0.pmem.len(),
    ensures
        spec_write_value(Tok::Idx(Idx::Num(a)), m0, v) matches Ok(m1) && spec_mem_at(m1, a)
            == Ok::<u64, ErrV>(v),
{
}

/// Materializing the same string literal twice yields two distinct,
/// non-overlapping negative ranges: the second literal's slots (plus its
/// two-slot terminator) start past the end of the first's.
pub proof fn lemma_literal_ranges_disjoint(
    t: Tok,
    m0: MemV,
    m1: MemV,
    m2: MemV,
    a1: isize,
    a2: isize,
)
    requires
        t is Ltl,
        spec_loc_effect(t, m0) == Ok::<(MemV, isize), ErrV>((m1, a1)),
        spec_loc_effect(t, m1) == Ok::<(MemV, isize), ErrV>((m2, a2)),
    ensures
        a1 != a2,
        -(a2 as int) == -(a1 as int) + lit_slots(t->Ltl_0@).len() + 2,
{
}

/// A label declared by the line at index `i` (its first declaration) is
/// bound, already at load time, to the line after the declaration; a
/// symbolic reference to it -- even one tokenized earlier, resolved only
/// by the pass that runs after the whole source is loaded -- therefore
/// jumps to that line.
pub proof fn lemma_forward_label_lands_after_decl(
    i: int,
    m0: MemV,
    m1: MemV,
    t0: Seq<Tok>,
    t1: Seq<Tok>,
    jt0: Tok,
    jt1: Tok,
    m2: MemV,
    mj: MemV,
    rj: Result<crate::op::Signal, crate::error::Error>,
)
    requires
        0 <= i < usize::MAX,
        m0.label.len() < usize::MAX,
        t0.len() >= 2,
        t0[1] is Sym,
        !m0.label_names.contains_key(t0[1]->Sym_0.sym@),
        crate::prep::symtab_rel(21, i, m0, m1, t0, t1),
        jt0 is Sym,
        jt0->Sym_0.sym@ == t0[1]->Sym_0.sym@,
        crate::prep::lbl_resolved(m1.label_names, jt0, jt1, Ok(())),
        m2.label == m1.label,
        crate::op::flow::jmp_rel(seq![jt1], m2, mj, rj),
    ensures
        rj == Ok::<crate::op::Signal, crate::error::Error>(crate::op::Signal::Jmp((i + 1) as usize)),
        mj == m2,
{
    let sym = t0[1]->Sym_0.sym@;
    let slot = m0.label.len();
    assert(m1.label == m0.label.push((i + 1) as usize));
    assert(m1.label_names == m0.label_names.insert(sym, slot as usize));
    assert(m1.label_names.contains_key(sym));
    assert(m1.label_names[sym] == slot as usize);
    assert(jt1 is Sym && jt1->Sym_0.idx == slot as usize);
    assert(seq![jt1][0] == jt1);
    assert(m2.label[slot as int] == (i + 1) as usize);
}

/// A string literal just materialized reads back as itself: after
/// location-of on a literal whose UTF-8 encoding contains no zero byte
/// (value 0 is reserved as non-storable), walking the returned negative
/// address collects exactly the literal's bytes, which decode to the
/// original text.  The faithfulness hypothesis is what materialization
/// itself guarantees.
pub proof fn lemma_literal_read_back(t: Tok, m0: MemV, m1: MemV, a: isize)
    requires
        t is Ltl,
        spec_loc_effect(t, m0) == Ok::<(MemV, isize), ErrV>((m1, a)),
        crate::eval::lit_slots_faithful(t->Ltl_0@),
        forall|j: int|
            0 <= j < vstd::utf8::encode_utf8(t->Ltl_0@).len() ==> #[trigger] vstd::utf8::encode_utf8(
                t->Ltl_0@,
            )[j] != 0,
        m0.nmem.len() >= 1,
        m0.nmem.len() + vstd::utf8::encode_utf8(t->Ltl_0@).len() + 2 <= isize::MAX,
    ensures
        crate::mem::spec_read_ltl(m1, a, false, Seq::empty()) == Ok::<Seq<u8>, ErrV>(
            vstd::utf8::encode_utf8(t->Ltl_0@),
        ),
        vstd::utf8::valid_utf8(vstd::utf8::encode_utf8(t->Ltl_0@)),
        vstd::utf8::decode_utf8(vstd::utf8::encode_utf8(t->Ltl_0@)) == t->Ltl_0@,
{
    let s = t->Ltl_0@;
    let bs = vstd::utf8::encode_utf8(s);
    let start = m0.nmem.len() as int;
    assert(m1.nmem == m0.nmem + lit_slots(s) + seq![0u64, 0u64]);
    assert forall|j: int| 0 <= j < bs.len() implies {
        &&& m1.nmem[start + j] == lit_slots(s)[j]
        &&& !crate::num::float_is_zero(#[trigger] m1.nmem[start + j])
        &&& crate::num::u8_of_float(m1.nmem[start + j]) == bs[j]
    } by {
        assert(lit_slots(s)[j] == m1.nmem[start + j]);
        assert(bs[j] != 0);
    }
    assert(m1.nmem[start + bs.len()] == 0u64);
    assert(m1.nmem[start + bs.len() + 1] == 0u64);
    crate::mem::lemma_read_ltl_stored(m1, start, bs, 0);
    assert(bs.take(0) =~= Seq::<u8>::empty());
    assert(a == (-(start + 0)) as isize);
    vstd::utf8::encode_utf8_valid_utf8(s);
    vstd::utf8::encode_utf8_decode_utf8(s);
}

/// Every code the operator table hands out names an operation the
/// dispatcher implements: a line that passed opcode assignment cannot
/// reach the unknown-operator error at execution time.
pub proof fn lemma_table_codes_dispatch(s: Seq<char>)
    requires
        crate::op::spec_op_table().contains_key(s),
    ensures
        spec_opcode_of(crate::op::spec_op_table()[s]) is Some,
{
}

} // verus!
