//! The memory operations: assignment, block copy, variable binding,
//! address-of, variable stepping and allocation.

use vstd::prelude::*;

use crate::error::{ErrV, Error};
use crate::eval::{spec_loc_effect, spec_tok_int, spec_tok_uint, spec_tok_value};
use crate::lex::{spec_kind, spec_kind_name, Tok};
use crate::mem::{
    idx_incr, spec_idx_incr, spec_mem_at, spec_mem_set, spec_var_find, Mem, MemV,
};
use crate::num::{exec_float_of_isize, exec_float_of_u64, float_of_isize, float_of_u64};
use crate::op::Signal;

verus! {

/// What writing `val` through token `t` does to memory, and the outcome:
/// the location is computed first (materializing a string literal, which
/// persists even when the write then fails), negative locations refuse
/// the write.
pub open spec fn write_out_rel(t: Tok, m0: MemV, val: u64, m1: MemV, wr: Result<(), ErrV>) -> bool {
    match spec_loc_effect(t, m0) {
        Err(e) => m1 == m0 && wr == Err::<(), ErrV>(e),
        Ok(p) => if p.1 < 0 {
            m1 == p.0 && wr == Err::<(), ErrV>(ErrV::WriteToNMem(p.1 as int))
        } else {
            match spec_mem_set(p.0, p.1, val) {
                Ok(m2) => m1 == m2 && wr == Ok::<(), ErrV>(()),
                Err(e) => m1 == p.0 && wr == Err::<(), ErrV>(e),
            }
        },
    }
}

/// What assignment does: the source operand is evaluated in value-of
/// mode, then written through the destination operand's location.
pub open spec fn mov_rel(v: Seq<Tok>, m0: MemV, m1: MemV, r: Result<Signal, Error>) -> bool {
    if v.len() != 2 {
        m1 == m0 && (r matches Err(x) && x@ == ErrV::WrongArgCount(2, v.len() as int))
    } else {
        match spec_tok_value(v[1], m0) {
            Err(e) => m1 == m0 && (r matches Err(x) && x@ == e),
            Ok(val) => match r {
                Ok(s) => s == Signal::Nil && write_out_rel(v[0], m0, val, m1, Ok(())),
                Err(x) => write_out_rel(v[0], m0, val, m1, Err(x@)),
            },
        }
    }
}

/// Assigns the value of the second operand to the first operand's
/// location.
pub fn mov(v: &[Tok], m: &mut Mem) -> (r: Result<Signal, Error>)
    ensures
        mov_rel(v@, old(m)@, final(m)@, r),
{
    if v.len() != 2 {
        return Err(Error::WrongArgCount(2, v.len()));
    }
    let src_val = match v[1].get_value(m) {
        Ok(val) => val,
        Err(e) => {
            return Err(e);
        },
    };
    match v[0].write_value(m, src_val) {
        Ok(u) => Ok(Signal::Nil),
        Err(e) => Err(e),
    }
}

/// One pass of the block copy: `k` slots remain; each step reads the
/// source slot, writes it through the destination address (negative
/// destinations refuse the write), and steps both addresses one away
/// from zero.  The state reached so far persists when a step fails.
pub open spec fn spec_cpy_steps(m: MemV, des: isize, src: isize, k: u64) -> (MemV, Option<ErrV>)
    decreases k,
{
    if k == 0 {
        (m, None)
    } else {
        match spec_mem_at(m, src) {
            Err(e) => (m, Some(e)),
            Ok(val) => if des < 0 {
                (m, Some(ErrV::WriteToNMem(des as int)))
            } else {
                match spec_mem_set(m, des, val) {
                    Err(e) => (m, Some(e)),
                    Ok(m2) => spec_cpy_steps(
                        m2,
                        spec_idx_incr(des, 1),
                        spec_idx_incr(src, 1),
                        (k - 1) as u64,
                    ),
                }
            },
        }
    }
}

/// What the block copy does: both locations are computed (materializing
/// string literals, so a literal source is copied from its fresh
/// negative range), the size is an exact non-negative integer, and that
/// many slots are copied one by one.
pub open spec fn cpy_rel(v: Seq<Tok>, m0: MemV, m1: MemV, r: Result<Signal, Error>) -> bool {
    if v.len() != 3 {
        m1 == m0 && (r matches Err(x) && x@ == ErrV::WrongArgCount(3, v.len() as int))
    } else {
        match spec_loc_effect(v[0], m0) {
            Err(e) => m1 == m0 && (r matches Err(x) && x@ == e),
            Ok(pa) => match spec_loc_effect(v[1], pa.0) {
                Err(e) => m1 == pa.0 && (r matches Err(x) && x@ == e),
                Ok(pb) => match spec_tok_uint(v[2], pb.0) {
                    Err(e) => m1 == pb.0 && (r matches Err(x) && x@ == e),
                    Ok(size) => {
                        let out = spec_cpy_steps(pb.0, pa.1, pb.1, size);
                        m1 == out.0 && (match out.1 {
                            None => r == Ok::<Signal, Error>(Signal::Nil),
                            Some(e) => r matches Err(x) && x@ == e,
                        })
                    },
                },
            },
        }
    }
}

/// Copies `size` slots from the source location to the destination
/// location.
#[verifier::loop_isolation(false)]
pub fn cpy(v: &[Tok], m: &mut Mem) -> (r: Result<Signal, Error>)
    ensures
        cpy_rel(v@, old(m)@, final(m)@, r),
{
    if v.len() != 3 {
        return Err(Error::WrongArgCount(3, v.len()));
    }
    let mut des_idx = match v[0].get_loc(m) {
        Ok(l) => l,
        Err(e) => {
            return Err(e);
        },
    };
    let mut src_idx = match v[1].get_loc(m) {
        Ok(l) => l,
        Err(e) => {
            return Err(e);
        },
    };
    let size_val = match v[2].get_uint(m) {
        Ok(s) => s,
        Err(e) => {
            return Err(e);
        },
    };
    let ghost full = spec_cpy_steps(m@, des_idx, src_idx, size_val);
    let mut k: u64 = 0;
    while k < size_val
        invariant
            k <= size_val,
            full == spec_cpy_steps(m@, des_idx, src_idx, (size_val - k) as u64),
        decreases size_val - k,
    {
        let val = match m.mem_at(src_idx) {
            Ok(val) => val,
            Err(e) => {
                return Err(e);
            },
        };
        if des_idx < 0 {
            return Err(Error::WriteToNMem(des_idx));
        }
        match m.mem_set(des_idx, val) {
            Ok(u) => (),
            Err(e) => {
                return Err(e);
            },
        }
        idx_incr(&mut des_idx, 1);
        idx_incr(&mut src_idx, 1);
        k = k + 1;
    }
    Ok(Signal::Nil)
}


/// What variable binding does: the first operand names the variable's
/// slot, the second is evaluated in location-of mode, and the slot is
/// pointed at that address.
pub open spec fn var_rel(v: Seq<Tok>, m0: MemV, m1: MemV, r: Result<Signal, Error>) -> bool {
    if v.len() != 2 {
        m1 == m0 && (r matches Err(x) && x@ == ErrV::WrongArgCount(2, v.len() as int))
    } else {
        match v[0] {
            Tok::Sym(hi) => match spec_loc_effect(v[1], m0) {
                Err(e) => m1 == m0 && (r matches Err(x) && x@ == e),
                Ok(p) => if hi.idx >= p.0.var.len() {
                    m1 == p.0 && (r matches Err(x) && x@ == ErrV::UndefinedVar(hi.sym@))
                } else {
                    m1 == (MemV { var: p.0.var.update(hi.idx as int, p.1), ..p.0 }) && r == Ok::<
                        Signal,
                        Error,
                    >(Signal::Nil)
                },
            },
            _ => m1 == m0 && (r matches Err(x) && x@ == ErrV::WrongArgType(
                seq!["Sym"@],
                spec_kind_name(spec_kind(v[0])),
            )),
        }
    }
}

/// Points the named variable's slot at the second operand's location.
pub fn var(v: &[Tok], m: &mut Mem) -> (r: Result<Signal, Error>)
    ensures
        var_rel(v@, old(m)@, final(m)@, r),
{
    if v.len() != 2 {
        return Err(Error::WrongArgCount(2, v.len()));
    }
    let slot = match v[0].get_sym() {
        Ok(hi) => hi.idx,
        Err(e) => {
            return Err(e);
        },
    };
    let idx = match v[1].get_loc(m) {
        Ok(l) => l,
        Err(e) => {
            return Err(e);
        },
    };
    if slot >= m.var.len() {
        let name = match &v[0] {
            Tok::Sym(hi) => crate::text::clone_string(&hi.sym),
            _ => String::new(),
        };
        return Err(Error::UndefinedVar(name));
    }
    m.var_set(slot, idx);
    Ok(Signal::Nil)
}

/// What address-of does: the operand's location (materializing a string
/// literal) is stored in the accumulator as a value.
pub open spec fn loc_rel(v: Seq<Tok>, m0: MemV, m1: MemV, r: Result<Signal, Error>) -> bool {
    if v.len() != 1 {
        m1 == m0 && (r matches Err(x) && x@ == ErrV::WrongArgCount(1, v.len() as int))
    } else {
        match spec_loc_effect(v[0], m0) {
            Err(e) => m1 == m0 && (r matches Err(x) && x@ == e),
            Ok(p) => match spec_mem_set(p.0, 0, float_of_isize(p.1)) {
                Ok(m2) => m1 == m2 && r == Ok::<Signal, Error>(Signal::Nil),
                Err(e) => m1 == p.0 && (r matches Err(x) && x@ == e),
            },
        }
    }
}

/// Stores the operand's address in the accumulator.
pub fn loc(v: &[Tok], m: &mut Mem) -> (r: Result<Signal, Error>)
    ensures
        loc_rel(v@, old(m)@, final(m)@, r),
{
    if v.len() != 1 {
        return Err(Error::WrongArgCount(1, v.len()));
    }
    let idx = match v[0].get_loc(m) {
        Ok(l) => l,
        Err(e) => {
            return Err(e);
        },
    };
    match m.mem_set(0, exec_float_of_isize(idx)) {
        Ok(u) => Ok(Signal::Nil),
        Err(e) => Err(e),
    }
}

/// What variable stepping does: the first operand must be a variable
/// reference; its slot's address moves by the second operand's exact
/// integer value, away from zero, preserving the sign.
pub open spec fn incr_rel(v: Seq<Tok>, m0: MemV, m1: MemV, r: Result<Signal, Error>) -> bool {
    if v.len() != 2 {
        m1 == m0 && (r matches Err(x) && x@ == ErrV::WrongArgCount(2, v.len() as int))
    } else {
        match v[0] {
            Tok::Var(hi) => match spec_tok_int(v[1], m0) {
                Err(e) => m1 == m0 && (r matches Err(x) && x@ == e),
                Ok(delta) => match spec_var_find(m0, hi.idx as int, hi.sym@) {
                    Err(e) => m1 == m0 && (r matches Err(x) && x@ == e),
                    Ok(cur) => m1 == (MemV {
                        var: m0.var.update(hi.idx as int, spec_idx_incr(cur, delta)),
                        ..m0
                    }) && r == Ok::<Signal, Error>(Signal::Nil),
                },
            },
            _ => m1 == m0 && (r matches Err(x) && x@ == ErrV::WrongArgType(
                seq!["Var"@],
                spec_kind_name(spec_kind(v[0])),
            )),
        }
    }
}

/// Steps the named variable's address by the second operand's value.
pub fn incr(v: &[Tok], m: &mut Mem) -> (r: Result<Signal, Error>)
    ensures
        incr_rel(v@, old(m)@, final(m)@, r),
{
    if v.len() != 2 {
        return Err(Error::WrongArgCount(2, v.len()));
    }
    match &v[0] {
        Tok::Var(hi) => {
            let incr_val = match v[1].get_int(m) {
                Ok(d) => d,
                Err(e) => {
                    return Err(e);
                },
            };
            let mut var_idx = match m.var_find(hi) {
                Ok(cur) => cur,
                Err(e) => {
                    return Err(e);
                },
            };
            idx_incr(&mut var_idx, incr_val);
            m.var_set(hi.idx, var_idx);
            Ok(Signal::Nil)
        },
        _ => {
            let kinds: Vec<&'static str> = vec!["Var"];
            proof {
                assert(Seq::new(kinds@.len(), |i: int| kinds@[i]@) =~= seq!["Var"@]);
            }
            Err(Error::WrongArgType(kinds, v[0].to_type_str()))
        },
    }
}

/// What allocation does: the positive store grows by the operand's exact
/// non-negative integer value in zeroed slots, and that count is stored
/// in the accumulator.  A growth past the addressable range is rejected
/// as an invalid access.
pub open spec fn allc_rel(v: Seq<Tok>, m0: MemV, m1: MemV, r: Result<Signal, Error>) -> bool {
    if v.len() != 1 {
        m1 == m0 && (r matches Err(x) && x@ == ErrV::WrongArgCount(1, v.len() as int))
    } else {
        match spec_tok_uint(v[0], m0) {
            Err(e) => m1 == m0 && (r matches Err(x) && x@ == e),
            Ok(size) => if m0.pmem.len() + size > usize::MAX {
                m1 == m0 && (r matches Err(x) && x@ == ErrV::InvalidMemAccess(isize::MIN as int))
            } else {
                let m2 = MemV { pmem: m0.pmem + Seq::new(size as nat, |j: int| 0u64), ..m0 };
                match spec_mem_set(m2, 0, float_of_u64(size)) {
                    Ok(m3) => m1 == m3 && r == Ok::<Signal, Error>(Signal::Nil),
                    Err(e) => m1 == m2 && (r matches Err(x) && x@ == e),
                }
            },
        }
    }
}

/// Grows the positive store by the operand's value in zeroed slots and
/// stores the size added in the accumulator.
pub fn allc(v: &[Tok], m: &mut Mem) -> (r: Result<Signal, Error>)
    ensures
        allc_rel(v@, old(m)@, final(m)@, r),
{
    if v.len() != 1 {
        return Err(Error::WrongArgCount(1, v.len()));
    }
    let size = match v[0].get_uint(m) {
        Ok(s) => s,
        Err(e) => {
            return Err(e);
        },
    };
    let len = m.pmem_len();
    if size > (usize::MAX - len) as u64 {
        return Err(Error::InvalidMemAccess(isize::MIN));
    }
    let slots: Vec<u64> = vec![0u64; size as usize];
    proof {
        assert(slots@ =~= Seq::new(size as nat, |j: int| 0u64));
    }
    m.pmem_allc(slots.as_slice());
    match m.mem_set(0, exec_float_of_u64(size)) {
        Ok(u) => Ok(Signal::Nil),
        Err(e) => Err(e),
    }
}

} // verus!
