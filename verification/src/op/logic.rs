//! The logic operations: arguments are truthy when they compare unequal
//! to zero; the outcome is stored in the accumulator as one or zero.

use vstd::prelude::*;

use crate::error::{ErrV, Error};
use crate::eval::spec_tok_value;
use crate::lex::Tok;
use crate::mem::{spec_mem_set, Mem, MemV};
use crate::num::{exec_float_is_zero, float_is_zero, float_of_u64};
use crate::op::math::{parse_arg, spec_binop_args};
use crate::op::Signal;

verus! {

/// A value is truthy when it does not compare equal to zero (a NaN is
/// truthy).
pub open spec fn truthy(a: u64) -> bool {
    !float_is_zero(a)
}

/// What a two-argument logic operation does.
pub open spec fn logic_rel(
    v: Seq<Tok>,
    m0: MemV,
    m1: MemV,
    r: Result<Signal, Error>,
    f: spec_fn(u64, u64) -> bool,
) -> bool {
    match spec_binop_args(v, m0) {
        Err(e) => m1 == m0 && (r matches Err(x) && x@ == e),
        Ok(p) => {
            let res = if f(p.0, p.1) {
                float_of_u64(1)
            } else {
                float_of_u64(0)
            };
            match spec_mem_set(m0, 0, res) {
                Ok(m2) => m1 == m2 && r == Ok::<Signal, Error>(Signal::Nil),
                Err(e) => m1 == m0 && (r matches Err(x) && x@ == e),
            }
        },
    }
}

/// Whether both arguments are truthy, into the accumulator.
pub fn and(v: &[Tok], m: &mut Mem) -> (r: Result<Signal, Error>)
    ensures
        logic_rel(v@, old(m)@, final(m)@, r, (|a: u64, b: u64| truthy(a) && truthy(b))),
{
    let p = match parse_arg(v, m) {
        Ok(p) => p,
        Err(e) => {
            return Err(e);
        },
    };
    let cond = !exec_float_is_zero(p.0) && !exec_float_is_zero(p.1);
    crate::op::cmp::store_flag(m, cond)
}

/// Whether either argument is truthy, into the accumulator.
pub fn or(v: &[Tok], m: &mut Mem) -> (r: Result<Signal, Error>)
    ensures
        logic_rel(v@, old(m)@, final(m)@, r, (|a: u64, b: u64| truthy(a) || truthy(b))),
{
    let p = match parse_arg(v, m) {
        Ok(p) => p,
        Err(e) => {
            return Err(e);
        },
    };
    let cond = !exec_float_is_zero(p.0) || !exec_float_is_zero(p.1);
    crate::op::cmp::store_flag(m, cond)
}

/// What negation does: its single argument's untruth, into the
/// accumulator.
pub open spec fn not_rel(v: Seq<Tok>, m0: MemV, m1: MemV, r: Result<Signal, Error>) -> bool {
    if v.len() != 1 {
        m1 == m0 && (r matches Err(x) && x@ == ErrV::WrongArgCount(1, v.len() as int))
    } else {
        match spec_tok_value(v[0], m0) {
            Err(e) => m1 == m0 && (r matches Err(x) && x@ == e),
            Ok(val) => {
                let res = if float_is_zero(val) {
                    float_of_u64(1)
                } else {
                    float_of_u64(0)
                };
                match spec_mem_set(m0, 0, res) {
                    Ok(m2) => m1 == m2 && r == Ok::<Signal, Error>(Signal::Nil),
                    Err(e) => m1 == m0 && (r matches Err(x) && x@ == e),
                }
            },
        }
    }
}

/// Whether the single argument is zero, into the accumulator.
pub fn not(v: &[Tok], m: &mut Mem) -> (r: Result<Signal, Error>)
    ensures
        not_rel(v@, old(m)@, final(m)@, r),
{
    if v.len() != 1 {
        return Err(Error::WrongArgCount(1, v.len()));
    }
    let val = match v[0].get_value(m) {
        Ok(val) => val,
        Err(e) => {
            return Err(e);
        },
    };
    let cond = exec_float_is_zero(val);
    crate::op::cmp::store_flag(m, cond)
}

} // verus!
