//! The comparison operations: both arguments are evaluated in value-of
//! mode and the truth of the comparison is stored in the accumulator as
//! one or zero.  Comparisons with a NaN are false, except inequality.

use vstd::prelude::*;

use crate::error::Error;
use crate::lex::Tok;
use crate::mem::{spec_mem_set, Mem, MemV};
use crate::num::{exec_float_cmp, float_cmp, float_eq, float_of_u64};
use crate::op::math::{parse_arg, spec_binop_args};
use crate::op::Signal;

verus! {

/// What a comparison operation does: evaluate both arguments, store one
/// in the accumulator when `f` holds of them and zero otherwise.
pub open spec fn cmp_rel(
    v: Seq<Tok>,
    m0: MemV,
    m1: MemV,
    r: Result<Signal, Error>,
    f: spec_fn(u64, u64) -> bool,
) -> bool {
    match spec_binop_args(v, m0) {
        Err(e) => m1 == m0 && (r matches Err(x) && x@ == e),
        Ok(p) => {
            let res = if f(p.0, p.1) {
                float_of_u64(1)
            } else {
                float_of_u64(0)
            };
            match spec_mem_set(m0, 0, res) {
                Ok(m2) => m1 == m2 && r == Ok::<Signal, Error>(Signal::Nil),
                Err(e) => m1 == m0 && (r matches Err(x) && x@ == e),
            }
        },
    }
}

/// Stores a boolean outcome in the accumulator as one or zero.
pub(crate) fn store_flag(m: &mut Mem, cond: bool) -> (r: Result<Signal, Error>)
    ensures
        ({
            let res = if cond {
                float_of_u64(1)
            } else {
                float_of_u64(0)
            };
            match spec_mem_set(old(m)@, 0, res) {
                Ok(m2) => final(m)@ == m2 && r == Ok::<Signal, Error>(Signal::Nil),
                Err(e) => final(m)@ == old(m)@ && (r matches Err(x) && x@ == e),
            }
        }),
{
    let res = if cond {
        crate::num::exec_float_of_u64(1)
    } else {
        crate::num::exec_float_of_u64(0)
    };
    match m.mem_set(0, res) {
        Ok(u) => Ok(Signal::Nil),
        Err(e) => Err(e),
    }
}

/// Whether the two arguments compare equal, into the accumulator.
pub fn eq(v: &[Tok], m: &mut Mem) -> (r: Result<Signal, Error>)
    ensures
        cmp_rel(v@, old(m)@, final(m)@, r, (|a: u64, b: u64| float_eq(a, b))),
{
    let p = match parse_arg(v, m) {
        Ok(p) => p,
        Err(e) => {
            return Err(e);
        },
    };
    let cond = crate::num::exec_float_eq(p.0, p.1);
    store_flag(m, cond)
}

/// Whether the two arguments compare unequal, into the accumulator.
pub fn ne(v: &[Tok], m: &mut Mem) -> (r: Result<Signal, Error>)
    ensures
        cmp_rel(v@, old(m)@, final(m)@, r, (|a: u64, b: u64| !float_eq(a, b))),
{
    let p = match parse_arg(v, m) {
        Ok(p) => p,
        Err(e) => {
            return Err(e);
        },
    };
    let cond = !crate::num::exec_float_eq(p.0, p.1);
    store_flag(m, cond)
}

/// Whether the first argument is the greater, into the accumulator.
pub fn gt(v: &[Tok], m: &mut Mem) -> (r: Result<Signal, Error>)
    ensures
        cmp_rel(v@, old(m)@, final(m)@, r, (|a: u64, b: u64| float_cmp(a, b) == Some(1i8))),
{
    let p = match parse_arg(v, m) {
        Ok(p) => p,
        Err(e) => {
            return Err(e);
        },
    };
    let cond = match exec_float_cmp(p.0, p.1) {
        Some(c) => c == 1,
        None => false,
    };
    store_flag(m, cond)
}

/// Whether the first argument is the lesser, into the accumulator.
pub fn lt(v: &[Tok], m: &mut Mem) -> (r: Result<Signal, Error>)
    ensures
        cmp_rel(v@, old(m)@, final(m)@, r, (|a: u64, b: u64| float_cmp(a, b) == Some(-1i8))),
{
    let p = match parse_arg(v, m) {
        Ok(p) => p,
        Err(e) => {
            return Err(e);
        },
    };
    let cond = match exec_float_cmp(p.0, p.1) {
        Some(c) => c == -1,
        None => false,
    };
    store_flag(m, cond)
}

} // verus!
