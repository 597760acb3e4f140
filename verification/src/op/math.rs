//! The arithmetic operations: both arguments are evaluated in value-of
//! mode, the rounded result is stored in the accumulator slot.

use vstd::prelude::*;

use crate::error::{res_view, ErrV, Error};
use crate::eval::spec_tok_value;
use crate::lex::Tok;
use crate::mem::{spec_mem_set, Mem, MemV};
use crate::num::{
    exec_float_add, exec_float_div, exec_float_mul, exec_float_rem, exec_float_sub, float_add,
    float_div, float_mul, float_rem, float_sub,
};
use crate::op::Signal;

verus! {

/// The two numeric arguments of a binary operation, or the first error:
/// exactly two operands, each evaluated in value-of mode.
pub open spec fn spec_binop_args(v: Seq<Tok>, m: MemV) -> Result<(u64, u64), ErrV> {
    if v.len() != 2 {
        Err(ErrV::WrongArgCount(2, v.len() as int))
    } else {
        match spec_tok_value(v[0], m) {
            Err(e) => Err(e),
            Ok(l) => match spec_tok_value(v[1], m) {
                Err(e) => Err(e),
                Ok(rr) => Ok((l, rr)),
            },
        }
    }
}

/// What a two-argument numeric operation does: evaluate both arguments,
/// apply `f`, store the result in the accumulator.
pub open spec fn math_rel(
    v: Seq<Tok>,
    m0: MemV,
    m1: MemV,
    r: Result<Signal, Error>,
    f: spec_fn(u64, u64) -> u64,
) -> bool {
    match spec_binop_args(v, m0) {
        Err(e) => m1 == m0 && (r matches Err(x) && x@ == e),
        Ok(p) => match spec_mem_set(m0, 0, f(p.0, p.1)) {
            Ok(m2) => m1 == m2 && r == Ok::<Signal, Error>(Signal::Nil),
            Err(e) => m1 == m0 && (r matches Err(x) && x@ == e),
        },
    }
}

/// Checks the argument count and evaluates both operands.
pub(crate) fn parse_arg(v: &[Tok], m: &Mem) -> (r: Result<(u64, u64), Error>)
    ensures
        res_view(r) == spec_binop_args(v@, m@),
{
    if v.len() != 2 {
        return Err(Error::WrongArgCount(2, v.len()));
    }
    let l = match v[0].get_value(m) {
        Ok(l) => l,
        Err(e) => {
            return Err(e);
        },
    };
    let rr = match v[1].get_value(m) {
        Ok(rr) => rr,
        Err(e) => {
            return Err(e);
        },
    };
    Ok((l, rr))
}

/// The sum of the two arguments, into the accumulator.
pub fn add(v: &[Tok], m: &mut Mem) -> (r: Result<Signal, Error>)
    ensures
        math_rel(v@, old(m)@, final(m)@, r, (|a: u64, b: u64| float_add(a, b))),
{
    let p = match parse_arg(v, m) {
        Ok(p) => p,
        Err(e) => {
            return Err(e);
        },
    };
    let res = exec_float_add(p.0, p.1);
    match m.mem_set(0, res) {
        Ok(u) => Ok(Signal::Nil),
        Err(e) => Err(e),
    }
}

/// The difference of the two arguments, into the accumulator.
pub fn sub(v: &[Tok], m: &mut Mem) -> (r: Result<Signal, Error>)
    ensures
        math_rel(v@, old(m)@, final(m)@, r, (|a: u64, b: u64| float_sub(a, b))),
{
    let p = match parse_arg(v, m) {
        Ok(p) => p,
        Err(e) => {
            return Err(e);
        },
    };
    let res = exec_float_sub(p.0, p.1);
    match m.mem_set(0, res) {
        Ok(u) => Ok(Signal::Nil),
        Err(e) => Err(e),
    }
}

/// The product of the two arguments, into the accumulator.
pub fn mul(v: &[Tok], m: &mut Mem) -> (r: Result<Signal, Error>)
    ensures
        math_rel(v@, old(m)@, final(m)@, r, (|a: u64, b: u64| float_mul(a, b))),
{
    let p = match parse_arg(v, m) {
        Ok(p) => p,
        Err(e) => {
            return Err(e);
        },
    };
    let res = exec_float_mul(p.0, p.1);
    match m.mem_set(0, res) {
        Ok(u) => Ok(Signal::Nil),
        Err(e) => Err(e),
    }
}

/// The quotient of the two arguments, into the accumulator.
pub fn div(v: &[Tok], m: &mut Mem) -> (r: Result<Signal, Error>)
    ensures
        math_rel(v@, old(m)@, final(m)@, r, (|a: u64, b: u64| float_div(a, b))),
{
    let p = match parse_arg(v, m) {
        Ok(p) => p,
        Err(e) => {
            return Err(e);
        },
    };
    let res = exec_float_div(p.0, p.1);
    match m.mem_set(0, res) {
        Ok(u) => Ok(Signal::Nil),
        Err(e) => Err(e),
    }
}

/// The remainder of the two arguments, into the accumulator.
pub fn modulo(v: &[Tok], m: &mut Mem) -> (r: Result<Signal, Error>)
    ensures
        math_rel(v@, old(m)@, final(m)@, r, (|a: u64, b: u64| float_rem(a, b))),
{
    let p = match parse_arg(v, m) {
        Ok(p) => p,
        Err(e) => {
            return Err(e);
        },
    };
    let res = exec_float_rem(p.0, p.1);
    match m.mem_set(0, res) {
        Ok(u) => Ok(Signal::Nil),
        Err(e) => Err(e),
    }
}

} // verus!
