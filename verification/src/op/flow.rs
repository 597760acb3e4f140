//! The control-flow operations: unconditional and conditional jumps,
//! label binding, and aliasing.

use vstd::prelude::*;

use crate::error::{ErrV, Error};
use crate::eval::spec_tok_value;
use crate::lex::{spec_kind, spec_kind_name, Tok};
use crate::mem::{spec_label_find, Mem, MemV};
use crate::num::exec_float_is_zero;
use crate::op::logic::truthy;
use crate::op::Signal;

verus! {

/// What the unconditional jump does: its operand names a label whose
/// slot's current line becomes the jump target.
pub open spec fn jmp_rel(v: Seq<Tok>, m0: MemV, m1: MemV, r: Result<Signal, Error>) -> bool {
    if v.len() != 1 {
        m1 == m0 && (r matches Err(x) && x@ == ErrV::WrongArgCount(1, v.len() as int))
    } else {
        match v[0] {
            Tok::Sym(hi) => match spec_label_find(m0, hi.idx as int, hi.sym@) {
                Ok(loc) => m1 == m0 && r == Ok::<Signal, Error>(Signal::Jmp(loc)),
                Err(e) => m1 == m0 && (r matches Err(x) && x@ == e),
            },
            _ => m1 == m0 && (r matches Err(x) && x@ == ErrV::WrongArgType(
                seq!["Sym"@],
                spec_kind_name(spec_kind(v[0])),
            )),
        }
    }
}

/// Jumps to the line the named label currently binds.
pub fn jmp(v: &[Tok], m: &mut Mem) -> (r: Result<Signal, Error>)
    ensures
        jmp_rel(v@, old(m)@, final(m)@, r),
{
    if v.len() != 1 {
        return Err(Error::WrongArgCount(1, v.len()));
    }
    let label = match v[0].get_sym() {
        Ok(hi) => hi,
        Err(e) => {
            return Err(e);
        },
    };
    match m.label_find(label) {
        Ok(loc) => Ok(Signal::Jmp(loc)),
        Err(e) => Err(e),
    }
}

/// What the conditional jump does: the first operand is evaluated in
/// value-of mode; when truthy, the second operand names the label to
/// jump to, else there is no control effect.
pub open spec fn jc_rel(v: Seq<Tok>, m0: MemV, m1: MemV, r: Result<Signal, Error>) -> bool {
    if v.len() != 2 {
        m1 == m0 && (r matches Err(x) && x@ == ErrV::WrongArgCount(2, v.len() as int))
    } else {
        match spec_tok_value(v[0], m0) {
            Err(e) => m1 == m0 && (r matches Err(x) && x@ == e),
            Ok(cond) => if truthy(cond) {
                match v[1] {
                    Tok::Sym(hi) => match spec_label_find(m0, hi.idx as int, hi.sym@) {
                        Ok(loc) => m1 == m0 && r == Ok::<Signal, Error>(Signal::Jmp(loc)),
                        Err(e) => m1 == m0 && (r matches Err(x) && x@ == e),
                    },
                    _ => m1 == m0 && (r matches Err(x) && x@ == ErrV::WrongArgType(
                        seq!["Sym"@],
                        spec_kind_name(spec_kind(v[1])),
                    )),
                }
            } else {
                m1 == m0 && r == Ok::<Signal, Error>(Signal::Nil)
            },
        }
    }
}

/// Jumps to the named label when the condition is truthy.
pub fn jc(v: &[Tok], m: &mut Mem) -> (r: Result<Signal, Error>)
    ensures
        jc_rel(v@, old(m)@, final(m)@, r),
{
    if v.len() != 2 {
        return Err(Error::WrongArgCount(2, v.len()));
    }
    let cond = match v[0].get_value(m) {
        Ok(c) => c,
        Err(e) => {
            return Err(e);
        },
    };
    if !exec_float_is_zero(cond) {
        let label = match v[1].get_sym() {
            Ok(hi) => hi,
            Err(e) => {
                return Err(e);
            },
        };
        match m.label_find(label) {
            Ok(loc) => Ok(Signal::Jmp(loc)),
            Err(e) => Err(e),
        }
    } else {
        Ok(Signal::Nil)
    }
}

/// What label binding does: the operand names a label whose slot will be
/// bound, by the stepping loop, to the line after the current one.
pub open spec fn lbl_rel(v: Seq<Tok>, m0: MemV, m1: MemV, r: Result<Signal, Error>) -> bool {
    if v.len() != 1 {
        m1 == m0 && (r matches Err(x) && x@ == ErrV::WrongArgCount(1, v.len() as int))
    } else {
        match v[0] {
            Tok::Sym(hi) => m1 == m0 && r == Ok::<Signal, Error>(Signal::SetLbl(hi.idx)),
            _ => m1 == m0 && (r matches Err(x) && x@ == ErrV::WrongArgType(
                seq!["Sym"@],
                spec_kind_name(spec_kind(v[0])),
            )),
        }
    }
}

/// Asks the stepping loop to bind the named label to the next line.
pub fn lbl(v: &[Tok], m: &mut Mem) -> (r: Result<Signal, Error>)
    ensures
        lbl_rel(v@, old(m)@, final(m)@, r),
{
    if v.len() != 1 {
        return Err(Error::WrongArgCount(1, v.len()));
    }
    let label = match v[0].get_sym() {
        Ok(hi) => hi,
        Err(e) => {
            return Err(e);
        },
    };
    Ok(Signal::SetLbl(label.idx))
}

/// What aliasing does: the first operand names the alias slot, the
/// second a label; the alias slot will be bound to the line the label
/// currently binds, so it can serve as a changeable jump target.
pub open spec fn als_rel(v: Seq<Tok>, m0: MemV, m1: MemV, r: Result<Signal, Error>) -> bool {
    if v.len() != 2 {
        m1 == m0 && (r matches Err(x) && x@ == ErrV::WrongArgCount(2, v.len() as int))
    } else {
        match v[0] {
            Tok::Sym(alias) => match v[1] {
                Tok::Sym(hi) => match spec_label_find(m0, hi.idx as int, hi.sym@) {
                    Ok(loc) => m1 == m0 && r == Ok::<Signal, Error>(
                        Signal::SetAls(alias.idx, loc),
                    ),
                    Err(e) => m1 == m0 && (r matches Err(x) && x@ == e),
                },
                _ => m1 == m0 && (r matches Err(x) && x@ == ErrV::WrongArgType(
                    seq!["Sym"@],
                    spec_kind_name(spec_kind(v[1])),
                )),
            },
            _ => m1 == m0 && (r matches Err(x) && x@ == ErrV::WrongArgType(
                seq!["Sym"@],
                spec_kind_name(spec_kind(v[0])),
            )),
        }
    }
}

/// Asks the stepping loop to bind the alias slot to the line the named
/// label currently binds.
pub fn als(v: &[Tok], m: &mut Mem) -> (r: Result<Signal, Error>)
    ensures
        als_rel(v@, old(m)@, final(m)@, r),
{
    if v.len() != 2 {
        return Err(Error::WrongArgCount(2, v.len()));
    }
    let alias = match v[0].get_sym() {
        Ok(hi) => hi,
        Err(e) => {
            return Err(e);
        },
    };
    let label = match v[1].get_sym() {
        Ok(hi) => hi,
        Err(e) => {
            return Err(e);
        },
    };
    match m.label_find(label) {
        Ok(loc) => Ok(Signal::SetAls(alias.idx, loc)),
        Err(e) => Err(e),
    }
}

} // verus!
