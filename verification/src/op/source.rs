//! The nested-load handler: names another program file to load and run
//! before the next line executes.

use vstd::prelude::*;

use crate::error::{ErrV, Error};
use crate::lex::{spec_kind, spec_kind_name, Tok};
use crate::mem::{Mem, MemV};
use crate::op::Signal;

verus! {

/// What the nested-load operation does: its single argument must be a
/// symbol; the signal carries that name.
pub open spec fn src_rel(v: Seq<Tok>, m0: MemV, m1: MemV, r: Result<Signal, Error>) -> bool {
    if v.len() != 1 {
        m1 == m0 && (r matches Err(x) && x@ == ErrV::WrongArgCount(1, v.len() as int))
    } else {
        match v[0] {
            Tok::Sym(hi) => m1 == m0 && (r matches Ok(s) && s matches Signal::Src(n) && n@
                == hi.sym@),
            _ => m1 == m0 && (r matches Err(x) && x@ == ErrV::WrongArgType(
                seq!["Sym"@],
                spec_kind_name(spec_kind(v[0])),
            )),
        }
    }
}

/// Names another program to load and fully run as a nested unit.
pub fn src(v: &[Tok], m: &mut Mem) -> (r: Result<Signal, Error>)
    ensures
        src_rel(v@, old(m)@, final(m)@, r),
{
    if v.len() != 1 {
        return Err(Error::WrongArgCount(1, v.len()));
    }
    let name = match v[0].get_sym() {
        Ok(hi) => hi,
        Err(e) => {
            return Err(e);
        },
    };
    Ok(Signal::Src(crate::text::clone_string(&name.sym)))
}

} // verus!
