//! The no-operation handler.

use vstd::prelude::*;

use crate::error::Error;
use crate::mem::Mem;
use crate::op::Signal;

verus! {

/// Does nothing; arguments are ignored.
pub fn nop(v: &[crate::lex::Tok], m: &mut Mem) -> (r: Result<Signal, Error>)
    ensures
        final(m)@ == old(m)@,
        r == Ok::<Signal, Error>(Signal::Nil),
{
    Ok(Signal::Nil)
}

} // verus!
