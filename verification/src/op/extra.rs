//! The formatted-print operation.

use vstd::prelude::*;

use crate::error::{ErrV, Error};
use crate::eval::spec_tok_value;
use crate::lex::Tok;
use crate::mem::{Mem, MemV};
use crate::op::IoReq;

verus! {

/// What the formatted print does on the machine side: the descriptor
/// must be tracked as open; the embedding program renders the second
/// operand's value to it.
pub open spec fn print_num_rel(v: Seq<Tok>, m0: MemV, m1: MemV, r: Result<IoReq, Error>) -> bool {
    if v.len() != 2 {
        m1 == m0 && (r matches Err(x) && x@ == ErrV::WrongArgCount(2, v.len() as int))
    } else {
        match crate::eval::spec_tok_uint(v[0], m0) {
            Err(e) => m1 == m0 && (r matches Err(x) && x@ == e),
            Ok(u) => {
                let fd = u as i32;
                if fd < 0 || fd >= m0.fd.len() || !m0.fd[fd as int] {
                    m1 == m0 && (r matches Err(x) && x@ == ErrV::BadFileDescriptor(fd as int))
                } else {
                    match spec_tok_value(v[1], m0) {
                        Err(e) => m1 == m0 && (r matches Err(x) && x@ == e),
                        Ok(val) => m1 == m0 && r == Ok::<IoReq, Error>(IoReq::PrintNum(fd, val)),
                    }
                }
            },
        }
    }
}

/// Asks the embedding program to render the value to the descriptor.
pub fn print_num(v: &[Tok], m: &mut Mem) -> (r: Result<IoReq, Error>)
    ensures
        print_num_rel(v@, old(m)@, final(m)@, r),
{
    if v.len() != 2 {
        return Err(Error::WrongArgCount(2, v.len()));
    }
    let u = match v[0].get_uint(m) {
        Ok(u) => u,
        Err(e) => {
            return Err(e);
        },
    };
    let fd = #[verifier::truncate] (u as i32);
    if fd < 0 || fd as usize >= m.fd.len() {
        return Err(Error::BadFileDescriptor(fd));
    }
    if !m.fd[fd as usize] {
        return Err(Error::BadFileDescriptor(fd));
    }
    let val = match v[1].get_value(m) {
        Ok(val) => val,
        Err(e) => {
            return Err(e);
        },
    };
    Ok(IoReq::PrintNum(fd, val))
}

} // verus!
