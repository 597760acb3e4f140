//! The descriptor operations: process exit, open, close, read and write.
//!
//! The open-handle table is the sole authority on which descriptor
//! numbers the machine may use; a read, write or close against an
//! untracked descriptor is rejected before any system call would be
//! attempted.  Each handler performs every machine-side check and memory
//! effect, and hands the actual operating-system work back to the
//! embedding program as a request; the completion functions apply what
//! follows a successful call.

use vstd::prelude::*;

use crate::error::{res_view, ErrV, Error};
use crate::eval::{spec_loc_effect, spec_tok_uint, spec_tok_value};
use crate::lex::Tok;
use crate::mem::{
    idx_incr, spec_idx_incr, spec_mem_at, spec_mem_set, spec_read_ltl, Mem, MemV,
};
use crate::num::{exec_float_of_isize, exec_float_of_u64, float_of_isize, float_of_u64, u8_of_float};
use crate::op::{IoReq, OpenOpts};

verus! {

/// What the exit operation does: its operand's value becomes the process
/// exit request.
pub open spec fn exit_rel(v: Seq<Tok>, m0: MemV, m1: MemV, r: Result<IoReq, Error>) -> bool {
    if v.len() != 1 {
        m1 == m0 && (r matches Err(x) && x@ == ErrV::WrongArgCount(1, v.len() as int))
    } else {
        match spec_tok_value(v[0], m0) {
            Err(e) => m1 == m0 && (r matches Err(x) && x@ == e),
            Ok(val) => m1 == m0 && r == Ok::<IoReq, Error>(IoReq::Exit(val)),
        }
    }
}

/// Asks the embedding program to end the process with the operand's
/// value.
pub fn exit(v: &[Tok], m: &mut Mem) -> (r: Result<IoReq, Error>)
    ensures
        exit_rel(v@, old(m)@, final(m)@, r),
{
    if v.len() != 1 {
        return Err(Error::WrongArgCount(1, v.len()));
    }
    match v[0].get_value(m) {
        Ok(val) => Ok(IoReq::Exit(val)),
        Err(e) => Err(e),
    }
}

/// The open-option encoding read digit by digit, least significant
/// first: read, write, append, truncate, create, create-exclusive.  A
/// digit other than 0 or 1 fails, carrying the not-yet-consumed part of
/// the encoding.
pub open spec fn spec_parse_open(o: u64) -> Result<OpenOpts, ErrV> {
    if o % 10 > 1 {
        Err(ErrV::InvalidOpenOption(o))
    } else {
        let o1 = o / 10;
        if o1 % 10 > 1 {
            Err(ErrV::InvalidOpenOption(o1))
        } else {
            let o2 = o1 / 10;
            if o2 % 10 > 1 {
                Err(ErrV::InvalidOpenOption(o2))
            } else {
                let o3 = o2 / 10;
                if o3 % 10 > 1 {
                    Err(ErrV::InvalidOpenOption(o3))
                } else {
                    let o4 = o3 / 10;
                    if o4 % 10 > 1 {
                        Err(ErrV::InvalidOpenOption(o4))
                    } else {
                        let o5 = o4 / 10;
                        if o5 % 10 > 1 {
                            Err(ErrV::InvalidOpenOption(o5))
                        } else {
                            Ok(
                                OpenOpts {
                                    read: o % 10 == 1,
                                    write: o1 % 10 == 1,
                                    append: o2 % 10 == 1,
                                    truncate: o3 % 10 == 1,
                                    create: o4 % 10 == 1,
                                    create_new: o5 % 10 == 1,
                                },
                            )
                        }
                    }
                }
            }
        }
    }
}

/// Decodes the open-option digits, least significant first.
pub fn parse_open_options(o_val: u64) -> (r: Result<OpenOpts, Error>)
    ensures
        res_view(r) == spec_parse_open(o_val),
{
    let d0 = o_val % 10;
    if d0 > 1 {
        return Err(Error::InvalidOpenOption(o_val));
    }
    let o1 = o_val / 10;
    let d1 = o1 % 10;
    if d1 > 1 {
        return Err(Error::InvalidOpenOption(o1));
    }
    let o2 = o1 / 10;
    let d2 = o2 % 10;
    if d2 > 1 {
        return Err(Error::InvalidOpenOption(o2));
    }
    let o3 = o2 / 10;
    let d3 = o3 % 10;
    if d3 > 1 {
        return Err(Error::InvalidOpenOption(o3));
    }
    let o4 = o3 / 10;
    let d4 = o4 % 10;
    if d4 > 1 {
        return Err(Error::InvalidOpenOption(o4));
    }
    let o5 = o4 / 10;
    let d5 = o5 % 10;
    if d5 > 1 {
        return Err(Error::InvalidOpenOption(o5));
    }
    Ok(
        OpenOpts {
            read: d0 == 1,
            write: d1 == 1,
            append: d2 == 1,
            truncate: d3 == 1,
            create: d4 == 1,
            create_new: d5 == 1,
        },
    )
}

/// What the open operation does on the machine side: the file name comes
/// from a symbol operand directly, or from the string stored at the first
/// operand's location (materializing a literal); the second operand is
/// the option encoding.  The embedding program receives the open request;
/// the descriptor it obtains is recorded by [`open_done`].
pub open spec fn open_rel(v: Seq<Tok>, m0: MemV, m1: MemV, r: Result<IoReq, Error>) -> bool {
    if v.len() != 2 {
        m1 == m0 && (r matches Err(x) && x@ == ErrV::WrongArgCount(2, v.len() as int))
    } else {
        match v[0] {
            Tok::Sym(hi) => open_with_name(v, m0, hi.sym@, m0, m1, r),
            _ => match spec_loc_effect(v[0], m0) {
                Err(e) => m1 == m0 && (r matches Err(x) && x@ == e),
                Ok(p) => match spec_read_ltl(p.0, p.1, false, Seq::empty()) {
                    Err(e) => m1 == p.0 && (r matches Err(x) && x@ == e),
                    Ok(bytes) => if !vstd::utf8::valid_utf8(bytes) {
                        m1 == p.0 && (r matches Err(x) && x@ == ErrV::InvalidUtf8)
                    } else {
                        open_with_name(v, p.0, vstd::utf8::decode_utf8(bytes), p.0, m1, r)
                    },
                },
            },
        }
    }
}

/// The tail of the open operation once the file name is known.
pub open spec fn open_with_name(
    v: Seq<Tok>,
    m: MemV,
    name: Seq<char>,
    mo: MemV,
    m1: MemV,
    r: Result<IoReq, Error>,
) -> bool {
    match spec_tok_uint(v[1], m) {
        Err(e) => m1 == mo && (r matches Err(x) && x@ == e),
        Ok(o) => match spec_parse_open(o) {
            Err(e) => m1 == mo && (r matches Err(x) && x@ == e),
            Ok(opts) => m1 == mo && (r matches Ok(q) && q matches IoReq::Open(n, os) && n@ == name
                && os == opts),
        },
    }
}

/// Prepares an open request: resolves the file name and decodes the
/// option digits.
pub fn open(v: &[Tok], m: &mut Mem) -> (r: Result<IoReq, Error>)
    ensures
        open_rel(v@, old(m)@, final(m)@, r),
{
    if v.len() != 2 {
        return Err(Error::WrongArgCount(2, v.len()));
    }
    let name: String = match &v[0] {
        Tok::Sym(hi) => crate::text::clone_string(&hi.sym),
        _ => {
            let name_ptr = match v[0].get_loc(m) {
                Ok(l) => l,
                Err(e) => {
                    return Err(e);
                },
            };
            match m.read_ltl(name_ptr) {
                Ok(s) => s,
                Err(e) => {
                    return Err(e);
                },
            }
        },
    };
    let o = match v[1].get_uint(m) {
        Ok(o) => o,
        Err(e) => {
            return Err(e);
        },
    };
    match parse_open_options(o) {
        Ok(opts) => Ok(IoReq::Open(name, opts)),
        Err(e) => Err(e),
    }
}

/// Records a descriptor the operating system handed out for an open
/// request: marks it open and stores its number in the accumulator.  A
/// descriptor outside the table is rejected.
pub fn open_done(m: &mut Mem, fd: i32) -> (r: Result<(), Error>)
    ensures
        ({
            if fd < 0 || fd >= old(m)@.fd.len() {
                final(m)@ == old(m)@ && (r matches Err(x) && x@ == ErrV::BadFileDescriptor(
                    fd as int,
                ))
            } else {
                let m2 = MemV { fd: old(m)@.fd.update(fd as int, true), ..old(m)@ };
                match spec_mem_set(m2, 0, float_of_isize(fd as isize)) {
                    Ok(m3) => final(m)@ == m3 && r is Ok,
                    Err(e) => final(m)@ == m2 && (r matches Err(x) && x@ == e),
                }
            }
        }),
{
    if fd < 0 || fd as usize >= m.fd.len() {
        return Err(Error::BadFileDescriptor(fd));
    }
    m.fd[fd as usize] = true;
    proof {
        assert(m@.fd =~= old(m)@.fd.update(fd as int, true));
    }
    match m.mem_set(0, exec_float_of_isize(fd as isize)) {
        Ok(u) => Ok(()),
        Err(e) => Err(e),
    }
}

/// What the close operation does: the operand's exact non-negative
/// integer value, taken as a descriptor number, must be tracked as open;
/// its entry is cleared and the embedding program receives the close
/// request.
pub open spec fn close_rel(v: Seq<Tok>, m0: MemV, m1: MemV, r: Result<IoReq, Error>) -> bool {
    if v.len() != 1 {
        m1 == m0 && (r matches Err(x) && x@ == ErrV::WrongArgCount(1, v.len() as int))
    } else {
        match spec_tok_uint(v[0], m0) {
            Err(e) => m1 == m0 && (r matches Err(x) && x@ == e),
            Ok(u) => {
                let fd = u as i32;
                if fd < 0 || fd >= m0.fd.len() || !m0.fd[fd as int] {
                    m1 == m0 && (r matches Err(x) && x@ == ErrV::BadFileDescriptor(fd as int))
                } else {
                    m1 == (MemV { fd: m0.fd.update(fd as int, false), ..m0 }) && r == Ok::<
                        IoReq,
                        Error,
                    >(IoReq::Close(fd))
                }
            },
        }
    }
}

/// Clears the descriptor's entry and asks the embedding program to close
/// it.
pub fn close(v: &[Tok], m: &mut Mem) -> (r: Result<IoReq, Error>)
    ensures
        close_rel(v@, old(m)@, final(m)@, r),
{
    if v.len() != 1 {
        return Err(Error::WrongArgCount(1, v.len()));
    }
    let u = match v[0].get_uint(m) {
        Ok(u) => u,
        Err(e) => {
            return Err(e);
        },
    };
    let fd = #[verifier::truncate] (u as i32);
    if fd < 0 || fd as usize >= m.fd.len() {
        return Err(Error::BadFileDescriptor(fd));
    }
    if !m.fd[fd as usize] {
        return Err(Error::BadFileDescriptor(fd));
    }
    m.fd[fd as usize] = false;
    proof {
        assert(m@.fd =~= old(m)@.fd.update(fd as int, false));
    }
    Ok(IoReq::Close(fd))
}


/// The bytes of `k` slots walked from `src` away from zero, each slot
/// truncated to a byte, or the first out-of-bounds error.
pub open spec fn spec_collect_bytes(m: MemV, src: isize, k: u64, acc: Seq<u8>) -> Result<
    Seq<u8>,
    ErrV,
>
    decreases k,
{
    if k == 0 {
        Ok(acc)
    } else {
        match spec_mem_at(m, src) {
            Err(e) => Err(e),
            Ok(c) => spec_collect_bytes(
                m,
                spec_idx_incr(src, 1),
                (k - 1) as u64,
                acc.push(u8_of_float(c)),
            ),
        }
    }
}

/// What the write operation does on the machine side: the descriptor
/// must be tracked as open, the source location is computed
/// (materializing a string literal), and the given number of slots is
/// collected as bytes for the embedding program to write.  The byte
/// count is stored in the accumulator by [`write_done`] once the call
/// succeeded.
pub open spec fn write_rel(v: Seq<Tok>, m0: MemV, m1: MemV, r: Result<IoReq, Error>) -> bool {
    if v.len() != 3 {
        m1 == m0 && (r matches Err(x) && x@ == ErrV::WrongArgCount(3, v.len() as int))
    } else {
        match spec_tok_uint(v[0], m0) {
            Err(e) => m1 == m0 && (r matches Err(x) && x@ == e),
            Ok(u) => {
                let fd = u as i32;
                if fd < 0 || fd >= m0.fd.len() || !m0.fd[fd as int] {
                    m1 == m0 && (r matches Err(x) && x@ == ErrV::BadFileDescriptor(fd as int))
                } else {
                    match spec_loc_effect(v[1], m0) {
                        Err(e) => m1 == m0 && (r matches Err(x) && x@ == e),
                        Ok(p) => match spec_tok_uint(v[2], p.0) {
                            Err(e) => m1 == p.0 && (r matches Err(x) && x@ == e),
                            Ok(size) => match spec_collect_bytes(p.0, p.1, size, Seq::empty()) {
                                Err(e) => m1 == p.0 && (r matches Err(x) && x@ == e),
                                Ok(bytes) => m1 == p.0 && (r matches Ok(q) && q matches
                                    IoReq::Write(f2, bv) && f2 == fd && bv@ == bytes),
                            },
                        },
                    }
                }
            },
        }
    }
}

/// Prepares a write request: checks the descriptor and collects the
/// slots to write as bytes.
#[verifier::loop_isolation(false)]
pub fn write(v: &[Tok], m: &mut Mem) -> (r: Result<IoReq, Error>)
    ensures
        write_rel(v@, old(m)@, final(m)@, r),
{
    if v.len() != 3 {
        return Err(Error::WrongArgCount(3, v.len()));
    }
    let u = match v[0].get_uint(m) {
        Ok(u) => u,
        Err(e) => {
            return Err(e);
        },
    };
    let fd = #[verifier::truncate] (u as i32);
    if fd < 0 || fd as usize >= m.fd.len() {
        return Err(Error::BadFileDescriptor(fd));
    }
    if !m.fd[fd as usize] {
        return Err(Error::BadFileDescriptor(fd));
    }
    let mut src_idx = match v[1].get_loc(m) {
        Ok(l) => l,
        Err(e) => {
            return Err(e);
        },
    };
    let size = match v[2].get_uint(m) {
        Ok(s) => s,
        Err(e) => {
            return Err(e);
        },
    };
    let ghost full = spec_collect_bytes(m@, src_idx, size, Seq::empty());
    let mut bytes: Vec<u8> = Vec::new();
    let mut k: u64 = 0;
    while k < size
        invariant
            k <= size,
            full == spec_collect_bytes(m@, src_idx, (size - k) as u64, bytes@),
        decreases size - k,
    {
        let c = match m.mem_at(src_idx) {
            Ok(c) => c,
            Err(e) => {
                return Err(e);
            },
        };
        bytes.push(crate::num::exec_u8_of_float(c));
        idx_incr(&mut src_idx, 1);
        k = k + 1;
    }
    Ok(IoReq::Write(fd, bytes))
}

/// Records a completed write: the byte count written goes to the
/// accumulator.
pub fn write_done(m: &mut Mem, size: u64) -> (r: Result<(), Error>)
    ensures
        match spec_mem_set(old(m)@, 0, float_of_u64(size)) {
            Ok(m2) => final(m)@ == m2 && r is Ok,
            Err(e) => final(m)@ == old(m)@ && (r matches Err(x) && x@ == e),
        },
{
    match m.mem_set(0, exec_float_of_u64(size)) {
        Ok(u) => Ok(()),
        Err(e) => Err(e),
    }
}

/// What the read operation does on the machine side: the descriptor must
/// be tracked as open, the destination location is computed, and the
/// request carries descriptor, destination and size for the embedding
/// program; [`read_done`] stores what was read.
pub open spec fn read_rel(v: Seq<Tok>, m0: MemV, m1: MemV, r: Result<IoReq, Error>) -> bool {
    if v.len() != 3 {
        m1 == m0 && (r matches Err(x) && x@ == ErrV::WrongArgCount(3, v.len() as int))
    } else {
        match spec_tok_uint(v[0], m0) {
            Err(e) => m1 == m0 && (r matches Err(x) && x@ == e),
            Ok(u) => {
                let fd = u as i32;
                if fd < 0 || fd >= m0.fd.len() || !m0.fd[fd as int] {
                    m1 == m0 && (r matches Err(x) && x@ == ErrV::BadFileDescriptor(fd as int))
                } else {
                    match spec_loc_effect(v[1], m0) {
                        Err(e) => m1 == m0 && (r matches Err(x) && x@ == e),
                        Ok(p) => match spec_tok_uint(v[2], p.0) {
                            Err(e) => m1 == p.0 && (r matches Err(x) && x@ == e),
                            Ok(size) => m1 == p.0 && r == Ok::<IoReq, Error>(
                                IoReq::Read(fd, p.1, size),
                            ),
                        },
                    }
                }
            },
        }
    }
}

/// Prepares a read request: checks the descriptor and resolves the
/// destination location and size.
pub fn read(v: &[Tok], m: &mut Mem) -> (r: Result<IoReq, Error>)
    ensures
        read_rel(v@, old(m)@, final(m)@, r),
{
    if v.len() != 3 {
        return Err(Error::WrongArgCount(3, v.len()));
    }
    let u = match v[0].get_uint(m) {
        Ok(u) => u,
        Err(e) => {
            return Err(e);
        },
    };
    let fd = #[verifier::truncate] (u as i32);
    if fd < 0 || fd as usize >= m.fd.len() {
        return Err(Error::BadFileDescriptor(fd));
    }
    if !m.fd[fd as usize] {
        return Err(Error::BadFileDescriptor(fd));
    }
    let des_idx = match v[1].get_loc(m) {
        Ok(l) => l,
        Err(e) => {
            return Err(e);
        },
    };
    let size = match v[2].get_uint(m) {
        Ok(s) => s,
        Err(e) => {
            return Err(e);
        },
    };
    Ok(IoReq::Read(fd, des_idx, size))
}

/// What storing a completed read does: the buffer's bytes go to the
/// destination, slot by slot, until a zero byte or the requested size,
/// which is marked by a zero slot with the count stored in the
/// accumulator; a read that fills the whole buffer stores no terminator.
/// Slots written before a failing store keep their values.
pub open spec fn spec_read_apply(m: MemV, des: isize, size: usize, buf: Seq<u8>, i: int) -> (
    MemV,
    Option<ErrV>,
)
    decreases 1024 - i,
{
    if i < 0 || i >= 1024 {
        (m, None)
    } else {
        let c = buf[i];
        let addr = spec_idx_plain_add(des, i);
        if c == 0 || i == size {
            match spec_mem_set(m, addr, 0u64) {
                Err(e) => (m, Some(e)),
                Ok(m2) => match spec_mem_set(m2, 0, float_of_u64(i as u64)) {
                    Err(e) => (m2, Some(e)),
                    Ok(m3) => (m3, None),
                },
            }
        } else {
            match spec_mem_set(m, addr, float_of_u64(c as u64)) {
                Err(e) => (m, Some(e)),
                Ok(m2) => spec_read_apply(m2, des, size, buf, i + 1),
            }
        }
    }
}

/// The destination address offset by the byte index, with the wrapping
/// of machine addition (offsets move toward positive regardless of the
/// address's sign).
pub open spec fn spec_idx_plain_add(des: isize, i: int) -> isize {
    vstd::wrapping::isize_specs::wrapping_add(des, i as isize)
}

/// Stores a completed read: `buf` is the full 1024-byte buffer the
/// embedding program filled (zeroed beyond what was read), `size` the
/// requested count.
#[verifier::loop_isolation(false)]
pub fn read_done(m: &mut Mem, des: isize, size: u64, buf: &[u8]) -> (r: Result<(), Error>)
    requires
        buf@.len() == 1024,
    ensures
        ({
            let out = spec_read_apply(old(m)@, des, (size as usize), buf@, 0);
            final(m)@ == out.0 && (match out.1 {
                None => r is Ok,
                Some(e) => r matches Err(x) && x@ == e,
            })
        }),
{
    let size_us = #[verifier::truncate] (size as usize);
    let ghost full = spec_read_apply(m@, des, size_us, buf@, 0);
    let mut i: usize = 0;
    while i < 1024
        invariant
            i <= 1024,
            full == spec_read_apply(m@, des, size_us, buf@, i as int),
        decreases 1024 - i,
    {
        let c = buf[i];
        let addr = des.wrapping_add(i as isize);
        if c == 0 || i == size_us {
            match m.mem_set(addr, 0u64) {
                Ok(u) => (),
                Err(e) => {
                    return Err(e);
                },
            }
            match m.mem_set(0, exec_float_of_u64(i as u64)) {
                Ok(u) => {
                    return Ok(());
                },
                Err(e) => {
                    return Err(e);
                },
            }
        }
        match m.mem_set(addr, exec_float_of_u64(c as u64)) {
            Ok(u) => (),
            Err(e) => {
                return Err(e);
            },
        }
        i = i + 1;
    }
    Ok(())
}

} // verus!
