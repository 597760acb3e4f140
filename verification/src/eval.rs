//! Operand evaluation: the two contracts handlers choose between.
//!
//! *Value-of* dereferences fully: a literal yields itself, a location
//! yields the value stored there (following indirection chains, where
//! every intermediate value must be an exact integer), a variable yields
//! the value at the address it holds.  *Location-of* computes an address
//! without reading it; for a string literal it materializes the literal
//! into negative memory and returns its (negative) address.  Writing
//! through a negative location is rejected.

use vstd::prelude::*;

use crate::error::{res_view, ErrV, Error};
use crate::lex::{spec_kind, spec_kind_name, HashIdx, Idx, Tok};
use crate::mem::{
    spec_mem_at, spec_mem_set, spec_var_find, Mem, MemV,
};
use crate::num::{
    exec_float_is_int, exec_float_is_uint, exec_float_of_u64, exec_isize_of_float,
    exec_u64_of_float, float_is_int, float_is_uint, float_of_u64, isize_of_float, u64_of_float,
    u8_of_float,
};
use crate::text::string_to_bytes;
use vstd::utf8::encode_utf8;

verus! {

/// The value an index expression denotes: the value stored at the
/// location it resolves to.  Every intermediate value of an indirection
/// chain must be an exact integer address.
pub open spec fn spec_idx_value(idx: Idx, m: MemV) -> Result<u64, ErrV>
    decreases idx,
{
    match idx {
        Idx::Num(n) => spec_mem_at(m, n),
        Idx::Var(hi) => match spec_var_find(m, hi.idx as int, hi.sym@) {
            Ok(a) => spec_mem_at(m, a),
            Err(e) => Err(e),
        },
        Idx::Idx(inner) => match spec_idx_value(*inner, m) {
            Ok(d) => if !float_is_int(d) {
                Err(ErrV::NotInterger(d))
            } else {
                spec_mem_at(m, isize_of_float(d))
            },
            Err(e) => Err(e),
        },
    }
}

/// The location an index expression denotes, without reading it.
pub open spec fn spec_idx_loc(idx: Idx, m: MemV) -> Result<isize, ErrV>
    decreases idx,
{
    match idx {
        Idx::Num(n) => Ok(n),
        Idx::Var(hi) => spec_var_find(m, hi.idx as int, hi.sym@),
        Idx::Idx(inner) => match spec_idx_loc(*inner, m) {
            Ok(l) => match spec_mem_at(m, l) {
                Ok(d) => if !float_is_int(d) {
                    Err(ErrV::NotInterger(d))
                } else {
                    Ok(isize_of_float(d))
                },
                Err(e) => Err(e),
            },
            Err(e) => Err(e),
        },
    }
}

/// The value a token denotes in value-of mode.
pub open spec fn spec_tok_value(t: Tok, m: MemV) -> Result<u64, ErrV> {
    match t {
        Tok::Num(f) => Ok(f),
        Tok::Idx(idx) => spec_idx_value(idx, m),
        Tok::Var(hi) => match spec_var_find(m, hi.idx as int, hi.sym@) {
            Ok(a) => spec_mem_at(m, a),
            Err(e) => Err(e),
        },
        _ => Err(
            ErrV::WrongArgType(seq!["Num"@, "Idx"@, "Var"@], spec_kind_name(spec_kind(t))),
        ),
    }
}

/// The value a token denotes, required to be an exact non-negative
/// integer.
pub open spec fn spec_tok_uint(t: Tok, m: MemV) -> Result<u64, ErrV> {
    match spec_tok_value(t, m) {
        Ok(f) => if !float_is_uint(f) {
            Err(ErrV::NegativeOrNotInterger(f))
        } else {
            Ok(u64_of_float(f))
        },
        Err(e) => Err(e),
    }
}

/// The value a token denotes, required to be an exact integer.
pub open spec fn spec_tok_int(t: Tok, m: MemV) -> Result<isize, ErrV> {
    match spec_tok_value(t, m) {
        Ok(f) => if !float_is_int(f) {
            Err(ErrV::NotInterger(f))
        } else {
            Ok(isize_of_float(f))
        },
        Err(e) => Err(e),
    }
}

/// The slots a string literal occupies when materialized: one per byte of
/// its UTF-8 encoding, each holding the byte's value as a double.
pub open spec fn lit_slots(s: Seq<char>) -> Seq<u64> {
    Seq::new(encode_utf8(s).len(), |j: int| float_of_u64(encode_utf8(s)[j] as u64))
}

/// The slots of a materialized literal keep their bytes: each slot
/// truncates back to the byte it encodes, and a nonzero byte's slot is
/// not a zero (so a terminator scan cannot stop inside the literal).
pub open spec fn lit_slots_faithful(s: Seq<char>) -> bool {
    forall|j: int|
        0 <= j < encode_utf8(s).len() ==> {
            &&& u8_of_float(#[trigger] lit_slots(s)[j]) == encode_utf8(s)[j]
            &&& (encode_utf8(s)[j] != 0 ==> !crate::num::float_is_zero(lit_slots(s)[j]))
        }
}

/// What location-of does for a token: for an index expression or a
/// variable it computes the address and leaves memory alone; for a string
/// literal it appends the literal's slots and a two-zero terminator to
/// negative memory and yields the negative address of the first byte.
/// Other tokens are the wrong kind.  A literal whose start would lie
/// beyond the addressable range is rejected as an invalid access.
pub open spec fn spec_loc_effect(t: Tok, m: MemV) -> Result<(MemV, isize), ErrV> {
    match t {
        Tok::Idx(idx) => match spec_idx_loc(idx, m) {
            Ok(l) => Ok((m, l)),
            Err(e) => Err(e),
        },
        Tok::Var(hi) => match spec_var_find(m, hi.idx as int, hi.sym@) {
            Ok(l) => Ok((m, l)),
            Err(e) => Err(e),
        },
        Tok::Ltl(s) => if m.nmem.len() > isize::MAX {
            Err(ErrV::InvalidMemAccess(isize::MIN as int))
        } else {
            Ok(
                (
                    MemV { nmem: m.nmem + lit_slots(s@) + seq![0u64, 0u64], ..m },
                    (-(m.nmem.len() as int)) as isize,
                ),
            )
        },
        _ => Err(
            ErrV::WrongArgType(seq!["Idx"@, "Var"@, "Ltl"@], spec_kind_name(spec_kind(t))),
        ),
    }
}

/// What writing a value through a token's location does: the location is
/// computed first (materializing a string literal), a negative location
/// refuses the write, and otherwise the addressed slot is updated.
pub open spec fn spec_write_value(t: Tok, m: MemV, v: u64) -> Result<MemV, ErrV> {
    match spec_loc_effect(t, m) {
        Err(e) => Err(e),
        Ok((m1, l)) => if l < 0 {
            Err(ErrV::WriteToNMem(l as int))
        } else {
            spec_mem_set(m1, l, v)
        },
    }
}

/// Evaluates an index expression in value-of mode.
fn idx_value(idx: &Idx, m: &Mem) -> (r: Result<u64, Error>)
    ensures
        res_view(r) == spec_idx_value(*idx, m@),
    decreases *idx,
{
    match idx {
        Idx::Num(n) => m.mem_at(*n),
        Idx::Var(hi) => match m.var_find(hi) {
            Ok(a) => m.mem_at(a),
            Err(e) => Err(e),
        },
        Idx::Idx(inner) => match idx_value(inner, m) {
            Ok(d) => {
                if !exec_float_is_int(d) {
                    Err(Error::NotInterger(d))
                } else {
                    m.mem_at(exec_isize_of_float(d))
                }
            },
            Err(e) => Err(e),
        },
    }
}

/// Evaluates an index expression in location-of mode.
fn idx_loc(idx: &Idx, m: &Mem) -> (r: Result<isize, Error>)
    ensures
        res_view(r) == spec_idx_loc(*idx, m@),
    decreases *idx,
{
    match idx {
        Idx::Num(n) => Ok(*n),
        Idx::Var(hi) => m.var_find(hi),
        Idx::Idx(inner) => match idx_loc(inner, m) {
            Ok(l) => match m.mem_at(l) {
                Ok(d) => {
                    if !exec_float_is_int(d) {
                        Err(Error::NotInterger(d))
                    } else {
                        Ok(exec_isize_of_float(d))
                    }
                },
                Err(e) => Err(e),
            },
            Err(e) => Err(e),
        },
    }
}

impl Tok {
    /// The token's value in value-of mode: a numeric literal yields
    /// itself, a location yields the value stored there, a variable the
    /// value at its current address.
    pub fn get_value(&self, m: &Mem) -> (r: Result<u64, Error>)
        ensures
            res_view(r) == spec_tok_value(*self, m@),
    {
        match self {
            Tok::Num(f) => Ok(*f),
            Tok::Idx(idx) => idx_value(idx, m),
            Tok::Var(hi) => match m.var_find(hi) {
                Ok(a) => m.mem_at(a),
                Err(e) => Err(e),
            },
            _ => {
                let kinds: Vec<&'static str> = vec!["Num", "Idx", "Var"];
                proof {
                    assert(Seq::new(kinds@.len(), |i: int| kinds@[i]@) =~= seq![
                        "Num"@,
                        "Idx"@,
                        "Var"@,
                    ]);
                }
                Err(Error::WrongArgType(kinds, self.to_type_str()))
            },
        }
    }

    /// The token's value, required to be an exact non-negative integer.
    pub fn get_uint(&self, m: &Mem) -> (r: Result<u64, Error>)
        ensures
            res_view(r) == spec_tok_uint(*self, m@),
    {
        let f = match self.get_value(m) {
            Ok(f) => f,
            Err(e) => {
                return Err(e);
            },
        };
        if !exec_float_is_uint(f) {
            Err(Error::NegativeOrNotInterger(f))
        } else {
            Ok(exec_u64_of_float(f))
        }
    }

    /// The token's value, required to be an exact integer.
    pub fn get_int(&self, m: &Mem) -> (r: Result<isize, Error>)
        ensures
            res_view(r) == spec_tok_int(*self, m@),
    {
        let f = match self.get_value(m) {
            Ok(f) => f,
            Err(e) => {
                return Err(e);
            },
        };
        if !exec_float_is_int(f) {
            Err(Error::NotInterger(f))
        } else {
            Ok(exec_isize_of_float(f))
        }
    }

    /// The token's location in location-of mode; a string literal is
    /// materialized into negative memory on the way.
    pub fn get_loc(&self, m: &mut Mem) -> (r: Result<isize, Error>)
        ensures
            match spec_loc_effect(*self, old(m)@) {
                Ok(p) => final(m)@ == p.0 && r == Ok::<isize, Error>(p.1),
                Err(e) => final(m)@ == old(m)@ && (r matches Err(x) && x@ == e),
            },
    {
        match self {
            Tok::Idx(idx) => idx_loc(idx, m),
            Tok::Var(hi) => m.var_find(hi),
            Tok::Ltl(_) => self.create_ltl(m),
            _ => {
                let kinds: Vec<&'static str> = vec!["Idx", "Var", "Ltl"];
                proof {
                    assert(Seq::new(kinds@.len(), |i: int| kinds@[i]@) =~= seq![
                        "Idx"@,
                        "Var"@,
                        "Ltl"@,
                    ]);
                }
                Err(Error::WrongArgType(kinds, self.to_type_str()))
            },
        }
    }

    /// Writes a value through the token's location; a negative location
    /// is read-only and refuses the write (though a literal materialized
    /// on the way stays materialized).
    pub fn write_value(&self, m: &mut Mem, v: u64) -> (r: Result<(), Error>)
        ensures
            match spec_loc_effect(*self, old(m)@) {
                Err(e) => final(m)@ == old(m)@ && (r matches Err(x) && x@ == e),
                Ok(p) => {
                    if p.1 < 0 {
                        final(m)@ == p.0 && (r matches Err(x) && x@ == ErrV::WriteToNMem(
                            p.1 as int,
                        ))
                    } else {
                        match spec_mem_set(p.0, p.1, v) {
                            Ok(m2) => final(m)@ == m2 && r is Ok,
                            Err(e) => final(m)@ == p.0 && (r matches Err(x) && x@ == e),
                        }
                    }
                },
            },
    {
        let idx = match self.get_loc(m) {
            Ok(idx) => idx,
            Err(e) => {
                return Err(e);
            },
        };
        if idx < 0 {
            return Err(Error::WriteToNMem(idx));
        }
        m.mem_set(idx, v)
    }

    /// Materializes a string literal into negative memory: one slot per
    /// byte of its UTF-8 encoding plus a two-zero terminator, returning
    /// the negative address of the first byte.  Each materialization
    /// appends anew; equal literals get distinct, disjoint ranges.
    #[verifier::loop_isolation(false)]
    pub fn create_ltl(&self, m: &mut Mem) -> (r: Result<isize, Error>)
        ensures
            match self {
                Tok::Ltl(s) => match spec_loc_effect(*self, old(m)@) {
                    Ok(p) => final(m)@ == p.0 && r == Ok::<isize, Error>(p.1)
                        && lit_slots_faithful(s@),
                    Err(e) => final(m)@ == old(m)@ && (r matches Err(x) && x@ == e),
                },
                _ => final(m)@ == old(m)@ && (r matches Err(x) && x@ == ErrV::WrongArgType(
                    seq!["Ltl"@],
                    spec_kind_name(spec_kind(*self)),
                )),
            },
    {
        match self {
            Tok::Ltl(s) => {
                let start = m.nmem_len();
                if start > isize::MAX as usize {
                    return Err(Error::InvalidMemAccess(isize::MIN));
                }
                let bytes = string_to_bytes(s);
                let n = bytes.len();
                let mut slots: Vec<u64> = Vec::new();
                let mut j: usize = 0;
                while j < n
                    invariant
                        j <= n,
                        slots@ == lit_slots(s@).subrange(0, j as int),
                        forall|p: int|
                            0 <= p < j ==> {
                                &&& u8_of_float(#[trigger] lit_slots(s@)[p]) == encode_utf8(
                                    s@,
                                )[p]
                                &&& (encode_utf8(s@)[p] != 0 ==> !crate::num::float_is_zero(
                                    lit_slots(s@)[p],
                                ))
                            },
                    decreases n - j,
                {
                    let slot = exec_float_of_u64(bytes[j] as u64);
                    proof {
                        assert(lit_slots(s@)[j as int] == slot);
                        assert(u8_of_float(slot) == bytes@[j as int]);
                    }
                    slots.push(slot);
                    proof {
                        assert(slots@ =~= lit_slots(s@).subrange(0, j as int + 1));
                    }
                    j = j + 1;
                }
                proof {
                    assert(lit_slots_faithful(s@));
                }
                slots.push(0u64);
                slots.push(0u64);
                proof {
                    assert(lit_slots(s@).subrange(0, n as int) =~= lit_slots(s@));
                    assert(slots@ =~= lit_slots(s@) + seq![0u64, 0u64]);
                }
                m.nmem_allc(slots.as_slice());
                proof {
                    assert(m@.nmem =~= old(m)@.nmem + lit_slots(s@) + seq![0u64, 0u64]);
                }
                Ok(-(start as isize))
            },
            _ => {
                let kinds: Vec<&'static str> = vec!["Ltl"];
                proof {
                    assert(Seq::new(kinds@.len(), |i: int| kinds@[i]@) =~= seq!["Ltl"@]);
                }
                Err(Error::WrongArgType(kinds, self.to_type_str()))
            },
        }
    }

    /// The symbol inside a symbol token.
    pub fn get_sym<'a>(&'a self) -> (r: Result<&'a HashIdx, Error>)
        ensures
            match self {
                Tok::Sym(hi) => r matches Ok(h) && *h == hi,
                _ => r matches Err(e) && e@ == ErrV::WrongArgType(
                    seq!["Sym"@],
                    spec_kind_name(spec_kind(*self)),
                ),
            },
    {
        match self {
            Tok::Sym(hi) => Ok(hi),
            _ => {
                let kinds: Vec<&'static str> = vec!["Sym"];
                proof {
                    assert(Seq::new(kinds@.len(), |i: int| kinds@[i]@) =~= seq!["Sym"@]);
                }
                Err(Error::WrongArgType(kinds, self.to_type_str()))
            },
        }
    }
}

} // verus!
