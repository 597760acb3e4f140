//! The memory model: one logical address space split by sign.
//!
//! Non-negative addresses index a growable, zero-initialized store of
//! numeric slots ("positive memory"); negative addresses index an
//! append-only store holding materialized string literals, one slot per
//! byte ("negative memory"), with address 0 shared.  Slot 0 of positive
//! memory is the implicit accumulator every arithmetic, comparison and
//! logic operation writes.  Beside the two stores live the variable table,
//! the label table and the open-descriptor table.  Out-of-bounds accesses
//! fail with the offending address under its original sign; nothing is
//! ever freed, both stores only grow.

use vstd::prelude::*;

use crate::error::{res_view, ErrV, Error};
use crate::lex::HashIdx;
use crate::num::{float_is_zero, u8_of_float};
use crate::table::{table_entries, table_new};
use ahash::AHashMap;

verus! {

/// The mathematical shape of the machine's state.
pub struct MemV {
    pub pmem: Seq<u64>,
    pub nmem: Seq<u64>,
    pub var: Seq<isize>,
    pub label: Seq<usize>,
    pub fd: Seq<bool>,
    pub var_names: Map<Seq<char>, usize>,
    pub label_names: Map<Seq<char>, usize>,
}

pub struct Mem {
    pub pmem: Vec<u64>,
    pub nmem: Vec<u64>,
    pub var_hash: AHashMap<String, usize>,
    pub var: Vec<isize>,
    pub label_hash: AHashMap<String, usize>,
    pub label: Vec<usize>,
    pub fd: Vec<bool>,
}

impl View for Mem {
    type V = MemV;

    open spec fn view(&self) -> MemV {
        MemV {
            pmem: self.pmem@,
            nmem: self.nmem@,
            var: self.var@,
            label: self.label@,
            fd: self.fd@,
            var_names: table_entries(self.var_hash),
            label_names: table_entries(self.label_hash),
        }
    }
}

/// The standing well-formedness of a machine memory: the accumulator slot
/// exists and the descriptor table has its fixed size.
pub open spec fn mem_wf(m: MemV) -> bool {
    &&& m.pmem.len() >= 1
    &&& m.fd.len() == 1024
}

/// Reading one address: the sign picks the store, the magnitude indexes
/// it, and an address beyond the selected store's bound fails, carrying
/// the address with its original sign.
pub open spec fn spec_mem_at(m: MemV, i: isize) -> Result<u64, ErrV> {
    if i < 0 {
        let mag = -(i as int);
        if mag > isize::MAX || mag >= m.nmem.len() {
            Err(ErrV::InvalidMemAccess(i as int))
        } else {
            Ok(m.nmem[mag])
        }
    } else {
        if i >= m.pmem.len() {
            Err(ErrV::InvalidMemAccess(i as int))
        } else {
            Ok(m.pmem[i as int])
        }
    }
}

/// Writing one address, by the same dispatch as reading.
pub open spec fn spec_mem_set(m: MemV, i: isize, v: u64) -> Result<MemV, ErrV> {
    if i < 0 {
        let mag = -(i as int);
        if mag > isize::MAX || mag >= m.nmem.len() {
            Err(ErrV::InvalidMemAccess(i as int))
        } else {
            Ok(MemV { nmem: m.nmem.update(mag, v), ..m })
        }
    } else {
        if i >= m.pmem.len() {
            Err(ErrV::InvalidMemAccess(i as int))
        } else {
            Ok(MemV { pmem: m.pmem.update(i as int, v), ..m })
        }
    }
}

/// Looking a variable slot up: the slot's current address, or the
/// undefined-variable error naming the variable.
pub open spec fn spec_var_find(m: MemV, slot: int, name: Seq<char>) -> Result<isize, ErrV> {
    if 0 <= slot < m.var.len() {
        Ok(m.var[slot])
    } else {
        Err(ErrV::UndefinedVar(name))
    }
}

/// Looking a label slot up: the slot's current line, or the
/// unknown-label error naming the label.
pub open spec fn spec_label_find(m: MemV, slot: int, name: Seq<char>) -> Result<usize, ErrV> {
    if 0 <= slot < m.label.len() {
        Ok(m.label[slot])
    } else {
        Err(ErrV::UnknownLabel(name))
    }
}

/// Moving an address by a step: the magnitude grows by `delta`, the sign
/// is preserved, with the wrapping of machine arithmetic at the range
/// ends.
pub open spec fn spec_idx_incr(i: isize, delta: isize) -> isize {
    if i < 0 {
        vstd::wrapping::isize_specs::wrapping_sub(i, delta)
    } else {
        vstd::wrapping::isize_specs::wrapping_add(i, delta)
    }
}

/// Moving an address back by a step: the magnitude shrinks by `delta`,
/// the sign is preserved, with wrapping at the range ends.
pub open spec fn spec_idx_decr(i: isize, delta: isize) -> isize {
    if i < 0 {
        vstd::wrapping::isize_specs::wrapping_add(i, delta)
    } else {
        vstd::wrapping::isize_specs::wrapping_sub(i, delta)
    }
}

/// The bytes of the string stored at `i`: slots are read in the address's
/// own direction until two consecutive zero slots appear; the collected
/// bytes keep every slot but the final sentinel zero.  Walking past the
/// selected store's bound fails.
pub open spec fn spec_read_ltl(m: MemV, i: isize, zero_seen: bool, acc: Seq<u8>) -> Result<
    Seq<u8>,
    ErrV,
>
    decreases (if i >= 0 { 1int } else { 0int }), (if i >= 0 { m.pmem.len() - i } else { m.nmem.len() + i }),
{
    match spec_mem_at(m, i) {
        Err(e) => Err(e),
        Ok(c) => {
            if float_is_zero(c) && zero_seen {
                Ok(acc.drop_last())
            } else {
                spec_read_ltl(m, spec_idx_incr(i, 1), float_is_zero(c), acc.push(u8_of_float(c)))
            }
        },
    }
}


/// Walking negative memory from magnitude `start + k` reads back the rest
/// of a stored byte string: the slots hold values that truncate to the
/// bytes and are not zeroes, so the walk collects exactly them and stops
/// at the two zero slots behind them, trimming the sentinel.
pub proof fn lemma_read_ltl_stored(m: MemV, start: int, bs: Seq<u8>, k: int)
    requires
        1 <= start,
        start + bs.len() + 2 <= m.nmem.len(),
        start + bs.len() + 2 <= isize::MAX,
        forall|j: int|
            0 <= j < bs.len() ==> !float_is_zero(#[trigger] m.nmem[start + j]) && u8_of_float(
                m.nmem[start + j],
            ) == bs[j],
        m.nmem[start + bs.len()] == 0u64,
        m.nmem[start + bs.len() + 1] == 0u64,
        0 <= k <= bs.len(),
    ensures
        spec_read_ltl(m, (-(start + k)) as isize, false, bs.take(k)) == Ok::<Seq<u8>, ErrV>(bs),
    decreases bs.len() - k,
{
    let pos = (-(start + k)) as isize;
    assert(spec_mem_at(m, pos) == Ok::<u64, ErrV>(m.nmem[start + k]));
    if k < bs.len() {
        let c = m.nmem[start + k];
        assert(!float_is_zero(c));
        assert(spec_idx_incr(pos, 1) == (-(start + k + 1)) as isize);
        assert(bs.take(k).push(u8_of_float(c)) =~= bs.take(k + 1));
        lemma_read_ltl_stored(m, start, bs, k + 1);
    } else {
        // The first zero slot is collected, the second ends the walk and
        // the sentinel is trimmed again.
        let pos1 = (-(start + k + 1)) as isize;
        assert(spec_idx_incr(pos, 1) == pos1);
        assert(spec_mem_at(m, pos1) == Ok::<u64, ErrV>(m.nmem[start + k + 1]));
        assert(float_is_zero(0u64));
        let acc1 = bs.take(k).push(u8_of_float(0u64));
        assert(spec_read_ltl(m, pos1, true, acc1) == Ok::<Seq<u8>, ErrV>(acc1.drop_last()));
        assert(acc1.drop_last() =~= bs.take(k));
        assert(bs.take(k) =~= bs);
    }
}

impl Mem {
    /// A fresh machine memory: ten thousand zeroed positive slots, the
    /// shared zero slot of negative memory, empty variable and label
    /// tables, and the three standard descriptors pre-registered as open.
    pub fn new() -> (m: Mem)
        ensures
            m@.pmem == Seq::new(10000nat, |j: int| 0u64),
            m@.nmem == seq![0u64],
            m@.var == Seq::<isize>::empty(),
            m@.label == Seq::<usize>::empty(),
            m@.var_names == crate::table::empty_table(),
            m@.label_names == crate::table::empty_table(),
            m@.fd == Seq::new(1024nat, |j: int| j < 3),
            mem_wf(m@),
    {
        let pmem: Vec<u64> = vec![0u64; 10000];
        let mut nmem: Vec<u64> = Vec::new();
        nmem.push(0u64);
        let mut fd: Vec<bool> = vec![false; 1024];
        fd[0] = true;
        fd[1] = true;
        fd[2] = true;
        proof {
            assert(nmem@ =~= seq![0u64]);
            assert(fd@ =~= Seq::new(1024nat, |j: int| j < 3));
        }
        Mem {
            pmem,
            nmem,
            var_hash: table_new(),
            var: Vec::new(),
            label_hash: table_new(),
            label: Vec::new(),
            fd,
        }
    }

    /// Reads the slot the signed address selects.
    pub fn mem_at(&self, i: isize) -> (r: Result<u64, Error>)
        ensures
            res_view(r) == spec_mem_at(self@, i),
    {
        if i < 0 {
            if i == isize::MIN {
                Err(Error::InvalidMemAccess(i))
            } else {
                self.nmem_at((-i) as usize)
            }
        } else {
            self.pmem_at(i as usize)
        }
    }

    /// Writes the slot the signed address selects.
    pub fn mem_set(&mut self, i: isize, v: u64) -> (r: Result<(), Error>)
        ensures
            match spec_mem_set(old(self)@, i, v) {
                Ok(mv) => r is Ok && final(self)@ == mv,
                Err(e) => final(self)@ == old(self)@ && (r matches Err(x) && x@ == e),
            },
    {
        if i < 0 {
            if i == isize::MIN {
                Err(Error::InvalidMemAccess(i))
            } else {
                self.nmem_set((-i) as usize, v)
            }
        } else {
            self.pmem_set(i as usize, v)
        }
    }

    /// Reads positive memory at a raw index.
    pub fn pmem_at(&self, i: usize) -> (r: Result<u64, Error>)
        requires
            i <= isize::MAX as usize,
        ensures
            res_view(r) == (if i < self@.pmem.len() {
                Ok::<u64, ErrV>(self@.pmem[i as int])
            } else {
                Err::<u64, ErrV>(ErrV::InvalidMemAccess(i as int))
            }),
    {
        if i >= self.pmem.len() {
            Err(Error::InvalidMemAccess(i as isize))
        } else {
            Ok(self.pmem[i])
        }
    }

    /// Writes positive memory at a raw index.
    pub fn pmem_set(&mut self, i: usize, v: u64) -> (r: Result<(), Error>)
        requires
            i <= isize::MAX as usize,
        ensures
            i < old(self)@.pmem.len() ==> r is Ok && final(self)@ == (MemV {
                pmem: old(self)@.pmem.update(i as int, v),
                ..old(self)@
            }),
            i >= old(self)@.pmem.len() ==> final(self)@ == old(self)@ && (r matches Err(x) && x@
                == ErrV::InvalidMemAccess(i as int)),
    {
        if i >= self.pmem.len() {
            Err(Error::InvalidMemAccess(i as isize))
        } else {
            self.pmem[i] = v;
            Ok(())
        }
    }

    /// The size of positive memory.
    pub fn pmem_len(&self) -> (r: usize)
        ensures
            r == self@.pmem.len(),
    {
        self.pmem.len()
    }

    /// Appends the given slots to positive memory.
    #[verifier::loop_isolation(false)]
    pub fn pmem_allc(&mut self, v: &[u64])
        ensures
            final(self)@ == (MemV { pmem: old(self)@.pmem + v@, ..old(self)@ }),
    {
        let n = v.len();
        let mut i: usize = 0;
        while i < n
            invariant
                i <= n,
                self.pmem@ == old(self)@.pmem + v@.subrange(0, i as int),
                self.nmem@ == old(self)@.nmem,
                self.var@ == old(self)@.var,
                self.label@ == old(self)@.label,
                self.fd@ == old(self)@.fd,
                self.var_hash == old(self).var_hash,
                self.label_hash == old(self).label_hash,
            decreases n - i,
        {
            self.pmem.push(v[i]);
            proof {
                assert(self.pmem@ =~= old(self)@.pmem + v@.subrange(0, i as int + 1));
            }
            i = i + 1;
        }
        proof {
            assert(v@.subrange(0, n as int) =~= v@);
        }
    }

    /// Reads negative memory at a raw magnitude.
    pub fn nmem_at(&self, i: usize) -> (r: Result<u64, Error>)
        requires
            i <= isize::MAX as usize,
        ensures
            res_view(r) == (if i < self@.nmem.len() {
                Ok::<u64, ErrV>(self@.nmem[i as int])
            } else {
                Err::<u64, ErrV>(ErrV::InvalidMemAccess(-(i as int)))
            }),
    {
        if i >= self.nmem.len() {
            Err(Error::InvalidMemAccess(-(i as isize)))
        } else {
            Ok(self.nmem[i])
        }
    }

    /// Writes negative memory at a raw magnitude.
    pub fn nmem_set(&mut self, i: usize, v: u64) -> (r: Result<(), Error>)
        requires
            i <= isize::MAX as usize,
        ensures
            i < old(self)@.nmem.len() ==> r is Ok && final(self)@ == (MemV {
                nmem: old(self)@.nmem.update(i as int, v),
                ..old(self)@
            }),
            i >= old(self)@.nmem.len() ==> final(self)@ == old(self)@ && (r matches Err(x) && x@
                == ErrV::InvalidMemAccess(-(i as int))),
    {
        if i >= self.nmem.len() {
            Err(Error::InvalidMemAccess(-(i as isize)))
        } else {
            self.nmem[i] = v;
            Ok(())
        }
    }

    /// The size of negative memory.
    pub fn nmem_len(&self) -> (r: usize)
        ensures
            r == self@.nmem.len(),
    {
        self.nmem.len()
    }

    /// Appends the given slots to negative memory.
    #[verifier::loop_isolation(false)]
    pub fn nmem_allc(&mut self, v: &[u64])
        ensures
            final(self)@ == (MemV { nmem: old(self)@.nmem + v@, ..old(self)@ }),
    {
        let n = v.len();
        let mut i: usize = 0;
        while i < n
            invariant
                i <= n,
                self.nmem@ == old(self)@.nmem + v@.subrange(0, i as int),
                self.pmem@ == old(self)@.pmem,
                self.var@ == old(self)@.var,
                self.label@ == old(self)@.label,
                self.fd@ == old(self)@.fd,
                self.var_hash == old(self).var_hash,
                self.label_hash == old(self).label_hash,
            decreases n - i,
        {
            self.nmem.push(v[i]);
            proof {
                assert(self.nmem@ =~= old(self)@.nmem + v@.subrange(0, i as int + 1));
            }
            i = i + 1;
        }
        proof {
            assert(v@.subrange(0, n as int) =~= v@);
        }
    }

    /// Adds a variable slot holding the address `i`; returns the slot's
    /// index.
    pub fn var_add(&mut self, i: isize) -> (r: usize)
        ensures
            final(self)@ == (MemV { var: old(self)@.var.push(i), ..old(self)@ }),
            r == old(self)@.var.len(),
    {
        self.var.push(i);
        self.var.len() - 1
    }

    /// Points an existing variable slot at a new address.
    pub fn var_set(&mut self, var: usize, idx: isize)
        requires
            var < old(self)@.var.len(),
        ensures
            final(self)@ == (MemV { var: old(self)@.var.update(var as int, idx), ..old(self)@ }),
    {
        self.var[var] = idx;
    }

    /// The address a variable's slot currently holds.
    pub fn var_find(&self, hi: &HashIdx) -> (r: Result<isize, Error>)
        ensures
            res_view(r) == spec_var_find(self@, hi.idx as int, hi.sym@),
    {
        if hi.idx < self.var.len() {
            Ok(self.var[hi.idx])
        } else {
            Err(Error::UndefinedVar(crate::text::clone_string(&hi.sym)))
        }
    }

    /// Adds a label slot holding the line `line`; returns the slot's
    /// index.
    pub fn label_add(&mut self, line: usize) -> (r: usize)
        ensures
            final(self)@ == (MemV { label: old(self)@.label.push(line), ..old(self)@ }),
            r == old(self)@.label.len(),
    {
        self.label.push(line);
        self.label.len() - 1
    }

    /// Points an existing label slot at a new line.
    pub fn label_set(&mut self, lbl: usize, line: usize)
        requires
            lbl < old(self)@.label.len(),
        ensures
            final(self)@ == (MemV { label: old(self)@.label.update(lbl as int, line), ..old(self)@ }),
    {
        self.label[lbl] = line;
    }

    /// The line a label's slot currently holds.
    pub fn label_find(&self, hi: &HashIdx) -> (r: Result<usize, Error>)
        ensures
            res_view(r) == spec_label_find(self@, hi.idx as int, hi.sym@),
    {
        if hi.idx < self.label.len() {
            Ok(self.label[hi.idx])
        } else {
            Err(Error::UnknownLabel(crate::text::clone_string(&hi.sym)))
        }
    }

    /// Reads the string stored at `i`, walking in the address's direction
    /// until two consecutive zero slots; the final sentinel is trimmed and
    /// the bytes are decoded as UTF-8.
    #[verifier::loop_isolation(false)]
    pub fn read_ltl(&self, i: isize) -> (r: Result<String, Error>)
        ensures
            match r {
                Ok(s) => spec_read_ltl(self@, i, false, Seq::empty()) matches Ok(b)
                    && vstd::utf8::valid_utf8(b) && s@ == vstd::utf8::decode_utf8(b),
                Err(e) => (spec_read_ltl(self@, i, false, Seq::empty()) matches Err(ev) && e@ == ev)
                    || (spec_read_ltl(self@, i, false, Seq::empty()) matches Ok(b)
                    && !vstd::utf8::valid_utf8(b) && e@ == ErrV::InvalidUtf8),
            },
    {
        let ghost full = spec_read_ltl(self@, i, false, Seq::empty());
        let mut v: Vec<u8> = Vec::new();
        let mut zero_seen = false;
        let mut pos = i;
        loop
            invariant
                full == spec_read_ltl(self@, pos, zero_seen, v@),
                zero_seen ==> v@.len() >= 1,
            decreases (if pos >= 0 { 1int } else { 0int }), (if pos >= 0 {
                self@.pmem.len() - pos
            } else {
                self@.nmem.len() + pos
            }),
        {
            let c = match self.mem_at(pos) {
                Ok(c) => c,
                Err(e) => {
                    return Err(e);
                },
            };
            let z = crate::num::exec_float_is_zero(c);
            if z && zero_seen {
                v.pop();
                return match crate::text::string_from_utf8(v) {
                    Some(s) => Ok(s),
                    None => Err(Error::InvalidUtf8),
                };
            }
            zero_seen = z;
            v.push(crate::num::exec_u8_of_float(c));
            idx_incr(&mut pos, 1);
        }
    }
}

/// Moves an address one or more steps away from zero: the magnitude grows
/// by `delta`, the sign is preserved (stepping a negative address makes it
/// more negative), wrapping at the range ends.
pub fn idx_incr(i: &mut isize, delta: isize)
    ensures
        *final(i) == spec_idx_incr(*old(i), delta),
{
    if *i < 0 {
        *i = i.wrapping_sub(delta);
    } else {
        *i = i.wrapping_add(delta);
    }
}

/// Moves an address one or more steps toward zero: the magnitude shrinks
/// by `delta`, the sign is preserved, wrapping at the range ends.
pub fn idx_decr(i: &mut isize, delta: isize)
    ensures
        *final(i) == spec_idx_decr(*old(i), delta),
{
    if *i < 0 {
        *i = i.wrapping_add(delta);
    } else {
        *i = i.wrapping_sub(delta);
    }
}

} // verus!
