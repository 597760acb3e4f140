//! The program store: an append-only sequence of tokenized lines and the
//! cursor naming the line to execute next.

use vstd::prelude::*;

use crate::lex::Tok;

verus! {

pub struct Code {
    pub code: Vec<Vec<Tok>>,
    pub func_idx: Vec<usize>,
    pub ptr: usize,
}

impl Code {
    /// An empty program with the cursor at the first line.
    pub fn new() -> (r: Code)
        ensures
            r.code@ == Seq::<Vec<Tok>>::empty(),
            r.func_idx@ == Seq::<usize>::empty(),
            r.ptr == 0,
    {
        Code { code: Vec::new(), func_idx: Vec::new(), ptr: 0 }
    }

    /// Appends a line; returns the new number of lines.
    pub fn push(&mut self, c: Vec<Tok>) -> (r: usize)
        ensures
            final(self).code@ == old(self).code@.push(c),
            final(self).func_idx@ == old(self).func_idx@,
            final(self).ptr == old(self).ptr,
            r == old(self).code@.len() + 1,
    {
        self.code.push(c);
        self.code.len()
    }

    /// Records a line's resolved opcode, in line order; returns it back.
    pub fn func_idx_push(&mut self, idx: usize) -> (r: usize)
        ensures
            final(self).func_idx@ == old(self).func_idx@.push(idx),
            final(self).code@ == old(self).code@,
            final(self).ptr == old(self).ptr,
            r == idx,
    {
        self.func_idx.push(idx);
        idx
    }

    /// The line at the given index, if any.
    pub fn at(&self, i: usize) -> (r: Option<&Vec<Tok>>)
        ensures
            match r {
                Some(v) => i < self.code@.len() && *v == self.code@[i as int],
                None => i >= self.code@.len(),
            },
    {
        if i >= self.code.len() {
            None
        } else {
            Some(&self.code[i])
        }
    }

    /// A mutable view of the line at the given index, for the reference
    /// resolution pass.
    pub fn at_mut(&mut self, i: usize) -> (r: &mut Vec<Tok>)
        requires
            i < old(self).code@.len(),
        ensures
            *r == old(self).code@[i as int],
            final(self).code@ == old(self).code@.update(i as int, *final(r)),
            final(self).func_idx@ == old(self).func_idx@,
            final(self).ptr == old(self).ptr,
    {
        vstd::std_specs::vec::vec_index_mut(&mut self.code, i)
    }

    /// The last line, if any.
    pub fn last(&self) -> (r: Option<&Vec<Tok>>)
        ensures
            match r {
                Some(v) => self.code@.len() > 0 && *v == self.code@[self.code@.len() - 1],
                None => self.code@.len() == 0,
            },
    {
        if self.code.len() == 0 {
            None
        } else {
            Some(&self.code[self.code.len() - 1])
        }
    }

    /// The line under the cursor, if the cursor is within the program.
    pub fn curr(&self) -> (r: Option<&Vec<Tok>>)
        ensures
            match r {
                Some(v) => self.ptr < self.code@.len() && *v == self.code@[self.ptr as int],
                None => self.ptr >= self.code@.len(),
            },
    {
        if self.ptr >= self.code.len() {
            None
        } else {
            Some(&self.code[self.ptr])
        }
    }

    /// The number of lines.
    pub fn len(&self) -> (r: usize)
        ensures
            r == self.code@.len(),
    {
        self.code.len()
    }

    /// The cursor.
    pub fn ptr(&self) -> (r: usize)
        ensures
            r == self.ptr,
    {
        self.ptr
    }

    /// Moves the cursor to the given line.
    pub fn ptr_set(&mut self, l: usize)
        ensures
            final(self).ptr == l,
            final(self).code@ == old(self).code@,
            final(self).func_idx@ == old(self).func_idx@,
    {
        self.ptr = l;
    }

    /// Advances the cursor by one line.
    pub fn ptr_incr(&mut self)
        requires
            old(self).ptr < usize::MAX,
        ensures
            final(self).ptr == old(self).ptr + 1,
            final(self).code@ == old(self).code@,
            final(self).func_idx@ == old(self).func_idx@,
    {
        self.ptr = self.ptr + 1;
    }
}

} // verus!
