//! The two-phase preprocessor.
//!
//! As each tokenized line is appended to the program store, its operator
//! name is resolved to an opcode and any label or variable it declares is
//! allocated a slot (idempotently, by name).  After the whole source is
//! loaded, a single pass rewrites every remaining symbolic reference --
//! label names in jump positions, variable references and the variable
//! roots of index chains -- into its resolved slot index.  Splitting
//! declaration from reference resolution is what lets forward references
//! resolve.

use vstd::prelude::*;

use crate::code::Code;
use crate::error::{ErrV, Error};
use crate::lex::{spec_kind, spec_kind_name, Idx, Tok};
use crate::mem::{Mem, MemV};
use crate::table::{table_entries, table_get, table_insert};
use ahash::AHashMap;

verus! {

/// Token `t1` is token `t0` with its slot index replaced by `n`; only a
/// symbol or variable token can be re-indexed.
pub open spec fn reindexed(t0: Tok, t1: Tok, n: usize) -> bool {
    match t0 {
        Tok::Sym(h0) => t1 matches Tok::Sym(h1) && h1.sym == h0.sym && h1.idx == n,
        Tok::Var(h0) => t1 matches Tok::Var(h1) && h1.sym == h0.sym && h1.idx == n,
        _ => false,
    }
}

/// What opcode assignment does: the line's operator symbol is looked up
/// in the operator table; its code is written into the symbol and
/// recorded in the per-line opcode list.
pub open spec fn assign_rel(
    table: Map<Seq<char>, usize>,
    t0: Seq<Tok>,
    t1: Seq<Tok>,
    f0: Seq<usize>,
    f1: Seq<usize>,
    r: Result<usize, Error>,
) -> bool {
    match t0[0] {
        Tok::Sym(hi) => if table.contains_key(hi.sym@) {
            let n = table[hi.sym@];
            &&& t1.len() == t0.len()
            &&& (forall|j: int| 1 <= j < t0.len() ==> t1[j] == t0[j])
            &&& reindexed(t0[0], t1[0], n)
            &&& f1 == f0.push(n)
            &&& r == Ok::<usize, Error>(n)
        } else {
            t1 == t0 && f1 == f0 && (r matches Err(x) && x@ == ErrV::UnknownOp(hi.sym@))
        },
        _ => t1 == t0 && f1 == f0 && (r matches Err(x) && x@ == ErrV::WrongTokTypeForOp(
            spec_kind_name(spec_kind(t0[0])),
        )),
    }
}

/// Resolves the line's operator name to its opcode.
pub fn assign_opcode(
    op_idx_table: &AHashMap<String, usize>,
    c: &mut Code,
    t: &mut Vec<Tok>,
) -> (r: Result<usize, Error>)
    requires
        old(t)@.len() >= 1,
    ensures
        final(c).code@ == old(c).code@,
        final(c).ptr == old(c).ptr,
        assign_rel(
            table_entries(*op_idx_table),
            old(t)@,
            final(t)@,
            old(c).func_idx@,
            final(c).func_idx@,
            r,
        ),
{
    let ghost t0 = old(t)@;
    let r: Result<usize, Error>;
    let first = vstd::std_specs::vec::vec_index_mut(t, 0);
    match first {
        Tok::Sym(n) => {
            match table_get(op_idx_table, n.sym.as_str()) {
                Some(i) => {
                    n.idx = c.func_idx_push(i);
                    r = Ok(n.idx);
                },
                None => {
                    r = Err(Error::UnknownOp(crate::text::clone_string(&n.sym)));
                },
            }
        },
        _ => {
            r = Err(Error::WrongTokTypeForOp(first.to_type_str()));
        },
    }
    proof {
        if r is Err {
            assert(t@ =~= t0);
        }
    }
    r
}

/// What declaration-time symbol binding does for one line: a
/// label-defining or alias-defining operator (codes 21 and 22) binds its
/// name operand to a label slot, provisionally targeting the line after
/// the declaring one; a variable-defining operator (code 3) binds its
/// name operand to a fresh variable slot.  Binding is idempotent: a name
/// already bound reuses its slot.  Lines without a symbol operand in
/// that position are left alone.
pub open spec fn symtab_rel(
    opcode: usize,
    codelen: int,
    m0: MemV,
    m1: MemV,
    t0: Seq<Tok>,
    t1: Seq<Tok>,
) -> bool {
    if (opcode == 21 || opcode == 22) && t0.len() >= 2 && t0[1] is Sym {
        let h = t0[1]->Sym_0;
        &&& t1.len() == t0.len()
        &&& (forall|j: int| 0 <= j < t0.len() && j != 1 ==> t1[j] == t0[j])
        &&& if m0.label_names.contains_key(h.sym@) {
            m1 == m0 && reindexed(t0[1], t1[1], m0.label_names[h.sym@])
        } else {
            m1 == (MemV {
                label: m0.label.push((codelen + 1) as usize),
                label_names: m0.label_names.insert(h.sym@, m0.label.len() as usize),
                ..m0
            }) && reindexed(t0[1], t1[1], m0.label.len() as usize)
        }
    } else if opcode == 3 && t0.len() >= 2 && t0[1] is Sym {
        let h = t0[1]->Sym_0;
        &&& t1.len() == t0.len()
        &&& (forall|j: int| 0 <= j < t0.len() && j != 1 ==> t1[j] == t0[j])
        &&& if m0.var_names.contains_key(h.sym@) {
            m1 == m0 && reindexed(t0[1], t1[1], m0.var_names[h.sym@])
        } else {
            m1 == (MemV {
                var: m0.var.push(0isize),
                var_names: m0.var_names.insert(h.sym@, m0.var.len() as usize),
                ..m0
            }) && reindexed(t0[1], t1[1], m0.var.len() as usize)
        }
    } else {
        m1 == m0 && t1 == t0
    }
}

/// Allocates (or reuses) the label or variable slot a declaring line
/// names, and writes the slot into the name operand.
pub fn create_symbol_table(opcode: usize, m: &mut Mem, c: &Code, t: &mut Vec<Tok>) -> (r: Result<
    (),
    Error,
>)
    requires
        c.code@.len() < usize::MAX,
    ensures
        symtab_rel(opcode, c.code@.len() as int, old(m)@, final(m)@, old(t)@, final(t)@),
        r is Ok,
{
    let ghost t0 = old(t)@;
    let ghost m0 = old(m)@;
    if (opcode == 21 || opcode == 22) && t.len() >= 2 {
        let snd = vstd::std_specs::vec::vec_index_mut(t, 1);
        match snd {
            Tok::Sym(hi) => {
                match table_get(&m.label_hash, hi.sym.as_str()) {
                    Some(i) => {
                        hi.idx = i;
                    },
                    None => {
                        let idx = m.label_add(c.len() + 1);
                        table_insert(&mut m.label_hash, crate::text::clone_string(&hi.sym), idx);
                        hi.idx = idx;
                    },
                }
                proof {
                    assert(t@ == t0.update(1, t@[1]));
                }
            },
            _ => {
                proof {
                    assert(t@ =~= t0);
                }
            },
        }
    } else if opcode == 3 && t.len() >= 2 {
        let snd = vstd::std_specs::vec::vec_index_mut(t, 1);
        match snd {
            Tok::Sym(hi) => {
                match table_get(&m.var_hash, hi.sym.as_str()) {
                    Some(i) => {
                        hi.idx = i;
                    },
                    None => {
                        let idx = m.var_add(0);
                        table_insert(&mut m.var_hash, crate::text::clone_string(&hi.sym), idx);
                        hi.idx = idx;
                    },
                }
                proof {
                    assert(t@ == t0.update(1, t@[1]));
                }
            },
            _ => {
                proof {
                    assert(t@ =~= t0);
                }
            },
        }
    }
    Ok(())
}

/// What label-reference resolution does for one token: a symbol's index
/// becomes its label slot; a missing label fails; other tokens are left
/// alone.
pub open spec fn lbl_resolved(
    names: Map<Seq<char>, usize>,
    t0: Tok,
    t1: Tok,
    r: Result<(), Error>,
) -> bool {
    match t0 {
        Tok::Sym(hi) => if names.contains_key(hi.sym@) {
            reindexed(t0, t1, names[hi.sym@]) && r is Ok
        } else {
            t1 == t0 && (r matches Err(x) && x@ == ErrV::UnknownLabel(hi.sym@))
        },
        _ => t1 == t0 && r is Ok,
    }
}

/// Rewrites a label reference into its slot index.
pub fn replace_lbl(tok: &mut Tok, m: &Mem) -> (r: Result<(), Error>)
    ensures
        lbl_resolved(m@.label_names, *old(tok), *final(tok), r),
        r matches Err(e) ==> e@ is UnknownLabel,
        r matches Err(e) ==> ((*old(tok)) matches Tok::Sym(h) && !m@.label_names.contains_key(
            h.sym@,
        )),
{
    match tok {
        Tok::Sym(hi) => {
            match table_get(&m.label_hash, hi.sym.as_str()) {
                Some(i) => {
                    hi.idx = i;
                    Ok(())
                },
                None => Err(Error::UnknownLabel(crate::text::clone_string(&hi.sym))),
            }
        },
        _ => Ok(()),
    }
}

/// What variable-root resolution does for an index expression: the
/// innermost variable, if any, gets its slot index; a missing variable
/// fails; everything else is preserved.
pub open spec fn idx_resolved(
    names: Map<Seq<char>, usize>,
    i0: Idx,
    i1: Idx,
    r: Result<(), Error>,
) -> bool
    decreases i0,
{
    match i0 {
        Idx::Num(n) => i1 == i0 && r is Ok,
        Idx::Var(hi) => if names.contains_key(hi.sym@) {
            (i1 matches Idx::Var(h1) && h1.sym == hi.sym && h1.idx == names[hi.sym@]) && r is Ok
        } else {
            i1 == i0 && (r matches Err(x) && x@ == ErrV::UndefinedVar(hi.sym@))
        },
        Idx::Idx(b0) => i1 matches Idx::Idx(b1) && idx_resolved(names, *b0, *b1, r),
    }
}

/// Whether an index expression's variable root, if any, is declared.
pub open spec fn idx_resolvable(vars: Map<Seq<char>, usize>, i: Idx) -> bool
    decreases i,
{
    match i {
        Idx::Num(_) => true,
        Idx::Var(hi) => vars.contains_key(hi.sym@),
        Idx::Idx(b) => idx_resolvable(vars, *b),
    }
}

/// Rewrites the variable at the root of an index chain, if any, into its
/// slot index.
pub fn resolve_idx(idx: &mut Idx, m: &Mem) -> (r: Result<(), Error>)
    ensures
        idx_resolved(m@.var_names, *old(idx), *final(idx), r),
        r matches Err(e) ==> e@ is UndefinedVar,
        r matches Err(e) ==> !idx_resolvable(m@.var_names, *old(idx)),
        r matches Err(e) ==> (e@ matches ErrV::UndefinedVar(nm) && idx_unresolved_name(
            m@.var_names,
            *old(idx),
            nm,
        )),
    decreases *old(idx),
{
    match idx {
        Idx::Num(n) => Ok(()),
        Idx::Var(hi) => {
            match table_get(&m.var_hash, hi.sym.as_str()) {
                Some(i) => {
                    hi.idx = i;
                    Ok(())
                },
                None => Err(Error::UndefinedVar(crate::text::clone_string(&hi.sym))),
            }
        },
        Idx::Idx(inner) => resolve_idx(&mut *inner, m),
    }
}

/// What reference resolution does for one argument token: a variable
/// reference gets its slot, the variable root of an index chain gets its
/// slot, anything else is left alone.
pub open spec fn arg_resolved(
    names: Map<Seq<char>, usize>,
    t0: Tok,
    t1: Tok,
    r: Result<(), Error>,
) -> bool {
    match t0 {
        Tok::Var(hi) => if names.contains_key(hi.sym@) {
            reindexed(t0, t1, names[hi.sym@]) && r is Ok
        } else {
            t1 == t0 && (r matches Err(x) && x@ == ErrV::UndefinedVar(hi.sym@))
        },
        Tok::Idx(i0) => t1 matches Tok::Idx(i1) && idx_resolved(names, i0, i1, r),
        _ => t1 == t0 && r is Ok,
    }
}

/// Whether an argument token's variable reference, if any, is declared.
pub open spec fn arg_resolvable(vars: Map<Seq<char>, usize>, t: Tok) -> bool {
    match t {
        Tok::Var(hi) => vars.contains_key(hi.sym@),
        Tok::Idx(i) => idx_resolvable(vars, i),
        _ => true,
    }
}

/// Rewrites one argument token's variable reference, if any.
fn resolve_arg(tok: &mut Tok, m: &Mem) -> (r: Result<(), Error>)
    ensures
        arg_resolved(m@.var_names, *old(tok), *final(tok), r),
        r matches Err(e) ==> e@ is UndefinedVar,
        r matches Err(e) ==> !arg_resolvable(m@.var_names, *old(tok)),
        r matches Err(e) ==> (e@ matches ErrV::UndefinedVar(nm) && arg_unresolved_name(
            m@.var_names,
            *old(tok),
            nm,
        )),
{
    match tok {
        Tok::Var(hi) => {
            match table_get(&m.var_hash, hi.sym.as_str()) {
                Some(i) => {
                    hi.idx = i;
                    Ok(())
                },
                None => Err(Error::UndefinedVar(crate::text::clone_string(&hi.sym))),
            }
        },
        Tok::Idx(i) => resolve_idx(i, m),
        _ => Ok(()),
    }
}

/// What reference resolution does for one whole line, when it succeeds:
/// the operator token is untouched; the label operand of a jump (code
/// 19) or the label operand of a conditional jump or alias (codes 20 and
/// 22) is resolved through the label table; every other argument is
/// resolved through the variable table.
pub open spec fn line_resolved(
    vars: Map<Seq<char>, usize>,
    labels: Map<Seq<char>, usize>,
    l0: Seq<Tok>,
    l1: Seq<Tok>,
) -> bool {
    if l0.len() == 0 || !(l0[0] is Sym) {
        l1 == l0
    } else {
        let opcode = l0[0]->Sym_0.idx;
        &&& l1.len() == l0.len()
        &&& l1[0] == l0[0]
        &&& (forall|j: int|
            1 <= j < l0.len() ==> {
                if (opcode == 19 && j == 1) || ((opcode == 20 || opcode == 22) && j == 2) {
                    (l0[j] is Sym ==> lbl_resolved(labels, l0[j], l1[j], Ok(())))
                        && (!(l0[j] is Sym) ==> arg_resolved(vars, l0[j], l1[j], Ok(())))
                } else {
                    arg_resolved(vars, l0[j], l1[j], Ok(()))
                }
            })
    }
}

/// Whether every name one line references is declared: each variable
/// reference and each index-chain root named in `vars`, and each label
/// operand of a jump, conditional jump or alias named in `labels`.
pub open spec fn line_resolvable(
    vars: Map<Seq<char>, usize>,
    labels: Map<Seq<char>, usize>,
    l: Seq<Tok>,
) -> bool {
    if l.len() == 0 || !(l[0] is Sym) {
        true
    } else {
        let opcode = l[0]->Sym_0.idx;
        forall|j: int|
            #![trigger l[j]]
            1 <= j < l.len() ==> {
                if (opcode == 19 && j == 1) || ((opcode == 20 || opcode == 22) && j == 2) {
                    (l[j] is Sym ==> labels.contains_key(l[j]->Sym_0.sym@)) && (!(l[j] is Sym)
                        ==> arg_resolvable(vars, l[j]))
                } else {
                    arg_resolvable(vars, l[j])
                }
            }
    }
}

/// Whether position `j` of line `l` is a label operand: the target of a
/// jump (code 19, operand 1) or of a conditional jump or alias (codes 20
/// and 22, operand 2).
pub open spec fn is_lbl_pos(l: Seq<Tok>, j: int) -> bool
    recommends
        l.len() > 0 && l[0] is Sym,
{
    let opcode = l[0]->Sym_0.idx;
    (opcode == 19 && j == 1) || ((opcode == 20 || opcode == 22) && j == 2)
}

/// The index chain's variable root is named `nm` and `nm` is not
/// declared.
pub open spec fn idx_unresolved_name(vars: Map<Seq<char>, usize>, i: Idx, nm: Seq<char>) -> bool
    decreases i,
{
    match i {
        Idx::Num(_) => false,
        Idx::Var(hi) => hi.sym@ == nm && !vars.contains_key(nm),
        Idx::Idx(b) => idx_unresolved_name(vars, *b, nm),
    }
}

/// The argument token references the undeclared variable name `nm`.
pub open spec fn arg_unresolved_name(vars: Map<Seq<char>, usize>, t: Tok, nm: Seq<char>) -> bool {
    match t {
        Tok::Var(hi) => hi.sym@ == nm && !vars.contains_key(nm),
        Tok::Idx(i) => idx_unresolved_name(vars, i, nm),
        _ => false,
    }
}

/// The line holds a variable reference (or index-chain root) with the
/// undeclared name `nm`.
pub open spec fn line_unresolved_var_named(
    vars: Map<Seq<char>, usize>,
    l: Seq<Tok>,
    nm: Seq<char>,
) -> bool {
    l.len() > 0 && l[0] is Sym && exists|j: int|
        #![trigger l[j]]
        1 <= j < l.len() && !(is_lbl_pos(l, j) && l[j] is Sym) && arg_unresolved_name(
            vars,
            l[j],
            nm,
        )
}

/// The line holds a label operand with the undeclared name `nm`.
pub open spec fn line_unresolved_label_named(
    labels: Map<Seq<char>, usize>,
    l: Seq<Tok>,
    nm: Seq<char>,
) -> bool {
    l.len() > 0 && l[0] is Sym && exists|j: int|
        #![trigger l[j]]
        1 <= j < l.len() && is_lbl_pos(l, j) && (l[j] matches Tok::Sym(h) && h.sym@ == nm
            && !labels.contains_key(nm))
}

/// Whether an error is one a resolution pass reports.
pub open spec fn resolve_err(e: ErrV) -> bool {
    e is UndefinedVar || e is UnknownLabel
}

/// Resolves every remaining symbolic reference of the loaded program:
/// label names in jump positions through the label table, variable names
/// everywhere through the variable table.  The pass succeeds exactly when
/// every referenced name is declared -- forward references included,
/// since declarations were bound while loading -- and then every line is
/// resolved; otherwise the first missing name aborts the pass with its
/// error (so some line holds an unresolvable name of that kind), and
/// lines already rewritten keep their resolved indices.
#[verifier::loop_isolation(false)]
pub fn replace_sym(m: &Mem, c: &mut Code) -> (r: Result<(), Error>)
    ensures
        final(c).code@.len() == old(c).code@.len(),
        final(c).ptr == old(c).ptr,
        final(c).func_idx@ == old(c).func_idx@,
        (forall|i: int|
            0 <= i < old(c).code@.len() ==> #[trigger] line_resolvable(
                m@.var_names,
                m@.label_names,
                old(c).code@[i]@,
            )) ==> r is Ok,
        r is Ok ==> forall|i: int|
            0 <= i < old(c).code@.len() ==> line_resolved(
                m@.var_names,
                m@.label_names,
                old(c).code@[i]@,
                #[trigger] final(c).code@[i]@,
            ),
        r matches Err(e) ==> resolve_err(e@),
        r matches Err(e) ==> (e@ matches ErrV::UndefinedVar(nm) ==> exists|i: int|
            0 <= i < old(c).code@.len() && line_unresolved_var_named(
                m@.var_names,
                #[trigger] old(c).code@[i]@,
                nm,
            )),
        r matches Err(e) ==> (e@ matches ErrV::UnknownLabel(nm) ==> exists|i: int|
            0 <= i < old(c).code@.len() && line_unresolved_label_named(
                m@.label_names,
                #[trigger] old(c).code@[i]@,
                nm,
            )),
{
    let n = c.len();
    let mut i: usize = 0;
    while i < n
        invariant
            i <= n,
            c.code@.len() == old(c).code@.len(),
            c.ptr == old(c).ptr,
            c.func_idx@ == old(c).func_idx@,
            forall|k: int|
                0 <= k < i ==> line_resolved(
                    m@.var_names,
                    m@.label_names,
                    old(c).code@[k]@,
                    #[trigger] c.code@[k]@,
                ),
            forall|k: int| i <= k < n ==> #[trigger] c.code@[k] == old(c).code@[k],
        decreases n - i,
    {
        let ghost l0 = c.code@[i as int]@;
        let line = c.at_mut(i);
        let linelen = line.len();
        let mut do_args = false;
        let mut opcode: usize = 0;
        if linelen > 0 {
            match &line[0] {
                Tok::Sym(hi) => {
                    do_args = true;
                    opcode = hi.idx;
                },
                _ => (),
            }
        }
        if do_args {
            let mut j: usize = 1;
            while j < linelen
                invariant
                    1 <= j <= linelen,
                    linelen == line@.len(),
                    l0.len() == linelen,
                    line@[0] == l0[0],
                    l0[0] is Sym,
                    opcode == l0[0]->Sym_0.idx,
                    forall|p: int|
                        1 <= p < j ==> {
                            if (opcode == 19 && p == 1) || ((opcode == 20 || opcode == 22) && p
                                == 2) {
                                (l0[p] is Sym ==> lbl_resolved(
                                    m@.label_names,
                                    l0[p],
                                    #[trigger] line@[p],
                                    Ok(()),
                                )) && (!(l0[p] is Sym) ==> arg_resolved(
                                    m@.var_names,
                                    l0[p],
                                    line@[p],
                                    Ok(()),
                                ))
                            } else {
                                arg_resolved(m@.var_names, l0[p], #[trigger] line@[p], Ok(()))
                            }
                        },
                    forall|p: int| j <= p < linelen ==> #[trigger] line@[p] == l0[p],
                decreases linelen - j,
            {
                let skip_lbl = (opcode == 19 && j == 1) || ((opcode == 20 || opcode == 22) && j
                    == 2);
                let tok = vstd::std_specs::vec::vec_index_mut(line, j);
                let tok_is_sym = match tok {
                    Tok::Sym(_) => true,
                    _ => false,
                };
                if skip_lbl && tok_is_sym {
                    match replace_lbl(tok, m) {
                        Ok(u) => (),
                        Err(e) => {
                            proof {
                                assert(!line_resolvable(m@.var_names, m@.label_names, l0)) by {
                                    if line_resolvable(m@.var_names, m@.label_names, l0) {
                                        assert(l0[j as int] == l0[j as int]);
                                        assert(false);
                                    }
                                }
                                let nm = l0[j as int]->Sym_0.sym@;
                                assert(line_unresolved_label_named(m@.label_names, l0, nm)) by {
                                    assert(1 <= j < l0.len() && is_lbl_pos(l0, j as int)
                                        && l0[j as int] is Sym && !m@.label_names.contains_key(
                                        nm,
                                    ));
                                }
                                assert(!line_resolvable(
                                    m@.var_names,
                                    m@.label_names,
                                    old(c).code@[i as int]@,
                                ));
                                assert(line_unresolved_label_named(
                                    m@.label_names,
                                    old(c).code@[i as int]@,
                                    nm,
                                ));
                            }
                            return Err(e);
                        },
                    }
                } else {
                    match resolve_arg(tok, m) {
                        Ok(u) => (),
                        Err(e) => {
                            proof {
                                assert(!line_resolvable(m@.var_names, m@.label_names, l0)) by {
                                    if line_resolvable(m@.var_names, m@.label_names, l0) {
                                        assert(l0[j as int] == l0[j as int]);
                                        assert(false);
                                    }
                                }
                                let nm = choose|nm: Seq<char>|
                                    e@ == ErrV::UndefinedVar(nm) && arg_unresolved_name(
                                        m@.var_names,
                                        l0[j as int],
                                        nm,
                                    );
                                assert(line_unresolved_var_named(m@.var_names, l0, nm)) by {
                                    assert(1 <= j < l0.len() && !(is_lbl_pos(l0, j as int)
                                        && l0[j as int] is Sym) && arg_unresolved_name(
                                        m@.var_names,
                                        l0[j as int],
                                        nm,
                                    ));
                                }
                                assert(!line_resolvable(
                                    m@.var_names,
                                    m@.label_names,
                                    old(c).code@[i as int]@,
                                ));
                                assert(line_unresolved_var_named(
                                    m@.var_names,
                                    old(c).code@[i as int]@,
                                    nm,
                                ));
                            }
                            return Err(e);
                        },
                    }
                }
                j = j + 1;
            }
            proof {
                assert(line_resolved(m@.var_names, m@.label_names, l0, line@));
            }
        } else {
            proof {
                assert(line@ =~= l0);
            }
        }
        i = i + 1;
    }
    Ok(())
}

/// Loads one tokenized line into the program: an empty line is skipped;
/// otherwise its operator is resolved to an opcode, its declared label
/// or variable (if any) is bound, and the line is appended.
pub fn preprocess(
    op_idx_table: &AHashMap<String, usize>,
    m: &mut Mem,
    c: &mut Code,
    t: Vec<Tok>,
) -> (r: Result<(), Error>)
    requires
        old(c).code@.len() < usize::MAX,
    ensures
        r is Ok <==> (t@.len() == 0 || (t@[0] matches Tok::Sym(h)
            && table_entries(*op_idx_table).contains_key(h.sym@))),
        r matches Err(e) ==> t@.len() > 0 && (match t@[0] {
            Tok::Sym(h) => e@ == ErrV::UnknownOp(h.sym@) && !table_entries(
                *op_idx_table,
            ).contains_key(h.sym@),
            _ => e@ == ErrV::WrongTokTypeForOp(
                crate::lex::spec_kind_name(crate::lex::spec_kind(t@[0])),
            ),
        }),
        match r {
            Ok(u) => {
                if t@.len() == 0 {
                    final(m)@ == old(m)@ && final(c).code@ == old(c).code@ && final(c).func_idx@
                        == old(c).func_idx@ && final(c).ptr == old(c).ptr
                } else {
                    final(c).ptr == old(c).ptr && exists|t1: Seq<Tok>, t2: Seq<Tok>, n: usize|
                        {
                            &&& assign_rel(
                                table_entries(*op_idx_table),
                                t@,
                                t1,
                                old(c).func_idx@,
                                final(c).func_idx@,
                                Ok(n),
                            )
                            &&& #[trigger] symtab_rel(
                                n,
                                old(c).code@.len() as int,
                                old(m)@,
                                final(m)@,
                                t1,
                                t2,
                            )
                            &&& final(c).code@.len() == old(c).code@.len() + 1
                            &&& (forall|j: int|
                                0 <= j < old(c).code@.len() ==> final(c).code@[j] == old(
                                    c,
                                ).code@[j])
                            &&& final(c).code@[old(c).code@.len() as int]@ == t2
                        }
                }
            },
            Err(e) => {
                &&& final(m)@ == old(m)@
                &&& final(c).code@ == old(c).code@
                &&& final(c).func_idx@ == old(c).func_idx@
                &&& final(c).ptr == old(c).ptr
                &&& (e@ is UnknownOp || e@ is WrongTokTypeForOp)
            },
        },
{
    if t.len() == 0 {
        return Ok(());
    }
    let ghost tv0 = t@;
    let mut t = t;
    let opcode = match assign_opcode(op_idx_table, c, &mut t) {
        Ok(n) => n,
        Err(e) => {
            return Err(e);
        },
    };
    let ghost tv1 = t@;
    match create_symbol_table(opcode, m, c, &mut t) {
        Ok(u) => (),
        Err(e) => {
            return Err(e);
        },
    }
    let ghost tv2 = t@;
    c.push(t);
    proof {
        assert(assign_rel(
            table_entries(*op_idx_table),
            tv0,
            tv1,
            old(c).func_idx@,
            c.func_idx@,
            Ok(opcode),
        ));
        assert(symtab_rel(opcode, old(c).code@.len() as int, old(m)@, m@, tv1, tv2));
        assert(c.code@[old(c).code@.len() as int]@ == tv2);
    }
    Ok(())
}

} // verus!
