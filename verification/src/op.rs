//! The instruction set: the control-flow signal protocol, the opcode
//! table, the dispatcher, and one handler per operation.
//!
//! Each handler takes the line's argument operands and the machine memory
//! and returns either a control signal or, for the operations that touch
//! the world outside the machine, a request that the embedding program
//! performs before execution resumes.  Argument counts and kinds are
//! checked uniformly before opcode-specific work.

use vstd::prelude::*;

use crate::code::Code;
use crate::error::{ErrV, Error};
use crate::mem::{Mem, MemV};

pub mod cmp;
pub mod extra;
pub mod flow;
pub mod logic;
pub mod memop;
pub mod math;
pub mod nop;
pub mod source;
pub mod sys;

verus! {

/// The control effect a handler hands back to the stepping loop.
#[derive(PartialEq, Debug)]
pub enum Signal {
    /// No control effect: the cursor advances by one.
    Nil,
    /// Bind the given label slot to the line after the current one.
    SetLbl(usize),
    /// Bind the given label slot (an alias) to the given line.
    SetAls(usize, usize),
    /// Set the cursor to the given line.
    Jmp(usize),
    /// Load and fully run another program before resuming.
    Src(String),
}

/// The open-option switches of a file-open request, one per digit of the
/// option encoding, least significant first.
#[derive(PartialEq, Debug)]
pub struct OpenOpts {
    pub read: bool,
    pub write: bool,
    pub append: bool,
    pub truncate: bool,
    pub create: bool,
    pub create_new: bool,
}

/// Work only the embedding program can perform: the operating-system side
/// of an instruction.  The machine state is already updated up to the
/// request; what follows the call goes through the corresponding
/// completion function.
#[derive(PartialEq, Debug)]
pub enum IoReq {
    /// End the process with the given value (a double encoding).
    Exit(u64),
    /// Open the named file with the given options; completed by
    /// [`sys::open_done`].
    Open(String, OpenOpts),
    /// Close the given descriptor (its table entry is already cleared).
    Close(i32),
    /// Write the given bytes to the descriptor; completed by
    /// [`sys::write_done`].
    Write(i32, Vec<u8>),
    /// Read up to 1024 bytes from the descriptor; completed by
    /// [`sys::read_done`] with the 1024-byte buffer.
    Read(i32, isize, u64),
    /// Render the double encoded by the value to the descriptor.
    PrintNum(i32, u64),
}

/// What one execution step asks of its caller: apply a control signal, or
/// perform an operating-system request first.
#[derive(PartialEq, Debug)]
pub enum Step {
    Sig(Signal),
    Io(IoReq),
}

/// The closed set of operations, in the order of their numeric codes.
#[derive(Clone, Copy, PartialEq, Eq, Structural, Debug)]
pub enum Opcode {
    Nop,
    Mov,
    Cpy,
    Var,
    Loc,
    Incr,
    Allc,
    Add,
    Sub,
    Mul,
    Div,
    Mod,
    Eq,
    Ne,
    Gt,
    Lt,
    And,
    Or,
    Not,
    Jmp,
    Jc,
    Lbl,
    Als,
    Exit,
    Open,
    Close,
    Read,
    Write,
    Src,
    PrintNum,
}

/// The numeric code of an operation.
pub open spec fn spec_opcode_ord(op: Opcode) -> usize {
    match op {
        Opcode::Nop => 0,
        Opcode::Mov => 1,
        Opcode::Cpy => 2,
        Opcode::Var => 3,
        Opcode::Loc => 4,
        Opcode::Incr => 5,
        Opcode::Allc => 6,
        Opcode::Add => 7,
        Opcode::Sub => 8,
        Opcode::Mul => 9,
        Opcode::Div => 10,
        Opcode::Mod => 11,
        Opcode::Eq => 12,
        Opcode::Ne => 13,
        Opcode::Gt => 14,
        Opcode::Lt => 15,
        Opcode::And => 16,
        Opcode::Or => 17,
        Opcode::Not => 18,
        Opcode::Jmp => 19,
        Opcode::Jc => 20,
        Opcode::Lbl => 21,
        Opcode::Als => 22,
        Opcode::Exit => 23,
        Opcode::Open => 24,
        Opcode::Close => 25,
        Opcode::Read => 26,
        Opcode::Write => 27,
        Opcode::Src => 28,
        Opcode::PrintNum => 29,
    }
}

/// The operation a numeric code denotes, if any.
pub open spec fn spec_opcode_of(ord: usize) -> Option<Opcode> {
    if ord == 0 {
        Some(Opcode::Nop)
    } else if ord == 1 {
        Some(Opcode::Mov)
    } else if ord == 2 {
        Some(Opcode::Cpy)
    } else if ord == 3 {
        Some(Opcode::Var)
    } else if ord == 4 {
        Some(Opcode::Loc)
    } else if ord == 5 {
        Some(Opcode::Incr)
    } else if ord == 6 {
        Some(Opcode::Allc)
    } else if ord == 7 {
        Some(Opcode::Add)
    } else if ord == 8 {
        Some(Opcode::Sub)
    } else if ord == 9 {
        Some(Opcode::Mul)
    } else if ord == 10 {
        Some(Opcode::Div)
    } else if ord == 11 {
        Some(Opcode::Mod)
    } else if ord == 12 {
        Some(Opcode::Eq)
    } else if ord == 13 {
        Some(Opcode::Ne)
    } else if ord == 14 {
        Some(Opcode::Gt)
    } else if ord == 15 {
        Some(Opcode::Lt)
    } else if ord == 16 {
        Some(Opcode::And)
    } else if ord == 17 {
        Some(Opcode::Or)
    } else if ord == 18 {
        Some(Opcode::Not)
    } else if ord == 19 {
        Some(Opcode::Jmp)
    } else if ord == 20 {
        Some(Opcode::Jc)
    } else if ord == 21 {
        Some(Opcode::Lbl)
    } else if ord == 22 {
        Some(Opcode::Als)
    } else if ord == 23 {
        Some(Opcode::Exit)
    } else if ord == 24 {
        Some(Opcode::Open)
    } else if ord == 25 {
        Some(Opcode::Close)
    } else if ord == 26 {
        Some(Opcode::Read)
    } else if ord == 27 {
        Some(Opcode::Write)
    } else if ord == 28 {
        Some(Opcode::Src)
    } else if ord == 29 {
        Some(Opcode::PrintNum)
    } else {
        None
    }
}

/// The operation a numeric code denotes, if any.
pub fn opcode_of_ord(ord: usize) -> (r: Option<Opcode>)
    ensures
        r == spec_opcode_of(ord),
{
    match ord {
        0 => Some(Opcode::Nop),
        1 => Some(Opcode::Mov),
        2 => Some(Opcode::Cpy),
        3 => Some(Opcode::Var),
        4 => Some(Opcode::Loc),
        5 => Some(Opcode::Incr),
        6 => Some(Opcode::Allc),
        7 => Some(Opcode::Add),
        8 => Some(Opcode::Sub),
        9 => Some(Opcode::Mul),
        10 => Some(Opcode::Div),
        11 => Some(Opcode::Mod),
        12 => Some(Opcode::Eq),
        13 => Some(Opcode::Ne),
        14 => Some(Opcode::Gt),
        15 => Some(Opcode::Lt),
        16 => Some(Opcode::And),
        17 => Some(Opcode::Or),
        18 => Some(Opcode::Not),
        19 => Some(Opcode::Jmp),
        20 => Some(Opcode::Jc),
        21 => Some(Opcode::Lbl),
        22 => Some(Opcode::Als),
        23 => Some(Opcode::Exit),
        24 => Some(Opcode::Open),
        25 => Some(Opcode::Close),
        26 => Some(Opcode::Read),
        27 => Some(Opcode::Write),
        28 => Some(Opcode::Src),
        29 => Some(Opcode::PrintNum),
        _ => None,
    }
}

/// The name-to-code bindings of the operator table, in declaration order.
pub open spec fn spec_op_table() -> Map<Seq<char>, usize> {
    crate::table::empty_table().insert("nop"@, 0).insert("mov"@, 1).insert("cpy"@, 2).insert(
        "var"@,
        3,
    ).insert("loc"@, 4).insert("incr"@, 5).insert("allc"@, 6).insert("add"@, 7).insert(
        "sub"@,
        8,
    ).insert("mul"@, 9).insert("div"@, 10).insert("mod"@, 11).insert("eq"@, 12).insert(
        "ne"@,
        13,
    ).insert("gt"@, 14).insert("lt"@, 15).insert("and"@, 16).insert("or"@, 17).insert(
        "not"@,
        18,
    ).insert("jmp"@, 19).insert("jc"@, 20).insert("lbl"@, 21).insert("als"@, 22).insert(
        "exit"@,
        23,
    ).insert("open"@, 24).insert("close"@, 25).insert("read"@, 26).insert("write"@, 27).insert(
        "src"@,
        28,
    ).insert("print_num"@, 29)
}

/// Builds the operator table: each operation's name bound to its numeric
/// code.
pub fn init_op_table(h: &mut ahash::AHashMap<String, usize>)
    ensures
        crate::table::table_entries(*final(h)) == spec_op_table(),
{
    *h = crate::table::table_new();
    crate::table::table_insert(h, String::from_str("nop"), 0);
    crate::table::table_insert(h, String::from_str("mov"), 1);
    crate::table::table_insert(h, String::from_str("cpy"), 2);
    crate::table::table_insert(h, String::from_str("var"), 3);
    crate::table::table_insert(h, String::from_str("loc"), 4);
    crate::table::table_insert(h, String::from_str("incr"), 5);
    crate::table::table_insert(h, String::from_str("allc"), 6);
    crate::table::table_insert(h, String::from_str("add"), 7);
    crate::table::table_insert(h, String::from_str("sub"), 8);
    crate::table::table_insert(h, String::from_str("mul"), 9);
    crate::table::table_insert(h, String::from_str("div"), 10);
    crate::table::table_insert(h, String::from_str("mod"), 11);
    crate::table::table_insert(h, String::from_str("eq"), 12);
    crate::table::table_insert(h, String::from_str("ne"), 13);
    crate::table::table_insert(h, String::from_str("gt"), 14);
    crate::table::table_insert(h, String::from_str("lt"), 15);
    crate::table::table_insert(h, String::from_str("and"), 16);
    crate::table::table_insert(h, String::from_str("or"), 17);
    crate::table::table_insert(h, String::from_str("not"), 18);
    crate::table::table_insert(h, String::from_str("jmp"), 19);
    crate::table::table_insert(h, String::from_str("jc"), 20);
    crate::table::table_insert(h, String::from_str("lbl"), 21);
    crate::table::table_insert(h, String::from_str("als"), 22);
    crate::table::table_insert(h, String::from_str("exit"), 23);
    crate::table::table_insert(h, String::from_str("open"), 24);
    crate::table::table_insert(h, String::from_str("close"), 25);
    crate::table::table_insert(h, String::from_str("read"), 26);
    crate::table::table_insert(h, String::from_str("write"), 27);
    crate::table::table_insert(h, String::from_str("src"), 28);
    crate::table::table_insert(h, String::from_str("print_num"), 29);
}

impl Signal {
    /// Applies this signal's control effect to the cursor (and, for label
    /// signals, to the label table).  A nested-load signal is handed back
    /// to the caller, which runs the named program and then advances the
    /// cursor itself.
    pub fn respond(&self, m: &mut Mem, code: &mut Code) -> (r: Result<Option<String>, Error>)
        requires
            old(code).ptr < usize::MAX,
            self matches Signal::SetLbl(l) ==> l < old(m)@.label.len(),
            self matches Signal::SetAls(a, _) ==> a < old(m)@.label.len(),
        ensures
            match *self {
                Signal::Nil => final(m)@ == old(m)@ && final(code).code@ == old(code).code@
                    && final(code).ptr == old(code).ptr + 1 && r == Ok::<Option<String>, Error>(
                    None,
                ),
                Signal::Jmp(i) => final(m)@ == old(m)@ && final(code).code@ == old(code).code@
                    && final(code).ptr == i && r == Ok::<Option<String>, Error>(None),
                Signal::SetLbl(l) => final(m)@ == (MemV {
                    label: old(m)@.label.update(l as int, (old(code).ptr + 1) as usize),
                    ..old(m)@
                }) && final(code).code@ == old(code).code@ && final(code).ptr == old(code).ptr + 1
                    && r == Ok::<Option<String>, Error>(None),
                Signal::SetAls(a, loc) => final(m)@ == (MemV {
                    label: old(m)@.label.update(a as int, loc),
                    ..old(m)@
                }) && final(code).code@ == old(code).code@ && final(code).ptr == old(code).ptr + 1
                    && r == Ok::<Option<String>, Error>(None),
                Signal::Src(ref s) => final(m)@ == old(m)@ && final(code).code@ == old(code).code@
                    && final(code).ptr == old(code).ptr && (r matches Ok(Some(n)) && n@ == s@),
            },
    {
        match self {
            Signal::Nil => {
                code.ptr_incr();
                Ok(None)
            },
            Signal::Jmp(idx) => {
                code.ptr_set(*idx);
                Ok(None)
            },
            Signal::SetLbl(label) => {
                let target = code.ptr() + 1;
                m.label_set(*label, target);
                code.ptr_incr();
                Ok(None)
            },
            Signal::SetAls(alias, loc) => {
                m.label_set(*alias, *loc);
                code.ptr_incr();
                Ok(None)
            },
            Signal::Src(s) => Ok(Some(crate::text::clone_string(s))),
        }
    }
}

/// Relies on slice range indexing: the elements of the line from `i` on
/// (the argument operands, for `i == 1`).
#[verifier::external_body]
pub(crate) fn tail_slice<'a>(v: &'a Vec<crate::lex::Tok>, i: usize) -> (r: &'a [crate::lex::Tok])
    requires
        i <= v@.len(),
    ensures
        r@ == v@.subrange(i as int, v@.len() as int),
{
    &v[i..]
}


/// What the no-operation does.
pub open spec fn nop_rel(v: Seq<crate::lex::Tok>, m0: MemV, m1: MemV, r: Result<Signal, Error>) -> bool {
    m1 == m0 && r == Ok::<Signal, Error>(Signal::Nil)
}

/// Lifts a signal handler's relation to the dispatcher's step result.
pub open spec fn lift_sig(
    rel: spec_fn(Seq<crate::lex::Tok>, MemV, MemV, Result<Signal, Error>) -> bool,
    args: Seq<crate::lex::Tok>,
    m0: MemV,
    m1: MemV,
    r: Result<Step, Error>,
) -> bool {
    match r {
        Ok(st) => st matches Step::Sig(s) && rel(args, m0, m1, Ok(s)),
        Err(e) => rel(args, m0, m1, Err(e)),
    }
}

/// Lifts an operating-system handler's relation to the dispatcher's step
/// result.
pub open spec fn lift_io(
    rel: spec_fn(Seq<crate::lex::Tok>, MemV, MemV, Result<IoReq, Error>) -> bool,
    args: Seq<crate::lex::Tok>,
    m0: MemV,
    m1: MemV,
    r: Result<Step, Error>,
) -> bool {
    match r {
        Ok(st) => st matches Step::Io(q) && rel(args, m0, m1, Ok(q)),
        Err(e) => rel(args, m0, m1, Err(e)),
    }
}

/// What dispatching one resolved operation over its arguments does.
pub open spec fn dispatch_rel(
    op: Opcode,
    args: Seq<crate::lex::Tok>,
    m0: MemV,
    m1: MemV,
    r: Result<Step, Error>,
) -> bool {
    match op {
        Opcode::Nop => lift_sig((|a, x0, x1, rr| nop_rel(a, x0, x1, rr)), args, m0, m1, r),
        Opcode::Mov => lift_sig((|a, x0, x1, rr| memop::mov_rel(a, x0, x1, rr)), args, m0, m1, r),
        Opcode::Cpy => lift_sig((|a, x0, x1, rr| memop::cpy_rel(a, x0, x1, rr)), args, m0, m1, r),
        Opcode::Var => lift_sig((|a, x0, x1, rr| memop::var_rel(a, x0, x1, rr)), args, m0, m1, r),
        Opcode::Loc => lift_sig((|a, x0, x1, rr| memop::loc_rel(a, x0, x1, rr)), args, m0, m1, r),
        Opcode::Incr => lift_sig((|a, x0, x1, rr| memop::incr_rel(a, x0, x1, rr)), args, m0, m1, r),
        Opcode::Allc => lift_sig((|a, x0, x1, rr| memop::allc_rel(a, x0, x1, rr)), args, m0, m1, r),
        Opcode::Add => lift_sig(
            (|a, x0, x1, rr| math::math_rel(a, x0, x1, rr, (|x: u64, y: u64| crate::num::float_add(x, y)))),
            args, m0, m1, r,
        ),
        Opcode::Sub => lift_sig(
            (|a, x0, x1, rr| math::math_rel(a, x0, x1, rr, (|x: u64, y: u64| crate::num::float_sub(x, y)))),
            args, m0, m1, r,
        ),
        Opcode::Mul => lift_sig(
            (|a, x0, x1, rr| math::math_rel(a, x0, x1, rr, (|x: u64, y: u64| crate::num::float_mul(x, y)))),
            args, m0, m1, r,
        ),
        Opcode::Div => lift_sig(
            (|a, x0, x1, rr| math::math_rel(a, x0, x1, rr, (|x: u64, y: u64| crate::num::float_div(x, y)))),
            args, m0, m1, r,
        ),
        Opcode::Mod => lift_sig(
            (|a, x0, x1, rr| math::math_rel(a, x0, x1, rr, (|x: u64, y: u64| crate::num::float_rem(x, y)))),
            args, m0, m1, r,
        ),
        Opcode::Eq => lift_sig(
            (|a, x0, x1, rr| cmp::cmp_rel(a, x0, x1, rr, (|x: u64, y: u64| crate::num::float_eq(x, y)))),
            args, m0, m1, r,
        ),
        Opcode::Ne => lift_sig(
            (|a, x0, x1, rr| cmp::cmp_rel(a, x0, x1, rr, (|x: u64, y: u64| !crate::num::float_eq(x, y)))),
            args, m0, m1, r,
        ),
        Opcode::Gt => lift_sig(
            (|a, x0, x1, rr| cmp::cmp_rel(a, x0, x1, rr, (|x: u64, y: u64| crate::num::float_cmp(x, y) == Some(1i8)))),
            args, m0, m1, r,
        ),
        Opcode::Lt => lift_sig(
            (|a, x0, x1, rr| cmp::cmp_rel(a, x0, x1, rr, (|x: u64, y: u64| crate::num::float_cmp(x, y) == Some(-1i8)))),
            args, m0, m1, r,
        ),
        Opcode::And => lift_sig(
            (|a, x0, x1, rr| logic::logic_rel(a, x0, x1, rr, (|x: u64, y: u64| logic::truthy(x) && logic::truthy(y)))),
            args, m0, m1, r,
        ),
        Opcode::Or => lift_sig(
            (|a, x0, x1, rr| logic::logic_rel(a, x0, x1, rr, (|x: u64, y: u64| logic::truthy(x) || logic::truthy(y)))),
            args, m0, m1, r,
        ),
        Opcode::Not => lift_sig((|a, x0, x1, rr| logic::not_rel(a, x0, x1, rr)), args, m0, m1, r),
        Opcode::Jmp => lift_sig((|a, x0, x1, rr| flow::jmp_rel(a, x0, x1, rr)), args, m0, m1, r),
        Opcode::Jc => lift_sig((|a, x0, x1, rr| flow::jc_rel(a, x0, x1, rr)), args, m0, m1, r),
        Opcode::Lbl => lift_sig((|a, x0, x1, rr| flow::lbl_rel(a, x0, x1, rr)), args, m0, m1, r),
        Opcode::Als => lift_sig((|a, x0, x1, rr| flow::als_rel(a, x0, x1, rr)), args, m0, m1, r),
        Opcode::Exit => lift_io((|a, x0, x1, rr| sys::exit_rel(a, x0, x1, rr)), args, m0, m1, r),
        Opcode::Open => lift_io((|a, x0, x1, rr| sys::open_rel(a, x0, x1, rr)), args, m0, m1, r),
        Opcode::Close => lift_io((|a, x0, x1, rr| sys::close_rel(a, x0, x1, rr)), args, m0, m1, r),
        Opcode::Read => lift_io((|a, x0, x1, rr| sys::read_rel(a, x0, x1, rr)), args, m0, m1, r),
        Opcode::Write => lift_io((|a, x0, x1, rr| sys::write_rel(a, x0, x1, rr)), args, m0, m1, r),
        Opcode::Src => lift_sig((|a, x0, x1, rr| source::src_rel(a, x0, x1, rr)), args, m0, m1, r),
        Opcode::PrintNum => lift_io((|a, x0, x1, rr| extra::print_num_rel(a, x0, x1, rr)), args, m0, m1, r),
    }
}

/// What executing the line under the cursor does: an empty line is a
/// no-op; otherwise the operator symbol's pre-resolved code selects the
/// handler, which runs on the remaining operands.
pub open spec fn exec_rel(
    line: Seq<crate::lex::Tok>,
    m0: MemV,
    m1: MemV,
    r: Result<Step, Error>,
) -> bool {
    if line.len() == 0 {
        m1 == m0 && r == Ok::<Step, Error>(Step::Sig(Signal::Nil))
    } else {
        match line[0] {
            crate::lex::Tok::Sym(hi) => match spec_opcode_of(hi.idx) {
                None => m1 == m0 && (r matches Err(x) && x@ == ErrV::UnknownOp(hi.sym@)),
                Some(op) => dispatch_rel(op, line.subrange(1, line.len() as int), m0, m1, r),
            },
            _ => m1 == m0 && (r matches Err(x) && x@ == ErrV::WrongTokTypeForOp(
                crate::lex::spec_kind_name(crate::lex::spec_kind(line[0])),
            )),
        }
    }
}

/// Executes the line under the cursor: resolves the operator's code and
/// runs its handler over the argument operands.
pub fn exec(m: &mut Mem, c: &Code) -> (r: Result<Step, Error>)
    requires
        c.ptr < c.code@.len(),
    ensures
        exec_rel(c.code@[c.ptr as int]@, old(m)@, final(m)@, r),
{
    let line = match c.curr() {
        Some(v) => v,
        None => {
            proof {
                assert(false);
            }
            return Ok(Step::Sig(Signal::Nil));
        },
    };
    if line.len() == 0 {
        return Ok(Step::Sig(Signal::Nil));
    }
    let hi = match &line[0] {
        crate::lex::Tok::Sym(hi) => hi,
        _ => {
            return Err(Error::WrongTokTypeForOp(line[0].to_type_str()));
        },
    };
    let op = match opcode_of_ord(hi.idx) {
        Some(op) => op,
        None => {
            return Err(Error::UnknownOp(crate::text::clone_string(&hi.sym)));
        },
    };
    let args = tail_slice(line, 1);
    match op {
        Opcode::Nop => wrap_sig(nop::nop(args, m)),
        Opcode::Mov => wrap_sig(memop::mov(args, m)),
        Opcode::Cpy => wrap_sig(memop::cpy(args, m)),
        Opcode::Var => wrap_sig(memop::var(args, m)),
        Opcode::Loc => wrap_sig(memop::loc(args, m)),
        Opcode::Incr => wrap_sig(memop::incr(args, m)),
        Opcode::Allc => wrap_sig(memop::allc(args, m)),
        Opcode::Add => wrap_sig(math::add(args, m)),
        Opcode::Sub => wrap_sig(math::sub(args, m)),
        Opcode::Mul => wrap_sig(math::mul(args, m)),
        Opcode::Div => wrap_sig(math::div(args, m)),
        Opcode::Mod => wrap_sig(math::modulo(args, m)),
        Opcode::Eq => wrap_sig(cmp::eq(args, m)),
        Opcode::Ne => wrap_sig(cmp::ne(args, m)),
        Opcode::Gt => wrap_sig(cmp::gt(args, m)),
        Opcode::Lt => wrap_sig(cmp::lt(args, m)),
        Opcode::And => wrap_sig(logic::and(args, m)),
        Opcode::Or => wrap_sig(logic::or(args, m)),
        Opcode::Not => wrap_sig(logic::not(args, m)),
        Opcode::Jmp => wrap_sig(flow::jmp(args, m)),
        Opcode::Jc => wrap_sig(flow::jc(args, m)),
        Opcode::Lbl => wrap_sig(flow::lbl(args, m)),
        Opcode::Als => wrap_sig(flow::als(args, m)),
        Opcode::Exit => wrap_io(sys::exit(args, m)),
        Opcode::Open => wrap_io(sys::open(args, m)),
        Opcode::Close => wrap_io(sys::close(args, m)),
        Opcode::Read => wrap_io(sys::read(args, m)),
        Opcode::Write => wrap_io(sys::write(args, m)),
        Opcode::Src => wrap_sig(source::src(args, m)),
        Opcode::PrintNum => wrap_io(extra::print_num(args, m)),
    }
}

/// Wraps a signal handler's outcome as a step.
fn wrap_sig(r: Result<Signal, Error>) -> (out: Result<Step, Error>)
    ensures
        match r {
            Ok(s) => out == Ok::<Step, Error>(Step::Sig(s)),
            Err(e) => out == Err::<Step, Error>(e),
        },
{
    match r {
        Ok(s) => Ok(Step::Sig(s)),
        Err(e) => Err(e),
    }
}

/// Wraps an operating-system handler's outcome as a step.
fn wrap_io(r: Result<IoReq, Error>) -> (out: Result<Step, Error>)
    ensures
        match r {
            Ok(q) => out == Ok::<Step, Error>(Step::Io(q)),
            Err(e) => out == Err::<Step, Error>(e),
        },
{
    match r {
        Ok(q) => Ok(Step::Io(q)),
        Err(e) => Err(e),
    }
}

} // verus!
