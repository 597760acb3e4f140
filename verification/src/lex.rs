//! The tokenizer: one source line in, a typed operand sequence out.
//!
//! A line is `OPERATOR : ARG , ARG , ...`; whitespace outside string
//! literals is insignificant, `#` starts a trailing comment.  Fields are
//! classified by their leading byte: digit or minus starts a numeric
//! literal, `[` an index expression, `$` a variable reference, `"` a string
//! literal, anything else a symbol.  Tokenization has no side effects and
//! depends only on the input line.

use vstd::prelude::*;

use crate::error::Error;
use crate::num::float_of_decimal;
use crate::text::string_from_utf8;
use vstd::string::StringSliceAdditionalSpecFns;
use vstd::utf8::{decode_utf8, valid_utf8};

verus! {

/// A name together with the slot index it resolves to; the index is zero
/// until preprocessing assigns it.
#[derive(PartialEq, Debug)]
pub struct HashIdx {
    pub sym: String,
    pub idx: usize,
}

impl HashIdx {
    pub fn new(s: &str, i: usize) -> (r: Self)
        ensures
            r.sym@ == s@,
            r.idx == i,
    {
        HashIdx { sym: s.to_owned(), idx: i }
    }

    pub fn from_str(s: &str) -> (r: Self)
        ensures
            r.sym@ == s@,
            r.idx == 0,
    {
        HashIdx { sym: s.to_owned(), idx: 0 }
    }
}

/// An index expression: a literal address, a nested indirection, or a
/// variable whose current value supplies the address.
#[derive(PartialEq, Debug)]
pub enum Idx {
    Num(isize),
    Idx(Box<Idx>),
    Var(HashIdx),
}

/// A typed operand token.
#[derive(PartialEq, Debug)]
pub enum Tok {
    Num(u64),
    Idx(Idx),
    Var(HashIdx),
    Ltl(String),
    Sym(HashIdx),
    Eof,
}

/// The kind of a token, with the payload forgotten.
#[derive(Clone, Copy, PartialEq, Eq, Structural, Debug)]
pub enum TokKind {
    Num,
    Idx,
    Var,
    Ltl,
    Sym,
    Eof,
}

pub open spec fn spec_kind(t: Tok) -> TokKind {
    match t {
        Tok::Num(_) => TokKind::Num,
        Tok::Idx(_) => TokKind::Idx,
        Tok::Var(_) => TokKind::Var,
        Tok::Ltl(_) => TokKind::Ltl,
        Tok::Sym(_) => TokKind::Sym,
        Tok::Eof => TokKind::Eof,
    }
}

/// The display name of a token kind.
pub open spec fn spec_kind_name(k: TokKind) -> Seq<char> {
    match k {
        TokKind::Num => "Num"@,
        TokKind::Idx => "Idx"@,
        TokKind::Var => "Var"@,
        TokKind::Ltl => "Ltl"@,
        TokKind::Sym => "Sym"@,
        TokKind::Eof => "Eof"@,
    }
}

/// The token kind a display name denotes, if any.
pub open spec fn spec_kind_of_name(s: Seq<char>) -> Option<TokKind> {
    if s == "Num"@ {
        Some(TokKind::Num)
    } else if s == "Idx"@ {
        Some(TokKind::Idx)
    } else if s == "Var"@ {
        Some(TokKind::Var)
    } else if s == "Ltl"@ {
        Some(TokKind::Ltl)
    } else if s == "Sym"@ {
        Some(TokKind::Sym)
    } else if s == "Eof"@ {
        Some(TokKind::Eof)
    } else {
        None
    }
}

impl Tok {
    /// The kind of this token.
    pub fn kind(&self) -> (k: TokKind)
        ensures
            k == spec_kind(*self),
    {
        match self {
            Tok::Num(_) => TokKind::Num,
            Tok::Idx(_) => TokKind::Idx,
            Tok::Var(_) => TokKind::Var,
            Tok::Ltl(_) => TokKind::Ltl,
            Tok::Sym(_) => TokKind::Sym,
            Tok::Eof => TokKind::Eof,
        }
    }

    /// The display name of this token's kind.
    pub fn to_type_str(&self) -> (r: &'static str)
        ensures
            r@ == spec_kind_name(spec_kind(*self)),
    {
        match self {
            Tok::Num(_) => "Num",
            Tok::Idx(_) => "Idx",
            Tok::Var(_) => "Var",
            Tok::Ltl(_) => "Ltl",
            Tok::Sym(_) => "Sym",
            Tok::Eof => "Eof",
        }
    }
}

/// The token kind a display name denotes, if any.
pub fn kind_of_name(s: &str) -> (r: Option<TokKind>)
    ensures
        r == spec_kind_of_name(s@),
{
    let t = s.to_owned();
    if t == String::from_str("Num") {
        Some(TokKind::Num)
    } else if t == String::from_str("Idx") {
        Some(TokKind::Idx)
    } else if t == String::from_str("Var") {
        Some(TokKind::Var)
    } else if t == String::from_str("Ltl") {
        Some(TokKind::Ltl)
    } else if t == String::from_str("Sym") {
        Some(TokKind::Sym)
    } else if t == String::from_str("Eof") {
        Some(TokKind::Eof)
    } else {
        None
    }
}

/// Serializing a kind to its display name and reading it back recovers the
/// kind: the kind of every token survives the round trip through its
/// rendered name.
pub proof fn lemma_kind_name_round_trip(k: TokKind)
    ensures
        spec_kind_of_name(spec_kind_name(k)) == Some(k),
{
    reveal_strlit("Num");
    reveal_strlit("Idx");
    reveal_strlit("Var");
    reveal_strlit("Ltl");
    reveal_strlit("Sym");
    reveal_strlit("Eof");
    // The names differ pairwise already in their first character.
    assert("Num"@[0] == 'N');
    assert("Idx"@[0] == 'I');
    assert("Var"@[0] == 'V');
    assert("Ltl"@[0] == 'L');
    assert("Sym"@[0] == 'S');
    assert("Eof"@[0] == 'E');
}


/// True of an ASCII decimal digit.
pub open spec fn is_digit(c: u8) -> bool {
    48 <= c <= 57
}

/// The value of a digit string, most significant first.
pub open spec fn digits_val(s: Seq<u8>) -> int
    decreases s.len(),
{
    if s.len() == 0 {
        0
    } else {
        digits_val(s.drop_last()) * 10 + (s.last() - 48)
    }
}

pub open spec fn all_digits(s: Seq<u8>) -> bool {
    forall|i: int| 0 <= i < s.len() ==> is_digit(s[i])
}

/// The signed integer a text denotes: an optional sign, then one or more
/// digits, the value within `isize` range -- the grammar of `isize`
/// parsing in Rust.
pub open spec fn spec_parse_isize(s: Seq<u8>) -> Option<isize> {
    let neg = s.len() > 0 && s[0] == 45;
    let ds = if s.len() > 0 && (s[0] == 43 || s[0] == 45) {
        s.subrange(1, s.len() as int)
    } else {
        s
    };
    if ds.len() == 0 || !all_digits(ds) {
        None
    } else {
        let v = if neg {
            -digits_val(ds)
        } else {
            digits_val(ds)
        };
        if isize::MIN <= v <= isize::MAX {
            Some(v as isize)
        } else {
            None
        }
    }
}

proof fn lemma_digits_val_nonneg(s: Seq<u8>)
    requires
        all_digits(s),
    ensures
        digits_val(s) >= 0,
    decreases s.len(),
{
    if s.len() > 0 {
        assert(all_digits(s.drop_last()));
        lemma_digits_val_nonneg(s.drop_last());
    }
}

/// Extending a digit string cannot shrink its value.
proof fn lemma_digits_val_mono(s: Seq<u8>, i: int)
    requires
        0 <= i <= s.len(),
        all_digits(s),
    ensures
        digits_val(s.subrange(0, i)) <= digits_val(s),
    decreases s.len() - i,
{
    if i == s.len() {
        assert(s.subrange(0, i) =~= s);
    } else {
        let p = s.subrange(0, i);
        let q = s.subrange(0, i + 1);
        assert(q.drop_last() =~= p);
        assert(all_digits(p));
        lemma_digits_val_nonneg(p);
        assert(digits_val(q) == digits_val(p) * 10 + (s[i] - 48));
        lemma_digits_val_mono(s, i + 1);
    }
}

/// When the accumulated prefix no longer fits in 64 bits, the whole digit
/// string is out of `isize` range (or contains a non-digit), so parsing
/// yields `None` either way.
proof fn overflow_means_out_of_range(ds: Seq<u8>, k: int)
    requires
        0 < k <= ds.len(),
        all_digits(ds.subrange(0, k)),
        digits_val(ds.subrange(0, k)) > u64::MAX,
    ensures
        !all_digits(ds) || digits_val(ds) > u64::MAX,
{
    if all_digits(ds) {
        lemma_digits_val_mono(ds, k);
    }
}

/// Parses the signed decimal integer in `b[lo..hi]`, as `isize` parsing
/// does: `None` on an empty or malformed text and on a value out of range.
#[verifier::loop_isolation(false)]
fn parse_isize_bytes(b: &[u8], lo: usize, hi: usize) -> (r: Option<isize>)
    requires
        lo <= hi <= b@.len(),
    ensures
        r == spec_parse_isize(b@.subrange(lo as int, hi as int)),
{
    let ghost s = b@.subrange(lo as int, hi as int);
    if lo == hi {
        return None;
    }
    let c0 = b[lo];
    let neg = c0 == 45;
    let start: usize = if c0 == 43 || c0 == 45 {
        lo + 1
    } else {
        lo
    };
    let ghost ds = b@.subrange(start as int, hi as int);
    proof {
        if start != lo {
            assert(ds =~= s.subrange(1, s.len() as int));
        }
    }
    if start == hi {
        return None;
    }
    let mut mag: u64 = 0;
    let mut i = start;
    while i < hi
        invariant
            start <= i <= hi <= b@.len(),
            ds == b@.subrange(start as int, hi as int),
            all_digits(b@.subrange(start as int, i as int)),
            mag == digits_val(b@.subrange(start as int, i as int)),
        decreases hi - i,
    {
        let c = b[i];
        let ghost pre = b@.subrange(start as int, i as int);
        let ghost post = b@.subrange(start as int, i as int + 1);
        proof {
            assert(post.drop_last() =~= pre);
            assert(post.last() == b@[i as int]);
            assert(pre =~= post.subrange(0, post.len() - 1));
        }
        if c < 48 || c > 57 {
            proof {
                assert(!is_digit(ds[i - start]));
            }
            return None;
        }
        let d = (c - 48) as u64;
        let m10 = match mag.checked_mul(10) {
            Some(m) => m,
            None => {
                proof {
                    assert(all_digits(post));
                    assert(digits_val(post) == mag * 10 + d);
                    assert(mag * 10 + d > u64::MAX);
                    assert(post =~= ds.subrange(0, i - start + 1));
                    overflow_means_out_of_range(ds, i - start + 1);
                }
                return None;
            },
        };
        let nm = match m10.checked_add(d) {
            Some(m) => m,
            None => {
                proof {
                    assert(all_digits(post));
                    assert(digits_val(post) == mag * 10 + d);
                    assert(mag * 10 + d > u64::MAX);
                    assert(post =~= ds.subrange(0, i - start + 1));
                    overflow_means_out_of_range(ds, i - start + 1);
                }
                return None;
            },
        };
        proof {
            assert(all_digits(post));
            assert(digits_val(post) == mag * 10 + d);
        }
        mag = nm;
        i = i + 1;
    }
    proof {
        assert(b@.subrange(start as int, i as int) =~= ds);
        lemma_digits_val_nonneg(ds);
    }
    let bound: u64 = isize::MAX as u64;
    if neg {
        if mag == bound + 1 {
            Some(isize::MIN)
        } else if mag > bound {
            None
        } else {
            Some(-(mag as isize))
        }
    } else {
        if mag > bound {
            None
        } else {
            Some(mag as isize)
        }
    }
}



/// An ASCII letter folded to lower case; other bytes unchanged.
pub open spec fn lower_byte(c: u8) -> u8 {
    if 65 <= c <= 90 {
        (c + 32) as u8
    } else {
        c
    }
}

/// The text after an optional leading sign.
pub open spec fn float_tail(b: Seq<u8>) -> Seq<u8> {
    if b.len() > 0 && (b[0] == 43 || b[0] == 45) {
        b.subrange(1, b.len() as int)
    } else {
        b
    }
}

/// The word `inf`, in any case.
pub open spec fn kw_inf(t: Seq<u8>) -> bool {
    t.len() == 3 && lower_byte(t[0]) == 105 && lower_byte(t[1]) == 110 && lower_byte(t[2]) == 102
}

/// The word `infinity`, in any case.
pub open spec fn kw_infinity(t: Seq<u8>) -> bool {
    &&& t.len() == 8
    &&& lower_byte(t[0]) == 105
    &&& lower_byte(t[1]) == 110
    &&& lower_byte(t[2]) == 102
    &&& lower_byte(t[3]) == 105
    &&& lower_byte(t[4]) == 110
    &&& lower_byte(t[5]) == 105
    &&& lower_byte(t[6]) == 116
    &&& lower_byte(t[7]) == 121
}

/// The word `nan`, in any case.
pub open spec fn kw_nan(t: Seq<u8>) -> bool {
    t.len() == 3 && lower_byte(t[0]) == 110 && lower_byte(t[1]) == 97 && lower_byte(t[2]) == 110
}

/// One step of the decimal-number automaton.  States: 0 start, 1 integer
/// digits, 2 after a leading dot, 3 fraction digits (or after a dot that
/// followed digits), 4 after the exponent letter, 5 after the exponent
/// sign, 6 exponent digits, 7 reject.
pub open spec fn dec_step(st: int, c: u8) -> int {
    if st == 0 {
        if is_digit(c) {
            1
        } else if c == 46 {
            2
        } else {
            7
        }
    } else if st == 1 {
        if is_digit(c) {
            1
        } else if c == 46 {
            3
        } else if c == 101 || c == 69 {
            4
        } else {
            7
        }
    } else if st == 2 {
        if is_digit(c) {
            3
        } else {
            7
        }
    } else if st == 3 {
        if is_digit(c) {
            3
        } else if c == 101 || c == 69 {
            4
        } else {
            7
        }
    } else if st == 4 {
        if is_digit(c) {
            6
        } else if c == 43 || c == 45 {
            5
        } else {
            7
        }
    } else if st == 5 || st == 6 {
        if is_digit(c) {
            6
        } else {
            7
        }
    } else {
        7
    }
}

/// The state the decimal automaton reaches on `t` from `st`.
pub open spec fn dec_run(t: Seq<u8>, st: int) -> int
    decreases t.len(),
{
    if t.len() == 0 {
        st
    } else {
        dec_run(t.subrange(1, t.len() as int), dec_step(st, t[0]))
    }
}

/// An accepting state: digits, a fraction, or exponent digits were seen
/// last.
pub open spec fn dec_accept(st: int) -> bool {
    st == 1 || st == 3 || st == 6
}

/// A well-formed decimal number: digits with an optional fraction and an
/// optional exponent, or a leading dot followed by digits.
pub open spec fn is_dec_text(t: Seq<u8>) -> bool {
    dec_accept(dec_run(t, 0))
}

/// A well-formed floating-point text, as number parsing accepts it: an
/// optional sign, then `inf`, `infinity`, `nan` (in any case) or a
/// decimal number.  Hexadecimal forms are not numbers.
pub open spec fn is_float_text(b: Seq<u8>) -> bool {
    let t = float_tail(b);
    kw_inf(t) || kw_infinity(t) || kw_nan(t) || is_dec_text(t)
}

/// The encoding a keyword float text denotes: the infinity of the given
/// sign, or the quiet NaN with the given sign bit; nothing for a decimal
/// text.
pub open spec fn float_keyword_bits(b: Seq<u8>) -> Option<u64> {
    let neg = b.len() > 0 && b[0] == 45;
    let t = float_tail(b);
    if kw_inf(t) || kw_infinity(t) {
        if neg {
            Some(0xFFF0_0000_0000_0000u64)
        } else {
            Some(0x7FF0_0000_0000_0000u64)
        }
    } else if kw_nan(t) {
        if neg {
            Some(0xFFF8_0000_0000_0000u64)
        } else {
            Some(0x7FF8_0000_0000_0000u64)
        }
    } else {
        None
    }
}

/// An ASCII letter folded to lower case.
fn to_lower(c: u8) -> (r: u8)
    ensures
        r == lower_byte(c),
{
    if 65 <= c && c <= 90 {
        c + 32
    } else {
        c
    }
}

/// One step of the decimal-number automaton.
fn dec_step_exec(st: u8, c: u8) -> (r: u8)
    requires
        st <= 7,
    ensures
        r == dec_step(st as int, c),
        r <= 7,
{
    let digit = 48 <= c && c <= 57;
    if st == 0 {
        if digit {
            1
        } else if c == 46 {
            2
        } else {
            7
        }
    } else if st == 1 {
        if digit {
            1
        } else if c == 46 {
            3
        } else if c == 101 || c == 69 {
            4
        } else {
            7
        }
    } else if st == 2 {
        if digit {
            3
        } else {
            7
        }
    } else if st == 3 {
        if digit {
            3
        } else if c == 101 || c == 69 {
            4
        } else {
            7
        }
    } else if st == 4 {
        if digit {
            6
        } else if c == 43 || c == 45 {
            5
        } else {
            7
        }
    } else if st == 5 || st == 6 {
        if digit {
            6
        } else {
            7
        }
    } else {
        7
    }
}

/// Classifies a numeric field: whether it is a well-formed float text,
/// and the constant encoding if it is one of the keyword forms.
#[verifier::loop_isolation(false)]
fn classify_float_text(b: &[u8]) -> (r: (bool, Option<u64>))
    ensures
        r.0 == is_float_text(b@),
        r.1 == float_keyword_bits(b@),
{
    let len = b.len();
    let neg = len > 0 && b[0] == 45;
    let start: usize = if len > 0 && (b[0] == 43 || b[0] == 45) {
        1
    } else {
        0
    };
    let ghost t = float_tail(b@);
    proof {
        assert(t =~= b@.subrange(start as int, len as int));
    }
    let tlen = len - start;
    let inf = tlen == 3 && to_lower(b[start]) == 105 && to_lower(b[start + 1]) == 110 && to_lower(
        b[start + 2],
    ) == 102;
    let infinity = tlen == 8 && to_lower(b[start]) == 105 && to_lower(b[start + 1]) == 110
        && to_lower(b[start + 2]) == 102 && to_lower(b[start + 3]) == 105 && to_lower(
        b[start + 4],
    ) == 110 && to_lower(b[start + 5]) == 105 && to_lower(b[start + 6]) == 116 && to_lower(
        b[start + 7],
    ) == 121;
    let nan = tlen == 3 && to_lower(b[start]) == 110 && to_lower(b[start + 1]) == 97 && to_lower(
        b[start + 2],
    ) == 110;
    let kw: Option<u64> = if inf || infinity {
        if neg {
            Some(0xFFF0_0000_0000_0000u64)
        } else {
            Some(0x7FF0_0000_0000_0000u64)
        }
    } else if nan {
        if neg {
            Some(0xFFF8_0000_0000_0000u64)
        } else {
            Some(0x7FF8_0000_0000_0000u64)
        }
    } else {
        None
    };
    let mut st: u8 = 0;
    let mut i = start;
    while i < len
        invariant
            start <= i <= len,
            st <= 7,
            dec_run(t, 0) == dec_run(b@.subrange(i as int, len as int), st as int),
        decreases len - i,
    {
        let ghost cur = b@.subrange(i as int, len as int);
        proof {
            assert(cur[0] == b@[i as int]);
            assert(cur.subrange(1, cur.len() as int) =~= b@.subrange(i as int + 1, len as int));
        }
        st = dec_step_exec(st, b[i]);
        i = i + 1;
    }
    proof {
        assert(b@.subrange(len as int, len as int).len() == 0);
    }
    let dec = st == 1 || st == 3 || st == 6;
    (inf || infinity || nan || dec, kw)
}

/// Copies `b[lo..hi]` into an owned vector.
fn bytes_to_vec(b: &[u8], lo: usize, hi: usize) -> (v: Vec<u8>)
    requires
        lo <= hi <= b@.len(),
    ensures
        v@ == b@.subrange(lo as int, hi as int),
{
    let mut v: Vec<u8> = Vec::new();
    let mut i = lo;
    while i < hi
        invariant
            lo <= i <= hi <= b@.len(),
            v@ == b@.subrange(lo as int, i as int),
        decreases hi - i,
    {
        v.push(b[i]);
        proof {
            assert(v@ =~= b@.subrange(lo as int, i as int + 1));
        }
        i = i + 1;
    }
    proof {
        assert(v@ =~= b@.subrange(lo as int, hi as int));
    }
    v
}

/// What parsing an index expression yields for the byte string `b`,
/// which starts with `[`: the result `r` is the unique value this
/// predicate admits.
pub open spec fn idx_rel(b: Seq<u8>, r: Result<Idx, Error>) -> bool
    decreases b.len(),
{
    let len = b.len() as int;
    if len == 0 || b[len - 1] != 93 {
        r == Err::<Idx, Error>(Error::UnterminatedIdx)
    } else if len == 2 {
        r == Err::<Idx, Error>(Error::EmptyIdx)
    } else if len < 3 {
        r == Err::<Idx, Error>(Error::UnterminatedIdx)
    } else if b[1] == 36 {
        if len == 3 {
            r == Err::<Idx, Error>(Error::MissingVarName)
        } else {
            let name = b.subrange(2, len - 1);
            if vstd::utf8::valid_utf8(name) {
                r matches Ok(Idx::Var(hi)) && hi.sym@ == vstd::utf8::decode_utf8(name)
                    && hi.idx == 0
            } else {
                r == Err::<Idx, Error>(Error::InvalidUtf8)
            }
        }
    } else if b[1] == 91 {
        match r {
            Ok(i) => i matches Idx::Idx(inner) && idx_rel(b.subrange(1, len - 1), Ok(*inner)),
            Err(e) => idx_rel(b.subrange(1, len - 1), Err(e)),
        }
    } else {
        let digits = b.subrange(1, len - 1);
        match spec_parse_isize(digits) {
            Some(v) => r == Ok::<Idx, Error>(Idx::Num(v)),
            None => if vstd::utf8::valid_utf8(digits) {
                r matches Err(Error::ParseIdxError(s)) && s@ == vstd::utf8::decode_utf8(digits)
            } else {
                r == Err::<Idx, Error>(Error::InvalidUtf8)
            },
        }
    }
}

/// Parses the index expression in `b[lo..hi]`: nested brackets raise the
/// indirection depth, `$name` roots the chain at a variable, and anything
/// else must be a signed integer address.
#[verifier::loop_isolation(false)]
fn eat_idx(b: &[u8], lo: usize, hi: usize) -> (r: Result<Idx, Error>)
    requires
        lo < hi <= b@.len(),
        b@[lo as int] == 91,
    ensures
        idx_rel(b@.subrange(lo as int, hi as int), r),
    decreases hi - lo,
{
    let ghost s = b@.subrange(lo as int, hi as int);
    let len = hi - lo;
    if b[hi - 1] != 93 {
        return Err(Error::UnterminatedIdx);
    }
    if len == 2 {
        return Err(Error::EmptyIdx);
    }
    // The first byte is `[`, so a one-byte input already failed the
    // terminator test above; at least three bytes remain here.
    match b[lo + 1] {
        36 => {
            if len == 3 {
                return Err(Error::MissingVarName);
            }
            let ghost name = s.subrange(2, len as int - 1);
            proof {
                assert(name =~= b@.subrange(lo as int + 2, hi as int - 1));
            }
            let v = bytes_to_vec(b, lo + 2, hi - 1);
            match string_from_utf8(v) {
                Some(sym) => Ok(Idx::Var(HashIdx { sym, idx: 0 })),
                None => Err(Error::InvalidUtf8),
            }
        },
        91 => {
            proof {
                assert(s.subrange(1, len as int - 1) =~= b@.subrange(
                    lo as int + 1,
                    hi as int - 1,
                ));
            }
            match eat_idx(b, lo + 1, hi - 1) {
                Ok(inner) => Ok(Idx::Idx(Box::new(inner))),
                Err(e) => Err(e),
            }
        },
        _ => {
            let ghost digits = s.subrange(1, len as int - 1);
            proof {
                assert(digits =~= b@.subrange(lo as int + 1, hi as int - 1));
            }
            match parse_isize_bytes(b, lo + 1, hi - 1) {
                Some(v) => Ok(Idx::Num(v)),
                None => {
                    let v = bytes_to_vec(b, lo + 1, hi - 1);
                    match string_from_utf8(v) {
                        Some(text) => Err(Error::ParseIdxError(text)),
                        None => Err(Error::InvalidUtf8),
                    }
                },
            }
        },
    }
}

/// What classifying a completed field yields: empty means end of line,
/// and the leading byte selects number, index, variable, string literal
/// or symbol.
pub open spec fn from_u8_rel(b: Seq<u8>, r: Result<Tok, Error>) -> bool {
    let len = b.len() as int;
    if len == 0 {
        r == Ok::<Tok, Error>(Tok::Eof)
    } else if b[0] == 45 || (48 <= b[0] <= 57) {
        if !is_float_text(b) {
            if vstd::utf8::valid_utf8(b) {
                r matches Err(Error::ParseNumError(s)) && s@ == vstd::utf8::decode_utf8(b)
            } else {
                r == Err::<Tok, Error>(Error::InvalidUtf8)
            }
        } else {
            match float_keyword_bits(b) {
                Some(bits) => r == Ok::<Tok, Error>(Tok::Num(bits)),
                None => if b.len() >= 0x8000_0000 {
                    if vstd::utf8::valid_utf8(b) {
                        r matches Err(Error::ParseNumError(s)) && s@ == vstd::utf8::decode_utf8(b)
                    } else {
                        r == Err::<Tok, Error>(Error::InvalidUtf8)
                    }
                } else {
                    match crate::num::float_of_decimal(b) {
                        Some(f) => r == Ok::<Tok, Error>(Tok::Num(f)),
                        None => if vstd::utf8::valid_utf8(b) {
                            r matches Err(Error::ParseNumError(s)) && s@
                                == vstd::utf8::decode_utf8(b)
                        } else {
                            r == Err::<Tok, Error>(Error::InvalidUtf8)
                        },
                    }
                },
            }
        }
    } else if b[0] == 91 {
        match r {
            Ok(t) => t matches Tok::Idx(i) && idx_rel(b, Ok(i)),
            Err(e) => idx_rel(b, Err(e)),
        }
    } else if b[0] == 36 {
        let name = b.subrange(1, len);
        if vstd::utf8::valid_utf8(name) {
            r matches Ok(Tok::Var(hi)) && hi.sym@ == vstd::utf8::decode_utf8(name) && hi.idx == 0
        } else {
            r == Err::<Tok, Error>(Error::InvalidUtf8)
        }
    } else if b[0] == 34 {
        if len < 2 {
            r matches Ok(Tok::Ltl(s)) && s@ == Seq::<char>::empty()
        } else {
            let content = b.subrange(1, len - 1);
            if vstd::utf8::valid_utf8(content) {
                r matches Ok(Tok::Ltl(s)) && s@ == vstd::utf8::decode_utf8(content)
            } else {
                r == Err::<Tok, Error>(Error::InvalidUtf8)
            }
        }
    } else {
        if vstd::utf8::valid_utf8(b) {
            r matches Ok(Tok::Sym(hi)) && hi.sym@ == vstd::utf8::decode_utf8(b) && hi.idx == 0
        } else {
            r == Err::<Tok, Error>(Error::InvalidUtf8)
        }
    }
}

/// Classifies a completed field by its leading byte.
fn from_u8(b: &Vec<u8>) -> (r: Result<Tok, Error>)
    ensures
        from_u8_rel(b@, r),
{
    let len = b.len();
    if len == 0 {
        return Ok(Tok::Eof);
    }
    let c0 = b[0];
    if c0 == 45 || (48 <= c0 && c0 <= 57) {
        let shape = classify_float_text(b.as_slice());
        if !shape.0 {
            let v = bytes_to_vec(b.as_slice(), 0, len);
            proof {
                assert(v@ =~= b@);
            }
            return match string_from_utf8(v) {
                Some(text) => Err(Error::ParseNumError(text)),
                None => Err(Error::InvalidUtf8),
            };
        }
        if len >= 0x8000_0000usize {
            let v = bytes_to_vec(b.as_slice(), 0, len);
            proof {
                assert(v@ =~= b@);
            }
            return match string_from_utf8(v) {
                Some(text) => Err(Error::ParseNumError(text)),
                None => Err(Error::InvalidUtf8),
            };
        }
        match shape.1 {
            Some(bits) => Ok(Tok::Num(bits)),
            None => match crate::num::exec_float_of_decimal(b.as_slice()) {
                Some(f) => Ok(Tok::Num(f)),
                None => {
                    let v = bytes_to_vec(b.as_slice(), 0, len);
                    proof {
                        assert(v@ =~= b@);
                    }
                    match string_from_utf8(v) {
                        Some(text) => Err(Error::ParseNumError(text)),
                        None => Err(Error::InvalidUtf8),
                    }
                },
            },
        }
    } else if c0 == 91 {
        proof {
            assert(b@.subrange(0, len as int) =~= b@);
        }
        match eat_idx(b.as_slice(), 0, len) {
            Ok(i) => Ok(Tok::Idx(i)),
            Err(e) => Err(e),
        }
    } else if c0 == 36 {
        let v = bytes_to_vec(b.as_slice(), 1, len);
        match string_from_utf8(v) {
            Some(sym) => Ok(Tok::Var(HashIdx { sym, idx: 0 })),
            None => Err(Error::InvalidUtf8),
        }
    } else if c0 == 34 {
        if len < 2 {
            Ok(Tok::Ltl(String::new()))
        } else {
            let v = bytes_to_vec(b.as_slice(), 1, len - 1);
            match string_from_utf8(v) {
                Some(content) => Ok(Tok::Ltl(content)),
                None => Err(Error::InvalidUtf8),
            }
        }
    } else {
        let v = bytes_to_vec(b.as_slice(), 0, len);
        proof {
            assert(v@ =~= b@);
        }
        match string_from_utf8(v) {
            Some(sym) => Ok(Tok::Sym(HashIdx { sym, idx: 0 })),
            None => Err(Error::InvalidUtf8),
        }
    }
}


/// The scanner's position within one field.
#[derive(Clone, Copy, PartialEq, Eq, Structural, Debug)]
pub enum ScanState {
    /// Before the first character of the field.
    Waiting,
    /// Inside the field; the flag is true inside a string literal.
    Started(bool),
    /// After the field's last character.
    Ended,
}

/// One field scanned from `b`: the collected bytes and the count of input
/// bytes consumed, or a lexical error.  `delim` ends the field; `unexpct`
/// is the delimiter of the other position and is refused outside string
/// literals.  `#` outside a string literal starts a comment that runs to
/// the end of the line, whitespace is insignificant outside string
/// literals, and backslash escapes quote, backslash, `n` and `t` inside
/// them.
pub open spec fn scan(
    b: Seq<u8>,
    st: ScanState,
    esc: bool,
    acc: Seq<u8>,
    cnt: int,
    delim: u8,
    unexpct: u8,
) -> Result<(Seq<u8>, int), Error>
    decreases b.len(),
{
    if b.len() == 0 {
        Ok((acc, cnt))
    } else {
        let c = b[0];
        let rest = b.subrange(1, b.len() as int);
        let n = cnt + 1;
        if c == 35 && st != ScanState::Started(true) {
            Ok((acc, cnt + b.len()))
        } else if c == 32 || c == 9 {
            if st == ScanState::Started(false) {
                scan(rest, ScanState::Ended, esc, acc, n, delim, unexpct)
            } else if st != ScanState::Started(true) {
                scan(rest, st, esc, acc, n, delim, unexpct)
            } else {
                scan(rest, st, false, acc.push(c), n, delim, unexpct)
            }
        } else if c == delim {
            match st {
                ScanState::Waiting => Err(Error::EmptyToken),
                ScanState::Started(false) | ScanState::Ended => Ok((acc, n)),
                _ => scan(rest, st, false, acc.push(c), n, delim, unexpct),
            }
        } else if c == unexpct {
            if st == ScanState::Started(true) {
                scan(rest, st, false, acc.push(c), n, delim, unexpct)
            } else {
                Err(Error::UnexpectedChar(unexpct as char))
            }
        } else if st == ScanState::Ended {
            Err(Error::NonDelimAfterSymEnd(c as char))
        } else if c == 34 {
            if st == ScanState::Waiting {
                scan(rest, ScanState::Started(true), false, acc.push(c), n, delim, unexpct)
            } else if st == ScanState::Started(true) {
                if !esc {
                    scan(rest, ScanState::Ended, false, acc.push(c), n, delim, unexpct)
                } else {
                    scan(rest, st, false, acc.push(c), n, delim, unexpct)
                }
            } else {
                Err(Error::DoubleQuoteInMiddle)
            }
        } else if c == 92 {
            if st == ScanState::Started(true) {
                if esc {
                    scan(rest, st, false, acc.push(c), n, delim, unexpct)
                } else {
                    scan(rest, st, true, acc, n, delim, unexpct)
                }
            } else {
                scan(rest, st, false, acc.push(c), n, delim, unexpct)
            }
        } else if st == ScanState::Waiting {
            scan(rest, ScanState::Started(false), false, acc.push(c), n, delim, unexpct)
        } else if esc {
            if c == 110 {
                scan(rest, st, false, acc.push(10), n, delim, unexpct)
            } else if c == 116 {
                scan(rest, st, false, acc.push(9), n, delim, unexpct)
            } else {
                Err(Error::UnknownEscapeSequence(c as char))
            }
        } else {
            scan(rest, st, false, acc.push(c), n, delim, unexpct)
        }
    }
}

/// A successful scan consumes between `0` and `b.len()` bytes, and at
/// least one when it collected anything.
pub proof fn lemma_scan_progress(
    b: Seq<u8>,
    st: ScanState,
    esc: bool,
    acc: Seq<u8>,
    cnt: int,
    delim: u8,
    unexpct: u8,
)
    ensures
        scan(b, st, esc, acc, cnt, delim, unexpct) matches Ok(p) ==> cnt <= p.1 <= cnt + b.len()
            && (p.0.len() > acc.len() ==> p.1 > cnt),
    decreases b.len(),
{
    if b.len() > 0 {
        let c = b[0];
        let rest = b.subrange(1, b.len() as int);
        let n = cnt + 1;
        lemma_scan_progress(rest, ScanState::Ended, esc, acc, n, delim, unexpct);
        lemma_scan_progress(rest, st, esc, acc, n, delim, unexpct);
        lemma_scan_progress(rest, st, false, acc.push(c), n, delim, unexpct);
        lemma_scan_progress(rest, ScanState::Started(true), false, acc.push(c), n, delim, unexpct);
        lemma_scan_progress(rest, ScanState::Ended, false, acc.push(c), n, delim, unexpct);
        lemma_scan_progress(rest, st, true, acc, n, delim, unexpct);
        lemma_scan_progress(rest, ScanState::Started(false), false, acc.push(c), n, delim, unexpct);
        lemma_scan_progress(rest, st, false, acc.push(10), n, delim, unexpct);
        lemma_scan_progress(rest, st, false, acc.push(9), n, delim, unexpct);
    }
}

/// Scans one field of `b` starting at `from` and classifies it.  Returns
/// the token and the number of bytes consumed.
#[verifier::loop_isolation(false)]
fn eat_token(b: &[u8], from: usize, delim: u8, unexpct: u8) -> (r: Result<(Tok, usize), Error>)
    requires
        from <= b@.len(),
    ensures
        ({
            let sr = scan(
                b@.subrange(from as int, b@.len() as int),
                ScanState::Waiting,
                false,
                Seq::empty(),
                0,
                delim,
                unexpct,
            );
            match sr {
                Err(e2) => r == Err::<(Tok, usize), Error>(e2),
                Ok(p) => match r {
                    Ok((t, l)) => l == p.1 && from_u8_rel(p.0, Ok(t)),
                    Err(e) => from_u8_rel(p.0, Err(e)),
                },
            }
        }),
{
    let ghost full = scan(
        b@.subrange(from as int, b@.len() as int),
        ScanState::Waiting,
        false,
        Seq::empty(),
        0,
        delim,
        unexpct,
    );
    let len = b.len();
    let mut acc: Vec<u8> = Vec::new();
    let mut st = ScanState::Waiting;
    let mut esc = false;
    let mut i = from;
    while i < len
        invariant
            from <= i <= len,
            full == scan(
                b@.subrange(i as int, b@.len() as int),
                st,
                esc,
                acc@,
                i - from,
                delim,
                unexpct,
            ),
        decreases len - i,
    {
        let ghost cur = b@.subrange(i as int, b@.len() as int);
        let ghost nxt = b@.subrange(i as int + 1, b@.len() as int);
        proof {
            assert(cur[0] == b@[i as int]);
            assert(cur.subrange(1, cur.len() as int) =~= nxt);
        }
        let c = b[i];
        if c == 35 && st != ScanState::Started(true) {
            let tok = from_u8(&acc)?;
            return Ok((tok, len - from));
        } else if c == 32 || c == 9 {
            if st == ScanState::Started(false) {
                st = ScanState::Ended;
            } else if st != ScanState::Started(true) {
                // skip insignificant whitespace
            } else {
                esc = false;
                acc.push(c);
            }
        } else if c == delim {
            match st {
                ScanState::Waiting => {
                    return Err(Error::EmptyToken);
                },
                ScanState::Started(false) | ScanState::Ended => {
                    let tok = from_u8(&acc)?;
                    return Ok((tok, i + 1 - from));
                },
                _ => {
                    esc = false;
                    acc.push(c);
                },
            }
        } else if c == unexpct {
            if st == ScanState::Started(true) {
                esc = false;
                acc.push(c);
            } else {
                return Err(Error::UnexpectedChar(unexpct as char));
            }
        } else if st == ScanState::Ended {
            return Err(Error::NonDelimAfterSymEnd(c as char));
        } else if c == 34 {
            if st == ScanState::Waiting {
                st = ScanState::Started(true);
                esc = false;
                acc.push(c);
            } else if st == ScanState::Started(true) {
                if !esc {
                    st = ScanState::Ended;
                }
                esc = false;
                acc.push(c);
            } else {
                return Err(Error::DoubleQuoteInMiddle);
            }
        } else if c == 92 {
            if st == ScanState::Started(true) {
                if esc {
                    esc = false;
                    acc.push(c);
                } else {
                    esc = true;
                }
            } else {
                esc = false;
                acc.push(c);
            }
        } else if st == ScanState::Waiting {
            st = ScanState::Started(false);
            esc = false;
            acc.push(c);
        } else if esc {
            if c == 110 {
                esc = false;
                acc.push(10);
            } else if c == 116 {
                esc = false;
                acc.push(9);
            } else {
                return Err(Error::UnknownEscapeSequence(c as char));
            }
        } else {
            esc = false;
            acc.push(c);
        }
        i = i + 1;
    }
    proof {
        assert(b@.subrange(i as int, b@.len() as int).len() == 0);
    }
    let tok = from_u8(&acc)?;
    Ok((tok, i - from))
}

fn eat_operator(b: &[u8], from: usize) -> (r: Result<(Tok, usize), Error>)
    requires
        from <= b@.len(),
    ensures
        ({
            let sr = scan(
                b@.subrange(from as int, b@.len() as int),
                ScanState::Waiting,
                false,
                Seq::empty(),
                0,
                58,
                44,
            );
            match sr {
                Err(e2) => r == Err::<(Tok, usize), Error>(e2),
                Ok(p) => match r {
                    Ok((t, l)) => l == p.1 && from_u8_rel(p.0, Ok(t)),
                    Err(e) => from_u8_rel(p.0, Err(e)),
                },
            }
        }),
{
    eat_token(b, from, 58, 44)
}

fn eat_args(b: &[u8], from: usize) -> (r: Result<(Tok, usize), Error>)
    requires
        from <= b@.len(),
    ensures
        ({
            let sr = scan(
                b@.subrange(from as int, b@.len() as int),
                ScanState::Waiting,
                false,
                Seq::empty(),
                0,
                44,
                58,
            );
            match sr {
                Err(e2) => r == Err::<(Tok, usize), Error>(e2),
                Ok(p) => match r {
                    Ok((t, l)) => l == p.1 && from_u8_rel(p.0, Ok(t)),
                    Err(e) => from_u8_rel(p.0, Err(e)),
                },
            }
        }),
{
    eat_token(b, from, 44, 58)
}


/// What tokenizing the argument fields from byte position `pos` onward
/// yields, given that the tokens in `cur` have already been produced: the
/// final result `r` extends `cur` with one token per field until the end
/// of the line, or carries the first error.
pub open spec fn args_rel(b: Seq<u8>, pos: int, cur: Seq<Tok>, r: Result<Vec<Tok>, Error>) -> bool
    decreases b.len() - pos,
    via args_rel_decreases
{
    if !(0 <= pos <= b.len()) {
        true
    } else {
        let sr = scan(
            b.subrange(pos, b.len() as int),
            ScanState::Waiting,
            false,
            Seq::empty(),
            0,
            44,
            58,
        );
        match sr {
            Err(e2) => r == Err::<Vec<Tok>, Error>(e2),
            Ok(p) => if p.0.len() == 0 {
                r matches Ok(v) && v@ == cur
            } else {
                match r {
                    Ok(_) => exists|t: Tok|
                        #[trigger] from_u8_rel(p.0, Ok(t)) && args_rel(b, pos + p.1, cur.push(t), r),
                    Err(e) => from_u8_rel(p.0, Err(e)) || (exists|t: Tok|
                        #[trigger] from_u8_rel(p.0, Ok(t)) && args_rel(b, pos + p.1, cur.push(t), r)),
                }
            },
        }
    }
}

#[via_fn]
proof fn args_rel_decreases(b: Seq<u8>, pos: int, cur: Seq<Tok>, r: Result<Vec<Tok>, Error>) {
    if 0 <= pos <= b.len() {
        lemma_scan_progress(
            b.subrange(pos, b.len() as int),
            ScanState::Waiting,
            false,
            Seq::empty(),
            0,
            44,
            58,
        );
    }
}

/// The error reported when the operator position holds a token of the
/// wrong kind: it names the kind found.
pub open spec fn wrong_op_err(t: Tok, e: Error) -> bool {
    e matches Error::WrongTokTypeForOp(n) && n@ == spec_kind_name(spec_kind(t))
}

/// What tokenizing one whole line yields: an empty line gives an empty
/// sequence; otherwise the first field must be a symbol (the operator) and
/// each further field contributes one argument token.
pub open spec fn tokenize_rel(b: Seq<u8>, r: Result<Vec<Tok>, Error>) -> bool {
    let sr = scan(b, ScanState::Waiting, false, Seq::empty(), 0, 58, 44);
    match sr {
        Err(e2) => r == Err::<Vec<Tok>, Error>(e2),
        Ok(p) => if p.0.len() == 0 {
            r matches Ok(v) && v@ == Seq::<Tok>::empty()
        } else {
            match r {
                Ok(v) => v@.len() >= 1 && v@[0] is Sym && from_u8_rel(p.0, Ok(v@[0]))
                    && args_rel(b, p.1, seq![v@[0]], r),
                Err(e) => from_u8_rel(p.0, Err(e)) || (exists|t: Tok|
                    #[trigger] from_u8_rel(p.0, Ok(t)) && ((!(t is Sym) && wrong_op_err(t, e)) || (
                    t is Sym && args_rel(b, p.1, seq![t], r)))),
            }
        },
    }
}

/// The final token sequence of a successful tokenization extends the
/// tokens already produced.
pub proof fn lemma_args_rel_prefix(b: Seq<u8>, pos: int, cur: Seq<Tok>, v: Vec<Tok>)
    requires
        0 <= pos <= b.len(),
        args_rel(b, pos, cur, Ok(v)),
    ensures
        v@.len() >= cur.len(),
        v@.subrange(0, cur.len() as int) == cur,
    decreases b.len() - pos,
{
    let sr = scan(b.subrange(pos, b.len() as int), ScanState::Waiting, false, Seq::empty(), 0, 44, 58);
    lemma_scan_progress(b.subrange(pos, b.len() as int), ScanState::Waiting, false, Seq::empty(), 0, 44, 58);
    match sr {
        Err(_) => {},
        Ok(p) => {
            if p.0.len() == 0 {
                assert(v@.subrange(0, cur.len() as int) =~= cur);
            } else {
                let t = choose|t: Tok| #[trigger] from_u8_rel(p.0, Ok(t)) && args_rel(
                    b,
                    pos + p.1,
                    cur.push(t),
                    Ok(v),
                );
                lemma_args_rel_prefix(b, pos + p.1, cur.push(t), v);
                assert(v@.subrange(0, cur.len() as int) =~= v@.subrange(
                    0,
                    cur.push(t).len() as int,
                ).subrange(0, cur.len() as int));
                assert(cur.push(t).subrange(0, cur.len() as int) =~= cur);
            }
        },
    }
}

/// Tokenizes the argument fields from `pos` onward, extending `v`.
fn tokenize_args(b: &[u8], pos: usize, v: Vec<Tok>) -> (r: Result<Vec<Tok>, Error>)
    requires
        pos <= b@.len(),
    ensures
        args_rel(b@, pos as int, v@, r),
    decreases b@.len() - pos,
{
    let ghost cur = v@;
    let blen = b.len();
    let mut v = v;
    proof {
        lemma_scan_progress(
            b@.subrange(pos as int, b@.len() as int),
            ScanState::Waiting,
            false,
            Seq::empty(),
            0,
            44,
            58,
        );
    }
    match eat_args(b, pos) {
        Err(e) => Err(e),
        Ok((t, l)) => {
            match t {
                Tok::Eof => Ok(v),
                _ => {
                    proof {
                        assert(pos + l <= b@.len());
                    }
                    v.push(t);
                    tokenize_args(b, pos + l, v)
                },
            }
        },
    }
}

/// Turns one source line into its operand tokens: the operator symbol
/// first, then one token per comma-separated argument.  An empty line
/// yields an empty sequence.
pub fn tokenize(line: &str) -> (r: Result<Vec<Tok>, Error>)
    ensures
        tokenize_rel(line.spec_bytes(), r),
{
    let bytes = line.as_bytes();
    let mut v: Vec<Tok> = Vec::new();
    proof {
        assert(bytes@.subrange(0, bytes@.len() as int) =~= bytes@);
        lemma_scan_progress(bytes@, ScanState::Waiting, false, Seq::empty(), 0, 58, 44);
    }
    match eat_operator(bytes, 0) {
        Err(e) => Err(e),
        Ok((op, l)) => {
            match op {
                Tok::Sym(_) => {
                    v.push(op);
                    proof {
                        assert(v@ =~= seq![v@[0]]);
                        assert(l <= bytes@.len());
                    }
                    let ghost optok = v@[0];
                    let r = tokenize_args(bytes, l, v);
                    proof {
                        if r is Ok {
                            lemma_args_rel_prefix(bytes@, l as int, seq![optok], r->Ok_0);
                            assert(r->Ok_0@[0] == optok);
                        }
                    }
                    r
                },
                Tok::Eof => Ok(v),
                _ => Err(Error::WrongTokTypeForOp(op.to_type_str())),
            }
        },
    }
}

} // verus!
