//! Property scenarios: kind round trips, the split address space, and
//! literal materialization.

use fasm_vm::error::Error;
use fasm_vm::lex::{kind_of_name, tokenize, Idx, Tok, TokKind};
use fasm_vm::mem::{idx_decr, idx_incr, Mem};

#[test]
fn kinds_survive_serialization() {
    // Tokenizing a valid line and re-serializing each token's kind
    // recovers the original kinds.
    let toks = tokenize("OP: a, 1, [2], $v, \"s\"").unwrap();
    let kinds: Vec<TokKind> = toks
        .iter()
        .map(|t| kind_of_name(t.to_type_str()).unwrap())
        .collect();
    assert_eq!(
        kinds,
        vec![
            TokKind::Sym,
            TokKind::Sym,
            TokKind::Num,
            TokKind::Idx,
            TokKind::Var,
            TokKind::Ltl
        ]
    );
}

#[test]
fn negative_writes_fail_positive_writes_read_back() {
    let mut m = Mem::new();
    let t = Tok::Ltl("abc".to_string());
    t.create_ltl(&mut m).unwrap();
    // Negative addresses are read-only through the write path.
    let w = Tok::Idx(Idx::Num(-2));
    let r = w.write_value(&mut m, 7.0f64.to_bits());
    assert_eq!(r, Err(Error::WriteToNMem(-2)));
    // In-bounds positive writes succeed and a read observes them.
    let w = Tok::Idx(Idx::Num(123));
    w.write_value(&mut m, 7.0f64.to_bits()).unwrap();
    assert_eq!(m.mem_at(123).unwrap(), 7.0f64.to_bits());
}

#[test]
fn same_literal_twice_gets_disjoint_ranges() {
    let mut m = Mem::new();
    let t = Tok::Ltl("dup".to_string());
    let a1 = t.create_ltl(&mut m).unwrap();
    let a2 = t.create_ltl(&mut m).unwrap();
    assert_ne!(a1, a2);
    // The second range starts past the first literal's bytes and its
    // two-slot terminator: no overlap, no deduplication.
    assert_eq!(-a2, -a1 + 3 + 2);
    assert_eq!(m.read_ltl(a1).unwrap(), "dup");
    assert_eq!(m.read_ltl(a2).unwrap(), "dup");
}

#[test]
fn indirection_needs_integer_intermediates() {
    let mut m = Mem::new();
    m.pmem_set(1, 2.5f64.to_bits()).unwrap();
    let t = Tok::Idx(Idx::Idx(Box::new(Idx::Num(1))));
    let r = t.get_value(&m);
    assert_eq!(r, Err(Error::NotInterger(2.5f64.to_bits())));
}

#[test]
fn integer_extraction_checks() {
    let m = Mem::new();
    assert_eq!(Tok::Num(7.0f64.to_bits()).get_int(&m).unwrap(), 7);
    assert_eq!(Tok::Num(7.0f64.to_bits()).get_uint(&m).unwrap(), 7);
    let r = Tok::Num(0.5f64.to_bits()).get_int(&m);
    assert_eq!(r, Err(Error::NotInterger(0.5f64.to_bits())));
    let r = Tok::Num((-1.0f64).to_bits()).get_uint(&m);
    assert_eq!(r, Err(Error::NegativeOrNotInterger((-1.0f64).to_bits())));
}

#[test]
fn address_steps_preserve_sign() {
    let mut i: isize = 3;
    idx_incr(&mut i, 2);
    assert_eq!(i, 5);
    let mut i: isize = -3;
    idx_incr(&mut i, 2);
    assert_eq!(i, -5);
    let mut i: isize = -3;
    idx_decr(&mut i, 2);
    assert_eq!(i, -1);
    let mut i: isize = 3;
    idx_decr(&mut i, 2);
    assert_eq!(i, 1);
}

#[test]
fn lexical_error_inputs() {
    assert!(matches!(tokenize("A: [1"), Err(Error::UnterminatedIdx)));
    assert!(matches!(tokenize("A: []"), Err(Error::EmptyIdx)));
    assert!(matches!(tokenize("A: [$]"), Err(Error::MissingVarName)));
    assert!(matches!(
        tokenize("A: ab\"cd"),
        Err(Error::DoubleQuoteInMiddle)
    ));
    assert!(matches!(
        tokenize("A: \"a\\qb\""),
        Err(Error::UnknownEscapeSequence('q'))
    ));
}

#[test]
fn escapes_decode() {
    let toks = tokenize("A: \"a\\nb\\tc\\\\d\"").unwrap();
    assert_eq!(toks[1], Tok::Ltl("a\nb\tc\\d".to_string()));
}

#[test]
fn comments_stripped_outside_literals() {
    // A comment runs to the end of the line wherever it starts.
    let toks = tokenize("A: b, # the rest is commentary").unwrap();
    assert_eq!(toks.len(), 2);
    let toks = tokenize("A: b # a comment, with a comma").unwrap();
    assert_eq!(toks.len(), 2);
    let toks = tokenize("lt: [1], 5 # keep looping").unwrap();
    assert_eq!(toks.len(), 3);
    // Inside a string literal, `#` is ordinary content.
    let toks = tokenize("A: \"a#b\"").unwrap();
    assert_eq!(toks[1], Tok::Ltl("a#b".to_string()));
}

#[test]
fn empty_line_is_legal_noop() {
    assert_eq!(tokenize("   ").unwrap(), Vec::<Tok>::new());
    assert_eq!(tokenize(" # only a comment").unwrap(), Vec::<Tok>::new());
}

#[test]
fn numeric_literal_grammar() {
    // Decimal forms: optional fraction and exponent, leading or trailing
    // dot with a digit on the other side.
    let toks = tokenize("A: 1e3").unwrap();
    assert_eq!(toks[1], Tok::Num(1000.0f64.to_bits()));
    let toks = tokenize("A: 5.").unwrap();
    assert_eq!(toks[1], Tok::Num(5.0f64.to_bits()));
    let toks = tokenize("A: -.5").unwrap();
    assert_eq!(toks[1], Tok::Num((-0.5f64).to_bits()));
    // The keyword forms parse to the constants, sign included.
    let toks = tokenize("A: -inf").unwrap();
    assert_eq!(toks[1], Tok::Num(f64::NEG_INFINITY.to_bits()));
    let toks = tokenize("A: -Infinity").unwrap();
    assert_eq!(toks[1], Tok::Num(f64::NEG_INFINITY.to_bits()));
    let toks = tokenize("A: -NaN").unwrap();
    match &toks[1] {
        Tok::Num(bits) => assert!(f64::from_bits(*bits).is_nan()),
        _ => panic!("expected a number"),
    }
    // Hexadecimal forms are not numbers.
    let r = tokenize("A: 0x1p2");
    assert!(matches!(r, Err(Error::ParseNumError(ref s)) if s == "0x1p2"));
    let r = tokenize("A: 1e");
    assert!(matches!(r, Err(Error::ParseNumError(ref s)) if s == "1e"));
}
