//! Tokenizer tests: token classification, escapes, delimiters, and the
//! two operand-evaluation modes.

use fasm_vm::error::Error;
use fasm_vm::lex::{tokenize, HashIdx, Idx, Tok};
use fasm_vm::mem::Mem;

#[test]
fn tokenize_sym() {
    assert_eq!(
        vec![
            Tok::Sym(HashIdx::from_str("A")),
            Tok::Sym(HashIdx::from_str("b")),
            Tok::Sym(HashIdx::from_str("c")),
            Tok::Sym(HashIdx::from_str("d"))
        ],
        tokenize("A: b, c, d ").unwrap()
    );
}

#[test]
fn tokenize_num() {
    assert_eq!(
        vec![
            Tok::Sym(HashIdx::from_str("A")),
            Tok::Num((-10.0234f64).to_bits()),
            Tok::Sym(HashIdx::from_str("c"))
        ],
        tokenize("A: -10.0234 , c ").unwrap()
    );
    let r = tokenize("A: -10.02.34 , c ");
    assert!(matches!(r, Err(Error::ParseNumError(ref s)) if s == "-10.02.34"));
}

#[test]
fn tokenize_strltl() {
    assert_eq!(
        vec![
            Tok::Sym(HashIdx::from_str("A")),
            Tok::Ltl("asd \"asd".to_string()),
            Tok::Sym(HashIdx::from_str("c"))
        ],
        tokenize("A: \"asd \\\"asd\" , c ").unwrap()
    );
}

#[test]
fn tokenize_idx() {
    assert_eq!(
        vec![
            Tok::Sym(HashIdx::from_str("Aasdasd")),
            Tok::Idx(Idx::Num(-123)),
            Tok::Sym(HashIdx::from_str("casdasd"))
        ],
        tokenize("Aasdasd : [-123] ,casdasd ").unwrap()
    );
    let r = tokenize("A : [asd], cd ");
    assert!(matches!(r, Err(Error::ParseIdxError(ref s)) if s == "asd"));
    let r = tokenize("A : [-123.1] , cd ");
    assert!(matches!(r, Err(Error::ParseIdxError(ref s)) if s == "-123.1"));
}

#[test]
fn tokenize_var() {
    assert_eq!(
        vec![
            Tok::Sym(HashIdx::from_str("Aasdasd")),
            Tok::Var(HashIdx::from_str("asd")),
            Tok::Sym(HashIdx::from_str("casdasd"))
        ],
        tokenize("Aasdasd : $asd , casdasd ").unwrap()
    );
    assert_eq!(
        vec![
            Tok::Sym(HashIdx::from_str("A")),
            Tok::Var(HashIdx::from_str("123")),
            Tok::Sym(HashIdx::from_str("casdasd"))
        ],
        tokenize("A : $123 , casdasd ").unwrap()
    );
}

#[test]
fn tokenize_empty_token() {
    let r = tokenize(" : ").unwrap_err();
    assert!(matches!(r, Error::EmptyToken));
    let r = tokenize("A : , ").unwrap_err();
    assert!(matches!(r, Error::EmptyToken));
}

#[test]
fn tokenize_op_only() {
    assert_eq!(
        vec![Tok::Sym(HashIdx::from_str("asd"))],
        tokenize(" asd ").unwrap()
    );
}

#[test]
fn tokenize_op_err() {
    let r = tokenize("123 ").unwrap_err();
    assert!(matches!(r, Error::WrongTokTypeForOp("Num")));
    let r = tokenize("[-123] ").unwrap_err();
    assert!(matches!(r, Error::WrongTokTypeForOp("Idx")));
    let r = tokenize("$asd ").unwrap_err();
    assert!(matches!(r, Error::WrongTokTypeForOp("Var")));
}

#[test]
fn tokenize_non_delim_after_sym_end() {
    let r = tokenize("asd 2 ").unwrap_err();
    assert!(matches!(r, Error::NonDelimAfterSymEnd('2')));
}

#[test]
fn tokenize_unexpected() {
    let r = tokenize("asd , asd ").unwrap_err();
    assert!(matches!(r, Error::UnexpectedChar(',')));
    let r = tokenize("asd : asd :").unwrap_err();
    assert!(matches!(r, Error::UnexpectedChar(':')));
}

#[test]
fn read_value() {
    let t = Tok::Num(10.0f64.to_bits());
    let mut m = Mem::new();
    assert_eq!(t.get_value(&m).unwrap(), 10.0f64.to_bits());
    let t = Tok::Idx(Idx::Num(1));
    m.pmem_set(1, 10.0f64.to_bits()).unwrap();
    assert_eq!(t.get_value(&m).unwrap(), 10.0f64.to_bits());
    let t = Tok::Var(HashIdx::new("A", 0));
    m.var_add(1);
    assert_eq!(t.get_value(&m).unwrap(), 10.0f64.to_bits());
}

#[test]
fn read_value_invalid_memory_access() {
    let t = Tok::Idx(Idx::Num(-1));
    let m = Mem::new();
    assert!(matches!(t.get_value(&m), Err(Error::InvalidMemAccess(-1))));
}

#[test]
fn read_value_wrong_type() {
    let t = Tok::Eof;
    let m = Mem::new();
    let got = t.get_value(&m).unwrap_err();
    assert_eq!(
        got,
        Error::WrongArgType(vec!["Num", "Idx", "Var"], "Eof")
    );
}

#[test]
fn get_loc() {
    let t = Tok::Idx(Idx::Num(100));
    let mut m = Mem::new();
    assert_eq!(t.get_loc(&mut m).unwrap(), 100);
    let t = Tok::Var(HashIdx::new("A", 0));
    m.var_add(100);
    assert_eq!(t.get_loc(&mut m).unwrap(), 100);
    m.mem_set(100, 30.0f64.to_bits()).unwrap();
    // The variable is the address source: the location of `[$A]` is the
    // address A holds; the value there is what value-of would read.
    let t = Tok::Idx(Idx::Var(HashIdx::new("A", 0)));
    assert_eq!(t.get_loc(&mut m).unwrap(), 100);
    assert_eq!(t.get_value(&m).unwrap(), 30.0f64.to_bits());
    let t = Tok::Ltl("asda".to_string());
    assert_eq!(t.get_loc(&mut m).unwrap(), -1);
}

#[test]
fn get_loc_wrong_type() {
    let t = Tok::Eof;
    let mut m = Mem::new();
    let got = t.get_loc(&mut m).unwrap_err();
    assert_eq!(
        got,
        Error::WrongArgType(vec!["Idx", "Var", "Ltl"], "Eof")
    );
}

#[test]
fn create_ltl() {
    let t = Tok::Ltl("asd".to_string());
    let mut m = Mem::new();
    assert_eq!(t.create_ltl(&mut m).unwrap(), -1);
    assert_eq!(m.read_ltl(-1).unwrap(), "asd");
}

#[test]
fn create_ltl_wrong_type() {
    let t = Tok::Eof;
    let mut m = Mem::new();
    let got = t.create_ltl(&mut m).unwrap_err();
    assert_eq!(got, Error::WrongArgType(vec!["Ltl"], "Eof"));
}
