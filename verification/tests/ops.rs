//! Handler tests: arithmetic, comparison, logic, memory and flow
//! operations, each invoked directly with its argument operands.

use fasm_vm::error::Error;
use fasm_vm::lex::{HashIdx, Idx, Tok};
use fasm_vm::mem::Mem;
use fasm_vm::op::{cmp, flow, logic, math, memop, Signal};

fn num(f: f64) -> Tok {
    Tok::Num(f.to_bits())
}

fn acc(m: &Mem) -> f64 {
    f64::from_bits(m.mem_at(0).unwrap())
}

#[test]
fn eq() {
    let v = vec![num(1.0), num(1.0)];
    let mut m = Mem::new();
    cmp::eq(&v, &mut m).unwrap();
    assert_eq!(acc(&m), 1.0);
}

#[test]
fn ne() {
    let v = vec![num(1.0), num(1.0)];
    let mut m = Mem::new();
    cmp::ne(&v, &mut m).unwrap();
    assert_eq!(acc(&m), 0.0);
}

#[test]
fn gt() {
    let v = vec![num(1.0), num(1.0)];
    let mut m = Mem::new();
    cmp::gt(&v, &mut m).unwrap();
    assert_eq!(acc(&m), 0.0);
    let v = vec![num(2.0), num(1.0)];
    cmp::gt(&v, &mut m).unwrap();
    assert_eq!(acc(&m), 1.0);
}

#[test]
fn lt() {
    let v = vec![num(1.0), num(1.0)];
    let mut m = Mem::new();
    cmp::lt(&v, &mut m).unwrap();
    assert_eq!(acc(&m), 0.0);
    let v = vec![num(0.0), num(1.0)];
    cmp::lt(&v, &mut m).unwrap();
    assert_eq!(acc(&m), 1.0);
}

#[test]
fn add() {
    let v = vec![num(1.0), num(2.0)];
    let mut m = Mem::new();
    math::add(&v, &mut m).unwrap();
    assert_eq!(acc(&m), 3.0);
}

#[test]
fn sub() {
    let v = vec![num(1.0), num(2.0)];
    let mut m = Mem::new();
    math::sub(&v, &mut m).unwrap();
    assert_eq!(acc(&m), -1.0);
}

#[test]
fn mul() {
    let v = vec![num(1.0), num(2.0)];
    let mut m = Mem::new();
    math::mul(&v, &mut m).unwrap();
    assert_eq!(acc(&m), 2.0);
}

#[test]
fn div() {
    let v = vec![num(1.0), num(2.0)];
    let mut m = Mem::new();
    math::div(&v, &mut m).unwrap();
    assert_eq!(acc(&m), 0.5);
}

#[test]
fn modulo() {
    let v = vec![num(11.0), num(10.0)];
    let mut m = Mem::new();
    math::modulo(&v, &mut m).unwrap();
    assert_eq!(acc(&m), 1.0);
}

#[test]
fn div_by_zero() {
    let v = vec![num(1.0), num(0.0)];
    let mut m = Mem::new();
    math::div(&v, &mut m).unwrap();
    assert_eq!(acc(&m), f64::INFINITY);
}

#[test]
fn div_zero_by_zero() {
    let v = vec![num(0.0), num(0.0)];
    let mut m = Mem::new();
    math::div(&v, &mut m).unwrap();
    assert_eq!(acc(&m).is_nan(), true);
}

#[test]
fn add_incorrect_args_num() {
    let v = vec![
        Tok::Ltl("asdas".to_string()),
        num(0.0),
        Tok::Ltl("asd".to_string()),
    ];
    let mut m = Mem::new();
    let r = math::add(&v, &mut m);
    assert_eq!(Err(Error::WrongArgCount(2, 3)), r);
}

#[test]
fn add_incorrect_args_type() {
    let v = vec![
        Tok::Ltl("asdas".to_string()),
        Tok::Ltl("asdasd".to_string()),
    ];
    let mut m = Mem::new();
    let r = math::add(&v, &mut m);
    assert_eq!(
        Err(Error::WrongArgType(vec!["Num", "Idx", "Var"], "Ltl")),
        r
    );
}

#[test]
fn and() {
    let v = vec![num(1.0), num(10.0)];
    let mut m = Mem::new();
    logic::and(&v, &mut m).unwrap();
    assert_eq!(acc(&m), 1.0);
}

#[test]
fn and_false() {
    let v = vec![num(0.0), num(10.0)];
    let mut m = Mem::new();
    logic::and(&v, &mut m).unwrap();
    assert_eq!(acc(&m), 0.0);
}

#[test]
fn or() {
    let v = vec![num(1.0), num(10.0)];
    let mut m = Mem::new();
    logic::or(&v, &mut m).unwrap();
    assert_eq!(acc(&m), 1.0);
    let v = vec![num(0.0), num(10.0)];
    logic::or(&v, &mut m).unwrap();
    assert_eq!(acc(&m), 1.0);
}

#[test]
fn or_false() {
    let v = vec![num(0.0), num(0.0)];
    let mut m = Mem::new();
    logic::and(&v, &mut m).unwrap();
    assert_eq!(acc(&m), 0.0);
}

#[test]
fn and_or_argc() {
    let v = vec![num(0.0)];
    let mut m = Mem::new();
    let r = logic::and(&v, &mut m);
    assert_eq!(r, Err(Error::WrongArgCount(2, 1)));
}

#[test]
fn not() {
    let v = vec![num(0.0)];
    let mut m = Mem::new();
    logic::not(&v, &mut m).unwrap();
    assert_eq!(acc(&m), 1.0);
}

#[test]
fn not_false() {
    let v = vec![num(10.0)];
    let mut m = Mem::new();
    logic::not(&v, &mut m).unwrap();
    assert_eq!(acc(&m), 0.0);
}

#[test]
fn mov() {
    let v = vec![Tok::Idx(Idx::Num(10)), num(100.0)];
    let mut m = Mem::new();
    m.pmem_allc(&[0u64; 10]);
    memop::mov(&v, &mut m).unwrap();
    assert_eq!(m.mem_at(10).unwrap(), 100.0f64.to_bits());
}

#[test]
fn cpy() {
    let v = vec![
        Tok::Idx(Idx::Num(1)),
        Tok::Ltl("asdasd".to_string()),
        num(6.0),
    ];
    let mut m = Mem::new();
    m.pmem_allc(&[0u64; 8]);
    memop::cpy(&v, &mut m).unwrap();
    assert_eq!(m.read_ltl(1).unwrap(), "asdasd");
}

#[test]
fn var() {
    let v = vec![Tok::Sym(HashIdx::new("A", 0)), Tok::Idx(Idx::Num(10))];
    let mut m = Mem::new();
    m.var_add(10);
    memop::var(&v, &mut m).unwrap();
    if let Tok::Sym(hi) = &v[0] {
        assert_eq!(m.var_find(hi).unwrap(), 10);
    }
}

#[test]
fn incr() {
    let v = vec![Tok::Var(HashIdx::new("A", 0)), num(10.0)];
    let v2 = vec![Tok::Var(HashIdx::new("A", 0)), num(-8.0)];
    let mut m = Mem::new();
    if let Tok::Var(hi) = &v[0] {
        m.var_add(0);
        memop::incr(&v, &mut m).unwrap();
        assert_eq!(m.var_find(hi).unwrap(), 10);
        m.var_set(hi.idx, -1);
        memop::incr(&v, &mut m).unwrap();
        assert_eq!(m.var_find(hi).unwrap(), -11);
        m.var_set(hi.idx, 10);
        memop::incr(&v2, &mut m).unwrap();
        assert_eq!(m.var_find(hi).unwrap(), 2);
    }
}

#[test]
fn allc() {
    let v = vec![num(100.0)];
    let mut m = Mem::new();
    let o_size = m.pmem_len();
    memop::allc(&v, &mut m).unwrap();
    assert_eq!(m.pmem_len() - o_size, 100);
}

#[test]
fn jmp() {
    let mut mem = Mem::new();
    let v1 = vec![Tok::Sym(HashIdx::new("L", 0))];
    mem.label_add(0);
    let l = if let Signal::Jmp(l) = flow::jmp(&v1, &mut mem).unwrap() {
        l
    } else {
        panic!("Not returning Signal::Jmp");
    };
    assert_eq!(l, 0);
}

#[test]
fn modulo_keeps_dividend_sign() {
    let v = vec![num(-11.0), num(10.0)];
    let mut m = Mem::new();
    math::modulo(&v, &mut m).unwrap();
    assert_eq!(acc(&m), -1.0);
}

#[test]
fn jc_not_taken_on_zero() {
    let v = vec![num(0.0), Tok::Sym(HashIdx::new("L", 0))];
    let mut m = Mem::new();
    m.label_add(4);
    assert_eq!(flow::jc(&v, &mut m).unwrap(), Signal::Nil);
    let v = vec![num(2.0), Tok::Sym(HashIdx::new("L", 0))];
    assert_eq!(flow::jc(&v, &mut m).unwrap(), Signal::Jmp(4));
}

#[test]
fn nan_compares_unequal_only() {
    let v = vec![num(f64::NAN), num(f64::NAN)];
    let mut m = Mem::new();
    cmp::eq(&v, &mut m).unwrap();
    assert_eq!(acc(&m), 0.0);
    cmp::ne(&v, &mut m).unwrap();
    assert_eq!(acc(&m), 1.0);
    cmp::lt(&v, &mut m).unwrap();
    assert_eq!(acc(&m), 0.0);
    cmp::gt(&v, &mut m).unwrap();
    assert_eq!(acc(&m), 0.0);
}
