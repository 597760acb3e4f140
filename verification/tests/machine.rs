//! Memory-model and whole-pipeline tests: string storage, loading,
//! preprocessing, forward references and the stepping loop.

use fasm_vm::code::Code;
use fasm_vm::error::Error;
use fasm_vm::lex::{tokenize, HashIdx, Tok};
use fasm_vm::mem::Mem;
use fasm_vm::op::{exec, init_op_table, IoReq, Signal, Step};
use fasm_vm::op::sys;
use fasm_vm::op::extra::print_num;
use fasm_vm::op::source::src;
use fasm_vm::prep::{preprocess, replace_sym};
use ahash::AHashMap;

#[test]
fn read_ltl() {
    let mut m = Mem::new();
    let s = "asdasd";
    for c in s.bytes() {
        m.nmem_allc(&[(c as f64).to_bits()]);
    }
    m.nmem_allc(&[0u64; 2]);
    assert_eq!(m.read_ltl(-1).unwrap(), "asdasd");
}

#[test]
fn parse_statement_lookup_op() {
    let t = vec![Tok::Sym(HashIdx::from_str("nop"))];
    let mut m = Mem::new();
    let mut c = Code::new();
    let mut op_idx_table: AHashMap<String, usize> = AHashMap::new();
    init_op_table(&mut op_idx_table);
    preprocess(&op_idx_table, &mut m, &mut c, t).unwrap();
    assert_eq!(exec(&mut m, &c).unwrap(), Step::Sig(Signal::Nil));
}

/// Loads a program from source lines and resolves all references.
fn load(lines: &[&str], m: &mut Mem, c: &mut Code) {
    let mut table: AHashMap<String, usize> = AHashMap::new();
    init_op_table(&mut table);
    for line in lines {
        let toks = tokenize(line).unwrap();
        preprocess(&table, m, c, toks).unwrap();
    }
    replace_sym(m, c).unwrap();
}

/// Runs a loaded program to completion, applying control signals; any
/// operating-system request fails the test.
fn run(m: &mut Mem, c: &mut Code) {
    let mut steps = 0;
    while c.ptr() < c.len() {
        match exec(m, c).unwrap() {
            Step::Sig(s) => {
                assert!(s.respond(m, c).unwrap().is_none());
            }
            Step::Io(_) => panic!("unexpected request"),
        }
        steps += 1;
        assert!(steps < 10000, "runaway program");
    }
}

#[test]
fn allc_scenario() {
    let mut m = Mem::new();
    let mut c = Code::new();
    let before = m.pmem_len();
    load(&["allc: 100"], &mut m, &mut c);
    run(&mut m, &mut c);
    assert_eq!(f64::from_bits(m.mem_at(0).unwrap()), 100.0);
    assert_eq!(m.pmem_len() - before, 100);
}

#[test]
fn forward_reference_lands_after_decl() {
    let mut m = Mem::new();
    let mut c = Code::new();
    load(
        &[
            "jmp: L",
            "mov: [1], 5",
            "lbl: L",
            "mov: [2], 7",
        ],
        &mut m,
        &mut c,
    );
    run(&mut m, &mut c);
    // The jump lands on the line after the label declaration: the mov it
    // skipped never ran, the one after the label did.
    assert_eq!(f64::from_bits(m.mem_at(1).unwrap()), 0.0);
    assert_eq!(f64::from_bits(m.mem_at(2).unwrap()), 7.0);
}

#[test]
fn accumulator_tracks_last_result() {
    let mut m = Mem::new();
    let mut c = Code::new();
    load(&["add: 1, 2", "gt: 2, 1", "mov: [3], 9"], &mut m, &mut c);
    run(&mut m, &mut c);
    // The last arithmetic/comparison result stays in the accumulator;
    // the mov wrote elsewhere and did not disturb it.
    assert_eq!(f64::from_bits(m.mem_at(0).unwrap()), 1.0);
    assert_eq!(f64::from_bits(m.mem_at(3).unwrap()), 9.0);
}

#[test]
fn variable_declaration_and_use() {
    let mut m = Mem::new();
    let mut c = Code::new();
    load(
        &["var: A, [7]", "mov: $A, 42", "mov: [8], $A"],
        &mut m,
        &mut c,
    );
    run(&mut m, &mut c);
    assert_eq!(f64::from_bits(m.mem_at(7).unwrap()), 42.0);
    assert_eq!(f64::from_bits(m.mem_at(8).unwrap()), 42.0);
}

#[test]
fn undefined_variable_rejected() {
    let mut m = Mem::new();
    let mut c = Code::new();
    let mut table: AHashMap<String, usize> = AHashMap::new();
    init_op_table(&mut table);
    let toks = tokenize("mov: $nowhere, 1").unwrap();
    preprocess(&table, &mut m, &mut c, toks).unwrap();
    let r = replace_sym(&m, &mut c);
    assert!(matches!(r, Err(Error::UndefinedVar(ref s)) if s == "nowhere"));
}

#[test]
fn unknown_label_rejected() {
    let mut m = Mem::new();
    let mut c = Code::new();
    let mut table: AHashMap<String, usize> = AHashMap::new();
    init_op_table(&mut table);
    let toks = tokenize("jmp: nowhere").unwrap();
    preprocess(&table, &mut m, &mut c, toks).unwrap();
    let r = replace_sym(&m, &mut c);
    assert!(matches!(r, Err(Error::UnknownLabel(ref s)) if s == "nowhere"));
}

#[test]
fn unknown_operator_rejected() {
    let mut m = Mem::new();
    let mut c = Code::new();
    let mut table: AHashMap<String, usize> = AHashMap::new();
    init_op_table(&mut table);
    let toks = tokenize("frobnicate: 1").unwrap();
    let r = preprocess(&table, &mut m, &mut c, toks);
    assert!(matches!(r, Err(Error::UnknownOp(ref s)) if s == "frobnicate"));
}

#[test]
fn open_close_descriptor_lifecycle() {
    let mut m = Mem::new();
    // Opening "text.txt" with option 11010: write, truncate and create
    // are on; read, append and create-exclusive are off.
    let v = vec![Tok::Ltl("text.txt".to_string()), Tok::Num(11010.0f64.to_bits())];
    let req = sys::open(&v, &mut m).unwrap();
    match req {
        IoReq::Open(name, opts) => {
            assert_eq!(name, "text.txt");
            assert!(!opts.read);
            assert!(opts.write);
            assert!(!opts.append);
            assert!(opts.truncate);
            assert!(opts.create);
            assert!(!opts.create_new);
        }
        _ => panic!("expected an open request"),
    }
    // The operating system hands back a fresh descriptor; 5 is not one
    // of the pre-registered standard descriptors.
    sys::open_done(&mut m, 5).unwrap();
    assert_eq!(f64::from_bits(m.mem_at(0).unwrap()), 5.0);
    // Closing it succeeds and marks it closed ...
    let v = vec![Tok::Num(5.0f64.to_bits())];
    assert_eq!(sys::close(&v, &mut m).unwrap(), IoReq::Close(5));
    // ... so a second close is a bad descriptor.
    let r = sys::close(&v, &mut m);
    assert_eq!(r, Err(Error::BadFileDescriptor(5)));
}

#[test]
fn invalid_open_option_digit() {
    let r = sys::parse_open_options(11210);
    assert!(matches!(r, Err(Error::InvalidOpenOption(112))));
    assert!(sys::parse_open_options(111111).is_ok());
}

#[test]
fn write_request_collects_bytes() {
    let mut m = Mem::new();
    let v = vec![
        Tok::Num(1.0f64.to_bits()),
        Tok::Ltl("hi".to_string()),
        Tok::Num(2.0f64.to_bits()),
    ];
    match sys::write(&v, &mut m).unwrap() {
        IoReq::Write(fd, bytes) => {
            assert_eq!(fd, 1);
            assert_eq!(bytes, b"hi".to_vec());
        }
        _ => panic!("expected a write request"),
    }
    sys::write_done(&mut m, 2).unwrap();
    assert_eq!(f64::from_bits(m.mem_at(0).unwrap()), 2.0);
}

#[test]
fn read_request_and_completion() {
    let mut m = Mem::new();
    let v = vec![
        Tok::Num(0.0f64.to_bits()),
        Tok::Idx(fasm_vm::lex::Idx::Num(20)),
        Tok::Num(4.0f64.to_bits()),
    ];
    let (fd, des, size) = match sys::read(&v, &mut m).unwrap() {
        IoReq::Read(fd, des, size) => (fd, des, size),
        _ => panic!("expected a read request"),
    };
    assert_eq!((fd, des, size), (0, 20, 4));
    let mut buf = [0u8; 1024];
    buf[0] = b'o';
    buf[1] = b'k';
    sys::read_done(&mut m, des, size, &buf).unwrap();
    assert_eq!(f64::from_bits(m.mem_at(20).unwrap()), b'o' as f64);
    assert_eq!(f64::from_bits(m.mem_at(21).unwrap()), b'k' as f64);
    // The zero byte ends the transfer; its count lands in the
    // accumulator.
    assert_eq!(f64::from_bits(m.mem_at(0).unwrap()), 2.0);
}

#[test]
fn bad_descriptor_rejected_before_io() {
    let mut m = Mem::new();
    let v = vec![
        Tok::Num(9.0f64.to_bits()),
        Tok::Ltl("x".to_string()),
        Tok::Num(1.0f64.to_bits()),
    ];
    assert_eq!(sys::write(&v, &mut m), Err(Error::BadFileDescriptor(9)));
}

#[test]
fn loop_with_label_counts_to_five() {
    let mut m = Mem::new();
    let mut c = Code::new();
    load(
        &[
            "mov: [1], 0",
            "lbl: TOP",
            "add: [1], 1",
            "mov: [1], [0]",
            "lt: [1], 5",
            "jc: [0], TOP",
        ],
        &mut m,
        &mut c,
    );
    run(&mut m, &mut c);
    assert_eq!(f64::from_bits(m.mem_at(1).unwrap()), 5.0);
}

#[test]
fn alias_retargets_jump() {
    let mut m = Mem::new();
    let mut c = Code::new();
    // The alias first points at SKIP, so the jump bypasses the first
    // store; nothing retargets it afterwards.
    load(
        &[
            "als: A, SKIP",
            "jmp: A",
            "mov: [1], 5",
            "lbl: SKIP",
            "mov: [2], 7",
        ],
        &mut m,
        &mut c,
    );
    run(&mut m, &mut c);
    assert_eq!(f64::from_bits(m.mem_at(1).unwrap()), 0.0);
    assert_eq!(f64::from_bits(m.mem_at(2).unwrap()), 7.0);
}

#[test]
fn src_signal_names_the_file() {
    let mut m = Mem::new();
    let v = vec![Tok::Sym(HashIdx::from_str("lib.vm"))];
    match src(&v, &mut m).unwrap() {
        Signal::Src(name) => assert_eq!(name, "lib.vm"),
        _ => panic!("expected a nested-load signal"),
    }
}

#[test]
fn exit_request_carries_value() {
    let mut m = Mem::new();
    let v = vec![Tok::Num(3.0f64.to_bits())];
    assert_eq!(sys::exit(&v, &mut m).unwrap(), IoReq::Exit(3.0f64.to_bits()));
}

#[test]
fn print_num_request_checks_descriptor() {
    let mut m = Mem::new();
    let v = vec![Tok::Num(1.0f64.to_bits()), Tok::Num(2.5f64.to_bits())];
    assert_eq!(
        print_num(&v, &mut m).unwrap(),
        IoReq::PrintNum(1, 2.5f64.to_bits())
    );
    let v = vec![Tok::Num(77.0f64.to_bits()), Tok::Num(2.5f64.to_bits())];
    assert_eq!(print_num(&v, &mut m), Err(Error::BadFileDescriptor(77)));
}

#[test]
fn nested_load_signal_hands_back_the_name() {
    let mut m = Mem::new();
    let mut c = Code::new();
    c.push(vec![Tok::Sym(HashIdx::new("src", 28))]);
    let sig = Signal::Src("other.vm".to_string());
    let pending = sig.respond(&mut m, &mut c).unwrap();
    assert_eq!(pending, Some("other.vm".to_string()));
    // The cursor waits for the nested program before advancing.
    assert_eq!(c.ptr(), 0);
}

#[test]
fn blank_line_loads_as_noop() {
    let mut m = Mem::new();
    let mut c = Code::new();
    let mut table: AHashMap<String, usize> = AHashMap::new();
    init_op_table(&mut table);
    let toks = tokenize("   # nothing here").unwrap();
    assert!(toks.is_empty());
    preprocess(&table, &mut m, &mut c, toks).unwrap();
    assert_eq!(c.len(), 0);
}
