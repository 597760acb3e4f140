//! The error taxonomy of the machine: lexical errors, symbol-resolution
//! errors, memory errors, operand-contract errors, numeric-domain errors and
//! resource errors.  Every fallible operation returns its failure to its
//! caller; the first error aborts preprocessing or execution.  Each variant
//! carries the structured data needed to render a precise message; rendering
//! itself is left to the embedding program.

use vstd::prelude::*;

verus! {

#[derive(Debug, PartialEq)]
pub enum Error {
    /// The operator position of a line held a token of the given kind
    /// instead of a symbol.
    WrongTokTypeForOp(&'static str),
    /// A numeric literal failed to parse; carries the offending text.
    ParseNumError(String),
    /// The integer inside an index expression failed to parse; carries the
    /// offending text.
    ParseIdxError(String),
    /// An index expression was not closed by `]`.
    UnterminatedIdx,
    /// An index expression `[]` with nothing inside.
    EmptyIdx,
    /// An index expression `[$]` naming no variable.
    MissingVarName,
    /// A delimiter was reached before any token character.
    EmptyToken,
    /// The delimiter of the other position appeared, e.g. `,` before `:`.
    UnexpectedChar(char),
    /// A non-delimiter character followed the end of a symbol.
    NonDelimAfterSymEnd(char),
    /// An unescaped double quote inside a string literal position.
    DoubleQuoteInMiddle,
    /// A backslash escape other than `\"`, `\\`, `\n`, `\t`.
    UnknownEscapeSequence(char),
    /// A variable reference whose name was never declared.
    UndefinedVar(String),
    /// An operator name not present in the opcode table.
    UnknownOp(String),
    /// A label reference whose name was never declared.
    UnknownLabel(String),
    /// An address outside the bounds of the store it selects, with its
    /// original sign.
    InvalidMemAccess(isize),
    /// An attempt to write through a negative (read-only) address.
    WriteToNMem(isize),
    /// Wrong number of arguments: expected, got.
    WrongArgCount(usize, usize),
    /// Wrong kind of argument: the acceptable kinds, and the kind received.
    WrongArgType(Vec<&'static str>, &'static str),
    /// A value required to be a non-negative integer was not; carries the
    /// value's 64-bit encoding.
    NegativeOrNotInterger(u64),
    /// A value required to be an integer was not; carries the value's
    /// 64-bit encoding.
    NotInterger(u64),
    /// A read, write or close against a descriptor the machine does not own.
    BadFileDescriptor(i32),
    /// An operating-system I/O failure, rendered by the embedding program.
    IoError(String),
    /// An open-option encoding with a digit other than 0 or 1.
    InvalidOpenOption(u64),
    /// Bytes in memory that do not decode as UTF-8 where text was expected.
    InvalidUtf8,
}


/// The mathematical shape of an error: payloads reduced to sequences and
/// integers, so that contracts can state exactly which error an operation
/// reports.
pub enum ErrV {
    WrongTokTypeForOp(Seq<char>),
    ParseNumError(Seq<char>),
    ParseIdxError(Seq<char>),
    UnterminatedIdx,
    EmptyIdx,
    MissingVarName,
    EmptyToken,
    UnexpectedChar(char),
    NonDelimAfterSymEnd(char),
    DoubleQuoteInMiddle,
    UnknownEscapeSequence(char),
    UndefinedVar(Seq<char>),
    UnknownOp(Seq<char>),
    UnknownLabel(Seq<char>),
    InvalidMemAccess(int),
    WriteToNMem(int),
    WrongArgCount(int, int),
    WrongArgType(Seq<Seq<char>>, Seq<char>),
    NegativeOrNotInterger(u64),
    NotInterger(u64),
    BadFileDescriptor(int),
    IoError(Seq<char>),
    InvalidOpenOption(u64),
    InvalidUtf8,
}

impl View for Error {
    type V = ErrV;

    open spec fn view(&self) -> ErrV {
        match self {
            Error::WrongTokTypeForOp(s) => ErrV::WrongTokTypeForOp(s@),
            Error::ParseNumError(s) => ErrV::ParseNumError(s@),
            Error::ParseIdxError(s) => ErrV::ParseIdxError(s@),
            Error::UnterminatedIdx => ErrV::UnterminatedIdx,
            Error::EmptyIdx => ErrV::EmptyIdx,
            Error::MissingVarName => ErrV::MissingVarName,
            Error::EmptyToken => ErrV::EmptyToken,
            Error::UnexpectedChar(c) => ErrV::UnexpectedChar(*c),
            Error::NonDelimAfterSymEnd(c) => ErrV::NonDelimAfterSymEnd(*c),
            Error::DoubleQuoteInMiddle => ErrV::DoubleQuoteInMiddle,
            Error::UnknownEscapeSequence(c) => ErrV::UnknownEscapeSequence(*c),
            Error::UndefinedVar(s) => ErrV::UndefinedVar(s@),
            Error::UnknownOp(s) => ErrV::UnknownOp(s@),
            Error::UnknownLabel(s) => ErrV::UnknownLabel(s@),
            Error::InvalidMemAccess(i) => ErrV::InvalidMemAccess(*i as int),
            Error::WriteToNMem(i) => ErrV::WriteToNMem(*i as int),
            Error::WrongArgCount(e, g) => ErrV::WrongArgCount(*e as int, *g as int),
            Error::WrongArgType(v, g) => ErrV::WrongArgType(
                Seq::new(v@.len(), |i: int| v@[i]@),
                g@,
            ),
            Error::NegativeOrNotInterger(b) => ErrV::NegativeOrNotInterger(*b),
            Error::NotInterger(b) => ErrV::NotInterger(*b),
            Error::BadFileDescriptor(fd) => ErrV::BadFileDescriptor(*fd as int),
            Error::IoError(s) => ErrV::IoError(s@),
            Error::InvalidOpenOption(o) => ErrV::InvalidOpenOption(*o),
            Error::InvalidUtf8 => ErrV::InvalidUtf8,
        }
    }
}

/// A fallible result with its error reduced to the mathematical shape.
pub open spec fn res_view<T>(r: Result<T, Error>) -> Result<T, ErrV> {
    match r {
        Ok(v) => Ok(v),
        Err(e) => Err(e@),
    }
}

} // verus!
