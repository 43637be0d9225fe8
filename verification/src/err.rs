//! The error taxonomy. Every failure is an ordinary, recoverable result
//! value that propagates to the caller; the core performs no local recovery.

use crate::exp::{Kind, MacroKind};
use vstd::prelude::*;
use vstd::string::StringExecFns;

verus! {

/// What went wrong while reading token text into an expression tree.
#[derive(Clone, Copy, Debug, PartialEq, Eq, Structural)]
pub enum ParseFault {
    /// The token stream ended in the middle of a form.
    UnexpectedEof,
    /// A closing parenthesis appeared with no open form.
    UnexpectedClose,
}

/// Every failure the interpreter can report.
#[derive(Debug)]
pub enum LispError {
    /// Lookup exhausted the scope chain and the global table.
    UnboundSymbol(String),
    /// The head of a call form was not a symbol, or resolved to a value
    /// that is not a procedure, lambda or macro.
    NotCallable,
    /// An argument count did not match a parameter count.
    ArityMismatch,
    /// A native procedure received a variant it cannot operate on.
    TypeMismatch(Kind, Kind),
    /// A special form's argument shape violated its grammar.
    MalformedForm(MacroKind),
    /// Surfaced from the parser, propagated through the same channel.
    ParseError(ParseFault),
    /// A failed `assert`; the host treats this as an unrecoverable abort.
    AssertionFailed,
    /// Evaluation nested deeper than the depth budget allows.
    StackOverflow,
}

/// The mathematical model of an error value.
#[verifier::ext_equal]
pub enum ErrV {
    UnboundSymbol(Seq<char>),
    NotCallable,
    ArityMismatch,
    TypeMismatch(Kind, Kind),
    MalformedForm(MacroKind),
    ParseError(ParseFault),
    AssertionFailed,
    StackOverflow,
}

pub open spec fn err_view(e: LispError) -> ErrV {
    match e {
        LispError::UnboundSymbol(s) => ErrV::UnboundSymbol(s@),
        LispError::NotCallable => ErrV::NotCallable,
        LispError::ArityMismatch => ErrV::ArityMismatch,
        LispError::TypeMismatch(want, got) => ErrV::TypeMismatch(want, got),
        LispError::MalformedForm(f) => ErrV::MalformedForm(f),
        LispError::ParseError(p) => ErrV::ParseError(p),
        LispError::AssertionFailed => ErrV::AssertionFailed,
        LispError::StackOverflow => ErrV::StackOverflow,
    }
}

impl View for LispError {
    type V = ErrV;

    open spec fn view(&self) -> ErrV {
        err_view(*self)
    }
}

pub open spec fn spec_kind_text(k: Kind) -> Seq<char> {
    match k {
        Kind::List => "a list"@,
        Kind::Num => "a number"@,
        Kind::Symbol => "a symbol"@,
        Kind::Str => "a string"@,
        Kind::Vector => "a vector"@,
        Kind::Lambda => "a lambda"@,
        Kind::Func => "a native procedure"@,
        Kind::Macro => "a macro"@,
        Kind::Bool => "a boolean"@,
    }
}

fn kind_text(k: Kind) -> (r: &'static str)
    ensures
        r@ == spec_kind_text(k),
{
    match k {
        Kind::List => "a list",
        Kind::Num => "a number",
        Kind::Symbol => "a symbol",
        Kind::Str => "a string",
        Kind::Vector => "a vector",
        Kind::Lambda => "a lambda",
        Kind::Func => "a native procedure",
        Kind::Macro => "a macro",
        Kind::Bool => "a boolean",
    }
}

pub open spec fn spec_form_grammar(f: MacroKind) -> Seq<char> {
    match f {
        MacroKind::If => "(if condition then else)"@,
        MacroKind::Let => "(let ((name value) ...) body...)"@,
        MacroKind::Def => "(def name value)"@,
        MacroKind::Defun => "(defun name (params...) body...)"@,
        MacroKind::Lam => "(lambda (params...) body...)"@,
        MacroKind::Progn => "(progn body...)"@,
    }
}

fn form_grammar(f: MacroKind) -> (r: &'static str)
    ensures
        r@ == spec_form_grammar(f),
{
    match f {
        MacroKind::If => "(if condition then else)",
        MacroKind::Let => "(let ((name value) ...) body...)",
        MacroKind::Def => "(def name value)",
        MacroKind::Defun => "(defun name (params...) body...)",
        MacroKind::Lam => "(lambda (params...) body...)",
        MacroKind::Progn => "(progn body...)",
    }
}

/// The text of an error report, variant by variant.
pub open spec fn spec_message(e: ErrV) -> Seq<char> {
    match e {
        ErrV::UnboundSymbol(s) => "Symbol "@ + s + " is unbound"@,
        ErrV::NotCallable => "Attempted to call non-callable object"@,
        ErrV::ArityMismatch => "Wrong number of arguments"@,
        ErrV::TypeMismatch(want, got) => "Expected "@ + spec_kind_text(want) + ", found "@
            + spec_kind_text(got),
        ErrV::MalformedForm(f) => "Malformed form, expected "@ + spec_form_grammar(f),
        ErrV::ParseError(ParseFault::UnexpectedEof) => "Unexpected EOF while parsing"@,
        ErrV::ParseError(ParseFault::UnexpectedClose) => "Unexpected )"@,
        ErrV::AssertionFailed => "Assertion failed"@,
        ErrV::StackOverflow => "Evaluation nested too deeply"@,
    }
}

impl LispError {
    /// Renders the error as the text a host would report.
    pub fn message(&self) -> (r: String)
        ensures
            r@ == spec_message(self@),
    {
        match self {
            LispError::UnboundSymbol(s) => {
                let mut m = String::new();
                m.append("Symbol ");
                m.append(s.as_str());
                m.append(" is unbound");
                m
            },
            LispError::NotCallable => String::from_str("Attempted to call non-callable object"),
            LispError::ArityMismatch => String::from_str("Wrong number of arguments"),
            LispError::TypeMismatch(want, got) => {
                let mut m = String::new();
                m.append("Expected ");
                m.append(kind_text(*want));
                m.append(", found ");
                m.append(kind_text(*got));
                m
            },
            LispError::MalformedForm(f) => {
                let mut m = String::new();
                m.append("Malformed form, expected ");
                m.append(form_grammar(*f));
                m
            },
            LispError::ParseError(ParseFault::UnexpectedEof) => String::from_str(
                "Unexpected EOF while parsing",
            ),
            LispError::ParseError(ParseFault::UnexpectedClose) => String::from_str("Unexpected )"),
            LispError::AssertionFailed => String::from_str("Assertion failed"),
            LispError::StackOverflow => String::from_str("Evaluation nested too deeply"),
        }
    }
}

} // verus!
