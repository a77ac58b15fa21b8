//! The errors that end an assembly run.

use crate::text::{decimal, push_decimal};
use vstd::prelude::*;
use vstd::string::StringExecFns;

verus! {

/// Why an assembly run stopped; the text locates the fault.
#[derive(Debug)]
pub enum Error {
    /// A label declaration without its closing parenthesis.
    PreprocessError(String),
    /// An instruction that is no valid address or compute instruction.
    AssembleError(String),
    /// A variable declared a second time.
    SymbolTableError(String),
}

/// An `Error` with its text as a sequence of characters.
pub enum ErrorView {
    PreprocessError(Seq<char>),
    AssembleError(Seq<char>),
    SymbolTableError(Seq<char>),
}

impl View for Error {
    type V = ErrorView;

    open spec fn view(&self) -> ErrorView {
        match self {
            Error::PreprocessError(text) => ErrorView::PreprocessError(text@),
            Error::AssembleError(text) => ErrorView::AssembleError(text@),
            Error::SymbolTableError(text) => ErrorView::SymbolTableError(text@),
        }
    }
}

/// What is wrong with an instruction line.
pub enum Fault {
    /// Nothing follows the `@` of an address instruction.
    EmptySymbol,
    /// The text before `=` is no destination mnemonic.
    InvalidDestination,
    /// The text between `=` and `;` is no computation mnemonic.
    InvalidComputation,
    /// The text after `;` is no jump mnemonic.
    InvalidJump,
}

/// The error for a label declaration that lacks its closing parenthesis,
/// found when `line_number` instructions had been read.
pub open spec fn missing_parenthesis(line_number: u16) -> ErrorView {
    ErrorView::PreprocessError(
        "Missing label closing parenthesis at line "@ + decimal(line_number as nat),
    )
}

/// The error for the fault `fault` in instruction number `line_num`,
/// counted from 1.
pub open spec fn instruction_fault(fault: Fault, line_num: u16) -> ErrorView {
    ErrorView::AssembleError(
        match fault {
            Fault::EmptySymbol => "Invalid empty symbol at line "@,
            Fault::InvalidDestination => "Invalid destination at line "@,
            Fault::InvalidComputation => "Invalid computation at line "@,
            Fault::InvalidJump => "Invalid jump at line "@,
        } + decimal(line_num as nat),
    )
}

/// The error for a variable that the symbol table already holds.
pub open spec fn variable_exists(variable: Seq<char>) -> ErrorView {
    ErrorView::SymbolTableError(
        "Variable "@ + variable + " already exists in the symbol table"@,
    )
}

/// The line that reports `error` to the user.
pub open spec fn error_message(error: ErrorView) -> Seq<char> {
    match error {
        ErrorView::PreprocessError(text) => "Preprocess Error: "@ + text,
        ErrorView::AssembleError(text) => "Assemble Error: "@ + text,
        ErrorView::SymbolTableError(text) => "Symbol Table Error: "@ + text,
    }
}

impl Error {
    /// The line that reports this error to the user.
    pub fn message(&self) -> (r: String)
        ensures
            r@ == error_message(self@),
    {
        match self {
            Error::PreprocessError(text) => {
                let mut out = String::from_str("Preprocess Error: ");
                out.append(text.as_str());
                out
            },
            Error::AssembleError(text) => {
                let mut out = String::from_str("Assemble Error: ");
                out.append(text.as_str());
                out
            },
            Error::SymbolTableError(text) => {
                let mut out = String::from_str("Symbol Table Error: ");
                out.append(text.as_str());
                out
            },
        }
    }

    /// The error for a label declaration that lacks its closing
    /// parenthesis.
    pub fn missing_parenthesis(line_number: u16) -> (r: Self)
        ensures
            r@ == missing_parenthesis(line_number),
    {
        let mut text = String::from_str("Missing label closing parenthesis at line ");
        push_decimal(&mut text, line_number as usize);
        Error::PreprocessError(text)
    }

    /// The error for an address instruction without a symbol.
    pub fn empty_symbol(line_num: u16) -> (r: Self)
        ensures
            r@ == instruction_fault(Fault::EmptySymbol, line_num),
    {
        let mut text = String::from_str("Invalid empty symbol at line ");
        push_decimal(&mut text, line_num as usize);
        Error::AssembleError(text)
    }

    /// The error for an unknown destination mnemonic.
    pub fn invalid_destination(line_num: u16) -> (r: Self)
        ensures
            r@ == instruction_fault(Fault::InvalidDestination, line_num),
    {
        let mut text = String::from_str("Invalid destination at line ");
        push_decimal(&mut text, line_num as usize);
        Error::AssembleError(text)
    }

    /// The error for an unknown computation mnemonic.
    pub fn invalid_computation(line_num: u16) -> (r: Self)
        ensures
            r@ == instruction_fault(Fault::InvalidComputation, line_num),
    {
        let mut text = String::from_str("Invalid computation at line ");
        push_decimal(&mut text, line_num as usize);
        Error::AssembleError(text)
    }

    /// The error for an unknown jump mnemonic.
    pub fn invalid_jump(line_num: u16) -> (r: Self)
        ensures
            r@ == instruction_fault(Fault::InvalidJump, line_num),
    {
        let mut text = String::from_str("Invalid jump at line ");
        push_decimal(&mut text, line_num as usize);
        Error::AssembleError(text)
    }

    /// The error for a variable that the symbol table already holds.
    pub fn variable_exists(variable: &str) -> (r: Self)
        ensures
            r@ == variable_exists(variable@),
    {
        let mut text = String::from_str("Variable ");
        text.append(variable);
        text.append(" already exists in the symbol table");
        Error::SymbolTableError(text)
    }
}

} // verus!
