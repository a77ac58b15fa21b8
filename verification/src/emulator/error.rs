//! The errors that end an emulation run.

use crate::text::{hexadecimal_4, push_hexadecimal_4};
use vstd::prelude::*;
use vstd::string::StringExecFns;

verus! {

/// Why an emulation run stopped. Every one of them is final: nothing is
/// retried.
#[derive(Debug)]
pub enum Error {
    /// The program image cannot be loaded; the text says why.
    RomError(String),
    /// A memory access outside the address space, with the address.
    InvalidMemoryAddress(usize),
    /// An instruction fetch outside the ROM, with the address.
    InvalidROMAddress(usize),
    /// A compute instruction whose bits 14..13 are not both set, with the
    /// program counter.
    InvalidCInstructionPadding(usize),
    /// A compute instruction whose computation code is not in the table,
    /// with the program counter.
    InvalidCInstructionComp(usize),
}

/// An `Error` with its text as a sequence of characters.
pub enum ErrorView {
    RomError(Seq<char>),
    InvalidMemoryAddress(usize),
    InvalidROMAddress(usize),
    InvalidCInstructionPadding(usize),
    InvalidCInstructionComp(usize),
}

impl View for Error {
    type V = ErrorView;

    open spec fn view(&self) -> ErrorView {
        match self {
            Error::RomError(text) => ErrorView::RomError(text@),
            Error::InvalidMemoryAddress(address) => ErrorView::InvalidMemoryAddress(*address),
            Error::InvalidROMAddress(address) => ErrorView::InvalidROMAddress(*address),
            Error::InvalidCInstructionPadding(pc) => ErrorView::InvalidCInstructionPadding(*pc),
            Error::InvalidCInstructionComp(pc) => ErrorView::InvalidCInstructionComp(*pc),
        }
    }
}

/// The line that reports `error` to the user. Addresses and program counters
/// are written in base sixteen with at least four digits.
pub open spec fn error_message(error: ErrorView) -> Seq<char> {
    match error {
        ErrorView::RomError(text) => "ROM Error: "@ + text,
        ErrorView::InvalidMemoryAddress(address) => "Invalid Memory Address: "@ + hexadecimal_4(
            address as nat,
        ),
        ErrorView::InvalidROMAddress(address) => "Invalid ROM Address: "@ + hexadecimal_4(
            address as nat,
        ),
        ErrorView::InvalidCInstructionPadding(pc) =>
            "Invalid C Instruction Padding, should be 111, at PC: "@ + hexadecimal_4(pc as nat),
        ErrorView::InvalidCInstructionComp(pc) => "Invalid C Instruction Computation, at PC: "@
            + hexadecimal_4(pc as nat),
    }
}

impl Error {
    /// The line that reports this error to the user.
    pub fn message(&self) -> (r: String)
        ensures
            r@ == error_message(self@),
    {
        match self {
            Error::RomError(text) => {
                let mut out = String::from_str("ROM Error: ");
                out.append(text.as_str());
                out
            },
            Error::InvalidMemoryAddress(address) => {
                let mut out = String::from_str("Invalid Memory Address: ");
                push_hexadecimal_4(&mut out, *address);
                out
            },
            Error::InvalidROMAddress(address) => {
                let mut out = String::from_str("Invalid ROM Address: ");
                push_hexadecimal_4(&mut out, *address);
                out
            },
            Error::InvalidCInstructionPadding(pc) => {
                let mut out = String::from_str(
                    "Invalid C Instruction Padding, should be 111, at PC: ",
                );
                push_hexadecimal_4(&mut out, *pc);
                out
            },
            Error::InvalidCInstructionComp(pc) => {
                let mut out = String::from_str("Invalid C Instruction Computation, at PC: ");
                push_hexadecimal_4(&mut out, *pc);
                out
            },
        }
    }
}

} // verus!
