//! What the second pass makes of an instruction line: the word that it
//! encodes to, and the bytes that the word is written as.

use crate::assembler::error::Fault;
use crate::assembler::symbol_table::{with_variable, SymbolTableView};
use crate::assembler::OutputFormat;
use crate::instruction::{
    address_word, bit_is_set, comp_code, compute_word, dest_code, jump_code,
    lemma_dest_mnemonic_letters,
};
use crate::text::{decimal_value, leading_digits, lemma_position, position};
use vstd::prelude::*;

verus! {

/// What follows the `@` of an address instruction.
pub enum Operand {
    /// Nothing but digits: the number that they spell.
    Literal(nat),
    /// Something else: the text from the first character that is no digit.
    /// Digits before it are dropped.
    Symbol(Seq<char>),
}

/// The operand of the address instruction `line`: everything after its
/// first character.
pub open spec fn operand_of(line: Seq<char>) -> Operand {
    let text = line.skip(1);
    let digits = leading_digits(text);
    if digits == text.len() {
        Operand::Literal(decimal_value(text))
    } else {
        Operand::Symbol(text.skip(digits))
    }
}

/// The address that `name` resolves to: its entry in the table, or the next
/// free variable address where the table does not hold it.
pub open spec fn resolved(table: SymbolTableView, name: Seq<char>) -> u16 {
    if table.symbols.contains_key(name) {
        table.symbols[name]
    } else {
        table.ram_addr
    }
}

/// The table after `name` was resolved: a name that it did not hold has
/// become a variable.
pub open spec fn table_after_resolve(table: SymbolTableView, name: Seq<char>) -> SymbolTableView {
    if table.symbols.contains_key(name) {
        table
    } else {
        with_variable(table, name)
    }
}

/// The word of the address instruction `line`, which starts with `@`. A
/// number is truncated to 15 bits; so is the address of a symbol.
pub open spec fn address_instruction(table: SymbolTableView, line: Seq<char>) -> Result<
    u16,
    Fault,
> {
    if line.len() == 1 {
        Err(Fault::EmptySymbol)
    } else {
        match operand_of(line) {
            Operand::Literal(n) => Ok((n % 0x8000) as u16),
            Operand::Symbol(name) => Ok(address_word(resolved(table, name))),
        }
    }
}

/// The table after the address instruction `line` was encoded.
pub open spec fn table_after_address(table: SymbolTableView, line: Seq<char>) -> SymbolTableView {
    if line.len() == 1 {
        table
    } else {
        match operand_of(line) {
            Operand::Literal(_) => table,
            Operand::Symbol(name) => table_after_resolve(table, name),
        }
    }
}

/// The destination of the compute instruction `line`: the text before its
/// first `=`, if it has one.
pub open spec fn dest_part(line: Seq<char>) -> Option<Seq<char>> {
    let equals = position(line, '=');
    if equals < line.len() {
        Some(line.take(equals))
    } else {
        None
    }
}

/// The index at which the computation of the compute instruction `line`
/// starts: after its first `=`, or at 0.
pub open spec fn comp_start(line: Seq<char>) -> int {
    let equals = position(line, '=');
    if equals < line.len() {
        equals + 1
    } else {
        0
    }
}

/// The computation of the compute instruction `line`: the text from
/// `comp_start` to its first `;` or to its end.
pub open spec fn comp_part(line: Seq<char>) -> Seq<char> {
    line.subrange(comp_start(line), position(line, ';'))
}

/// The jump of the compute instruction `line`: the text after its first
/// `;`, if there is any.
pub open spec fn jump_part(line: Seq<char>) -> Option<Seq<char>> {
    let semicolon = position(line, ';');
    if semicolon + 1 < line.len() {
        Some(line.skip(semicolon + 1))
    } else {
        None
    }
}

/// The destination mask of `line`: 0 without a destination, `None` for an
/// unknown mnemonic.
pub open spec fn dest_bits(line: Seq<char>) -> Option<u16> {
    match dest_part(line) {
        Some(mnemonic) => dest_code(mnemonic),
        None => Some(0u16),
    }
}

/// The jump condition of `line`: 0 without a jump, `None` for an unknown
/// mnemonic.
pub open spec fn jump_bits(line: Seq<char>) -> Option<u16> {
    match jump_part(line) {
        Some(mnemonic) => jump_code(mnemonic),
        None => Some(0u16),
    }
}

/// The word of the compute instruction `line`, of the form
/// `dest=comp;jump` with `dest=` and `;jump` optional. The destination is
/// looked at first, then the computation, then the jump.
pub open spec fn compute_instruction(line: Seq<char>) -> Result<u16, Fault> {
    if dest_bits(line) is None {
        Err(Fault::InvalidDestination)
    } else if comp_code(comp_part(line)) is None {
        Err(Fault::InvalidComputation)
    } else if jump_bits(line) is None {
        Err(Fault::InvalidJump)
    } else {
        Ok(compute_word(comp_code(comp_part(line))->0, dest_bits(line)->0, jump_bits(line)->0))
    }
}

/// Whether `line` is an address instruction: it starts with `@`.
pub open spec fn is_address_line(line: Seq<char>) -> bool {
    line.len() > 0 && line[0] == '@'
}

/// The word of the instruction `line`.
pub open spec fn instruction_word(table: SymbolTableView, line: Seq<char>) -> Result<u16, Fault> {
    if is_address_line(line) {
        address_instruction(table, line)
    } else {
        compute_instruction(line)
    }
}

/// The table after the instruction `line` was encoded. Only an address
/// instruction with a new symbol changes it.
pub open spec fn table_after_instruction(table: SymbolTableView, line: Seq<char>)
    -> SymbolTableView {
    if is_address_line(line) {
        table_after_address(table, line)
    } else {
        table
    }
}

/// Whether encoding the instruction `line` declares a new variable: it is
/// an address instruction whose symbol the table does not hold.
pub open spec fn allocates(table: SymbolTableView, line: Seq<char>) -> bool {
    is_address_line(line) && line.len() > 1 && match operand_of(line) {
        Operand::Literal(_) => false,
        Operand::Symbol(name) => !table.symbols.contains_key(name),
    }
}

/// The outcome of the second pass.
pub struct Assembly {
    /// The symbol table at the end.
    pub table: SymbolTableView,
    /// The words of the instructions that were encoded, in order.
    pub words: Seq<u16>,
    /// What was wrong with the instruction after them, if the pass stopped
    /// there.
    pub fault: Option<Fault>,
}

/// The outcome of the second pass on `lines`, started with `table`. The
/// lines are encoded in order, each with the table that the lines before it
/// left; the pass stops at the first line that is at fault.
pub open spec fn assembled(table: SymbolTableView, lines: Seq<Seq<char>>) -> Assembly
    decreases lines.len(),
{
    if lines.len() == 0 {
        Assembly { table, words: Seq::empty(), fault: None }
    } else {
        let before = assembled(table, lines.drop_last());
        if before.fault is Some {
            before
        } else {
            match instruction_word(before.table, lines.last()) {
                Ok(word) => Assembly {
                    table: table_after_instruction(before.table, lines.last()),
                    words: before.words.push(word),
                    fault: None,
                },
                Err(fault) => Assembly { fault: Some(fault), ..before },
            }
        }
    }
}

/// Character `k` from the left of the sixteen binary digits of `word`, as
/// an ASCII byte.
pub open spec fn binary_digit(word: u16, k: int) -> u8 {
    if bit_is_set(word, 15 - k) {
        49u8
    } else {
        48u8
    }
}

/// The bytes that `word` is written as: in text form its sixteen binary
/// digits, the most significant first, and a line feed; in binary form its
/// high byte and its low byte.
pub open spec fn word_bytes(format: OutputFormat, word: u16) -> Seq<u8> {
    match format {
        OutputFormat::Text => Seq::new(16, |k: int| binary_digit(word, k)).push(10u8),
        OutputFormat::Binary => seq![(word / 256) as u8, (word % 256) as u8],
    }
}

/// The bytes that `words` are written as, one after the other.
pub open spec fn program_bytes(format: OutputFormat, words: Seq<u16>) -> Seq<u8>
    decreases words.len(),
{
    if words.len() == 0 {
        Seq::empty()
    } else {
        program_bytes(format, words.drop_last()) + word_bytes(format, words.last())
    }
}

/// Once the second pass has stopped at a fault, more lines change nothing.
pub proof fn lemma_assembled_stops(table: SymbolTableView, lines: Seq<Seq<char>>, n: int)
    requires
        0 <= n <= lines.len(),
        assembled(table, lines.take(n)).fault is Some,
    ensures
        assembled(table, lines) == assembled(table, lines.take(n)),
    decreases lines.len(),
{
    if n == lines.len() {
        assert(lines.take(n) == lines);
    } else {
        assert(lines.drop_last().take(n) == lines.take(n));
        lemma_assembled_stops(table, lines.drop_last(), n);
    }
}

/// In a compute instruction with a known destination, the first `;` comes
/// after the first `=`: the computation does not start after its end.
pub proof fn lemma_comp_part_bounds(line: Seq<char>)
    requires
        dest_bits(line) is Some,
    ensures
        0 <= comp_start(line) <= position(line, ';') <= line.len(),
{
    lemma_position(line, '=');
    lemma_position(line, ';');
    let equals = position(line, '=');
    let semicolon = position(line, ';');
    if equals < line.len() {
        let mnemonic = line.take(equals);
        lemma_dest_mnemonic_letters(mnemonic);
        if semicolon <= equals {
            if semicolon < equals {
                assert(mnemonic[semicolon] == ';');
            }
        }
    }
}

} // verus!
