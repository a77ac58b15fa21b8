//! What the first pass makes of the source text: each line is cleaned and
//! is then blank, a label declaration or an instruction.

use crate::assembler::error::{missing_parenthesis, ErrorView};
use crate::assembler::symbol_table::{with_label, SymbolTableView};
use crate::text::{comment_start, without_whitespace};
use vstd::prelude::*;

verus! {

/// A source line without its white space and without its comment, which
/// starts at the first `//`.
pub open spec fn clean_line(line: Seq<char>) -> Seq<char> {
    let stripped = without_whitespace(line);
    stripped.take(comment_start(stripped))
}

/// What a source line is, once cleaned.
pub enum SourceLine {
    /// Nothing is left of the line.
    Blank,
    /// A label declaration `(name)`, with the name.
    Label(Seq<char>),
    /// A line that starts with `(` and does not end with `)`.
    BadLabel,
    /// An instruction, with its cleaned text.
    Instruction(Seq<char>),
}

/// Tells what the source line `line` is.
pub open spec fn classify(line: Seq<char>) -> SourceLine {
    let text = clean_line(line);
    if text.len() == 0 {
        SourceLine::Blank
    } else if text[0] == '(' {
        if text.last() == ')' {
            SourceLine::Label(text.subrange(1, text.len() - 1))
        } else {
            SourceLine::BadLabel
        }
    } else {
        SourceLine::Instruction(text)
    }
}

/// What reading one source line yields when `line_number` instructions have
/// been read before it: the instruction to emit, nothing, or an error.
pub open spec fn line_output(line: Seq<char>, line_number: u16) -> Result<
    Option<Seq<char>>,
    ErrorView,
> {
    match classify(line) {
        SourceLine::Blank => Ok(None),
        SourceLine::Label(_) => Ok(None),
        SourceLine::BadLabel => Err(missing_parenthesis(line_number)),
        SourceLine::Instruction(text) => Ok(Some(text)),
    }
}

/// The symbol table after one source line was read when `line_number`
/// instructions had been read before it: a label declaration binds its name
/// to `line_number`, the address of the next instruction; any other line
/// leaves the table as it was.
pub open spec fn line_symbols(table: SymbolTableView, line: Seq<char>, line_number: u16)
    -> SymbolTableView {
    match classify(line) {
        SourceLine::Label(name) => with_label(table, name, line_number),
        _ => table,
    }
}

/// The number of lines that are read: all lines before the first bad label.
pub open spec fn lines_read(lines: Seq<Seq<char>>) -> int
    decreases lines.len(),
{
    if lines.len() == 0 {
        0
    } else if classify(lines[0]) is BadLabel {
        0
    } else {
        1 + lines_read(lines.drop_first())
    }
}

/// The cleaned instructions among `lines`, in order. The index of an
/// instruction in this sequence is its address.
pub open spec fn instructions_of(lines: Seq<Seq<char>>) -> Seq<Seq<char>>
    decreases lines.len(),
{
    if lines.len() == 0 {
        Seq::empty()
    } else {
        let before = instructions_of(lines.drop_last());
        match classify(lines.last()) {
            SourceLine::Instruction(text) => before.push(text),
            _ => before,
        }
    }
}

/// The symbol table after the label declarations among `lines` were bound,
/// each to the number of instructions before it, in order.
pub open spec fn labels_bound(table: SymbolTableView, lines: Seq<Seq<char>>) -> SymbolTableView
    decreases lines.len(),
{
    if lines.len() == 0 {
        table
    } else {
        line_symbols(
            labels_bound(table, lines.drop_last()),
            lines.last(),
            instructions_of(lines.drop_last()).len() as u16,
        )
    }
}

/// What the first pass returns for `lines`: their instructions, or the
/// error for the first bad label, which names the number of instructions
/// before it.
pub open spec fn preprocessed(lines: Seq<Seq<char>>) -> Result<Seq<Seq<char>>, ErrorView> {
    let read = lines_read(lines);
    if read == lines.len() {
        Ok(instructions_of(lines))
    } else {
        Err(missing_parenthesis(instructions_of(lines.take(read)).len() as u16))
    }
}

/// `lines_read(lines)` is the index of the first bad label, or the number
/// of lines where there is none.
pub proof fn lemma_lines_read(lines: Seq<Seq<char>>)
    ensures
        0 <= lines_read(lines) <= lines.len(),
        forall|j: int| 0 <= j < lines_read(lines) ==> !(classify(#[trigger] lines[j]) is BadLabel),
        lines_read(lines) < lines.len() ==> classify(lines[lines_read(lines)]) is BadLabel,
    decreases lines.len(),
{
    if lines.len() == 0 {
    } else if classify(lines[0]) is BadLabel {
    } else {
        let rest = lines.drop_first();
        lemma_lines_read(rest);
        assert forall|j: int| 0 <= j < lines_read(lines) implies !(classify(
            #[trigger] lines[j],
        ) is BadLabel) by {
            if j > 0 {
                assert(rest[j - 1] == lines[j]);
            }
        }
        if lines_read(lines) < lines.len() {
            assert(rest[lines_read(rest)] == lines[lines_read(lines)]);
        }
    }
}

/// The index of a bad label with none before it is `lines_read(lines)`; so
/// is the number of lines where none is a bad label.
pub proof fn lemma_lines_read_unique(lines: Seq<Seq<char>>, n: int)
    requires
        0 <= n <= lines.len(),
        forall|j: int| 0 <= j < n ==> !(classify(#[trigger] lines[j]) is BadLabel),
        n < lines.len() ==> classify(lines[n]) is BadLabel,
    ensures
        lines_read(lines) == n,
{
    lemma_lines_read(lines);
    let m = lines_read(lines);
    if m < n {
        assert(!(classify(lines[m]) is BadLabel));
    } else if n < m {
        assert(!(classify(lines[n]) is BadLabel));
    }
}

/// A prefix of the lines holds no more instructions than all of them.
pub proof fn lemma_instructions_of_prefix(lines: Seq<Seq<char>>, n: int)
    requires
        0 <= n <= lines.len(),
    ensures
        instructions_of(lines.take(n)).len() <= instructions_of(lines).len(),
        instructions_of(lines).len() <= lines.len(),
    decreases lines.len(),
{
    if lines.len() == 0 {
        assert(lines.take(n) == lines);
    } else if n == lines.len() {
        assert(lines.take(n) == lines);
        lemma_instructions_of_prefix(lines.drop_last(), n - 1);
    } else {
        lemma_instructions_of_prefix(lines.drop_last(), n);
        assert(lines.drop_last().take(n) == lines.take(n));
    }
}

} // verus!
