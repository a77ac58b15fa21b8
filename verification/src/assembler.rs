//! The assembler: a first pass that cleans the source and binds its labels,
//! and a second pass that encodes each instruction line into a word.

pub mod encoding;
pub mod error;
pub mod source;
pub mod symbol_table;

pub use error::Error;
pub use symbol_table::SymbolTable;

use encoding::{
    address_instruction, allocates, assembled, binary_digit, compute_instruction, instruction_word,
    is_address_line, lemma_assembled_stops, lemma_comp_part_bounds, program_bytes,
    table_after_address, table_after_instruction, word_bytes, Assembly,
};
use error::{instruction_fault, ErrorView, Fault};
use source::{
    classify, clean_line, instructions_of, labels_bound, lemma_instructions_of_prefix,
    lemma_lines_read_unique, line_output, line_symbols, lines_read, preprocessed,
};
use symbol_table::SymbolTableView;
use vstd::prelude::*;
use vstd::slice::slice_subrange;

use crate::instruction::{
    comp_code, dest_code, encode_address, encode_compute, jump_code, lookup_comp, lookup_dest,
    lookup_jump,
};
use crate::text::{
    char_is_whitespace, chars_of, count_leading_digits, find_char, find_comment,
    lemma_leading_digits, parse_decimal, position, string_of, without_whitespace,
};
use vstd::string::{StrSliceExecFns, StringExecFns};

verus! {

/// How the words of a program are written out.
#[derive(Clone, Copy, Debug)]
pub enum OutputFormat {
    /// One line of sixteen `0`s and `1`s for each word.
    Text,
    /// Two bytes for each word, the high byte first.
    Binary,
}

/// The assembler: its symbol table, its settings, and the number of the
/// instruction that the second pass encodes next, counted from 1.
pub struct Assembler {
    st: SymbolTable,
    output_format: OutputFormat,
    save_preprocessed_file: bool,
    line_num: u16,
}

/// What an assembler holds.
pub struct AssemblerView {
    pub symbols: SymbolTableView,
    pub output_format: OutputFormat,
    pub save_preprocessed_file: bool,
    pub line_num: u16,
}

impl View for Assembler {
    type V = AssemblerView;

    closed spec fn view(&self) -> AssemblerView {
        AssemblerView {
            symbols: self.st@,
            output_format: self.output_format,
            save_preprocessed_file: self.save_preprocessed_file,
            line_num: self.line_num,
        }
    }
}

/// The result of reading one source line, with texts as sequences of
/// characters.
pub open spec fn line_result_view(r: Result<Option<String>, Error>) -> Result<
    Option<Seq<char>>,
    ErrorView,
> {
    match r {
        Ok(Some(text)) => Ok(Some(text@)),
        Ok(None) => Ok(None),
        Err(error) => Err(error@),
    }
}

/// The result of the first pass, with texts as sequences of characters.
pub open spec fn lines_result_view(r: Result<Vec<String>, Error>) -> Result<
    Seq<Seq<char>>,
    ErrorView,
> {
    match r {
        Ok(lines) => Ok(lines.deep_view()),
        Err(error) => Err(error@),
    }
}

/// The result of encoding, with its error text as a sequence of characters.
pub open spec fn word_result_view(r: Result<u16, Error>) -> Result<u16, ErrorView> {
    match r {
        Ok(word) => Ok(word),
        Err(error) => Err(error@),
    }
}

/// The result of the second pass, with its error text as a sequence of
/// characters.
pub open spec fn pass_result_view(r: Result<(), Error>) -> Result<(), ErrorView> {
    match r {
        Ok(()) => Ok(()),
        Err(error) => Err(error@),
    }
}

/// What encoding instruction number `line_num` returns: its word, or the
/// error for its fault.
pub open spec fn word_result(expected: Result<u16, Fault>, line_num: u16) -> Result<
    u16,
    ErrorView,
> {
    match expected {
        Ok(word) => Ok(word),
        Err(fault) => Err(instruction_fault(fault, line_num)),
    }
}

/// What looking one field of instruction number `line_num` up returns: its
/// bits, or the error `fault` for an unknown mnemonic.
pub open spec fn bits_result(expected: Option<u16>, fault: Fault, line_num: u16) -> Result<
    u16,
    ErrorView,
> {
    match expected {
        Some(bits) => Ok(bits),
        None => Err(instruction_fault(fault, line_num)),
    }
}

/// What the second pass returns when it started at instruction number
/// `first_line`: success, or the error for the instruction at fault.
pub open spec fn pass_result(assembly: Assembly, first_line: u16) -> Result<(), ErrorView> {
    match assembly.fault {
        None => Ok(()),
        Some(fault) => Err(instruction_fault(fault, (first_line + assembly.words.len()) as u16)),
    }
}

/// A source line without its white space and without its comment.
pub fn clean(line: &str) -> (r: Vec<char>)
    ensures
        r@ == clean_line(line@),
{
    let mut stripped: Vec<char> = Vec::new();
    for c in it: line.chars()
        invariant
            it.seq() == line@,
            stripped@ == without_whitespace(line@.take(it.index() as int)),
    {
        proof {
            let read = line@.take(it.index() as int);
            reveal(Seq::filter);
            assert(line@.take(it.index() as int + 1) == read.push(c));
            assert(read.push(c).drop_last() == read);
        }
        if !char_is_whitespace(c) {
            stripped.push(c);
        }
    }
    assert(line@.take(line@.len() as int) == line@);

    let comment_index = find_comment(stripped.as_slice());
    stripped.truncate(comment_index);
    stripped
}

/// The name of the file that the words are written to: `output_name` where
/// one is given, else the stem of the input file with `.hack` behind it.
pub fn output_file_name(file_stem: &str, output_name: Option<String>) -> (r: String)
    ensures
        r@ == match output_name {
            Some(name) => name@,
            None => file_stem@ + ".hack"@,
        },
{
    match output_name {
        Some(output_path) => output_path,
        None => {
            let mut name = String::from_str(file_stem);
            name.append(".hack");
            name
        },
    }
}

/// The name of the file that the cleaned instructions are written to: the
/// stem of the input file with `.i` behind it.
pub fn preprocessed_file_name(file_stem: &str) -> (r: String)
    ensures
        r@ == file_stem@ + ".i"@,
{
    let mut name = String::from_str(file_stem);
    name.append(".i");
    name
}

impl Assembler {
    /// An assembler with the predefined symbols, ready for its first pass.
    pub fn new(output_format: OutputFormat, save_preprocessed_file: bool) -> (r: Self)
        ensures
            r@ == (AssemblerView {
                symbols: SymbolTableView {
                    symbols: symbol_table::predefined_symbols(),
                    ram_addr: symbol_table::FIRST_VARIABLE_ADDRESS,
                },
                output_format,
                save_preprocessed_file,
                line_num: 1,
            }),
    {
        Self { st: SymbolTable::new(), output_format, save_preprocessed_file, line_num: 1 }
    }

    /// The symbol table.
    pub fn symbol_table(&self) -> (r: &SymbolTable)
        ensures
            r@ == self@.symbols,
    {
        &self.st
    }

    /// How the words are written out.
    pub fn output_format(&self) -> (r: OutputFormat)
        ensures
            r == self@.output_format,
    {
        self.output_format
    }

    /// Whether the cleaned instructions are to be written to a file of
    /// their own.
    pub fn save_preprocessed_file(&self) -> (r: bool)
        ensures
            r == self@.save_preprocessed_file,
    {
        self.save_preprocessed_file
    }

    /// The number of the instruction that the second pass encodes next,
    /// counted from 1.
    pub fn line_num(&self) -> (r: u16)
        ensures
            r == self@.line_num,
    {
        self.line_num
    }

    /// The number of instructions among `lines`: what the first pass would
    /// count if it read them all.
    pub fn count_instructions(lines: &Vec<String>) -> (r: usize)
        ensures
            r == instructions_of(lines.deep_view()).len(),
    {
        let ghost texts = lines.deep_view();
        let mut count: usize = 0;
        let mut i: usize = 0;
        assert(texts.take(0) == Seq::<Seq<char>>::empty());
        while i < lines.len()
            invariant
                texts == lines.deep_view(),
                i <= lines.len(),
                count == instructions_of(texts.take(i as int)).len(),
                count <= i,
            decreases lines.len() - i,
        {
            proof {
                assert(texts.take(i + 1).drop_last() == texts.take(i as int));
                assert(texts.take(i + 1).last() == texts[i as int]);
                assert(texts[i as int] == lines[i as int]@);
            }
            let cleaned = clean(lines[i].as_str());
            if cleaned.len() > 0 && cleaned[0] != '(' {
                count += 1;
            }
            i += 1;
        }
        assert(texts.take(i as int) == texts);
        count
    }

    /// The first pass: cleans every source line, binds each label to the
    /// address of the instruction that follows it, and returns the
    /// instructions in order. It stops at the first label declaration that
    /// lacks its closing parenthesis; the labels before it stay bound.
    ///
    /// Instructions are counted in 16 bits, so `lines` may hold at most
    /// 65535 of them; `count_instructions` tells how many there are.
    pub fn preprocess(&mut self, lines: &Vec<String>) -> (r: Result<Vec<String>, Error>)
        requires
            instructions_of(lines.deep_view()).len() <= u16::MAX,
        ensures
            lines_result_view(r) == preprocessed(lines.deep_view()),
            final(self)@ == (AssemblerView {
                symbols: labels_bound(
                    old(self)@.symbols,
                    lines.deep_view().take(lines_read(lines.deep_view())),
                ),
                ..old(self)@
            }),
    {
        let ghost texts = lines.deep_view();
        let mut preprocessed_lines: Vec<String> = Vec::new();
        let mut line_number: u16 = 0;
        let mut i: usize = 0;
        assert(texts.take(0) == Seq::<Seq<char>>::empty());
        assert(preprocessed_lines.deep_view() == Seq::<Seq<char>>::empty());
        while i < lines.len()
            invariant
                texts == lines.deep_view(),
                i <= lines.len(),
                instructions_of(texts).len() <= u16::MAX,
                forall|j: int| 0 <= j < i ==> !(classify(#[trigger] texts[j]) is BadLabel),
                preprocessed_lines.deep_view() == instructions_of(texts.take(i as int)),
                line_number == preprocessed_lines.len(),
                self@ == (AssemblerView {
                    symbols: labels_bound(old(self)@.symbols, texts.take(i as int)),
                    ..old(self)@
                }),
            decreases lines.len() - i,
        {
            let ghost before = preprocessed_lines.deep_view();
            proof {
                assert(texts.take(i + 1).drop_last() == texts.take(i as int));
                assert(texts.take(i + 1).last() == texts[i as int]);
                assert(texts[i as int] == lines[i as int]@);
                lemma_instructions_of_prefix(texts, i + 1);
            }
            match self.preprocess_line(&lines[i], &line_number) {
                Err(error) => {
                    proof {
                        lemma_lines_read_unique(texts, i as int);
                    }
                    return Err(error);
                },
                Ok(Some(asm_line)) => {
                    preprocessed_lines.push(asm_line);
                    assert(preprocessed_lines.deep_view() == before.push(asm_line@));
                    line_number += 1;
                },
                Ok(None) => {},
            }
            i += 1;
        }
        proof {
            assert(texts.take(i as int) == texts);
            lemma_lines_read_unique(texts, i as int);
        }
        Ok(preprocessed_lines)
    }

    /// Reads one source line when `line_number` instructions have been read
    /// before it. White space and the comment are removed; what is left is
    /// dropped if it is empty, binds a label to `line_number` if it is a
    /// label declaration, and is returned as an instruction otherwise.
    pub fn preprocess_line(&mut self, line: &String, line_number: &u16) -> (r: Result<
        Option<String>,
        Error,
    >)
        ensures
            line_result_view(r) == line_output(line@, *line_number),
            final(self)@ == (AssemblerView {
                symbols: line_symbols(old(self)@.symbols, line@, *line_number),
                ..old(self)@
            }),
    {
        let cleaned = clean(line.as_str());
        let pp_line = cleaned.as_slice();

        if pp_line.len() == 0 {
            return Ok(None);
        }
        if pp_line[0] == '(' {
            if pp_line[pp_line.len() - 1] != ')' {
                return Err(Error::missing_parenthesis(*line_number));
            }
            let label = string_of(slice_subrange(pp_line, 1, pp_line.len() - 1));
            self.st.add_label(label.as_str(), *line_number);
            return Ok(None);
        }
        Ok(Some(string_of(pp_line)))
    }

    /// The second pass: encodes the instructions `lines` in order and
    /// appends each word to `out` in the output format. It stops at the
    /// first instruction that is at fault; the words before it stay in
    /// `out`, and the variables declared before it stay in the table.
    ///
    /// Instruction numbers and variable addresses are counted in 16 bits:
    /// both counters must have room for one step for each line.
    pub fn assemble(&mut self, lines: &Vec<String>, out: &mut Vec<u8>) -> (r: Result<(), Error>)
        requires
            old(self)@.line_num + lines.len() <= u16::MAX,
            old(self)@.symbols.ram_addr + lines.len() <= u16::MAX,
        ensures
            ({
                let assembly = assembled(old(self)@.symbols, lines.deep_view());
                &&& final(self)@ == (AssemblerView {
                    symbols: assembly.table,
                    line_num: (old(self)@.line_num + assembly.words.len()) as u16,
                    ..old(self)@
                })
                &&& final(out)@ == old(out)@ + program_bytes(
                    old(self)@.output_format,
                    assembly.words,
                )
                &&& pass_result_view(r) == pass_result(assembly, old(self)@.line_num)
            }),
    {
        let ghost texts = lines.deep_view();
        let ghost start = self@;
        let ghost mut words: Seq<u16> = Seq::empty();
        let mut i: usize = 0;
        assert(texts.take(0) == Seq::<Seq<char>>::empty());
        assert(out@ == old(out)@ + program_bytes(start.output_format, words));
        while i < lines.len()
            invariant
                texts == lines.deep_view(),
                start == old(self)@,
                i <= lines.len(),
                start.line_num + lines.len() <= u16::MAX,
                start.symbols.ram_addr + lines.len() <= u16::MAX,
                words.len() == i,
                assembled(start.symbols, texts.take(i as int)) == (Assembly {
                    table: self@.symbols,
                    words,
                    fault: None,
                }),
                self@ == (AssemblerView {
                    symbols: self@.symbols,
                    line_num: (start.line_num + i) as u16,
                    ..start
                }),
                self@.symbols.ram_addr <= start.symbols.ram_addr + i,
                out@ == old(out)@ + program_bytes(start.output_format, words),
            decreases lines.len() - i,
        {
            let ghost written = out@;
            proof {
                assert(texts.take(i + 1).drop_last() == texts.take(i as int));
                assert(texts.take(i + 1).last() == texts[i as int]);
                assert(texts[i as int] == lines[i as int]@);
            }
            let instr = match self.assemble_line(&lines[i]) {
                Ok(word) => word,
                Err(error) => {
                    proof {
                        lemma_assembled_stops(start.symbols, texts, i + 1);
                    }
                    return Err(error);
                },
            };
            self.save_instr(instr, out);
            self.line_num += 1;
            proof {
                assert(words.push(instr).drop_last() == words);
                assert(out@ == old(out)@ + program_bytes(start.output_format, words.push(instr)))
                    by {
                    assert(written + word_bytes(start.output_format, instr) == old(out)@ + (
                    program_bytes(start.output_format, words) + word_bytes(
                        start.output_format,
                        instr,
                    )));
                }
                words = words.push(instr);
            }
            i += 1;
        }
        assert(texts.take(i as int) == texts);
        Ok(())
    }

    /// Appends `instr` to `out` in the output format: as a line of sixteen
    /// binary digits, or as two bytes with the high byte first.
    pub fn save_instr(&self, instr: u16, out: &mut Vec<u8>)
        ensures
            final(out)@ == old(out)@ + word_bytes(self@.output_format, instr),
    {
        match self.output_format {
            OutputFormat::Text => {
                let mut k: usize = 0;
                while k < 16
                    invariant
                        k <= 16,
                        out@ == old(out)@ + Seq::new(k as nat, |j: int| binary_digit(instr, j)),
                    decreases 16 - k,
                {
                    let shift: usize = 15 - k;
                    let bit = (instr >> shift) & 1;
                    assert(((instr >> shift) & 1 != 0) == ((instr >> (shift as u16)) & 1 != 0))
                        by (bit_vector)
                        requires
                            shift < 16,
                    ;
                    out.push(if bit != 0 {
                        49
                    } else {
                        48
                    });
                    k += 1;
                }
                out.push(10);
            },
            OutputFormat::Binary => {
                out.push((instr / 256) as u8);
                out.push((instr % 256) as u8);
            },
        }
    }

    /// Encodes one instruction line: an address instruction if it starts
    /// with `@`, a compute instruction otherwise. Where the line declares a
    /// new variable, the 16-bit variable counter must have room for it.
    pub fn assemble_line(&mut self, line: &String) -> (r: Result<u16, Error>)
        requires
            allocates(old(self)@.symbols, line@) ==> old(self)@.symbols.ram_addr < u16::MAX,
        ensures
            word_result_view(r) == word_result(
                instruction_word(old(self)@.symbols, line@),
                old(self)@.line_num,
            ),
            final(self)@ == (AssemblerView {
                symbols: table_after_instruction(old(self)@.symbols, line@),
                ..old(self)@
            }),
    {
        if !line.as_str().is_empty() && line.as_str().get_char(0) == '@' {
            self.assemble_a_instr(line)
        } else {
            self.assemble_c_instr(line.as_str())
        }
    }

    /// Encodes the address instruction `line`, which starts with `@`. A
    /// number is used as it is; a symbol is looked up in the table and
    /// declared as a variable where the table does not hold it. The word
    /// keeps the low 15 bits.
    pub fn assemble_a_instr(&mut self, line: &String) -> (r: Result<u16, Error>)
        requires
            is_address_line(line@),
            allocates(old(self)@.symbols, line@) ==> old(self)@.symbols.ram_addr < u16::MAX,
        ensures
            word_result_view(r) == word_result(
                address_instruction(old(self)@.symbols, line@),
                old(self)@.line_num,
            ),
            final(self)@ == (AssemblerView {
                symbols: table_after_address(old(self)@.symbols, line@),
                ..old(self)@
            }),
    {
        let chars = chars_of(line.as_str());
        if chars.len() == 1 {
            return Err(Error::empty_symbol(self.line_num));
        }
        let text = slice_subrange(chars.as_slice(), 1, chars.len());
        assert(text@ == line@.skip(1));

        let digits = count_leading_digits(text);
        if digits == text.len() {
            proof {
                lemma_leading_digits(text@);
            }
            let ram_addr = parse_decimal(text);
            proof {
                let value = crate::text::decimal_value(text@) as int;
                vstd::arithmetic::div_mod::lemma_mod_mod(value, 0x8000, 2);
                assert(ram_addr & 0x7FFF == ram_addr % 0x8000) by (bit_vector);
            }
            return Ok(encode_address(ram_addr));
        }
        let symbol = string_of(slice_subrange(text, digits, text.len()));
        assert(symbol@ == text@.skip(digits as int));

        let ram_addr = match self.st.get_symbol_addr(symbol.as_str()) {
            Some(addr) => addr,
            None => {
                match self.st.add_variable(symbol.as_str()) {
                    Ok(addr) => addr,
                    Err(error) => {
                        return Err(error);
                    },
                }
            },
        };
        Ok(encode_address(ram_addr))
    }

    /// Encodes the compute instruction `line`, of the form `dest=comp;jump`
    /// with `dest=` and `;jump` optional.
    pub fn assemble_c_instr(&mut self, line: &str) -> (r: Result<u16, Error>)
        ensures
            word_result_view(r) == word_result(compute_instruction(line@), old(self)@.line_num),
            final(self)@ == old(self)@,
    {
        let mut cursor_idx: usize = 0;
        proof {
            crate::text::lemma_position(line@, '=');
            crate::text::lemma_position(line@, ';');
        }

        let dest_bits = match self.get_dest_bits(&mut cursor_idx, line) {
            Ok(bits) => bits,
            Err(error) => {
                return Err(error);
            },
        };
        proof {
            assert(line@.subrange(0, position(line@, '=')) == line@.take(position(line@, '=')));
            lemma_comp_part_bounds(line@);
        }
        let comp_bits = match self.get_comp_bits(&mut cursor_idx, line) {
            Ok(bits) => bits,
            Err(error) => {
                return Err(error);
            },
        };
        let jump_bits = match self.get_jump_bits(cursor_idx, line) {
            Ok(bits) => bits,
            Err(error) => {
                return Err(error);
            },
        };

        Ok(encode_compute(comp_bits, dest_bits, jump_bits))
    }

    /// The destination mask of the compute instruction `line`: the code of
    /// the text from `cursor_idx` to the first `=`, after which the cursor
    /// then stands; 0, and the cursor unmoved, for a line without `=`. The
    /// cursor must not stand behind that `=`.
    pub fn get_dest_bits(&self, cursor_idx: &mut usize, line: &str) -> (r: Result<u16, Error>)
        requires
            *old(cursor_idx) <= position(line@, '='),
        ensures
            position(line@, '=') == line@.len() ==> *final(cursor_idx) == *old(cursor_idx)
                && word_result_view(r) == Ok::<u16, ErrorView>(0u16),
            position(line@, '=') < line@.len() ==> *final(cursor_idx) == position(line@, '=') + 1
                && word_result_view(r) == bits_result(
                dest_code(line@.subrange(*old(cursor_idx) as int, position(line@, '='))),
                Fault::InvalidDestination,
                self@.line_num,
            ),
    {
        let chars = chars_of(line);
        let egal_pos = find_char(chars.as_slice(), '=');
        if egal_pos == chars.len() {
            return Ok(0b000);
        }
        let dest = slice_subrange(chars.as_slice(), *cursor_idx, egal_pos);
        *cursor_idx = egal_pos + 1;

        match lookup_dest(dest) {
            Some(bits) => Ok(bits),
            None => Err(Error::invalid_destination(self.line_num)),
        }
    }

    /// The computation code of the compute instruction `line`: the code of
    /// the text from `cursor_idx` to the first `;`, or to the end of the
    /// line. The cursor then stands after that `;`, or at the end. The
    /// cursor must not stand behind that `;`.
    pub fn get_comp_bits(&self, cursor_idx: &mut usize, line: &str) -> (r: Result<u16, Error>)
        requires
            *old(cursor_idx) <= position(line@, ';'),
        ensures
            *final(cursor_idx) == if position(line@, ';') < line@.len() {
                position(line@, ';') + 1
            } else {
                line@.len() as int
            },
            word_result_view(r) == bits_result(
                comp_code(line@.subrange(*old(cursor_idx) as int, position(line@, ';'))),
                Fault::InvalidComputation,
                self@.line_num,
            ),
    {
        let chars = chars_of(line);
        let semi_pos = find_char(chars.as_slice(), ';');

        let comp = slice_subrange(chars.as_slice(), *cursor_idx, semi_pos);
        *cursor_idx = if semi_pos < chars.len() {
            semi_pos + 1
        } else {
            semi_pos
        };

        match lookup_comp(comp) {
            Some(bits) => Ok(bits),
            None => Err(Error::invalid_computation(self.line_num)),
        }
    }

    /// The jump condition of the compute instruction `line`: the code of
    /// the text from `cursor_idx` on; 0 where nothing is left.
    pub fn get_jump_bits(&self, cursor_idx: usize, line: &str) -> (r: Result<u16, Error>)
        ensures
            cursor_idx >= line@.len() ==> word_result_view(r) == Ok::<u16, ErrorView>(0u16),
            cursor_idx < line@.len() ==> word_result_view(r) == bits_result(
                jump_code(line@.skip(cursor_idx as int)),
                Fault::InvalidJump,
                self@.line_num,
            ),
    {
        let chars = chars_of(line);
        if cursor_idx >= chars.len() {
            return Ok(0b000);
        }
        let jump = slice_subrange(chars.as_slice(), cursor_idx, chars.len());
        assert(jump@ == line@.skip(cursor_idx as int));

        match lookup_jump(jump) {
            Some(bits) => Ok(bits),
            None => Err(Error::invalid_jump(self.line_num)),
        }
    }
}

} // verus!
