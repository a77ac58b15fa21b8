//! What holds of the assembler and the CPU together: the word that the one
//! encodes is the word that the other decodes.

use crate::assembler::encoding::{
    address_instruction, comp_part, comp_start, compute_instruction, dest_bits, dest_part,
    jump_bits, jump_part, resolved, table_after_address, table_after_resolve,
};
use crate::assembler::error::Fault;
use crate::assembler::source::{classify, instructions_of, labels_bound, SourceLine};
use crate::assembler::symbol_table::{predefined_symbols, SymbolTableView};
use crate::emulator::cpu::{
    address_step, alu, compute_step, execute_instruction, is_negative, jump_taken, wrap, Cpu,
    CpuOutput,
};
use crate::emulator::error::Error;
use crate::instruction::{
    address_of, address_word, comp_code, comp_of, compute_word, dest_code, dest_of,
    has_compute_padding, is_address_word, jump_code, jump_of, lemma_comp_mnemonic_symbols,
    selects_memory,
    lemma_comp_table, lemma_compute_word_fields, lemma_dest_mnemonic_letters,
    lemma_jump_mnemonic_letters, lemma_jump_table,
};
use crate::text::{
    decimal, decimal_value, digit_char, is_digit, lemma_leading_digits_unique,
    lemma_position_unique,
};
use vstd::prelude::*;

verus! {

/// The text of a compute instruction with the given parts: `dest=` where
/// there is a destination, then the computation, then `;jump` where there
/// is a jump.
pub open spec fn compute_line(dest: Option<Seq<char>>, comp: Seq<char>, jump: Option<Seq<char>>)
    -> Seq<char> {
    let head = match dest {
        Some(d) => d.push('='),
        None => Seq::empty(),
    };
    let tail = match jump {
        Some(j) => seq![';'] + j,
        None => Seq::empty(),
    };
    head + comp + tail
}

/// The mask of an optional destination mnemonic: 0 without one.
pub open spec fn dest_mask(dest: Option<Seq<char>>) -> u16 {
    match dest {
        Some(d) => dest_code(d)->0,
        None => 0u16,
    }
}

/// The condition of an optional jump mnemonic: 0 without one.
pub open spec fn jump_condition(jump: Option<Seq<char>>) -> u16 {
    match jump {
        Some(j) => jump_code(j)->0,
        None => 0u16,
    }
}

/// A compute instruction written with mnemonics of the tables is split
/// back into just these mnemonics.
pub proof fn lemma_compute_line_parts(
    dest: Option<Seq<char>>,
    comp: Seq<char>,
    jump: Option<Seq<char>>,
)
    requires
        dest matches Some(d) ==> dest_code(d) is Some,
        comp_code(comp) is Some,
        jump matches Some(j) ==> jump_code(j) is Some,
    ensures
        dest_part(compute_line(dest, comp, jump)) == dest,
        comp_part(compute_line(dest, comp, jump)) == comp,
        jump_part(compute_line(dest, comp, jump)) == jump,
{
    let line = compute_line(dest, comp, jump);
    let head = match dest {
        Some(d) => d.push('='),
        None => Seq::<char>::empty(),
    };
    let tail = match jump {
        Some(j) => seq![';'] + j,
        None => Seq::<char>::empty(),
    };
    assert(line == head + comp + tail);
    lemma_comp_mnemonic_symbols(comp);
    if let Some(d) = dest {
        lemma_dest_mnemonic_letters(d);
    }
    if let Some(j) = jump {
        lemma_jump_mnemonic_letters(j);
    }
    let comp_from = head.len() as int;
    let comp_to = comp_from + comp.len();
    assert forall|i: int| 0 <= i < line.len() implies line[i] == (if i < comp_from {
        head[i]
    } else if i < comp_to {
        comp[i - comp_from]
    } else {
        tail[i - comp_to]
    }) by {}
    // Where the first `=` stands.
    let equals = match dest {
        Some(d) => d.len() as int,
        None => line.len() as int,
    };
    assert forall|i: int| 0 <= i < equals implies line[i] != '=' by {
        if i >= comp_to {
            let j = jump->0;
            if i > comp_to {
                assert(tail[i - comp_to] == j[i - comp_to - 1]);
            }
        }
    }
    lemma_position_unique(line, '=', equals);
    // Where the first `;` stands.
    let semicolon = match jump {
        Some(j) => comp_to,
        None => line.len() as int,
    };
    assert forall|i: int| 0 <= i < semicolon implies line[i] != ';' by {}
    lemma_position_unique(line, ';', semicolon);
    assert(comp_start(line) == comp_from);
    assert(line.subrange(comp_from, semicolon) =~= comp);
    match dest {
        Some(d) => {
            assert(line.take(equals) =~= d);
        },
        None => {},
    }
    match jump {
        Some(j) => {
            assert(line.skip(semicolon + 1) =~= j);
        },
        None => {},
    }
}

/// Encoding and decoding agree: a compute instruction written with
/// mnemonics of the tables encodes to a word that is no address
/// instruction, has its padding bits set, and whose destination mask,
/// computation code and jump condition are those of the mnemonics. The ALU
/// knows that computation code.
pub proof fn lemma_compute_round_trip(
    dest: Option<Seq<char>>,
    comp: Seq<char>,
    jump: Option<Seq<char>>,
)
    requires
        dest matches Some(d) ==> dest_code(d) is Some,
        comp_code(comp) is Some,
        jump matches Some(j) ==> jump_code(j) is Some,
    ensures
        compute_instruction(compute_line(dest, comp, jump)) is Ok,
        ({
            let word = compute_instruction(compute_line(dest, comp, jump))->Ok_0;
            &&& word == compute_word(comp_code(comp)->0, dest_mask(dest), jump_condition(jump))
            &&& !is_address_word(word)
            &&& has_compute_padding(word)
            &&& dest_of(word) == dest_mask(dest)
            &&& comp_of(word) == comp_code(comp)->0
            &&& jump_of(word) == jump_condition(jump)
            &&& forall|d: u16, x: u16| (#[trigger] alu(comp_of(word), d, x)) is Some
        }),
{
    let line = compute_line(dest, comp, jump);
    lemma_compute_line_parts(dest, comp, jump);
    lemma_comp_mnemonic_symbols(comp);
    if let Some(d) = dest {
        lemma_dest_mnemonic_letters(d);
    }
    if let Some(j) = jump {
        lemma_jump_mnemonic_letters(j);
    }
    assert(dest_bits(line) == Some(dest_mask(dest)));
    assert(jump_bits(line) == Some(jump_condition(jump)));
    lemma_compute_word_fields(comp_code(comp)->0, dest_mask(dest), jump_condition(jump));
}

/// What was assembled runs: the CPU executes the word of a compute
/// instruction written with mnemonics of the tables without a decode error.
/// It computes what the computation mnemonic names, from the memory cell at
/// A for a mnemonic with `M` and from the A register otherwise, and then
/// writes and jumps as the destination and jump mnemonics name. Only a
/// mnemonic with `M` can fail, where A is no address of the memory.
pub proof fn lemma_assembled_instruction_executes(
    dest: Option<Seq<char>>,
    comp: Seq<char>,
    jump: Option<Seq<char>>,
    cpu: Cpu,
    memory: Seq<u16>,
)
    requires
        dest matches Some(d) ==> dest_code(d) is Some,
        comp_code(comp) is Some,
        jump matches Some(j) ==> jump_code(j) is Some,
        comp_code(comp)->0 >= 64 ==> cpu.reg_a < memory.len(),
    ensures
        ({
            let word = compute_instruction(compute_line(dest, comp, jump))->Ok_0;
            let operand = if comp_code(comp)->0 >= 64 {
                memory[cpu.reg_a as int]
            } else {
                cpu.reg_a
            };
            &&& alu(comp_code(comp)->0, cpu.reg_d, operand) is Some
            &&& execute_instruction(cpu, word, memory) == Ok::<(Cpu, CpuOutput), Error>(
                compute_step(cpu, word, alu(comp_code(comp)->0, cpu.reg_d, operand)->0),
            )
        }),
{
    lemma_compute_round_trip(dest, comp, jump);
    lemma_comp_mnemonic_symbols(comp);
    if let Some(d) = dest {
        lemma_dest_mnemonic_letters(d);
    }
    if let Some(j) = jump {
        lemma_jump_mnemonic_letters(j);
    }
    lemma_compute_word_fields(comp_code(comp)->0, dest_mask(dest), jump_condition(jump));
    let word = compute_instruction(compute_line(dest, comp, jump))->Ok_0;
    let operand = if comp_code(comp)->0 >= 64 {
        memory[cpu.reg_a as int]
    } else {
        cpu.reg_a
    };
    assert(alu(comp_of(word), cpu.reg_d, operand) is Some);
    assert(selects_memory(word) == (comp_code(comp)->0 >= 64));
}

/// The CPU executes the word of an address instruction `@n` for a number
/// below 32768 by loading `n` into A and moving on; nothing else changes.
pub proof fn lemma_assembled_address_executes(n: nat, cpu: Cpu, memory: Seq<u16>)
    requires
        n < 0x8000,
        cpu.pc < usize::MAX,
    ensures
        execute_instruction(cpu, n as u16, memory) == Ok::<(Cpu, CpuOutput), Error>(
            (
                Cpu { reg_d: cpu.reg_d, reg_a: n as u16, pc: (cpu.pc + 1) as usize },
                CpuOutput { write_to_ram: false, alu_out: 0, memory_address: 0 },
            ),
        ),
{
    let word = n as u16;
    assert(word < 0x8000 ==> word >> 15 == 0 && word & 0x7FFF == word) by (bit_vector);
    assert(execute_instruction(cpu, word, memory) == Ok::<(Cpu, CpuOutput), Error>(
        address_step(cpu, word),
    ));
}

/// An address instruction `@n`, written with digits only, for a number
/// below 32768 encodes to the word `n`: bit 15 is clear and bits 14..0 are
/// `n`. The symbol table is not touched.
pub proof fn lemma_address_literal(table: SymbolTableView, digits: Seq<char>)
    requires
        digits.len() > 0,
        forall|i: int| 0 <= i < digits.len() ==> is_digit(digits[i]),
        decimal_value(digits) < 0x8000,
    ensures
        ({
            let line = seq!['@'] + digits;
            &&& address_instruction(table, line) == Ok::<u16, Fault>(decimal_value(digits) as u16)
            &&& is_address_word(decimal_value(digits) as u16)
            &&& address_of(decimal_value(digits) as u16) == decimal_value(digits)
            &&& table_after_address(table, line) == table
        }),
{
    let line = seq!['@'] + digits;
    assert(line.skip(1) =~= digits);
    lemma_leading_digits_unique(digits, digits.len() as int);
    let word = decimal_value(digits) as u16;
    assert(word < 0x8000 ==> word >> 15 == 0 && word & 0x7FFF == word) by (bit_vector);
}

/// The digits of `n` in base ten spell `n`.
pub proof fn lemma_decimal_value(n: nat)
    ensures
        decimal(n).len() > 0,
        forall|i: int| 0 <= i < decimal(n).len() ==> is_digit(decimal(n)[i]),
        decimal_value(decimal(n)) == n,
    decreases n,
{
    if n < 10 {
        assert(decimal(n) =~= seq![digit_char(n)]);
        assert(decimal(n).drop_last() =~= Seq::<char>::empty());
        assert(decimal_value(decimal(n).drop_last()) == 0);
    } else {
        lemma_decimal_value(n / 10);
        assert(decimal(n).drop_last() =~= decimal(n / 10));
    }
}

/// An address instruction `@n` for a number below 32768, written in base
/// ten, encodes to the word `n`.
pub proof fn lemma_address_number(table: SymbolTableView, n: nat)
    requires
        n < 0x8000,
    ensures
        address_instruction(table, seq!['@'] + decimal(n)) == Ok::<u16, Fault>(n as u16),
        is_address_word(n as u16),
        address_of(n as u16) == n,
{
    lemma_decimal_value(n);
    lemma_address_literal(table, decimal(n));
}

/// An address instruction that names a symbol of the table encodes to the
/// address of that symbol, truncated to 15 bits, and leaves the table as
/// it was. The name must not start with a digit.
pub proof fn lemma_address_symbol(table: SymbolTableView, name: Seq<char>)
    requires
        name.len() > 0,
        !is_digit(name[0]),
        table.symbols.contains_key(name),
    ensures
        address_instruction(table, seq!['@'] + name) == Ok::<u16, Fault>(
            address_word(table.symbols[name]),
        ),
        table_after_address(table, seq!['@'] + name) == table,
{
    let line = seq!['@'] + name;
    assert(line.skip(1) =~= name);
    lemma_leading_digits_unique(name, 0);
    assert(name.skip(0) =~= name);
}

/// Every assembler starts with the predefined symbols: `SCREEN` stands for
/// 16384, `KBD` for 24576, `SP`, `LCL`, `ARG`, `THIS` and `THAT` for 0 to
/// 4, and `R0` to `R15` for 0 to 15.
pub proof fn lemma_predefined_symbols()
    ensures
        predefined_symbols().dom().finite(),
        predefined_symbols().contains_pair("SCREEN"@, 16384),
        predefined_symbols().contains_pair("KBD"@, 24576),
        predefined_symbols().contains_pair("SP"@, 0),
        predefined_symbols().contains_pair("LCL"@, 1),
        predefined_symbols().contains_pair("ARG"@, 2),
        predefined_symbols().contains_pair("THIS"@, 3),
        predefined_symbols().contains_pair("THAT"@, 4),
        predefined_symbols().contains_pair("R0"@, 0),
        predefined_symbols().contains_pair("R1"@, 1),
        predefined_symbols().contains_pair("R2"@, 2),
        predefined_symbols().contains_pair("R3"@, 3),
        predefined_symbols().contains_pair("R4"@, 4),
        predefined_symbols().contains_pair("R5"@, 5),
        predefined_symbols().contains_pair("R6"@, 6),
        predefined_symbols().contains_pair("R7"@, 7),
        predefined_symbols().contains_pair("R8"@, 8),
        predefined_symbols().contains_pair("R9"@, 9),
        predefined_symbols().contains_pair("R10"@, 10),
        predefined_symbols().contains_pair("R11"@, 11),
        predefined_symbols().contains_pair("R12"@, 12),
        predefined_symbols().contains_pair("R13"@, 13),
        predefined_symbols().contains_pair("R14"@, 14),
        predefined_symbols().contains_pair("R15"@, 15),
{
    reveal_strlit("R0");
    reveal_strlit("R1");
    reveal_strlit("R2");
    reveal_strlit("R3");
    reveal_strlit("R4");
    reveal_strlit("R5");
    reveal_strlit("R6");
    reveal_strlit("R7");
    reveal_strlit("R8");
    reveal_strlit("R9");
    reveal_strlit("R10");
    reveal_strlit("R11");
    reveal_strlit("R12");
    reveal_strlit("R13");
    reveal_strlit("R14");
    reveal_strlit("R15");
    reveal_strlit("SCREEN");
    reveal_strlit("KBD");
    reveal_strlit("SP");
    reveal_strlit("LCL");
    reveal_strlit("ARG");
    reveal_strlit("THIS");
    reveal_strlit("THAT");
    assert("R0"@.len() == 2 && "R0"@[1] == '0');
    assert("R1"@.len() == 2 && "R1"@[1] == '1');
    assert("R2"@.len() == 2 && "R2"@[1] == '2');
    assert("R3"@.len() == 2 && "R3"@[1] == '3');
    assert("R4"@.len() == 2 && "R4"@[1] == '4');
    assert("R5"@.len() == 2 && "R5"@[1] == '5');
    assert("R6"@.len() == 2 && "R6"@[1] == '6');
    assert("R7"@.len() == 2 && "R7"@[1] == '7');
    assert("R8"@.len() == 2 && "R8"@[1] == '8');
    assert("R9"@.len() == 2 && "R9"@[1] == '9');
    assert("R10"@.len() == 3 && "R10"@[0] == 'R' && "R10"@[2] == '0');
    assert("R11"@.len() == 3 && "R11"@[0] == 'R' && "R11"@[2] == '1');
    assert("R12"@.len() == 3 && "R12"@[0] == 'R' && "R12"@[2] == '2');
    assert("R13"@.len() == 3 && "R13"@[0] == 'R' && "R13"@[2] == '3');
    assert("R14"@.len() == 3 && "R14"@[0] == 'R' && "R14"@[2] == '4');
    assert("R15"@.len() == 3 && "R15"@[0] == 'R' && "R15"@[2] == '5');
    assert("SCREEN"@.len() == 6);
    assert("KBD"@.len() == 3 && "KBD"@[0] == 'K');
    assert("SP"@.len() == 2 && "SP"@[1] == 'P');
    assert("LCL"@.len() == 3 && "LCL"@[0] == 'L');
    assert("ARG"@.len() == 3 && "ARG"@[0] == 'A');
    assert("THIS"@.len() == 4 && "THIS"@[3] == 'S');
    assert("THAT"@.len() == 4 && "THAT"@[3] == 'T');
}

/// With the symbols that every assembler starts with, `@SCREEN` encodes to
/// 16384 and `@KBD` to 24576, and neither declares a variable.
pub proof fn lemma_screen_and_keyboard_words(table: SymbolTableView)
    requires
        table.symbols == predefined_symbols(),
    ensures
        address_instruction(table, "@SCREEN"@) == Ok::<u16, Fault>(16384u16),
        address_instruction(table, "@KBD"@) == Ok::<u16, Fault>(24576u16),
        table_after_address(table, "@SCREEN"@) == table,
        table_after_address(table, "@KBD"@) == table,
{
    lemma_predefined_symbols();
    reveal_strlit("@SCREEN");
    reveal_strlit("SCREEN");
    reveal_strlit("@KBD");
    reveal_strlit("KBD");
    assert("@SCREEN"@ =~= seq!['@'] + "SCREEN"@);
    assert("@KBD"@ =~= seq!['@'] + "KBD"@);
    lemma_address_symbol(table, "SCREEN"@);
    lemma_address_symbol(table, "KBD"@);
    assert(address_word(16384u16) == 16384u16 && address_word(24576u16) == 24576u16) by {
        assert(16384u16 & 0x7FFF == 16384u16 && 24576u16 & 0x7FFF == 24576u16) by (bit_vector);
    }
}

/// A label resolves to the number of instructions before its declaration:
/// to 0 when it is declared before any instruction, to `k` after `k`
/// instructions. This holds of the last declaration of a name; an earlier
/// one is overwritten. The first pass declares no variable.
pub proof fn lemma_label_address(
    table: SymbolTableView,
    lines: Seq<Seq<char>>,
    i: int,
    name: Seq<char>,
)
    requires
        0 <= i < lines.len(),
        classify(lines[i]) == SourceLine::Label(name),
        forall|j: int| i < j < lines.len() ==> classify(#[trigger] lines[j]) != SourceLine::Label(name),
    ensures
        labels_bound(table, lines).symbols.contains_key(name),
        labels_bound(table, lines).symbols[name] == instructions_of(lines.take(i)).len() as u16,
        labels_bound(table, lines).ram_addr == table.ram_addr,
    decreases lines.len(),
{
    let before = lines.drop_last();
    lemma_labels_keep_allocator(table, lines);
    if i == lines.len() - 1 {
        assert(lines.take(i) == before);
    } else {
        assert(before[i] == lines[i]);
        assert forall|j: int| i < j < before.len() implies classify(#[trigger] before[j])
            != SourceLine::Label(name) by {
            assert(before[j] == lines[j]);
        }
        lemma_label_address(table, before, i, name);
        assert(before.take(i) == lines.take(i));
    }
}

/// The first pass leaves the variable allocator as it was.
pub proof fn lemma_labels_keep_allocator(table: SymbolTableView, lines: Seq<Seq<char>>)
    ensures
        labels_bound(table, lines).ram_addr == table.ram_addr,
    decreases lines.len(),
{
    if lines.len() > 0 {
        lemma_labels_keep_allocator(table, lines.drop_last());
    }
}

/// Variables get consecutive addresses: a symbol that the table does not
/// hold resolves to the next free address, the next such symbol to the
/// address after it, and a symbol that was resolved once resolves to the
/// same address again. In a new table the first variable gets 16 and the
/// second 17.
pub proof fn lemma_variable_allocation(
    table: SymbolTableView,
    first: Seq<char>,
    second: Seq<char>,
)
    requires
        !table.symbols.contains_key(first),
        !table.symbols.contains_key(second),
        first != second,
        table.ram_addr < u16::MAX,
    ensures
        resolved(table, first) == table.ram_addr,
        resolved(table_after_resolve(table, first), second) == table.ram_addr + 1,
        resolved(table_after_resolve(table, first), first) == table.ram_addr,
        resolved(
            table_after_resolve(table_after_resolve(table, first), second),
            first,
        ) == table.ram_addr,
        resolved(
            table_after_resolve(table_after_resolve(table, first), second),
            second,
        ) == table.ram_addr + 1,
{
}

/// Resolving a symbol a second time gives the same address and changes
/// nothing.
pub proof fn lemma_resolve_twice(table: SymbolTableView, name: Seq<char>)
    ensures
        resolved(table_after_resolve(table, name), name) == resolved(table, name),
        table_after_resolve(table_after_resolve(table, name), name) == table_after_resolve(
            table,
            name,
        ),
{
}

/// What each computation mnemonic computes from the D register `d` and the
/// operand `x`, which is the A register for the mnemonics with `A` and the
/// memory cell at A for those with `M`. Constants do not depend on the
/// registers; increments, decrements, sums, differences and negations wrap
/// around at 16 bits.
pub proof fn lemma_alu_truth_table(d: u16, x: u16)
    ensures
        alu(comp_code("0"@)->0, d, x) == Some(0u16),
        alu(comp_code("1"@)->0, d, x) == Some(1u16),
        alu(comp_code("-1"@)->0, d, x) == Some(0xFFFFu16),
        alu(comp_code("D"@)->0, d, x) == Some(d),
        alu(comp_code("A"@)->0, d, x) == Some(x),
        alu(comp_code("M"@)->0, d, x) == Some(x),
        alu(comp_code("!D"@)->0, d, x) == Some((0xFFFF - d) as u16),
        alu(comp_code("!A"@)->0, d, x) == Some((0xFFFF - x) as u16),
        alu(comp_code("!M"@)->0, d, x) == Some((0xFFFF - x) as u16),
        alu(comp_code("-D"@)->0, d, x) == Some(wrap(-d)),
        alu(comp_code("-A"@)->0, d, x) == Some(wrap(-x)),
        alu(comp_code("-M"@)->0, d, x) == Some(wrap(-x)),
        alu(comp_code("D+1"@)->0, d, x) == Some(wrap(d + 1)),
        alu(comp_code("A+1"@)->0, d, x) == Some(wrap(x + 1)),
        alu(comp_code("M+1"@)->0, d, x) == Some(wrap(x + 1)),
        alu(comp_code("D-1"@)->0, d, x) == Some(wrap(d - 1)),
        alu(comp_code("A-1"@)->0, d, x) == Some(wrap(x - 1)),
        alu(comp_code("M-1"@)->0, d, x) == Some(wrap(x - 1)),
        alu(comp_code("D+A"@)->0, d, x) == Some(wrap(d + x)),
        alu(comp_code("D+M"@)->0, d, x) == Some(wrap(d + x)),
        alu(comp_code("D-A"@)->0, d, x) == Some(wrap(d - x)),
        alu(comp_code("D-M"@)->0, d, x) == Some(wrap(d - x)),
        alu(comp_code("A-D"@)->0, d, x) == Some(wrap(x - d)),
        alu(comp_code("M-D"@)->0, d, x) == Some(wrap(x - d)),
        alu(comp_code("D&A"@)->0, d, x) == Some(d & x),
        alu(comp_code("D&M"@)->0, d, x) == Some(d & x),
        alu(comp_code("D|A"@)->0, d, x) == Some(d | x),
        alu(comp_code("D|M"@)->0, d, x) == Some(d | x),
        d == 5 ==> alu(comp_code("D+1"@)->0, d, x) == Some(6u16),
        d == 0 ==> alu(comp_code("D-1"@)->0, d, x) == Some(0xFFFFu16),
        d == 0xFFFF ==> alu(comp_code("D+1"@)->0, d, x) == Some(0u16),
{
    lemma_comp_table();
    crate::emulator::cpu::lemma_not_is_complement(d);
    crate::emulator::cpu::lemma_not_is_complement(x);
}

/// When a compute instruction jumps. `JGT` jumps on a positive result,
/// `JEQ` on zero, `JGE` on a result that is not negative, `JLT` on a
/// negative one, `JNE` on a result other than zero, `JLE` on zero or a
/// negative one, `JMP` always, and an instruction without a jump never. A
/// result is negative when its bit 15 is set.
pub proof fn lemma_jump_conditions(out: u16)
    ensures
        jump_taken(jump_code("JGT"@)->0, out) == (out != 0 && !is_negative(out)),
        jump_taken(jump_code("JEQ"@)->0, out) == (out == 0),
        jump_taken(jump_code("JGE"@)->0, out) == !is_negative(out),
        jump_taken(jump_code("JLT"@)->0, out) == is_negative(out),
        jump_taken(jump_code("JNE"@)->0, out) == (out != 0),
        jump_taken(jump_code("JLE"@)->0, out) == (out == 0 || is_negative(out)),
        jump_taken(jump_code("JMP"@)->0, out),
        !jump_taken(0, out),
{
    lemma_jump_table();
    assert(0b001u16 & 0b001 != 0 && 0b001u16 & 0b010 == 0 && 0b001u16 & 0b100 == 0) by (bit_vector);
    assert(0b010u16 & 0b001 == 0 && 0b010u16 & 0b010 != 0 && 0b010u16 & 0b100 == 0) by (bit_vector);
    assert(0b011u16 & 0b001 != 0 && 0b011u16 & 0b010 != 0 && 0b011u16 & 0b100 == 0) by (bit_vector);
    assert(0b100u16 & 0b001 == 0 && 0b100u16 & 0b010 == 0 && 0b100u16 & 0b100 != 0) by (bit_vector);
    assert(0b101u16 & 0b001 != 0 && 0b101u16 & 0b010 == 0 && 0b101u16 & 0b100 != 0) by (bit_vector);
    assert(0b110u16 & 0b001 == 0 && 0b110u16 & 0b010 != 0 && 0b110u16 & 0b100 != 0) by (bit_vector);
    assert(0b111u16 & 0b001 != 0 && 0b111u16 & 0b010 != 0 && 0b111u16 & 0b100 != 0) by (bit_vector);
    assert(0u16 & 0b001 == 0 && 0u16 & 0b010 == 0 && 0u16 & 0b100 == 0) by (bit_vector);
}

/// Where a compute instruction goes next: to the address in the A
/// register, as this instruction left it, when its jump condition holds of
/// the result, and to the next instruction otherwise. So a result of zero
/// with `JEQ` and a negative result with `JLT` jump to A, and a positive
/// result with `JLE` moves on to the next instruction.
pub proof fn lemma_jump_target(cpu: Cpu, instruction: u16, out: u16)
    ensures
        jump_taken(jump_of(instruction), out) ==> compute_step(cpu, instruction, out).0.pc
            == compute_step(cpu, instruction, out).0.reg_a,
        !jump_taken(jump_of(instruction), out) ==> compute_step(cpu, instruction, out).0.pc == (
        cpu.pc + 1) as usize,
        jump_of(instruction) == jump_code("JEQ"@)->0 && out == 0 ==> compute_step(
            cpu,
            instruction,
            out,
        ).0.pc == compute_step(cpu, instruction, out).0.reg_a,
        jump_of(instruction) == jump_code("JLT"@)->0 && is_negative(out) ==> compute_step(
            cpu,
            instruction,
            out,
        ).0.pc == compute_step(cpu, instruction, out).0.reg_a,
        jump_of(instruction) == jump_code("JLE"@)->0 && out != 0 && !is_negative(out)
            ==> compute_step(cpu, instruction, out).0.pc == (cpu.pc + 1) as usize,
{
    lemma_jump_conditions(out);
}

} // verus!
