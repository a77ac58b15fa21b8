//! The 16-bit instruction word shared by the assembler and the CPU.
//!
//! An address instruction has bit 15 clear and carries a 15-bit address in
//! bits 14..0. A compute instruction has bits 15..13 set and carries a 7-bit
//! computation code in bits 12..6 (the top bit of the code selects the
//! operand: 0 for the A register, 1 for the memory cell at A), a 3-bit
//! destination mask in bits 5..3 and a 3-bit jump condition in bits 2..0.
//!
//! The mnemonic tables live here and nowhere else: the assembler looks
//! mnemonics up in them and the CPU's ALU matches on the same code constants.

use vstd::prelude::*;
use vstd::string::StrSliceExecFns;

verus! {

pub const COMP_ZERO: u16 = 0b0101010;

pub const COMP_ONE: u16 = 0b0111111;

pub const COMP_MINUS_ONE: u16 = 0b0111010;

pub const COMP_D: u16 = 0b0001100;

pub const COMP_A: u16 = 0b0110000;

pub const COMP_NOT_D: u16 = 0b0001101;

pub const COMP_NOT_A: u16 = 0b0110001;

pub const COMP_NEG_D: u16 = 0b0001111;

pub const COMP_NEG_A: u16 = 0b0110011;

pub const COMP_INC_D: u16 = 0b0011111;

pub const COMP_INC_A: u16 = 0b0110111;

pub const COMP_DEC_D: u16 = 0b0001110;

pub const COMP_DEC_A: u16 = 0b0110010;

pub const COMP_D_PLUS_A: u16 = 0b0000010;

pub const COMP_D_MINUS_A: u16 = 0b0010011;

pub const COMP_A_MINUS_D: u16 = 0b0000111;

pub const COMP_D_AND_A: u16 = 0b0000000;

pub const COMP_D_OR_A: u16 = 0b0010101;

pub const COMP_M: u16 = 0b1110000;

pub const COMP_NOT_M: u16 = 0b1110001;

pub const COMP_NEG_M: u16 = 0b1110011;

pub const COMP_INC_M: u16 = 0b1110111;

pub const COMP_DEC_M: u16 = 0b1110010;

pub const COMP_D_PLUS_M: u16 = 0b1000010;

pub const COMP_D_MINUS_M: u16 = 0b1010011;

pub const COMP_M_MINUS_D: u16 = 0b1000111;

pub const COMP_D_AND_M: u16 = 0b1000000;

pub const COMP_D_OR_M: u16 = 0b1010101;

/// Destination mask bit for the memory cell at A.
pub const DEST_M: u16 = 0b001;

/// Destination mask bit for the D register.
pub const DEST_D: u16 = 0b010;

/// Destination mask bit for the A register.
pub const DEST_A: u16 = 0b100;

/// Jump condition bit: jump when the result is positive.
pub const JUMP_IF_POSITIVE: u16 = 0b001;

/// Jump condition bit: jump when the result is zero.
pub const JUMP_IF_ZERO: u16 = 0b010;

/// Jump condition bit: jump when the result is negative.
pub const JUMP_IF_NEGATIVE: u16 = 0b100;

/// Whether bit `i` of `value` is set; bit 0 is the least significant.
pub open spec fn bit_is_set(value: u16, i: int) -> bool {
    (value >> (i as u16)) & 1 != 0
}

/// Whether `word` is an address instruction: bit 15 is clear.
pub open spec fn is_address_word(word: u16) -> bool {
    word >> 15 == 0
}

/// The address carried by an address instruction: bits 14..0.
pub open spec fn address_of(word: u16) -> u16 {
    word & 0x7FFF
}

/// Whether bits 15..13 of `word` are all set, as every compute instruction
/// must have them.
pub open spec fn has_compute_padding(word: u16) -> bool {
    word >> 13 == 0b111
}

/// The 7-bit computation code of a compute instruction: bits 12..6.
pub open spec fn comp_of(word: u16) -> u16 {
    (word >> 6) & 0b1111111
}

/// The operand selector of a compute instruction: bit 12.
pub open spec fn selects_memory(word: u16) -> bool {
    (word >> 12) & 0b1 != 0
}

/// The destination mask of a compute instruction: bits 5..3.
pub open spec fn dest_of(word: u16) -> u16 {
    (word >> 3) & 0b111
}

/// The jump condition of a compute instruction: bits 2..0.
pub open spec fn jump_of(word: u16) -> u16 {
    word & 0b111
}

/// The address instruction that loads `address`, truncated to 15 bits.
pub open spec fn address_word(address: u16) -> u16 {
    address & 0x7FFF
}

/// The compute instruction packed from its three fields.
pub open spec fn compute_word(comp: u16, dest: u16, jump: u16) -> u16 {
    0b111u16 << 13 | comp << 6 | dest << 3 | jump
}

/// The destination mask that a destination mnemonic stands for.
pub open spec fn dest_code(mnemonic: Seq<char>) -> Option<u16> {
    if mnemonic == "M"@ {
        Some(0b001u16)
    } else if mnemonic == "D"@ {
        Some(0b010u16)
    } else if mnemonic == "MD"@ {
        Some(0b011u16)
    } else if mnemonic == "A"@ {
        Some(0b100u16)
    } else if mnemonic == "AM"@ {
        Some(0b101u16)
    } else if mnemonic == "AD"@ {
        Some(0b110u16)
    } else if mnemonic == "AMD"@ {
        Some(0b111u16)
    } else {
        None
    }
}

/// The 7-bit computation code that a computation mnemonic stands for.
pub open spec fn comp_code(mnemonic: Seq<char>) -> Option<u16> {
    if mnemonic == "0"@ {
        Some(COMP_ZERO)
    } else if mnemonic == "1"@ {
        Some(COMP_ONE)
    } else if mnemonic == "-1"@ {
        Some(COMP_MINUS_ONE)
    } else if mnemonic == "D"@ {
        Some(COMP_D)
    } else if mnemonic == "A"@ {
        Some(COMP_A)
    } else if mnemonic == "!D"@ {
        Some(COMP_NOT_D)
    } else if mnemonic == "!A"@ {
        Some(COMP_NOT_A)
    } else if mnemonic == "-D"@ {
        Some(COMP_NEG_D)
    } else if mnemonic == "-A"@ {
        Some(COMP_NEG_A)
    } else if mnemonic == "D+1"@ {
        Some(COMP_INC_D)
    } else if mnemonic == "A+1"@ {
        Some(COMP_INC_A)
    } else if mnemonic == "D-1"@ {
        Some(COMP_DEC_D)
    } else if mnemonic == "A-1"@ {
        Some(COMP_DEC_A)
    } else if mnemonic == "D+A"@ {
        Some(COMP_D_PLUS_A)
    } else if mnemonic == "D-A"@ {
        Some(COMP_D_MINUS_A)
    } else if mnemonic == "A-D"@ {
        Some(COMP_A_MINUS_D)
    } else if mnemonic == "D&A"@ {
        Some(COMP_D_AND_A)
    } else if mnemonic == "D|A"@ {
        Some(COMP_D_OR_A)
    } else if mnemonic == "M"@ {
        Some(COMP_M)
    } else if mnemonic == "!M"@ {
        Some(COMP_NOT_M)
    } else if mnemonic == "-M"@ {
        Some(COMP_NEG_M)
    } else if mnemonic == "M+1"@ {
        Some(COMP_INC_M)
    } else if mnemonic == "M-1"@ {
        Some(COMP_DEC_M)
    } else if mnemonic == "D+M"@ {
        Some(COMP_D_PLUS_M)
    } else if mnemonic == "D-M"@ {
        Some(COMP_D_MINUS_M)
    } else if mnemonic == "M-D"@ {
        Some(COMP_M_MINUS_D)
    } else if mnemonic == "D&M"@ {
        Some(COMP_D_AND_M)
    } else if mnemonic == "D|M"@ {
        Some(COMP_D_OR_M)
    } else {
        None
    }
}

/// The jump condition that a jump mnemonic stands for.
pub open spec fn jump_code(mnemonic: Seq<char>) -> Option<u16> {
    if mnemonic == "JGT"@ {
        Some(0b001u16)
    } else if mnemonic == "JEQ"@ {
        Some(0b010u16)
    } else if mnemonic == "JGE"@ {
        Some(0b011u16)
    } else if mnemonic == "JLT"@ {
        Some(0b100u16)
    } else if mnemonic == "JNE"@ {
        Some(0b101u16)
    } else if mnemonic == "JLE"@ {
        Some(0b110u16)
    } else if mnemonic == "JMP"@ {
        Some(0b111u16)
    } else {
        None
    }
}

/// Whether `code` is one of the 28 computation codes of the table.
pub open spec fn is_comp_code(code: u16) -> bool {
    ||| code == COMP_ZERO
    ||| code == COMP_ONE
    ||| code == COMP_MINUS_ONE
    ||| code == COMP_D
    ||| code == COMP_A
    ||| code == COMP_NOT_D
    ||| code == COMP_NOT_A
    ||| code == COMP_NEG_D
    ||| code == COMP_NEG_A
    ||| code == COMP_INC_D
    ||| code == COMP_INC_A
    ||| code == COMP_DEC_D
    ||| code == COMP_DEC_A
    ||| code == COMP_D_PLUS_A
    ||| code == COMP_D_MINUS_A
    ||| code == COMP_A_MINUS_D
    ||| code == COMP_D_AND_A
    ||| code == COMP_D_OR_A
    ||| code == COMP_M
    ||| code == COMP_NOT_M
    ||| code == COMP_NEG_M
    ||| code == COMP_INC_M
    ||| code == COMP_DEC_M
    ||| code == COMP_D_PLUS_M
    ||| code == COMP_D_MINUS_M
    ||| code == COMP_M_MINUS_D
    ||| code == COMP_D_AND_M
    ||| code == COMP_D_OR_M
}

/// Whether the characters of `token` spell exactly `text`.
pub fn token_is(token: &[char], text: &str) -> (r: bool)
    ensures
        r == (token@ == text@),
{
    let n = text.unicode_len();
    if token.len() != n {
        return false;
    }
    let mut i: usize = 0;
    while i < n
        invariant
            n == text@.len(),
            n == token@.len(),
            i <= n,
            token@.take(i as int) == text@.take(i as int),
        decreases n - i,
    {
        if token[i] != text.get_char(i) {
            assert(token@[i as int] != text@[i as int]);
            return false;
        }
        proof {
            assert(token@.take(i as int + 1) == token@.take(i as int).push(token@[i as int]));
            assert(text@.take(i as int + 1) == text@.take(i as int).push(text@[i as int]));
        }
        i = i + 1;
    }
    proof {
        assert(token@.take(n as int) == token@);
        assert(text@.take(n as int) == text@);
    }
    true
}

/// Looks a destination mnemonic up in the table.
pub fn lookup_dest(token: &[char]) -> (r: Option<u16>)
    ensures
        r == dest_code(token@),
{
    if token_is(token, "M") {
        Some(0b001)
    } else if token_is(token, "D") {
        Some(0b010)
    } else if token_is(token, "MD") {
        Some(0b011)
    } else if token_is(token, "A") {
        Some(0b100)
    } else if token_is(token, "AM") {
        Some(0b101)
    } else if token_is(token, "AD") {
        Some(0b110)
    } else if token_is(token, "AMD") {
        Some(0b111)
    } else {
        None
    }
}

/// Looks a computation mnemonic up in the table.
pub fn lookup_comp(token: &[char]) -> (r: Option<u16>)
    ensures
        r == comp_code(token@),
{
    if token_is(token, "0") {
        Some(COMP_ZERO)
    } else if token_is(token, "1") {
        Some(COMP_ONE)
    } else if token_is(token, "-1") {
        Some(COMP_MINUS_ONE)
    } else if token_is(token, "D") {
        Some(COMP_D)
    } else if token_is(token, "A") {
        Some(COMP_A)
    } else if token_is(token, "!D") {
        Some(COMP_NOT_D)
    } else if token_is(token, "!A") {
        Some(COMP_NOT_A)
    } else if token_is(token, "-D") {
        Some(COMP_NEG_D)
    } else if token_is(token, "-A") {
        Some(COMP_NEG_A)
    } else if token_is(token, "D+1") {
        Some(COMP_INC_D)
    } else if token_is(token, "A+1") {
        Some(COMP_INC_A)
    } else if token_is(token, "D-1") {
        Some(COMP_DEC_D)
    } else if token_is(token, "A-1") {
        Some(COMP_DEC_A)
    } else if token_is(token, "D+A") {
        Some(COMP_D_PLUS_A)
    } else if token_is(token, "D-A") {
        Some(COMP_D_MINUS_A)
    } else if token_is(token, "A-D") {
        Some(COMP_A_MINUS_D)
    } else if token_is(token, "D&A") {
        Some(COMP_D_AND_A)
    } else if token_is(token, "D|A") {
        Some(COMP_D_OR_A)
    } else if token_is(token, "M") {
        Some(COMP_M)
    } else if token_is(token, "!M") {
        Some(COMP_NOT_M)
    } else if token_is(token, "-M") {
        Some(COMP_NEG_M)
    } else if token_is(token, "M+1") {
        Some(COMP_INC_M)
    } else if token_is(token, "M-1") {
        Some(COMP_DEC_M)
    } else if token_is(token, "D+M") {
        Some(COMP_D_PLUS_M)
    } else if token_is(token, "D-M") {
        Some(COMP_D_MINUS_M)
    } else if token_is(token, "M-D") {
        Some(COMP_M_MINUS_D)
    } else if token_is(token, "D&M") {
        Some(COMP_D_AND_M)
    } else if token_is(token, "D|M") {
        Some(COMP_D_OR_M)
    } else {
        None
    }
}

/// Looks a jump mnemonic up in the table.
pub fn lookup_jump(token: &[char]) -> (r: Option<u16>)
    ensures
        r == jump_code(token@),
{
    if token_is(token, "JGT") {
        Some(0b001)
    } else if token_is(token, "JEQ") {
        Some(0b010)
    } else if token_is(token, "JGE") {
        Some(0b011)
    } else if token_is(token, "JLT") {
        Some(0b100)
    } else if token_is(token, "JNE") {
        Some(0b101)
    } else if token_is(token, "JLE") {
        Some(0b110)
    } else if token_is(token, "JMP") {
        Some(0b111)
    } else {
        None
    }
}

/// A destination mnemonic holds nothing but the letters `A`, `M` and `D`,
/// and its mask is a non-zero 3-bit number.
pub proof fn lemma_dest_mnemonic_letters(mnemonic: Seq<char>)
    requires
        dest_code(mnemonic) is Some,
    ensures
        1 <= mnemonic.len() <= 3,
        forall|i: int|
            0 <= i < mnemonic.len() ==> mnemonic[i] == 'A' || mnemonic[i] == 'M' || mnemonic[i]
                == 'D',
        1 <= dest_code(mnemonic)->0 < 8,
{
    reveal_strlit("M");
    reveal_strlit("D");
    reveal_strlit("MD");
    reveal_strlit("A");
    reveal_strlit("AM");
    reveal_strlit("AD");
    reveal_strlit("AMD");
}

/// A computation mnemonic holds neither `=` nor `;`, and its code is one
/// of the table.
pub proof fn lemma_comp_mnemonic_symbols(mnemonic: Seq<char>)
    requires
        comp_code(mnemonic) is Some,
    ensures
        1 <= mnemonic.len() <= 3,
        forall|i: int| 0 <= i < mnemonic.len() ==> mnemonic[i] != '=' && mnemonic[i] != ';',
        is_comp_code(comp_code(mnemonic)->0),
        comp_code(mnemonic)->0 < 128,
{
    reveal_strlit("0");
    reveal_strlit("1");
    reveal_strlit("-1");
    reveal_strlit("D");
    reveal_strlit("A");
    reveal_strlit("!D");
    reveal_strlit("!A");
    reveal_strlit("-D");
    reveal_strlit("-A");
    reveal_strlit("D+1");
    reveal_strlit("A+1");
    reveal_strlit("D-1");
    reveal_strlit("A-1");
    reveal_strlit("D+A");
    reveal_strlit("D-A");
    reveal_strlit("A-D");
    reveal_strlit("D&A");
    reveal_strlit("D|A");
    reveal_strlit("M");
    reveal_strlit("!M");
    reveal_strlit("-M");
    reveal_strlit("M+1");
    reveal_strlit("M-1");
    reveal_strlit("D+M");
    reveal_strlit("D-M");
    reveal_strlit("M-D");
    reveal_strlit("D&M");
    reveal_strlit("D|M");
}

/// A jump mnemonic is three letters long, holds neither `=` nor `;`, and
/// its condition is a non-zero 3-bit number.
pub proof fn lemma_jump_mnemonic_letters(mnemonic: Seq<char>)
    requires
        jump_code(mnemonic) is Some,
    ensures
        mnemonic.len() == 3,
        forall|i: int| 0 <= i < mnemonic.len() ==> mnemonic[i] != '=' && mnemonic[i] != ';',
        1 <= jump_code(mnemonic)->0 < 8,
{
    reveal_strlit("JGT");
    reveal_strlit("JEQ");
    reveal_strlit("JGE");
    reveal_strlit("JLT");
    reveal_strlit("JNE");
    reveal_strlit("JLE");
    reveal_strlit("JMP");
}

/// How each mnemonic of the three tables is spelled.
pub proof fn lemma_mnemonic_spellings()
    ensures
        "M"@ == seq!['M'],
        "D"@ == seq!['D'],
        "MD"@ == seq!['M', 'D'],
        "A"@ == seq!['A'],
        "AM"@ == seq!['A', 'M'],
        "AD"@ == seq!['A', 'D'],
        "AMD"@ == seq!['A', 'M', 'D'],
        "0"@ == seq!['0'],
        "1"@ == seq!['1'],
        "-1"@ == seq!['-', '1'],
        "!D"@ == seq!['!', 'D'],
        "!A"@ == seq!['!', 'A'],
        "-D"@ == seq!['-', 'D'],
        "-A"@ == seq!['-', 'A'],
        "D+1"@ == seq!['D', '+', '1'],
        "A+1"@ == seq!['A', '+', '1'],
        "D-1"@ == seq!['D', '-', '1'],
        "A-1"@ == seq!['A', '-', '1'],
        "D+A"@ == seq!['D', '+', 'A'],
        "D-A"@ == seq!['D', '-', 'A'],
        "A-D"@ == seq!['A', '-', 'D'],
        "D&A"@ == seq!['D', '&', 'A'],
        "D|A"@ == seq!['D', '|', 'A'],
        "!M"@ == seq!['!', 'M'],
        "-M"@ == seq!['-', 'M'],
        "M+1"@ == seq!['M', '+', '1'],
        "M-1"@ == seq!['M', '-', '1'],
        "D+M"@ == seq!['D', '+', 'M'],
        "D-M"@ == seq!['D', '-', 'M'],
        "M-D"@ == seq!['M', '-', 'D'],
        "D&M"@ == seq!['D', '&', 'M'],
        "D|M"@ == seq!['D', '|', 'M'],
        "JGT"@ == seq!['J', 'G', 'T'],
        "JEQ"@ == seq!['J', 'E', 'Q'],
        "JGE"@ == seq!['J', 'G', 'E'],
        "JLT"@ == seq!['J', 'L', 'T'],
        "JNE"@ == seq!['J', 'N', 'E'],
        "JLE"@ == seq!['J', 'L', 'E'],
        "JMP"@ == seq!['J', 'M', 'P'],
{
    reveal_strlit("M");
    reveal_strlit("D");
    reveal_strlit("MD");
    reveal_strlit("A");
    reveal_strlit("AM");
    reveal_strlit("AD");
    reveal_strlit("AMD");
    reveal_strlit("0");
    reveal_strlit("1");
    reveal_strlit("-1");
    reveal_strlit("!D");
    reveal_strlit("!A");
    reveal_strlit("-D");
    reveal_strlit("-A");
    reveal_strlit("D+1");
    reveal_strlit("A+1");
    reveal_strlit("D-1");
    reveal_strlit("A-1");
    reveal_strlit("D+A");
    reveal_strlit("D-A");
    reveal_strlit("A-D");
    reveal_strlit("D&A");
    reveal_strlit("D|A");
    reveal_strlit("!M");
    reveal_strlit("-M");
    reveal_strlit("M+1");
    reveal_strlit("M-1");
    reveal_strlit("D+M");
    reveal_strlit("D-M");
    reveal_strlit("M-D");
    reveal_strlit("D&M");
    reveal_strlit("D|M");
    reveal_strlit("JGT");
    reveal_strlit("JEQ");
    reveal_strlit("JGE");
    reveal_strlit("JLT");
    reveal_strlit("JNE");
    reveal_strlit("JLE");
    reveal_strlit("JMP");
    assert("M"@ =~= seq!['M']);
    assert("D"@ =~= seq!['D']);
    assert("MD"@ =~= seq!['M', 'D']);
    assert("A"@ =~= seq!['A']);
    assert("AM"@ =~= seq!['A', 'M']);
    assert("AD"@ =~= seq!['A', 'D']);
    assert("AMD"@ =~= seq!['A', 'M', 'D']);
    assert("0"@ =~= seq!['0']);
    assert("1"@ =~= seq!['1']);
    assert("-1"@ =~= seq!['-', '1']);
    assert("!D"@ =~= seq!['!', 'D']);
    assert("!A"@ =~= seq!['!', 'A']);
    assert("-D"@ =~= seq!['-', 'D']);
    assert("-A"@ =~= seq!['-', 'A']);
    assert("D+1"@ =~= seq!['D', '+', '1']);
    assert("A+1"@ =~= seq!['A', '+', '1']);
    assert("D-1"@ =~= seq!['D', '-', '1']);
    assert("A-1"@ =~= seq!['A', '-', '1']);
    assert("D+A"@ =~= seq!['D', '+', 'A']);
    assert("D-A"@ =~= seq!['D', '-', 'A']);
    assert("A-D"@ =~= seq!['A', '-', 'D']);
    assert("D&A"@ =~= seq!['D', '&', 'A']);
    assert("D|A"@ =~= seq!['D', '|', 'A']);
    assert("!M"@ =~= seq!['!', 'M']);
    assert("-M"@ =~= seq!['-', 'M']);
    assert("M+1"@ =~= seq!['M', '+', '1']);
    assert("M-1"@ =~= seq!['M', '-', '1']);
    assert("D+M"@ =~= seq!['D', '+', 'M']);
    assert("D-M"@ =~= seq!['D', '-', 'M']);
    assert("M-D"@ =~= seq!['M', '-', 'D']);
    assert("D&M"@ =~= seq!['D', '&', 'M']);
    assert("D|M"@ =~= seq!['D', '|', 'M']);
    assert("JGT"@ =~= seq!['J', 'G', 'T']);
    assert("JEQ"@ =~= seq!['J', 'E', 'Q']);
    assert("JGE"@ =~= seq!['J', 'G', 'E']);
    assert("JLT"@ =~= seq!['J', 'L', 'T']);
    assert("JNE"@ =~= seq!['J', 'N', 'E']);
    assert("JLE"@ =~= seq!['J', 'L', 'E']);
    assert("JMP"@ =~= seq!['J', 'M', 'P']);
}

/// The destination table, entry by entry.
pub proof fn lemma_dest_table()
    ensures
        dest_code("M"@) == Some(DEST_M),
        dest_code("D"@) == Some(DEST_D),
        dest_code("MD"@) == Some(0b011u16),
        dest_code("A"@) == Some(DEST_A),
        dest_code("AM"@) == Some(0b101u16),
        dest_code("AD"@) == Some(0b110u16),
        dest_code("AMD"@) == Some(0b111u16),
{
    lemma_mnemonic_spellings();
    assert("M"@.len() == 1 && "M"@[0] == 'M');
    assert("D"@.len() == 1 && "D"@[0] == 'D');
    assert("MD"@.len() == 2 && "MD"@[0] == 'M' && "MD"@[1] == 'D');
    assert("A"@.len() == 1 && "A"@[0] == 'A');
    assert("AM"@.len() == 2 && "AM"@[0] == 'A' && "AM"@[1] == 'M');
    assert("AD"@.len() == 2 && "AD"@[0] == 'A' && "AD"@[1] == 'D');
    assert("AMD"@.len() == 3 && "AMD"@[0] == 'A' && "AMD"@[1] == 'M' && "AMD"@[2] == 'D');
}

/// The computation table, entry by entry.
pub proof fn lemma_comp_table()
    ensures
        comp_code("0"@) == Some(COMP_ZERO),
        comp_code("1"@) == Some(COMP_ONE),
        comp_code("-1"@) == Some(COMP_MINUS_ONE),
        comp_code("D"@) == Some(COMP_D),
        comp_code("A"@) == Some(COMP_A),
        comp_code("!D"@) == Some(COMP_NOT_D),
        comp_code("!A"@) == Some(COMP_NOT_A),
        comp_code("-D"@) == Some(COMP_NEG_D),
        comp_code("-A"@) == Some(COMP_NEG_A),
        comp_code("D+1"@) == Some(COMP_INC_D),
        comp_code("A+1"@) == Some(COMP_INC_A),
        comp_code("D-1"@) == Some(COMP_DEC_D),
        comp_code("A-1"@) == Some(COMP_DEC_A),
        comp_code("D+A"@) == Some(COMP_D_PLUS_A),
        comp_code("D-A"@) == Some(COMP_D_MINUS_A),
        comp_code("A-D"@) == Some(COMP_A_MINUS_D),
        comp_code("D&A"@) == Some(COMP_D_AND_A),
        comp_code("D|A"@) == Some(COMP_D_OR_A),
        comp_code("M"@) == Some(COMP_M),
        comp_code("!M"@) == Some(COMP_NOT_M),
        comp_code("-M"@) == Some(COMP_NEG_M),
        comp_code("M+1"@) == Some(COMP_INC_M),
        comp_code("M-1"@) == Some(COMP_DEC_M),
        comp_code("D+M"@) == Some(COMP_D_PLUS_M),
        comp_code("D-M"@) == Some(COMP_D_MINUS_M),
        comp_code("M-D"@) == Some(COMP_M_MINUS_D),
        comp_code("D&M"@) == Some(COMP_D_AND_M),
        comp_code("D|M"@) == Some(COMP_D_OR_M),
{
    lemma_mnemonic_spellings();
    assert("0"@.len() == 1 && "0"@[0] == '0');
    assert("1"@.len() == 1 && "1"@[0] == '1');
    assert("-1"@.len() == 2 && "-1"@[0] == '-' && "-1"@[1] == '1');
    assert("D"@.len() == 1 && "D"@[0] == 'D');
    assert("A"@.len() == 1 && "A"@[0] == 'A');
    assert("!D"@.len() == 2 && "!D"@[0] == '!' && "!D"@[1] == 'D');
    assert("!A"@.len() == 2 && "!A"@[0] == '!' && "!A"@[1] == 'A');
    assert("-D"@.len() == 2 && "-D"@[0] == '-' && "-D"@[1] == 'D');
    assert("-A"@.len() == 2 && "-A"@[0] == '-' && "-A"@[1] == 'A');
    assert("D+1"@.len() == 3 && "D+1"@[0] == 'D' && "D+1"@[1] == '+' && "D+1"@[2] == '1');
    assert("A+1"@.len() == 3 && "A+1"@[0] == 'A' && "A+1"@[1] == '+' && "A+1"@[2] == '1');
    assert("D-1"@.len() == 3 && "D-1"@[0] == 'D' && "D-1"@[1] == '-' && "D-1"@[2] == '1');
    assert("A-1"@.len() == 3 && "A-1"@[0] == 'A' && "A-1"@[1] == '-' && "A-1"@[2] == '1');
    assert("D+A"@.len() == 3 && "D+A"@[0] == 'D' && "D+A"@[1] == '+' && "D+A"@[2] == 'A');
    assert("D-A"@.len() == 3 && "D-A"@[0] == 'D' && "D-A"@[1] == '-' && "D-A"@[2] == 'A');
    assert("A-D"@.len() == 3 && "A-D"@[0] == 'A' && "A-D"@[1] == '-' && "A-D"@[2] == 'D');
    assert("D&A"@.len() == 3 && "D&A"@[0] == 'D' && "D&A"@[1] == '&' && "D&A"@[2] == 'A');
    assert("D|A"@.len() == 3 && "D|A"@[0] == 'D' && "D|A"@[1] == '|' && "D|A"@[2] == 'A');
    assert("M"@.len() == 1 && "M"@[0] == 'M');
    assert("!M"@.len() == 2 && "!M"@[0] == '!' && "!M"@[1] == 'M');
    assert("-M"@.len() == 2 && "-M"@[0] == '-' && "-M"@[1] == 'M');
    assert("M+1"@.len() == 3 && "M+1"@[0] == 'M' && "M+1"@[1] == '+' && "M+1"@[2] == '1');
    assert("M-1"@.len() == 3 && "M-1"@[0] == 'M' && "M-1"@[1] == '-' && "M-1"@[2] == '1');
    assert("D+M"@.len() == 3 && "D+M"@[0] == 'D' && "D+M"@[1] == '+' && "D+M"@[2] == 'M');
    assert("D-M"@.len() == 3 && "D-M"@[0] == 'D' && "D-M"@[1] == '-' && "D-M"@[2] == 'M');
    assert("M-D"@.len() == 3 && "M-D"@[0] == 'M' && "M-D"@[1] == '-' && "M-D"@[2] == 'D');
    assert("D&M"@.len() == 3 && "D&M"@[0] == 'D' && "D&M"@[1] == '&' && "D&M"@[2] == 'M');
    assert("D|M"@.len() == 3 && "D|M"@[0] == 'D' && "D|M"@[1] == '|' && "D|M"@[2] == 'M');
}

/// The jump table, entry by entry.
pub proof fn lemma_jump_table()
    ensures
        jump_code("JGT"@) == Some(JUMP_IF_POSITIVE),
        jump_code("JEQ"@) == Some(JUMP_IF_ZERO),
        jump_code("JGE"@) == Some(0b011u16),
        jump_code("JLT"@) == Some(JUMP_IF_NEGATIVE),
        jump_code("JNE"@) == Some(0b101u16),
        jump_code("JLE"@) == Some(0b110u16),
        jump_code("JMP"@) == Some(0b111u16),
{
    lemma_mnemonic_spellings();
    assert("JGT"@.len() == 3 && "JGT"@[0] == 'J' && "JGT"@[1] == 'G' && "JGT"@[2] == 'T');
    assert("JEQ"@.len() == 3 && "JEQ"@[0] == 'J' && "JEQ"@[1] == 'E' && "JEQ"@[2] == 'Q');
    assert("JGE"@.len() == 3 && "JGE"@[0] == 'J' && "JGE"@[1] == 'G' && "JGE"@[2] == 'E');
    assert("JLT"@.len() == 3 && "JLT"@[0] == 'J' && "JLT"@[1] == 'L' && "JLT"@[2] == 'T');
    assert("JNE"@.len() == 3 && "JNE"@[0] == 'J' && "JNE"@[1] == 'N' && "JNE"@[2] == 'E');
    assert("JLE"@.len() == 3 && "JLE"@[0] == 'J' && "JLE"@[1] == 'L' && "JLE"@[2] == 'E');
    assert("JMP"@.len() == 3 && "JMP"@[0] == 'J' && "JMP"@[1] == 'M' && "JMP"@[2] == 'P');
}

/// Packs an address into an address instruction, keeping its low 15 bits.
pub fn encode_address(address: u16) -> (word: u16)
    ensures
        word == address_word(address),
        is_address_word(word),
        address_of(word) == word,
        address < 0x8000 ==> word == address,
{
    let word = address & 0x7FFF;
    assert(is_address_word(address & 0x7FFF) && address_of(address & 0x7FFF) == address & 0x7FFF
        && (address < 0x8000 ==> address & 0x7FFF == address)) by (bit_vector);
    word
}

/// Packs the three fields of a compute instruction into its word.
pub fn encode_compute(comp: u16, dest: u16, jump: u16) -> (word: u16)
    ensures
        word == compute_word(comp, dest, jump),
{
    0b111u16 << 13 | comp << 6 | dest << 3 | jump
}

/// Unpacking a packed compute instruction gives its three fields back, the
/// padding bits are set, and the word is no address instruction.
pub proof fn lemma_compute_word_fields(comp: u16, dest: u16, jump: u16)
    requires
        comp < 128,
        dest < 8,
        jump < 8,
    ensures
        !is_address_word(compute_word(comp, dest, jump)),
        has_compute_padding(compute_word(comp, dest, jump)),
        comp_of(compute_word(comp, dest, jump)) == comp,
        dest_of(compute_word(comp, dest, jump)) == dest,
        jump_of(compute_word(comp, dest, jump)) == jump,
        selects_memory(compute_word(comp, dest, jump)) == (comp >= 64),
{
    assert(comp < 128 && dest < 8 && jump < 8 ==> {
        let w = 0b111u16 << 13 | comp << 6 | dest << 3 | jump;
        &&& w >> 15 != 0
        &&& w >> 13 == 0b111
        &&& (w >> 6) & 0b1111111 == comp
        &&& (w >> 3) & 0b111 == dest
        &&& w & 0b111 == jump
        &&& (((w >> 12) & 0b1 != 0) == (comp >= 64))
    }) by (bit_vector);
}

/// Packing the fields of a well-padded compute instruction gives the word
/// back.
pub proof fn lemma_fields_compute_word(word: u16)
    requires
        has_compute_padding(word),
    ensures
        compute_word(comp_of(word), dest_of(word), jump_of(word)) == word,
        comp_of(word) < 128,
        dest_of(word) < 8,
        jump_of(word) < 8,
{
    assert(word >> 13 == 0b111 ==> {
        &&& (0b111u16 << 13 | ((word >> 6) & 0b1111111) << 6 | ((word >> 3) & 0b111) << 3 | (word
            & 0b111)) == word
        &&& (word >> 6) & 0b1111111 < 128
        &&& (word >> 3) & 0b111 < 8
        &&& word & 0b111 < 8
    }) by (bit_vector);
}

} // verus!
