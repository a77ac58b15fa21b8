use hack_toolchain::assembler::{
    clean, output_file_name, preprocessed_file_name, Assembler, Error, OutputFormat, SymbolTable,
};

fn lines(text: &str) -> Vec<String> {
    text.split('\n').map(|line| line.to_string()).collect()
}

fn words(bytes: &[u8]) -> Vec<u16> {
    bytes.chunks(2).map(|pair| u16::from_be_bytes([pair[0], pair[1]])).collect()
}

fn assemble_text(text: &str) -> Result<Vec<u16>, Error> {
    let mut assembler = Assembler::new(OutputFormat::Binary, false);
    let instructions = assembler.preprocess(&lines(text))?;
    let mut out = Vec::new();
    assembler.assemble(&instructions, &mut out)?;
    Ok(words(&out))
}

fn one_word(line: &str) -> Result<u16, Error> {
    let mut assembler = Assembler::new(OutputFormat::Binary, false);
    assembler.assemble_line(&line.to_string())
}

const DESTS: [(&str, u16); 7] =
    [("M", 1), ("D", 2), ("MD", 3), ("A", 4), ("AM", 5), ("AD", 6), ("AMD", 7)];

const COMPS: [(&str, u16); 28] = [
    ("0", 0b0101010),
    ("1", 0b0111111),
    ("-1", 0b0111010),
    ("D", 0b0001100),
    ("A", 0b0110000),
    ("!D", 0b0001101),
    ("!A", 0b0110001),
    ("-D", 0b0001111),
    ("-A", 0b0110011),
    ("D+1", 0b0011111),
    ("A+1", 0b0110111),
    ("D-1", 0b0001110),
    ("A-1", 0b0110010),
    ("D+A", 0b0000010),
    ("D-A", 0b0010011),
    ("A-D", 0b0000111),
    ("D&A", 0b0000000),
    ("D|A", 0b0010101),
    ("M", 0b1110000),
    ("!M", 0b1110001),
    ("-M", 0b1110011),
    ("M+1", 0b1110111),
    ("M-1", 0b1110010),
    ("D+M", 0b1000010),
    ("D-M", 0b1010011),
    ("M-D", 0b1000111),
    ("D&M", 0b1000000),
    ("D|M", 0b1010101),
];

const JUMPS: [(&str, u16); 7] =
    [("JGT", 1), ("JEQ", 2), ("JGE", 3), ("JLT", 4), ("JNE", 5), ("JLE", 6), ("JMP", 7)];

#[test]
fn every_mnemonic_combination_round_trips() {
    for (dest, dest_bits) in DESTS {
        for (comp, comp_bits) in COMPS {
            for (jump, jump_bits) in JUMPS {
                let word = one_word(&format!("{}={};{}", dest, comp, jump)).unwrap();
                assert_eq!(word >> 13, 0b111);
                assert_eq!((word >> 6) & 0b1111111, comp_bits);
                assert_eq!((word >> 3) & 0b111, dest_bits);
                assert_eq!(word & 0b111, jump_bits);
            }
        }
    }
}

#[test]
fn optional_parts_encode_as_zero() {
    for (comp, comp_bits) in COMPS {
        assert_eq!(one_word(comp).unwrap(), 0xE000 | comp_bits << 6);
        for (dest, dest_bits) in DESTS {
            let word = one_word(&format!("{}={}", dest, comp)).unwrap();
            assert_eq!(word, 0xE000 | comp_bits << 6 | dest_bits << 3);
        }
        for (jump, jump_bits) in JUMPS {
            let word = one_word(&format!("{};{}", comp, jump)).unwrap();
            assert_eq!(word, 0xE000 | comp_bits << 6 | jump_bits);
        }
    }
}

#[test]
fn compute_instruction_words() {
    assert_eq!(one_word("D=A").unwrap(), 0xEC10);
    assert_eq!(one_word("D=D+A").unwrap(), 0xE090);
    assert_eq!(one_word("M=D").unwrap(), 0xE308);
    assert_eq!(one_word("0;JMP").unwrap(), 0xEA87);
    assert_eq!(one_word("D;JGT").unwrap(), 0xE301);
    assert_eq!(one_word("AMD=D|M;JNE").unwrap(), 0xF57D);
    assert_eq!(one_word("M=M+1").unwrap(), 0xFDC8);
}

#[test]
fn trailing_semicolon_means_no_jump() {
    assert_eq!(one_word("D;").unwrap(), 0xE300);
    assert_eq!(one_word("M=D;").unwrap(), 0xE308);
}

#[test]
fn address_literals_encode_to_themselves() {
    let mut assembler = Assembler::new(OutputFormat::Binary, false);
    for n in 0u16..32768 {
        let word = assembler.assemble_line(&format!("@{}", n)).unwrap();
        assert_eq!(word, n);
        assert_eq!(word >> 15, 0);
    }
    assert_eq!(assembler.symbol_table().next_variable_address(), 16);
}

#[test]
fn address_literal_with_leading_zeros() {
    assert_eq!(one_word("@007").unwrap(), 7);
    assert_eq!(one_word("@0").unwrap(), 0);
}

#[test]
fn large_address_literals_are_truncated_to_15_bits() {
    assert_eq!(one_word("@32767").unwrap(), 32767);
    assert_eq!(one_word("@32768").unwrap(), 0);
    assert_eq!(one_word("@40000").unwrap(), 7232);
    assert_eq!(one_word("@65535").unwrap(), 32767);
    assert_eq!(one_word("@65536").unwrap(), 0);
    assert_eq!(one_word("@70000").unwrap(), 4464);
    assert_eq!(one_word("@4294967296").unwrap(), 0);
}

#[test]
fn predefined_symbols_resolve() {
    assert_eq!(one_word("@SCREEN").unwrap(), 16384);
    assert_eq!(one_word("@KBD").unwrap(), 24576);
    assert_eq!(one_word("@SP").unwrap(), 0);
    assert_eq!(one_word("@LCL").unwrap(), 1);
    assert_eq!(one_word("@ARG").unwrap(), 2);
    assert_eq!(one_word("@THIS").unwrap(), 3);
    assert_eq!(one_word("@THAT").unwrap(), 4);
    for n in 0u16..16 {
        assert_eq!(one_word(&format!("@R{}", n)).unwrap(), n);
    }
}

#[test]
fn new_symbol_table_holds_the_predefined_symbols() {
    let table = SymbolTable::new();
    assert_eq!(table.get_symbol_addr("SCREEN"), Some(16384));
    assert_eq!(table.get_symbol_addr("KBD"), Some(24576));
    assert_eq!(table.get_symbol_addr("SP"), Some(0));
    assert_eq!(table.get_symbol_addr("R0"), Some(0));
    assert_eq!(table.get_symbol_addr("THAT"), Some(4));
    assert_eq!(table.get_symbol_addr("R4"), Some(4));
    assert_eq!(table.get_symbol_addr("R15"), Some(15));
    assert_eq!(table.get_symbol_addr("R16"), None);
    assert_eq!(table.get_symbol_addr(""), None);
    assert_eq!(table.next_variable_address(), 16);
}

#[test]
fn label_before_any_instruction_is_zero() {
    let mut assembler = Assembler::new(OutputFormat::Binary, false);
    let instructions = assembler.preprocess(&lines("(START)\n@START\n0;JMP")).unwrap();
    assert_eq!(instructions, vec!["@START".to_string(), "0;JMP".to_string()]);
    assert_eq!(assembler.symbol_table().get_symbol_addr("START"), Some(0));
    let mut out = Vec::new();
    assembler.assemble(&instructions, &mut out).unwrap();
    assert_eq!(words(&out), vec![0, 0xEA87]);
}

#[test]
fn label_after_k_instructions_is_k() {
    let mut assembler = Assembler::new(OutputFormat::Binary, false);
    let source = "@1\n// a comment\nD=A\n\n(MID)\n@2\n(TWO)\n(SAME)\nD=D+A\n@MID\n0;JMP\n(END)";
    let instructions = assembler.preprocess(&lines(source)).unwrap();
    assert_eq!(instructions.len(), 6);
    assert_eq!(assembler.symbol_table().get_symbol_addr("MID"), Some(2));
    assert_eq!(assembler.symbol_table().get_symbol_addr("TWO"), Some(3));
    assert_eq!(assembler.symbol_table().get_symbol_addr("SAME"), Some(3));
    assert_eq!(assembler.symbol_table().get_symbol_addr("END"), Some(6));
    let mut out = Vec::new();
    assembler.assemble(&instructions, &mut out).unwrap();
    assert_eq!(words(&out)[4], 2);
}

#[test]
fn label_may_be_used_before_its_declaration() {
    let program = assemble_text("@END\n0;JMP\n(END)\n@END\n0;JMP").unwrap();
    assert_eq!(program, vec![2, 0xEA87, 2, 0xEA87]);
}

#[test]
fn duplicate_label_is_overwritten() {
    let mut assembler = Assembler::new(OutputFormat::Binary, false);
    assembler.preprocess(&lines("(L)\nD=A\n(L)\nD=A")).unwrap();
    assert_eq!(assembler.symbol_table().get_symbol_addr("L"), Some(1));
}

#[test]
fn label_may_shadow_a_predefined_symbol() {
    let program = assemble_text("D=A\n(SCREEN)\n@SCREEN").unwrap();
    assert_eq!(program, vec![0xEC10, 1]);
}

#[test]
fn empty_label_name_is_bound() {
    let mut assembler = Assembler::new(OutputFormat::Binary, false);
    let instructions = assembler.preprocess(&lines("D=A\n()")).unwrap();
    assert_eq!(instructions.len(), 1);
    assert_eq!(assembler.symbol_table().get_symbol_addr(""), Some(1));
}

#[test]
fn variables_get_consecutive_addresses_from_16() {
    let program = assemble_text("@first\n@second\n@first\n@second\n@third").unwrap();
    assert_eq!(program, vec![16, 17, 16, 17, 18]);
}

#[test]
fn add_variable_returns_the_next_free_address() {
    let mut table = SymbolTable::new();
    assert_eq!(table.add_variable("i").unwrap(), 16);
    assert_eq!(table.add_variable("j").unwrap(), 17);
    assert_eq!(table.next_variable_address(), 18);
    assert_eq!(table.get_symbol_addr("i"), Some(16));
    assert_eq!(table.get_symbol_addr("j"), Some(17));
}

#[test]
fn add_variable_twice_is_an_error() {
    let mut table = SymbolTable::new();
    table.add_variable("i").unwrap();
    match table.add_variable("i") {
        Err(Error::SymbolTableError(text)) => {
            assert_eq!(text, "Variable i already exists in the symbol table")
        },
        other => panic!("unexpected {:?}", other),
    }
    assert_eq!(table.next_variable_address(), 17);
    match table.add_variable("SCREEN") {
        Err(Error::SymbolTableError(text)) => {
            assert_eq!(text, "Variable SCREEN already exists in the symbol table")
        },
        other => panic!("unexpected {:?}", other),
    }
}

#[test]
fn add_label_overwrites() {
    let mut table = SymbolTable::new();
    table.add_label("LOOP", 4);
    assert_eq!(table.get_symbol_addr("LOOP"), Some(4));
    table.add_label("LOOP", 9);
    assert_eq!(table.get_symbol_addr("LOOP"), Some(9));
    table.add_label("KBD", 3);
    assert_eq!(table.get_symbol_addr("KBD"), Some(3));
    assert_eq!(table.next_variable_address(), 16);
}

#[test]
fn digits_before_a_symbol_are_dropped() {
    let mut assembler = Assembler::new(OutputFormat::Binary, false);
    assert_eq!(assembler.assemble_line(&"@12abc".to_string()).unwrap(), 16);
    assert_eq!(assembler.symbol_table().get_symbol_addr("abc"), Some(16));
    assert_eq!(assembler.symbol_table().get_symbol_addr("12abc"), None);
    assert_eq!(assembler.assemble_line(&"@abc".to_string()).unwrap(), 16);
    assert_eq!(assembler.assemble_line(&"@9SCREEN".to_string()).unwrap(), 16384);
    assert_eq!(assembler.assemble_line(&"@x1".to_string()).unwrap(), 17);
    assert_eq!(assembler.symbol_table().get_symbol_addr("x1"), Some(17));
}

#[test]
fn sum_program_assembles() {
    let program = assemble_text("@2\nD=A\n@3\nD=D+A\n@0\nM=D").unwrap();
    assert_eq!(program, vec![2, 0xEC10, 3, 0xE090, 0, 0xE308]);
    for index in [0, 2, 4] {
        assert_eq!(program[index] >> 15, 0);
    }
    assert_eq!((program[1] >> 6) & 0b1111111, 0b0110000);
    assert_eq!((program[1] >> 3) & 0b111, 0b010);
    assert_eq!((program[3] >> 6) & 0b1111111, 0b0000010);
    assert_eq!((program[3] >> 3) & 0b111, 0b010);
    assert_eq!((program[5] >> 3) & 0b111, 0b001);
}

#[test]
fn text_output_is_sixteen_digits_and_a_line_feed() {
    let mut assembler = Assembler::new(OutputFormat::Text, false);
    let mut out = Vec::new();
    assembler.assemble(&lines("@2\nD=A"), &mut out).unwrap();
    assert_eq!(out, b"0000000000000010\n1110110000010000\n".to_vec());
}

#[test]
fn binary_output_is_big_endian() {
    let mut assembler = Assembler::new(OutputFormat::Binary, false);
    let mut out = vec![0xAA];
    assembler.assemble(&lines("@258\nD=A"), &mut out).unwrap();
    assert_eq!(out, vec![0xAA, 0x01, 0x02, 0xEC, 0x10]);
}

#[test]
fn save_instr_appends_one_word() {
    let text = Assembler::new(OutputFormat::Text, false);
    let mut out = Vec::new();
    text.save_instr(0x8001, &mut out);
    assert_eq!(out, b"1000000000000001\n".to_vec());
    text.save_instr(0, &mut out);
    assert_eq!(out, b"1000000000000001\n0000000000000000\n".to_vec());
    let binary = Assembler::new(OutputFormat::Binary, false);
    let mut out = Vec::new();
    binary.save_instr(0x1234, &mut out);
    binary.save_instr(0x00FF, &mut out);
    assert_eq!(out, vec![0x12, 0x34, 0x00, 0xFF]);
}

#[test]
fn new_assembler_settings() {
    let assembler = Assembler::new(OutputFormat::Text, true);
    assert!(matches!(assembler.output_format(), OutputFormat::Text));
    assert!(assembler.save_preprocessed_file());
    assert_eq!(assembler.line_num(), 1);
    let assembler = Assembler::new(OutputFormat::Binary, false);
    assert!(matches!(assembler.output_format(), OutputFormat::Binary));
    assert!(!assembler.save_preprocessed_file());
}

#[test]
fn preprocess_line_strips_white_space_and_comments() {
    let mut assembler = Assembler::new(OutputFormat::Binary, false);
    let line = assembler.preprocess_line(&"  D = M \t// load\r".to_string(), &0).unwrap();
    assert_eq!(line, Some("D=M".to_string()));
    let line = assembler.preprocess_line(&"@ i //x//y".to_string(), &0).unwrap();
    assert_eq!(line, Some("@i".to_string()));
    let line = assembler.preprocess_line(&"D/ /M".to_string(), &0).unwrap();
    assert_eq!(line, Some("D".to_string()));
    let line = assembler.preprocess_line(&"D/M/".to_string(), &0).unwrap();
    assert_eq!(line, Some("D/M/".to_string()));
    let line = assembler.preprocess_line(&"A\u{3000}=\u{a0}1".to_string(), &0).unwrap();
    assert_eq!(line, Some("A=1".to_string()));
}

#[test]
fn preprocess_line_drops_blank_lines() {
    let mut assembler = Assembler::new(OutputFormat::Binary, false);
    assert_eq!(assembler.preprocess_line(&"".to_string(), &3).unwrap(), None);
    assert_eq!(assembler.preprocess_line(&" \t\r".to_string(), &3).unwrap(), None);
    assert_eq!(assembler.preprocess_line(&"// only a comment".to_string(), &3).unwrap(), None);
    assert_eq!(assembler.preprocess_line(&" / / spaced".to_string(), &3).unwrap(), None);
}

#[test]
fn preprocess_line_binds_a_label() {
    let mut assembler = Assembler::new(OutputFormat::Binary, false);
    assert_eq!(assembler.preprocess_line(&" ( LOOP ) // here".to_string(), &7).unwrap(), None);
    assert_eq!(assembler.symbol_table().get_symbol_addr("LOOP"), Some(7));
}

#[test]
fn label_without_closing_parenthesis_is_an_error() {
    let mut assembler = Assembler::new(OutputFormat::Binary, false);
    match assembler.preprocess_line(&"(LOOP".to_string(), &12) {
        Err(Error::PreprocessError(text)) => {
            assert_eq!(text, "Missing label closing parenthesis at line 12")
        },
        other => panic!("unexpected {:?}", other),
    }
    assert_eq!(assembler.symbol_table().get_symbol_addr("LOOP"), None);
    assert!(matches!(
        assembler.preprocess_line(&"(".to_string(), &0),
        Err(Error::PreprocessError(_))
    ));
    assert!(matches!(
        assembler.preprocess_line(&"(A)B".to_string(), &0),
        Err(Error::PreprocessError(_))
    ));
    assert!(matches!(
        assembler.preprocess_line(&"(A // )".to_string(), &0),
        Err(Error::PreprocessError(_))
    ));
}

#[test]
fn preprocess_stops_at_the_first_bad_label() {
    let mut assembler = Assembler::new(OutputFormat::Binary, false);
    let source = "(A)\nD=A\nD=M\n(B\n(C)\nD=A";
    match assembler.preprocess(&lines(source)) {
        Err(Error::PreprocessError(text)) => {
            assert_eq!(text, "Missing label closing parenthesis at line 2")
        },
        other => panic!("unexpected {:?}", other),
    }
    assert_eq!(assembler.symbol_table().get_symbol_addr("A"), Some(0));
    assert_eq!(assembler.symbol_table().get_symbol_addr("C"), None);
}

#[test]
fn count_instructions_counts_neither_blanks_nor_labels() {
    let source = lines("(A)\nD=A\n\n// c\nD=M // c\n(B\n(C)\n@1");
    assert_eq!(Assembler::count_instructions(&source), 3);
    assert_eq!(Assembler::count_instructions(&Vec::new()), 0);
}

#[test]
fn clean_removes_white_space_and_comment() {
    let cleaned: String = clean(" M = D + 1 ; JGT // jump").into_iter().collect();
    assert_eq!(cleaned, "M=D+1;JGT");
    assert!(clean("\u{2003}//").is_empty());
}

#[test]
fn invalid_destination_is_an_error() {
    for line in ["X=D", "DM=D", "=D", "d=D", "D;JMP=A", "MDA=0", "AA=1"] {
        match one_word(line) {
            Err(Error::AssembleError(text)) => {
                assert_eq!(text, "Invalid destination at line 1", "{}", line)
            },
            other => panic!("unexpected {:?} for {}", other, line),
        }
    }
}

#[test]
fn invalid_computation_is_an_error() {
    for line in ["D=Q", "", "D=", "A+D", "1+D", "D=D=A", "M=D+2", ";JMP", "D=;JMP", "d", "D+A+1"] {
        match one_word(line) {
            Err(Error::AssembleError(text)) => {
                assert_eq!(text, "Invalid computation at line 1", "{}", line)
            },
            other => panic!("unexpected {:?} for {}", other, line),
        }
    }
}

#[test]
fn invalid_jump_is_an_error() {
    for line in ["D;JXX", "D;jmp", "0;JMP;", "D;J", "M=D;JMPP", "D;;JMP"] {
        match one_word(line) {
            Err(Error::AssembleError(text)) => {
                assert_eq!(text, "Invalid jump at line 1", "{}", line)
            },
            other => panic!("unexpected {:?} for {}", other, line),
        }
    }
}

#[test]
fn destination_is_checked_before_computation_and_jump() {
    match one_word("X=Q;JXX") {
        Err(Error::AssembleError(text)) => assert_eq!(text, "Invalid destination at line 1"),
        other => panic!("unexpected {:?}", other),
    }
    match one_word("D=Q;JXX") {
        Err(Error::AssembleError(text)) => assert_eq!(text, "Invalid computation at line 1"),
        other => panic!("unexpected {:?}", other),
    }
}

#[test]
fn empty_symbol_is_an_error() {
    match one_word("@") {
        Err(Error::AssembleError(text)) => assert_eq!(text, "Invalid empty symbol at line 1"),
        other => panic!("unexpected {:?}", other),
    }
}

#[test]
fn assemble_stops_at_the_first_fault_and_keeps_what_it_wrote() {
    let mut assembler = Assembler::new(OutputFormat::Binary, false);
    let mut out = Vec::new();
    match assembler.assemble(&lines("@i\nD=A\nD=Q\n@j\nD=A"), &mut out) {
        Err(Error::AssembleError(text)) => assert_eq!(text, "Invalid computation at line 3"),
        other => panic!("unexpected {:?}", other),
    }
    assert_eq!(out, vec![0x00, 0x10, 0xEC, 0x10]);
    assert_eq!(assembler.line_num(), 3);
    assert_eq!(assembler.symbol_table().get_symbol_addr("i"), Some(16));
    assert_eq!(assembler.symbol_table().get_symbol_addr("j"), None);
}

#[test]
fn assemble_counts_lines_from_one() {
    let mut assembler = Assembler::new(OutputFormat::Binary, false);
    let mut out = Vec::new();
    assembler.assemble(&lines("@1\nD=A\n0;JMP"), &mut out).unwrap();
    assert_eq!(assembler.line_num(), 4);
    assert!(assembler.assemble(&Vec::new(), &mut out).is_ok());
    assert_eq!(assembler.line_num(), 4);
    assert_eq!(out.len(), 6);
}

#[test]
fn get_bits_move_the_cursor() {
    let assembler = Assembler::new(OutputFormat::Binary, false);
    let mut cursor = 0;
    assert_eq!(assembler.get_dest_bits(&mut cursor, "MD=D+1;JGE").unwrap(), 3);
    assert_eq!(cursor, 3);
    assert_eq!(assembler.get_comp_bits(&mut cursor, "MD=D+1;JGE").unwrap(), 0b0011111);
    assert_eq!(cursor, 7);
    assert_eq!(assembler.get_jump_bits(cursor, "MD=D+1;JGE").unwrap(), 3);

    let mut cursor = 0;
    assert_eq!(assembler.get_dest_bits(&mut cursor, "D+1").unwrap(), 0);
    assert_eq!(cursor, 0);
    assert_eq!(assembler.get_comp_bits(&mut cursor, "D+1").unwrap(), 0b0011111);
    assert_eq!(cursor, 3);
    assert_eq!(assembler.get_jump_bits(cursor, "D+1").unwrap(), 0);
}

#[test]
fn assemble_a_and_c_instructions_directly() {
    let mut assembler = Assembler::new(OutputFormat::Binary, false);
    assert_eq!(assembler.assemble_a_instr(&"@21".to_string()).unwrap(), 21);
    assert_eq!(assembler.assemble_a_instr(&"@sum".to_string()).unwrap(), 16);
    assert_eq!(assembler.assemble_c_instr("A=M").unwrap(), 0xFC20);
}

#[test]
fn error_messages_name_their_kind() {
    assert_eq!(
        Error::PreprocessError("x".to_string()).message(),
        "Preprocess Error: x"
    );
    assert_eq!(Error::AssembleError("y".to_string()).message(), "Assemble Error: y");
    assert_eq!(
        Error::SymbolTableError("z".to_string()).message(),
        "Symbol Table Error: z"
    );
    assert_eq!(
        Error::invalid_jump(65535).message(),
        "Assemble Error: Invalid jump at line 65535"
    );
    assert_eq!(
        Error::missing_parenthesis(0).message(),
        "Preprocess Error: Missing label closing parenthesis at line 0"
    );
    assert_eq!(
        Error::invalid_destination(10).message(),
        "Assemble Error: Invalid destination at line 10"
    );
    assert_eq!(
        Error::invalid_computation(207).message(),
        "Assemble Error: Invalid computation at line 207"
    );
    assert_eq!(
        Error::empty_symbol(1).message(),
        "Assemble Error: Invalid empty symbol at line 1"
    );
    assert_eq!(
        Error::variable_exists("i").message(),
        "Symbol Table Error: Variable i already exists in the symbol table"
    );
}

#[test]
fn file_names() {
    assert_eq!(output_file_name("Add", None), "Add.hack");
    assert_eq!(output_file_name("Add", Some("out.bin".to_string())), "out.bin");
    assert_eq!(preprocessed_file_name("Add"), "Add.i");
}
