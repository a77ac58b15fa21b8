use hack_toolchain::assembler::{Assembler, OutputFormat};
use hack_toolchain::emulator::{Cpu, Emulator, Error, Keyboard, Memory, Rom, Screen};

fn rom_of(words: &[u16]) -> Rom {
    let mut bytes = Vec::new();
    for word in words {
        bytes.extend_from_slice(&word.to_be_bytes());
    }
    Rom::from_bytes(&bytes).unwrap()
}

fn compute(comp: u16, dest: u16, jump: u16) -> u16 {
    0xE000 | comp << 6 | dest << 3 | jump
}

fn alu(comp: u16, d: u16, a: u16, m: u16) -> Result<u16, Error> {
    let mut memory = Memory::new();
    if (a as usize) < Memory::TOTAL_SIZE {
        memory.store(a as usize, m).unwrap();
    }
    let mut cpu = Cpu { reg_d: d, reg_a: a, pc: 0 };
    cpu.execute(compute(comp, 0, 0), &memory).map(|output| output.alu_out)
}

#[test]
fn memory_starts_zeroed() {
    let memory = Memory::new();
    for address in 0..Memory::TOTAL_SIZE {
        assert_eq!(memory.fetch(address).unwrap(), 0);
    }
}

#[test]
fn memory_store_then_fetch() {
    let mut memory = Memory::new();
    memory.store(0, 7).unwrap();
    memory.store(0x6000, 9).unwrap();
    memory.store(0x4000, 0xFFFF).unwrap();
    assert_eq!(memory.fetch(0).unwrap(), 7);
    assert_eq!(memory.fetch(1).unwrap(), 0);
    assert_eq!(memory.fetch(0x6000).unwrap(), 9);
    assert_eq!(memory.fetch(0x4000).unwrap(), 0xFFFF);
    assert_eq!(memory.fetch(0x3FFF).unwrap(), 0);
}

#[test]
fn memory_access_out_of_range_fails() {
    let mut memory = Memory::new();
    assert!(matches!(memory.fetch(0x6001), Err(Error::InvalidMemoryAddress(0x6001))));
    assert!(matches!(memory.fetch(usize::MAX), Err(Error::InvalidMemoryAddress(usize::MAX))));
    assert!(matches!(memory.store(0x6001, 1), Err(Error::InvalidMemoryAddress(0x6001))));
    assert!(matches!(memory.store(0xFFFF, 1), Err(Error::InvalidMemoryAddress(0xFFFF))));
    assert_eq!(memory.fetch(0x6000).unwrap(), 0);
}

#[test]
fn screen_addresses() {
    let mut memory = Memory::new();
    memory.store(0x4000, 1).unwrap();
    assert!(Memory::is_screen_address(0x4000));
    memory.store(0x3FFF, 1).unwrap();
    assert!(!Memory::is_screen_address(0x3FFF));
    assert!(Memory::is_screen_address(0x5FFF));
    assert!(!Memory::is_screen_address(0x6000));
    assert!(!Memory::is_screen_address(0));
    assert!(!Memory::is_screen_address(usize::MAX));
}

#[test]
fn memory_constants() {
    assert_eq!(Memory::TOTAL_SIZE, 24577);
    assert_eq!(Memory::SCREEN_MEMORY_MAP_OFFSET, 0x4000);
    assert_eq!(Memory::SCREEN_MEMORY_MAP_SIZE, 8192);
    assert_eq!(Memory::KEYBOARD_REG_OFFSET, 0x6000);
    assert_eq!(Rom::ROM_SIZE, 32768);
}

#[test]
fn keyboard_register_is_the_last_cell() {
    let mut memory = Memory::new();
    memory.set_keyboard_reg(65);
    assert_eq!(memory.fetch(0x6000).unwrap(), 65);
    assert_eq!(memory.fetch(0x5FFF).unwrap(), 0);
    memory.set_keyboard_reg(0);
    assert_eq!(memory.fetch(0x6000).unwrap(), 0);
}

#[test]
fn rom_is_loaded_big_endian_and_padded_with_zeros() {
    let rom = Rom::from_bytes(&[0x12, 0x34, 0x00, 0x01, 0xFF, 0xFE]).unwrap();
    assert_eq!(rom.fetch(0).unwrap(), 0x1234);
    assert_eq!(rom.fetch(1).unwrap(), 1);
    assert_eq!(rom.fetch(2).unwrap(), 0xFFFE);
    assert_eq!(rom.fetch(3).unwrap(), 0);
    assert_eq!(rom.fetch(32767).unwrap(), 0);
    let empty = Rom::from_bytes(&[]).unwrap();
    assert_eq!(empty.fetch(0).unwrap(), 0);
}

#[test]
fn rom_of_full_size_is_accepted() {
    let mut bytes = vec![0u8; 65536];
    bytes[65534] = 0xAB;
    bytes[65535] = 0xCD;
    let rom = Rom::from_bytes(&bytes).unwrap();
    assert_eq!(rom.fetch(32767).unwrap(), 0xABCD);
}

#[test]
fn rom_too_large_is_refused() {
    match Rom::from_bytes(&vec![0u8; 65538]) {
        Err(Error::RomError(text)) => assert_eq!(text, "ROM too large"),
        _ => panic!("expected an error"),
    }
    match Rom::from_bytes(&vec![0u8; 65537]) {
        Err(Error::RomError(text)) => assert_eq!(text, "ROM too large"),
        _ => panic!("expected an error"),
    }
}

#[test]
fn rom_of_odd_length_is_refused() {
    match Rom::from_bytes(&[1, 2, 3]) {
        Err(Error::RomError(text)) => assert_eq!(text, "ROM size must be a multiple of 2"),
        _ => panic!("expected an error"),
    }
}

#[test]
fn rom_fetch_out_of_range_fails() {
    let rom = rom_of(&[1]);
    assert!(matches!(rom.fetch(32768), Err(Error::InvalidROMAddress(32768))));
    assert!(matches!(rom.fetch(usize::MAX), Err(Error::InvalidROMAddress(usize::MAX))));
}

#[test]
fn new_cpu_is_zeroed() {
    let cpu = Cpu::new();
    assert_eq!((cpu.reg_d, cpu.reg_a, cpu.pc), (0, 0, 0));
}

#[test]
fn program_counter_moves() {
    let mut cpu = Cpu { reg_d: 3, reg_a: 4, pc: 9 };
    cpu.increment_pc();
    assert_eq!((cpu.reg_d, cpu.reg_a, cpu.pc), (3, 4, 10));
    cpu.reset_pc();
    assert_eq!((cpu.reg_d, cpu.reg_a, cpu.pc), (3, 4, 0));
}

#[test]
fn address_instruction_loads_a() {
    let memory = Memory::new();
    let mut cpu = Cpu { reg_d: 11, reg_a: 0, pc: 5 };
    let output = cpu.execute(0x7FFF, &memory).unwrap();
    assert_eq!((cpu.reg_d, cpu.reg_a, cpu.pc), (11, 0x7FFF, 6));
    assert!(!output.write_to_ram);
    assert_eq!(output.alu_out, 0);
    assert_eq!(output.memory_address, 0);
    let output = cpu.execute_a_instruction(21).unwrap();
    assert_eq!((cpu.reg_d, cpu.reg_a, cpu.pc), (11, 21, 7));
    assert!(!output.write_to_ram);
}

#[test]
fn alu_constants_do_not_depend_on_the_registers() {
    for (d, a) in [(0, 0), (5, 7), (0xFFFF, 0x1234), (0x8000, 0x6000)] {
        assert_eq!(alu(0b0101010, d, a, 99).unwrap(), 0);
        assert_eq!(alu(0b0111111, d, a, 99).unwrap(), 1);
        assert_eq!(alu(0b0111010, d, a, 99).unwrap(), 0xFFFF);
    }
}

#[test]
fn alu_increment_and_decrement_wrap() {
    assert_eq!(alu(0b0011111, 5, 0, 0).unwrap(), 6);
    assert_eq!(alu(0b0011111, 0xFFFF, 0, 0).unwrap(), 0);
    assert_eq!(alu(0b0001110, 0, 0, 0).unwrap(), 0xFFFF);
    assert_eq!(alu(0b0001110, 6, 0, 0).unwrap(), 5);
    assert_eq!(alu(0b0110111, 0, 0x5FFF, 0).unwrap(), 0x6000);
    assert_eq!(alu(0b0110111, 0, 0xFFFF, 0).unwrap(), 0);
    assert_eq!(alu(0b0110010, 0, 0, 0).unwrap(), 0xFFFF);
    assert_eq!(alu(0b1110111, 0, 3, 0xFFFF).unwrap(), 0);
    assert_eq!(alu(0b1110010, 0, 3, 0).unwrap(), 0xFFFF);
}

#[test]
fn alu_truth_table() {
    let d: u16 = 0x1234;
    let a: u16 = 0x0042;
    let m: u16 = 0xF00F;
    let expected: [(u16, u16); 28] = [
        (0b0101010, 0),
        (0b0111111, 1),
        (0b0111010, 0xFFFF),
        (0b0001100, d),
        (0b0110000, a),
        (0b0001101, !d),
        (0b0110001, !a),
        (0b0001111, d.wrapping_neg()),
        (0b0110011, a.wrapping_neg()),
        (0b0011111, d.wrapping_add(1)),
        (0b0110111, a.wrapping_add(1)),
        (0b0001110, d.wrapping_sub(1)),
        (0b0110010, a.wrapping_sub(1)),
        (0b0000010, d.wrapping_add(a)),
        (0b0010011, d.wrapping_sub(a)),
        (0b0000111, a.wrapping_sub(d)),
        (0b0000000, d & a),
        (0b0010101, d | a),
        (0b1110000, m),
        (0b1110001, !m),
        (0b1110011, m.wrapping_neg()),
        (0b1110111, m.wrapping_add(1)),
        (0b1110010, m.wrapping_sub(1)),
        (0b1000010, d.wrapping_add(m)),
        (0b1010011, d.wrapping_sub(m)),
        (0b1000111, m.wrapping_sub(d)),
        (0b1000000, d & m),
        (0b1010101, d | m),
    ];
    for (comp, value) in expected {
        assert_eq!(alu(comp, d, a, m).unwrap(), value, "{:07b}", comp);
    }
}

#[test]
fn alu_negation_and_differences_wrap() {
    assert_eq!(alu(0b0001111, 0, 0, 0).unwrap(), 0);
    assert_eq!(alu(0b0001111, 1, 0, 0).unwrap(), 0xFFFF);
    assert_eq!(alu(0b0001111, 0x8000, 0, 0).unwrap(), 0x8000);
    assert_eq!(alu(0b0010011, 3, 5, 0).unwrap(), 0xFFFE);
    assert_eq!(alu(0b0000111, 3, 5, 0).unwrap(), 2);
    assert_eq!(alu(0b0000010, 0xFFFF, 2, 0).unwrap(), 1);
}

#[test]
fn alu_knows_exactly_the_codes_of_the_table() {
    let table: [u16; 28] = [
        0b0101010, 0b0111111, 0b0111010, 0b0001100, 0b0110000, 0b0001101, 0b0110001, 0b0001111,
        0b0110011, 0b0011111, 0b0110111, 0b0001110, 0b0110010, 0b0000010, 0b0010011, 0b0000111,
        0b0000000, 0b0010101, 0b1110000, 0b1110001, 0b1110011, 0b1110111, 0b1110010, 0b1000010,
        0b1010011, 0b1000111, 0b1000000, 0b1010101,
    ];
    for comp in 0u16..128 {
        let result = alu(comp, 1, 2, 3);
        if table.contains(&comp) {
            assert!(result.is_ok(), "{:07b}", comp);
        } else {
            assert!(matches!(result, Err(Error::InvalidCInstructionComp(0))), "{:07b}", comp);
        }
    }
}

#[test]
fn alu_compute_names_the_program_counter() {
    let cpu = Cpu { reg_d: 5, reg_a: 0, pc: 77 };
    assert_eq!(cpu.alu_compute(0b0011111, 0).unwrap(), 6);
    assert_eq!(cpu.alu_compute(0b1110000, 9).unwrap(), 9);
    assert!(matches!(cpu.alu_compute(0b1111111, 0), Err(Error::InvalidCInstructionComp(77))));
    let cpu = Cpu { reg_d: 5, reg_a: 0, pc: 0 };
    assert!(matches!(cpu.alu_compute(0b0000001, 0), Err(Error::InvalidCInstructionComp(0))));
}

#[test]
fn bad_padding_fails_before_any_register_changes() {
    let memory = Memory::new();
    for padding in [0b00u16, 0b01, 0b10] {
        let word = 0x8000 | padding << 13 | 0b0111111 << 6 | 0b110 << 3 | 0b111;
        let mut cpu = Cpu { reg_d: 1, reg_a: 2, pc: 3 };
        assert!(matches!(
            cpu.execute(word, &memory),
            Err(Error::InvalidCInstructionPadding(3))
        ));
        assert_eq!((cpu.reg_d, cpu.reg_a, cpu.pc), (1, 2, 3));
    }
    let mut cpu = Cpu { reg_d: 1, reg_a: 2, pc: 3 };
    assert!(matches!(
        cpu.execute_c_instruction(0b1010_1111_1111_0111, &memory),
        Err(Error::InvalidCInstructionPadding(3))
    ));
    assert_eq!((cpu.reg_d, cpu.reg_a, cpu.pc), (1, 2, 3));
}

#[test]
fn invalid_computation_fails_before_any_register_changes() {
    let memory = Memory::new();
    let mut cpu = Cpu { reg_d: 1, reg_a: 2, pc: 3 };
    assert!(matches!(
        cpu.execute(compute(0b0000001, 0b111, 0b111), &memory),
        Err(Error::InvalidCInstructionComp(3))
    ));
    assert_eq!((cpu.reg_d, cpu.reg_a, cpu.pc), (1, 2, 3));
}

#[test]
fn memory_operand_out_of_range_fails_before_any_register_changes() {
    let memory = Memory::new();
    let mut cpu = Cpu { reg_d: 1, reg_a: 0x6001, pc: 3 };
    assert!(matches!(
        cpu.execute(compute(0b1110000, 0b010, 0), &memory),
        Err(Error::InvalidMemoryAddress(0x6001))
    ));
    assert_eq!((cpu.reg_d, cpu.reg_a, cpu.pc), (1, 0x6001, 3));
    assert!(cpu.execute(compute(0b0110000, 0b010, 0), &memory).is_ok());
    assert_eq!((cpu.reg_d, cpu.reg_a, cpu.pc), (0x6001, 0x6001, 4));
}

#[test]
fn destinations_receive_the_same_result() {
    let memory = Memory::new();
    for dest in 0u16..8 {
        let mut cpu = Cpu { reg_d: 10, reg_a: 20, pc: 0 };
        let output = cpu.execute(compute(0b0000010, dest, 0), &memory).unwrap();
        assert_eq!(output.alu_out, 30);
        assert_eq!(output.memory_address, 20);
        assert_eq!(output.write_to_ram, dest & 1 != 0);
        assert_eq!(cpu.reg_d, if dest & 2 != 0 { 30 } else { 10 });
        assert_eq!(cpu.reg_a, if dest & 4 != 0 { 30 } else { 20 });
        assert_eq!(cpu.pc, 1);
    }
}

#[test]
fn jump_conditions() {
    let memory = Memory::new();
    let cases: [(u16, bool, bool, bool); 8] = [
        (0, false, false, false),
        (1, true, false, false),
        (2, false, true, false),
        (3, true, true, false),
        (4, false, false, true),
        (5, true, false, true),
        (6, false, true, true),
        (7, true, true, true),
    ];
    for (jump, on_positive, on_zero, on_negative) in cases {
        for (d, taken) in [
            (1u16, on_positive),
            (0x7FFF, on_positive),
            (0, on_zero),
            (0x8000, on_negative),
            (0xFFFF, on_negative),
        ] {
            let mut cpu = Cpu { reg_d: d, reg_a: 100, pc: 7 };
            cpu.execute(compute(0b0001100, 0, jump), &memory).unwrap();
            assert_eq!(cpu.pc, if taken { 100 } else { 8 }, "jump {} on {}", jump, d);
        }
    }
}

#[test]
fn jeq_on_zero_and_jlt_on_negative_jump_and_jle_on_positive_does_not() {
    let memory = Memory::new();
    let mut cpu = Cpu { reg_d: 0, reg_a: 42, pc: 1 };
    cpu.execute(compute(0b0001100, 0, 0b010), &memory).unwrap();
    assert_eq!(cpu.pc, 42);
    let mut cpu = Cpu { reg_d: 0x8001, reg_a: 42, pc: 1 };
    cpu.execute(compute(0b0001100, 0, 0b100), &memory).unwrap();
    assert_eq!(cpu.pc, 42);
    let mut cpu = Cpu { reg_d: 5, reg_a: 42, pc: 1 };
    cpu.execute(compute(0b0001100, 0, 0b110), &memory).unwrap();
    assert_eq!(cpu.pc, 2);
}

#[test]
fn jump_goes_to_the_a_register_as_just_written() {
    let memory = Memory::new();
    let mut cpu = Cpu { reg_d: 300, reg_a: 42, pc: 1 };
    let output = cpu.execute(compute(0b0001100, 0b101, 0b111), &memory).unwrap();
    assert_eq!(cpu.reg_a, 300);
    assert_eq!(cpu.pc, 300);
    assert_eq!(output.memory_address, 42);
    assert!(output.write_to_ram);
}

#[test]
fn screen_draws_sixteen_pixels_for_a_word() {
    let mut screen = Screen::new();
    assert_eq!(screen.frame().len(), Screen::FRAME_SIZE);
    assert!(screen.frame().iter().all(|byte| *byte == 0));
    screen.write(0x4001, 0b1000_0000_0000_0101).unwrap();
    let frame = screen.frame();
    for byte in 0..Screen::FRAME_SIZE {
        let expected = if (64..128).contains(&byte) {
            let pixel = (byte - 64) / 4;
            if byte % 4 == 3 || [0, 2, 15].contains(&pixel) {
                0xFF
            } else {
                0
            }
        } else {
            0
        };
        assert_eq!(frame[byte], expected, "byte {}", byte);
    }
}

#[test]
fn screen_draws_the_first_and_the_last_word() {
    let mut screen = Screen::new();
    screen.write(0x4000, 0xFFFF).unwrap();
    screen.write(0x5FFF, 0x0001).unwrap();
    assert!(screen.frame()[..64].iter().all(|byte| *byte == 0xFF));
    assert_eq!(screen.frame()[64], 0);
    let last = Screen::FRAME_SIZE - 64;
    assert_eq!(&screen.frame()[last..last + 8], &[0xFF, 0xFF, 0xFF, 0xFF, 0, 0, 0, 0xFF]);
    screen.write(0x4000, 0).unwrap();
    assert_eq!(&screen.frame()[..8], &[0, 0, 0, 0xFF, 0, 0, 0, 0xFF]);
}

#[test]
fn keyboard_table() {
    let keyboard = Keyboard::default();
    assert_eq!(keyboard.reg, 0);
    assert_eq!(keyboard.key_map.len(), 54);
    assert_eq!(keyboard.keycode_from_winit(1), 140);
    assert_eq!(keyboard.keycode_from_winit(2), '1' as u16);
    assert_eq!(keyboard.keycode_from_winit(11), '0' as u16);
    assert_eq!(keyboard.keycode_from_winit(14), 129);
    assert_eq!(keyboard.keycode_from_winit(16), 'q' as u16);
    assert_eq!(keyboard.keycode_from_winit(28), 128);
    assert_eq!(keyboard.keycode_from_winit(30), 'a' as u16);
    assert_eq!(keyboard.keycode_from_winit(43), '\\' as u16);
    assert_eq!(keyboard.keycode_from_winit(53), '/' as u16);
    assert_eq!(keyboard.keycode_from_winit(57416), 131);
    assert_eq!(keyboard.keycode_from_winit(57419), 130);
    assert_eq!(keyboard.keycode_from_winit(57421), 132);
    assert_eq!(keyboard.keycode_from_winit(57424), 133);
    for unknown in [0u32, 15, 29, 42, 54, 57, 57415, u32::MAX] {
        assert_eq!(keyboard.keycode_from_winit(unknown), 0);
    }
}

#[test]
fn keyboard_letters_are_ascii() {
    let keyboard = Keyboard::default();
    let rows: [(u32, &str); 4] =
        [(2, "1234567890-="), (16, "qwertyuiop[]"), (30, "asdfghjkl;'`"), (44, "zxcvbnm,./")];
    for (first, keys) in rows {
        for (offset, key) in keys.chars().enumerate() {
            assert_eq!(keyboard.keycode_from_winit(first + offset as u32), key as u16);
        }
    }
}

#[test]
fn sum_program_leaves_five_at_address_zero() {
    let mut assembler = Assembler::new(OutputFormat::Binary, false);
    let source: Vec<String> =
        "@2\nD=A\n@3\nD=D+A\n@0\nM=D".split('\n').map(|line| line.to_string()).collect();
    let instructions = assembler.preprocess(&source).unwrap();
    let mut image = Vec::new();
    assembler.assemble(&instructions, &mut image).unwrap();

    let mut emulator = Emulator::new(Rom::from_bytes(&image).unwrap());
    assert_eq!(emulator.cpu.pc, 0);
    for _ in 0..6 {
        emulator.tick().unwrap();
    }
    assert_eq!(emulator.memory.fetch(0).unwrap(), 5);
    assert_eq!(emulator.cpu.reg_d, 5);
    assert_eq!(emulator.cpu.reg_a, 0);
    assert_eq!(emulator.cpu.pc, 6);
    for address in 1..Memory::TOTAL_SIZE {
        assert_eq!(emulator.memory.fetch(address).unwrap(), 0);
    }
}

#[test]
fn tick_writes_to_memory_and_screen() {
    // A = SCREEN + 1; M = -1
    let mut emulator = Emulator::new(rom_of(&[0x4001, compute(0b0111010, 0b001, 0)]));
    emulator.tick().unwrap();
    emulator.tick().unwrap();
    assert_eq!(emulator.memory.fetch(0x4001).unwrap(), 0xFFFF);
    assert!(emulator.screen.frame()[64..128].iter().all(|byte| *byte == 0xFF));
    assert_eq!(emulator.screen.frame()[63], 0);
    assert_eq!(emulator.screen.frame()[128], 0);
}

#[test]
fn tick_does_not_draw_writes_outside_the_screen() {
    // A = KBD; M = -1, then A = 16383; M = -1
    let store = compute(0b0111010, 0b001, 0);
    let mut emulator = Emulator::new(rom_of(&[0x6000, store, 0x3FFF, store]));
    for _ in 0..4 {
        emulator.tick().unwrap();
    }
    assert_eq!(emulator.memory.fetch(0x6000).unwrap(), 0xFFFF);
    assert_eq!(emulator.memory.fetch(0x3FFF).unwrap(), 0xFFFF);
    assert!(emulator.screen.frame().iter().all(|byte| *byte == 0));
}

#[test]
fn tick_fails_on_a_write_outside_the_memory() {
    // A = 0x6001; M = 1
    let mut emulator = Emulator::new(rom_of(&[0x6001, compute(0b0111111, 0b011, 0)]));
    emulator.tick().unwrap();
    assert!(matches!(emulator.tick(), Err(Error::InvalidMemoryAddress(0x6001))));
    assert_eq!(emulator.cpu.reg_d, 1);
    assert_eq!(emulator.cpu.pc, 2);
}

#[test]
fn tick_fails_on_a_corrupt_image_and_changes_nothing() {
    let mut emulator = Emulator::new(rom_of(&[5, 0b1010_1111_1101_0111]));
    emulator.tick().unwrap();
    assert!(matches!(emulator.tick(), Err(Error::InvalidCInstructionPadding(1))));
    assert_eq!((emulator.cpu.reg_d, emulator.cpu.reg_a, emulator.cpu.pc), (0, 5, 1));
    assert!(matches!(emulator.tick(), Err(Error::InvalidCInstructionPadding(1))));
}

#[test]
fn tick_fails_past_the_end_of_the_rom() {
    let mut emulator = Emulator::new(rom_of(&[]));
    emulator.cpu.pc = 32767;
    emulator.tick().unwrap();
    assert_eq!(emulator.cpu.pc, 32768);
    assert!(matches!(emulator.tick(), Err(Error::InvalidROMAddress(32768))));
    assert_eq!(emulator.cpu.pc, 32768);
}

#[test]
fn counting_loop_runs() {
    let mut assembler = Assembler::new(OutputFormat::Binary, false);
    let source: Vec<String> = "@10\nD=A\n@n\nM=D\n(LOOP)\n@n\nMD=M-1\n@LOOP\nD;JGT\n@sum\nM=-1\n(END)\n@END\n0;JMP"
        .split('\n')
        .map(|line| line.to_string())
        .collect();
    let instructions = assembler.preprocess(&source).unwrap();
    let mut image = Vec::new();
    assembler.assemble(&instructions, &mut image).unwrap();
    let mut emulator = Emulator::new(Rom::from_bytes(&image).unwrap());
    for _ in 0..200 {
        emulator.tick().unwrap();
    }
    assert_eq!(emulator.memory.fetch(16).unwrap(), 0);
    assert_eq!(emulator.memory.fetch(17).unwrap(), 0xFFFF);
    assert_eq!(emulator.cpu.reg_a, 10);
}

#[test]
fn keys_reach_the_keyboard_register() {
    let mut emulator = Emulator::new(rom_of(&[]));
    emulator.handle_key(false, 30);
    assert_eq!(emulator.memory.fetch(0x6000).unwrap(), 'a' as u16);
    emulator.handle_key(false, 57416);
    assert_eq!(emulator.memory.fetch(0x6000).unwrap(), 131);
    emulator.handle_key(true, 57416);
    assert_eq!(emulator.memory.fetch(0x6000).unwrap(), 0);
    emulator.handle_key(false, 28);
    emulator.handle_key(false, 99);
    assert_eq!(emulator.memory.fetch(0x6000).unwrap(), 0);
}

#[test]
fn program_reads_the_keyboard() {
    // A = KBD; D = M
    let mut emulator = Emulator::new(rom_of(&[0x6000, compute(0b1110000, 0b010, 0)]));
    emulator.handle_key(false, 57);
    emulator.handle_key(false, 44);
    emulator.tick().unwrap();
    emulator.tick().unwrap();
    assert_eq!(emulator.cpu.reg_d, 'z' as u16);
}

#[test]
fn emulator_error_messages() {
    assert_eq!(Error::RomError("ROM too large".to_string()).message(), "ROM Error: ROM too large");
    assert_eq!(Error::InvalidMemoryAddress(0x6001).message(), "Invalid Memory Address: 6001");
    assert_eq!(Error::InvalidROMAddress(0x8000).message(), "Invalid ROM Address: 8000");
    assert_eq!(
        Error::InvalidCInstructionPadding(0x2A).message(),
        "Invalid C Instruction Padding, should be 111, at PC: 002A"
    );
    assert_eq!(
        Error::InvalidCInstructionComp(0).message(),
        "Invalid C Instruction Computation, at PC: 0000"
    );
    assert_eq!(Error::InvalidMemoryAddress(0x12345).message(), "Invalid Memory Address: 12345");
}
