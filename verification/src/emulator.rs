//! The emulator: ROM, memory with its memory-mapped screen and keyboard
//! register, and the CPU that runs one instruction per tick.

pub mod cpu;
pub mod error;
pub mod keyboard;
pub mod memory;
pub mod rom;
pub mod screen;

pub use cpu::{Cpu, CpuOutput};
pub use error::Error;
pub use keyboard::Keyboard;
pub use memory::Memory;
pub use rom::Rom;
pub use screen::Screen;

use cpu::execute_instruction;
use memory::in_screen;
use screen::draw_word;
use vstd::prelude::*;

verus! {

/// The whole machine. Nothing but `tick` and `handle_key` changes it while
/// it runs.
pub struct Emulator {
    pub rom: Rom,
    pub memory: Memory,
    pub cpu: Cpu,
    pub screen: Screen,
    pub keyboard: Keyboard,
}

/// The parts of the machine that a tick can change.
pub struct MachineState {
    pub cpu: Cpu,
    pub memory: Seq<u16>,
    pub frame: Seq<u8>,
}

/// The machine after one tick on `state` with the program `rom`, and
/// whether the tick succeeded.
///
/// The instruction at the program counter is fetched and executed. A fetch
/// outside the ROM or a failed execution ends the tick with the state as it
/// was. After a successful execution the registers and the program counter
/// are updated; a pending write is then applied to the memory, and drawn on
/// the screen where its address lies in the screen bitmap. A pending write
/// outside the memory fails and leaves memory and screen as they were.
pub open spec fn tick_state(rom: Seq<u16>, state: MachineState) -> (MachineState, Result<
    (),
    Error,
>) {
    if state.cpu.pc >= rom.len() {
        (state, Err(Error::InvalidROMAddress(state.cpu.pc)))
    } else {
        match execute_instruction(state.cpu, rom[state.cpu.pc as int], state.memory) {
            Err(error) => (state, Err(error)),
            Ok((cpu, output)) => {
                if !output.write_to_ram {
                    (MachineState { cpu, ..state }, Ok(()))
                } else if output.memory_address >= state.memory.len() {
                    (
                        MachineState { cpu, ..state },
                        Err(Error::InvalidMemoryAddress(output.memory_address)),
                    )
                } else {
                    let memory = state.memory.update(
                        output.memory_address as int,
                        output.alu_out,
                    );
                    let frame = if in_screen(output.memory_address as int) {
                        draw_word(state.frame, output.memory_address as int, output.alu_out)
                    } else {
                        state.frame
                    };
                    (MachineState { cpu, memory, frame }, Ok(()))
                }
            },
        }
    }
}

impl Emulator {
    /// The parts of this machine that a tick can change.
    pub open spec fn state(&self) -> MachineState {
        MachineState { cpu: self.cpu, memory: self.memory@, frame: self.screen@ }
    }

    /// A machine with the program `rom`, zeroed memory and registers, a blank
    /// screen and the default keyboard.
    pub fn new(rom: Rom) -> (r: Self)
        ensures
            r.rom@ == rom@,
            r.cpu == (Cpu { reg_d: 0, reg_a: 0, pc: 0 }),
            r.memory@ == Seq::new(Memory::TOTAL_SIZE as nat, |i: int| 0u16),
            r.screen@ == Seq::new(Screen::FRAME_SIZE as nat, |i: int| 0u8),
            r.keyboard.reg == 0,
            r.keyboard.key_map@ == keyboard::default_key_map(),
    {
        Emulator {
            rom,
            memory: Memory::new(),
            cpu: Cpu::new(),
            screen: Screen::new(),
            keyboard: Keyboard::default(),
        }
    }

    /// Runs one instruction: fetches it, executes it, and applies its memory
    /// write, if it has one, to the memory and to the screen.
    pub fn tick(&mut self) -> (r: Result<(), Error>)
        ensures
            final(self).state() == tick_state(old(self).rom@, old(self).state()).0,
            r == tick_state(old(self).rom@, old(self).state()).1,
            final(self).rom@ == old(self).rom@,
            final(self).keyboard == old(self).keyboard,
    {
        proof {
            self.rom.lemma_len();
            self.screen.lemma_len();
        }
        let instruction = match self.rom.fetch(self.cpu.pc) {
            Ok(word) => word,
            Err(error) => {
                return Err(error);
            },
        };

        let cpu_output: CpuOutput = match self.cpu.execute(instruction, &self.memory) {
            Ok(output) => output,
            Err(error) => {
                return Err(error);
            },
        };

        if cpu_output.write_to_ram {
            match self.memory.store(cpu_output.memory_address, cpu_output.alu_out) {
                Ok(()) => {},
                Err(error) => {
                    return Err(error);
                },
            }
            if Memory::is_screen_address(cpu_output.memory_address) {
                match self.screen.write(cpu_output.memory_address, cpu_output.alu_out) {
                    Ok(()) => {},
                    Err(error) => {
                        return Err(error);
                    },
                }
            }
        }
        Ok(())
    }

    /// Takes note of a key of the physical keyboard: a released key clears
    /// the keyboard register, a pressed key puts its key code there, or 0
    /// where the scancode is unknown. The most recent event wins.
    pub fn handle_key(&mut self, released: bool, scancode: u32)
        ensures
            final(self).memory@ == old(self).memory@.update(
                Memory::KEYBOARD_REG_OFFSET as int,
                if released || !old(self).keyboard.key_map@.contains_key(scancode) {
                    0u16
                } else {
                    old(self).keyboard.key_map@[scancode]
                },
            ),
            final(self).rom@ == old(self).rom@,
            final(self).cpu == old(self).cpu,
            final(self).screen@ == old(self).screen@,
            final(self).keyboard == old(self).keyboard,
    {
        if released {
            self.memory.set_keyboard_reg(0);
        } else {
            let keycode = self.keyboard.keycode_from_winit(scancode);
            self.memory.set_keyboard_reg(keycode);
        }
    }
}

} // verus!
