//! The CPU: two 16-bit registers, a program counter, and the cycle that
//! decodes and executes one instruction.

use crate::emulator::error::Error;
use crate::emulator::memory::Memory;
use crate::instruction::{
    address_of, comp_of, dest_of, has_compute_padding, is_address_word, jump_of, selects_memory,
    COMP_A, COMP_A_MINUS_D, COMP_D, COMP_DEC_A, COMP_DEC_D, COMP_DEC_M, COMP_D_AND_A,
    COMP_D_AND_M, COMP_D_MINUS_A, COMP_D_MINUS_M, COMP_D_OR_A, COMP_D_OR_M, COMP_D_PLUS_A,
    COMP_D_PLUS_M, COMP_INC_A, COMP_INC_D, COMP_INC_M, COMP_M, COMP_MINUS_ONE, COMP_M_MINUS_D,
    COMP_NEG_A, COMP_NEG_D, COMP_NEG_M, COMP_NOT_A, COMP_NOT_D, COMP_NOT_M, COMP_ONE, COMP_ZERO,
    DEST_A, DEST_D, DEST_M, JUMP_IF_NEGATIVE, JUMP_IF_POSITIVE, JUMP_IF_ZERO,
};
use vstd::prelude::*;

verus! {

/// The state of the CPU. The registers hold raw bit patterns; the program
/// counter addresses the ROM.
pub struct Cpu {
    /// The data register.
    pub reg_d: u16,
    /// The address register.
    pub reg_a: u16,
    /// The address of the next instruction.
    pub pc: usize,
}

/// What one executed instruction asks of its caller: whether to write
/// `alu_out` to the memory cell at `memory_address`. The CPU itself never
/// writes to memory.
pub struct CpuOutput {
    pub write_to_ram: bool,
    pub alu_out: u16,
    pub memory_address: usize,
}

/// `n` reduced to 16 bits, as two's-complement hardware does.
pub open spec fn wrap(n: int) -> u16 {
    (n % 0x10000) as u16
}

/// The result of the ALU for the 7-bit computation code `comp`, the D
/// register `d` and the operand `x` (the A register, or the memory cell at
/// A, as the top bit of `comp` selects); `None` for a code outside the table.
/// Sums, differences and negations wrap around at 16 bits.
pub open spec fn alu(comp: u16, d: u16, x: u16) -> Option<u16> {
    if comp == COMP_ZERO {
        Some(0u16)
    } else if comp == COMP_ONE {
        Some(1u16)
    } else if comp == COMP_MINUS_ONE {
        Some(0xFFFFu16)
    } else if comp == COMP_D {
        Some(d)
    } else if comp == COMP_A || comp == COMP_M {
        Some(x)
    } else if comp == COMP_NOT_D {
        Some(!d)
    } else if comp == COMP_NOT_A || comp == COMP_NOT_M {
        Some(!x)
    } else if comp == COMP_NEG_D {
        Some(wrap(-d))
    } else if comp == COMP_NEG_A || comp == COMP_NEG_M {
        Some(wrap(-x))
    } else if comp == COMP_INC_D {
        Some(wrap(d + 1))
    } else if comp == COMP_INC_A || comp == COMP_INC_M {
        Some(wrap(x + 1))
    } else if comp == COMP_DEC_D {
        Some(wrap(d - 1))
    } else if comp == COMP_DEC_A || comp == COMP_DEC_M {
        Some(wrap(x - 1))
    } else if comp == COMP_D_PLUS_A || comp == COMP_D_PLUS_M {
        Some(wrap(d + x))
    } else if comp == COMP_D_MINUS_A || comp == COMP_D_MINUS_M {
        Some(wrap(d - x))
    } else if comp == COMP_A_MINUS_D || comp == COMP_M_MINUS_D {
        Some(wrap(x - d))
    } else if comp == COMP_D_AND_A || comp == COMP_D_AND_M {
        Some(d & x)
    } else if comp == COMP_D_OR_A || comp == COMP_D_OR_M {
        Some(d | x)
    } else {
        None
    }
}

/// Whether `value`, read as a two's-complement number, is negative: its bit
/// 15 is set.
pub open spec fn is_negative(value: u16) -> bool {
    value >= 0x8000
}

/// Whether the jump condition `jump` holds of the ALU result `out`: the
/// result is positive and bit 0 of `jump` is set, or it is zero and bit 1 is
/// set, or it is negative and bit 2 is set.
pub open spec fn jump_taken(jump: u16, out: u16) -> bool {
    ||| jump & JUMP_IF_POSITIVE != 0 && !is_negative(out) && out != 0
    ||| jump & JUMP_IF_ZERO != 0 && out == 0
    ||| jump & JUMP_IF_NEGATIVE != 0 && is_negative(out)
}

/// The state after an address instruction, and what it hands to the caller.
pub open spec fn address_step(cpu: Cpu, instruction: u16) -> (Cpu, CpuOutput) {
    (
        Cpu { reg_d: cpu.reg_d, reg_a: address_of(instruction), pc: (cpu.pc + 1) as usize },
        CpuOutput { write_to_ram: false, alu_out: 0, memory_address: 0 },
    )
}

/// The state after a compute instruction whose ALU result is `out`, and what
/// it hands to the caller. D and A both receive the same `out`; a jump goes
/// to the A register as it is after this instruction wrote it; the memory
/// address is the A register as it was before.
pub open spec fn compute_step(cpu: Cpu, instruction: u16, out: u16) -> (Cpu, CpuOutput) {
    let dest = dest_of(instruction);
    let reg_d = if dest & DEST_D != 0 {
        out
    } else {
        cpu.reg_d
    };
    let reg_a = if dest & DEST_A != 0 {
        out
    } else {
        cpu.reg_a
    };
    let pc = if jump_taken(jump_of(instruction), out) {
        reg_a as usize
    } else {
        (cpu.pc + 1) as usize
    };
    (
        Cpu { reg_d, reg_a, pc },
        CpuOutput {
            write_to_ram: dest & DEST_M != 0,
            alu_out: out,
            memory_address: cpu.reg_a as usize,
        },
    )
}

/// One cycle on a compute instruction: the new state and the output, or the
/// error that ends the run. The padding is checked first, then the operand
/// is read, then the computation code is looked up; all of that happens
/// before any register changes.
pub open spec fn execute_compute(cpu: Cpu, instruction: u16, memory: Seq<u16>) -> Result<
    (Cpu, CpuOutput),
    Error,
> {
    if !has_compute_padding(instruction) {
        Err(Error::InvalidCInstructionPadding(cpu.pc))
    } else if selects_memory(instruction) && cpu.reg_a >= memory.len() {
        Err(Error::InvalidMemoryAddress(cpu.reg_a as usize))
    } else {
        let x = if selects_memory(instruction) {
            memory[cpu.reg_a as int]
        } else {
            cpu.reg_a
        };
        match alu(comp_of(instruction), cpu.reg_d, x) {
            None => Err(Error::InvalidCInstructionComp(cpu.pc)),
            Some(out) => Ok(compute_step(cpu, instruction, out)),
        }
    }
}

/// One cycle: the new state and the output, or the error that ends the run.
pub open spec fn execute_instruction(cpu: Cpu, instruction: u16, memory: Seq<u16>) -> Result<
    (Cpu, CpuOutput),
    Error,
> {
    if is_address_word(instruction) {
        Ok(address_step(cpu, instruction))
    } else {
        execute_compute(cpu, instruction, memory)
    }
}

/// What a call that ran one cycle must have returned and left behind: on
/// success the output and the new state, on failure the error and the state
/// as it was.
pub open spec fn cycle_outcome(
    expected: Result<(Cpu, CpuOutput), Error>,
    before: Cpu,
    after: Cpu,
    returned: Result<CpuOutput, Error>,
) -> bool {
    match expected {
        Ok((cpu, output)) => returned == Ok::<CpuOutput, Error>(output) && after == cpu,
        Err(error) => returned == Err::<CpuOutput, Error>(error) && after == before,
    }
}

impl Cpu {
    /// A CPU with both registers and the program counter at zero.
    pub fn new() -> (r: Self)
        ensures
            r == (Cpu { reg_d: 0, reg_a: 0, pc: 0 }),
    {
        Self { reg_d: 0, reg_a: 0, pc: 0 }
    }

    /// Moves the program counter to the next instruction; it must not
    /// stand at the largest value that it can hold.
    pub fn increment_pc(&mut self)
        requires
            old(self).pc < usize::MAX,
        ensures
            *final(self) == (Cpu { pc: (old(self).pc + 1) as usize, ..*old(self) }),
    {
        self.pc += 1;
    }

    /// Moves the program counter back to the first instruction.
    pub fn reset_pc(&mut self)
        ensures
            *final(self) == (Cpu { pc: 0, ..*old(self) }),
    {
        self.pc = 0;
    }

    /// Decodes and executes one instruction. `memory` is only read: a write
    /// is handed back in the output for the caller to apply. On an error no
    /// register and no program counter has changed. The program counter
    /// must not stand at the largest value that it can hold.
    pub fn execute(&mut self, instruction: u16, memory: &Memory) -> (r: Result<CpuOutput, Error>)
        requires
            old(self).pc < usize::MAX,
        ensures
            cycle_outcome(
                execute_instruction(*old(self), instruction, memory@),
                *old(self),
                *final(self),
                r,
            ),
    {
        let first_bit = instruction >> 15;

        if first_bit == 0 {
            self.execute_a_instruction(instruction)
        } else {
            self.execute_c_instruction(instruction, memory)
        }
    }

    /// Executes an address instruction: loads its 15-bit address into A and
    /// moves on.
    pub fn execute_a_instruction(&mut self, instruction: u16) -> (r: Result<CpuOutput, Error>)
        requires
            old(self).pc < usize::MAX,
        ensures
            r == Ok::<CpuOutput, Error>(address_step(*old(self), instruction).1),
            *final(self) == address_step(*old(self), instruction).0,
    {
        let address = instruction & 0x7FFF;
        self.reg_a = address;
        self.increment_pc();
        Ok(CpuOutput { write_to_ram: false, alu_out: 0, memory_address: 0 })
    }

    /// Executes a compute instruction: checks the padding, reads the
    /// operand, computes, writes the registers that the destination mask
    /// names, and jumps or moves on.
    pub fn execute_c_instruction(&mut self, instruction: u16, memory: &Memory) -> (r: Result<
        CpuOutput,
        Error,
    >)
        requires
            old(self).pc < usize::MAX,
        ensures
            cycle_outcome(
                execute_compute(*old(self), instruction, memory@),
                *old(self),
                *final(self),
                r,
            ),
    {
        if instruction >> 13 != 0b111 {
            return Err(Error::InvalidCInstructionPadding(self.pc));
        }
        let a = (instruction >> 12) & 0b1;
        let comp = (instruction >> 6) & 0b1111111;
        let dest = (instruction >> 3) & 0b111;
        let jump = instruction & 0b111;

        let a_value = if a == 0 {
            self.reg_a
        } else {
            match memory.fetch(self.reg_a as usize) {
                Ok(value) => value,
                Err(error) => {
                    return Err(error);
                },
            }
        };

        let alu_out = match self.alu_compute(comp, a_value) {
            Ok(value) => value,
            Err(error) => {
                return Err(error);
            },
        };
        let memory_address = self.reg_a as usize;

        let write_to_ram = dest & 0b001 != 0;
        let write_to_d = dest & 0b010 != 0;
        let write_to_a = dest & 0b100 != 0;

        if write_to_d {
            self.reg_d = alu_out;
        }
        if write_to_a {
            self.reg_a = alu_out;
        }
        let ng = (alu_out >> 15) & 0b1 != 0;
        let zr = alu_out == 0;
        assert(((alu_out >> 15) & 0b1 != 0) == (alu_out >= 0x8000)) by (bit_vector);

        if (jump & 0b001 != 0 && !ng && !zr) || (jump & 0b010 != 0 && zr) || (jump & 0b100 != 0
            && ng) {
            self.pc = self.reg_a as usize;
        } else {
            self.increment_pc();
        }

        Ok(CpuOutput { write_to_ram, alu_out, memory_address })
    }

    /// The ALU: the result for the 7-bit computation code `comp` on the D
    /// register and the operand `a_value`; fails on a code outside the
    /// table, naming the current program counter.
    pub fn alu_compute(&self, comp: u16, a_value: u16) -> (r: Result<u16, Error>)
        ensures
            match alu(comp, self.reg_d, a_value) {
                Some(value) => r == Ok::<u16, Error>(value),
                None => r == Err::<u16, Error>(Error::InvalidCInstructionComp(self.pc)),
            },
    {
        let d = self.reg_d;
        let x = a_value;
        proof {
            lemma_wrapping_forms(d, x);
        }
        if comp == COMP_ZERO {
            Ok(0)
        } else if comp == COMP_ONE {
            Ok(1)
        } else if comp == COMP_MINUS_ONE {
            Ok(0xFFFF)
        } else if comp == COMP_D {
            Ok(d)
        } else if comp == COMP_A || comp == COMP_M {
            Ok(x)
        } else if comp == COMP_NOT_D {
            Ok(!d)
        } else if comp == COMP_NOT_A || comp == COMP_NOT_M {
            Ok(!x)
        } else if comp == COMP_NEG_D {
            Ok(!(d.wrapping_add(0xFFFF)))
        } else if comp == COMP_NEG_A || comp == COMP_NEG_M {
            Ok(!(x.wrapping_add(0xFFFF)))
        } else if comp == COMP_INC_D {
            Ok(d.wrapping_add(1))
        } else if comp == COMP_INC_A || comp == COMP_INC_M {
            Ok(x.wrapping_add(1))
        } else if comp == COMP_DEC_D {
            Ok(d.wrapping_add(0xFFFF))
        } else if comp == COMP_DEC_A || comp == COMP_DEC_M {
            Ok(x.wrapping_add(0xFFFF))
        } else if comp == COMP_D_PLUS_A || comp == COMP_D_PLUS_M {
            Ok(d.wrapping_add(x))
        } else if comp == COMP_D_MINUS_A || comp == COMP_D_MINUS_M {
            Ok(!((!d).wrapping_add(x)))
        } else if comp == COMP_A_MINUS_D || comp == COMP_M_MINUS_D {
            Ok(!(d.wrapping_add(!x)))
        } else if comp == COMP_D_AND_A || comp == COMP_D_AND_M {
            Ok(d & x)
        } else if comp == COMP_D_OR_A || comp == COMP_D_OR_M {
            Ok(d | x)
        } else {
            Err(Error::InvalidCInstructionComp(self.pc))
        }
    }
}

/// The bitwise complement of a 16-bit value is its distance from 0xFFFF.
pub proof fn lemma_not_is_complement(v: u16)
    ensures
        !v == 0xFFFF - v,
{
    assert(!v == 0xFFFF - v) by (bit_vector);
}

/// The forms in which the ALU computes with wrapping additions and
/// complements give the wrapped negation, increment, decrement, sum and
/// differences.
pub proof fn lemma_wrapping_forms(d: u16, x: u16)
    ensures
        !(d.wrapping_add(0xFFFF)) == wrap(-d),
        d.wrapping_add(1) == wrap(d + 1),
        d.wrapping_add(0xFFFF) == wrap(d - 1),
        d.wrapping_add(x) == wrap(d + x),
        !((!d).wrapping_add(x)) == wrap(d - x),
        !(d.wrapping_add(!x)) == wrap(x - d),
        !(x.wrapping_add(0xFFFF)) == wrap(-x),
        x.wrapping_add(1) == wrap(x + 1),
        x.wrapping_add(0xFFFF) == wrap(x - 1),
{
    lemma_not_is_complement(d);
    lemma_not_is_complement(x);
    lemma_not_is_complement(d.wrapping_add(0xFFFF));
    lemma_not_is_complement(x.wrapping_add(0xFFFF));
    lemma_not_is_complement((!d).wrapping_add(x));
    lemma_not_is_complement(d.wrapping_add(!x));
}

} // verus!
