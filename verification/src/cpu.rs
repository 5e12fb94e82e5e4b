//! The executable CPU: registers, status flags, memory, stack and the
//! per-instruction semantics, with the fetch-decode-execute loop.
//!
//! Every method's contract is stated over the ghost [`CpuModel`] view; the
//! exact effect of each instruction is the spec function of the same name in
//! `model` (for instance `lda` is specified by [`crate::model::lda_model`]).

use vstd::prelude::*;

verus! {

use crate::model::{CpuModel, MEMORY_SIZE, STACK_BASE, PROGRAM_BASE, RESET_VECTOR, byte_at,
    word_at, mem_with_byte, mem_with_word, flag_set, set_flag, bit7, with_zero_and_negative,
    resolvable, resolve, push_byte_model, push_word_model,
    pop_byte_value, pop_byte_model, pop_word_value, pop_word_model, overlay, load_model,
    reset_model, lda_model, ldx_model, ldy_model, sta_model, stx_model, sty_model, tax_model,
    tay_model, txa_model, tya_model, tsx_model, txs_model, and_model, ora_model, eor_model,
    add_with_carry_model, adc_model, sbc_model, compare_model, asl_model, lsr_model, rol_model,
    ror_model, inc_model, dec_model, inx_model, iny_model, dex_model, dey_model, bit_model,
    branch_model, jmp_model, jsr_model, rts_model, rti_model, pha_model, php_model, pla_model,
    plp_model, status_model, brk_model, StepResult, spec_step, instr_effect, take_steps,
    reaches, halts_to, lemma_take_steps_extend};
use crate::opcode::{Instruction, get_opcode_with_code};

pub const CARRY_FLAG: u8 = 0b0000_0001;
pub const ZERO_FLAG: u8 = 0b0000_0010;
pub const INTERRUPT_DISABLE_FLAG: u8 = 0b0000_0100;
pub const DECIMAL_FLAG: u8 = 0b0000_1000;
pub const BREAK_FLAG: u8 = 0b0001_0000;
pub const ALWAYS_1_FLAG: u8 = 0b0010_0000;
pub const OVERFLOW_FLAG: u8 = 0b0100_0000;
pub const NEGATIVE_FLAG: u8 = 0b1000_0000;

/// The rule by which an instruction's operand bytes are turned into an
/// effective memory address or register reference.
#[derive(Debug, Clone, Copy)]
pub enum AddressingMode {
    Immediate,
    ZeroPage,
    ZeroPageX,
    ZeroPageY,
    Absolute,
    AbsoluteY,
    AbsoluteX,
    IndirectX,
    IndirectY,
    Accumulator,
    Relative,
    Implied,
    Indirect,
    NoneAddressing,
}

/// How a call of `run` can fail; both faults are fatal and nothing is
/// retried or recovered.
#[derive(Debug, Clone, Copy, PartialEq, Eq)]
pub enum RunError {
    /// The opcode table has no entry for the fetched byte. Carries the
    /// offending byte and the address it was fetched from.
    UnknownOpcode { opcode: u8, address: u16 },
    /// The step budget ran out before the program halted. The budget is
    /// `RUN_STEP_LIMIT` full instructions, far beyond what any machine
    /// could execute; it exists because every loop here is proved to
    /// terminate.
    StepLimit,
}

/// The number of instructions one call of `run` will execute before giving
/// up on a program that never halts.
pub const RUN_STEP_LIMIT: u64 = 0xffff_ffff_ffff_ffff;

/// The machine state: three 8-bit registers, the status bitfield, the 16-bit
/// program counter, the 8-bit stack pointer, and the full 64 KiB memory.
pub struct CPU {
    pub accumulator: u8,
    pub register_x: u8,
    pub register_y: u8,
    pub status: u8,
    pub program_counter: u16,
    pub stack_pointer: u8,
    pub memory: Vec<u8>,
}

impl View for CPU {
    type V = CpuModel;

    open spec fn view(&self) -> CpuModel {
        CpuModel {
            accumulator: self.accumulator,
            register_x: self.register_x,
            register_y: self.register_y,
            status: self.status,
            program_counter: self.program_counter,
            stack_pointer: self.stack_pointer,
            memory: self.memory@,
        }
    }
}

impl CPU {
    /// The machine is well formed when its memory covers the full 64 KiB
    /// address space, so that every 16-bit address is in bounds.
    pub open spec fn wf(self) -> bool {
        self@.wf()
    }

    /// A powered-on machine: all registers and flags zero, memory cleared.
    pub fn new() -> (cpu: CPU)
        ensures
            cpu.wf(),
            cpu@ == CpuModel::initial(),
    {
        let mut memory: Vec<u8> = Vec::new();
        while memory.len() < MEMORY_SIZE
            invariant
                memory@.len() <= MEMORY_SIZE,
                forall|i: int| 0 <= i < memory@.len() ==> memory@[i] == 0u8,
            decreases MEMORY_SIZE - memory@.len(),
        {
            memory.push(0);
        }
        proof {
            assert(memory@ =~= Seq::new(MEMORY_SIZE as nat, |i: int| 0u8));
        }
        CPU {
            accumulator: 0x00,
            register_x: 0x00,
            register_y: 0x00,
            status: 0b0000_0000,
            program_counter: 0x0000,
            stack_pointer: 0x00,
            memory,
        }
    }

    /// The byte stored at an address.
    pub fn memory_read_byte(&self, address: u16) -> (value: u8)
        requires
            self.wf(),
        ensures
            value == byte_at(self@.memory, address),
    {
        self.memory[address as usize]
    }

    /// The little-endian word stored at an address: low byte there, high
    /// byte at the next address, wrapping at the top of the address space.
    pub fn memory_read_2_byte(&self, address: u16) -> (value: u16)
        requires
            self.wf(),
        ensures
            value == word_at(self@.memory, address),
    {
        let low = self.memory_read_byte(address) as u16;
        let hi = self.memory_read_byte(address.wrapping_add(1)) as u16;
        hi * 0x100 + low
    }

    /// Stores one byte at an address.
    pub fn memory_write_byte(&mut self, address: u16, data: u8)
        requires
            old(self).wf(),
        ensures
            final(self).wf(),
            final(self)@ == (CpuModel {
                memory: mem_with_byte(old(self)@.memory, address, data),
                ..old(self)@
            }),
    {
        self.memory[address as usize] = data;
    }

    /// Stores a little-endian word: low byte at the address, high byte at
    /// the next one, wrapping at the top of the address space.
    pub fn memory_write_2_byte(&mut self, address: u16, data: u16)
        requires
            old(self).wf(),
        ensures
            final(self).wf(),
            final(self)@ == (CpuModel {
                memory: mem_with_word(old(self)@.memory, address, data),
                ..old(self)@
            }),
    {
        let hi = (data / 0x100) as u8;
        let low = (data % 0x100) as u8;
        self.memory_write_byte(address, low);
        self.memory_write_byte(address.wrapping_add(1), hi);
    }

    // -----------------------------------------------------------------------
    // The stack.
    // -----------------------------------------------------------------------

    /// Writes a byte at the stack pointer's address and moves the pointer
    /// down, wrapping within the stack page.
    fn push_byte_to_stack(&mut self, data: u8)
        requires
            old(self).wf(),
        ensures
            final(self).wf(),
            final(self)@ == push_byte_model(old(self)@, data),
    {
        let address = STACK_BASE + self.stack_pointer as u16;
        self.memory_write_byte(address, data);
        self.stack_pointer = self.stack_pointer.wrapping_sub(1);
    }

    /// Pushes a 16-bit value: high byte first, then the low byte.
    fn push_2_byte_to_stack(&mut self, data: u16)
        requires
            old(self).wf(),
        ensures
            final(self).wf(),
            final(self)@ == push_word_model(old(self)@, data),
    {
        let hi = (data / 0x100) as u8;
        let low = (data % 0x100) as u8;
        self.push_byte_to_stack(hi);
        self.push_byte_to_stack(low);
    }

    /// Moves the stack pointer up, wrapping within the stack page, and reads
    /// the byte at its new address.
    fn pop_byte_from_stack(&mut self) -> (value: u8)
        requires
            old(self).wf(),
        ensures
            final(self).wf(),
            final(self)@ == pop_byte_model(old(self)@),
            value == pop_byte_value(old(self)@),
    {
        self.stack_pointer = self.stack_pointer.wrapping_add(1);
        self.memory_read_byte(STACK_BASE + self.stack_pointer as u16)
    }

    /// Pops a 16-bit value: low byte first, then the high byte.
    fn pop_2_byte_from_stack(&mut self) -> (value: u16)
        requires
            old(self).wf(),
        ensures
            final(self).wf(),
            final(self)@ == pop_word_model(old(self)@),
            value == pop_word_value(old(self)@),
    {
        let low = self.pop_byte_from_stack();
        let hi = self.pop_byte_from_stack();
        (hi as u16) * 0x100 + low as u16
    }

    // -----------------------------------------------------------------------
    // The status register: named accessors for the individual flag bits.
    // Each setter takes the isolated bit as 0 or 1, as the instruction
    // semantics compute it.
    // -----------------------------------------------------------------------

    fn set_zero_flag_to(&mut self, zero_bit: u8)
        ensures
            final(self)@ == (CpuModel {
                status: set_flag(old(self)@.status, ZERO_FLAG, zero_bit == 1),
                ..old(self)@
            }),
    {
        if zero_bit == 0x1 {
            self.status = self.status | ZERO_FLAG;
        } else {
            self.status = self.status & !ZERO_FLAG;
        }
    }

    fn set_carry_flag_to(&mut self, carry_bit: u8)
        ensures
            final(self)@ == (CpuModel {
                status: set_flag(old(self)@.status, CARRY_FLAG, carry_bit == 1),
                ..old(self)@
            }),
    {
        if carry_bit == 0x1 {
            self.status = self.status | CARRY_FLAG;
        } else {
            self.status = self.status & !CARRY_FLAG;
        }
    }

    fn set_overflow_flag_to(&mut self, isolated_overflow_bit: u8)
        ensures
            final(self)@ == (CpuModel {
                status: set_flag(old(self)@.status, OVERFLOW_FLAG, isolated_overflow_bit == 1),
                ..old(self)@
            }),
    {
        if isolated_overflow_bit == 0x1 {
            self.status = self.status | OVERFLOW_FLAG;
        } else {
            self.status = self.status & !OVERFLOW_FLAG;
        }
    }

    fn set_negative_flag_to(&mut self, negative_bit: u8)
        ensures
            final(self)@ == (CpuModel {
                status: set_flag(old(self)@.status, NEGATIVE_FLAG, negative_bit == 1),
                ..old(self)@
            }),
    {
        if negative_bit == 0x1 {
            self.status = self.status | NEGATIVE_FLAG;
        } else {
            self.status = self.status & !NEGATIVE_FLAG;
        }
    }

    fn set_brake_flag_to(&mut self, break_bit: u8)
        ensures
            final(self)@ == (CpuModel {
                status: set_flag(old(self)@.status, BREAK_FLAG, break_bit == 1),
                ..old(self)@
            }),
    {
        if break_bit == 1 {
            self.status = self.status | BREAK_FLAG;
        } else {
            self.status = self.status & !BREAK_FLAG;
        }
    }

    fn set_decimal_flag_to(&mut self, decimal_bit: u8)
        ensures
            final(self)@ == (CpuModel {
                status: set_flag(old(self)@.status, DECIMAL_FLAG, decimal_bit == 1),
                ..old(self)@
            }),
    {
        if decimal_bit == 1 {
            self.status = self.status | DECIMAL_FLAG;
        } else {
            self.status = self.status & !DECIMAL_FLAG;
        }
    }

    fn set_interrupt_disable_flag_to(&mut self, interrupt_disable_bit: u8)
        ensures
            final(self)@ == (CpuModel {
                status: set_flag(
                    old(self)@.status,
                    INTERRUPT_DISABLE_FLAG,
                    interrupt_disable_bit == 1,
                ),
                ..old(self)@
            }),
    {
        if interrupt_disable_bit == 1 {
            self.status = self.status | INTERRUPT_DISABLE_FLAG;
        } else {
            self.status = self.status & !INTERRUPT_DISABLE_FLAG;
        }
    }

    fn is_carry_flag_set(&self) -> (set: bool)
        ensures
            set == flag_set(self@.status, CARRY_FLAG),
    {
        self.status & CARRY_FLAG != 0
    }

    fn is_zero_flag_set(&self) -> (set: bool)
        ensures
            set == flag_set(self@.status, ZERO_FLAG),
    {
        self.status & ZERO_FLAG != 0
    }

    fn is_negative_flag_set(&self) -> (set: bool)
        ensures
            set == flag_set(self@.status, NEGATIVE_FLAG),
    {
        self.status & NEGATIVE_FLAG != 0
    }

    fn is_overflow_flag_set(&self) -> (set: bool)
        ensures
            set == flag_set(self@.status, OVERFLOW_FLAG),
    {
        self.status & OVERFLOW_FLAG != 0
    }

    /// Whether the most-significant (sign) bit of a byte is set.
    fn is_negativ_bit_present(&self, byte_to_check: u8) -> (present: bool)
        ensures
            present == bit7(byte_to_check),
    {
        byte_to_check & NEGATIVE_FLAG != 0
    }

    /// Whether the zero-flag bit is set in the given status byte.
    fn is_zero_flag_present(&self, byte_to_check: u8) -> (present: bool)
        ensures
            present == flag_set(byte_to_check, ZERO_FLAG),
    {
        byte_to_check & ZERO_FLAG != 0
    }

    /// The composite flag update every value-producing instruction performs:
    /// zero iff the byte is zero, negative iff its sign bit is set.
    fn update_zero_and_negative_flag(&mut self, byte_to_check: u8)
        ensures
            final(self)@ == (CpuModel {
                status: with_zero_and_negative(old(self)@.status, byte_to_check),
                ..old(self)@
            }),
    {
        let zero_bit: u8 = if byte_to_check == 0 {
            1
        } else {
            0
        };
        self.set_zero_flag_to(zero_bit);
        let negative_bit: u8 = if self.is_negativ_bit_present(byte_to_check) {
            1
        } else {
            0
        };
        self.set_negative_flag_to(negative_bit);
    }

    // -----------------------------------------------------------------------
    // The addressing-mode resolver.
    // -----------------------------------------------------------------------

    /// The effective address the operand bytes at the program counter name,
    /// for every mode that has a memory operand.
    fn get_address_from(&self, mode: &AddressingMode) -> (address: u16)
        requires
            self.wf(),
            resolvable(*mode),
        ensures
            address == resolve(self@, *mode),
    {
        match mode {
            AddressingMode::Immediate => self.program_counter,
            AddressingMode::ZeroPage => self.memory_read_byte(self.program_counter) as u16,
            AddressingMode::ZeroPageX => {
                let pos = self.memory_read_byte(self.program_counter);
                pos.wrapping_add(self.register_x) as u16
            },
            AddressingMode::ZeroPageY => {
                let pos = self.memory_read_byte(self.program_counter);
                pos.wrapping_add(self.register_y) as u16
            },
            AddressingMode::Absolute => self.memory_read_2_byte(self.program_counter),
            AddressingMode::AbsoluteX => {
                let base = self.memory_read_2_byte(self.program_counter);
                base.wrapping_add(self.register_x as u16)
            },
            AddressingMode::AbsoluteY => {
                let base = self.memory_read_2_byte(self.program_counter);
                base.wrapping_add(self.register_y as u16)
            },
            AddressingMode::IndirectX => {
                let base = self.memory_read_byte(self.program_counter);
                let pointer = base.wrapping_add(self.register_x);
                let lo = self.memory_read_byte(pointer as u16);
                let hi = self.memory_read_byte(pointer.wrapping_add(1) as u16);
                (hi as u16) * 0x100 + lo as u16
            },
            AddressingMode::IndirectY => {
                let base = self.memory_read_byte(self.program_counter);
                let lo = self.memory_read_byte(base as u16);
                let hi = self.memory_read_byte(base.wrapping_add(1) as u16);
                let deref_base = (hi as u16) * 0x100 + lo as u16;
                deref_base.wrapping_add(self.register_y as u16)
            },
            AddressingMode::Relative => {
                let offset = self.memory_read_byte(self.program_counter);
                let base = self.program_counter.wrapping_add(1);
                let target = base.wrapping_add(offset as u16);
                if self.is_negativ_bit_present(offset) {
                    target.wrapping_sub(0x100)
                } else {
                    target
                }
            },
            AddressingMode::Indirect => self.memory_read_2_byte(self.program_counter),
            AddressingMode::Accumulator => 0,
            AddressingMode::Implied => 0,
            AddressingMode::NoneAddressing => 0,
        }
    }

    // -----------------------------------------------------------------------
    // Power-on interfaces.
    // -----------------------------------------------------------------------

    /// Clears registers and flags, puts the stack pointer at the top of the
    /// stack page, and fetches the program counter from the reset vector.
    pub fn reset(&mut self)
        requires
            old(self).wf(),
        ensures
            final(self).wf(),
            final(self)@ == reset_model(old(self)@),
    {
        self.accumulator = 0;
        self.register_x = 0;
        self.register_y = 0;
        self.status = 0;
        self.stack_pointer = 0xff;
        self.program_counter = self.memory_read_2_byte(RESET_VECTOR);
    }

    /// Copies the program image into memory at `PROGRAM_BASE` and writes
    /// that base address into the reset vector, so that `reset` will begin
    /// execution there. The image must fit in the space above the base.
    pub fn load(&mut self, program: Vec<u8>)
        requires
            old(self).wf(),
            program@.len() <= MEMORY_SIZE - PROGRAM_BASE,
        ensures
            final(self).wf(),
            final(self)@ == load_model(old(self)@, program@),
    {
        let ghost m0 = self@;
        let mut i: usize = 0;
        while i < program.len()
            invariant
                self.wf(),
                i <= program@.len() <= MEMORY_SIZE - PROGRAM_BASE,
                self@ == (CpuModel {
                    memory: overlay(m0.memory, program@.subrange(0, i as int), PROGRAM_BASE),
                    ..m0
                }),
            decreases program@.len() - i,
        {
            self.memory_write_byte(PROGRAM_BASE + i as u16, program[i]);
            proof {
                assert(mem_with_byte(
                    overlay(m0.memory, program@.subrange(0, i as int), PROGRAM_BASE),
                    (PROGRAM_BASE + i as u16) as u16,
                    program@[i as int],
                ) =~= overlay(m0.memory, program@.subrange(0, i + 1), PROGRAM_BASE));
            }
            i = i + 1;
        }
        proof {
            assert(program@.subrange(0, program@.len() as int) =~= program@);
        }
        self.memory_write_2_byte(RESET_VECTOR, PROGRAM_BASE);
    }

    // -----------------------------------------------------------------------
    // Loads: read the byte at the effective address into the named register
    // and update the zero and negative flags from it.
    // -----------------------------------------------------------------------

    fn lda(&mut self, addressing_mode: &AddressingMode)
        requires
            old(self).wf(),
            resolvable(*addressing_mode),
        ensures
            final(self).wf(),
            final(self)@ == lda_model(old(self)@, *addressing_mode),
    {
        let address = self.get_address_from(addressing_mode);
        let value = self.memory_read_byte(address);
        self.accumulator = value;
        self.update_zero_and_negative_flag(value);
    }

    fn ldx(&mut self, addressing_mode: &AddressingMode)
        requires
            old(self).wf(),
            resolvable(*addressing_mode),
        ensures
            final(self).wf(),
            final(self)@ == ldx_model(old(self)@, *addressing_mode),
    {
        let address = self.get_address_from(addressing_mode);
        let value = self.memory_read_byte(address);
        self.register_x = value;
        self.update_zero_and_negative_flag(value);
    }

    fn ldy(&mut self, addressing_mode: &AddressingMode)
        requires
            old(self).wf(),
            resolvable(*addressing_mode),
        ensures
            final(self).wf(),
            final(self)@ == ldy_model(old(self)@, *addressing_mode),
    {
        let address = self.get_address_from(addressing_mode);
        let value = self.memory_read_byte(address);
        self.register_y = value;
        self.update_zero_and_negative_flag(value);
    }

    // -----------------------------------------------------------------------
    // Stores: write the named register to the effective address; no flags.
    // -----------------------------------------------------------------------

    fn sta(&mut self, addressing_mode: &AddressingMode)
        requires
            old(self).wf(),
            resolvable(*addressing_mode),
        ensures
            final(self).wf(),
            final(self)@ == sta_model(old(self)@, *addressing_mode),
    {
        let address = self.get_address_from(addressing_mode);
        self.memory_write_byte(address, self.accumulator);
    }

    fn stx(&mut self, addressing_mode: &AddressingMode)
        requires
            old(self).wf(),
            resolvable(*addressing_mode),
        ensures
            final(self).wf(),
            final(self)@ == stx_model(old(self)@, *addressing_mode),
    {
        let address = self.get_address_from(addressing_mode);
        self.memory_write_byte(address, self.register_x);
    }

    fn sty(&mut self, addressing_mode: &AddressingMode)
        requires
            old(self).wf(),
            resolvable(*addressing_mode),
        ensures
            final(self).wf(),
            final(self)@ == sty_model(old(self)@, *addressing_mode),
    {
        let address = self.get_address_from(addressing_mode);
        self.memory_write_byte(address, self.register_y);
    }

    // -----------------------------------------------------------------------
    // Transfers: copy one register into another. All update zero/negative
    // from the copied value except the transfer into the stack pointer.
    // -----------------------------------------------------------------------

    fn tax(&mut self)
        ensures
            final(self)@ == tax_model(old(self)@),
    {
        self.register_x = self.accumulator;
        self.update_zero_and_negative_flag(self.register_x);
    }

    fn tay(&mut self)
        ensures
            final(self)@ == tay_model(old(self)@),
    {
        self.register_y = self.accumulator;
        self.update_zero_and_negative_flag(self.register_y);
    }

    fn txa(&mut self)
        ensures
            final(self)@ == txa_model(old(self)@),
    {
        self.accumulator = self.register_x;
        self.update_zero_and_negative_flag(self.accumulator);
    }

    fn tya(&mut self)
        ensures
            final(self)@ == tya_model(old(self)@),
    {
        self.accumulator = self.register_y;
        self.update_zero_and_negative_flag(self.accumulator);
    }

    fn tsx(&mut self)
        ensures
            final(self)@ == tsx_model(old(self)@),
    {
        self.register_x = self.stack_pointer;
        self.update_zero_and_negative_flag(self.register_x);
    }

    fn txs(&mut self)
        ensures
            final(self)@ == txs_model(old(self)@),
    {
        self.stack_pointer = self.register_x;
    }

    // -----------------------------------------------------------------------
    // Logic: bitwise operation between accumulator and operand, in place.
    // -----------------------------------------------------------------------

    fn and(&mut self, addressing_mode: &AddressingMode)
        requires
            old(self).wf(),
            resolvable(*addressing_mode),
        ensures
            final(self).wf(),
            final(self)@ == and_model(old(self)@, *addressing_mode),
    {
        let value = self.memory_read_byte(self.get_address_from(addressing_mode));
        self.accumulator = self.accumulator & value;
        self.update_zero_and_negative_flag(self.accumulator);
    }

    fn ora(&mut self, addressing_mode: &AddressingMode)
        requires
            old(self).wf(),
            resolvable(*addressing_mode),
        ensures
            final(self).wf(),
            final(self)@ == ora_model(old(self)@, *addressing_mode),
    {
        let value = self.memory_read_byte(self.get_address_from(addressing_mode));
        self.accumulator = self.accumulator | value;
        self.update_zero_and_negative_flag(self.accumulator);
    }

    fn eor(&mut self, addressing_mode: &AddressingMode)
        requires
            old(self).wf(),
            resolvable(*addressing_mode),
        ensures
            final(self).wf(),
            final(self)@ == eor_model(old(self)@, *addressing_mode),
    {
        let value = self.memory_read_byte(self.get_address_from(addressing_mode));
        self.accumulator = self.accumulator ^ value;
        self.update_zero_and_negative_flag(self.accumulator);
    }

    // -----------------------------------------------------------------------
    // Arithmetic: add or subtract the operand together with the carry flag,
    // wrapping at 8 bits; carry takes the carry-out and overflow follows the
    // two's-complement rule. Subtraction adds the operand's one's
    // complement, the documented hardware behaviour of borrow.
    // -----------------------------------------------------------------------

    fn add_to_accumulator(&mut self, value: u8)
        requires
            old(self).wf(),
        ensures
            final(self).wf(),
            final(self)@ == add_with_carry_model(old(self)@, value),
    {
        let carry_in: u16 = if self.is_carry_flag_set() {
            1
        } else {
            0
        };
        let total: u16 = self.accumulator as u16 + value as u16 + carry_in;
        let result: u8 = if total > 0xff {
            (total - 0x100) as u8
        } else {
            total as u8
        };
        let accumulator_sign = self.accumulator & 0x80 != 0;
        let overflow = (accumulator_sign == (value & 0x80 != 0)) && ((result & 0x80 != 0)
            != accumulator_sign);
        self.accumulator = result;
        self.update_zero_and_negative_flag(result);
        let carry_bit: u8 = if total > 0xff {
            1
        } else {
            0
        };
        self.set_carry_flag_to(carry_bit);
        let overflow_bit: u8 = if overflow {
            1
        } else {
            0
        };
        self.set_overflow_flag_to(overflow_bit);
    }

    pub fn adc(&mut self, addressing_mode: &AddressingMode)
        requires
            old(self).wf(),
            resolvable(*addressing_mode),
        ensures
            final(self).wf(),
            final(self)@ == adc_model(old(self)@, *addressing_mode),
    {
        let address = self.get_address_from(addressing_mode);
        let memory_value = self.memory_read_byte(address);
        self.add_to_accumulator(memory_value);
    }

    fn sbc(&mut self, addressing_mode: &AddressingMode)
        requires
            old(self).wf(),
            resolvable(*addressing_mode),
        ensures
            final(self).wf(),
            final(self)@ == sbc_model(old(self)@, *addressing_mode),
    {
        let address = self.get_address_from(addressing_mode);
        let memory_value = self.memory_read_byte(address);
        self.add_to_accumulator(0xff - memory_value);
    }

    // -----------------------------------------------------------------------
    // Compares: subtract the operand from the register without storing the
    // result; carry iff the register is at least the operand, zero iff
    // equal, negative from the sign of the discarded difference.
    // -----------------------------------------------------------------------

    fn cmp(&mut self, addressing_mode: &AddressingMode)
        requires
            old(self).wf(),
            resolvable(*addressing_mode),
        ensures
            final(self).wf(),
            final(self)@ == compare_model(old(self)@, *addressing_mode, old(self)@.accumulator),
    {
        let value = self.memory_read_byte(self.get_address_from(addressing_mode));
        let register = self.accumulator;
        let difference = register.wrapping_sub(value);
        self.update_zero_and_negative_flag(difference);
        let carry_bit: u8 = if register >= value {
            1
        } else {
            0
        };
        self.set_carry_flag_to(carry_bit);
    }

    fn cpx(&mut self, addressing_mode: &AddressingMode)
        requires
            old(self).wf(),
            resolvable(*addressing_mode),
        ensures
            final(self).wf(),
            final(self)@ == compare_model(old(self)@, *addressing_mode, old(self)@.register_x),
    {
        let value = self.memory_read_byte(self.get_address_from(addressing_mode));
        let register = self.register_x;
        let difference = register.wrapping_sub(value);
        self.update_zero_and_negative_flag(difference);
        let carry_bit: u8 = if register >= value {
            1
        } else {
            0
        };
        self.set_carry_flag_to(carry_bit);
    }

    fn cpy(&mut self, addressing_mode: &AddressingMode)
        requires
            old(self).wf(),
            resolvable(*addressing_mode),
        ensures
            final(self).wf(),
            final(self)@ == compare_model(old(self)@, *addressing_mode, old(self)@.register_y),
    {
        let value = self.memory_read_byte(self.get_address_from(addressing_mode));
        let register = self.register_y;
        let difference = register.wrapping_sub(value);
        self.update_zero_and_negative_flag(difference);
        let carry_bit: u8 = if register >= value {
            1
        } else {
            0
        };
        self.set_carry_flag_to(carry_bit);
    }

    // -----------------------------------------------------------------------
    // Shifts and rotates, on the accumulator or on a memory byte. The bit
    // shifted out becomes the new carry flag; rotates shift the previous
    // carry flag into the vacated bit.
    // -----------------------------------------------------------------------

    fn asl(&mut self, addressing_mode: &AddressingMode)
        requires
            old(self).wf(),
            *addressing_mode is Accumulator || resolvable(*addressing_mode),
        ensures
            final(self).wf(),
            final(self)@ == asl_model(old(self)@, *addressing_mode),
    {
        match addressing_mode {
            AddressingMode::Accumulator => {
                let value = self.accumulator;
                let shifted = value << 1;
                self.accumulator = shifted;
                self.update_zero_and_negative_flag(shifted);
                let out_bit: u8 = if value & 0x80 != 0 {
                    1
                } else {
                    0
                };
                self.set_carry_flag_to(out_bit);
            },
            _ => {
                let address = self.get_address_from(addressing_mode);
                let value = self.memory_read_byte(address);
                let shifted = value << 1;
                self.memory_write_byte(address, shifted);
                self.update_zero_and_negative_flag(shifted);
                let out_bit: u8 = if value & 0x80 != 0 {
                    1
                } else {
                    0
                };
                self.set_carry_flag_to(out_bit);
            },
        }
    }

    fn lsr(&mut self, addressing_mode: &AddressingMode)
        requires
            old(self).wf(),
            *addressing_mode is Accumulator || resolvable(*addressing_mode),
        ensures
            final(self).wf(),
            final(self)@ == lsr_model(old(self)@, *addressing_mode),
    {
        match addressing_mode {
            AddressingMode::Accumulator => {
                let value = self.accumulator;
                let shifted = value >> 1;
                self.accumulator = shifted;
                self.update_zero_and_negative_flag(shifted);
                let out_bit: u8 = if value & 0x01 != 0 {
                    1
                } else {
                    0
                };
                self.set_carry_flag_to(out_bit);
            },
            _ => {
                let address = self.get_address_from(addressing_mode);
                let value = self.memory_read_byte(address);
                let shifted = value >> 1;
                self.memory_write_byte(address, shifted);
                self.update_zero_and_negative_flag(shifted);
                let out_bit: u8 = if value & 0x01 != 0 {
                    1
                } else {
                    0
                };
                self.set_carry_flag_to(out_bit);
            },
        }
    }

    fn rol(&mut self, addressing_mode: &AddressingMode)
        requires
            old(self).wf(),
            *addressing_mode is Accumulator || resolvable(*addressing_mode),
        ensures
            final(self).wf(),
            final(self)@ == rol_model(old(self)@, *addressing_mode),
    {
        let carry_in: u8 = if self.is_carry_flag_set() {
            1
        } else {
            0
        };
        match addressing_mode {
            AddressingMode::Accumulator => {
                let value = self.accumulator;
                let shifted = (value << 1) | carry_in;
                self.accumulator = shifted;
                self.update_zero_and_negative_flag(shifted);
                let out_bit: u8 = if value & 0x80 != 0 {
                    1
                } else {
                    0
                };
                self.set_carry_flag_to(out_bit);
            },
            _ => {
                let address = self.get_address_from(addressing_mode);
                let value = self.memory_read_byte(address);
                let shifted = (value << 1) | carry_in;
                self.memory_write_byte(address, shifted);
                self.update_zero_and_negative_flag(shifted);
                let out_bit: u8 = if value & 0x80 != 0 {
                    1
                } else {
                    0
                };
                self.set_carry_flag_to(out_bit);
            },
        }
    }

    fn ror(&mut self, addressing_mode: &AddressingMode)
        requires
            old(self).wf(),
            *addressing_mode is Accumulator || resolvable(*addressing_mode),
        ensures
            final(self).wf(),
            final(self)@ == ror_model(old(self)@, *addressing_mode),
    {
        let carry_in: u8 = if self.is_carry_flag_set() {
            0x80
        } else {
            0
        };
        match addressing_mode {
            AddressingMode::Accumulator => {
                let value = self.accumulator;
                let shifted = (value >> 1) | carry_in;
                self.accumulator = shifted;
                self.update_zero_and_negative_flag(shifted);
                let out_bit: u8 = if value & 0x01 != 0 {
                    1
                } else {
                    0
                };
                self.set_carry_flag_to(out_bit);
            },
            _ => {
                let address = self.get_address_from(addressing_mode);
                let value = self.memory_read_byte(address);
                let shifted = (value >> 1) | carry_in;
                self.memory_write_byte(address, shifted);
                self.update_zero_and_negative_flag(shifted);
                let out_bit: u8 = if value & 0x01 != 0 {
                    1
                } else {
                    0
                };
                self.set_carry_flag_to(out_bit);
            },
        }
    }

    // -----------------------------------------------------------------------
    // Increments and decrements: one up or down with 8-bit wrap-around.
    // -----------------------------------------------------------------------

    fn inc(&mut self, addressing_mode: &AddressingMode)
        requires
            old(self).wf(),
            resolvable(*addressing_mode),
        ensures
            final(self).wf(),
            final(self)@ == inc_model(old(self)@, *addressing_mode),
    {
        let address = self.get_address_from(addressing_mode);
        let value = self.memory_read_byte(address).wrapping_add(1);
        self.memory_write_byte(address, value);
        self.update_zero_and_negative_flag(value);
    }

    fn dec(&mut self, addressing_mode: &AddressingMode)
        requires
            old(self).wf(),
            resolvable(*addressing_mode),
        ensures
            final(self).wf(),
            final(self)@ == dec_model(old(self)@, *addressing_mode),
    {
        let address = self.get_address_from(addressing_mode);
        let value = self.memory_read_byte(address).wrapping_sub(1);
        self.memory_write_byte(address, value);
        self.update_zero_and_negative_flag(value);
    }

    fn inx(&mut self)
        ensures
            final(self)@ == inx_model(old(self)@),
    {
        self.register_x = self.register_x.wrapping_add(1);
        self.update_zero_and_negative_flag(self.register_x);
    }

    fn iny(&mut self)
        ensures
            final(self)@ == iny_model(old(self)@),
    {
        self.register_y = self.register_y.wrapping_add(1);
        self.update_zero_and_negative_flag(self.register_y);
    }

    fn dex(&mut self)
        ensures
            final(self)@ == dex_model(old(self)@),
    {
        self.register_x = self.register_x.wrapping_sub(1);
        self.update_zero_and_negative_flag(self.register_x);
    }

    fn dey(&mut self)
        ensures
            final(self)@ == dey_model(old(self)@),
    {
        self.register_y = self.register_y.wrapping_sub(1);
        self.update_zero_and_negative_flag(self.register_y);
    }

    // -----------------------------------------------------------------------
    // Bit test: zero from the AND with the accumulator (result discarded),
    // negative and overflow straight from bits 7 and 6 of the operand.
    // -----------------------------------------------------------------------

    fn bit(&mut self, addressing_mode: &AddressingMode)
        requires
            old(self).wf(),
            resolvable(*addressing_mode),
        ensures
            final(self).wf(),
            final(self)@ == bit_model(old(self)@, *addressing_mode),
    {
        let value = self.memory_read_byte(self.get_address_from(addressing_mode));
        let and_result = self.accumulator & value;
        let zero_bit: u8 = if and_result == 0 {
            1
        } else {
            0
        };
        self.set_zero_flag_to(zero_bit);
        let negative_bit: u8 = if value & 0x80 != 0 {
            1
        } else {
            0
        };
        self.set_negative_flag_to(negative_bit);
        let overflow_bit: u8 = if value & 0x40 != 0 {
            1
        } else {
            0
        };
        self.set_overflow_flag_to(overflow_bit);
    }

    // -----------------------------------------------------------------------
    // Branches: test one status flag; when the condition holds, move the
    // program counter to the relative target. Each reports whether it took
    // the branch, so the execution loop knows not to apply the generic
    // advance on top.
    // -----------------------------------------------------------------------

    fn bcc(&mut self, addressing_mode: &AddressingMode) -> (taken: bool)
        requires
            old(self).wf(),
            resolvable(*addressing_mode),
        ensures
            final(self).wf(),
            taken == !flag_set(old(self)@.status, CARRY_FLAG),
            final(self)@ == branch_model(old(self)@, *addressing_mode, taken),
    {
        if !self.is_carry_flag_set() {
            self.program_counter = self.get_address_from(addressing_mode);
            true
        } else {
            false
        }
    }

    fn bcs(&mut self, addressing_mode: &AddressingMode) -> (taken: bool)
        requires
            old(self).wf(),
            resolvable(*addressing_mode),
        ensures
            final(self).wf(),
            taken == flag_set(old(self)@.status, CARRY_FLAG),
            final(self)@ == branch_model(old(self)@, *addressing_mode, taken),
    {
        if self.is_carry_flag_set() {
            self.program_counter = self.get_address_from(addressing_mode);
            true
        } else {
            false
        }
    }

    fn beq(&mut self, addressing_mode: &AddressingMode) -> (taken: bool)
        requires
            old(self).wf(),
            resolvable(*addressing_mode),
        ensures
            final(self).wf(),
            taken == flag_set(old(self)@.status, ZERO_FLAG),
            final(self)@ == branch_model(old(self)@, *addressing_mode, taken),
    {
        if self.is_zero_flag_set() {
            self.program_counter = self.get_address_from(addressing_mode);
            true
        } else {
            false
        }
    }

    fn bne(&mut self, addressing_mode: &AddressingMode) -> (taken: bool)
        requires
            old(self).wf(),
            resolvable(*addressing_mode),
        ensures
            final(self).wf(),
            taken == !flag_set(old(self)@.status, ZERO_FLAG),
            final(self)@ == branch_model(old(self)@, *addressing_mode, taken),
    {
        if !self.is_zero_flag_set() {
            self.program_counter = self.get_address_from(addressing_mode);
            true
        } else {
            false
        }
    }

    fn bmi(&mut self, addressing_mode: &AddressingMode) -> (taken: bool)
        requires
            old(self).wf(),
            resolvable(*addressing_mode),
        ensures
            final(self).wf(),
            taken == flag_set(old(self)@.status, NEGATIVE_FLAG),
            final(self)@ == branch_model(old(self)@, *addressing_mode, taken),
    {
        if self.is_negative_flag_set() {
            self.program_counter = self.get_address_from(addressing_mode);
            true
        } else {
            false
        }
    }

    fn bpl(&mut self, addressing_mode: &AddressingMode) -> (taken: bool)
        requires
            old(self).wf(),
            resolvable(*addressing_mode),
        ensures
            final(self).wf(),
            taken == !flag_set(old(self)@.status, NEGATIVE_FLAG),
            final(self)@ == branch_model(old(self)@, *addressing_mode, taken),
    {
        if !self.is_negative_flag_set() {
            self.program_counter = self.get_address_from(addressing_mode);
            true
        } else {
            false
        }
    }

    fn bvc(&mut self, addressing_mode: &AddressingMode) -> (taken: bool)
        requires
            old(self).wf(),
            resolvable(*addressing_mode),
        ensures
            final(self).wf(),
            taken == !flag_set(old(self)@.status, OVERFLOW_FLAG),
            final(self)@ == branch_model(old(self)@, *addressing_mode, taken),
    {
        if !self.is_overflow_flag_set() {
            self.program_counter = self.get_address_from(addressing_mode);
            true
        } else {
            false
        }
    }

    fn bvs(&mut self, addressing_mode: &AddressingMode) -> (taken: bool)
        requires
            old(self).wf(),
            resolvable(*addressing_mode),
        ensures
            final(self).wf(),
            taken == flag_set(old(self)@.status, OVERFLOW_FLAG),
            final(self)@ == branch_model(old(self)@, *addressing_mode, taken),
    {
        if self.is_overflow_flag_set() {
            self.program_counter = self.get_address_from(addressing_mode);
            true
        } else {
            false
        }
    }

    // -----------------------------------------------------------------------
    // Jumps and subroutines.
    // -----------------------------------------------------------------------

    /// Sets the program counter to the absolute target, or, for the
    /// indirect jump, to the word stored at the resolved address.
    fn jmp(&mut self, addressing_mode: &AddressingMode)
        requires
            old(self).wf(),
            *addressing_mode is Absolute || *addressing_mode is Indirect,
        ensures
            final(self).wf(),
            final(self)@ == jmp_model(old(self)@, *addressing_mode),
    {
        let address = self.get_address_from(addressing_mode);
        match addressing_mode {
            AddressingMode::Indirect => {
                let target = self.memory_read_2_byte(address);
                self.program_counter = target;
            },
            _ => {
                self.program_counter = address;
            },
        }
    }

    /// Pushes the address of the last byte of this three-byte instruction
    /// (one less than the address of the instruction that follows), high
    /// byte then low, and jumps to the absolute target.
    fn jsr(&mut self, addressing_mode: &AddressingMode)
        requires
            old(self).wf(),
            *addressing_mode is Absolute,
        ensures
            final(self).wf(),
            final(self)@ == jsr_model(old(self)@, *addressing_mode),
    {
        let target = self.get_address_from(addressing_mode);
        let return_address = self.program_counter.wrapping_add(1);
        self.push_2_byte_to_stack(return_address);
        self.program_counter = target;
    }

    /// Pops two bytes, low then high, and resumes one past that address.
    fn rts(&mut self)
        requires
            old(self).wf(),
        ensures
            final(self).wf(),
            final(self)@ == rts_model(old(self)@),
    {
        let address = self.pop_2_byte_from_stack();
        self.program_counter = address.wrapping_add(1);
    }

    /// Pops the status byte, then the program counter.
    fn rti(&mut self)
        requires
            old(self).wf(),
        ensures
            final(self).wf(),
            final(self)@ == rti_model(old(self)@),
    {
        let status = self.pop_byte_from_stack();
        self.status = status;
        let address = self.pop_2_byte_from_stack();
        self.program_counter = address;
    }

    // -----------------------------------------------------------------------
    // Stack instructions.
    // -----------------------------------------------------------------------

    fn pha(&mut self)
        requires
            old(self).wf(),
        ensures
            final(self).wf(),
            final(self)@ == pha_model(old(self)@),
    {
        self.push_byte_to_stack(self.accumulator);
    }

    fn php(&mut self)
        requires
            old(self).wf(),
        ensures
            final(self).wf(),
            final(self)@ == php_model(old(self)@),
    {
        self.push_byte_to_stack(self.status);
    }

    fn pla(&mut self)
        requires
            old(self).wf(),
        ensures
            final(self).wf(),
            final(self)@ == pla_model(old(self)@),
    {
        let value = self.pop_byte_from_stack();
        self.accumulator = value;
        self.update_zero_and_negative_flag(value);
    }

    fn plp(&mut self)
        requires
            old(self).wf(),
        ensures
            final(self).wf(),
            final(self)@ == plp_model(old(self)@),
    {
        let value = self.pop_byte_from_stack();
        self.status = value;
    }

    // -----------------------------------------------------------------------
    // Flag instructions: set or clear exactly one named flag.
    // -----------------------------------------------------------------------

    fn clc(&mut self)
        ensures
            final(self)@ == status_model(old(self)@, CARRY_FLAG, false),
    {
        self.set_carry_flag_to(0x0);
    }

    fn sec(&mut self)
        ensures
            final(self)@ == status_model(old(self)@, CARRY_FLAG, true),
    {
        self.set_carry_flag_to(1);
    }

    fn cld(&mut self)
        ensures
            final(self)@ == status_model(old(self)@, DECIMAL_FLAG, false),
    {
        self.set_decimal_flag_to(0x0);
    }

    fn sed(&mut self)
        ensures
            final(self)@ == status_model(old(self)@, DECIMAL_FLAG, true),
    {
        self.set_decimal_flag_to(1);
    }

    fn cli(&mut self)
        ensures
            final(self)@ == status_model(old(self)@, INTERRUPT_DISABLE_FLAG, false),
    {
        self.set_interrupt_disable_flag_to(0x0);
    }

    fn sei(&mut self)
        ensures
            final(self)@ == status_model(old(self)@, INTERRUPT_DISABLE_FLAG, true),
    {
        self.set_interrupt_disable_flag_to(1);
    }

    fn clv(&mut self)
        ensures
            final(self)@ == status_model(old(self)@, OVERFLOW_FLAG, false),
    {
        self.set_overflow_flag_to(0x0);
    }

    /// No operation.
    fn nop(&self) {
    }

    /// Halt: push the return address and the status byte, set the break
    /// flag. The execution loop leaves its loop after this.
    fn brk(&mut self)
        requires
            old(self).wf(),
        ensures
            final(self).wf(),
            final(self)@ == brk_model(old(self)@),
    {
        self.push_2_byte_to_stack(self.program_counter);
        self.push_byte_to_stack(self.status);
        self.set_brake_flag_to(0x1);
    }

    // -----------------------------------------------------------------------
    // The execution loop.
    // -----------------------------------------------------------------------

    /// Fetches, decodes and executes instructions one after another until a
    /// break instruction halts the machine or an unknown opcode byte faults.
    ///
    /// The contract ties the outcome to the step semantics: on `Ok` some
    /// number of full steps ran and the last one halted on a break
    /// instruction, leaving exactly this machine state; on an unknown
    /// opcode some number of full steps ran to exactly this state, whose
    /// program counter points at a byte the opcode table does not know, and
    /// the fault reports that byte and address; and the step budget is
    /// exhausted only after exactly `RUN_STEP_LIMIT` full steps.
    pub fn run(&mut self) -> (result: Result<(), RunError>)
        requires
            old(self).wf(),
        ensures
            final(self).wf(),
            match result {
                Ok(()) => exists|n: nat| halts_to(old(self)@, final(self)@, n),
                Err(RunError::UnknownOpcode { opcode, address }) => {
                    &&& exists|n: nat| reaches(old(self)@, final(self)@, n)
                    &&& spec_step(final(self)@) is Fault
                    &&& opcode == byte_at(final(self)@.memory, final(self)@.program_counter)
                    &&& address == final(self)@.program_counter
                },
                Err(RunError::StepLimit) => reaches(
                    old(self)@,
                    final(self)@,
                    RUN_STEP_LIMIT as nat,
                ),
            },
    {
        let ghost start = self@;
        let mut steps: u64 = 0;
        loop
            invariant
                self.wf(),
                steps <= RUN_STEP_LIMIT,
                take_steps(start, steps as nat) == Option::<CpuModel>::Some(self@),
                start == old(self)@,
            decreases RUN_STEP_LIMIT - steps,
        {
            if steps == RUN_STEP_LIMIT {
                return Err(RunError::StepLimit);
            }
            let ghost before = self@;
            let code = self.memory_read_byte(self.program_counter);
            let op = match get_opcode_with_code(code) {
                Some(op) => op,
                None => {
                    proof {
                        assert(reaches(start, self@, steps as nat));
                    }
                    return Err(
                        RunError::UnknownOpcode { opcode: code, address: self.program_counter },
                    );
                },
            };
            self.program_counter = self.program_counter.wrapping_add(1);
            let ghost fetched = self@;
            let mode = *op.get_addressing_mode();
            let pc_set: bool;
            match *op.get_instruction() {
                Instruction::BRK => {
                    self.brk();
                    proof {
                        assert(spec_step(before) == StepResult::Halted(self@));
                        assert(halts_to(start, self@, steps as nat));
                    }
                    return Ok(());
                },
                Instruction::ADC => {
                    self.adc(&mode);
                    pc_set = false;
                },
                Instruction::AND => {
                    self.and(&mode);
                    pc_set = false;
                },
                Instruction::ASL => {
                    self.asl(&mode);
                    pc_set = false;
                },
                Instruction::BCC => {
                    pc_set = self.bcc(&mode);
                },
                Instruction::BCS => {
                    pc_set = self.bcs(&mode);
                },
                Instruction::BEQ => {
                    pc_set = self.beq(&mode);
                },
                Instruction::BIT => {
                    self.bit(&mode);
                    pc_set = false;
                },
                Instruction::BMI => {
                    pc_set = self.bmi(&mode);
                },
                Instruction::BNE => {
                    pc_set = self.bne(&mode);
                },
                Instruction::BPL => {
                    pc_set = self.bpl(&mode);
                },
                Instruction::BVC => {
                    pc_set = self.bvc(&mode);
                },
                Instruction::BVS => {
                    pc_set = self.bvs(&mode);
                },
                Instruction::CLC => {
                    self.clc();
                    pc_set = false;
                },
                Instruction::CLD => {
                    self.cld();
                    pc_set = false;
                },
                Instruction::CLI => {
                    self.cli();
                    pc_set = false;
                },
                Instruction::CLV => {
                    self.clv();
                    pc_set = false;
                },
                Instruction::CMP => {
                    self.cmp(&mode);
                    pc_set = false;
                },
                Instruction::CPX => {
                    self.cpx(&mode);
                    pc_set = false;
                },
                Instruction::CPY => {
                    self.cpy(&mode);
                    pc_set = false;
                },
                Instruction::DEC => {
                    self.dec(&mode);
                    pc_set = false;
                },
                Instruction::DEX => {
                    self.dex();
                    pc_set = false;
                },
                Instruction::DEY => {
                    self.dey();
                    pc_set = false;
                },
                Instruction::EOR => {
                    self.eor(&mode);
                    pc_set = false;
                },
                Instruction::INC => {
                    self.inc(&mode);
                    pc_set = false;
                },
                Instruction::INX => {
                    self.inx();
                    pc_set = false;
                },
                Instruction::INY => {
                    self.iny();
                    pc_set = false;
                },
                Instruction::JMP => {
                    self.jmp(&mode);
                    pc_set = true;
                },
                Instruction::JSR => {
                    self.jsr(&mode);
                    pc_set = true;
                },
                Instruction::LDA => {
                    self.lda(&mode);
                    pc_set = false;
                },
                Instruction::LDX => {
                    self.ldx(&mode);
                    pc_set = false;
                },
                Instruction::LDY => {
                    self.ldy(&mode);
                    pc_set = false;
                },
                Instruction::LSR => {
                    self.lsr(&mode);
                    pc_set = false;
                },
                Instruction::NOP => {
                    self.nop();
                    pc_set = false;
                },
                Instruction::ORA => {
                    self.ora(&mode);
                    pc_set = false;
                },
                Instruction::PHA => {
                    self.pha();
                    pc_set = false;
                },
                Instruction::PHP => {
                    self.php();
                    pc_set = false;
                },
                Instruction::PLA => {
                    self.pla();
                    pc_set = false;
                },
                Instruction::PLP => {
                    self.plp();
                    pc_set = false;
                },
                Instruction::ROL => {
                    self.rol(&mode);
                    pc_set = false;
                },
                Instruction::ROR => {
                    self.ror(&mode);
                    pc_set = false;
                },
                Instruction::RTI => {
                    self.rti();
                    pc_set = true;
                },
                Instruction::RTS => {
                    self.rts();
                    pc_set = true;
                },
                Instruction::SBC => {
                    self.sbc(&mode);
                    pc_set = false;
                },
                Instruction::SEC => {
                    self.sec();
                    pc_set = false;
                },
                Instruction::SED => {
                    self.sed();
                    pc_set = false;
                },
                Instruction::SEI => {
                    self.sei();
                    pc_set = false;
                },
                Instruction::STA => {
                    self.sta(&mode);
                    pc_set = false;
                },
                Instruction::STX => {
                    self.stx(&mode);
                    pc_set = false;
                },
                Instruction::STY => {
                    self.sty(&mode);
                    pc_set = false;
                },
                Instruction::TAX => {
                    self.tax();
                    pc_set = false;
                },
                Instruction::TAY => {
                    self.tay();
                    pc_set = false;
                },
                Instruction::TSX => {
                    self.tsx();
                    pc_set = false;
                },
                Instruction::TXA => {
                    self.txa();
                    pc_set = false;
                },
                Instruction::TXS => {
                    self.txs();
                    pc_set = false;
                },
                Instruction::TYA => {
                    self.tya();
                    pc_set = false;
                },
            }
            proof {
                assert((self@, pc_set) == instr_effect(fetched, op));
            }
            if !pc_set {
                self.program_counter = self.program_counter.wrapping_add(
                    (op.get_bytes() - 1) as u16,
                );
            }
            proof {
                assert(spec_step(before) == StepResult::KeepGoing(self@));
                lemma_take_steps_extend(start, before, self@, steps as nat);
            }
            steps = steps + 1;
        }
    }

    /// Loads the program image, resets, and runs until halt or fault: the
    /// convenience composition of the three entry points.
    pub fn load_and_run(&mut self, program: Vec<u8>) -> (result: Result<(), RunError>)
        requires
            old(self).wf(),
            program@.len() <= MEMORY_SIZE - PROGRAM_BASE,
        ensures
            final(self).wf(),
            ({
                let started = reset_model(load_model(old(self)@, program@));
                match result {
                    Ok(()) => exists|n: nat| halts_to(started, final(self)@, n),
                    Err(RunError::UnknownOpcode { opcode, address }) => {
                        &&& exists|n: nat| reaches(started, final(self)@, n)
                        &&& spec_step(final(self)@) is Fault
                        &&& opcode == byte_at(
                            final(self)@.memory,
                            final(self)@.program_counter,
                        )
                        &&& address == final(self)@.program_counter
                    },
                    Err(RunError::StepLimit) => reaches(
                        started,
                        final(self)@,
                        RUN_STEP_LIMIT as nat,
                    ),
                }
            }),
    {
        self.load(program);
        self.reset();
        self.run()
    }
}

impl Default for CPU {
    /// The same powered-on machine that `new` gives.
    fn default() -> (cpu: Self)
        ensures
            cpu.wf(),
            cpu@ == CpuModel::initial(),
    {
        Self::new()
    }
}

} // verus!
