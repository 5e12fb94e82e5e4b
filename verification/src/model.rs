//! The mathematical model of the CPU.
//!
//! Every contract of the executable machine in `cpu` is stated over
//! [`CpuModel`], a ghost record of the registers, the status byte, the
//! program counter, the stack pointer and the 64 KiB memory as a sequence of
//! bytes. The spec functions here give the exact effect of each instruction
//! on that record; `spec_step` combines them into one fetch-decode-execute
//! step, and `take_steps` iterates it.

use vstd::prelude::*;

verus! {

use crate::cpu::{AddressingMode, CARRY_FLAG, ZERO_FLAG, NEGATIVE_FLAG, OVERFLOW_FLAG,
    BREAK_FLAG, DECIMAL_FLAG, INTERRUPT_DISABLE_FLAG};
use crate::opcode::{Instruction, OpCode, spec_decode};

/// The observable state of the CPU: all registers and the full memory.
#[verifier::ext_equal]
pub struct CpuModel {
    pub accumulator: u8,
    pub register_x: u8,
    pub register_y: u8,
    pub status: u8,
    pub program_counter: u16,
    pub stack_pointer: u8,
    pub memory: Seq<u8>,
}

/// The number of addressable bytes: the memory is always exactly this long.
pub const MEMORY_SIZE: usize = 0x10000;

/// The base address of the 256-byte stack page.
pub const STACK_BASE: u16 = 0x0100;

impl CpuModel {
    /// A model is well formed when its memory covers the full address space.
    pub open spec fn wf(self) -> bool {
        self.memory.len() == MEMORY_SIZE
    }

    /// The state after power-on: everything zero, memory cleared.
    pub open spec fn initial() -> CpuModel {
        CpuModel {
            accumulator: 0,
            register_x: 0,
            register_y: 0,
            status: 0,
            program_counter: 0,
            stack_pointer: 0,
            memory: Seq::new(MEMORY_SIZE as nat, |i: int| 0u8),
        }
    }
}

// ---------------------------------------------------------------------------
// Wrap-around arithmetic. Overflow is defined hardware behaviour, never an
// error: these give the exact wrapped value.
// ---------------------------------------------------------------------------

pub open spec fn wrapping_add_u8(a: u8, b: u8) -> u8 {
    if a + b > 0xff {
        (a + b - 0x100) as u8
    } else {
        (a + b) as u8
    }
}

pub open spec fn wrapping_sub_u8(a: u8, b: u8) -> u8 {
    if a - b < 0 {
        (a - b + 0x100) as u8
    } else {
        (a - b) as u8
    }
}

pub open spec fn wrapping_add_u16(a: u16, b: u16) -> u16 {
    if a + b > 0xffff {
        (a + b - 0x10000) as u16
    } else {
        (a + b) as u16
    }
}

pub open spec fn wrapping_sub_u16(a: u16, b: u16) -> u16 {
    if a - b < 0 {
        (a - b + 0x10000) as u16
    } else {
        (a - b) as u16
    }
}

// ---------------------------------------------------------------------------
// Single bits of a byte.
// ---------------------------------------------------------------------------

/// Bit 7, the sign bit of a byte in two's complement.
pub open spec fn bit7(v: u8) -> bool {
    v & 0x80 != 0
}

/// Bit 6 of a byte.
pub open spec fn bit6(v: u8) -> bool {
    v & 0x40 != 0
}

/// Bit 0, the lowest bit of a byte.
pub open spec fn bit0(v: u8) -> bool {
    v & 0x01 != 0
}

// ---------------------------------------------------------------------------
// The status register as a bitfield of named flags.
// ---------------------------------------------------------------------------

/// Whether the given flag bit is set in a status byte.
pub open spec fn flag_set(status: u8, flag: u8) -> bool {
    status & flag != 0
}

/// The status byte with one flag bit forced to the given value.
pub open spec fn set_flag(status: u8, flag: u8, on: bool) -> u8 {
    if on {
        status | flag
    } else {
        status & !flag
    }
}

/// The status byte after the composite zero/negative update that every
/// value-producing instruction performs: zero iff the value is zero,
/// negative iff its sign bit is set.
pub open spec fn with_zero_and_negative(status: u8, value: u8) -> u8 {
    set_flag(set_flag(status, ZERO_FLAG, value == 0), NEGATIVE_FLAG, bit7(value))
}

// ---------------------------------------------------------------------------
// Addressing modes.
// ---------------------------------------------------------------------------

/// Whether a mode names a memory operand, so that the resolver applies to
/// it. `Accumulator` and `Implied` name no memory operand, and
/// `NoneAddressing` is a placeholder that no table entry carries.
pub open spec fn resolvable(mode: AddressingMode) -> bool {
    match mode {
        AddressingMode::Accumulator => false,
        AddressingMode::Implied => false,
        AddressingMode::NoneAddressing => false,
        _ => true,
    }
}

// ---------------------------------------------------------------------------
// Bytes and 16-bit little-endian words in memory.
// ---------------------------------------------------------------------------

/// The low byte of a 16-bit value.
pub open spec fn word_lo(v: u16) -> u8 {
    (v % 0x100) as u8
}

/// The high byte of a 16-bit value.
pub open spec fn word_hi(v: u16) -> u8 {
    (v / 0x100) as u8
}

/// The 16-bit value assembled from a low and a high byte.
pub open spec fn word_from(lo: u8, hi: u8) -> u16 {
    (hi * 0x100 + lo) as u16
}

/// The byte stored at an address.
pub open spec fn byte_at(memory: Seq<u8>, address: u16) -> u8 {
    memory[address as int]
}

/// The little-endian word stored at an address; the high byte sits at the
/// next address, wrapping at the top of the address space.
pub open spec fn word_at(memory: Seq<u8>, address: u16) -> u16 {
    word_from(byte_at(memory, address), byte_at(memory, wrapping_add_u16(address, 1)))
}

/// The memory with one byte replaced.
pub open spec fn mem_with_byte(memory: Seq<u8>, address: u16, value: u8) -> Seq<u8> {
    memory.update(address as int, value)
}

/// The memory with a little-endian word written: low byte at the address,
/// high byte at the next one, wrapping at the top.
pub open spec fn mem_with_word(memory: Seq<u8>, address: u16, value: u16) -> Seq<u8> {
    mem_with_byte(
        mem_with_byte(memory, address, word_lo(value)),
        wrapping_add_u16(address, 1),
        word_hi(value),
    )
}

// ---------------------------------------------------------------------------
// The addressing-mode resolver: the effective address an instruction's
// operand bytes name. It reads the operand bytes at the current program
// counter (which at execution time points just past the opcode byte) and
// mutates nothing.
// ---------------------------------------------------------------------------

pub open spec fn resolve(m: CpuModel, mode: AddressingMode) -> u16 {
    match mode {
        // The operand byte itself is the value: its address is the counter.
        AddressingMode::Immediate => m.program_counter,
        // One operand byte, zero-extended to a page-zero address.
        AddressingMode::ZeroPage => byte_at(m.memory, m.program_counter) as u16,
        AddressingMode::ZeroPageX => wrapping_add_u8(
            byte_at(m.memory, m.program_counter),
            m.register_x,
        ) as u16,
        AddressingMode::ZeroPageY => wrapping_add_u8(
            byte_at(m.memory, m.program_counter),
            m.register_y,
        ) as u16,
        // Two operand bytes, read little-endian as the full address.
        AddressingMode::Absolute => word_at(m.memory, m.program_counter),
        AddressingMode::AbsoluteX => wrapping_add_u16(
            word_at(m.memory, m.program_counter),
            m.register_x as u16,
        ),
        AddressingMode::AbsoluteY => wrapping_add_u16(
            word_at(m.memory, m.program_counter),
            m.register_y as u16,
        ),
        // The operand byte plus X, wrapping within page zero, points at a
        // little-endian word in page zero: that word is the address.
        AddressingMode::IndirectX => {
            let pointer = wrapping_add_u8(byte_at(m.memory, m.program_counter), m.register_x);
            word_from(
                byte_at(m.memory, pointer as u16),
                byte_at(m.memory, wrapping_add_u8(pointer, 1) as u16),
            )
        },
        // The operand byte points at a little-endian word in page zero; that
        // word plus Y, wrapping at 16 bits, is the address.
        AddressingMode::IndirectY => {
            let pointer = byte_at(m.memory, m.program_counter);
            wrapping_add_u16(
                word_from(
                    byte_at(m.memory, pointer as u16),
                    byte_at(m.memory, wrapping_add_u8(pointer, 1) as u16),
                ),
                m.register_y as u16,
            )
        },
        // A signed two's-complement displacement from the address of the
        // instruction that follows the two-byte branch instruction.
        AddressingMode::Relative => {
            let offset = byte_at(m.memory, m.program_counter);
            let base = wrapping_add_u16(m.program_counter, 1);
            if bit7(offset) {
                wrapping_sub_u16(wrapping_add_u16(base, offset as u16), 0x100)
            } else {
                wrapping_add_u16(base, offset as u16)
            }
        },
        // Two operand bytes name the address where the real target word sits;
        // only the indirect jump uses this, and dereferences it itself.
        AddressingMode::Indirect => word_at(m.memory, m.program_counter),
        AddressingMode::Accumulator => arbitrary(),
        AddressingMode::Implied => arbitrary(),
        AddressingMode::NoneAddressing => arbitrary(),
    }
}

/// The memory operand an instruction reads: the byte at the resolved address.
pub open spec fn operand(m: CpuModel, mode: AddressingMode) -> u8 {
    byte_at(m.memory, resolve(m, mode))
}

// ---------------------------------------------------------------------------
// The stack: a 256-byte page at `STACK_BASE`, growing downward. Pushing
// writes at the pointer and decrements it; popping increments the pointer
// and reads there. Both wrap within the page.
// ---------------------------------------------------------------------------

/// The memory address the stack pointer names.
pub open spec fn stack_address(stack_pointer: u8) -> u16 {
    (STACK_BASE + stack_pointer) as u16
}

pub open spec fn push_byte_model(m: CpuModel, value: u8) -> CpuModel {
    CpuModel {
        memory: mem_with_byte(m.memory, stack_address(m.stack_pointer), value),
        stack_pointer: wrapping_sub_u8(m.stack_pointer, 1),
        ..m
    }
}

/// A 16-bit push: high byte first, then the low byte.
pub open spec fn push_word_model(m: CpuModel, value: u16) -> CpuModel {
    push_byte_model(push_byte_model(m, word_hi(value)), word_lo(value))
}

/// The byte a pop returns: the one just above the current pointer.
pub open spec fn pop_byte_value(m: CpuModel) -> u8 {
    byte_at(m.memory, stack_address(wrapping_add_u8(m.stack_pointer, 1)))
}

pub open spec fn pop_byte_model(m: CpuModel) -> CpuModel {
    CpuModel { stack_pointer: wrapping_add_u8(m.stack_pointer, 1), ..m }
}

/// The word a 16-bit pop returns: low byte first, then the high byte.
pub open spec fn pop_word_value(m: CpuModel) -> u16 {
    word_from(pop_byte_value(m), pop_byte_value(pop_byte_model(m)))
}

pub open spec fn pop_word_model(m: CpuModel) -> CpuModel {
    pop_byte_model(pop_byte_model(m))
}

// ---------------------------------------------------------------------------
// Power-on interfaces.
// ---------------------------------------------------------------------------

/// The base address at which a program image is loaded.
pub const PROGRAM_BASE: u16 = 0x8000;

/// The address of the reset vector: `reset` fetches the initial program
/// counter from the little-endian word stored here.
pub const RESET_VECTOR: u16 = 0xfffc;

/// The memory with a byte sequence copied in starting at a base address.
pub open spec fn overlay(memory: Seq<u8>, data: Seq<u8>, base: u16) -> Seq<u8> {
    Seq::new(
        memory.len(),
        |i: int| if base <= i < base + data.len() {
            data[i - base]
        } else {
            memory[i]
        },
    )
}

/// The effect of `load`: the program image copied in at `PROGRAM_BASE`, and
/// that base written into the reset vector.
pub open spec fn load_model(m: CpuModel, program: Seq<u8>) -> CpuModel {
    CpuModel {
        memory: mem_with_word(
            overlay(m.memory, program, PROGRAM_BASE),
            RESET_VECTOR,
            PROGRAM_BASE,
        ),
        ..m
    }
}

/// The effect of `reset`: registers and flags cleared, the stack pointer at
/// the top of the stack page, and the program counter fetched from the
/// reset vector. Memory is untouched.
pub open spec fn reset_model(m: CpuModel) -> CpuModel {
    CpuModel {
        accumulator: 0,
        register_x: 0,
        register_y: 0,
        status: 0,
        stack_pointer: 0xff,
        program_counter: word_at(m.memory, RESET_VECTOR),
        ..m
    }
}

// ---------------------------------------------------------------------------
// Per-instruction semantics. Each function takes the model with the program
// counter already advanced past the opcode byte, and gives the instruction's
// full effect apart from the generic program-counter advance, which
// `spec_step` applies afterwards to every instruction that did not set the
// counter itself.
// ---------------------------------------------------------------------------

// Loads: read the operand into the named register and update zero/negative.

pub open spec fn lda_model(m: CpuModel, mode: AddressingMode) -> CpuModel {
    let value = operand(m, mode);
    CpuModel { accumulator: value, status: with_zero_and_negative(m.status, value), ..m }
}

pub open spec fn ldx_model(m: CpuModel, mode: AddressingMode) -> CpuModel {
    let value = operand(m, mode);
    CpuModel { register_x: value, status: with_zero_and_negative(m.status, value), ..m }
}

pub open spec fn ldy_model(m: CpuModel, mode: AddressingMode) -> CpuModel {
    let value = operand(m, mode);
    CpuModel { register_y: value, status: with_zero_and_negative(m.status, value), ..m }
}

// Stores: write the named register to the effective address; no flag update.

pub open spec fn sta_model(m: CpuModel, mode: AddressingMode) -> CpuModel {
    CpuModel { memory: mem_with_byte(m.memory, resolve(m, mode), m.accumulator), ..m }
}

pub open spec fn stx_model(m: CpuModel, mode: AddressingMode) -> CpuModel {
    CpuModel { memory: mem_with_byte(m.memory, resolve(m, mode), m.register_x), ..m }
}

pub open spec fn sty_model(m: CpuModel, mode: AddressingMode) -> CpuModel {
    CpuModel { memory: mem_with_byte(m.memory, resolve(m, mode), m.register_y), ..m }
}

// Transfers: copy one register into another. All update zero/negative from
// the copied value except the transfer into the stack pointer.

pub open spec fn tax_model(m: CpuModel) -> CpuModel {
    CpuModel {
        register_x: m.accumulator,
        status: with_zero_and_negative(m.status, m.accumulator),
        ..m
    }
}

pub open spec fn tay_model(m: CpuModel) -> CpuModel {
    CpuModel {
        register_y: m.accumulator,
        status: with_zero_and_negative(m.status, m.accumulator),
        ..m
    }
}

pub open spec fn txa_model(m: CpuModel) -> CpuModel {
    CpuModel {
        accumulator: m.register_x,
        status: with_zero_and_negative(m.status, m.register_x),
        ..m
    }
}

pub open spec fn tya_model(m: CpuModel) -> CpuModel {
    CpuModel {
        accumulator: m.register_y,
        status: with_zero_and_negative(m.status, m.register_y),
        ..m
    }
}

pub open spec fn tsx_model(m: CpuModel) -> CpuModel {
    CpuModel {
        register_x: m.stack_pointer,
        status: with_zero_and_negative(m.status, m.stack_pointer),
        ..m
    }
}

pub open spec fn txs_model(m: CpuModel) -> CpuModel {
    CpuModel { stack_pointer: m.register_x, ..m }
}

// Logic: bitwise operation between accumulator and operand, in place.

pub open spec fn and_model(m: CpuModel, mode: AddressingMode) -> CpuModel {
    let value = m.accumulator & operand(m, mode);
    CpuModel { accumulator: value, status: with_zero_and_negative(m.status, value), ..m }
}

pub open spec fn ora_model(m: CpuModel, mode: AddressingMode) -> CpuModel {
    let value = m.accumulator | operand(m, mode);
    CpuModel { accumulator: value, status: with_zero_and_negative(m.status, value), ..m }
}

pub open spec fn eor_model(m: CpuModel, mode: AddressingMode) -> CpuModel {
    let value = m.accumulator ^ operand(m, mode);
    CpuModel { accumulator: value, status: with_zero_and_negative(m.status, value), ..m }
}

// Arithmetic. Adding is the primitive: the accumulator, the operand and the
// incoming carry are summed, the result wraps at 8 bits, the carry flag
// takes the carry-out, and the overflow flag follows the two's-complement
// rule: set exactly when both operands share a sign that the result does
// not. Subtracting is the same addition on the operand's one's complement,
// which is the documented hardware behaviour of borrow.

pub open spec fn add_with_carry_model(m: CpuModel, value: u8) -> CpuModel {
    let carry_in: int = if flag_set(m.status, CARRY_FLAG) {
        1
    } else {
        0
    };
    let total = m.accumulator + value + carry_in;
    let result = (if total > 0xff {
        total - 0x100
    } else {
        total
    }) as u8;
    let overflow = bit7(m.accumulator) == bit7(value) && bit7(result) != bit7(m.accumulator);
    CpuModel {
        accumulator: result,
        status: set_flag(
            set_flag(with_zero_and_negative(m.status, result), CARRY_FLAG, total > 0xff),
            OVERFLOW_FLAG,
            overflow,
        ),
        ..m
    }
}

pub open spec fn adc_model(m: CpuModel, mode: AddressingMode) -> CpuModel {
    add_with_carry_model(m, operand(m, mode))
}

pub open spec fn sbc_model(m: CpuModel, mode: AddressingMode) -> CpuModel {
    add_with_carry_model(m, (0xff - operand(m, mode)) as u8)
}

// Compares: subtract the operand from the register without storing the
// result; carry iff the register is at least the operand, zero iff equal,
// negative from the sign bit of the discarded difference.

pub open spec fn compare_model(m: CpuModel, mode: AddressingMode, register: u8) -> CpuModel {
    let value = operand(m, mode);
    let difference = wrapping_sub_u8(register, value);
    CpuModel {
        status: set_flag(
            with_zero_and_negative(m.status, difference),
            CARRY_FLAG,
            register >= value,
        ),
        ..m
    }
}

// Shifts and rotates, on the accumulator or on a memory byte. The bit
// shifted out becomes the new carry flag; rotates shift the previous carry
// flag into the vacated bit.

pub open spec fn asl_value(value: u8) -> u8 {
    value << 1
}

pub open spec fn lsr_value(value: u8) -> u8 {
    value >> 1
}

pub open spec fn rol_value(m: CpuModel, value: u8) -> u8 {
    (value << 1) | (if flag_set(m.status, CARRY_FLAG) {
        1
    } else {
        0
    })
}

pub open spec fn ror_value(m: CpuModel, value: u8) -> u8 {
    (value >> 1) | (if flag_set(m.status, CARRY_FLAG) {
        0x80
    } else {
        0
    })
}

/// A shift or rotate applied to the accumulator: the shifted value replaces
/// the accumulator, zero/negative follow it, and the bit shifted out (`out`)
/// becomes the carry flag.
pub open spec fn shift_accumulator_model(m: CpuModel, result: u8, out: bool) -> CpuModel {
    CpuModel {
        accumulator: result,
        status: set_flag(with_zero_and_negative(m.status, result), CARRY_FLAG, out),
        ..m
    }
}

/// A shift or rotate applied to the byte at an effective address.
pub open spec fn shift_memory_model(
    m: CpuModel,
    address: u16,
    result: u8,
    out: bool,
) -> CpuModel {
    CpuModel {
        memory: mem_with_byte(m.memory, address, result),
        status: set_flag(with_zero_and_negative(m.status, result), CARRY_FLAG, out),
        ..m
    }
}

pub open spec fn asl_model(m: CpuModel, mode: AddressingMode) -> CpuModel {
    if mode is Accumulator {
        shift_accumulator_model(m, asl_value(m.accumulator), bit7(m.accumulator))
    } else {
        let address = resolve(m, mode);
        let value = byte_at(m.memory, address);
        shift_memory_model(m, address, asl_value(value), bit7(value))
    }
}

pub open spec fn lsr_model(m: CpuModel, mode: AddressingMode) -> CpuModel {
    if mode is Accumulator {
        shift_accumulator_model(m, lsr_value(m.accumulator), bit0(m.accumulator))
    } else {
        let address = resolve(m, mode);
        let value = byte_at(m.memory, address);
        shift_memory_model(m, address, lsr_value(value), bit0(value))
    }
}

pub open spec fn rol_model(m: CpuModel, mode: AddressingMode) -> CpuModel {
    if mode is Accumulator {
        shift_accumulator_model(m, rol_value(m, m.accumulator), bit7(m.accumulator))
    } else {
        let address = resolve(m, mode);
        let value = byte_at(m.memory, address);
        shift_memory_model(m, address, rol_value(m, value), bit7(value))
    }
}

pub open spec fn ror_model(m: CpuModel, mode: AddressingMode) -> CpuModel {
    if mode is Accumulator {
        shift_accumulator_model(m, ror_value(m, m.accumulator), bit0(m.accumulator))
    } else {
        let address = resolve(m, mode);
        let value = byte_at(m.memory, address);
        shift_memory_model(m, address, ror_value(m, value), bit0(value))
    }
}

// Increments and decrements: add or subtract one with 8-bit wrap-around and
// update zero/negative; never an error.

pub open spec fn inc_model(m: CpuModel, mode: AddressingMode) -> CpuModel {
    let address = resolve(m, mode);
    let value = wrapping_add_u8(byte_at(m.memory, address), 1);
    CpuModel {
        memory: mem_with_byte(m.memory, address, value),
        status: with_zero_and_negative(m.status, value),
        ..m
    }
}

pub open spec fn dec_model(m: CpuModel, mode: AddressingMode) -> CpuModel {
    let address = resolve(m, mode);
    let value = wrapping_sub_u8(byte_at(m.memory, address), 1);
    CpuModel {
        memory: mem_with_byte(m.memory, address, value),
        status: with_zero_and_negative(m.status, value),
        ..m
    }
}

pub open spec fn inx_model(m: CpuModel) -> CpuModel {
    let value = wrapping_add_u8(m.register_x, 1);
    CpuModel { register_x: value, status: with_zero_and_negative(m.status, value), ..m }
}

pub open spec fn iny_model(m: CpuModel) -> CpuModel {
    let value = wrapping_add_u8(m.register_y, 1);
    CpuModel { register_y: value, status: with_zero_and_negative(m.status, value), ..m }
}

pub open spec fn dex_model(m: CpuModel) -> CpuModel {
    let value = wrapping_sub_u8(m.register_x, 1);
    CpuModel { register_x: value, status: with_zero_and_negative(m.status, value), ..m }
}

pub open spec fn dey_model(m: CpuModel) -> CpuModel {
    let value = wrapping_sub_u8(m.register_y, 1);
    CpuModel { register_y: value, status: with_zero_and_negative(m.status, value), ..m }
}

// Bit test: zero from the AND of accumulator and operand (the result is
// discarded), negative and overflow straight from bits 7 and 6 of the
// operand itself.

pub open spec fn bit_model(m: CpuModel, mode: AddressingMode) -> CpuModel {
    let value = operand(m, mode);
    let and_result = m.accumulator & value;
    CpuModel {
        status: set_flag(
            set_flag(
                set_flag(m.status, ZERO_FLAG, and_result == 0),
                NEGATIVE_FLAG,
                bit7(value),
            ),
            OVERFLOW_FLAG,
            bit6(value),
        ),
        ..m
    }
}

// Branches: when taken, the program counter moves to the relative target
// and the generic advance does not additionally apply; when not taken,
// nothing changes here and the generic advance still applies.

pub open spec fn branch_model(m: CpuModel, mode: AddressingMode, taken: bool) -> CpuModel {
    if taken {
        CpuModel { program_counter: resolve(m, mode), ..m }
    } else {
        m
    }
}

// Jumps and subroutines.

/// The target a jump moves to: the resolved address itself, except for the
/// indirect jump, which reads the real target word at that address.
pub open spec fn jmp_target(m: CpuModel, mode: AddressingMode) -> u16 {
    if mode is Indirect {
        word_at(m.memory, resolve(m, mode))
    } else {
        resolve(m, mode)
    }
}

pub open spec fn jmp_model(m: CpuModel, mode: AddressingMode) -> CpuModel {
    CpuModel { program_counter: jmp_target(m, mode), ..m }
}

/// Jump to subroutine: pushes the address of the last byte of the three-byte
/// instruction (one less than the address of the instruction that follows),
/// high byte then low, and jumps to the absolute target.
pub open spec fn jsr_model(m: CpuModel, mode: AddressingMode) -> CpuModel {
    let target = resolve(m, mode);
    let pushed = push_word_model(m, wrapping_add_u16(m.program_counter, 1));
    CpuModel { program_counter: target, ..pushed }
}

/// Return from subroutine: pops the pushed word, low byte then high, and
/// resumes one past it.
pub open spec fn rts_model(m: CpuModel) -> CpuModel {
    CpuModel {
        program_counter: wrapping_add_u16(pop_word_value(m), 1),
        ..pop_word_model(m)
    }
}

/// Return from interrupt: pops the status byte, then the program counter.
pub open spec fn rti_model(m: CpuModel) -> CpuModel {
    let after_status = pop_byte_model(m);
    CpuModel {
        status: pop_byte_value(m),
        program_counter: pop_word_value(after_status),
        ..pop_word_model(after_status)
    }
}

// Stack instructions.

pub open spec fn pha_model(m: CpuModel) -> CpuModel {
    push_byte_model(m, m.accumulator)
}

pub open spec fn php_model(m: CpuModel) -> CpuModel {
    push_byte_model(m, m.status)
}

pub open spec fn pla_model(m: CpuModel) -> CpuModel {
    let value = pop_byte_value(m);
    CpuModel {
        accumulator: value,
        status: with_zero_and_negative(pop_byte_model(m).status, value),
        ..pop_byte_model(m)
    }
}

pub open spec fn plp_model(m: CpuModel) -> CpuModel {
    CpuModel { status: pop_byte_value(m), ..pop_byte_model(m) }
}

// Flag instructions: set or clear exactly one named flag.

pub open spec fn status_model(m: CpuModel, flag: u8, on: bool) -> CpuModel {
    CpuModel { status: set_flag(m.status, flag, on), ..m }
}

// Halt: push the return address and the status byte, set the break flag,
// and leave the execution loop.

pub open spec fn brk_model(m: CpuModel) -> CpuModel {
    let pushed = push_byte_model(push_word_model(m, m.program_counter), m.status);
    CpuModel { status: set_flag(pushed.status, BREAK_FLAG, true), ..pushed }
}

// ---------------------------------------------------------------------------
// One step of the execution loop, and its iteration.
// ---------------------------------------------------------------------------

/// What one fetch-decode-execute step does: either the machine keeps going
/// in a new state, or it halts on a break instruction, or it faults on an
/// opcode byte the table does not know.
pub enum StepResult {
    KeepGoing(CpuModel),
    Halted(CpuModel),
    Fault,
}

/// The effect of one decoded instruction on the machine whose program
/// counter already points past the opcode byte, together with whether the
/// instruction set the program counter itself (so that the generic advance
/// must not additionally apply).
pub open spec fn instr_effect(m: CpuModel, op: OpCode) -> (CpuModel, bool) {
    let mode = op.addressing_mode;
    match op.instruction {
        Instruction::ADC => (adc_model(m, mode), false),
        Instruction::AND => (and_model(m, mode), false),
        Instruction::ASL => (asl_model(m, mode), false),
        Instruction::BCC => {
            let taken = !flag_set(m.status, CARRY_FLAG);
            (branch_model(m, mode, taken), taken)
        },
        Instruction::BCS => {
            let taken = flag_set(m.status, CARRY_FLAG);
            (branch_model(m, mode, taken), taken)
        },
        Instruction::BEQ => {
            let taken = flag_set(m.status, ZERO_FLAG);
            (branch_model(m, mode, taken), taken)
        },
        Instruction::BIT => (bit_model(m, mode), false),
        Instruction::BMI => {
            let taken = flag_set(m.status, NEGATIVE_FLAG);
            (branch_model(m, mode, taken), taken)
        },
        Instruction::BNE => {
            let taken = !flag_set(m.status, ZERO_FLAG);
            (branch_model(m, mode, taken), taken)
        },
        Instruction::BPL => {
            let taken = !flag_set(m.status, NEGATIVE_FLAG);
            (branch_model(m, mode, taken), taken)
        },
        Instruction::BRK => (brk_model(m), true),
        Instruction::BVC => {
            let taken = !flag_set(m.status, OVERFLOW_FLAG);
            (branch_model(m, mode, taken), taken)
        },
        Instruction::BVS => {
            let taken = flag_set(m.status, OVERFLOW_FLAG);
            (branch_model(m, mode, taken), taken)
        },
        Instruction::CLC => (status_model(m, CARRY_FLAG, false), false),
        Instruction::CLD => (status_model(m, DECIMAL_FLAG, false), false),
        Instruction::CLI => (status_model(m, INTERRUPT_DISABLE_FLAG, false), false),
        Instruction::CLV => (status_model(m, OVERFLOW_FLAG, false), false),
        Instruction::CMP => (compare_model(m, mode, m.accumulator), false),
        Instruction::CPX => (compare_model(m, mode, m.register_x), false),
        Instruction::CPY => (compare_model(m, mode, m.register_y), false),
        Instruction::DEC => (dec_model(m, mode), false),
        Instruction::DEX => (dex_model(m), false),
        Instruction::DEY => (dey_model(m), false),
        Instruction::EOR => (eor_model(m, mode), false),
        Instruction::INC => (inc_model(m, mode), false),
        Instruction::INX => (inx_model(m), false),
        Instruction::INY => (iny_model(m), false),
        Instruction::JMP => (jmp_model(m, mode), true),
        Instruction::JSR => (jsr_model(m, mode), true),
        Instruction::LDA => (lda_model(m, mode), false),
        Instruction::LDX => (ldx_model(m, mode), false),
        Instruction::LDY => (ldy_model(m, mode), false),
        Instruction::LSR => (lsr_model(m, mode), false),
        Instruction::NOP => (m, false),
        Instruction::ORA => (ora_model(m, mode), false),
        Instruction::PHA => (pha_model(m), false),
        Instruction::PHP => (php_model(m), false),
        Instruction::PLA => (pla_model(m), false),
        Instruction::PLP => (plp_model(m), false),
        Instruction::ROL => (rol_model(m, mode), false),
        Instruction::ROR => (ror_model(m, mode), false),
        Instruction::RTI => (rti_model(m), true),
        Instruction::RTS => (rts_model(m), true),
        Instruction::SBC => (sbc_model(m, mode), false),
        Instruction::SEC => (status_model(m, CARRY_FLAG, true), false),
        Instruction::SED => (status_model(m, DECIMAL_FLAG, true), false),
        Instruction::SEI => (status_model(m, INTERRUPT_DISABLE_FLAG, true), false),
        Instruction::STA => (sta_model(m, mode), false),
        Instruction::STX => (stx_model(m, mode), false),
        Instruction::STY => (sty_model(m, mode), false),
        Instruction::TAX => (tax_model(m), false),
        Instruction::TAY => (tay_model(m), false),
        Instruction::TSX => (tsx_model(m), false),
        Instruction::TXA => (txa_model(m), false),
        Instruction::TXS => (txs_model(m), false),
        Instruction::TYA => (tya_model(m), false),
    }
}

/// One full step of the execution loop. Fetch: read the opcode byte at the
/// program counter and advance the counter past it. Decode: look the byte
/// up in the table, faulting when it is absent. Execute: apply the
/// instruction's effect; a break instruction halts the loop. Advance: an
/// instruction that did not set the counter itself gets the generic advance
/// by its remaining length.
pub open spec fn spec_step(m: CpuModel) -> StepResult {
    match spec_decode(byte_at(m.memory, m.program_counter)) {
        Option::None => StepResult::Fault,
        Option::Some(op) => {
            let fetched = CpuModel {
                program_counter: wrapping_add_u16(m.program_counter, 1),
                ..m
            };
            if op.instruction is BRK {
                StepResult::Halted(brk_model(fetched))
            } else {
                let (executed, pc_set) = instr_effect(fetched, op);
                StepResult::KeepGoing(
                    if pc_set {
                        executed
                    } else {
                        CpuModel {
                            program_counter: wrapping_add_u16(
                                executed.program_counter,
                                (op.bytes - 1) as u16,
                            ),
                            ..executed
                        }
                    },
                )
            }
        },
    }
}

/// The machine after `n` full steps, `None` when the loop stops earlier.
pub open spec fn take_steps(m: CpuModel, n: nat) -> Option<CpuModel>
    decreases n,
{
    if n == 0 {
        Option::Some(m)
    } else {
        match spec_step(m) {
            StepResult::KeepGoing(next) => take_steps(next, (n - 1) as nat),
            _ => Option::None,
        }
    }
}

/// Running from `m` passes through `target` after exactly `n` full steps.
pub open spec fn reaches(m: CpuModel, target: CpuModel, n: nat) -> bool {
    take_steps(m, n) == Option::<CpuModel>::Some(target)
}

/// Running from `m` executes `n` full steps and then halts on a break
/// instruction, leaving the machine in `target`.
pub open spec fn halts_to(m: CpuModel, target: CpuModel, n: nat) -> bool {
    match take_steps(m, n) {
        Option::Some(last) => spec_step(last) == StepResult::Halted(target),
        Option::None => false,
    }
}

/// Appending one more step to a completed run of `n` steps.
pub proof fn lemma_take_steps_extend(m: CpuModel, middle: CpuModel, next: CpuModel, n: nat)
    requires
        take_steps(m, n) == Option::<CpuModel>::Some(middle),
        spec_step(middle) == StepResult::KeepGoing(next),
    ensures
        take_steps(m, n + 1) == Option::<CpuModel>::Some(next),
    decreases n,
{
    if n == 0 {
        assert(middle == m);
        assert(take_steps(next, 0) == Option::<CpuModel>::Some(next));
    } else {
        match spec_step(m) {
            StepResult::KeepGoing(second) => {
                lemma_take_steps_extend(second, middle, next, (n - 1) as nat);
            },
            _ => {
                assert(false);
            },
        }
    }
}

} // verus!
