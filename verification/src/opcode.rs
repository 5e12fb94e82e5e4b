//! The opcode table: the mapping from an opcode byte to its instruction
//! descriptor (instruction kind, opcode byte, length in bytes, base cycle
//! count, addressing mode).
//!
//! `spec_decode` is the table as a spec function; `get_opcode_with_code` is
//! the executable lookup, proved to agree with it entry for entry. A byte
//! with no entry decodes to `None`, which the execution loop treats as a
//! fatal fault.

use vstd::prelude::*;

verus! {

use crate::cpu::AddressingMode;
use crate::model::resolvable;

/// The instruction kinds of the documented opcode table.
#[derive(Debug, Clone, Copy)]
pub enum Instruction {
    ADC,
    AND,
    ASL,
    BCC,
    BCS,
    BEQ,
    BIT,
    BMI,
    BNE,
    BPL,
    BRK,
    BVC,
    BVS,
    CLC,
    CLD,
    CLI,
    CLV,
    CMP,
    CPX,
    CPY,
    DEC,
    DEX,
    DEY,
    EOR,
    INC,
    INX,
    INY,
    JMP,
    JSR,
    LDA,
    LDX,
    LDY,
    LSR,
    NOP,
    ORA,
    PHA,
    PHP,
    PLA,
    PLP,
    ROL,
    ROR,
    RTI,
    RTS,
    SBC,
    SEC,
    SED,
    SEI,
    STA,
    STX,
    STY,
    TAX,
    TAY,
    TSX,
    TXA,
    TXS,
    TYA,
}

/// One immutable instruction descriptor of the opcode table.
#[derive(Debug, Clone, Copy)]
pub struct OpCode {
    pub instruction: Instruction,
    pub code: u8,
    pub bytes: u8,
    pub cycles: u8,
    pub addressing_mode: AddressingMode,
}

impl OpCode {
    pub fn new(
        instruction: Instruction,
        code: u8,
        bytes: u8,
        cycles: u8,
        addressing_mode: AddressingMode,
    ) -> (op: Self)
        ensures
            op == (OpCode { instruction, code, bytes, cycles, addressing_mode }),
    {
        OpCode { instruction, code, bytes, cycles, addressing_mode }
    }

    pub fn get_instruction(&self) -> (instruction: &Instruction)
        ensures
            *instruction == self.instruction,
    {
        &self.instruction
    }

    pub fn get_code(&self) -> (code: u8)
        ensures
            code == self.code,
    {
        self.code
    }

    pub fn get_bytes(&self) -> (bytes: u8)
        ensures
            bytes == self.bytes,
    {
        self.bytes
    }

    pub fn get_cycles(&self) -> (cycles: u8)
        ensures
            cycles == self.cycles,
    {
        self.cycles
    }

    pub fn get_addressing_mode(&self) -> (mode: &AddressingMode)
        ensures
            *mode == self.addressing_mode,
    {
        &self.addressing_mode
    }
}

/// Structural facts that hold of every entry of the table: the length is
/// between one and three bytes, and the addressing mode fits the
/// instruction, so that the executor never asks the resolver for a mode it
/// does not resolve.
pub open spec fn op_wf(op: OpCode) -> bool {
    &&& 1 <= op.bytes <= 3
    &&& match op.instruction {
        Instruction::LDA | Instruction::LDX | Instruction::LDY | Instruction::STA
        | Instruction::STX | Instruction::STY | Instruction::ADC | Instruction::SBC
        | Instruction::AND | Instruction::ORA | Instruction::EOR | Instruction::CMP
        | Instruction::CPX | Instruction::CPY | Instruction::BIT | Instruction::INC
        | Instruction::DEC => resolvable(op.addressing_mode),
        Instruction::ASL | Instruction::LSR | Instruction::ROL | Instruction::ROR => {
            op.addressing_mode is Accumulator || resolvable(op.addressing_mode)
        },
        Instruction::BCC | Instruction::BCS | Instruction::BEQ | Instruction::BNE
        | Instruction::BMI | Instruction::BPL | Instruction::BVC | Instruction::BVS => {
            op.addressing_mode is Relative && op.bytes == 2
        },
        Instruction::JMP => op.addressing_mode is Absolute || op.addressing_mode is Indirect,
        Instruction::JSR => op.addressing_mode is Absolute,
        _ => true,
    }
}

/// The opcode table itself: the descriptor for each supported opcode byte,
/// `None` for every byte the core does not claim to support.
pub open spec fn spec_decode(code: u8) -> Option<OpCode> {
    match code {
        0x69 => Some(OpCode { instruction: Instruction::ADC, code: 0x69, bytes: 2, cycles: 2, addressing_mode: AddressingMode::Immediate }),
        0x65 => Some(OpCode { instruction: Instruction::ADC, code: 0x65, bytes: 2, cycles: 3, addressing_mode: AddressingMode::ZeroPage }),
        0x75 => Some(OpCode { instruction: Instruction::ADC, code: 0x75, bytes: 2, cycles: 4, addressing_mode: AddressingMode::ZeroPageX }),
        0x6d => Some(OpCode { instruction: Instruction::ADC, code: 0x6d, bytes: 3, cycles: 4, addressing_mode: AddressingMode::Absolute }),
        0x7d => Some(OpCode { instruction: Instruction::ADC, code: 0x7d, bytes: 3, cycles: 4, addressing_mode: AddressingMode::AbsoluteX }),
        0x79 => Some(OpCode { instruction: Instruction::ADC, code: 0x79, bytes: 3, cycles: 4, addressing_mode: AddressingMode::AbsoluteY }),
        0x61 => Some(OpCode { instruction: Instruction::ADC, code: 0x61, bytes: 2, cycles: 6, addressing_mode: AddressingMode::IndirectX }),
        0x71 => Some(OpCode { instruction: Instruction::ADC, code: 0x71, bytes: 2, cycles: 5, addressing_mode: AddressingMode::IndirectY }),
        0x29 => Some(OpCode { instruction: Instruction::AND, code: 0x29, bytes: 2, cycles: 2, addressing_mode: AddressingMode::Immediate }),
        0x25 => Some(OpCode { instruction: Instruction::AND, code: 0x25, bytes: 2, cycles: 3, addressing_mode: AddressingMode::ZeroPage }),
        0x35 => Some(OpCode { instruction: Instruction::AND, code: 0x35, bytes: 2, cycles: 4, addressing_mode: AddressingMode::ZeroPageX }),
        0x2d => Some(OpCode { instruction: Instruction::AND, code: 0x2d, bytes: 3, cycles: 4, addressing_mode: AddressingMode::Absolute }),
        0x3d => Some(OpCode { instruction: Instruction::AND, code: 0x3d, bytes: 3, cycles: 4, addressing_mode: AddressingMode::AbsoluteX }),
        0x39 => Some(OpCode { instruction: Instruction::AND, code: 0x39, bytes: 3, cycles: 4, addressing_mode: AddressingMode::AbsoluteY }),
        0x21 => Some(OpCode { instruction: Instruction::AND, code: 0x21, bytes: 2, cycles: 6, addressing_mode: AddressingMode::IndirectX }),
        0x31 => Some(OpCode { instruction: Instruction::AND, code: 0x31, bytes: 2, cycles: 5, addressing_mode: AddressingMode::IndirectY }),
        0x0a => Some(OpCode { instruction: Instruction::ASL, code: 0x0a, bytes: 1, cycles: 2, addressing_mode: AddressingMode::Accumulator }),
        0x06 => Some(OpCode { instruction: Instruction::ASL, code: 0x06, bytes: 2, cycles: 5, addressing_mode: AddressingMode::ZeroPage }),
        0x16 => Some(OpCode { instruction: Instruction::ASL, code: 0x16, bytes: 2, cycles: 6, addressing_mode: AddressingMode::ZeroPageX }),
        0x0e => Some(OpCode { instruction: Instruction::ASL, code: 0x0e, bytes: 3, cycles: 6, addressing_mode: AddressingMode::Absolute }),
        0x1e => Some(OpCode { instruction: Instruction::ASL, code: 0x1e, bytes: 3, cycles: 7, addressing_mode: AddressingMode::AbsoluteX }),
        0x90 => Some(OpCode { instruction: Instruction::BCC, code: 0x90, bytes: 2, cycles: 2, addressing_mode: AddressingMode::Relative }),
        0xb0 => Some(OpCode { instruction: Instruction::BCS, code: 0xb0, bytes: 2, cycles: 2, addressing_mode: AddressingMode::Relative }),
        0xf0 => Some(OpCode { instruction: Instruction::BEQ, code: 0xf0, bytes: 2, cycles: 2, addressing_mode: AddressingMode::Relative }),
        0x24 => Some(OpCode { instruction: Instruction::BIT, code: 0x24, bytes: 2, cycles: 3, addressing_mode: AddressingMode::ZeroPage }),
        0x2c => Some(OpCode { instruction: Instruction::BIT, code: 0x2c, bytes: 3, cycles: 4, addressing_mode: AddressingMode::Absolute }),
        0x30 => Some(OpCode { instruction: Instruction::BMI, code: 0x30, bytes: 2, cycles: 2, addressing_mode: AddressingMode::Relative }),
        0xd0 => Some(OpCode { instruction: Instruction::BNE, code: 0xd0, bytes: 2, cycles: 2, addressing_mode: AddressingMode::Relative }),
        0x10 => Some(OpCode { instruction: Instruction::BPL, code: 0x10, bytes: 2, cycles: 2, addressing_mode: AddressingMode::Relative }),
        0x00 => Some(OpCode { instruction: Instruction::BRK, code: 0x00, bytes: 1, cycles: 7, addressing_mode: AddressingMode::Implied }),
        0x50 => Some(OpCode { instruction: Instruction::BVC, code: 0x50, bytes: 2, cycles: 2, addressing_mode: AddressingMode::Relative }),
        0x70 => Some(OpCode { instruction: Instruction::BVS, code: 0x70, bytes: 2, cycles: 2, addressing_mode: AddressingMode::Relative }),
        0x18 => Some(OpCode { instruction: Instruction::CLC, code: 0x18, bytes: 1, cycles: 2, addressing_mode: AddressingMode::Implied }),
        0xd8 => Some(OpCode { instruction: Instruction::CLD, code: 0xd8, bytes: 1, cycles: 2, addressing_mode: AddressingMode::Implied }),
        0x58 => Some(OpCode { instruction: Instruction::CLI, code: 0x58, bytes: 1, cycles: 2, addressing_mode: AddressingMode::Implied }),
        0xb8 => Some(OpCode { instruction: Instruction::CLV, code: 0xb8, bytes: 1, cycles: 2, addressing_mode: AddressingMode::Implied }),
        0xc9 => Some(OpCode { instruction: Instruction::CMP, code: 0xc9, bytes: 2, cycles: 2, addressing_mode: AddressingMode::Immediate }),
        0xc5 => Some(OpCode { instruction: Instruction::CMP, code: 0xc5, bytes: 2, cycles: 3, addressing_mode: AddressingMode::ZeroPage }),
        0xd5 => Some(OpCode { instruction: Instruction::CMP, code: 0xd5, bytes: 2, cycles: 4, addressing_mode: AddressingMode::ZeroPageX }),
        0xcd => Some(OpCode { instruction: Instruction::CMP, code: 0xcd, bytes: 3, cycles: 4, addressing_mode: AddressingMode::Absolute }),
        0xdd => Some(OpCode { instruction: Instruction::CMP, code: 0xdd, bytes: 3, cycles: 4, addressing_mode: AddressingMode::AbsoluteX }),
        0xd9 => Some(OpCode { instruction: Instruction::CMP, code: 0xd9, bytes: 3, cycles: 4, addressing_mode: AddressingMode::AbsoluteY }),
        0xc1 => Some(OpCode { instruction: Instruction::CMP, code: 0xc1, bytes: 2, cycles: 6, addressing_mode: AddressingMode::IndirectX }),
        0xd1 => Some(OpCode { instruction: Instruction::CMP, code: 0xd1, bytes: 2, cycles: 5, addressing_mode: AddressingMode::IndirectY }),
        0xe0 => Some(OpCode { instruction: Instruction::CPX, code: 0xe0, bytes: 2, cycles: 2, addressing_mode: AddressingMode::Immediate }),
        0xe4 => Some(OpCode { instruction: Instruction::CPX, code: 0xe4, bytes: 2, cycles: 3, addressing_mode: AddressingMode::ZeroPage }),
        0xec => Some(OpCode { instruction: Instruction::CPX, code: 0xec, bytes: 3, cycles: 4, addressing_mode: AddressingMode::Absolute }),
        0xc0 => Some(OpCode { instruction: Instruction::CPY, code: 0xc0, bytes: 2, cycles: 2, addressing_mode: AddressingMode::Immediate }),
        0xc4 => Some(OpCode { instruction: Instruction::CPY, code: 0xc4, bytes: 2, cycles: 3, addressing_mode: AddressingMode::ZeroPage }),
        0xcc => Some(OpCode { instruction: Instruction::CPY, code: 0xcc, bytes: 3, cycles: 4, addressing_mode: AddressingMode::Absolute }),
        0xc6 => Some(OpCode { instruction: Instruction::DEC, code: 0xc6, bytes: 2, cycles: 5, addressing_mode: AddressingMode::ZeroPage }),
        0xd6 => Some(OpCode { instruction: Instruction::DEC, code: 0xd6, bytes: 2, cycles: 6, addressing_mode: AddressingMode::ZeroPageX }),
        0xce => Some(OpCode { instruction: Instruction::DEC, code: 0xce, bytes: 3, cycles: 6, addressing_mode: AddressingMode::Absolute }),
        0xde => Some(OpCode { instruction: Instruction::DEC, code: 0xde, bytes: 3, cycles: 7, addressing_mode: AddressingMode::AbsoluteX }),
        0xca => Some(OpCode { instruction: Instruction::DEX, code: 0xca, bytes: 1, cycles: 2, addressing_mode: AddressingMode::Implied }),
        0x88 => Some(OpCode { instruction: Instruction::DEY, code: 0x88, bytes: 1, cycles: 2, addressing_mode: AddressingMode::Implied }),
        0x49 => Some(OpCode { instruction: Instruction::EOR, code: 0x49, bytes: 2, cycles: 2, addressing_mode: AddressingMode::Immediate }),
        0x45 => Some(OpCode { instruction: Instruction::EOR, code: 0x45, bytes: 2, cycles: 3, addressing_mode: AddressingMode::ZeroPage }),
        0x55 => Some(OpCode { instruction: Instruction::EOR, code: 0x55, bytes: 2, cycles: 4, addressing_mode: AddressingMode::ZeroPageX }),
        0x4d => Some(OpCode { instruction: Instruction::EOR, code: 0x4d, bytes: 3, cycles: 4, addressing_mode: AddressingMode::Absolute }),
        0x5d => Some(OpCode { instruction: Instruction::EOR, code: 0x5d, bytes: 3, cycles: 4, addressing_mode: AddressingMode::AbsoluteX }),
        0x59 => Some(OpCode { instruction: Instruction::EOR, code: 0x59, bytes: 3, cycles: 4, addressing_mode: AddressingMode::AbsoluteY }),
        0x41 => Some(OpCode { instruction: Instruction::EOR, code: 0x41, bytes: 2, cycles: 6, addressing_mode: AddressingMode::IndirectX }),
        0x51 => Some(OpCode { instruction: Instruction::EOR, code: 0x51, bytes: 2, cycles: 5, addressing_mode: AddressingMode::IndirectY }),
        0xe6 => Some(OpCode { instruction: Instruction::INC, code: 0xe6, bytes: 2, cycles: 5, addressing_mode: AddressingMode::ZeroPage }),
        0xf6 => Some(OpCode { instruction: Instruction::INC, code: 0xf6, bytes: 2, cycles: 6, addressing_mode: AddressingMode::ZeroPageX }),
        0xee => Some(OpCode { instruction: Instruction::INC, code: 0xee, bytes: 3, cycles: 6, addressing_mode: AddressingMode::Absolute }),
        0xfe => Some(OpCode { instruction: Instruction::INC, code: 0xfe, bytes: 3, cycles: 7, addressing_mode: AddressingMode::AbsoluteX }),
        0xe8 => Some(OpCode { instruction: Instruction::INX, code: 0xe8, bytes: 1, cycles: 2, addressing_mode: AddressingMode::Implied }),
        0xc8 => Some(OpCode { instruction: Instruction::INY, code: 0xc8, bytes: 1, cycles: 2, addressing_mode: AddressingMode::Implied }),
        0x4c => Some(OpCode { instruction: Instruction::JMP, code: 0x4c, bytes: 3, cycles: 3, addressing_mode: AddressingMode::Absolute }),
        0x6c => Some(OpCode { instruction: Instruction::JMP, code: 0x6c, bytes: 3, cycles: 5, addressing_mode: AddressingMode::Indirect }),
        0x20 => Some(OpCode { instruction: Instruction::JSR, code: 0x20, bytes: 3, cycles: 6, addressing_mode: AddressingMode::Absolute }),
        0xa9 => Some(OpCode { instruction: Instruction::LDA, code: 0xa9, bytes: 2, cycles: 2, addressing_mode: AddressingMode::Immediate }),
        0xa5 => Some(OpCode { instruction: Instruction::LDA, code: 0xa5, bytes: 2, cycles: 3, addressing_mode: AddressingMode::ZeroPage }),
        0xb5 => Some(OpCode { instruction: Instruction::LDA, code: 0xb5, bytes: 2, cycles: 4, addressing_mode: AddressingMode::ZeroPageX }),
        0xad => Some(OpCode { instruction: Instruction::LDA, code: 0xad, bytes: 3, cycles: 4, addressing_mode: AddressingMode::Absolute }),
        0xbd => Some(OpCode { instruction: Instruction::LDA, code: 0xbd, bytes: 3, cycles: 4, addressing_mode: AddressingMode::AbsoluteX }),
        0xb9 => Some(OpCode { instruction: Instruction::LDA, code: 0xb9, bytes: 3, cycles: 4, addressing_mode: AddressingMode::AbsoluteY }),
        0xa1 => Some(OpCode { instruction: Instruction::LDA, code: 0xa1, bytes: 2, cycles: 6, addressing_mode: AddressingMode::IndirectX }),
        0xb1 => Some(OpCode { instruction: Instruction::LDA, code: 0xb1, bytes: 2, cycles: 5, addressing_mode: AddressingMode::IndirectY }),
        0xa2 => Some(OpCode { instruction: Instruction::LDX, code: 0xa2, bytes: 2, cycles: 2, addressing_mode: AddressingMode::Immediate }),
        0xa6 => Some(OpCode { instruction: Instruction::LDX, code: 0xa6, bytes: 2, cycles: 3, addressing_mode: AddressingMode::ZeroPage }),
        0xb6 => Some(OpCode { instruction: Instruction::LDX, code: 0xb6, bytes: 2, cycles: 4, addressing_mode: AddressingMode::ZeroPageY }),
        0xae => Some(OpCode { instruction: Instruction::LDX, code: 0xae, bytes: 3, cycles: 4, addressing_mode: AddressingMode::Absolute }),
        0xbe => Some(OpCode { instruction: Instruction::LDX, code: 0xbe, bytes: 3, cycles: 4, addressing_mode: AddressingMode::AbsoluteY }),
        0xa0 => Some(OpCode { instruction: Instruction::LDY, code: 0xa0, bytes: 2, cycles: 2, addressing_mode: AddressingMode::Immediate }),
        0xa4 => Some(OpCode { instruction: Instruction::LDY, code: 0xa4, bytes: 2, cycles: 3, addressing_mode: AddressingMode::ZeroPage }),
        0xb4 => Some(OpCode { instruction: Instruction::LDY, code: 0xb4, bytes: 2, cycles: 4, addressing_mode: AddressingMode::ZeroPageX }),
        0xac => Some(OpCode { instruction: Instruction::LDY, code: 0xac, bytes: 3, cycles: 4, addressing_mode: AddressingMode::Absolute }),
        0xbc => Some(OpCode { instruction: Instruction::LDY, code: 0xbc, bytes: 3, cycles: 4, addressing_mode: AddressingMode::AbsoluteX }),
        0x4a => Some(OpCode { instruction: Instruction::LSR, code: 0x4a, bytes: 1, cycles: 2, addressing_mode: AddressingMode::Accumulator }),
        0x46 => Some(OpCode { instruction: Instruction::LSR, code: 0x46, bytes: 2, cycles: 5, addressing_mode: AddressingMode::ZeroPage }),
        0x56 => Some(OpCode { instruction: Instruction::LSR, code: 0x56, bytes: 2, cycles: 6, addressing_mode: AddressingMode::ZeroPageX }),
        0x4e => Some(OpCode { instruction: Instruction::LSR, code: 0x4e, bytes: 3, cycles: 6, addressing_mode: AddressingMode::Absolute }),
        0x5e => Some(OpCode { instruction: Instruction::LSR, code: 0x5e, bytes: 3, cycles: 7, addressing_mode: AddressingMode::AbsoluteX }),
        0xea => Some(OpCode { instruction: Instruction::NOP, code: 0xea, bytes: 1, cycles: 2, addressing_mode: AddressingMode::Implied }),
        0x09 => Some(OpCode { instruction: Instruction::ORA, code: 0x09, bytes: 2, cycles: 2, addressing_mode: AddressingMode::Immediate }),
        0x05 => Some(OpCode { instruction: Instruction::ORA, code: 0x05, bytes: 2, cycles: 3, addressing_mode: AddressingMode::ZeroPage }),
        0x15 => Some(OpCode { instruction: Instruction::ORA, code: 0x15, bytes: 2, cycles: 4, addressing_mode: AddressingMode::ZeroPageX }),
        0x0d => Some(OpCode { instruction: Instruction::ORA, code: 0x0d, bytes: 3, cycles: 4, addressing_mode: AddressingMode::Absolute }),
        0x1d => Some(OpCode { instruction: Instruction::ORA, code: 0x1d, bytes: 3, cycles: 4, addressing_mode: AddressingMode::AbsoluteX }),
        0x19 => Some(OpCode { instruction: Instruction::ORA, code: 0x19, bytes: 3, cycles: 4, addressing_mode: AddressingMode::AbsoluteY }),
        0x01 => Some(OpCode { instruction: Instruction::ORA, code: 0x01, bytes: 2, cycles: 6, addressing_mode: AddressingMode::IndirectX }),
        0x11 => Some(OpCode { instruction: Instruction::ORA, code: 0x11, bytes: 2, cycles: 5, addressing_mode: AddressingMode::IndirectY }),
        0x48 => Some(OpCode { instruction: Instruction::PHA, code: 0x48, bytes: 1, cycles: 3, addressing_mode: AddressingMode::Implied }),
        0x08 => Some(OpCode { instruction: Instruction::PHP, code: 0x08, bytes: 1, cycles: 3, addressing_mode: AddressingMode::Implied }),
        0x68 => Some(OpCode { instruction: Instruction::PLA, code: 0x68, bytes: 1, cycles: 4, addressing_mode: AddressingMode::Implied }),
        0x28 => Some(OpCode { instruction: Instruction::PLP, code: 0x28, bytes: 1, cycles: 4, addressing_mode: AddressingMode::Implied }),
        0x2a => Some(OpCode { instruction: Instruction::ROL, code: 0x2a, bytes: 1, cycles: 2, addressing_mode: AddressingMode::Accumulator }),
        0x26 => Some(OpCode { instruction: Instruction::ROL, code: 0x26, bytes: 2, cycles: 5, addressing_mode: AddressingMode::ZeroPage }),
        0x36 => Some(OpCode { instruction: Instruction::ROL, code: 0x36, bytes: 2, cycles: 6, addressing_mode: AddressingMode::ZeroPageX }),
        0x2e => Some(OpCode { instruction: Instruction::ROL, code: 0x2e, bytes: 3, cycles: 6, addressing_mode: AddressingMode::Absolute }),
        0x3e => Some(OpCode { instruction: Instruction::ROL, code: 0x3e, bytes: 3, cycles: 7, addressing_mode: AddressingMode::AbsoluteX }),
        0x6a => Some(OpCode { instruction: Instruction::ROR, code: 0x6a, bytes: 1, cycles: 2, addressing_mode: AddressingMode::Accumulator }),
        0x66 => Some(OpCode { instruction: Instruction::ROR, code: 0x66, bytes: 2, cycles: 5, addressing_mode: AddressingMode::ZeroPage }),
        0x76 => Some(OpCode { instruction: Instruction::ROR, code: 0x76, bytes: 2, cycles: 6, addressing_mode: AddressingMode::ZeroPageX }),
        0x6e => Some(OpCode { instruction: Instruction::ROR, code: 0x6e, bytes: 3, cycles: 6, addressing_mode: AddressingMode::Absolute }),
        0x7e => Some(OpCode { instruction: Instruction::ROR, code: 0x7e, bytes: 3, cycles: 7, addressing_mode: AddressingMode::AbsoluteX }),
        0x40 => Some(OpCode { instruction: Instruction::RTI, code: 0x40, bytes: 1, cycles: 6, addressing_mode: AddressingMode::Implied }),
        0x60 => Some(OpCode { instruction: Instruction::RTS, code: 0x60, bytes: 1, cycles: 6, addressing_mode: AddressingMode::Implied }),
        0xe9 => Some(OpCode { instruction: Instruction::SBC, code: 0xe9, bytes: 2, cycles: 2, addressing_mode: AddressingMode::Immediate }),
        0xe5 => Some(OpCode { instruction: Instruction::SBC, code: 0xe5, bytes: 2, cycles: 3, addressing_mode: AddressingMode::ZeroPage }),
        0xf5 => Some(OpCode { instruction: Instruction::SBC, code: 0xf5, bytes: 2, cycles: 4, addressing_mode: AddressingMode::ZeroPageX }),
        0xed => Some(OpCode { instruction: Instruction::SBC, code: 0xed, bytes: 3, cycles: 4, addressing_mode: AddressingMode::Absolute }),
        0xfd => Some(OpCode { instruction: Instruction::SBC, code: 0xfd, bytes: 3, cycles: 4, addressing_mode: AddressingMode::AbsoluteX }),
        0xf9 => Some(OpCode { instruction: Instruction::SBC, code: 0xf9, bytes: 3, cycles: 4, addressing_mode: AddressingMode::AbsoluteY }),
        0xe1 => Some(OpCode { instruction: Instruction::SBC, code: 0xe1, bytes: 2, cycles: 6, addressing_mode: AddressingMode::IndirectX }),
        0xf1 => Some(OpCode { instruction: Instruction::SBC, code: 0xf1, bytes: 2, cycles: 5, addressing_mode: AddressingMode::IndirectY }),
        0x38 => Some(OpCode { instruction: Instruction::SEC, code: 0x38, bytes: 1, cycles: 2, addressing_mode: AddressingMode::Implied }),
        0xf8 => Some(OpCode { instruction: Instruction::SED, code: 0xf8, bytes: 1, cycles: 2, addressing_mode: AddressingMode::Implied }),
        0x78 => Some(OpCode { instruction: Instruction::SEI, code: 0x78, bytes: 1, cycles: 2, addressing_mode: AddressingMode::Implied }),
        0x85 => Some(OpCode { instruction: Instruction::STA, code: 0x85, bytes: 2, cycles: 3, addressing_mode: AddressingMode::ZeroPage }),
        0x95 => Some(OpCode { instruction: Instruction::STA, code: 0x95, bytes: 2, cycles: 4, addressing_mode: AddressingMode::ZeroPageX }),
        0x8d => Some(OpCode { instruction: Instruction::STA, code: 0x8d, bytes: 3, cycles: 4, addressing_mode: AddressingMode::Absolute }),
        0x9d => Some(OpCode { instruction: Instruction::STA, code: 0x9d, bytes: 3, cycles: 5, addressing_mode: AddressingMode::AbsoluteX }),
        0x99 => Some(OpCode { instruction: Instruction::STA, code: 0x99, bytes: 3, cycles: 5, addressing_mode: AddressingMode::AbsoluteY }),
        0x81 => Some(OpCode { instruction: Instruction::STA, code: 0x81, bytes: 2, cycles: 6, addressing_mode: AddressingMode::IndirectX }),
        0x91 => Some(OpCode { instruction: Instruction::STA, code: 0x91, bytes: 2, cycles: 6, addressing_mode: AddressingMode::IndirectY }),
        0x86 => Some(OpCode { instruction: Instruction::STX, code: 0x86, bytes: 2, cycles: 3, addressing_mode: AddressingMode::ZeroPage }),
        0x96 => Some(OpCode { instruction: Instruction::STX, code: 0x96, bytes: 2, cycles: 4, addressing_mode: AddressingMode::ZeroPageY }),
        0x8e => Some(OpCode { instruction: Instruction::STX, code: 0x8e, bytes: 3, cycles: 4, addressing_mode: AddressingMode::Absolute }),
        0x84 => Some(OpCode { instruction: Instruction::STY, code: 0x84, bytes: 2, cycles: 3, addressing_mode: AddressingMode::ZeroPage }),
        0x94 => Some(OpCode { instruction: Instruction::STY, code: 0x94, bytes: 2, cycles: 4, addressing_mode: AddressingMode::ZeroPageX }),
        0x8c => Some(OpCode { instruction: Instruction::STY, code: 0x8c, bytes: 3, cycles: 4, addressing_mode: AddressingMode::Absolute }),
        0xaa => Some(OpCode { instruction: Instruction::TAX, code: 0xaa, bytes: 1, cycles: 2, addressing_mode: AddressingMode::Implied }),
        0xa8 => Some(OpCode { instruction: Instruction::TAY, code: 0xa8, bytes: 1, cycles: 2, addressing_mode: AddressingMode::Implied }),
        0xba => Some(OpCode { instruction: Instruction::TSX, code: 0xba, bytes: 1, cycles: 2, addressing_mode: AddressingMode::Implied }),
        0x8a => Some(OpCode { instruction: Instruction::TXA, code: 0x8a, bytes: 1, cycles: 2, addressing_mode: AddressingMode::Implied }),
        0x9a => Some(OpCode { instruction: Instruction::TXS, code: 0x9a, bytes: 1, cycles: 2, addressing_mode: AddressingMode::Implied }),
        0x98 => Some(OpCode { instruction: Instruction::TYA, code: 0x98, bytes: 1, cycles: 2, addressing_mode: AddressingMode::Implied }),
        _ => None,
    }
}

/// The executable table lookup, which agrees with `spec_decode` entry for
/// entry; every entry satisfies the structural facts of `op_wf`.
pub fn get_opcode_with_code(code: u8) -> (op: Option<OpCode>)
    ensures
        op == spec_decode(code),
        op is Some ==> op_wf(op.unwrap()) && op.unwrap().code == code,
{
    match code {
            0x69 => Some(OpCode::new(Instruction::ADC, 0x69, 2, 2, AddressingMode::Immediate)),
            0x65 => Some(OpCode::new(Instruction::ADC, 0x65, 2, 3, AddressingMode::ZeroPage)),
            0x75 => Some(OpCode::new(Instruction::ADC, 0x75, 2, 4, AddressingMode::ZeroPageX)),
            0x6d => Some(OpCode::new(Instruction::ADC, 0x6d, 3, 4, AddressingMode::Absolute)),
            0x7d => Some(OpCode::new(Instruction::ADC, 0x7d, 3, 4, AddressingMode::AbsoluteX)),
            0x79 => Some(OpCode::new(Instruction::ADC, 0x79, 3, 4, AddressingMode::AbsoluteY)),
            0x61 => Some(OpCode::new(Instruction::ADC, 0x61, 2, 6, AddressingMode::IndirectX)),
            0x71 => Some(OpCode::new(Instruction::ADC, 0x71, 2, 5, AddressingMode::IndirectY)),
            0x29 => Some(OpCode::new(Instruction::AND, 0x29, 2, 2, AddressingMode::Immediate)),
            0x25 => Some(OpCode::new(Instruction::AND, 0x25, 2, 3, AddressingMode::ZeroPage)),
            0x35 => Some(OpCode::new(Instruction::AND, 0x35, 2, 4, AddressingMode::ZeroPageX)),
            0x2d => Some(OpCode::new(Instruction::AND, 0x2d, 3, 4, AddressingMode::Absolute)),
            0x3d => Some(OpCode::new(Instruction::AND, 0x3d, 3, 4, AddressingMode::AbsoluteX)),
            0x39 => Some(OpCode::new(Instruction::AND, 0x39, 3, 4, AddressingMode::AbsoluteY)),
            0x21 => Some(OpCode::new(Instruction::AND, 0x21, 2, 6, AddressingMode::IndirectX)),
            0x31 => Some(OpCode::new(Instruction::AND, 0x31, 2, 5, AddressingMode::IndirectY)),
            0x0a => Some(OpCode::new(Instruction::ASL, 0x0a, 1, 2, AddressingMode::Accumulator)),
            0x06 => Some(OpCode::new(Instruction::ASL, 0x06, 2, 5, AddressingMode::ZeroPage)),
            0x16 => Some(OpCode::new(Instruction::ASL, 0x16, 2, 6, AddressingMode::ZeroPageX)),
            0x0e => Some(OpCode::new(Instruction::ASL, 0x0e, 3, 6, AddressingMode::Absolute)),
            0x1e => Some(OpCode::new(Instruction::ASL, 0x1e, 3, 7, AddressingMode::AbsoluteX)),
            0x90 => Some(OpCode::new(Instruction::BCC, 0x90, 2, 2, AddressingMode::Relative)),
            0xb0 => Some(OpCode::new(Instruction::BCS, 0xb0, 2, 2, AddressingMode::Relative)),
            0xf0 => Some(OpCode::new(Instruction::BEQ, 0xf0, 2, 2, AddressingMode::Relative)),
            0x24 => Some(OpCode::new(Instruction::BIT, 0x24, 2, 3, AddressingMode::ZeroPage)),
            0x2c => Some(OpCode::new(Instruction::BIT, 0x2c, 3, 4, AddressingMode::Absolute)),
            0x30 => Some(OpCode::new(Instruction::BMI, 0x30, 2, 2, AddressingMode::Relative)),
            0xd0 => Some(OpCode::new(Instruction::BNE, 0xd0, 2, 2, AddressingMode::Relative)),
            0x10 => Some(OpCode::new(Instruction::BPL, 0x10, 2, 2, AddressingMode::Relative)),
            0x00 => Some(OpCode::new(Instruction::BRK, 0x00, 1, 7, AddressingMode::Implied)),
            0x50 => Some(OpCode::new(Instruction::BVC, 0x50, 2, 2, AddressingMode::Relative)),
            0x70 => Some(OpCode::new(Instruction::BVS, 0x70, 2, 2, AddressingMode::Relative)),
            0x18 => Some(OpCode::new(Instruction::CLC, 0x18, 1, 2, AddressingMode::Implied)),
            0xd8 => Some(OpCode::new(Instruction::CLD, 0xd8, 1, 2, AddressingMode::Implied)),
            0x58 => Some(OpCode::new(Instruction::CLI, 0x58, 1, 2, AddressingMode::Implied)),
            0xb8 => Some(OpCode::new(Instruction::CLV, 0xb8, 1, 2, AddressingMode::Implied)),
            0xc9 => Some(OpCode::new(Instruction::CMP, 0xc9, 2, 2, AddressingMode::Immediate)),
            0xc5 => Some(OpCode::new(Instruction::CMP, 0xc5, 2, 3, AddressingMode::ZeroPage)),
            0xd5 => Some(OpCode::new(Instruction::CMP, 0xd5, 2, 4, AddressingMode::ZeroPageX)),
            0xcd => Some(OpCode::new(Instruction::CMP, 0xcd, 3, 4, AddressingMode::Absolute)),
            0xdd => Some(OpCode::new(Instruction::CMP, 0xdd, 3, 4, AddressingMode::AbsoluteX)),
            0xd9 => Some(OpCode::new(Instruction::CMP, 0xd9, 3, 4, AddressingMode::AbsoluteY)),
            0xc1 => Some(OpCode::new(Instruction::CMP, 0xc1, 2, 6, AddressingMode::IndirectX)),
            0xd1 => Some(OpCode::new(Instruction::CMP, 0xd1, 2, 5, AddressingMode::IndirectY)),
            0xe0 => Some(OpCode::new(Instruction::CPX, 0xe0, 2, 2, AddressingMode::Immediate)),
            0xe4 => Some(OpCode::new(Instruction::CPX, 0xe4, 2, 3, AddressingMode::ZeroPage)),
            0xec => Some(OpCode::new(Instruction::CPX, 0xec, 3, 4, AddressingMode::Absolute)),
            0xc0 => Some(OpCode::new(Instruction::CPY, 0xc0, 2, 2, AddressingMode::Immediate)),
            0xc4 => Some(OpCode::new(Instruction::CPY, 0xc4, 2, 3, AddressingMode::ZeroPage)),
            0xcc => Some(OpCode::new(Instruction::CPY, 0xcc, 3, 4, AddressingMode::Absolute)),
            0xc6 => Some(OpCode::new(Instruction::DEC, 0xc6, 2, 5, AddressingMode::ZeroPage)),
            0xd6 => Some(OpCode::new(Instruction::DEC, 0xd6, 2, 6, AddressingMode::ZeroPageX)),
            0xce => Some(OpCode::new(Instruction::DEC, 0xce, 3, 6, AddressingMode::Absolute)),
            0xde => Some(OpCode::new(Instruction::DEC, 0xde, 3, 7, AddressingMode::AbsoluteX)),
            0xca => Some(OpCode::new(Instruction::DEX, 0xca, 1, 2, AddressingMode::Implied)),
            0x88 => Some(OpCode::new(Instruction::DEY, 0x88, 1, 2, AddressingMode::Implied)),
            0x49 => Some(OpCode::new(Instruction::EOR, 0x49, 2, 2, AddressingMode::Immediate)),
            0x45 => Some(OpCode::new(Instruction::EOR, 0x45, 2, 3, AddressingMode::ZeroPage)),
            0x55 => Some(OpCode::new(Instruction::EOR, 0x55, 2, 4, AddressingMode::ZeroPageX)),
            0x4d => Some(OpCode::new(Instruction::EOR, 0x4d, 3, 4, AddressingMode::Absolute)),
            0x5d => Some(OpCode::new(Instruction::EOR, 0x5d, 3, 4, AddressingMode::AbsoluteX)),
            0x59 => Some(OpCode::new(Instruction::EOR, 0x59, 3, 4, AddressingMode::AbsoluteY)),
            0x41 => Some(OpCode::new(Instruction::EOR, 0x41, 2, 6, AddressingMode::IndirectX)),
            0x51 => Some(OpCode::new(Instruction::EOR, 0x51, 2, 5, AddressingMode::IndirectY)),
            0xe6 => Some(OpCode::new(Instruction::INC, 0xe6, 2, 5, AddressingMode::ZeroPage)),
            0xf6 => Some(OpCode::new(Instruction::INC, 0xf6, 2, 6, AddressingMode::ZeroPageX)),
            0xee => Some(OpCode::new(Instruction::INC, 0xee, 3, 6, AddressingMode::Absolute)),
            0xfe => Some(OpCode::new(Instruction::INC, 0xfe, 3, 7, AddressingMode::AbsoluteX)),
            0xe8 => Some(OpCode::new(Instruction::INX, 0xe8, 1, 2, AddressingMode::Implied)),
            0xc8 => Some(OpCode::new(Instruction::INY, 0xc8, 1, 2, AddressingMode::Implied)),
            0x4c => Some(OpCode::new(Instruction::JMP, 0x4c, 3, 3, AddressingMode::Absolute)),
            0x6c => Some(OpCode::new(Instruction::JMP, 0x6c, 3, 5, AddressingMode::Indirect)),
            0x20 => Some(OpCode::new(Instruction::JSR, 0x20, 3, 6, AddressingMode::Absolute)),
            0xa9 => Some(OpCode::new(Instruction::LDA, 0xa9, 2, 2, AddressingMode::Immediate)),
            0xa5 => Some(OpCode::new(Instruction::LDA, 0xa5, 2, 3, AddressingMode::ZeroPage)),
            0xb5 => Some(OpCode::new(Instruction::LDA, 0xb5, 2, 4, AddressingMode::ZeroPageX)),
            0xad => Some(OpCode::new(Instruction::LDA, 0xad, 3, 4, AddressingMode::Absolute)),
            0xbd => Some(OpCode::new(Instruction::LDA, 0xbd, 3, 4, AddressingMode::AbsoluteX)),
            0xb9 => Some(OpCode::new(Instruction::LDA, 0xb9, 3, 4, AddressingMode::AbsoluteY)),
            0xa1 => Some(OpCode::new(Instruction::LDA, 0xa1, 2, 6, AddressingMode::IndirectX)),
            0xb1 => Some(OpCode::new(Instruction::LDA, 0xb1, 2, 5, AddressingMode::IndirectY)),
            0xa2 => Some(OpCode::new(Instruction::LDX, 0xa2, 2, 2, AddressingMode::Immediate)),
            0xa6 => Some(OpCode::new(Instruction::LDX, 0xa6, 2, 3, AddressingMode::ZeroPage)),
            0xb6 => Some(OpCode::new(Instruction::LDX, 0xb6, 2, 4, AddressingMode::ZeroPageY)),
            0xae => Some(OpCode::new(Instruction::LDX, 0xae, 3, 4, AddressingMode::Absolute)),
            0xbe => Some(OpCode::new(Instruction::LDX, 0xbe, 3, 4, AddressingMode::AbsoluteY)),
            0xa0 => Some(OpCode::new(Instruction::LDY, 0xa0, 2, 2, AddressingMode::Immediate)),
            0xa4 => Some(OpCode::new(Instruction::LDY, 0xa4, 2, 3, AddressingMode::ZeroPage)),
            0xb4 => Some(OpCode::new(Instruction::LDY, 0xb4, 2, 4, AddressingMode::ZeroPageX)),
            0xac => Some(OpCode::new(Instruction::LDY, 0xac, 3, 4, AddressingMode::Absolute)),
            0xbc => Some(OpCode::new(Instruction::LDY, 0xbc, 3, 4, AddressingMode::AbsoluteX)),
            0x4a => Some(OpCode::new(Instruction::LSR, 0x4a, 1, 2, AddressingMode::Accumulator)),
            0x46 => Some(OpCode::new(Instruction::LSR, 0x46, 2, 5, AddressingMode::ZeroPage)),
            0x56 => Some(OpCode::new(Instruction::LSR, 0x56, 2, 6, AddressingMode::ZeroPageX)),
            0x4e => Some(OpCode::new(Instruction::LSR, 0x4e, 3, 6, AddressingMode::Absolute)),
            0x5e => Some(OpCode::new(Instruction::LSR, 0x5e, 3, 7, AddressingMode::AbsoluteX)),
            0xea => Some(OpCode::new(Instruction::NOP, 0xea, 1, 2, AddressingMode::Implied)),
            0x09 => Some(OpCode::new(Instruction::ORA, 0x09, 2, 2, AddressingMode::Immediate)),
            0x05 => Some(OpCode::new(Instruction::ORA, 0x05, 2, 3, AddressingMode::ZeroPage)),
            0x15 => Some(OpCode::new(Instruction::ORA, 0x15, 2, 4, AddressingMode::ZeroPageX)),
            0x0d => Some(OpCode::new(Instruction::ORA, 0x0d, 3, 4, AddressingMode::Absolute)),
            0x1d => Some(OpCode::new(Instruction::ORA, 0x1d, 3, 4, AddressingMode::AbsoluteX)),
            0x19 => Some(OpCode::new(Instruction::ORA, 0x19, 3, 4, AddressingMode::AbsoluteY)),
            0x01 => Some(OpCode::new(Instruction::ORA, 0x01, 2, 6, AddressingMode::IndirectX)),
            0x11 => Some(OpCode::new(Instruction::ORA, 0x11, 2, 5, AddressingMode::IndirectY)),
            0x48 => Some(OpCode::new(Instruction::PHA, 0x48, 1, 3, AddressingMode::Implied)),
            0x08 => Some(OpCode::new(Instruction::PHP, 0x08, 1, 3, AddressingMode::Implied)),
            0x68 => Some(OpCode::new(Instruction::PLA, 0x68, 1, 4, AddressingMode::Implied)),
            0x28 => Some(OpCode::new(Instruction::PLP, 0x28, 1, 4, AddressingMode::Implied)),
            0x2a => Some(OpCode::new(Instruction::ROL, 0x2a, 1, 2, AddressingMode::Accumulator)),
            0x26 => Some(OpCode::new(Instruction::ROL, 0x26, 2, 5, AddressingMode::ZeroPage)),
            0x36 => Some(OpCode::new(Instruction::ROL, 0x36, 2, 6, AddressingMode::ZeroPageX)),
            0x2e => Some(OpCode::new(Instruction::ROL, 0x2e, 3, 6, AddressingMode::Absolute)),
            0x3e => Some(OpCode::new(Instruction::ROL, 0x3e, 3, 7, AddressingMode::AbsoluteX)),
            0x6a => Some(OpCode::new(Instruction::ROR, 0x6a, 1, 2, AddressingMode::Accumulator)),
            0x66 => Some(OpCode::new(Instruction::ROR, 0x66, 2, 5, AddressingMode::ZeroPage)),
            0x76 => Some(OpCode::new(Instruction::ROR, 0x76, 2, 6, AddressingMode::ZeroPageX)),
            0x6e => Some(OpCode::new(Instruction::ROR, 0x6e, 3, 6, AddressingMode::Absolute)),
            0x7e => Some(OpCode::new(Instruction::ROR, 0x7e, 3, 7, AddressingMode::AbsoluteX)),
            0x40 => Some(OpCode::new(Instruction::RTI, 0x40, 1, 6, AddressingMode::Implied)),
            0x60 => Some(OpCode::new(Instruction::RTS, 0x60, 1, 6, AddressingMode::Implied)),
            0xe9 => Some(OpCode::new(Instruction::SBC, 0xe9, 2, 2, AddressingMode::Immediate)),
            0xe5 => Some(OpCode::new(Instruction::SBC, 0xe5, 2, 3, AddressingMode::ZeroPage)),
            0xf5 => Some(OpCode::new(Instruction::SBC, 0xf5, 2, 4, AddressingMode::ZeroPageX)),
            0xed => Some(OpCode::new(Instruction::SBC, 0xed, 3, 4, AddressingMode::Absolute)),
            0xfd => Some(OpCode::new(Instruction::SBC, 0xfd, 3, 4, AddressingMode::AbsoluteX)),
            0xf9 => Some(OpCode::new(Instruction::SBC, 0xf9, 3, 4, AddressingMode::AbsoluteY)),
            0xe1 => Some(OpCode::new(Instruction::SBC, 0xe1, 2, 6, AddressingMode::IndirectX)),
            0xf1 => Some(OpCode::new(Instruction::SBC, 0xf1, 2, 5, AddressingMode::IndirectY)),
            0x38 => Some(OpCode::new(Instruction::SEC, 0x38, 1, 2, AddressingMode::Implied)),
            0xf8 => Some(OpCode::new(Instruction::SED, 0xf8, 1, 2, AddressingMode::Implied)),
            0x78 => Some(OpCode::new(Instruction::SEI, 0x78, 1, 2, AddressingMode::Implied)),
            0x85 => Some(OpCode::new(Instruction::STA, 0x85, 2, 3, AddressingMode::ZeroPage)),
            0x95 => Some(OpCode::new(Instruction::STA, 0x95, 2, 4, AddressingMode::ZeroPageX)),
            0x8d => Some(OpCode::new(Instruction::STA, 0x8d, 3, 4, AddressingMode::Absolute)),
            0x9d => Some(OpCode::new(Instruction::STA, 0x9d, 3, 5, AddressingMode::AbsoluteX)),
            0x99 => Some(OpCode::new(Instruction::STA, 0x99, 3, 5, AddressingMode::AbsoluteY)),
            0x81 => Some(OpCode::new(Instruction::STA, 0x81, 2, 6, AddressingMode::IndirectX)),
            0x91 => Some(OpCode::new(Instruction::STA, 0x91, 2, 6, AddressingMode::IndirectY)),
            0x86 => Some(OpCode::new(Instruction::STX, 0x86, 2, 3, AddressingMode::ZeroPage)),
            0x96 => Some(OpCode::new(Instruction::STX, 0x96, 2, 4, AddressingMode::ZeroPageY)),
            0x8e => Some(OpCode::new(Instruction::STX, 0x8e, 3, 4, AddressingMode::Absolute)),
            0x84 => Some(OpCode::new(Instruction::STY, 0x84, 2, 3, AddressingMode::ZeroPage)),
            0x94 => Some(OpCode::new(Instruction::STY, 0x94, 2, 4, AddressingMode::ZeroPageX)),
            0x8c => Some(OpCode::new(Instruction::STY, 0x8c, 3, 4, AddressingMode::Absolute)),
            0xaa => Some(OpCode::new(Instruction::TAX, 0xaa, 1, 2, AddressingMode::Implied)),
            0xa8 => Some(OpCode::new(Instruction::TAY, 0xa8, 1, 2, AddressingMode::Implied)),
            0xba => Some(OpCode::new(Instruction::TSX, 0xba, 1, 2, AddressingMode::Implied)),
            0x8a => Some(OpCode::new(Instruction::TXA, 0x8a, 1, 2, AddressingMode::Implied)),
            0x9a => Some(OpCode::new(Instruction::TXS, 0x9a, 1, 2, AddressingMode::Implied)),
            0x98 => Some(OpCode::new(Instruction::TYA, 0x98, 1, 2, AddressingMode::Implied)),
        _ => None,
    }
}

} // verus!
