use crate::cpu::addressing_mode::{mode_reads, AddressingMode};
use crate::cpu::CpuError;
use vstd::prelude::*;

verus! {

/// Decode information for one opcode: addressing mode, instruction length
/// in bytes, and base cycle count.
#[derive(Clone, Copy, Debug, PartialEq, Eq, Structural)]
pub struct OpCodeInfo {
    pub addressing_mode: AddressingMode,
    pub bytes: u8,
    pub cycles: u8,
}

/// A decoded instruction: the mnemonic together with its decode
/// information.
#[derive(Clone, Copy, Debug, PartialEq, Eq, Structural)]
pub enum Instruction {
    ADC(OpCodeInfo),
    AND(OpCodeInfo),
    ASL(OpCodeInfo),
    BCC(OpCodeInfo),
    BCS(OpCodeInfo),
    BEQ(OpCodeInfo),
    BIT(OpCodeInfo),
    BMI(OpCodeInfo),
    BNE(OpCodeInfo),
    BPL(OpCodeInfo),
    BRK(OpCodeInfo),
    BVC(OpCodeInfo),
    BVS(OpCodeInfo),
    CLC(OpCodeInfo),
    CLD(OpCodeInfo),
    CLI(OpCodeInfo),
    CLV(OpCodeInfo),
    CMP(OpCodeInfo),
    CPX(OpCodeInfo),
    CPY(OpCodeInfo),
    DEC(OpCodeInfo),
    DEX(OpCodeInfo),
    DEY(OpCodeInfo),
    EOR(OpCodeInfo),
    INC(OpCodeInfo),
    INX(OpCodeInfo),
    INY(OpCodeInfo),
    JMP(OpCodeInfo),
    JSR(OpCodeInfo),
    LDA(OpCodeInfo),
    LDX(OpCodeInfo),
    LDY(OpCodeInfo),
    LSR(OpCodeInfo),
    NOP(OpCodeInfo),
    ORA(OpCodeInfo),
    PHA(OpCodeInfo),
    PHP(OpCodeInfo),
    PLA(OpCodeInfo),
    PLP(OpCodeInfo),
    ROL(OpCodeInfo),
    ROR(OpCodeInfo),
    RTI(OpCodeInfo),
    RTS(OpCodeInfo),
    SBC(OpCodeInfo),
    SEC(OpCodeInfo),
    SED(OpCodeInfo),
    SEI(OpCodeInfo),
    STA(OpCodeInfo),
    STX(OpCodeInfo),
    STY(OpCodeInfo),
    TAX(OpCodeInfo),
    TAY(OpCodeInfo),
    TSX(OpCodeInfo),
    TXA(OpCodeInfo),
    TXS(OpCodeInfo),
    TYA(OpCodeInfo),
}

/// The opcode table: every official opcode byte and what it decodes to.
/// Decoding, dispatch, disassembly and cycle accounting all go through
/// this one function.
pub open spec fn spec_decode(op: u8) -> Option<Instruction> {
    match op {
        0x00u8 => Some(Instruction::BRK(OpCodeInfo { addressing_mode: AddressingMode::Implicit, bytes: 1, cycles: 7 })),
        0x01u8 => Some(Instruction::ORA(OpCodeInfo { addressing_mode: AddressingMode::Indirect_X, bytes: 2, cycles: 6 })),
        0x05u8 => Some(Instruction::ORA(OpCodeInfo { addressing_mode: AddressingMode::ZeroPage, bytes: 2, cycles: 3 })),
        0x06u8 => Some(Instruction::ASL(OpCodeInfo { addressing_mode: AddressingMode::ZeroPage, bytes: 2, cycles: 5 })),
        0x08u8 => Some(Instruction::PHP(OpCodeInfo { addressing_mode: AddressingMode::Implicit, bytes: 1, cycles: 3 })),
        0x09u8 => Some(Instruction::ORA(OpCodeInfo { addressing_mode: AddressingMode::Immediate, bytes: 2, cycles: 2 })),
        0x0Au8 => Some(Instruction::ASL(OpCodeInfo { addressing_mode: AddressingMode::Accumulator, bytes: 1, cycles: 2 })),
        0x0Du8 => Some(Instruction::ORA(OpCodeInfo { addressing_mode: AddressingMode::Absolute, bytes: 3, cycles: 4 })),
        0x0Eu8 => Some(Instruction::ASL(OpCodeInfo { addressing_mode: AddressingMode::Absolute, bytes: 3, cycles: 6 })),
        0x10u8 => Some(Instruction::BPL(OpCodeInfo { addressing_mode: AddressingMode::Relative, bytes: 2, cycles: 2 })),
        0x11u8 => Some(Instruction::ORA(OpCodeInfo { addressing_mode: AddressingMode::Indirect_Y, bytes: 2, cycles: 5 })),
        0x15u8 => Some(Instruction::ORA(OpCodeInfo { addressing_mode: AddressingMode::ZeroPage_X, bytes: 2, cycles: 4 })),
        0x16u8 => Some(Instruction::ASL(OpCodeInfo { addressing_mode: AddressingMode::ZeroPage_X, bytes: 2, cycles: 6 })),
        0x18u8 => Some(Instruction::CLC(OpCodeInfo { addressing_mode: AddressingMode::Implicit, bytes: 1, cycles: 2 })),
        0x19u8 => Some(Instruction::ORA(OpCodeInfo { addressing_mode: AddressingMode::Absolute_Y, bytes: 3, cycles: 4 })),
        0x1Du8 => Some(Instruction::ORA(OpCodeInfo { addressing_mode: AddressingMode::Absolute_X, bytes: 3, cycles: 4 })),
        0x1Eu8 => Some(Instruction::ASL(OpCodeInfo { addressing_mode: AddressingMode::Absolute_X, bytes: 3, cycles: 7 })),
        0x20u8 => Some(Instruction::JSR(OpCodeInfo { addressing_mode: AddressingMode::Absolute, bytes: 3, cycles: 6 })),
        0x21u8 => Some(Instruction::AND(OpCodeInfo { addressing_mode: AddressingMode::Indirect_X, bytes: 2, cycles: 6 })),
        0x24u8 => Some(Instruction::BIT(OpCodeInfo { addressing_mode: AddressingMode::ZeroPage, bytes: 2, cycles: 3 })),
        0x25u8 => Some(Instruction::AND(OpCodeInfo { addressing_mode: AddressingMode::ZeroPage, bytes: 2, cycles: 3 })),
        0x26u8 => Some(Instruction::ROL(OpCodeInfo { addressing_mode: AddressingMode::ZeroPage, bytes: 2, cycles: 5 })),
        0x28u8 => Some(Instruction::PLP(OpCodeInfo { addressing_mode: AddressingMode::Implicit, bytes: 1, cycles: 4 })),
        0x29u8 => Some(Instruction::AND(OpCodeInfo { addressing_mode: AddressingMode::Immediate, bytes: 2, cycles: 2 })),
        0x2Au8 => Some(Instruction::ROL(OpCodeInfo { addressing_mode: AddressingMode::Accumulator, bytes: 1, cycles: 2 })),
        0x2Cu8 => Some(Instruction::BIT(OpCodeInfo { addressing_mode: AddressingMode::Absolute, bytes: 3, cycles: 4 })),
        0x2Du8 => Some(Instruction::AND(OpCodeInfo { addressing_mode: AddressingMode::Absolute, bytes: 3, cycles: 4 })),
        0x2Eu8 => Some(Instruction::ROL(OpCodeInfo { addressing_mode: AddressingMode::Absolute, bytes: 3, cycles: 6 })),
        0x30u8 => Some(Instruction::BMI(OpCodeInfo { addressing_mode: AddressingMode::Relative, bytes: 2, cycles: 2 })),
        0x31u8 => Some(Instruction::AND(OpCodeInfo { addressing_mode: AddressingMode::Indirect_Y, bytes: 2, cycles: 5 })),
        0x35u8 => Some(Instruction::AND(OpCodeInfo { addressing_mode: AddressingMode::ZeroPage_X, bytes: 2, cycles: 4 })),
        0x36u8 => Some(Instruction::ROL(OpCodeInfo { addressing_mode: AddressingMode::ZeroPage_X, bytes: 2, cycles: 6 })),
        0x38u8 => Some(Instruction::SEC(OpCodeInfo { addressing_mode: AddressingMode::Implicit, bytes: 1, cycles: 2 })),
        0x39u8 => Some(Instruction::AND(OpCodeInfo { addressing_mode: AddressingMode::Absolute_Y, bytes: 3, cycles: 4 })),
        0x3Du8 => Some(Instruction::AND(OpCodeInfo { addressing_mode: AddressingMode::Absolute_X, bytes: 3, cycles: 4 })),
        0x3Eu8 => Some(Instruction::ROL(OpCodeInfo { addressing_mode: AddressingMode::Absolute_X, bytes: 3, cycles: 7 })),
        0x40u8 => Some(Instruction::RTI(OpCodeInfo { addressing_mode: AddressingMode::Implicit, bytes: 1, cycles: 6 })),
        0x41u8 => Some(Instruction::EOR(OpCodeInfo { addressing_mode: AddressingMode::Indirect_X, bytes: 2, cycles: 6 })),
        0x45u8 => Some(Instruction::EOR(OpCodeInfo { addressing_mode: AddressingMode::ZeroPage, bytes: 2, cycles: 3 })),
        0x46u8 => Some(Instruction::LSR(OpCodeInfo { addressing_mode: AddressingMode::ZeroPage, bytes: 2, cycles: 5 })),
        0x48u8 => Some(Instruction::PHA(OpCodeInfo { addressing_mode: AddressingMode::Implicit, bytes: 1, cycles: 3 })),
        0x49u8 => Some(Instruction::EOR(OpCodeInfo { addressing_mode: AddressingMode::Immediate, bytes: 2, cycles: 2 })),
        0x4Au8 => Some(Instruction::LSR(OpCodeInfo { addressing_mode: AddressingMode::Accumulator, bytes: 1, cycles: 2 })),
        0x4Cu8 => Some(Instruction::JMP(OpCodeInfo { addressing_mode: AddressingMode::Absolute, bytes: 3, cycles: 3 })),
        0x4Du8 => Some(Instruction::EOR(OpCodeInfo { addressing_mode: AddressingMode::Absolute, bytes: 3, cycles: 4 })),
        0x4Eu8 => Some(Instruction::LSR(OpCodeInfo { addressing_mode: AddressingMode::Absolute, bytes: 3, cycles: 6 })),
        0x50u8 => Some(Instruction::BVC(OpCodeInfo { addressing_mode: AddressingMode::Relative, bytes: 2, cycles: 2 })),
        0x51u8 => Some(Instruction::EOR(OpCodeInfo { addressing_mode: AddressingMode::Indirect_Y, bytes: 2, cycles: 5 })),
        0x55u8 => Some(Instruction::EOR(OpCodeInfo { addressing_mode: AddressingMode::ZeroPage_X, bytes: 2, cycles: 4 })),
        0x56u8 => Some(Instruction::LSR(OpCodeInfo { addressing_mode: AddressingMode::ZeroPage_X, bytes: 2, cycles: 6 })),
        0x58u8 => Some(Instruction::CLI(OpCodeInfo { addressing_mode: AddressingMode::Implicit, bytes: 1, cycles: 2 })),
        0x59u8 => Some(Instruction::EOR(OpCodeInfo { addressing_mode: AddressingMode::Absolute_Y, bytes: 3, cycles: 4 })),
        0x5Du8 => Some(Instruction::EOR(OpCodeInfo { addressing_mode: AddressingMode::Absolute_X, bytes: 3, cycles: 4 })),
        0x5Eu8 => Some(Instruction::LSR(OpCodeInfo { addressing_mode: AddressingMode::Absolute_X, bytes: 3, cycles: 7 })),
        0x60u8 => Some(Instruction::RTS(OpCodeInfo { addressing_mode: AddressingMode::Implicit, bytes: 1, cycles: 6 })),
        0x61u8 => Some(Instruction::ADC(OpCodeInfo { addressing_mode: AddressingMode::Indirect_X, bytes: 2, cycles: 6 })),
        0x65u8 => Some(Instruction::ADC(OpCodeInfo { addressing_mode: AddressingMode::ZeroPage, bytes: 2, cycles: 3 })),
        0x66u8 => Some(Instruction::ROR(OpCodeInfo { addressing_mode: AddressingMode::ZeroPage, bytes: 2, cycles: 5 })),
        0x68u8 => Some(Instruction::PLA(OpCodeInfo { addressing_mode: AddressingMode::Implicit, bytes: 1, cycles: 4 })),
        0x69u8 => Some(Instruction::ADC(OpCodeInfo { addressing_mode: AddressingMode::Immediate, bytes: 2, cycles: 2 })),
        0x6Au8 => Some(Instruction::ROR(OpCodeInfo { addressing_mode: AddressingMode::Accumulator, bytes: 1, cycles: 2 })),
        0x6Cu8 => Some(Instruction::JMP(OpCodeInfo { addressing_mode: AddressingMode::Indirect, bytes: 3, cycles: 5 })),
        0x6Du8 => Some(Instruction::ADC(OpCodeInfo { addressing_mode: AddressingMode::Absolute, bytes: 3, cycles: 4 })),
        0x6Eu8 => Some(Instruction::ROR(OpCodeInfo { addressing_mode: AddressingMode::Absolute, bytes: 3, cycles: 6 })),
        0x70u8 => Some(Instruction::BVS(OpCodeInfo { addressing_mode: AddressingMode::Relative, bytes: 2, cycles: 2 })),
        0x71u8 => Some(Instruction::ADC(OpCodeInfo { addressing_mode: AddressingMode::Indirect_Y, bytes: 2, cycles: 5 })),
        0x75u8 => Some(Instruction::ADC(OpCodeInfo { addressing_mode: AddressingMode::ZeroPage_X, bytes: 2, cycles: 4 })),
        0x76u8 => Some(Instruction::ROR(OpCodeInfo { addressing_mode: AddressingMode::ZeroPage_X, bytes: 2, cycles: 6 })),
        0x78u8 => Some(Instruction::SEI(OpCodeInfo { addressing_mode: AddressingMode::Implicit, bytes: 1, cycles: 2 })),
        0x79u8 => Some(Instruction::ADC(OpCodeInfo { addressing_mode: AddressingMode::Absolute_Y, bytes: 3, cycles: 4 })),
        0x7Du8 => Some(Instruction::ADC(OpCodeInfo { addressing_mode: AddressingMode::Absolute_X, bytes: 3, cycles: 4 })),
        0x7Eu8 => Some(Instruction::ROR(OpCodeInfo { addressing_mode: AddressingMode::Absolute_X, bytes: 3, cycles: 7 })),
        0x81u8 => Some(Instruction::STA(OpCodeInfo { addressing_mode: AddressingMode::Indirect_X, bytes: 2, cycles: 6 })),
        0x84u8 => Some(Instruction::STY(OpCodeInfo { addressing_mode: AddressingMode::ZeroPage, bytes: 2, cycles: 3 })),
        0x85u8 => Some(Instruction::STA(OpCodeInfo { addressing_mode: AddressingMode::ZeroPage, bytes: 2, cycles: 3 })),
        0x86u8 => Some(Instruction::STX(OpCodeInfo { addressing_mode: AddressingMode::ZeroPage, bytes: 2, cycles: 3 })),
        0x88u8 => Some(Instruction::DEY(OpCodeInfo { addressing_mode: AddressingMode::Implicit, bytes: 1, cycles: 2 })),
        0x8Au8 => Some(Instruction::TXA(OpCodeInfo { addressing_mode: AddressingMode::Implicit, bytes: 1, cycles: 2 })),
        0x8Cu8 => Some(Instruction::STY(OpCodeInfo { addressing_mode: AddressingMode::Absolute, bytes: 3, cycles: 4 })),
        0x8Du8 => Some(Instruction::STA(OpCodeInfo { addressing_mode: AddressingMode::Absolute, bytes: 3, cycles: 4 })),
        0x8Eu8 => Some(Instruction::STX(OpCodeInfo { addressing_mode: AddressingMode::Absolute, bytes: 3, cycles: 4 })),
        0x90u8 => Some(Instruction::BCC(OpCodeInfo { addressing_mode: AddressingMode::Relative, bytes: 2, cycles: 2 })),
        0x91u8 => Some(Instruction::STA(OpCodeInfo { addressing_mode: AddressingMode::Indirect_Y, bytes: 2, cycles: 6 })),
        0x94u8 => Some(Instruction::STY(OpCodeInfo { addressing_mode: AddressingMode::ZeroPage_X, bytes: 2, cycles: 4 })),
        0x95u8 => Some(Instruction::STA(OpCodeInfo { addressing_mode: AddressingMode::ZeroPage_X, bytes: 2, cycles: 4 })),
        0x96u8 => Some(Instruction::STX(OpCodeInfo { addressing_mode: AddressingMode::ZeroPage_Y, bytes: 2, cycles: 4 })),
        0x98u8 => Some(Instruction::TYA(OpCodeInfo { addressing_mode: AddressingMode::Implicit, bytes: 1, cycles: 2 })),
        0x99u8 => Some(Instruction::STA(OpCodeInfo { addressing_mode: AddressingMode::Absolute_Y, bytes: 3, cycles: 5 })),
        0x9Au8 => Some(Instruction::TXS(OpCodeInfo { addressing_mode: AddressingMode::Implicit, bytes: 1, cycles: 2 })),
        0x9Du8 => Some(Instruction::STA(OpCodeInfo { addressing_mode: AddressingMode::Absolute_X, bytes: 3, cycles: 5 })),
        0xA0u8 => Some(Instruction::LDY(OpCodeInfo { addressing_mode: AddressingMode::Immediate, bytes: 2, cycles: 2 })),
        0xA1u8 => Some(Instruction::LDA(OpCodeInfo { addressing_mode: AddressingMode::Indirect_X, bytes: 2, cycles: 6 })),
        0xA2u8 => Some(Instruction::LDX(OpCodeInfo { addressing_mode: AddressingMode::Immediate, bytes: 2, cycles: 2 })),
        0xA4u8 => Some(Instruction::LDY(OpCodeInfo { addressing_mode: AddressingMode::ZeroPage, bytes: 2, cycles: 3 })),
        0xA5u8 => Some(Instruction::LDA(OpCodeInfo { addressing_mode: AddressingMode::ZeroPage, bytes: 2, cycles: 3 })),
        0xA6u8 => Some(Instruction::LDX(OpCodeInfo { addressing_mode: AddressingMode::ZeroPage, bytes: 2, cycles: 3 })),
        0xA8u8 => Some(Instruction::TAY(OpCodeInfo { addressing_mode: AddressingMode::Implicit, bytes: 1, cycles: 2 })),
        0xA9u8 => Some(Instruction::LDA(OpCodeInfo { addressing_mode: AddressingMode::Immediate, bytes: 2, cycles: 2 })),
        0xAAu8 => Some(Instruction::TAX(OpCodeInfo { addressing_mode: AddressingMode::Implicit, bytes: 1, cycles: 2 })),
        0xACu8 => Some(Instruction::LDY(OpCodeInfo { addressing_mode: AddressingMode::Absolute, bytes: 3, cycles: 4 })),
        0xADu8 => Some(Instruction::LDA(OpCodeInfo { addressing_mode: AddressingMode::Absolute, bytes: 3, cycles: 4 })),
        0xAEu8 => Some(Instruction::LDX(OpCodeInfo { addressing_mode: AddressingMode::Absolute, bytes: 3, cycles: 4 })),
        0xB0u8 => Some(Instruction::BCS(OpCodeInfo { addressing_mode: AddressingMode::Relative, bytes: 2, cycles: 2 })),
        0xB1u8 => Some(Instruction::LDA(OpCodeInfo { addressing_mode: AddressingMode::Indirect_Y, bytes: 2, cycles: 5 })),
        0xB4u8 => Some(Instruction::LDY(OpCodeInfo { addressing_mode: AddressingMode::ZeroPage_X, bytes: 2, cycles: 4 })),
        0xB5u8 => Some(Instruction::LDA(OpCodeInfo { addressing_mode: AddressingMode::ZeroPage_X, bytes: 2, cycles: 4 })),
        0xB6u8 => Some(Instruction::LDX(OpCodeInfo { addressing_mode: AddressingMode::ZeroPage_Y, bytes: 2, cycles: 4 })),
        0xB8u8 => Some(Instruction::CLV(OpCodeInfo { addressing_mode: AddressingMode::Implicit, bytes: 1, cycles: 2 })),
        0xB9u8 => Some(Instruction::LDA(OpCodeInfo { addressing_mode: AddressingMode::Absolute_Y, bytes: 3, cycles: 4 })),
        0xBAu8 => Some(Instruction::TSX(OpCodeInfo { addressing_mode: AddressingMode::Implicit, bytes: 1, cycles: 2 })),
        0xBCu8 => Some(Instruction::LDY(OpCodeInfo { addressing_mode: AddressingMode::Absolute_X, bytes: 3, cycles: 4 })),
        0xBDu8 => Some(Instruction::LDA(OpCodeInfo { addressing_mode: AddressingMode::Absolute_X, bytes: 3, cycles: 4 })),
        0xBEu8 => Some(Instruction::LDX(OpCodeInfo { addressing_mode: AddressingMode::Absolute_Y, bytes: 3, cycles: 4 })),
        0xC0u8 => Some(Instruction::CPY(OpCodeInfo { addressing_mode: AddressingMode::Immediate, bytes: 2, cycles: 2 })),
        0xC1u8 => Some(Instruction::CMP(OpCodeInfo { addressing_mode: AddressingMode::Indirect_X, bytes: 2, cycles: 6 })),
        0xC4u8 => Some(Instruction::CPY(OpCodeInfo { addressing_mode: AddressingMode::ZeroPage, bytes: 2, cycles: 3 })),
        0xC5u8 => Some(Instruction::CMP(OpCodeInfo { addressing_mode: AddressingMode::ZeroPage, bytes: 2, cycles: 3 })),
        0xC6u8 => Some(Instruction::DEC(OpCodeInfo { addressing_mode: AddressingMode::ZeroPage, bytes: 2, cycles: 5 })),
        0xC8u8 => Some(Instruction::INY(OpCodeInfo { addressing_mode: AddressingMode::Implicit, bytes: 1, cycles: 2 })),
        0xC9u8 => Some(Instruction::CMP(OpCodeInfo { addressing_mode: AddressingMode::Immediate, bytes: 2, cycles: 2 })),
        0xCAu8 => Some(Instruction::DEX(OpCodeInfo { addressing_mode: AddressingMode::Implicit, bytes: 1, cycles: 2 })),
        0xCCu8 => Some(Instruction::CPY(OpCodeInfo { addressing_mode: AddressingMode::Absolute, bytes: 3, cycles: 4 })),
        0xCDu8 => Some(Instruction::CMP(OpCodeInfo { addressing_mode: AddressingMode::Absolute, bytes: 3, cycles: 4 })),
        0xCEu8 => Some(Instruction::DEC(OpCodeInfo { addressing_mode: AddressingMode::Absolute, bytes: 3, cycles: 6 })),
        0xD0u8 => Some(Instruction::BNE(OpCodeInfo { addressing_mode: AddressingMode::Relative, bytes: 2, cycles: 2 })),
        0xD1u8 => Some(Instruction::CMP(OpCodeInfo { addressing_mode: AddressingMode::Indirect_Y, bytes: 2, cycles: 5 })),
        0xD5u8 => Some(Instruction::CMP(OpCodeInfo { addressing_mode: AddressingMode::ZeroPage_X, bytes: 2, cycles: 4 })),
        0xD6u8 => Some(Instruction::DEC(OpCodeInfo { addressing_mode: AddressingMode::ZeroPage_X, bytes: 2, cycles: 6 })),
        0xD8u8 => Some(Instruction::CLD(OpCodeInfo { addressing_mode: AddressingMode::Implicit, bytes: 1, cycles: 2 })),
        0xD9u8 => Some(Instruction::CMP(OpCodeInfo { addressing_mode: AddressingMode::Absolute_Y, bytes: 3, cycles: 4 })),
        0xDDu8 => Some(Instruction::CMP(OpCodeInfo { addressing_mode: AddressingMode::Absolute_X, bytes: 3, cycles: 4 })),
        0xDEu8 => Some(Instruction::DEC(OpCodeInfo { addressing_mode: AddressingMode::Absolute_X, bytes: 3, cycles: 7 })),
        0xE0u8 => Some(Instruction::CPX(OpCodeInfo { addressing_mode: AddressingMode::Immediate, bytes: 2, cycles: 2 })),
        0xE1u8 => Some(Instruction::SBC(OpCodeInfo { addressing_mode: AddressingMode::Indirect_X, bytes: 2, cycles: 6 })),
        0xE4u8 => Some(Instruction::CPX(OpCodeInfo { addressing_mode: AddressingMode::ZeroPage, bytes: 2, cycles: 3 })),
        0xE5u8 => Some(Instruction::SBC(OpCodeInfo { addressing_mode: AddressingMode::ZeroPage, bytes: 2, cycles: 3 })),
        0xE6u8 => Some(Instruction::INC(OpCodeInfo { addressing_mode: AddressingMode::ZeroPage, bytes: 2, cycles: 5 })),
        0xE8u8 => Some(Instruction::INX(OpCodeInfo { addressing_mode: AddressingMode::Implicit, bytes: 1, cycles: 2 })),
        0xE9u8 => Some(Instruction::SBC(OpCodeInfo { addressing_mode: AddressingMode::Immediate, bytes: 2, cycles: 2 })),
        0xEAu8 => Some(Instruction::NOP(OpCodeInfo { addressing_mode: AddressingMode::Implicit, bytes: 1, cycles: 2 })),
        0xECu8 => Some(Instruction::CPX(OpCodeInfo { addressing_mode: AddressingMode::Absolute, bytes: 3, cycles: 4 })),
        0xEDu8 => Some(Instruction::SBC(OpCodeInfo { addressing_mode: AddressingMode::Absolute, bytes: 3, cycles: 4 })),
        0xEEu8 => Some(Instruction::INC(OpCodeInfo { addressing_mode: AddressingMode::Absolute, bytes: 3, cycles: 6 })),
        0xF0u8 => Some(Instruction::BEQ(OpCodeInfo { addressing_mode: AddressingMode::Relative, bytes: 2, cycles: 2 })),
        0xF1u8 => Some(Instruction::SBC(OpCodeInfo { addressing_mode: AddressingMode::Indirect_Y, bytes: 2, cycles: 5 })),
        0xF5u8 => Some(Instruction::SBC(OpCodeInfo { addressing_mode: AddressingMode::ZeroPage_X, bytes: 2, cycles: 4 })),
        0xF6u8 => Some(Instruction::INC(OpCodeInfo { addressing_mode: AddressingMode::ZeroPage_X, bytes: 2, cycles: 6 })),
        0xF8u8 => Some(Instruction::SED(OpCodeInfo { addressing_mode: AddressingMode::Implicit, bytes: 1, cycles: 2 })),
        0xF9u8 => Some(Instruction::SBC(OpCodeInfo { addressing_mode: AddressingMode::Absolute_Y, bytes: 3, cycles: 4 })),
        0xFDu8 => Some(Instruction::SBC(OpCodeInfo { addressing_mode: AddressingMode::Absolute_X, bytes: 3, cycles: 4 })),
        0xFEu8 => Some(Instruction::INC(OpCodeInfo { addressing_mode: AddressingMode::Absolute_X, bytes: 3, cycles: 7 })),
        _ => None,
    }
}

/// The addressing modes the table can pair with each mnemonic; the
/// dispatcher relies on this to hand every handler an operand shape it
/// accepts.
pub open spec fn instr_wf(i: Instruction) -> bool {
    match i {
        Instruction::ADC(info) => info.bytes >= 1 && (mode_reads(info.addressing_mode)),
        Instruction::AND(info) => info.bytes >= 1 && (mode_reads(info.addressing_mode)),
        Instruction::ASL(info) => info.bytes >= 1 && (info.addressing_mode is Accumulator || mode_reads(info.addressing_mode)),
        Instruction::BCC(info) => info.bytes >= 1 && (info.addressing_mode is Relative),
        Instruction::BCS(info) => info.bytes >= 1 && (info.addressing_mode is Relative),
        Instruction::BEQ(info) => info.bytes >= 1 && (info.addressing_mode is Relative),
        Instruction::BIT(info) => info.bytes >= 1 && (mode_reads(info.addressing_mode)),
        Instruction::BMI(info) => info.bytes >= 1 && (info.addressing_mode is Relative),
        Instruction::BNE(info) => info.bytes >= 1 && (info.addressing_mode is Relative),
        Instruction::BPL(info) => info.bytes >= 1 && (info.addressing_mode is Relative),
        Instruction::BRK(info) => info.bytes >= 1,
        Instruction::BVC(info) => info.bytes >= 1 && (info.addressing_mode is Relative),
        Instruction::BVS(info) => info.bytes >= 1 && (info.addressing_mode is Relative),
        Instruction::CLC(info) => info.bytes >= 1,
        Instruction::CLD(info) => info.bytes >= 1,
        Instruction::CLI(info) => info.bytes >= 1,
        Instruction::CLV(info) => info.bytes >= 1,
        Instruction::CMP(info) => info.bytes >= 1 && (mode_reads(info.addressing_mode)),
        Instruction::CPX(info) => info.bytes >= 1 && (mode_reads(info.addressing_mode)),
        Instruction::CPY(info) => info.bytes >= 1 && (mode_reads(info.addressing_mode)),
        Instruction::DEC(info) => info.bytes >= 1 && (mode_reads(info.addressing_mode)),
        Instruction::DEX(info) => info.bytes >= 1,
        Instruction::DEY(info) => info.bytes >= 1,
        Instruction::EOR(info) => info.bytes >= 1 && (mode_reads(info.addressing_mode)),
        Instruction::INC(info) => info.bytes >= 1 && (mode_reads(info.addressing_mode)),
        Instruction::INX(info) => info.bytes >= 1,
        Instruction::INY(info) => info.bytes >= 1,
        Instruction::JMP(info) => info.bytes >= 1 && (info.addressing_mode is Absolute || info.addressing_mode is Indirect),
        Instruction::JSR(info) => info.bytes >= 1 && (info.addressing_mode is Absolute),
        Instruction::LDA(info) => info.bytes >= 1 && (mode_reads(info.addressing_mode)),
        Instruction::LDX(info) => info.bytes >= 1 && (mode_reads(info.addressing_mode)),
        Instruction::LDY(info) => info.bytes >= 1 && (mode_reads(info.addressing_mode)),
        Instruction::LSR(info) => info.bytes >= 1 && (info.addressing_mode is Accumulator || mode_reads(info.addressing_mode)),
        Instruction::NOP(info) => info.bytes >= 1,
        Instruction::ORA(info) => info.bytes >= 1 && (mode_reads(info.addressing_mode)),
        Instruction::PHA(info) => info.bytes >= 1,
        Instruction::PHP(info) => info.bytes >= 1,
        Instruction::PLA(info) => info.bytes >= 1,
        Instruction::PLP(info) => info.bytes >= 1,
        Instruction::ROL(info) => info.bytes >= 1 && (info.addressing_mode is Accumulator || mode_reads(info.addressing_mode)),
        Instruction::ROR(info) => info.bytes >= 1 && (info.addressing_mode is Accumulator || mode_reads(info.addressing_mode)),
        Instruction::RTI(info) => info.bytes >= 1,
        Instruction::RTS(info) => info.bytes >= 1,
        Instruction::SBC(info) => info.bytes >= 1 && (mode_reads(info.addressing_mode)),
        Instruction::SEC(info) => info.bytes >= 1,
        Instruction::SED(info) => info.bytes >= 1,
        Instruction::SEI(info) => info.bytes >= 1,
        Instruction::STA(info) => info.bytes >= 1 && (mode_reads(info.addressing_mode)),
        Instruction::STX(info) => info.bytes >= 1 && (mode_reads(info.addressing_mode)),
        Instruction::STY(info) => info.bytes >= 1 && (mode_reads(info.addressing_mode)),
        Instruction::TAX(info) => info.bytes >= 1,
        Instruction::TAY(info) => info.bytes >= 1,
        Instruction::TSX(info) => info.bytes >= 1,
        Instruction::TXA(info) => info.bytes >= 1,
        Instruction::TXS(info) => info.bytes >= 1,
        Instruction::TYA(info) => info.bytes >= 1,
    }
}

/// The mnemonic of an instruction, as written in a disassembly.
pub open spec fn spec_mnemonic(i: Instruction) -> Seq<char> {
    match i {
        Instruction::ADC(_) => "ADC"@,
        Instruction::AND(_) => "AND"@,
        Instruction::ASL(_) => "ASL"@,
        Instruction::BCC(_) => "BCC"@,
        Instruction::BCS(_) => "BCS"@,
        Instruction::BEQ(_) => "BEQ"@,
        Instruction::BIT(_) => "BIT"@,
        Instruction::BMI(_) => "BMI"@,
        Instruction::BNE(_) => "BNE"@,
        Instruction::BPL(_) => "BPL"@,
        Instruction::BRK(_) => "BRK"@,
        Instruction::BVC(_) => "BVC"@,
        Instruction::BVS(_) => "BVS"@,
        Instruction::CLC(_) => "CLC"@,
        Instruction::CLD(_) => "CLD"@,
        Instruction::CLI(_) => "CLI"@,
        Instruction::CLV(_) => "CLV"@,
        Instruction::CMP(_) => "CMP"@,
        Instruction::CPX(_) => "CPX"@,
        Instruction::CPY(_) => "CPY"@,
        Instruction::DEC(_) => "DEC"@,
        Instruction::DEX(_) => "DEX"@,
        Instruction::DEY(_) => "DEY"@,
        Instruction::EOR(_) => "EOR"@,
        Instruction::INC(_) => "INC"@,
        Instruction::INX(_) => "INX"@,
        Instruction::INY(_) => "INY"@,
        Instruction::JMP(_) => "JMP"@,
        Instruction::JSR(_) => "JSR"@,
        Instruction::LDA(_) => "LDA"@,
        Instruction::LDX(_) => "LDX"@,
        Instruction::LDY(_) => "LDY"@,
        Instruction::LSR(_) => "LSR"@,
        Instruction::NOP(_) => "NOP"@,
        Instruction::ORA(_) => "ORA"@,
        Instruction::PHA(_) => "PHA"@,
        Instruction::PHP(_) => "PHP"@,
        Instruction::PLA(_) => "PLA"@,
        Instruction::PLP(_) => "PLP"@,
        Instruction::ROL(_) => "ROL"@,
        Instruction::ROR(_) => "ROR"@,
        Instruction::RTI(_) => "RTI"@,
        Instruction::RTS(_) => "RTS"@,
        Instruction::SBC(_) => "SBC"@,
        Instruction::SEC(_) => "SEC"@,
        Instruction::SED(_) => "SED"@,
        Instruction::SEI(_) => "SEI"@,
        Instruction::STA(_) => "STA"@,
        Instruction::STX(_) => "STX"@,
        Instruction::STY(_) => "STY"@,
        Instruction::TAX(_) => "TAX"@,
        Instruction::TAY(_) => "TAY"@,
        Instruction::TSX(_) => "TSX"@,
        Instruction::TXA(_) => "TXA"@,
        Instruction::TXS(_) => "TXS"@,
        Instruction::TYA(_) => "TYA"@,
    }
}

/// The decode information carried by an instruction.
pub open spec fn spec_info(i: Instruction) -> OpCodeInfo {
    match i {
        Instruction::ADC(info) => info,
        Instruction::AND(info) => info,
        Instruction::ASL(info) => info,
        Instruction::BCC(info) => info,
        Instruction::BCS(info) => info,
        Instruction::BEQ(info) => info,
        Instruction::BIT(info) => info,
        Instruction::BMI(info) => info,
        Instruction::BNE(info) => info,
        Instruction::BPL(info) => info,
        Instruction::BRK(info) => info,
        Instruction::BVC(info) => info,
        Instruction::BVS(info) => info,
        Instruction::CLC(info) => info,
        Instruction::CLD(info) => info,
        Instruction::CLI(info) => info,
        Instruction::CLV(info) => info,
        Instruction::CMP(info) => info,
        Instruction::CPX(info) => info,
        Instruction::CPY(info) => info,
        Instruction::DEC(info) => info,
        Instruction::DEX(info) => info,
        Instruction::DEY(info) => info,
        Instruction::EOR(info) => info,
        Instruction::INC(info) => info,
        Instruction::INX(info) => info,
        Instruction::INY(info) => info,
        Instruction::JMP(info) => info,
        Instruction::JSR(info) => info,
        Instruction::LDA(info) => info,
        Instruction::LDX(info) => info,
        Instruction::LDY(info) => info,
        Instruction::LSR(info) => info,
        Instruction::NOP(info) => info,
        Instruction::ORA(info) => info,
        Instruction::PHA(info) => info,
        Instruction::PHP(info) => info,
        Instruction::PLA(info) => info,
        Instruction::PLP(info) => info,
        Instruction::ROL(info) => info,
        Instruction::ROR(info) => info,
        Instruction::RTI(info) => info,
        Instruction::RTS(info) => info,
        Instruction::SBC(info) => info,
        Instruction::SEC(info) => info,
        Instruction::SED(info) => info,
        Instruction::SEI(info) => info,
        Instruction::STA(info) => info,
        Instruction::STX(info) => info,
        Instruction::STY(info) => info,
        Instruction::TAX(info) => info,
        Instruction::TAY(info) => info,
        Instruction::TSX(info) => info,
        Instruction::TXA(info) => info,
        Instruction::TXS(info) => info,
        Instruction::TYA(info) => info,
    }
}

impl Instruction {
    /// Decode one opcode byte. Every byte outside the official opcode
    /// table is rejected.
    pub fn from_opcode(opcode: u8) -> (r: Result<Instruction, CpuError>)
        ensures
            match r {
                Ok(i) => spec_decode(opcode) == Some(i) && instr_wf(i),
                Err(e) => spec_decode(opcode) is None && e == CpuError::UnknownOpcode(
                    opcode,
                ),
            },
    {
        match opcode {
            0x00u8 => Ok(Instruction::BRK(OpCodeInfo { addressing_mode: AddressingMode::Implicit, bytes: 1, cycles: 7 })),
            0x01u8 => Ok(Instruction::ORA(OpCodeInfo { addressing_mode: AddressingMode::Indirect_X, bytes: 2, cycles: 6 })),
            0x05u8 => Ok(Instruction::ORA(OpCodeInfo { addressing_mode: AddressingMode::ZeroPage, bytes: 2, cycles: 3 })),
            0x06u8 => Ok(Instruction::ASL(OpCodeInfo { addressing_mode: AddressingMode::ZeroPage, bytes: 2, cycles: 5 })),
            0x08u8 => Ok(Instruction::PHP(OpCodeInfo { addressing_mode: AddressingMode::Implicit, bytes: 1, cycles: 3 })),
            0x09u8 => Ok(Instruction::ORA(OpCodeInfo { addressing_mode: AddressingMode::Immediate, bytes: 2, cycles: 2 })),
            0x0Au8 => Ok(Instruction::ASL(OpCodeInfo { addressing_mode: AddressingMode::Accumulator, bytes: 1, cycles: 2 })),
            0x0Du8 => Ok(Instruction::ORA(OpCodeInfo { addressing_mode: AddressingMode::Absolute, bytes: 3, cycles: 4 })),
            0x0Eu8 => Ok(Instruction::ASL(OpCodeInfo { addressing_mode: AddressingMode::Absolute, bytes: 3, cycles: 6 })),
            0x10u8 => Ok(Instruction::BPL(OpCodeInfo { addressing_mode: AddressingMode::Relative, bytes: 2, cycles: 2 })),
            0x11u8 => Ok(Instruction::ORA(OpCodeInfo { addressing_mode: AddressingMode::Indirect_Y, bytes: 2, cycles: 5 })),
            0x15u8 => Ok(Instruction::ORA(OpCodeInfo { addressing_mode: AddressingMode::ZeroPage_X, bytes: 2, cycles: 4 })),
            0x16u8 => Ok(Instruction::ASL(OpCodeInfo { addressing_mode: AddressingMode::ZeroPage_X, bytes: 2, cycles: 6 })),
            0x18u8 => Ok(Instruction::CLC(OpCodeInfo { addressing_mode: AddressingMode::Implicit, bytes: 1, cycles: 2 })),
            0x19u8 => Ok(Instruction::ORA(OpCodeInfo { addressing_mode: AddressingMode::Absolute_Y, bytes: 3, cycles: 4 })),
            0x1Du8 => Ok(Instruction::ORA(OpCodeInfo { addressing_mode: AddressingMode::Absolute_X, bytes: 3, cycles: 4 })),
            0x1Eu8 => Ok(Instruction::ASL(OpCodeInfo { addressing_mode: AddressingMode::Absolute_X, bytes: 3, cycles: 7 })),
            0x20u8 => Ok(Instruction::JSR(OpCodeInfo { addressing_mode: AddressingMode::Absolute, bytes: 3, cycles: 6 })),
            0x21u8 => Ok(Instruction::AND(OpCodeInfo { addressing_mode: AddressingMode::Indirect_X, bytes: 2, cycles: 6 })),
            0x24u8 => Ok(Instruction::BIT(OpCodeInfo { addressing_mode: AddressingMode::ZeroPage, bytes: 2, cycles: 3 })),
            0x25u8 => Ok(Instruction::AND(OpCodeInfo { addressing_mode: AddressingMode::ZeroPage, bytes: 2, cycles: 3 })),
            0x26u8 => Ok(Instruction::ROL(OpCodeInfo { addressing_mode: AddressingMode::ZeroPage, bytes: 2, cycles: 5 })),
            0x28u8 => Ok(Instruction::PLP(OpCodeInfo { addressing_mode: AddressingMode::Implicit, bytes: 1, cycles: 4 })),
            0x29u8 => Ok(Instruction::AND(OpCodeInfo { addressing_mode: AddressingMode::Immediate, bytes: 2, cycles: 2 })),
            0x2Au8 => Ok(Instruction::ROL(OpCodeInfo { addressing_mode: AddressingMode::Accumulator, bytes: 1, cycles: 2 })),
            0x2Cu8 => Ok(Instruction::BIT(OpCodeInfo { addressing_mode: AddressingMode::Absolute, bytes: 3, cycles: 4 })),
            0x2Du8 => Ok(Instruction::AND(OpCodeInfo { addressing_mode: AddressingMode::Absolute, bytes: 3, cycles: 4 })),
            0x2Eu8 => Ok(Instruction::ROL(OpCodeInfo { addressing_mode: AddressingMode::Absolute, bytes: 3, cycles: 6 })),
            0x30u8 => Ok(Instruction::BMI(OpCodeInfo { addressing_mode: AddressingMode::Relative, bytes: 2, cycles: 2 })),
            0x31u8 => Ok(Instruction::AND(OpCodeInfo { addressing_mode: AddressingMode::Indirect_Y, bytes: 2, cycles: 5 })),
            0x35u8 => Ok(Instruction::AND(OpCodeInfo { addressing_mode: AddressingMode::ZeroPage_X, bytes: 2, cycles: 4 })),
            0x36u8 => Ok(Instruction::ROL(OpCodeInfo { addressing_mode: AddressingMode::ZeroPage_X, bytes: 2, cycles: 6 })),
            0x38u8 => Ok(Instruction::SEC(OpCodeInfo { addressing_mode: AddressingMode::Implicit, bytes: 1, cycles: 2 })),
            0x39u8 => Ok(Instruction::AND(OpCodeInfo { addressing_mode: AddressingMode::Absolute_Y, bytes: 3, cycles: 4 })),
            0x3Du8 => Ok(Instruction::AND(OpCodeInfo { addressing_mode: AddressingMode::Absolute_X, bytes: 3, cycles: 4 })),
            0x3Eu8 => Ok(Instruction::ROL(OpCodeInfo { addressing_mode: AddressingMode::Absolute_X, bytes: 3, cycles: 7 })),
            0x40u8 => Ok(Instruction::RTI(OpCodeInfo { addressing_mode: AddressingMode::Implicit, bytes: 1, cycles: 6 })),
            0x41u8 => Ok(Instruction::EOR(OpCodeInfo { addressing_mode: AddressingMode::Indirect_X, bytes: 2, cycles: 6 })),
            0x45u8 => Ok(Instruction::EOR(OpCodeInfo { addressing_mode: AddressingMode::ZeroPage, bytes: 2, cycles: 3 })),
            0x46u8 => Ok(Instruction::LSR(OpCodeInfo { addressing_mode: AddressingMode::ZeroPage, bytes: 2, cycles: 5 })),
            0x48u8 => Ok(Instruction::PHA(OpCodeInfo { addressing_mode: AddressingMode::Implicit, bytes: 1, cycles: 3 })),
            0x49u8 => Ok(Instruction::EOR(OpCodeInfo { addressing_mode: AddressingMode::Immediate, bytes: 2, cycles: 2 })),
            0x4Au8 => Ok(Instruction::LSR(OpCodeInfo { addressing_mode: AddressingMode::Accumulator, bytes: 1, cycles: 2 })),
            0x4Cu8 => Ok(Instruction::JMP(OpCodeInfo { addressing_mode: AddressingMode::Absolute, bytes: 3, cycles: 3 })),
            0x4Du8 => Ok(Instruction::EOR(OpCodeInfo { addressing_mode: AddressingMode::Absolute, bytes: 3, cycles: 4 })),
            0x4Eu8 => Ok(Instruction::LSR(OpCodeInfo { addressing_mode: AddressingMode::Absolute, bytes: 3, cycles: 6 })),
            0x50u8 => Ok(Instruction::BVC(OpCodeInfo { addressing_mode: AddressingMode::Relative, bytes: 2, cycles: 2 })),
            0x51u8 => Ok(Instruction::EOR(OpCodeInfo { addressing_mode: AddressingMode::Indirect_Y, bytes: 2, cycles: 5 })),
            0x55u8 => Ok(Instruction::EOR(OpCodeInfo { addressing_mode: AddressingMode::ZeroPage_X, bytes: 2, cycles: 4 })),
            0x56u8 => Ok(Instruction::LSR(OpCodeInfo { addressing_mode: AddressingMode::ZeroPage_X, bytes: 2, cycles: 6 })),
            0x58u8 => Ok(Instruction::CLI(OpCodeInfo { addressing_mode: AddressingMode::Implicit, bytes: 1, cycles: 2 })),
            0x59u8 => Ok(Instruction::EOR(OpCodeInfo { addressing_mode: AddressingMode::Absolute_Y, bytes: 3, cycles: 4 })),
            0x5Du8 => Ok(Instruction::EOR(OpCodeInfo { addressing_mode: AddressingMode::Absolute_X, bytes: 3, cycles: 4 })),
            0x5Eu8 => Ok(Instruction::LSR(OpCodeInfo { addressing_mode: AddressingMode::Absolute_X, bytes: 3, cycles: 7 })),
            0x60u8 => Ok(Instruction::RTS(OpCodeInfo { addressing_mode: AddressingMode::Implicit, bytes: 1, cycles: 6 })),
            0x61u8 => Ok(Instruction::ADC(OpCodeInfo { addressing_mode: AddressingMode::Indirect_X, bytes: 2, cycles: 6 })),
            0x65u8 => Ok(Instruction::ADC(OpCodeInfo { addressing_mode: AddressingMode::ZeroPage, bytes: 2, cycles: 3 })),
            0x66u8 => Ok(Instruction::ROR(OpCodeInfo { addressing_mode: AddressingMode::ZeroPage, bytes: 2, cycles: 5 })),
            0x68u8 => Ok(Instruction::PLA(OpCodeInfo { addressing_mode: AddressingMode::Implicit, bytes: 1, cycles: 4 })),
            0x69u8 => Ok(Instruction::ADC(OpCodeInfo { addressing_mode: AddressingMode::Immediate, bytes: 2, cycles: 2 })),
            0x6Au8 => Ok(Instruction::ROR(OpCodeInfo { addressing_mode: AddressingMode::Accumulator, bytes: 1, cycles: 2 })),
            0x6Cu8 => Ok(Instruction::JMP(OpCodeInfo { addressing_mode: AddressingMode::Indirect, bytes: 3, cycles: 5 })),
            0x6Du8 => Ok(Instruction::ADC(OpCodeInfo { addressing_mode: AddressingMode::Absolute, bytes: 3, cycles: 4 })),
            0x6Eu8 => Ok(Instruction::ROR(OpCodeInfo { addressing_mode: AddressingMode::Absolute, bytes: 3, cycles: 6 })),
            0x70u8 => Ok(Instruction::BVS(OpCodeInfo { addressing_mode: AddressingMode::Relative, bytes: 2, cycles: 2 })),
            0x71u8 => Ok(Instruction::ADC(OpCodeInfo { addressing_mode: AddressingMode::Indirect_Y, bytes: 2, cycles: 5 })),
            0x75u8 => Ok(Instruction::ADC(OpCodeInfo { addressing_mode: AddressingMode::ZeroPage_X, bytes: 2, cycles: 4 })),
            0x76u8 => Ok(Instruction::ROR(OpCodeInfo { addressing_mode: AddressingMode::ZeroPage_X, bytes: 2, cycles: 6 })),
            0x78u8 => Ok(Instruction::SEI(OpCodeInfo { addressing_mode: AddressingMode::Implicit, bytes: 1, cycles: 2 })),
            0x79u8 => Ok(Instruction::ADC(OpCodeInfo { addressing_mode: AddressingMode::Absolute_Y, bytes: 3, cycles: 4 })),
            0x7Du8 => Ok(Instruction::ADC(OpCodeInfo { addressing_mode: AddressingMode::Absolute_X, bytes: 3, cycles: 4 })),
            0x7Eu8 => Ok(Instruction::ROR(OpCodeInfo { addressing_mode: AddressingMode::Absolute_X, bytes: 3, cycles: 7 })),
            0x81u8 => Ok(Instruction::STA(OpCodeInfo { addressing_mode: AddressingMode::Indirect_X, bytes: 2, cycles: 6 })),
            0x84u8 => Ok(Instruction::STY(OpCodeInfo { addressing_mode: AddressingMode::ZeroPage, bytes: 2, cycles: 3 })),
            0x85u8 => Ok(Instruction::STA(OpCodeInfo { addressing_mode: AddressingMode::ZeroPage, bytes: 2, cycles: 3 })),
            0x86u8 => Ok(Instruction::STX(OpCodeInfo { addressing_mode: AddressingMode::ZeroPage, bytes: 2, cycles: 3 })),
            0x88u8 => Ok(Instruction::DEY(OpCodeInfo { addressing_mode: AddressingMode::Implicit, bytes: 1, cycles: 2 })),
            0x8Au8 => Ok(Instruction::TXA(OpCodeInfo { addressing_mode: AddressingMode::Implicit, bytes: 1, cycles: 2 })),
            0x8Cu8 => Ok(Instruction::STY(OpCodeInfo { addressing_mode: AddressingMode::Absolute, bytes: 3, cycles: 4 })),
            0x8Du8 => Ok(Instruction::STA(OpCodeInfo { addressing_mode: AddressingMode::Absolute, bytes: 3, cycles: 4 })),
            0x8Eu8 => Ok(Instruction::STX(OpCodeInfo { addressing_mode: AddressingMode::Absolute, bytes: 3, cycles: 4 })),
            0x90u8 => Ok(Instruction::BCC(OpCodeInfo { addressing_mode: AddressingMode::Relative, bytes: 2, cycles: 2 })),
            0x91u8 => Ok(Instruction::STA(OpCodeInfo { addressing_mode: AddressingMode::Indirect_Y, bytes: 2, cycles: 6 })),
            0x94u8 => Ok(Instruction::STY(OpCodeInfo { addressing_mode: AddressingMode::ZeroPage_X, bytes: 2, cycles: 4 })),
            0x95u8 => Ok(Instruction::STA(OpCodeInfo { addressing_mode: AddressingMode::ZeroPage_X, bytes: 2, cycles: 4 })),
            0x96u8 => Ok(Instruction::STX(OpCodeInfo { addressing_mode: AddressingMode::ZeroPage_Y, bytes: 2, cycles: 4 })),
            0x98u8 => Ok(Instruction::TYA(OpCodeInfo { addressing_mode: AddressingMode::Implicit, bytes: 1, cycles: 2 })),
            0x99u8 => Ok(Instruction::STA(OpCodeInfo { addressing_mode: AddressingMode::Absolute_Y, bytes: 3, cycles: 5 })),
            0x9Au8 => Ok(Instruction::TXS(OpCodeInfo { addressing_mode: AddressingMode::Implicit, bytes: 1, cycles: 2 })),
            0x9Du8 => Ok(Instruction::STA(OpCodeInfo { addressing_mode: AddressingMode::Absolute_X, bytes: 3, cycles: 5 })),
            0xA0u8 => Ok(Instruction::LDY(OpCodeInfo { addressing_mode: AddressingMode::Immediate, bytes: 2, cycles: 2 })),
            0xA1u8 => Ok(Instruction::LDA(OpCodeInfo { addressing_mode: AddressingMode::Indirect_X, bytes: 2, cycles: 6 })),
            0xA2u8 => Ok(Instruction::LDX(OpCodeInfo { addressing_mode: AddressingMode::Immediate, bytes: 2, cycles: 2 })),
            0xA4u8 => Ok(Instruction::LDY(OpCodeInfo { addressing_mode: AddressingMode::ZeroPage, bytes: 2, cycles: 3 })),
            0xA5u8 => Ok(Instruction::LDA(OpCodeInfo { addressing_mode: AddressingMode::ZeroPage, bytes: 2, cycles: 3 })),
            0xA6u8 => Ok(Instruction::LDX(OpCodeInfo { addressing_mode: AddressingMode::ZeroPage, bytes: 2, cycles: 3 })),
            0xA8u8 => Ok(Instruction::TAY(OpCodeInfo { addressing_mode: AddressingMode::Implicit, bytes: 1, cycles: 2 })),
            0xA9u8 => Ok(Instruction::LDA(OpCodeInfo { addressing_mode: AddressingMode::Immediate, bytes: 2, cycles: 2 })),
            0xAAu8 => Ok(Instruction::TAX(OpCodeInfo { addressing_mode: AddressingMode::Implicit, bytes: 1, cycles: 2 })),
            0xACu8 => Ok(Instruction::LDY(OpCodeInfo { addressing_mode: AddressingMode::Absolute, bytes: 3, cycles: 4 })),
            0xADu8 => Ok(Instruction::LDA(OpCodeInfo { addressing_mode: AddressingMode::Absolute, bytes: 3, cycles: 4 })),
            0xAEu8 => Ok(Instruction::LDX(OpCodeInfo { addressing_mode: AddressingMode::Absolute, bytes: 3, cycles: 4 })),
            0xB0u8 => Ok(Instruction::BCS(OpCodeInfo { addressing_mode: AddressingMode::Relative, bytes: 2, cycles: 2 })),
            0xB1u8 => Ok(Instruction::LDA(OpCodeInfo { addressing_mode: AddressingMode::Indirect_Y, bytes: 2, cycles: 5 })),
            0xB4u8 => Ok(Instruction::LDY(OpCodeInfo { addressing_mode: AddressingMode::ZeroPage_X, bytes: 2, cycles: 4 })),
            0xB5u8 => Ok(Instruction::LDA(OpCodeInfo { addressing_mode: AddressingMode::ZeroPage_X, bytes: 2, cycles: 4 })),
            0xB6u8 => Ok(Instruction::LDX(OpCodeInfo { addressing_mode: AddressingMode::ZeroPage_Y, bytes: 2, cycles: 4 })),
            0xB8u8 => Ok(Instruction::CLV(OpCodeInfo { addressing_mode: AddressingMode::Implicit, bytes: 1, cycles: 2 })),
            0xB9u8 => Ok(Instruction::LDA(OpCodeInfo { addressing_mode: AddressingMode::Absolute_Y, bytes: 3, cycles: 4 })),
            0xBAu8 => Ok(Instruction::TSX(OpCodeInfo { addressing_mode: AddressingMode::Implicit, bytes: 1, cycles: 2 })),
            0xBCu8 => Ok(Instruction::LDY(OpCodeInfo { addressing_mode: AddressingMode::Absolute_X, bytes: 3, cycles: 4 })),
            0xBDu8 => Ok(Instruction::LDA(OpCodeInfo { addressing_mode: AddressingMode::Absolute_X, bytes: 3, cycles: 4 })),
            0xBEu8 => Ok(Instruction::LDX(OpCodeInfo { addressing_mode: AddressingMode::Absolute_Y, bytes: 3, cycles: 4 })),
            0xC0u8 => Ok(Instruction::CPY(OpCodeInfo { addressing_mode: AddressingMode::Immediate, bytes: 2, cycles: 2 })),
            0xC1u8 => Ok(Instruction::CMP(OpCodeInfo { addressing_mode: AddressingMode::Indirect_X, bytes: 2, cycles: 6 })),
            0xC4u8 => Ok(Instruction::CPY(OpCodeInfo { addressing_mode: AddressingMode::ZeroPage, bytes: 2, cycles: 3 })),
            0xC5u8 => Ok(Instruction::CMP(OpCodeInfo { addressing_mode: AddressingMode::ZeroPage, bytes: 2, cycles: 3 })),
            0xC6u8 => Ok(Instruction::DEC(OpCodeInfo { addressing_mode: AddressingMode::ZeroPage, bytes: 2, cycles: 5 })),
            0xC8u8 => Ok(Instruction::INY(OpCodeInfo { addressing_mode: AddressingMode::Implicit, bytes: 1, cycles: 2 })),
            0xC9u8 => Ok(Instruction::CMP(OpCodeInfo { addressing_mode: AddressingMode::Immediate, bytes: 2, cycles: 2 })),
            0xCAu8 => Ok(Instruction::DEX(OpCodeInfo { addressing_mode: AddressingMode::Implicit, bytes: 1, cycles: 2 })),
            0xCCu8 => Ok(Instruction::CPY(OpCodeInfo { addressing_mode: AddressingMode::Absolute, bytes: 3, cycles: 4 })),
            0xCDu8 => Ok(Instruction::CMP(OpCodeInfo { addressing_mode: AddressingMode::Absolute, bytes: 3, cycles: 4 })),
            0xCEu8 => Ok(Instruction::DEC(OpCodeInfo { addressing_mode: AddressingMode::Absolute, bytes: 3, cycles: 6 })),
            0xD0u8 => Ok(Instruction::BNE(OpCodeInfo { addressing_mode: AddressingMode::Relative, bytes: 2, cycles: 2 })),
            0xD1u8 => Ok(Instruction::CMP(OpCodeInfo { addressing_mode: AddressingMode::Indirect_Y, bytes: 2, cycles: 5 })),
            0xD5u8 => Ok(Instruction::CMP(OpCodeInfo { addressing_mode: AddressingMode::ZeroPage_X, bytes: 2, cycles: 4 })),
            0xD6u8 => Ok(Instruction::DEC(OpCodeInfo { addressing_mode: AddressingMode::ZeroPage_X, bytes: 2, cycles: 6 })),
            0xD8u8 => Ok(Instruction::CLD(OpCodeInfo { addressing_mode: AddressingMode::Implicit, bytes: 1, cycles: 2 })),
            0xD9u8 => Ok(Instruction::CMP(OpCodeInfo { addressing_mode: AddressingMode::Absolute_Y, bytes: 3, cycles: 4 })),
            0xDDu8 => Ok(Instruction::CMP(OpCodeInfo { addressing_mode: AddressingMode::Absolute_X, bytes: 3, cycles: 4 })),
            0xDEu8 => Ok(Instruction::DEC(OpCodeInfo { addressing_mode: AddressingMode::Absolute_X, bytes: 3, cycles: 7 })),
            0xE0u8 => Ok(Instruction::CPX(OpCodeInfo { addressing_mode: AddressingMode::Immediate, bytes: 2, cycles: 2 })),
            0xE1u8 => Ok(Instruction::SBC(OpCodeInfo { addressing_mode: AddressingMode::Indirect_X, bytes: 2, cycles: 6 })),
            0xE4u8 => Ok(Instruction::CPX(OpCodeInfo { addressing_mode: AddressingMode::ZeroPage, bytes: 2, cycles: 3 })),
            0xE5u8 => Ok(Instruction::SBC(OpCodeInfo { addressing_mode: AddressingMode::ZeroPage, bytes: 2, cycles: 3 })),
            0xE6u8 => Ok(Instruction::INC(OpCodeInfo { addressing_mode: AddressingMode::ZeroPage, bytes: 2, cycles: 5 })),
            0xE8u8 => Ok(Instruction::INX(OpCodeInfo { addressing_mode: AddressingMode::Implicit, bytes: 1, cycles: 2 })),
            0xE9u8 => Ok(Instruction::SBC(OpCodeInfo { addressing_mode: AddressingMode::Immediate, bytes: 2, cycles: 2 })),
            0xEAu8 => Ok(Instruction::NOP(OpCodeInfo { addressing_mode: AddressingMode::Implicit, bytes: 1, cycles: 2 })),
            0xECu8 => Ok(Instruction::CPX(OpCodeInfo { addressing_mode: AddressingMode::Absolute, bytes: 3, cycles: 4 })),
            0xEDu8 => Ok(Instruction::SBC(OpCodeInfo { addressing_mode: AddressingMode::Absolute, bytes: 3, cycles: 4 })),
            0xEEu8 => Ok(Instruction::INC(OpCodeInfo { addressing_mode: AddressingMode::Absolute, bytes: 3, cycles: 6 })),
            0xF0u8 => Ok(Instruction::BEQ(OpCodeInfo { addressing_mode: AddressingMode::Relative, bytes: 2, cycles: 2 })),
            0xF1u8 => Ok(Instruction::SBC(OpCodeInfo { addressing_mode: AddressingMode::Indirect_Y, bytes: 2, cycles: 5 })),
            0xF5u8 => Ok(Instruction::SBC(OpCodeInfo { addressing_mode: AddressingMode::ZeroPage_X, bytes: 2, cycles: 4 })),
            0xF6u8 => Ok(Instruction::INC(OpCodeInfo { addressing_mode: AddressingMode::ZeroPage_X, bytes: 2, cycles: 6 })),
            0xF8u8 => Ok(Instruction::SED(OpCodeInfo { addressing_mode: AddressingMode::Implicit, bytes: 1, cycles: 2 })),
            0xF9u8 => Ok(Instruction::SBC(OpCodeInfo { addressing_mode: AddressingMode::Absolute_Y, bytes: 3, cycles: 4 })),
            0xFDu8 => Ok(Instruction::SBC(OpCodeInfo { addressing_mode: AddressingMode::Absolute_X, bytes: 3, cycles: 4 })),
            0xFEu8 => Ok(Instruction::INC(OpCodeInfo { addressing_mode: AddressingMode::Absolute_X, bytes: 3, cycles: 7 })),
            _ => Err(CpuError::UnknownOpcode(opcode)),
        }
    }

    /// The mnemonic, for disassembly.
    pub fn to_opcode_name(&self) -> (r: &'static str)
        ensures
            r@ == spec_mnemonic(*self),
    {
        match self {
            Instruction::ADC(_) => "ADC",
            Instruction::AND(_) => "AND",
            Instruction::ASL(_) => "ASL",
            Instruction::BCC(_) => "BCC",
            Instruction::BCS(_) => "BCS",
            Instruction::BEQ(_) => "BEQ",
            Instruction::BIT(_) => "BIT",
            Instruction::BMI(_) => "BMI",
            Instruction::BNE(_) => "BNE",
            Instruction::BPL(_) => "BPL",
            Instruction::BRK(_) => "BRK",
            Instruction::BVC(_) => "BVC",
            Instruction::BVS(_) => "BVS",
            Instruction::CLC(_) => "CLC",
            Instruction::CLD(_) => "CLD",
            Instruction::CLI(_) => "CLI",
            Instruction::CLV(_) => "CLV",
            Instruction::CMP(_) => "CMP",
            Instruction::CPX(_) => "CPX",
            Instruction::CPY(_) => "CPY",
            Instruction::DEC(_) => "DEC",
            Instruction::DEX(_) => "DEX",
            Instruction::DEY(_) => "DEY",
            Instruction::EOR(_) => "EOR",
            Instruction::INC(_) => "INC",
            Instruction::INX(_) => "INX",
            Instruction::INY(_) => "INY",
            Instruction::JMP(_) => "JMP",
            Instruction::JSR(_) => "JSR",
            Instruction::LDA(_) => "LDA",
            Instruction::LDX(_) => "LDX",
            Instruction::LDY(_) => "LDY",
            Instruction::LSR(_) => "LSR",
            Instruction::NOP(_) => "NOP",
            Instruction::ORA(_) => "ORA",
            Instruction::PHA(_) => "PHA",
            Instruction::PHP(_) => "PHP",
            Instruction::PLA(_) => "PLA",
            Instruction::PLP(_) => "PLP",
            Instruction::ROL(_) => "ROL",
            Instruction::ROR(_) => "ROR",
            Instruction::RTI(_) => "RTI",
            Instruction::RTS(_) => "RTS",
            Instruction::SBC(_) => "SBC",
            Instruction::SEC(_) => "SEC",
            Instruction::SED(_) => "SED",
            Instruction::SEI(_) => "SEI",
            Instruction::STA(_) => "STA",
            Instruction::STX(_) => "STX",
            Instruction::STY(_) => "STY",
            Instruction::TAX(_) => "TAX",
            Instruction::TAY(_) => "TAY",
            Instruction::TSX(_) => "TSX",
            Instruction::TXA(_) => "TXA",
            Instruction::TXS(_) => "TXS",
            Instruction::TYA(_) => "TYA",
        }
    }

    /// The decode information.
    pub fn to_opcode_info(&self) -> (r: OpCodeInfo)
        ensures
            r == spec_info(*self),
    {
        match self {
            Instruction::ADC(info) => *info,
            Instruction::AND(info) => *info,
            Instruction::ASL(info) => *info,
            Instruction::BCC(info) => *info,
            Instruction::BCS(info) => *info,
            Instruction::BEQ(info) => *info,
            Instruction::BIT(info) => *info,
            Instruction::BMI(info) => *info,
            Instruction::BNE(info) => *info,
            Instruction::BPL(info) => *info,
            Instruction::BRK(info) => *info,
            Instruction::BVC(info) => *info,
            Instruction::BVS(info) => *info,
            Instruction::CLC(info) => *info,
            Instruction::CLD(info) => *info,
            Instruction::CLI(info) => *info,
            Instruction::CLV(info) => *info,
            Instruction::CMP(info) => *info,
            Instruction::CPX(info) => *info,
            Instruction::CPY(info) => *info,
            Instruction::DEC(info) => *info,
            Instruction::DEX(info) => *info,
            Instruction::DEY(info) => *info,
            Instruction::EOR(info) => *info,
            Instruction::INC(info) => *info,
            Instruction::INX(info) => *info,
            Instruction::INY(info) => *info,
            Instruction::JMP(info) => *info,
            Instruction::JSR(info) => *info,
            Instruction::LDA(info) => *info,
            Instruction::LDX(info) => *info,
            Instruction::LDY(info) => *info,
            Instruction::LSR(info) => *info,
            Instruction::NOP(info) => *info,
            Instruction::ORA(info) => *info,
            Instruction::PHA(info) => *info,
            Instruction::PHP(info) => *info,
            Instruction::PLA(info) => *info,
            Instruction::PLP(info) => *info,
            Instruction::ROL(info) => *info,
            Instruction::ROR(info) => *info,
            Instruction::RTI(info) => *info,
            Instruction::RTS(info) => *info,
            Instruction::SBC(info) => *info,
            Instruction::SEC(info) => *info,
            Instruction::SED(info) => *info,
            Instruction::SEI(info) => *info,
            Instruction::STA(info) => *info,
            Instruction::STX(info) => *info,
            Instruction::STY(info) => *info,
            Instruction::TAX(info) => *info,
            Instruction::TAY(info) => *info,
            Instruction::TSX(info) => *info,
            Instruction::TXA(info) => *info,
            Instruction::TXS(info) => *info,
            Instruction::TYA(info) => *info,
        }
    }
}

} // verus!
