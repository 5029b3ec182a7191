use crate::cpu::addressing_mode::{spec_operand, to_i8, AddressingMode, AddressingResult};
use crate::cpu::mem::{
    hi8, lo8, make16, spec_mem_write, stack_addr, wrap16, wrap64, wrap8,
};
use crate::cpu::opcodes::{spec_decode, spec_info, Instruction};
use crate::cpu::CpuError;
use crate::cpu::status::{
    byte_to_status, spec_update_cmp, spec_update_co_zn, spec_update_zn, status_to_byte,
    ProcessorStatus,
};
use vstd::prelude::*;

verus! {

/// Mathematical view of the whole processor: registers, status, stack
/// pointer, cycle counter and the 64 KiB bus view.
#[verifier::ext_equal]
pub ghost struct CpuV {
    pub pc: u16,
    pub a: u8,
    pub x: u8,
    pub y: u8,
    pub sp: u8,
    pub cycles: u64,
    pub status: ProcessorStatus,
    pub mem: Seq<u8>,
}

/// The byte visible at an address.
pub open spec fn sread(s: CpuV, addr: u16) -> u8 {
    s.mem[addr as int]
}

/// The effective address of an operand resolution that yields one.
pub open spec fn operand_addr(s: CpuV, mode: AddressingMode) -> u16 {
    match spec_operand(s, mode) {
        AddressingResult::ReadAddress(a) => a,
        _ => 0,
    }
}

/// The operand byte itself.
pub open spec fn operand_val(s: CpuV, mode: AddressingMode) -> u8 {
    sread(s, operand_addr(s, mode))
}

/// One byte store on the machine state.
pub open spec fn swrite(
    s: CpuV,
    wr: spec_fn(u16) -> bool,
    al: spec_fn(u16) -> u16,
    addr: u16,
    data: u8,
) -> CpuV {
    CpuV { mem: spec_mem_write(s.mem, wr, al, addr, data), ..s }
}

/// Push one byte: store at the current stack cell, then decrement the stack
/// pointer with 8-bit wraparound.
pub open spec fn spec_push_byte(
    s: CpuV,
    wr: spec_fn(u16) -> bool,
    al: spec_fn(u16) -> u16,
    data: u8,
) -> CpuV {
    CpuV { sp: wrap8(s.sp - 1), ..swrite(s, wr, al, stack_addr(s.sp), data) }
}

/// Pull one byte: increment the stack pointer with 8-bit wraparound, then
/// read the cell it now selects.
pub open spec fn spec_pull_byte(s: CpuV) -> (CpuV, u8) {
    let sp = wrap8(s.sp + 1);
    (CpuV { sp, ..s }, sread(s, stack_addr(sp)))
}

// Loads and stores.
pub open spec fn spec_lda(s: CpuV, mode: AddressingMode) -> CpuV {
    let v = operand_val(s, mode);
    CpuV { a: v, status: spec_update_zn(s.status, v), ..s }
}

pub open spec fn spec_ldx(s: CpuV, mode: AddressingMode) -> CpuV {
    let v = operand_val(s, mode);
    CpuV { x: v, status: spec_update_zn(s.status, v), ..s }
}

pub open spec fn spec_ldy(s: CpuV, mode: AddressingMode) -> CpuV {
    let v = operand_val(s, mode);
    CpuV { y: v, status: spec_update_zn(s.status, v), ..s }
}

pub open spec fn spec_sta(
    s: CpuV,
    mode: AddressingMode,
    wr: spec_fn(u16) -> bool,
    al: spec_fn(u16) -> u16,
) -> CpuV {
    swrite(s, wr, al, operand_addr(s, mode), s.a)
}

pub open spec fn spec_stx(
    s: CpuV,
    mode: AddressingMode,
    wr: spec_fn(u16) -> bool,
    al: spec_fn(u16) -> u16,
) -> CpuV {
    swrite(s, wr, al, operand_addr(s, mode), s.x)
}

pub open spec fn spec_sty(
    s: CpuV,
    mode: AddressingMode,
    wr: spec_fn(u16) -> bool,
    al: spec_fn(u16) -> u16,
) -> CpuV {
    swrite(s, wr, al, operand_addr(s, mode), s.y)
}

// Arithmetic. Add with carry: the full sum of A, the operand and the carry
// bit; carry out when the sum exceeds a byte, signed overflow when A and the
// operand agree in sign and the result does not.
pub open spec fn spec_adc(s: CpuV, mode: AddressingMode) -> CpuV {
    let m = operand_val(s, mode);
    let c: int = if s.status.carry_flag {
        1
    } else {
        0
    };
    let sum = s.a + m + c;
    let r = wrap8(sum);
    CpuV {
        a: r,
        status: ProcessorStatus {
            overflow_flag: (s.a ^ r) & (m ^ r) & 0x80 != 0,
            ..spec_update_co_zn(s.status, r, sum > 0xFF)
        },
        ..s
    }
}

/// Subtract with carry is add-with-carry of the operand's complement.
pub open spec fn spec_sbc(s: CpuV, mode: AddressingMode) -> CpuV {
    let m = operand_val(s, mode);
    let mb = (0xFF - m) as u8;
    let c: int = if s.status.carry_flag {
        1
    } else {
        0
    };
    let sum = s.a + mb + c;
    let r = wrap8(sum);
    CpuV {
        a: r,
        status: ProcessorStatus {
            overflow_flag: (s.a ^ r) & (mb ^ r) & 0x80 != 0,
            ..spec_update_co_zn(s.status, r, sum > 0xFF)
        },
        ..s
    }
}

// Logic.
pub open spec fn spec_and(s: CpuV, mode: AddressingMode) -> CpuV {
    let v = (s.a & operand_val(s, mode)) as u8;
    CpuV { a: v, status: spec_update_zn(s.status, v), ..s }
}

pub open spec fn spec_ora(s: CpuV, mode: AddressingMode) -> CpuV {
    let v = (s.a | operand_val(s, mode)) as u8;
    CpuV { a: v, status: spec_update_zn(s.status, v), ..s }
}

pub open spec fn spec_eor(s: CpuV, mode: AddressingMode) -> CpuV {
    let v = (s.a ^ operand_val(s, mode)) as u8;
    CpuV { a: v, status: spec_update_zn(s.status, v), ..s }
}

// Compares.
pub open spec fn spec_cmp(s: CpuV, mode: AddressingMode) -> CpuV {
    CpuV { status: spec_update_cmp(s.status, s.a, operand_val(s, mode)), ..s }
}

pub open spec fn spec_cpx(s: CpuV, mode: AddressingMode) -> CpuV {
    CpuV { status: spec_update_cmp(s.status, s.x, operand_val(s, mode)), ..s }
}

pub open spec fn spec_cpy(s: CpuV, mode: AddressingMode) -> CpuV {
    CpuV { status: spec_update_cmp(s.status, s.y, operand_val(s, mode)), ..s }
}

/// Bit test: Z from A and the operand, N and V copied from the operand's top
/// two bits; the accumulator is unchanged.
pub open spec fn spec_bit(s: CpuV, mode: AddressingMode) -> CpuV {
    let v = operand_val(s, mode);
    CpuV {
        status: ProcessorStatus {
            zero_flag: s.a & v == 0,
            negative_flag: v & 0x80 != 0,
            overflow_flag: v & 0x40 != 0,
            ..s.status
        },
        ..s
    }
}

/// The byte a shift or rotate operates on: the accumulator in accumulator
/// mode, else the byte at the effective address.
pub open spec fn shift_src(s: CpuV, mode: AddressingMode) -> u8 {
    if mode is Accumulator {
        s.a
    } else {
        operand_val(s, mode)
    }
}

/// Put a shift result back where it came from, with the new status.
pub open spec fn shift_dst(
    s: CpuV,
    mode: AddressingMode,
    wr: spec_fn(u16) -> bool,
    al: spec_fn(u16) -> u16,
    r: u8,
    p: ProcessorStatus,
) -> CpuV {
    if mode is Accumulator {
        CpuV { a: r, status: p, ..s }
    } else {
        CpuV { status: p, ..swrite(s, wr, al, operand_addr(s, mode), r) }
    }
}

/// Arithmetic shift left: the top bit moves into carry; Z and N follow the
/// result.
pub open spec fn spec_asl(
    s: CpuV,
    mode: AddressingMode,
    wr: spec_fn(u16) -> bool,
    al: spec_fn(u16) -> u16,
) -> CpuV {
    let v = shift_src(s, mode);
    let r = (v << 1) as u8;
    shift_dst(s, mode, wr, al, r, spec_update_co_zn(s.status, r, v & 0x80 != 0))
}

/// Logical shift right: the low bit moves into carry.
pub open spec fn spec_lsr(
    s: CpuV,
    mode: AddressingMode,
    wr: spec_fn(u16) -> bool,
    al: spec_fn(u16) -> u16,
) -> CpuV {
    let v = shift_src(s, mode);
    let r = (v >> 1) as u8;
    shift_dst(s, mode, wr, al, r, spec_update_co_zn(s.status, r, v & 0x01 != 0))
}

/// Rotate left through carry.
pub open spec fn spec_rol(
    s: CpuV,
    mode: AddressingMode,
    wr: spec_fn(u16) -> bool,
    al: spec_fn(u16) -> u16,
) -> CpuV {
    let v = shift_src(s, mode);
    let r = ((v << 1) | (if s.status.carry_flag {
        0x01u8
    } else {
        0u8
    })) as u8;
    shift_dst(s, mode, wr, al, r, spec_update_co_zn(s.status, r, v & 0x80 != 0))
}

/// Rotate right through carry.
pub open spec fn spec_ror(
    s: CpuV,
    mode: AddressingMode,
    wr: spec_fn(u16) -> bool,
    al: spec_fn(u16) -> u16,
) -> CpuV {
    let v = shift_src(s, mode);
    let r = ((v >> 1) | (if s.status.carry_flag {
        0x80u8
    } else {
        0u8
    })) as u8;
    shift_dst(s, mode, wr, al, r, spec_update_co_zn(s.status, r, v & 0x01 != 0))
}

// Increments and decrements, with 8-bit wraparound.
pub open spec fn spec_inc(
    s: CpuV,
    mode: AddressingMode,
    wr: spec_fn(u16) -> bool,
    al: spec_fn(u16) -> u16,
) -> CpuV {
    let r = wrap8(operand_val(s, mode) + 1);
    CpuV { status: spec_update_zn(s.status, r), ..swrite(s, wr, al, operand_addr(s, mode), r) }
}

pub open spec fn spec_dec(
    s: CpuV,
    mode: AddressingMode,
    wr: spec_fn(u16) -> bool,
    al: spec_fn(u16) -> u16,
) -> CpuV {
    let r = wrap8(operand_val(s, mode) - 1);
    CpuV { status: spec_update_zn(s.status, r), ..swrite(s, wr, al, operand_addr(s, mode), r) }
}

pub open spec fn spec_inx(s: CpuV) -> CpuV {
    let r = wrap8(s.x + 1);
    CpuV { x: r, status: spec_update_zn(s.status, r), ..s }
}

pub open spec fn spec_iny(s: CpuV) -> CpuV {
    let r = wrap8(s.y + 1);
    CpuV { y: r, status: spec_update_zn(s.status, r), ..s }
}

pub open spec fn spec_dex(s: CpuV) -> CpuV {
    let r = wrap8(s.x - 1);
    CpuV { x: r, status: spec_update_zn(s.status, r), ..s }
}

pub open spec fn spec_dey(s: CpuV) -> CpuV {
    let r = wrap8(s.y - 1);
    CpuV { y: r, status: spec_update_zn(s.status, r), ..s }
}

// Register transfers; all but the transfer to the stack pointer set Z and N.
pub open spec fn spec_tax(s: CpuV) -> CpuV {
    CpuV { x: s.a, status: spec_update_zn(s.status, s.a), ..s }
}

pub open spec fn spec_tay(s: CpuV) -> CpuV {
    CpuV { y: s.a, status: spec_update_zn(s.status, s.a), ..s }
}

pub open spec fn spec_tsx(s: CpuV) -> CpuV {
    CpuV { x: s.sp, status: spec_update_zn(s.status, s.sp), ..s }
}

pub open spec fn spec_txa(s: CpuV) -> CpuV {
    CpuV { a: s.x, status: spec_update_zn(s.status, s.x), ..s }
}

pub open spec fn spec_txs(s: CpuV) -> CpuV {
    CpuV { sp: s.x, ..s }
}

pub open spec fn spec_tya(s: CpuV) -> CpuV {
    CpuV { a: s.y, status: spec_update_zn(s.status, s.y), ..s }
}

// Stack instructions. The status byte is pushed with bits 4 and 5 set; a
// pulled status byte has those bits discarded.
pub open spec fn spec_pha(
    s: CpuV,
    wr: spec_fn(u16) -> bool,
    al: spec_fn(u16) -> u16,
) -> CpuV {
    spec_push_byte(s, wr, al, s.a)
}

pub open spec fn spec_php(
    s: CpuV,
    wr: spec_fn(u16) -> bool,
    al: spec_fn(u16) -> u16,
) -> CpuV {
    spec_push_byte(s, wr, al, (status_to_byte(s.status) | 0x10) as u8)
}

pub open spec fn spec_pla(s: CpuV) -> CpuV {
    let (s1, v) = spec_pull_byte(s);
    CpuV { a: v, status: spec_update_zn(s1.status, v), ..s1 }
}

pub open spec fn spec_plp(s: CpuV) -> CpuV {
    let (s1, v) = spec_pull_byte(s);
    CpuV { status: byte_to_status(v), ..s1 }
}

/// Jump: the program counter takes the effective address; the indirect form
/// goes through the resolver and so obeys the page-wrap defect.
pub open spec fn spec_jmp(s: CpuV, mode: AddressingMode) -> CpuV {
    CpuV { pc: operand_addr(s, mode), ..s }
}

/// Jump to subroutine: push the address of the last byte of the instruction
/// (the return address minus one), high byte first, then jump.
pub open spec fn spec_jsr(
    s: CpuV,
    mode: AddressingMode,
    wr: spec_fn(u16) -> bool,
    al: spec_fn(u16) -> u16,
    bytes: u8,
) -> CpuV {
    let ret = wrap16(s.pc + bytes - 2);
    let s1 = spec_push_byte(s, wr, al, hi8(ret));
    let s2 = spec_push_byte(s1, wr, al, lo8(ret));
    CpuV { pc: operand_addr(s2, mode), ..s2 }
}

/// Return from subroutine: pull the address, low byte first, and resume one
/// past it.
pub open spec fn spec_rts(s: CpuV) -> CpuV {
    let (s1, lo) = spec_pull_byte(s);
    let (s2, hi) = spec_pull_byte(s1);
    CpuV { pc: wrap16(make16(lo, hi) + 1), ..s2 }
}

/// Return from interrupt: pull the status (bits 4 and 5 discarded), then the
/// program counter, which is not adjusted.
pub open spec fn spec_rti(s: CpuV) -> CpuV {
    let (s1, p) = spec_pull_byte(s);
    let (s2, lo) = spec_pull_byte(s1);
    let (s3, hi) = spec_pull_byte(s2);
    CpuV { status: byte_to_status(p), pc: make16(lo, hi), ..s3 }
}

/// A conditional branch, with the program counter at the displacement byte:
/// when taken, the displacement is added (signed, 16-bit wraparound) to the
/// address of the next instruction; when not taken, the program counter just
/// moves past the instruction.
pub open spec fn spec_branch_step(s: CpuV, cond: bool, info: crate::cpu::opcodes::OpCodeInfo) -> CpuV {
    if cond {
        CpuV {
            pc: wrap16(s.pc + 1 + to_i8(sread(s, s.pc))),
            cycles: wrap64(s.cycles + info.cycles),
            ..s
        }
    } else {
        CpuV {
            pc: wrap16(s.pc + info.bytes - 1),
            cycles: wrap64(s.cycles + info.cycles),
            ..s
        }
    }
}

/// Advance the program counter over the operand bytes and account the base
/// cycles of the instruction.
pub open spec fn bump(s: CpuV, advance: int, cyc: u8) -> CpuV {
    CpuV { pc: wrap16(s.pc + advance), cycles: wrap64(s.cycles + cyc), ..s }
}

/// Effect of one decoded instruction, starting from the state just after the
/// opcode fetch (program counter at the first operand byte). Returns the new
/// state.
pub open spec fn spec_exec(
    s: CpuV,
    i: Instruction,
    wr: spec_fn(u16) -> bool,
    al: spec_fn(u16) -> u16,
) -> CpuV {
    let info = spec_info(i);
    let adv = info.bytes - 1;
    let cyc = info.cycles;
    match i {
        Instruction::ADC(info) => bump(spec_adc(s, info.addressing_mode), adv, cyc),
        Instruction::AND(info) => bump(spec_and(s, info.addressing_mode), adv, cyc),
        Instruction::ASL(info) => bump(spec_asl(s, info.addressing_mode, wr, al), adv, cyc),
        Instruction::BCC(info) => spec_branch_step(s, !s.status.carry_flag, info),
        Instruction::BCS(info) => spec_branch_step(s, s.status.carry_flag, info),
        Instruction::BEQ(info) => spec_branch_step(s, s.status.zero_flag, info),
        Instruction::BIT(info) => bump(spec_bit(s, info.addressing_mode), adv, cyc),
        Instruction::BMI(info) => spec_branch_step(s, s.status.negative_flag, info),
        Instruction::BNE(info) => spec_branch_step(s, !s.status.zero_flag, info),
        Instruction::BPL(info) => spec_branch_step(s, !s.status.negative_flag, info),
        Instruction::BRK(info) => bump(s, 0, cyc),
        Instruction::BVC(info) => spec_branch_step(s, !s.status.overflow_flag, info),
        Instruction::BVS(info) => spec_branch_step(s, s.status.overflow_flag, info),
        Instruction::CLC(info) => bump(
            CpuV { status: ProcessorStatus { carry_flag: false, ..s.status }, ..s },
            adv,
            cyc,
        ),
        Instruction::CLD(info) => bump(
            CpuV { status: ProcessorStatus { decimal: false, ..s.status }, ..s },
            adv,
            cyc,
        ),
        Instruction::CLI(info) => bump(
            CpuV { status: ProcessorStatus { interrupt_disable: false, ..s.status }, ..s },
            adv,
            cyc,
        ),
        Instruction::CLV(info) => bump(
            CpuV { status: ProcessorStatus { overflow_flag: false, ..s.status }, ..s },
            adv,
            cyc,
        ),
        Instruction::CMP(info) => bump(spec_cmp(s, info.addressing_mode), adv, cyc),
        Instruction::CPX(info) => bump(spec_cpx(s, info.addressing_mode), adv, cyc),
        Instruction::CPY(info) => bump(spec_cpy(s, info.addressing_mode), adv, cyc),
        Instruction::DEC(info) => bump(spec_dec(s, info.addressing_mode, wr, al), adv, cyc),
        Instruction::DEX(info) => bump(spec_dex(s), adv, cyc),
        Instruction::DEY(info) => bump(spec_dey(s), adv, cyc),
        Instruction::EOR(info) => bump(spec_eor(s, info.addressing_mode), adv, cyc),
        Instruction::INC(info) => bump(spec_inc(s, info.addressing_mode, wr, al), adv, cyc),
        Instruction::INX(info) => bump(spec_inx(s), adv, cyc),
        Instruction::INY(info) => bump(spec_iny(s), adv, cyc),
        Instruction::JMP(info) => bump(spec_jmp(s, info.addressing_mode), 0, cyc),
        Instruction::JSR(info) => bump(spec_jsr(s, info.addressing_mode, wr, al, info.bytes), 0, cyc),
        Instruction::LDA(info) => bump(spec_lda(s, info.addressing_mode), adv, cyc),
        Instruction::LDX(info) => bump(spec_ldx(s, info.addressing_mode), adv, cyc),
        Instruction::LDY(info) => bump(spec_ldy(s, info.addressing_mode), adv, cyc),
        Instruction::LSR(info) => bump(spec_lsr(s, info.addressing_mode, wr, al), adv, cyc),
        Instruction::NOP(info) => bump(s, adv, cyc),
        Instruction::ORA(info) => bump(spec_ora(s, info.addressing_mode), adv, cyc),
        Instruction::PHA(info) => bump(spec_pha(s, wr, al), adv, cyc),
        Instruction::PHP(info) => bump(spec_php(s, wr, al), adv, cyc),
        Instruction::PLA(info) => bump(spec_pla(s), adv, cyc),
        Instruction::PLP(info) => bump(spec_plp(s), adv, cyc),
        Instruction::ROL(info) => bump(spec_rol(s, info.addressing_mode, wr, al), adv, cyc),
        Instruction::ROR(info) => bump(spec_ror(s, info.addressing_mode, wr, al), adv, cyc),
        Instruction::RTI(info) => bump(spec_rti(s), 0, cyc),
        Instruction::RTS(info) => bump(spec_rts(s), 0, cyc),
        Instruction::SBC(info) => bump(spec_sbc(s, info.addressing_mode), adv, cyc),
        Instruction::SEC(info) => bump(
            CpuV { status: ProcessorStatus { carry_flag: true, ..s.status }, ..s },
            adv,
            cyc,
        ),
        Instruction::SED(info) => bump(
            CpuV { status: ProcessorStatus { decimal: true, ..s.status }, ..s },
            adv,
            cyc,
        ),
        Instruction::SEI(info) => bump(
            CpuV { status: ProcessorStatus { interrupt_disable: true, ..s.status }, ..s },
            adv,
            cyc,
        ),
        Instruction::STA(info) => bump(spec_sta(s, info.addressing_mode, wr, al), adv, cyc),
        Instruction::STX(info) => bump(spec_stx(s, info.addressing_mode, wr, al), adv, cyc),
        Instruction::STY(info) => bump(spec_sty(s, info.addressing_mode, wr, al), adv, cyc),
        Instruction::TAX(info) => bump(spec_tax(s), adv, cyc),
        Instruction::TAY(info) => bump(spec_tay(s), adv, cyc),
        Instruction::TSX(info) => bump(spec_tsx(s), adv, cyc),
        Instruction::TXA(info) => bump(spec_txa(s), adv, cyc),
        Instruction::TXS(info) => bump(spec_txs(s), adv, cyc),
        Instruction::TYA(info) => bump(spec_tya(s), adv, cyc),
    }
}

/// One whole execution step: fetch the opcode, advance past it, decode, and
/// run the instruction. `None` when the fetched byte is not an official
/// opcode, in which case the machine is untouched.
pub open spec fn spec_step(
    s: CpuV,
    wr: spec_fn(u16) -> bool,
    al: spec_fn(u16) -> u16,
) -> Option<(CpuV, bool)> {
    match spec_decode(sread(s, s.pc)) {
        None => None,
        Some(i) => Some(
            (spec_exec(CpuV { pc: wrap16(s.pc + 1), ..s }, i, wr, al), i is BRK),
        ),
    }
}

/// The last executed instruction was a break: the byte just behind the
/// program counter decodes to one.
pub open spec fn halted_on_brk(s: CpuV) -> bool {
    spec_decode(sread(s, wrap16(s.pc - 1))) matches Some(Instruction::BRK(_))
}

/// The only instruction that halts a step is the break instruction, and it
/// leaves the opcode just behind the program counter.
#[verifier::rlimit(100)]
pub proof fn lemma_halt_is_brk(
    s: CpuV,
    wr: spec_fn(u16) -> bool,
    al: spec_fn(u16) -> u16,
    s2: CpuV,
)
    requires
        spec_step(s, wr, al) == Some((s2, true)),
    ensures
        halted_on_brk(s2),
{
    assert(wrap16(wrap16(s.pc + 1) - 1) == s.pc);
    match spec_decode(sread(s, s.pc)) {
        Some(i) => {
            match i {
                Instruction::BRK(info) => {
                    assert(s2 == bump(CpuV { pc: wrap16(s.pc + 1), ..s }, 0, info.cycles));
                },
                _ => {
                    assert(false);
                },
            }
        },
        None => {
            assert(false);
        },
    }
}


/// A whole bounded run of the machine: one `spec_step` per unit of fuel,
/// stopping with `Ok` on a break step, with the unknown-opcode error (and
/// the machine untouched) where decoding fails, and with the step-limit
/// error only when the fuel is gone.
pub open spec fn spec_run(
    s: CpuV,
    wr: spec_fn(u16) -> bool,
    al: spec_fn(u16) -> u16,
    fuel: nat,
) -> (CpuV, Result<(), CpuError>)
    decreases fuel,
{
    if fuel == 0 {
        (s, Err(CpuError::StepLimitReached))
    } else {
        match spec_step(s, wr, al) {
            None => (s, Err(CpuError::UnknownOpcode(sread(s, s.pc)))),
            Some((s2, halt)) => if halt {
                (s2, Ok(()))
            } else {
                spec_run(s2, wr, al, (fuel - 1) as nat)
            },
        }
    }
}

/// A run that ends well ends on a break instruction, and one that ends on
/// an unknown opcode stands at the offending byte.
pub proof fn lemma_run_outcomes(
    s: CpuV,
    wr: spec_fn(u16) -> bool,
    al: spec_fn(u16) -> u16,
    fuel: nat,
)
    ensures
        ({
            let (sf, rr) = spec_run(s, wr, al, fuel);
            &&& (rr is Ok ==> halted_on_brk(sf))
            &&& (rr matches Err(CpuError::UnknownOpcode(b)) ==> spec_decode(b) is None && b
                == sread(sf, sf.pc))
        }),
    decreases fuel,
{
    if fuel > 0 {
        match spec_step(s, wr, al) {
            None => {},
            Some((s2, halt)) => {
                if halt {
                    lemma_halt_is_brk(s, wr, al, s2);
                } else {
                    lemma_run_outcomes(s2, wr, al, (fuel - 1) as nat);
                }
            },
        }
    }
}

/// Memory after the first `n` program bytes are stored at 0x0600 onward.
pub open spec fn spec_load_bytes(
    mem: Seq<u8>,
    wr: spec_fn(u16) -> bool,
    al: spec_fn(u16) -> u16,
    program: Seq<u8>,
    n: int,
) -> Seq<u8>
    decreases n,
{
    if n <= 0 {
        mem
    } else {
        spec_mem_write(
            spec_load_bytes(mem, wr, al, program, n - 1),
            wr,
            al,
            (0x600 + n - 1) as u16,
            program[n - 1],
        )
    }
}

/// Memory after a whole program load: the program bytes at 0x0600 onward,
/// then the reset vector pointed at 0x0600 (the vector store comes last and
/// wins where a long program reaches it).
pub open spec fn spec_load(
    mem: Seq<u8>,
    wr: spec_fn(u16) -> bool,
    al: spec_fn(u16) -> u16,
    program: Seq<u8>,
) -> Seq<u8> {
    spec_mem_write(
        spec_mem_write(
            spec_load_bytes(mem, wr, al, program, program.len() as int),
            wr,
            al,
            0xFFFC,
            lo8(0x0600),
        ),
        wr,
        al,
        wrap16(0xFFFC as int + 1),
        hi8(0x0600),
    )
}

/// Push a whole sequence of bytes, first element first.
pub open spec fn spec_push_seq(
    s: CpuV,
    wr: spec_fn(u16) -> bool,
    al: spec_fn(u16) -> u16,
    vs: Seq<u8>,
) -> CpuV
    decreases vs.len(),
{
    if vs.len() == 0 {
        s
    } else {
        spec_push_seq(spec_push_byte(s, wr, al, vs[0]), wr, al, vs.skip(1))
    }
}

/// Pull `n` bytes; the first byte pulled comes first in the result.
pub open spec fn spec_pull_seq(s: CpuV, n: nat) -> (CpuV, Seq<u8>)
    decreases n,
{
    if n == 0 {
        (s, Seq::empty())
    } else {
        let (s1, v) = spec_pull_byte(s);
        let (s2, rest) = spec_pull_seq(s1, (n - 1) as nat);
        (s2, seq![v] + rest)
    }
}

/// Page 1 behaves as plain storage under the given device: every stack cell
/// takes stores, and no two distinct stack cells are mirrors of each other.
/// Both the flat memory and the bus are such devices.
pub open spec fn stack_page_plain(wr: spec_fn(u16) -> bool, al: spec_fn(u16) -> u16) -> bool {
    &&& forall|a: u16| 0x100 <= a < 0x200 ==> #[trigger] wr(a)
    &&& forall|a: u16, b: u16|
        #![trigger al(a), al(b)]
        0x100 <= a < 0x200 && 0x100 <= b < 0x200 && al(a) == al(b) ==> a == b
}

/// The stack cell taken by the k-th push of a run starting at `sp`.
pub open spec fn pushed_cell(sp: u8, k: int) -> u16 {
    stack_addr(wrap8(sp - k))
}

/// The stack cell read by the k-th pull of a run starting at `sp`.
pub open spec fn pulled_cell(sp: u8, k: int) -> u16 {
    stack_addr(wrap8(sp + k + 1))
}

proof fn lemma_wrap8_add(x: int, y: int)
    ensures
        wrap8(wrap8(x) + y) == wrap8(x + y),
{
    let q = x / 0x100;
    vstd::arithmetic::div_mod::lemma_fundamental_div_mod(x, 0x100);
    vstd::arithmetic::div_mod::lemma_mod_multiples_vanish(-q, wrap8(x) + y, 0x100);
}

proof fn lemma_wrap8_distinct(sp: u8, j: int)
    requires
        1 <= j < 0x100,
    ensures
        wrap8(sp - j) != sp,
{
    if sp - j >= 0 {
        assert(wrap8(sp - j) == sp - j);
    } else {
        assert(wrap8(sp - j) == sp - j + 0x100);
    }
}

/// What a run of pushes does to page 1: the stack pointer steps down once
/// per byte, the cells walked over take the bytes in order, and every other
/// stack cell keeps its value.
proof fn lemma_push_seq_spec(
    s: CpuV,
    wr: spec_fn(u16) -> bool,
    al: spec_fn(u16) -> u16,
    vs: Seq<u8>,
)
    requires
        stack_page_plain(wr, al),
        vs.len() <= 0x100,
        s.mem.len() == 0x10000,
    ensures
        ({
            let sp_ = spec_push_seq(s, wr, al, vs);
            &&& sp_.sp == wrap8(s.sp - vs.len())
            &&& sp_.pc == s.pc
            &&& sp_.a == s.a
            &&& sp_.x == s.x
            &&& sp_.y == s.y
            &&& sp_.cycles == s.cycles
            &&& sp_.status == s.status
            &&& sp_.mem.len() == s.mem.len()
            &&& forall|k: int|
                0 <= k < vs.len() ==> sp_.mem[#[trigger] pushed_cell(s.sp, k) as int] == vs[k]
            &&& forall|c: u16|
                0x100 <= c < 0x200 && (forall|k: int|
                    0 <= k < vs.len() ==> c != #[trigger] pushed_cell(s.sp, k))
                    ==> #[trigger] sp_.mem[c as int] == s.mem[c as int]
        }),
    decreases vs.len(),
{
    if vs.len() > 0 {
        let s1 = spec_push_byte(s, wr, al, vs[0]);
        let w = stack_addr(s.sp);
        assert(wr(w));
        assert(forall|c: u16|
            0x100 <= c < 0x200 && c != w ==> #[trigger] s1.mem[c as int] == s.mem[c as int]);
        assert(s1.mem[w as int] == vs[0]);
        assert(s1.sp == wrap8(s.sp - 1));
        lemma_push_seq_spec(s1, wr, al, vs.skip(1));
        let sp_ = spec_push_seq(s1, wr, al, vs.skip(1));
        assert(w == pushed_cell(s.sp, 0));
        assert forall|j: int| 0 <= j < vs.len() - 1 implies #[trigger] pushed_cell(s1.sp, j)
            == pushed_cell(s.sp, j + 1) by {
            lemma_wrap8_add(s.sp - 1, -j);
        }
        assert forall|j: int| 0 <= j < vs.len() - 1 implies w != #[trigger] pushed_cell(
            s1.sp,
            j,
        ) by {
            lemma_wrap8_distinct(s.sp, j + 1);
        }
        assert(sp_.mem[w as int] == s1.mem[w as int]);
        assert(sp_.sp == wrap8(s.sp - vs.len())) by {
            lemma_wrap8_add(s.sp - 1, -(vs.len() - 1));
        }
        assert forall|k: int| 0 <= k < vs.len() implies sp_.mem[#[trigger] pushed_cell(
            s.sp,
            k,
        ) as int] == vs[k] by {
            if k > 0 {
                lemma_wrap8_add(s.sp - 1, -(k - 1));
                assert(pushed_cell(s1.sp, k - 1) == pushed_cell(s.sp, k));
                assert(sp_.mem[pushed_cell(s1.sp, k - 1) as int] == vs.skip(1)[k - 1]);
            }
        }
        assert forall|c: u16|
            0x100 <= c < 0x200 && (forall|k: int|
                0 <= k < vs.len() ==> c != #[trigger] pushed_cell(s.sp, k))
            implies #[trigger] sp_.mem[c as int] == s.mem[c as int] by {
            assert(c != pushed_cell(s.sp, 0));
            assert(c != w);
            assert forall|j: int| 0 <= j < vs.len() - 1 implies c != #[trigger] pushed_cell(
                s1.sp,
                j,
            ) by {
                assert(pushed_cell(s1.sp, j) == pushed_cell(s.sp, j + 1));
                assert(c != pushed_cell(s.sp, j + 1));
            }
        }
    }
}

/// What a run of pulls does: the stack pointer steps up once per byte,
/// memory is untouched, and the bytes come from the cells just above the
/// starting pointer, nearest first.
proof fn lemma_pull_seq_spec(s: CpuV, n: nat)
    ensures
        ({
            let (sf, outs) = spec_pull_seq(s, n);
            &&& sf == (CpuV { sp: wrap8(s.sp + n), ..s })
            &&& outs.len() == n
            &&& forall|k: int|
                0 <= k < n ==> outs[k] == s.mem[#[trigger] pulled_cell(s.sp, k) as int]
        }),
    decreases n,
{
    if n > 0 {
        let (s1, v) = spec_pull_byte(s);
        lemma_pull_seq_spec(s1, (n - 1) as nat);
        let (sf, outs) = spec_pull_seq(s, n);
        assert(sf.sp == wrap8(s.sp + n)) by {
            lemma_wrap8_add(s.sp + 1, n - 1);
        }
        let (sf1, rest) = spec_pull_seq(s1, (n - 1) as nat);
        assert(v == s.mem[pulled_cell(s.sp, 0) as int]);
        assert forall|k: int| 0 <= k < n implies outs[k] == s.mem[#[trigger] pulled_cell(
            s.sp,
            k,
        ) as int] by {
            if k > 0 {
                lemma_wrap8_add(s.sp + 1, k);
                assert(pulled_cell(s1.sp, k - 1) == pulled_cell(s.sp, k));
                assert(outs[k] == rest[k - 1]);
                assert(rest[k - 1] == s1.mem[pulled_cell(s1.sp, k - 1) as int]);
            }
        }
    }
}

/// The stack is last-in-first-out: pushing any sequence of bytes and then
/// pulling as many gives the bytes back newest-first, and the stack pointer
/// returns to its starting value. This holds on any device whose page 1 is
/// plain storage, for any sequence that fits the 256-cell stack.
pub proof fn lemma_stack_lifo(
    s: CpuV,
    wr: spec_fn(u16) -> bool,
    al: spec_fn(u16) -> u16,
    vs: Seq<u8>,
)
    requires
        stack_page_plain(wr, al),
        vs.len() <= 0x100,
        s.mem.len() == 0x10000,
    ensures
        ({
            let (sf, outs) = spec_pull_seq(spec_push_seq(s, wr, al, vs), vs.len());
            &&& outs == vs.reverse()
            &&& sf.sp == s.sp
        }),
{
    lemma_push_seq_spec(s, wr, al, vs);
    let sp_ = spec_push_seq(s, wr, al, vs);
    lemma_pull_seq_spec(sp_, vs.len());
    let (sf, outs) = spec_pull_seq(sp_, vs.len());
    let n = vs.len() as int;
    assert(sf.sp == s.sp) by {
        lemma_wrap8_add(s.sp - n, n);
    }
    assert forall|k: int| 0 <= k < n implies outs[k] == vs.reverse()[k] by {
        lemma_wrap8_add(s.sp - n, k + 1);
        assert(pulled_cell(sp_.sp, k) == pushed_cell(s.sp, n - 1 - k));
        assert(outs[k] == sp_.mem[pulled_cell(sp_.sp, k) as int]);
        assert(sp_.mem[pushed_cell(s.sp, n - 1 - k) as int] == vs[n - 1 - k]);
    }
    assert(outs =~= vs.reverse());
}

} // verus!
