use crate::cpu::mem::{make16, spec_read16, wrap16, wrap8, Memory};
use crate::cpu::state::CpuV;
use crate::cpu::CPU;
use vstd::prelude::*;

verus! {

/// The thirteen addressing modes of the 6502.
#[allow(non_camel_case_types)]
#[derive(Clone, Copy, Debug, PartialEq, Eq, Structural)]
pub enum AddressingMode {
    Implicit,
    Accumulator,
    Relative,
    Immediate,
    ZeroPage,
    ZeroPage_X,
    ZeroPage_Y,
    Absolute,
    Absolute_X,
    Absolute_Y,
    Indirect,
    Indirect_X,
    Indirect_Y,
}

/// What a resolved operand is: an address to read or write, a reference to
/// the accumulator, no operand at all, or a signed branch displacement.
#[derive(Clone, Copy, Debug, PartialEq, Eq, Structural)]
pub enum AddressingResult {
    ReadAddress(u16),
    ImplicitOperation,
    AccumulatorOperation,
    RelativeOffset(i8),
}

/// The modes whose resolution yields an effective address.
pub open spec fn mode_reads(m: AddressingMode) -> bool {
    !(m is Implicit || m is Accumulator || m is Relative)
}

/// Reinterpret a byte as its two's-complement signed value.
pub open spec fn to_i8(v: u8) -> i8 {
    if v < 0x80 {
        v as i8
    } else {
        (v - 0x100) as i8
    }
}

/// Target of an indirect jump through `ptr`, with the hardware page-wrap
/// defect: when the pointer sits at the end of a page, the high byte of the
/// target is fetched from the start of that same page, not from the next one.
pub open spec fn spec_jmp_indirect_target(mem: Seq<u8>, ptr: u16) -> u16 {
    if ptr & 0x00FF == 0x00FF {
        make16(mem[ptr as int], mem[(ptr & 0xFF00) as int])
    } else {
        spec_read16(mem, ptr)
    }
}

/// Operand resolution with the program counter at the first operand byte.
/// Zero-page indexing wraps within the zero page; absolute indexing and
/// indirect-indexed addressing wrap in the full 16-bit space; the indirect
/// mode obeys the page-wrap defect of the jump instruction.
pub open spec fn spec_operand(s: CpuV, mode: AddressingMode) -> AddressingResult {
    match mode {
        AddressingMode::Implicit => AddressingResult::ImplicitOperation,
        AddressingMode::Accumulator => AddressingResult::AccumulatorOperation,
        AddressingMode::Relative => AddressingResult::RelativeOffset(to_i8(s.mem[s.pc as int])),
        AddressingMode::Immediate => AddressingResult::ReadAddress(s.pc),
        AddressingMode::ZeroPage => AddressingResult::ReadAddress(s.mem[s.pc as int] as u16),
        AddressingMode::ZeroPage_X => AddressingResult::ReadAddress(
            wrap8(s.mem[s.pc as int] + s.x) as u16,
        ),
        AddressingMode::ZeroPage_Y => AddressingResult::ReadAddress(
            wrap8(s.mem[s.pc as int] + s.y) as u16,
        ),
        AddressingMode::Absolute => AddressingResult::ReadAddress(spec_read16(s.mem, s.pc)),
        AddressingMode::Absolute_X => AddressingResult::ReadAddress(
            wrap16(spec_read16(s.mem, s.pc) + s.x),
        ),
        AddressingMode::Absolute_Y => AddressingResult::ReadAddress(
            wrap16(spec_read16(s.mem, s.pc) + s.y),
        ),
        AddressingMode::Indirect => AddressingResult::ReadAddress(
            spec_jmp_indirect_target(s.mem, spec_read16(s.mem, s.pc)),
        ),
        AddressingMode::Indirect_X => {
            let p = wrap8(s.mem[s.pc as int] + s.x);
            AddressingResult::ReadAddress(make16(s.mem[p as int], s.mem[wrap8(p + 1) as int]))
        },
        AddressingMode::Indirect_Y => {
            let b = s.mem[s.pc as int];
            AddressingResult::ReadAddress(
                wrap16(make16(s.mem[b as int], s.mem[wrap8(b + 1) as int]) + s.y),
            )
        },
    }
}

impl AddressingMode {
    /// Resolve the operand of the current instruction. The program counter is
    /// not advanced; it must point at the first operand byte.
    #[verifier::rlimit(100)]
    #[verifier::spinoff_prover]
    pub fn get_operand_address<M: Memory>(&self, cpu: &CPU<M>) -> (r: AddressingResult)
        ensures
            r == spec_operand(cpu@, *self),
    {
        match self {
            AddressingMode::Implicit => AddressingResult::ImplicitOperation,
            AddressingMode::Accumulator => AddressingResult::AccumulatorOperation,
            AddressingMode::Relative => {
                let offset = cpu.memory.mem_read(cpu.program_counter);
                let signed = if offset < 0x80 {
                    offset as i8
                } else {
                    ((offset as i16) - 0x100) as i8
                };
                AddressingResult::RelativeOffset(signed)
            },
            AddressingMode::Immediate => AddressingResult::ReadAddress(cpu.program_counter),
            AddressingMode::ZeroPage => {
                AddressingResult::ReadAddress(cpu.memory.mem_read(cpu.program_counter) as u16)
            },
            AddressingMode::ZeroPage_X => {
                let pos = cpu.memory.mem_read(cpu.program_counter);
                AddressingResult::ReadAddress(pos.wrapping_add(cpu.registers.x) as u16)
            },
            AddressingMode::ZeroPage_Y => {
                let pos = cpu.memory.mem_read(cpu.program_counter);
                AddressingResult::ReadAddress(pos.wrapping_add(cpu.registers.y) as u16)
            },
            AddressingMode::Absolute => {
                AddressingResult::ReadAddress(cpu.memory.mem_read_u16(cpu.program_counter))
            },
            AddressingMode::Absolute_X => {
                let base = cpu.memory.mem_read_u16(cpu.program_counter);
                AddressingResult::ReadAddress(base.wrapping_add(cpu.registers.x as u16))
            },
            AddressingMode::Absolute_Y => {
                let base = cpu.memory.mem_read_u16(cpu.program_counter);
                AddressingResult::ReadAddress(base.wrapping_add(cpu.registers.y as u16))
            },
            AddressingMode::Indirect => {
                let ptr = cpu.memory.mem_read_u16(cpu.program_counter);
                let target = if ptr & 0x00FF == 0x00FF {
                    let lo = cpu.memory.mem_read(ptr);
                    let hi = cpu.memory.mem_read(ptr & 0xFF00);
                    lo as u16 + 0x100 * hi as u16
                } else {
                    cpu.memory.mem_read_u16(ptr)
                };
                AddressingResult::ReadAddress(target)
            },
            AddressingMode::Indirect_X => {
                let base = cpu.memory.mem_read(cpu.program_counter);
                let p = base.wrapping_add(cpu.registers.x);
                let lo = cpu.memory.mem_read(p as u16);
                let hi = cpu.memory.mem_read(p.wrapping_add(1) as u16);
                AddressingResult::ReadAddress(lo as u16 + 0x100 * hi as u16)
            },
            AddressingMode::Indirect_Y => {
                let base = cpu.memory.mem_read(cpu.program_counter);
                let lo = cpu.memory.mem_read(base as u16);
                let hi = cpu.memory.mem_read(base.wrapping_add(1) as u16);
                let deref_base = lo as u16 + 0x100 * hi as u16;
                AddressingResult::ReadAddress(deref_base.wrapping_add(cpu.registers.y as u16))
            },
        }
    }
}

impl AddressingResult {
    /// The effective address of a resolution that yielded one.
    pub fn unwrap_read_address(self) -> (r: u16)
        requires
            self is ReadAddress,
        ensures
            self == AddressingResult::ReadAddress(r),
    {
        match self {
            AddressingResult::ReadAddress(val) => val,
            _ => unreached(),
        }
    }

    /// The branch displacement of a resolution that yielded one.
    pub fn unwrap_relative_offset(self) -> (r: i8)
        requires
            self is RelativeOffset,
        ensures
            self == AddressingResult::RelativeOffset(r),
    {
        match self {
            AddressingResult::RelativeOffset(val) => val,
            _ => unreached(),
        }
    }
}

/// Zero-page indexed addressing wraps around the zero page: for every operand
/// byte and index register value, the effective address is their sum taken
/// modulo 256.
pub proof fn lemma_zero_page_x_wraparound(s: CpuV, base: u8, x: u8)
    requires
        s.mem[s.pc as int] == base,
        s.x == x,
    ensures
        spec_operand(s, AddressingMode::ZeroPage_X) == AddressingResult::ReadAddress(
            (((base + x) % 0x100) as u16),
        ),
{
}

/// The indirect-jump page-wrap defect: for every pointer whose low byte is
/// 0xFF, the jump target is assembled from the byte at the pointer and the
/// byte at the start of the pointer's own page.
pub proof fn lemma_jmp_indirect_page_wrap(mem: Seq<u8>, ptr: u16)
    requires
        ptr & 0x00FF == 0x00FF,
    ensures
        spec_jmp_indirect_target(mem, ptr) == make16(mem[ptr as int], mem[(ptr & 0xFF00) as int]),
{
}

} // verus!
