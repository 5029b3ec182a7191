use crate::cpu::addressing_mode::{spec_jmp_indirect_target, to_i8, AddressingMode};
use crate::cpu::mem::{make16, wrap16, wrap8, Memory};
use crate::cpu::opcodes::{spec_decode, spec_info, spec_mnemonic, Instruction};
use crate::cpu::state::{sread, CpuV};
use crate::cpu::status::status_to_byte;
use crate::cpu::CPU;
use vstd::prelude::*;

verus! {

/// The upper-case hexadecimal digit for a value below 16.
pub open spec fn hex_digit(n: u8) -> char {
    match n {
        0u8 => '0',
        1u8 => '1',
        2u8 => '2',
        3u8 => '3',
        4u8 => '4',
        5u8 => '5',
        6u8 => '6',
        7u8 => '7',
        8u8 => '8',
        9u8 => '9',
        10u8 => 'A',
        11u8 => 'B',
        12u8 => 'C',
        13u8 => 'D',
        14u8 => 'E',
        15u8 => 'F',
        _ => '0',
    }
}

/// A byte as two hexadecimal digits.
pub open spec fn hex2(b: u8) -> Seq<char> {
    seq![hex_digit(b / 16), hex_digit(b % 16)]
}

/// A 16-bit word as four hexadecimal digits.
pub open spec fn hex4(w: u16) -> Seq<char> {
    hex2((w / 0x100) as u8) + hex2((w % 0x100) as u8)
}

pub open spec fn spaces(n: int) -> Seq<char> {
    Seq::new(n as nat, |i: int| ' ')
}

/// A field padded with spaces on the right up to the given width.
pub open spec fn pad_to(s: Seq<char>, w: int) -> Seq<char> {
    if s.len() >= w {
        s
    } else {
        s + spaces(w - s.len())
    }
}

/// Flattening helpers for text built by successive appends.
proof fn lemma_chain2(p: Seq<char>, c1: Seq<char>, c2: Seq<char>)
    ensures
        ((p + c1) + c2) == p + (c1 + c2),
{
    vstd::seq_lib::lemma_concat_associative(p, c1, c2);
}

proof fn lemma_chain3(p: Seq<char>, c1: Seq<char>, c2: Seq<char>, c3: Seq<char>)
    ensures
        (((p + c1) + c2) + c3) == p + ((c1 + c2) + c3),
{
    lemma_chain2(p, c1, c2);
    vstd::seq_lib::lemma_concat_associative(p, (c1 + c2), c3);
}

proof fn lemma_chain4(p: Seq<char>, c1: Seq<char>, c2: Seq<char>, c3: Seq<char>, c4: Seq<char>)
    ensures
        ((((p + c1) + c2) + c3) + c4) == p + (((c1 + c2) + c3) + c4),
{
    lemma_chain3(p, c1, c2, c3);
    vstd::seq_lib::lemma_concat_associative(p, ((c1 + c2) + c3), c4);
}

proof fn lemma_chain5(p: Seq<char>, c1: Seq<char>, c2: Seq<char>, c3: Seq<char>, c4: Seq<char>, c5: Seq<char>)
    ensures
        (((((p + c1) + c2) + c3) + c4) + c5) == p + ((((c1 + c2) + c3) + c4) + c5),
{
    lemma_chain4(p, c1, c2, c3, c4);
    vstd::seq_lib::lemma_concat_associative(p, (((c1 + c2) + c3) + c4), c5);
}

proof fn lemma_chain6(p: Seq<char>, c1: Seq<char>, c2: Seq<char>, c3: Seq<char>, c4: Seq<char>, c5: Seq<char>, c6: Seq<char>)
    ensures
        ((((((p + c1) + c2) + c3) + c4) + c5) + c6) == p + (((((c1 + c2) + c3) + c4) + c5) + c6),
{
    lemma_chain5(p, c1, c2, c3, c4, c5);
    vstd::seq_lib::lemma_concat_associative(p, ((((c1 + c2) + c3) + c4) + c5), c6);
}

proof fn lemma_chain7(p: Seq<char>, c1: Seq<char>, c2: Seq<char>, c3: Seq<char>, c4: Seq<char>, c5: Seq<char>, c6: Seq<char>, c7: Seq<char>)
    ensures
        (((((((p + c1) + c2) + c3) + c4) + c5) + c6) + c7) == p + ((((((c1 + c2) + c3) + c4) + c5) + c6) + c7),
{
    lemma_chain6(p, c1, c2, c3, c4, c5, c6);
    vstd::seq_lib::lemma_concat_associative(p, (((((c1 + c2) + c3) + c4) + c5) + c6), c7);
}

proof fn lemma_chain8(p: Seq<char>, c1: Seq<char>, c2: Seq<char>, c3: Seq<char>, c4: Seq<char>, c5: Seq<char>, c6: Seq<char>, c7: Seq<char>, c8: Seq<char>)
    ensures
        ((((((((p + c1) + c2) + c3) + c4) + c5) + c6) + c7) + c8) == p + (((((((c1 + c2) + c3) + c4) + c5) + c6) + c7) + c8),
{
    lemma_chain7(p, c1, c2, c3, c4, c5, c6, c7);
    vstd::seq_lib::lemma_concat_associative(p, ((((((c1 + c2) + c3) + c4) + c5) + c6) + c7), c8);
}

proof fn lemma_chain9(p: Seq<char>, c1: Seq<char>, c2: Seq<char>, c3: Seq<char>, c4: Seq<char>, c5: Seq<char>, c6: Seq<char>, c7: Seq<char>, c8: Seq<char>, c9: Seq<char>)
    ensures
        (((((((((p + c1) + c2) + c3) + c4) + c5) + c6) + c7) + c8) + c9) == p + ((((((((c1 + c2) + c3) + c4) + c5) + c6) + c7) + c8) + c9),
{
    lemma_chain8(p, c1, c2, c3, c4, c5, c6, c7, c8);
    vstd::seq_lib::lemma_concat_associative(p, (((((((c1 + c2) + c3) + c4) + c5) + c6) + c7) + c8), c9);
}

proof fn lemma_chain10(p: Seq<char>, c1: Seq<char>, c2: Seq<char>, c3: Seq<char>, c4: Seq<char>, c5: Seq<char>, c6: Seq<char>, c7: Seq<char>, c8: Seq<char>, c9: Seq<char>, c10: Seq<char>)
    ensures
        ((((((((((p + c1) + c2) + c3) + c4) + c5) + c6) + c7) + c8) + c9) + c10) == p + (((((((((c1 + c2) + c3) + c4) + c5) + c6) + c7) + c8) + c9) + c10),
{
    lemma_chain9(p, c1, c2, c3, c4, c5, c6, c7, c8, c9);
    vstd::seq_lib::lemma_concat_associative(p, ((((((((c1 + c2) + c3) + c4) + c5) + c6) + c7) + c8) + c9), c10);
}

/// The operand column of a disassembled instruction, rendered per addressing
/// mode, with the effective address and the byte found there spelled out for
/// the memory-addressing modes. The program counter of `s` is at the opcode;
/// operand bytes follow it.
#[verifier::opaque]
pub open spec fn spec_operand_text(s: CpuV, i: Instruction) -> Seq<char> {
    let b1 = sread(s, wrap16(s.pc + 1));
    let b2 = sread(s, wrap16(s.pc + 2));
    match spec_info(i).addressing_mode {
        AddressingMode::Implicit => Seq::empty(),
        AddressingMode::Accumulator => "A"@,
        AddressingMode::Immediate => "#$"@ + hex2(b1),
        AddressingMode::Relative => "$"@ + hex4(wrap16(s.pc + 2 + to_i8(b1))),
        AddressingMode::ZeroPage => "$"@ + hex2(b1) + " = "@ + hex2(sread(s, b1 as u16)),
        AddressingMode::ZeroPage_X => {
            let ea = wrap8(b1 + s.x);
            "$"@ + hex2(b1) + ",X @ "@ + hex2(ea) + " = "@ + hex2(sread(s, ea as u16))
        },
        AddressingMode::ZeroPage_Y => {
            let ea = wrap8(b1 + s.y);
            "$"@ + hex2(b1) + ",Y @ "@ + hex2(ea) + " = "@ + hex2(sread(s, ea as u16))
        },
        AddressingMode::Absolute => {
            let ea = make16(b1, b2);
            if i is JMP || i is JSR {
                "$"@ + hex4(ea)
            } else {
                "$"@ + hex4(ea) + " = "@ + hex2(sread(s, ea))
            }
        },
        AddressingMode::Absolute_X => {
            let base = make16(b1, b2);
            let ea = wrap16(base + s.x);
            "$"@ + hex4(base) + ",X @ "@ + hex4(ea) + " = "@ + hex2(sread(s, ea))
        },
        AddressingMode::Absolute_Y => {
            let base = make16(b1, b2);
            let ea = wrap16(base + s.y);
            "$"@ + hex4(base) + ",Y @ "@ + hex4(ea) + " = "@ + hex2(sread(s, ea))
        },
        AddressingMode::Indirect => {
            let ptr = make16(b1, b2);
            "($"@ + hex4(ptr) + ") = "@ + hex4(spec_jmp_indirect_target(s.mem, ptr))
        },
        AddressingMode::Indirect_X => {
            let p = wrap8(b1 + s.x);
            let ea = make16(sread(s, p as u16), sread(s, wrap8(p + 1) as u16));
            "($"@ + hex2(b1) + ",X) @ "@ + hex2(p) + " = "@ + hex4(ea) + " = "@ + hex2(
                sread(s, ea),
            )
        },
        AddressingMode::Indirect_Y => {
            let base = make16(sread(s, b1 as u16), sread(s, wrap8(b1 + 1) as u16));
            let ea = wrap16(base + s.y);
            "($"@ + hex2(b1) + "),Y = "@ + hex4(base) + " @ "@ + hex4(ea) + " = "@ + hex2(
                sread(s, ea),
            )
        },
    }
}

/// The instruction-byte dump of the line: opcode and operand bytes.
#[verifier::opaque]
pub open spec fn spec_byte_dump(s: CpuV, bytes: u8) -> Seq<char> {
    let op = sread(s, s.pc);
    let b1 = sread(s, wrap16(s.pc + 1));
    let b2 = sread(s, wrap16(s.pc + 2));
    if bytes <= 1 {
        hex2(op)
    } else if bytes == 2 {
        hex2(op) + " "@ + hex2(b1)
    } else {
        hex2(op) + " "@ + hex2(b1) + " "@ + hex2(b2)
    }
}

/// The assembly column: mnemonic, and the operand text when there is one.
#[verifier::opaque]
pub open spec fn spec_asm_text(s: CpuV, i: Instruction) -> Seq<char> {
    let operand = spec_operand_text(s, i);
    if operand.len() == 0 {
        spec_mnemonic(i)
    } else {
        spec_mnemonic(i) + " "@ + operand
    }
}

/// The register columns at the end of a trace line.
pub open spec fn spec_reg_tail(s: CpuV) -> Seq<char> {
    "A:"@ + hex2(s.a) + " X:"@ + hex2(s.x) + " Y:"@ + hex2(s.y) + " P:"@ + hex2(
        status_to_byte(s.status),
    ) + " SP:"@ + hex2(s.sp)
}

/// The instruction-byte column; a byte that is no official opcode stands
/// alone.
pub open spec fn spec_dump_col(s: CpuV) -> Seq<char> {
    match spec_decode(sread(s, s.pc)) {
        None => hex2(sread(s, s.pc)),
        Some(i) => spec_byte_dump(s, spec_info(i).bytes),
    }
}

/// The disassembly column; a byte that is no official opcode is shown with
/// an unknown mnemonic.
pub open spec fn spec_asm_col(s: CpuV) -> Seq<char> {
    match spec_decode(sread(s, s.pc)) {
        None => "???"@,
        Some(i) => spec_asm_text(s, i),
    }
}

/// One line of execution trace: the program counter, the instruction bytes,
/// the disassembly, and the registers, each in its fixed column.
pub open spec fn spec_trace(s: CpuV) -> Seq<char> {
    hex4(s.pc) + "  "@ + pad_to(spec_dump_col(s), 8) + "  "@ + pad_to(spec_asm_col(s), 32)
        + spec_reg_tail(s)
}

/// One hexadecimal digit as a string slice.
fn hex_digit_str(n: u8) -> (r: &'static str)
    requires
        n < 16,
    ensures
        r@ == seq![hex_digit(n)],
{
    proof {
        reveal_strlit("0");
        reveal_strlit("1");
        reveal_strlit("2");
        reveal_strlit("3");
        reveal_strlit("4");
        reveal_strlit("5");
        reveal_strlit("6");
        reveal_strlit("7");
        reveal_strlit("8");
        reveal_strlit("9");
        reveal_strlit("A");
        reveal_strlit("B");
        reveal_strlit("C");
        reveal_strlit("D");
        reveal_strlit("E");
        reveal_strlit("F");
    }
    match n {
        0u8 => "0",
        1u8 => "1",
        2u8 => "2",
        3u8 => "3",
        4u8 => "4",
        5u8 => "5",
        6u8 => "6",
        7u8 => "7",
        8u8 => "8",
        9u8 => "9",
        10u8 => "A",
        11u8 => "B",
        12u8 => "C",
        13u8 => "D",
        14u8 => "E",
        _ => "F",
    }
}

/// Append a byte as two hexadecimal digits.
fn push_hex2(out: &mut String, b: u8)
    ensures
        final(out)@ == old(out)@ + hex2(b),
{
    out.append(hex_digit_str(b / 16));
    out.append(hex_digit_str(b % 16));
    proof {
        assert(out@ =~= old(out)@ + hex2(b));
    }
}

/// Append a 16-bit word as four hexadecimal digits.
fn push_hex4(out: &mut String, w: u16)
    ensures
        final(out)@ == old(out)@ + hex4(w),
{
    push_hex2(out, (w / 0x100) as u8);
    push_hex2(out, (w % 0x100) as u8);
    proof {
        assert(out@ =~= old(out)@ + hex4(w));
    }
}

/// Pad a field with spaces on the right up to the given width.
fn pad_field(out: &mut String, w: usize)
    ensures
        final(out)@ == pad_to(old(out)@, w as int),
{
    let cur = out.as_str().unicode_len();
    if cur >= w {
        return;
    }
    let mut k: usize = w - cur;
    let ghost need = k as int;
    while k != 0
        invariant
            0 <= k <= need,
            out@ == old(out)@ + spaces(need - k),
            need == w - old(out)@.len(),
        decreases k,
    {
        let ghost done = need - k;
        out.append(" ");
        k = k - 1;
        proof {
            reveal_strlit(" ");
            assert(out@ =~= old(out)@ + spaces(done + 1));
        }
    }
    proof {
        assert(out@ =~= pad_to(old(out)@, w as int));
    }
}

/// Render one line of execution trace for the processor as it stands, with
/// the program counter at the next opcode.
#[verifier::rlimit(100)]
#[verifier::spinoff_prover]
pub fn trace<M: Memory>(cpu: &CPU<M>) -> (r: String)
    ensures
        r@ == spec_trace(cpu@),
{
    let pc = cpu.program_counter;
    let op = cpu.memory.mem_read(pc);
    let b1 = cpu.memory.mem_read(pc.wrapping_add(1));
    let b2 = cpu.memory.mem_read(pc.wrapping_add(2));
    let decoded = Instruction::from_opcode(op);
    let mut line = String::new();
    let ghost line0 = line@;
    push_hex4(&mut line, pc);
    proof {
        Seq::add_empty_left(line0, hex4(pc));
    }
    line.append("  ");
    let dump = render_dump_col(cpu, op, b1, b2, decoded);
    line.append(dump.as_str());
    line.append("  ");
    let disp = render_asm_col(cpu, b1, b2, decoded);
    line.append(disp.as_str());
    push_reg_tail(&mut line, cpu);
    line
}

/// Render the instruction-byte column, padded to its width.
#[verifier::rlimit(100)]
#[verifier::spinoff_prover]
fn render_dump_col<M: Memory>(
    cpu: &CPU<M>,
    op: u8,
    b1: u8,
    b2: u8,
    decoded: Result<Instruction, crate::cpu::CpuError>,
) -> (r: String)
    requires
        op == sread(cpu@, cpu@.pc),
        b1 == sread(cpu@, wrap16(cpu@.pc + 1)),
        b2 == sread(cpu@, wrap16(cpu@.pc + 2)),
        match decoded {
            Ok(i) => spec_decode(op) == Some(i),
            Err(_) => spec_decode(op) is None,
        },
    ensures
        r@ == pad_to(spec_dump_col(cpu@), 8),
{
    proof {
        reveal(spec_byte_dump);
    }
    let mut dump = String::new();
    let ghost dump0 = dump@;
    push_hex2(&mut dump, op);
    proof {
        Seq::add_empty_left(dump0, hex2(op));
    }
    if let Ok(i) = decoded {
        let bytes = i.to_opcode_info().bytes;
        if bytes == 2 {
            dump.append(" ");
            push_hex2(&mut dump, b1);
        } else if bytes >= 3 {
            dump.append(" ");
            push_hex2(&mut dump, b1);
            dump.append(" ");
            push_hex2(&mut dump, b2);
        }
        proof {
            assert(dump@ == spec_byte_dump(cpu@, spec_info(i).bytes));
        }
    }
    pad_field(&mut dump, 8);
    dump
}

/// Render the disassembly column, padded to its width.
#[verifier::rlimit(100)]
#[verifier::spinoff_prover]
fn render_asm_col<M: Memory>(
    cpu: &CPU<M>,
    b1: u8,
    b2: u8,
    decoded: Result<Instruction, crate::cpu::CpuError>,
) -> (r: String)
    requires
        b1 == sread(cpu@, wrap16(cpu@.pc + 1)),
        b2 == sread(cpu@, wrap16(cpu@.pc + 2)),
        match decoded {
            Ok(i) => spec_decode(sread(cpu@, cpu@.pc)) == Some(i),
            Err(_) => spec_decode(sread(cpu@, cpu@.pc)) is None,
        },
    ensures
        r@ == pad_to(spec_asm_col(cpu@), 32),
{
    proof {
        reveal(spec_asm_text);
    }
    let mut disp = String::new();
    let ghost disp0 = disp@;
    match decoded {
        Err(_) => {
            disp.append("???");
            proof {
                Seq::add_empty_left(disp0, "???"@);
            }
        },
        Ok(i) => {
            disp.append(i.to_opcode_name());
            proof {
                Seq::add_empty_left(disp0, spec_mnemonic(i));
            }
            let mut operand = String::new();
            let ghost operand0 = operand@;
            push_operand_text(&mut operand, cpu, i, b1, b2);
            proof {
                Seq::add_empty_left(operand0, spec_operand_text(cpu@, i));
            }
            if operand.as_str().unicode_len() > 0 {
                disp.append(" ");
                disp.append(operand.as_str());
            }
            proof {
                assert(disp@ == spec_asm_text(cpu@, i));
            }
        },
    }
    pad_field(&mut disp, 32);
    disp
}

/// Append the register columns.
#[verifier::rlimit(100)]
#[verifier::spinoff_prover]
fn push_reg_tail<M: Memory>(out: &mut String, cpu: &CPU<M>)
    ensures
        final(out)@ == old(out)@ + spec_reg_tail(cpu@),
{
    out.append("A:");
    push_hex2(out, cpu.registers.a);
    out.append(" X:");
    push_hex2(out, cpu.registers.x);
    out.append(" Y:");
    push_hex2(out, cpu.registers.y);
    out.append(" P:");
    push_hex2(out, cpu.status.to_byte());
    out.append(" SP:");
    push_hex2(out, cpu.stack_pointer);
    proof {
        lemma_chain10(
            old(out)@,
            "A:"@,
            hex2(cpu@.a),
            " X:"@,
            hex2(cpu@.x),
            " Y:"@,
            hex2(cpu@.y),
            " P:"@,
            hex2(status_to_byte(cpu@.status)),
            " SP:"@,
            hex2(cpu@.sp),
        );
    }
}

/// Append the operand column for one instruction, dispatching on its
/// addressing mode.
fn push_operand_text<M: Memory>(out: &mut String, cpu: &CPU<M>, i: Instruction, b1: u8, b2: u8)
    requires
        b1 == sread(cpu@, wrap16(cpu@.pc + 1)),
        b2 == sread(cpu@, wrap16(cpu@.pc + 2)),
    ensures
        final(out)@ == old(out)@ + spec_operand_text(cpu@, i),
{
    match i.to_opcode_info().addressing_mode {
        AddressingMode::Implicit => push_op_implicit(out, cpu, i, b1, b2),
        AddressingMode::Accumulator => push_op_accumulator(out, cpu, i, b1, b2),
        AddressingMode::Relative => push_op_relative(out, cpu, i, b1, b2),
        AddressingMode::Immediate => push_op_immediate(out, cpu, i, b1, b2),
        AddressingMode::ZeroPage => push_op_zeropage(out, cpu, i, b1, b2),
        AddressingMode::ZeroPage_X => push_op_zeropage_x(out, cpu, i, b1, b2),
        AddressingMode::ZeroPage_Y => push_op_zeropage_y(out, cpu, i, b1, b2),
        AddressingMode::Absolute => push_op_absolute(out, cpu, i, b1, b2),
        AddressingMode::Absolute_X => push_op_absolute_x(out, cpu, i, b1, b2),
        AddressingMode::Absolute_Y => push_op_absolute_y(out, cpu, i, b1, b2),
        AddressingMode::Indirect => push_op_indirect(out, cpu, i, b1, b2),
        AddressingMode::Indirect_X => push_op_indirect_x(out, cpu, i, b1, b2),
        AddressingMode::Indirect_Y => push_op_indirect_y(out, cpu, i, b1, b2),
    }
}

#[verifier::rlimit(100)]
#[verifier::spinoff_prover]
fn push_op_implicit<M: Memory>(out: &mut String, cpu: &CPU<M>, i: Instruction, b1: u8, b2: u8)
    requires
        b1 == sread(cpu@, wrap16(cpu@.pc + 1)),
        b2 == sread(cpu@, wrap16(cpu@.pc + 2)),
        spec_info(i).addressing_mode is Implicit,
    ensures
        final(out)@ == old(out)@ + spec_operand_text(cpu@, i),
{
    proof {
        reveal(spec_operand_text);
    }
    proof {
        Seq::add_empty_right(old(out)@, Seq::<char>::empty());
    }
}

#[verifier::rlimit(100)]
#[verifier::spinoff_prover]
fn push_op_accumulator<M: Memory>(out: &mut String, cpu: &CPU<M>, i: Instruction, b1: u8, b2: u8)
    requires
        b1 == sread(cpu@, wrap16(cpu@.pc + 1)),
        b2 == sread(cpu@, wrap16(cpu@.pc + 2)),
        spec_info(i).addressing_mode is Accumulator,
    ensures
        final(out)@ == old(out)@ + spec_operand_text(cpu@, i),
{
    proof {
        reveal(spec_operand_text);
    }
    out.append("A");
}

#[verifier::rlimit(100)]
#[verifier::spinoff_prover]
fn push_op_relative<M: Memory>(out: &mut String, cpu: &CPU<M>, i: Instruction, b1: u8, b2: u8)
    requires
        b1 == sread(cpu@, wrap16(cpu@.pc + 1)),
        b2 == sread(cpu@, wrap16(cpu@.pc + 2)),
        spec_info(i).addressing_mode is Relative,
    ensures
        final(out)@ == old(out)@ + spec_operand_text(cpu@, i),
{
    proof {
        reveal(spec_operand_text);
    }
    let target = if b1 < 0x80 {
        cpu.program_counter.wrapping_add(2).wrapping_add(b1 as u16)
    } else {
        cpu.program_counter.wrapping_add(2).wrapping_add(b1 as u16).wrapping_sub(0x100)
    };
    out.append("$");
    push_hex4(out, target);
    proof {
        assert(target == wrap16(cpu@.pc + 2 + to_i8(b1)));
        lemma_chain2(old(out)@, "$"@, hex4(target));
    }
}

#[verifier::rlimit(100)]
#[verifier::spinoff_prover]
fn push_op_immediate<M: Memory>(out: &mut String, cpu: &CPU<M>, i: Instruction, b1: u8, b2: u8)
    requires
        b1 == sread(cpu@, wrap16(cpu@.pc + 1)),
        b2 == sread(cpu@, wrap16(cpu@.pc + 2)),
        spec_info(i).addressing_mode is Immediate,
    ensures
        final(out)@ == old(out)@ + spec_operand_text(cpu@, i),
{
    proof {
        reveal(spec_operand_text);
    }
    out.append("#$");
    push_hex2(out, b1);
    proof {
        lemma_chain2(old(out)@, "#$"@, hex2(b1));
    }
}

#[verifier::rlimit(100)]
#[verifier::spinoff_prover]
fn push_op_zeropage<M: Memory>(out: &mut String, cpu: &CPU<M>, i: Instruction, b1: u8, b2: u8)
    requires
        b1 == sread(cpu@, wrap16(cpu@.pc + 1)),
        b2 == sread(cpu@, wrap16(cpu@.pc + 2)),
        spec_info(i).addressing_mode is ZeroPage,
    ensures
        final(out)@ == old(out)@ + spec_operand_text(cpu@, i),
{
    proof {
        reveal(spec_operand_text);
    }
    let v = cpu.memory.mem_read(b1 as u16);
    out.append("$");
    push_hex2(out, b1);
    out.append(" = ");
    push_hex2(out, v);
    proof {
        lemma_chain4(old(out)@, "$"@, hex2(b1), " = "@, hex2(v));
    }
}

#[verifier::rlimit(100)]
#[verifier::spinoff_prover]
fn push_op_zeropage_x<M: Memory>(out: &mut String, cpu: &CPU<M>, i: Instruction, b1: u8, b2: u8)
    requires
        b1 == sread(cpu@, wrap16(cpu@.pc + 1)),
        b2 == sread(cpu@, wrap16(cpu@.pc + 2)),
        spec_info(i).addressing_mode is ZeroPage_X,
    ensures
        final(out)@ == old(out)@ + spec_operand_text(cpu@, i),
{
    proof {
        reveal(spec_operand_text);
    }
    let ea = b1.wrapping_add(cpu.registers.x);
    let v = cpu.memory.mem_read(ea as u16);
    out.append("$");
    push_hex2(out, b1);
    out.append(",X @ ");
    push_hex2(out, ea);
    out.append(" = ");
    push_hex2(out, v);
    proof {
        lemma_chain6(old(out)@, "$"@, hex2(b1), ",X @ "@, hex2(ea), " = "@, hex2(v));
    }
}

#[verifier::rlimit(100)]
#[verifier::spinoff_prover]
fn push_op_zeropage_y<M: Memory>(out: &mut String, cpu: &CPU<M>, i: Instruction, b1: u8, b2: u8)
    requires
        b1 == sread(cpu@, wrap16(cpu@.pc + 1)),
        b2 == sread(cpu@, wrap16(cpu@.pc + 2)),
        spec_info(i).addressing_mode is ZeroPage_Y,
    ensures
        final(out)@ == old(out)@ + spec_operand_text(cpu@, i),
{
    proof {
        reveal(spec_operand_text);
    }
    let ea = b1.wrapping_add(cpu.registers.y);
    let v = cpu.memory.mem_read(ea as u16);
    out.append("$");
    push_hex2(out, b1);
    out.append(",Y @ ");
    push_hex2(out, ea);
    out.append(" = ");
    push_hex2(out, v);
    proof {
        lemma_chain6(old(out)@, "$"@, hex2(b1), ",Y @ "@, hex2(ea), " = "@, hex2(v));
    }
}

#[verifier::rlimit(100)]
#[verifier::spinoff_prover]
fn push_op_absolute<M: Memory>(out: &mut String, cpu: &CPU<M>, i: Instruction, b1: u8, b2: u8)
    requires
        b1 == sread(cpu@, wrap16(cpu@.pc + 1)),
        b2 == sread(cpu@, wrap16(cpu@.pc + 2)),
        spec_info(i).addressing_mode is Absolute,
    ensures
        final(out)@ == old(out)@ + spec_operand_text(cpu@, i),
{
    proof {
        reveal(spec_operand_text);
    }
    let ea = b1 as u16 + 0x100 * b2 as u16;
    let jumps = match i {
        Instruction::JMP(_) => true,
        Instruction::JSR(_) => true,
        _ => false,
    };
    out.append("$");
    push_hex4(out, ea);
    if !jumps {
        let v = cpu.memory.mem_read(ea);
        out.append(" = ");
        push_hex2(out, v);
        proof {
            lemma_chain4(old(out)@, "$"@, hex4(ea), " = "@, hex2(v));
        }
    } else {
        proof {
            lemma_chain2(old(out)@, "$"@, hex4(ea));
        }
    }
}

#[verifier::rlimit(100)]
#[verifier::spinoff_prover]
fn push_op_absolute_x<M: Memory>(out: &mut String, cpu: &CPU<M>, i: Instruction, b1: u8, b2: u8)
    requires
        b1 == sread(cpu@, wrap16(cpu@.pc + 1)),
        b2 == sread(cpu@, wrap16(cpu@.pc + 2)),
        spec_info(i).addressing_mode is Absolute_X,
    ensures
        final(out)@ == old(out)@ + spec_operand_text(cpu@, i),
{
    proof {
        reveal(spec_operand_text);
    }
    let base = b1 as u16 + 0x100 * b2 as u16;
    let ea = base.wrapping_add(cpu.registers.x as u16);
    let v = cpu.memory.mem_read(ea);
    proof {
        assert(base == make16(b1, b2));
        assert(ea == wrap16(make16(b1, b2) + cpu@.x));
    }
    out.append("$");
    push_hex4(out, base);
    out.append(",X @ ");
    push_hex4(out, ea);
    out.append(" = ");
    push_hex2(out, v);
    proof {
        lemma_chain6(old(out)@, "$"@, hex4(base), ",X @ "@, hex4(ea), " = "@, hex2(v));
    }
}

#[verifier::rlimit(100)]
#[verifier::spinoff_prover]
fn push_op_absolute_y<M: Memory>(out: &mut String, cpu: &CPU<M>, i: Instruction, b1: u8, b2: u8)
    requires
        b1 == sread(cpu@, wrap16(cpu@.pc + 1)),
        b2 == sread(cpu@, wrap16(cpu@.pc + 2)),
        spec_info(i).addressing_mode is Absolute_Y,
    ensures
        final(out)@ == old(out)@ + spec_operand_text(cpu@, i),
{
    proof {
        reveal(spec_operand_text);
    }
    let base = b1 as u16 + 0x100 * b2 as u16;
    let ea = base.wrapping_add(cpu.registers.y as u16);
    let v = cpu.memory.mem_read(ea);
    out.append("$");
    push_hex4(out, base);
    out.append(",Y @ ");
    push_hex4(out, ea);
    out.append(" = ");
    push_hex2(out, v);
    proof {
        lemma_chain6(old(out)@, "$"@, hex4(base), ",Y @ "@, hex4(ea), " = "@, hex2(v));
    }
}

#[verifier::rlimit(100)]
#[verifier::spinoff_prover]
fn push_op_indirect<M: Memory>(out: &mut String, cpu: &CPU<M>, i: Instruction, b1: u8, b2: u8)
    requires
        b1 == sread(cpu@, wrap16(cpu@.pc + 1)),
        b2 == sread(cpu@, wrap16(cpu@.pc + 2)),
        spec_info(i).addressing_mode is Indirect,
    ensures
        final(out)@ == old(out)@ + spec_operand_text(cpu@, i),
{
    proof {
        reveal(spec_operand_text);
    }
    let ptr = b1 as u16 + 0x100 * b2 as u16;
    let target = if ptr & 0x00FF == 0x00FF {
        let lo = cpu.memory.mem_read(ptr);
        let hi = cpu.memory.mem_read(ptr & 0xFF00);
        lo as u16 + 0x100 * hi as u16
    } else {
        cpu.memory.mem_read_u16(ptr)
    };
    out.append("($");
    push_hex4(out, ptr);
    out.append(") = ");
    push_hex4(out, target);
    proof {
        assert(target == spec_jmp_indirect_target(cpu@.mem, ptr));
        lemma_chain4(old(out)@, "($"@, hex4(ptr), ") = "@, hex4(target));
    }
}

#[verifier::rlimit(100)]
#[verifier::spinoff_prover]
fn push_op_indirect_x<M: Memory>(out: &mut String, cpu: &CPU<M>, i: Instruction, b1: u8, b2: u8)
    requires
        b1 == sread(cpu@, wrap16(cpu@.pc + 1)),
        b2 == sread(cpu@, wrap16(cpu@.pc + 2)),
        spec_info(i).addressing_mode is Indirect_X,
    ensures
        final(out)@ == old(out)@ + spec_operand_text(cpu@, i),
{
    proof {
        reveal(spec_operand_text);
    }
    let p = b1.wrapping_add(cpu.registers.x);
    let lo = cpu.memory.mem_read(p as u16);
    let hi = cpu.memory.mem_read(p.wrapping_add(1) as u16);
    let ea = lo as u16 + 0x100 * hi as u16;
    let v = cpu.memory.mem_read(ea);
    proof {
        assert(p == wrap8(b1 + cpu@.x));
        assert(ea == make16(sread(cpu@, p as u16), sread(cpu@, wrap8(p + 1) as u16)));
    }
    out.append("($");
    push_hex2(out, b1);
    out.append(",X) @ ");
    push_hex2(out, p);
    out.append(" = ");
    push_hex4(out, ea);
    out.append(" = ");
    push_hex2(out, v);
    proof {
        lemma_chain8(old(out)@, "($"@, hex2(b1), ",X) @ "@, hex2(p), " = "@, hex4(ea), " = "@, hex2(v));
    }
}

#[verifier::rlimit(100)]
#[verifier::spinoff_prover]
fn push_op_indirect_y<M: Memory>(out: &mut String, cpu: &CPU<M>, i: Instruction, b1: u8, b2: u8)
    requires
        b1 == sread(cpu@, wrap16(cpu@.pc + 1)),
        b2 == sread(cpu@, wrap16(cpu@.pc + 2)),
        spec_info(i).addressing_mode is Indirect_Y,
    ensures
        final(out)@ == old(out)@ + spec_operand_text(cpu@, i),
{
    proof {
        reveal(spec_operand_text);
    }
    let lo = cpu.memory.mem_read(b1 as u16);
    let hi = cpu.memory.mem_read(b1.wrapping_add(1) as u16);
    let base = lo as u16 + 0x100 * hi as u16;
    let ea = base.wrapping_add(cpu.registers.y as u16);
    let v = cpu.memory.mem_read(ea);
    proof {
        assert(base == make16(sread(cpu@, b1 as u16), sread(cpu@, wrap8(b1 + 1) as u16)));
        assert(ea == wrap16(base + cpu@.y));
    }
    out.append("($");
    push_hex2(out, b1);
    out.append("),Y = ");
    push_hex4(out, base);
    out.append(" @ ");
    push_hex4(out, ea);
    out.append(" = ");
    push_hex2(out, v);
    proof {
        lemma_chain8(old(out)@, "($"@, hex2(b1), "),Y = "@, hex4(base), " @ "@, hex4(ea), " = "@, hex2(v));
    }
}

} // verus!
