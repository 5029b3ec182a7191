pub mod addressing_mode;
pub mod bus;
pub mod mem;
pub mod opcodes;
pub mod registers;
pub mod state;
pub mod status;
pub mod trace;

use crate::cpu::addressing_mode::{mode_reads, AddressingMode, AddressingResult};
use crate::cpu::bus::{bus_layout, zero_ram, Bus};
use crate::cpu::mem::{
    al_of, all_zeros, lemma_wr_al_stable, lo8, hi8, spec_mem_write, spec_read16, stack_addr,
    wr_of, wrap16, FlatMem, Memory, Stack, STACK, STACK_RESET,
};
use crate::cpu::opcodes::{instr_wf, spec_decode, Instruction, OpCodeInfo};
use crate::cpu::registers::Registers;
use crate::cpu::state::{
    bump, halted_on_brk, lemma_run_outcomes, spec_adc, spec_and, spec_asl,
    spec_bit,
    spec_branch_step, spec_cmp, spec_cpx, spec_cpy, spec_dec, spec_dex, spec_dey, spec_eor,
    spec_exec, spec_inc, spec_inx, spec_iny, spec_jmp, spec_jsr, spec_lda, spec_ldx, spec_ldy,
    spec_lsr, spec_ora, spec_pha, spec_php, spec_pla, spec_plp, spec_pull_byte, spec_push_byte,
    spec_load, spec_load_bytes, spec_rol, spec_ror, spec_rti, spec_rts, spec_run, spec_sbc,
    spec_sta, spec_step, spec_stx, spec_sty,
    spec_tax, spec_tay, spec_tsx, spec_txa, spec_txs, spec_tya, sread, CpuV,
};
use crate::cpu::status::{spec_status_reset, ProcessorStatus};
use crate::nes::NesRom;
use vstd::prelude::*;

verus! {

/// Why an execution step could not run or complete.
#[derive(Clone, Copy, Debug, PartialEq, Eq, Structural)]
pub enum CpuError {
    /// The fetched byte is not an official opcode.
    UnknownOpcode(u8),
    /// A run exhausted its (astronomically large) step budget without
    /// reaching a break instruction.
    StepLimitReached,
}

/// Steps a run may take before it gives up: practically unbounded.
pub const STEP_BUDGET: u64 = 0xFFFF_FFFF_FFFF_FFFF;

/// The processor: registers, status, stack pointer, cycle counter, and the
/// memory device it is wired to.
pub struct CPU<M: Memory> {
    pub program_counter: u16,
    pub registers: Registers,
    pub status: ProcessorStatus,
    pub stack_pointer: u8,
    pub cycles: u64,
    pub memory: M,
}

impl<M: Memory> View for CPU<M> {
    type V = CpuV;

    open spec fn view(&self) -> CpuV {
        CpuV {
            pc: self.program_counter,
            a: self.registers.a,
            x: self.registers.x,
            y: self.registers.y,
            sp: self.stack_pointer,
            cycles: self.cycles,
            status: self.status,
            mem: self.memory.mem_view(),
        }
    }
}

impl CPU<FlatMem> {
    /// A bare processor over flat, fully writable memory, as used to run
    /// small programs entirely from RAM.
    pub fn new() -> (r: CPU<FlatMem>)
        ensures
            r@.pc == 0,
            r@.a == 0,
            r@.x == 0,
            r@.y == 0,
            r@.sp == STACK_RESET,
            r@.cycles == 0,
            r@.status == spec_status_reset(),
            r@.mem == all_zeros(),
    {
        CPU {
            program_counter: 0,
            registers: Registers::default(),
            status: ProcessorStatus::default(),
            stack_pointer: STACK_RESET,
            cycles: 0,
            memory: FlatMem::new(),
        }
    }

    /// Copy a program into RAM at 0x0600 and point the reset vector there.
    /// The vector store comes last, so a program long enough to reach the
    /// vector cells loses those two bytes to it. This load convention needs
    /// the reset vector itself to be writable, so it is only offered on the
    /// flat-memory processor.
    pub fn load(&mut self, program: &[u8])
        requires
            program@.len() <= 0xFA00,
        ensures
            final(self)@.mem == spec_load(
                old(self)@.mem,
                wr_of(old(self).memory),
                al_of(old(self).memory),
                program@,
            ),
            final(self)@.mem.len() == 0x10000,
            forall|i: int|
                0 <= i < program@.len() && 0x600 + i != 0xFFFC && 0x600 + i != 0xFFFD
                    ==> final(self)@.mem[0x600 + i] == program@[i],
            final(self)@.mem[0xFFFC] == 0x00,
            final(self)@.mem[0xFFFD] == 0x06,
            forall|i: int|
                0 <= i < 0x10000 && !(0x600 <= i < 0x600 + program@.len()) && i != 0xFFFC && i
                    != 0xFFFD ==> final(self)@.mem[i] == old(self)@.mem[i],
            final(self)@ == (CpuV { mem: final(self)@.mem, ..old(self)@ }),
            forall|a: u16| final(self).memory.writable(a) == old(self).memory.writable(a),
            forall|a: u16| final(self).memory.alias(a) == old(self).memory.alias(a),
    {
        proof {
            use_type_invariant(&self.memory);
            crate::cpu::mem::lemma_flat_mem_len(&self.memory);
        }
        let ghost wr0 = wr_of(self.memory);
        let ghost al0 = al_of(self.memory);
        let mut i: usize = 0;
        while i < program.len()
            invariant
                i <= program@.len(),
                program@.len() <= 0xFA00,
                self.memory.mem_view().len() == 0x10000,
                wr0 == wr_of(old(self).memory),
                al0 == al_of(old(self).memory),
                self@.mem == spec_load_bytes(old(self)@.mem, wr0, al0, program@, i as int),
                forall|j: int| 0 <= j < i ==> self@.mem[0x600 + j] == program@[j],
                forall|j: int|
                    0 <= j < 0x10000 && !(0x600 <= j < 0x600 + i) ==> self@.mem[j] == old(
                        self,
                    )@.mem[j],
                self@ == (CpuV { mem: self@.mem, ..old(self)@ }),
                forall|a: u16| self.memory.writable(a) == old(self).memory.writable(a),
                forall|a: u16| self.memory.alias(a) == old(self).memory.alias(a),
            decreases program@.len() - i,
        {
            let b = program[i];
            let ghost mpre = self.memory;
            self.memory.mem_write(0x600 + i as u16, b);
            proof {
                assert(self.memory.mem_view() =~= spec_mem_write(
                    mpre.mem_view(),
                    wr_of(mpre),
                    al_of(mpre),
                    (0x600 + i) as u16,
                    b,
                ));
                lemma_wr_al_stable(mpre, old(self).memory);
            }
            i += 1;
        }
        let ghost mloop = self.memory;
        self.memory.mem_write_u16(0xFFFC, 0x0600);
        proof {
            assert(self.memory.mem_view() =~= spec_mem_write(
                spec_mem_write(
                    mloop.mem_view(),
                    wr_of(mloop),
                    al_of(mloop),
                    0xFFFC,
                    lo8(0x0600),
                ),
                wr_of(mloop),
                al_of(mloop),
                wrap16(0xFFFC as int + 1),
                hi8(0x0600),
            ));
            lemma_wr_al_stable(mloop, old(self).memory);
        }
    }

    /// Load at 0x0600, reset, and run: the result and final state are those
    /// of the bounded run of the loaded program from its reset state.
    pub fn load_and_run(&mut self, program: &[u8]) -> (r: Result<(), CpuError>)
        requires
            program@.len() <= 0xFA00,
        ensures
            ({
                let wr = wr_of(old(self).memory);
                let al = al_of(old(self).memory);
                let s1 = CpuV {
                    pc: 0x0600,
                    a: 0,
                    x: 0,
                    y: 0,
                    sp: STACK_RESET,
                    cycles: old(self)@.cycles,
                    status: spec_status_reset(),
                    mem: spec_load(old(self)@.mem, wr, al, program@),
                };
                let (sf, rr) = spec_run(s1, wr, al, STEP_BUDGET as nat);
                final(self)@ == sf && r == rr
            }),
            r is Ok ==> halted_on_brk(final(self)@),
    {
        let ghost wr0 = wr_of(self.memory);
        let ghost al0 = al_of(self.memory);
        self.load(program);
        self.reset();
        proof {
            lemma_wr_al_stable(self.memory, old(self).memory);
            let ghost s1 = CpuV {
                pc: 0x0600,
                a: 0,
                x: 0,
                y: 0,
                sp: STACK_RESET,
                cycles: old(self)@.cycles,
                status: spec_status_reset(),
                mem: spec_load(old(self)@.mem, wr0, al0, program@),
            };
            assert(self@.pc == 0x0600);
            assert(self@ == s1);
        }
        self.run()
    }

    /// Load at 0x0600, reset, apply a caller adjustment to the fresh state,
    /// and run to the break instruction. The adjustment is an arbitrary
    /// closure over the whole machine, so no contract here can name the
    /// state it hands to the run; what every run guarantees still holds.
    pub fn load_modify_and_run<Func: Fn(&mut CPU<FlatMem>)>(
        &mut self,
        program: &[u8],
        modify: Func,
    ) -> (r: Result<(), CpuError>)
        requires
            program@.len() <= 0xFA00,
            forall|c: &mut CPU<FlatMem>| #[trigger] modify.requires((c,)),
        ensures
            r is Ok ==> halted_on_brk(final(self)@),
            r matches Err(CpuError::UnknownOpcode(b)) ==> spec_decode(b) is None && b == sread(
                final(self)@,
                final(self)@.pc,
            ),
    {
        self.load(program);
        self.reset();
        modify(self);
        self.run()
    }
}

impl CPU<Bus> {
    /// A processor wired to the given bus, in its power-up state: interrupts
    /// masked, stack pointer rewound, program counter at zero.
    pub fn with_bus(bus: Bus) -> (r: CPU<Bus>)
        ensures
            r@.pc == 0,
            r@.a == 0,
            r@.x == 0,
            r@.y == 0,
            r@.sp == STACK_RESET,
            r@.cycles == 0,
            r@.status == (ProcessorStatus { interrupt_disable: true, ..spec_status_reset() }),
            r@.mem == bus.mem_view(),
    {
        CPU {
            program_counter: 0,
            registers: Registers::default(),
            status: ProcessorStatus { interrupt_disable: true, ..ProcessorStatus::default() },
            stack_pointer: STACK_RESET,
            cycles: 0,
            memory: bus,
        }
    }

    /// A processor wired to a fresh bus over the given cartridge, in its
    /// power-up state.
    pub fn with_rom(rom: NesRom) -> (r: CPU<Bus>)
        ensures
            r@.pc == 0,
            r@.a == 0,
            r@.x == 0,
            r@.y == 0,
            r@.sp == STACK_RESET,
            r@.cycles == 0,
            r@.status == (ProcessorStatus { interrupt_disable: true, ..spec_status_reset() }),
            r@.mem == bus_layout(zero_ram(), rom.prg_rom@),
    {
        Self::with_bus(Bus::new(rom))
    }
}

impl<M: Memory> Memory for CPU<M> {
    open spec fn mem_view(&self) -> Seq<u8> {
        self.memory.mem_view()
    }

    open spec fn writable(&self, addr: u16) -> bool {
        self.memory.writable(addr)
    }

    open spec fn alias(&self, addr: u16) -> u16 {
        self.memory.alias(addr)
    }

    fn mem_read(&self, addr: u16) -> (r: u8) {
        self.memory.mem_read(addr)
    }

    fn mem_write(&mut self, addr: u16, data: u8)
        ensures
            final(self).registers == old(self).registers,
            final(self).program_counter == old(self).program_counter,
            final(self).status == old(self).status,
            final(self).stack_pointer == old(self).stack_pointer,
            final(self).cycles == old(self).cycles,
    {
        self.memory.mem_write(addr, data);
        proof {
            assert(self.mem_view() =~= spec_mem_write(
                old(self).mem_view(),
                (|a: u16| old(self).writable(a)),
                (|a: u16| old(self).alias(a)),
                addr,
                data,
            ));
        }
    }
}

impl<M: Memory> Stack for CPU<M> {
    open spec fn sp(&self) -> u8 {
        self.stack_pointer
    }

    fn stack_push(&mut self, data: u8)
        ensures
            final(self).registers == old(self).registers,
            final(self).program_counter == old(self).program_counter,
            final(self).status == old(self).status,
            final(self).cycles == old(self).cycles,
    {
        self.push_byte(data);
        proof {
            assert(self.mem_view() =~= spec_mem_write(
                old(self).mem_view(),
                (|a: u16| old(self).writable(a)),
                (|a: u16| old(self).alias(a)),
                stack_addr(old(self).stack_pointer),
                data,
            ));
        }
    }

    fn stack_pop(&mut self) -> (r: u8)
        ensures
            final(self).registers == old(self).registers,
            final(self).program_counter == old(self).program_counter,
            final(self).status == old(self).status,
            final(self).cycles == old(self).cycles,
            final(self).memory == old(self).memory,
    {
        self.pop_byte()
    }
}

impl<M: Memory> CPU<M> {
    /// Zero the registers, clear the flags, rewind the stack pointer, and
    /// resume at the reset vector.
    pub fn reset(&mut self)
        ensures
            final(self)@ == (CpuV {
                pc: spec_read16(old(self)@.mem, 0xFFFC),
                a: 0,
                x: 0,
                y: 0,
                sp: STACK_RESET,
                cycles: old(self)@.cycles,
                status: spec_status_reset(),
                mem: old(self)@.mem,
            }),
    {
        self.registers.reset();
        self.status.reset();
        self.stack_pointer = STACK_RESET;
        self.program_counter = self.memory.mem_read_u16(0xFFFC);
    }

    /// Run until the break instruction, an illegal opcode, or exhaustion of
    /// the step budget: the bounded run of the machine as it stands.
    pub fn run(&mut self) -> (r: Result<(), CpuError>)
        ensures
            ({
                let (sf, rr) = spec_run(
                    old(self)@,
                    wr_of(old(self).memory),
                    al_of(old(self).memory),
                    STEP_BUDGET as nat,
                );
                final(self)@ == sf && r == rr
            }),
            r is Ok ==> halted_on_brk(final(self)@),
            r matches Err(CpuError::UnknownOpcode(b)) ==> spec_decode(b) is None && b == sread(
                final(self)@,
                final(self)@.pc,
            ),
    {
        self.run_with_callback(|_cpu: &CPU<M>| {})
    }

    /// Run as `run` does, invoking the observer on the processor before each
    /// fetch; the observer sees every prior mutation and the program counter
    /// at the next opcode.
    #[verifier::rlimit(100)]
    #[verifier::spinoff_prover]
    pub fn run_with_callback<F: Fn(&CPU<M>)>(&mut self, callback: F) -> (r: Result<
        (),
        CpuError,
    >)
        requires
            forall|c: &CPU<M>| #[trigger] callback.requires((c,)),
        ensures
            ({
                let (sf, rr) = spec_run(
                    old(self)@,
                    wr_of(old(self).memory),
                    al_of(old(self).memory),
                    STEP_BUDGET as nat,
                );
                final(self)@ == sf && r == rr
            }),
            r is Ok ==> halted_on_brk(final(self)@),
            r matches Err(CpuError::UnknownOpcode(b)) ==> spec_decode(b) is None && b == sread(
                final(self)@,
                final(self)@.pc,
            ),
    {
        let ghost s0 = self@;
        let ghost wr0 = wr_of(self.memory);
        let ghost al0 = al_of(self.memory);
        proof {
            lemma_run_outcomes(s0, wr0, al0, STEP_BUDGET as nat);
        }
        let mut fuel: u64 = STEP_BUDGET;
        loop
            invariant
                forall|c: &CPU<M>| #[trigger] callback.requires((c,)),
                s0 == old(self)@,
                wr0 == wr_of(old(self).memory),
                al0 == al_of(old(self).memory),
                spec_run(s0, wr0, al0, STEP_BUDGET as nat) == spec_run(
                    self@,
                    wr_of(self.memory),
                    al_of(self.memory),
                    fuel as nat,
                ),
            decreases fuel,
        {
            if fuel == 0 {
                return Err(CpuError::StepLimitReached);
            }
            fuel = fuel - 1;
            callback(&*self);
            let ghost pre = self@;
            let ghost mpre = self.memory;
            match self.tick() {
                Ok(true) => {
                    proof {
                        assert(spec_run(pre, wr_of(mpre), al_of(mpre), (fuel + 1) as nat) == (
                            self@,
                            Ok::<(), CpuError>(()),
                        ));
                    }
                    return Ok(());
                },
                Ok(false) => {
                    proof {
                        lemma_wr_al_stable(mpre, self.memory);
                        assert(spec_run(pre, wr_of(mpre), al_of(mpre), (fuel + 1) as nat)
                            == spec_run(
                            self@,
                            wr_of(self.memory),
                            al_of(self.memory),
                            fuel as nat,
                        ));
                    }
                },
                Err(e) => {
                    proof {
                        assert(spec_run(pre, wr_of(mpre), al_of(mpre), (fuel + 1) as nat) == (
                            pre,
                            Err::<(), CpuError>(e),
                        ));
                    }
                    return Err(e);
                },
            }
        }
    }

    /// Execute exactly one instruction. Returns whether it was the break
    /// instruction; an unofficial opcode is rejected and leaves the machine
    /// untouched.
    #[verifier::rlimit(100)]
    #[verifier::spinoff_prover]
    pub fn tick(&mut self) -> (r: Result<bool, CpuError>)
        ensures
            match spec_step(old(self)@, wr_of(old(self).memory), al_of(old(self).memory)) {
                None => r == Err::<bool, CpuError>(
                    CpuError::UnknownOpcode(sread(old(self)@, old(self)@.pc)),
                ) && final(self)@ == old(self)@,
                Some((s2, halt)) => r == Ok::<bool, CpuError>(halt) && final(self)@ == s2,
            },
            forall|a: u16| final(self).memory.writable(a) == old(self).memory.writable(a),
            forall|a: u16| final(self).memory.alias(a) == old(self).memory.alias(a),
    {
        let code = self.memory.mem_read(self.program_counter);
        let instruction = match Instruction::from_opcode(code) {
            Ok(i) => i,
            Err(e) => {
                return Err(e);
            },
        };
        self.program_counter = self.program_counter.wrapping_add(1);
        if let Instruction::BRK(OpCodeInfo { cycles, .. }) = instruction {
            self.cycles = self.cycles.wrapping_add(cycles as u64);
            return Ok(true);
        }
        self.exec_decoded(instruction);
        Ok(false)
    }

    /// Dispatch one decoded, non-break instruction to its handler, then move
    /// the program counter past the instruction and account its base cycles.
    fn exec_decoded(&mut self, instruction: Instruction)
        requires
            instr_wf(instruction),
            !(instruction is BRK),
        ensures
            final(self)@ == spec_exec(
                old(self)@,
                instruction,
                wr_of(old(self).memory),
                al_of(old(self).memory),
            ),
            forall|a: u16| final(self).memory.writable(a) == old(self).memory.writable(a),
            forall|a: u16| final(self).memory.alias(a) == old(self).memory.alias(a),
    {
        match instruction {
            Instruction::ADC(_) | Instruction::AND(_) | Instruction::BIT(_) | Instruction::CMP(_) | Instruction::CPX(_) | Instruction::CPY(_) | Instruction::EOR(_) | Instruction::LDA(_) | Instruction::LDX(_) | Instruction::LDY(_) | Instruction::ORA(_) | Instruction::SBC(_) => self.exec_alu_read(instruction),
            Instruction::ASL(_) | Instruction::DEC(_) | Instruction::INC(_) | Instruction::LSR(_) | Instruction::ROL(_) | Instruction::ROR(_) | Instruction::STA(_) | Instruction::STX(_) | Instruction::STY(_) => self.exec_alu_write(instruction),
            Instruction::BCC(_) | Instruction::BCS(_) | Instruction::BEQ(_) | Instruction::BMI(_) | Instruction::BNE(_) | Instruction::BPL(_) | Instruction::BVC(_) | Instruction::BVS(_) => self.exec_branch(instruction),
            Instruction::JMP(_) | Instruction::JSR(_) | Instruction::RTI(_) | Instruction::RTS(_) => self.exec_flow(instruction),
            _ => self.exec_implied(instruction),
        }
    }

    /// Loads, arithmetic, logic, compares and the bit test.
    #[verifier::rlimit(100)]
    #[verifier::spinoff_prover]
    fn exec_alu_read(&mut self, instruction: Instruction)
        requires
            instr_wf(instruction),
            instruction is ADC || instruction is AND || instruction is BIT || instruction is CMP || instruction is CPX || instruction is CPY || instruction is EOR || instruction is LDA || instruction is LDX || instruction is LDY || instruction is ORA || instruction is SBC,
        ensures
            final(self)@ == spec_exec(
                old(self)@,
                instruction,
                wr_of(old(self).memory),
                al_of(old(self).memory),
            ),
            forall|a: u16| final(self).memory.writable(a) == old(self).memory.writable(a),
            forall|a: u16| final(self).memory.alias(a) == old(self).memory.alias(a),
    {
        let (advance_m1, cyc): (u16, u8) = match instruction {
            Instruction::ADC(OpCodeInfo { addressing_mode, bytes, cycles }) => {
                self.adc(&addressing_mode);
                ((bytes - 1) as u16, cycles)
            },
            Instruction::AND(OpCodeInfo { addressing_mode, bytes, cycles }) => {
                self.and(&addressing_mode);
                ((bytes - 1) as u16, cycles)
            },
            Instruction::BIT(OpCodeInfo { addressing_mode, bytes, cycles }) => {
                self.bit(&addressing_mode);
                ((bytes - 1) as u16, cycles)
            },
            Instruction::CMP(OpCodeInfo { addressing_mode, bytes, cycles }) => {
                self.cmp(&addressing_mode);
                ((bytes - 1) as u16, cycles)
            },
            Instruction::CPX(OpCodeInfo { addressing_mode, bytes, cycles }) => {
                self.cpx(&addressing_mode);
                ((bytes - 1) as u16, cycles)
            },
            Instruction::CPY(OpCodeInfo { addressing_mode, bytes, cycles }) => {
                self.cpy(&addressing_mode);
                ((bytes - 1) as u16, cycles)
            },
            Instruction::EOR(OpCodeInfo { addressing_mode, bytes, cycles }) => {
                self.eor(&addressing_mode);
                ((bytes - 1) as u16, cycles)
            },
            Instruction::LDA(OpCodeInfo { addressing_mode, bytes, cycles }) => {
                self.lda(&addressing_mode);
                ((bytes - 1) as u16, cycles)
            },
            Instruction::LDX(OpCodeInfo { addressing_mode, bytes, cycles }) => {
                self.ldx(&addressing_mode);
                ((bytes - 1) as u16, cycles)
            },
            Instruction::LDY(OpCodeInfo { addressing_mode, bytes, cycles }) => {
                self.ldy(&addressing_mode);
                ((bytes - 1) as u16, cycles)
            },
            Instruction::ORA(OpCodeInfo { addressing_mode, bytes, cycles }) => {
                self.ora(&addressing_mode);
                ((bytes - 1) as u16, cycles)
            },
            Instruction::SBC(OpCodeInfo { addressing_mode, bytes, cycles }) => {
                self.sbc(&addressing_mode);
                ((bytes - 1) as u16, cycles)
            },
            _ => {
                unreached()
            },
        };
        self.advance(advance_m1, cyc);
    }

    /// Stores, shifts, rotates and memory increments.
    #[verifier::rlimit(100)]
    #[verifier::spinoff_prover]
    fn exec_alu_write(&mut self, instruction: Instruction)
        requires
            instr_wf(instruction),
            instruction is ASL || instruction is DEC || instruction is INC || instruction is LSR || instruction is ROL || instruction is ROR || instruction is STA || instruction is STX || instruction is STY,
        ensures
            final(self)@ == spec_exec(
                old(self)@,
                instruction,
                wr_of(old(self).memory),
                al_of(old(self).memory),
            ),
            forall|a: u16| final(self).memory.writable(a) == old(self).memory.writable(a),
            forall|a: u16| final(self).memory.alias(a) == old(self).memory.alias(a),
    {
        let (advance_m1, cyc): (u16, u8) = match instruction {
            Instruction::ASL(OpCodeInfo { addressing_mode, bytes, cycles }) => {
                self.asl(&addressing_mode);
                ((bytes - 1) as u16, cycles)
            },
            Instruction::DEC(OpCodeInfo { addressing_mode, bytes, cycles }) => {
                self.dec(&addressing_mode);
                ((bytes - 1) as u16, cycles)
            },
            Instruction::INC(OpCodeInfo { addressing_mode, bytes, cycles }) => {
                self.inc(&addressing_mode);
                ((bytes - 1) as u16, cycles)
            },
            Instruction::LSR(OpCodeInfo { addressing_mode, bytes, cycles }) => {
                self.lsr(&addressing_mode);
                ((bytes - 1) as u16, cycles)
            },
            Instruction::ROL(OpCodeInfo { addressing_mode, bytes, cycles }) => {
                self.rol(&addressing_mode);
                ((bytes - 1) as u16, cycles)
            },
            Instruction::ROR(OpCodeInfo { addressing_mode, bytes, cycles }) => {
                self.ror(&addressing_mode);
                ((bytes - 1) as u16, cycles)
            },
            Instruction::STA(OpCodeInfo { addressing_mode, bytes, cycles }) => {
                self.sta(&addressing_mode);
                ((bytes - 1) as u16, cycles)
            },
            Instruction::STX(OpCodeInfo { addressing_mode, bytes, cycles }) => {
                self.stx(&addressing_mode);
                ((bytes - 1) as u16, cycles)
            },
            Instruction::STY(OpCodeInfo { addressing_mode, bytes, cycles }) => {
                self.sty(&addressing_mode);
                ((bytes - 1) as u16, cycles)
            },
            _ => {
                unreached()
            },
        };
        self.advance(advance_m1, cyc);
    }

    /// The eight conditional branches.
    #[verifier::rlimit(100)]
    #[verifier::spinoff_prover]
    fn exec_branch(&mut self, instruction: Instruction)
        requires
            instr_wf(instruction),
            instruction is BCC || instruction is BCS || instruction is BEQ || instruction is BMI || instruction is BNE || instruction is BPL || instruction is BVC || instruction is BVS,
        ensures
            final(self)@ == spec_exec(
                old(self)@,
                instruction,
                wr_of(old(self).memory),
                al_of(old(self).memory),
            ),
            forall|a: u16| final(self).memory.writable(a) == old(self).memory.writable(a),
            forall|a: u16| final(self).memory.alias(a) == old(self).memory.alias(a),
    {
        match instruction {
            Instruction::BCC(OpCodeInfo { addressing_mode: _, bytes, cycles }) => {
                let cond = !self.status.carry_flag;
                self.do_branch(cond, bytes, cycles);
            },
            Instruction::BCS(OpCodeInfo { addressing_mode: _, bytes, cycles }) => {
                let cond = self.status.carry_flag;
                self.do_branch(cond, bytes, cycles);
            },
            Instruction::BEQ(OpCodeInfo { addressing_mode: _, bytes, cycles }) => {
                let cond = self.status.zero_flag;
                self.do_branch(cond, bytes, cycles);
            },
            Instruction::BMI(OpCodeInfo { addressing_mode: _, bytes, cycles }) => {
                let cond = self.status.negative_flag;
                self.do_branch(cond, bytes, cycles);
            },
            Instruction::BNE(OpCodeInfo { addressing_mode: _, bytes, cycles }) => {
                let cond = !self.status.zero_flag;
                self.do_branch(cond, bytes, cycles);
            },
            Instruction::BPL(OpCodeInfo { addressing_mode: _, bytes, cycles }) => {
                let cond = !self.status.negative_flag;
                self.do_branch(cond, bytes, cycles);
            },
            Instruction::BVC(OpCodeInfo { addressing_mode: _, bytes, cycles }) => {
                let cond = !self.status.overflow_flag;
                self.do_branch(cond, bytes, cycles);
            },
            Instruction::BVS(OpCodeInfo { addressing_mode: _, bytes, cycles }) => {
                let cond = self.status.overflow_flag;
                self.do_branch(cond, bytes, cycles);
            },
            _ => {
                unreached()
            },
        }
    }

    /// One whole conditional branch, with the program counter at the
    /// displacement byte: read the displacement, move the program counter,
    /// and account the base cycles.
    fn do_branch(&mut self, condition: bool, bytes: u8, cycles: u8)
        requires
            bytes >= 1,
        ensures
            final(self)@ == spec_branch_step(
                old(self)@,
                condition,
                OpCodeInfo {
                    addressing_mode: AddressingMode::Relative,
                    bytes: bytes,
                    cycles: cycles,
                },
            ),
            final(self).memory == old(self).memory,
    {
        let off = AddressingMode::Relative.get_operand_address(self).unwrap_relative_offset();
        let taken = self.branch(condition, off);
        if !taken {
            self.program_counter = self.program_counter.wrapping_add((bytes - 1) as u16);
        }
        self.cycles = self.cycles.wrapping_add(cycles as u64);
    }

    /// Jumps and returns.
    #[verifier::rlimit(100)]
    #[verifier::spinoff_prover]
    fn exec_flow(&mut self, instruction: Instruction)
        requires
            instr_wf(instruction),
            instruction is JMP || instruction is JSR || instruction is RTI || instruction is RTS,
        ensures
            final(self)@ == spec_exec(
                old(self)@,
                instruction,
                wr_of(old(self).memory),
                al_of(old(self).memory),
            ),
            forall|a: u16| final(self).memory.writable(a) == old(self).memory.writable(a),
            forall|a: u16| final(self).memory.alias(a) == old(self).memory.alias(a),
    {
        let (advance_m1, cyc): (u16, u8) = match instruction {
            Instruction::JMP(OpCodeInfo { addressing_mode, cycles, .. }) => {
                self.jmp(&addressing_mode);
                (0u16, cycles)
            },
            Instruction::JSR(OpCodeInfo { addressing_mode, bytes, cycles }) => {
                self.jsr(&addressing_mode, bytes);
                (0u16, cycles)
            },
            Instruction::RTI(OpCodeInfo { cycles, .. }) => {
                self.rti();
                (0u16, cycles)
            },
            Instruction::RTS(OpCodeInfo { cycles, .. }) => {
                self.rts();
                (0u16, cycles)
            },
            _ => {
                unreached()
            },
        };
        self.advance(advance_m1, cyc);
    }

    /// Implied-operand instructions: register steps, transfers, stack and flag operations.
    #[verifier::rlimit(100)]
    #[verifier::spinoff_prover]
    fn exec_implied(&mut self, instruction: Instruction)
        requires
            instr_wf(instruction),
            instruction is CLC || instruction is CLD || instruction is CLI || instruction is CLV || instruction is DEX || instruction is DEY || instruction is INX || instruction is INY || instruction is NOP || instruction is PHA || instruction is PHP || instruction is PLA || instruction is PLP || instruction is SEC || instruction is SED || instruction is SEI || instruction is TAX || instruction is TAY || instruction is TSX || instruction is TXA || instruction is TXS || instruction is TYA,
        ensures
            final(self)@ == spec_exec(
                old(self)@,
                instruction,
                wr_of(old(self).memory),
                al_of(old(self).memory),
            ),
            forall|a: u16| final(self).memory.writable(a) == old(self).memory.writable(a),
            forall|a: u16| final(self).memory.alias(a) == old(self).memory.alias(a),
    {
        let (advance_m1, cyc): (u16, u8) = match instruction {
            Instruction::CLC(OpCodeInfo { bytes, cycles, .. }) => {
                self.status.carry_flag = false;
                ((bytes - 1) as u16, cycles)
            },
            Instruction::CLD(OpCodeInfo { bytes, cycles, .. }) => {
                self.status.decimal = false;
                ((bytes - 1) as u16, cycles)
            },
            Instruction::CLI(OpCodeInfo { bytes, cycles, .. }) => {
                self.status.interrupt_disable = false;
                ((bytes - 1) as u16, cycles)
            },
            Instruction::CLV(OpCodeInfo { bytes, cycles, .. }) => {
                self.status.overflow_flag = false;
                ((bytes - 1) as u16, cycles)
            },
            Instruction::DEX(OpCodeInfo { bytes, cycles, .. }) => {
                self.dex();
                ((bytes - 1) as u16, cycles)
            },
            Instruction::DEY(OpCodeInfo { bytes, cycles, .. }) => {
                self.dey();
                ((bytes - 1) as u16, cycles)
            },
            Instruction::INX(OpCodeInfo { bytes, cycles, .. }) => {
                self.inx();
                ((bytes - 1) as u16, cycles)
            },
            Instruction::INY(OpCodeInfo { bytes, cycles, .. }) => {
                self.iny();
                ((bytes - 1) as u16, cycles)
            },
            Instruction::NOP(OpCodeInfo { bytes, cycles, .. }) => ((bytes - 1) as u16, cycles),
            Instruction::PHA(OpCodeInfo { bytes, cycles, .. }) => {
                self.pha();
                ((bytes - 1) as u16, cycles)
            },
            Instruction::PHP(OpCodeInfo { bytes, cycles, .. }) => {
                self.php();
                ((bytes - 1) as u16, cycles)
            },
            Instruction::PLA(OpCodeInfo { bytes, cycles, .. }) => {
                self.pla();
                ((bytes - 1) as u16, cycles)
            },
            Instruction::PLP(OpCodeInfo { bytes, cycles, .. }) => {
                self.plp();
                ((bytes - 1) as u16, cycles)
            },
            Instruction::SEC(OpCodeInfo { bytes, cycles, .. }) => {
                self.status.carry_flag = true;
                ((bytes - 1) as u16, cycles)
            },
            Instruction::SED(OpCodeInfo { bytes, cycles, .. }) => {
                self.status.decimal = true;
                ((bytes - 1) as u16, cycles)
            },
            Instruction::SEI(OpCodeInfo { bytes, cycles, .. }) => {
                self.status.interrupt_disable = true;
                ((bytes - 1) as u16, cycles)
            },
            Instruction::TAX(OpCodeInfo { bytes, cycles, .. }) => {
                self.tax();
                ((bytes - 1) as u16, cycles)
            },
            Instruction::TAY(OpCodeInfo { bytes, cycles, .. }) => {
                self.tay();
                ((bytes - 1) as u16, cycles)
            },
            Instruction::TSX(OpCodeInfo { bytes, cycles, .. }) => {
                self.tsx();
                ((bytes - 1) as u16, cycles)
            },
            Instruction::TXA(OpCodeInfo { bytes, cycles, .. }) => {
                self.txa();
                ((bytes - 1) as u16, cycles)
            },
            Instruction::TXS(OpCodeInfo { bytes, cycles, .. }) => {
                self.txs();
                ((bytes - 1) as u16, cycles)
            },
            Instruction::TYA(OpCodeInfo { bytes, cycles, .. }) => {
                self.tya();
                ((bytes - 1) as u16, cycles)
            },
            _ => {
                unreached()
            },
        };
        self.advance(advance_m1, cyc);
    }

    /// Move the program counter over the operand bytes and account the base
    /// cycles of the instruction, both with wraparound.
    fn advance(&mut self, advance_m1: u16, cyc: u8)
        ensures
            final(self)@ == bump(old(self)@, advance_m1 as int, cyc),
            final(self).memory == old(self).memory,
    {
        self.program_counter = self.program_counter.wrapping_add(advance_m1);
        self.cycles = self.cycles.wrapping_add(cyc as u64);
    }

    // The instruction handlers. Each is specified against its mathematical
    // counterpart, with the program counter at the first operand byte.
    fn push_byte(&mut self, data: u8)
        ensures
            final(self)@ == spec_push_byte(
                old(self)@,
                wr_of(old(self).memory),
                al_of(old(self).memory),
                data,
            ),
            forall|a: u16| final(self).memory.writable(a) == old(self).memory.writable(a),
            forall|a: u16| final(self).memory.alias(a) == old(self).memory.alias(a),
    {
        let addr = STACK + self.stack_pointer as u16;
        self.memory.mem_write(addr, data);
        self.stack_pointer = self.stack_pointer.wrapping_sub(1);
        proof {
            assert(self@ =~= spec_push_byte(
                old(self)@,
                wr_of(old(self).memory),
                al_of(old(self).memory),
                data,
            ));
        }
    }

    fn pop_byte(&mut self) -> (r: u8)
        ensures
            final(self)@ == spec_pull_byte(old(self)@).0,
            r == spec_pull_byte(old(self)@).1,
            final(self).memory == old(self).memory,
    {
        self.stack_pointer = self.stack_pointer.wrapping_add(1);
        self.memory.mem_read(STACK + self.stack_pointer as u16)
    }

    fn adc(&mut self, mode: &AddressingMode)
        requires
            mode_reads(*mode),
        ensures
            final(self)@ == spec_adc(old(self)@, *mode),
            final(self).memory == old(self).memory,
    {
        let addr = mode.get_operand_address(self).unwrap_read_address();
        let m = self.memory.mem_read(addr);
        let c: u16 = if self.status.carry_flag {
            1
        } else {
            0
        };
        let sum: u16 = self.registers.a as u16 + m as u16 + c;
        let r: u8 = (sum % 0x100) as u8;
        let overflow = (self.registers.a ^ r) & (m ^ r) & 0x80 != 0;
        self.registers.a = r;
        self.status.update_carry_overflow_zero_neg(r, sum > 0xFF);
        self.status.overflow_flag = overflow;
    }

    fn sbc(&mut self, mode: &AddressingMode)
        requires
            mode_reads(*mode),
        ensures
            final(self)@ == spec_sbc(old(self)@, *mode),
            final(self).memory == old(self).memory,
    {
        let addr = mode.get_operand_address(self).unwrap_read_address();
        let m = self.memory.mem_read(addr);
        let mb: u8 = 0xFF - m;
        let c: u16 = if self.status.carry_flag {
            1
        } else {
            0
        };
        let sum: u16 = self.registers.a as u16 + mb as u16 + c;
        let r: u8 = (sum % 0x100) as u8;
        let overflow = (self.registers.a ^ r) & (mb ^ r) & 0x80 != 0;
        self.registers.a = r;
        self.status.update_carry_overflow_zero_neg(r, sum > 0xFF);
        self.status.overflow_flag = overflow;
    }

    fn and(&mut self, mode: &AddressingMode)
        requires
            mode_reads(*mode),
        ensures
            final(self)@ == spec_and(old(self)@, *mode),
            final(self).memory == old(self).memory,
    {
        let addr = mode.get_operand_address(self).unwrap_read_address();
        let value = self.memory.mem_read(addr);
        self.registers.a = self.registers.a & value;
        self.status.update_zero_neg_flags(self.registers.a);
    }

    fn ora(&mut self, mode: &AddressingMode)
        requires
            mode_reads(*mode),
        ensures
            final(self)@ == spec_ora(old(self)@, *mode),
            final(self).memory == old(self).memory,
    {
        let addr = mode.get_operand_address(self).unwrap_read_address();
        let value = self.memory.mem_read(addr);
        self.registers.a = self.registers.a | value;
        self.status.update_zero_neg_flags(self.registers.a);
    }

    fn eor(&mut self, mode: &AddressingMode)
        requires
            mode_reads(*mode),
        ensures
            final(self)@ == spec_eor(old(self)@, *mode),
            final(self).memory == old(self).memory,
    {
        let addr = mode.get_operand_address(self).unwrap_read_address();
        let value = self.memory.mem_read(addr);
        self.registers.a = self.registers.a ^ value;
        self.status.update_zero_neg_flags(self.registers.a);
    }

    fn asl(&mut self, mode: &AddressingMode)
        requires
            *mode is Accumulator || mode_reads(*mode),
        ensures
            final(self)@ == spec_asl(
                old(self)@,
                *mode,
                wr_of(old(self).memory),
                al_of(old(self).memory),
            ),
            forall|a: u16| final(self).memory.writable(a) == old(self).memory.writable(a),
            forall|a: u16| final(self).memory.alias(a) == old(self).memory.alias(a),
    {
        match mode.get_operand_address(self) {
            AddressingResult::AccumulatorOperation => {
                let v = self.registers.a;
                let r = v << 1;
                self.registers.a = r;
                self.status.update_carry_overflow_zero_neg(r, v & 0x80 != 0);
            },
            AddressingResult::ReadAddress(addr) => {
                let v = self.memory.mem_read(addr);
                let r = v << 1;
                self.memory.mem_write(addr, r);
                self.status.update_carry_overflow_zero_neg(r, v & 0x80 != 0);
                proof {
                    assert(self@ =~= spec_asl(
                        old(self)@,
                        *mode,
                        wr_of(old(self).memory),
                        al_of(old(self).memory),
                    ));
                }
            },
            _ => {
                unreached()
            },
        }
    }

    fn lsr(&mut self, mode: &AddressingMode)
        requires
            *mode is Accumulator || mode_reads(*mode),
        ensures
            final(self)@ == spec_lsr(
                old(self)@,
                *mode,
                wr_of(old(self).memory),
                al_of(old(self).memory),
            ),
            forall|a: u16| final(self).memory.writable(a) == old(self).memory.writable(a),
            forall|a: u16| final(self).memory.alias(a) == old(self).memory.alias(a),
    {
        match mode.get_operand_address(self) {
            AddressingResult::AccumulatorOperation => {
                let v = self.registers.a;
                let r = v >> 1;
                self.registers.a = r;
                self.status.update_carry_overflow_zero_neg(r, v & 0x01 != 0);
            },
            AddressingResult::ReadAddress(addr) => {
                let v = self.memory.mem_read(addr);
                let r = v >> 1;
                self.memory.mem_write(addr, r);
                self.status.update_carry_overflow_zero_neg(r, v & 0x01 != 0);
                proof {
                    assert(self@ =~= spec_lsr(
                        old(self)@,
                        *mode,
                        wr_of(old(self).memory),
                        al_of(old(self).memory),
                    ));
                }
            },
            _ => {
                unreached()
            },
        }
    }

    fn rol(&mut self, mode: &AddressingMode)
        requires
            *mode is Accumulator || mode_reads(*mode),
        ensures
            final(self)@ == spec_rol(
                old(self)@,
                *mode,
                wr_of(old(self).memory),
                al_of(old(self).memory),
            ),
            forall|a: u16| final(self).memory.writable(a) == old(self).memory.writable(a),
            forall|a: u16| final(self).memory.alias(a) == old(self).memory.alias(a),
    {
        let cin: u8 = if self.status.carry_flag {
            0x01
        } else {
            0x00
        };
        match mode.get_operand_address(self) {
            AddressingResult::AccumulatorOperation => {
                let v = self.registers.a;
                let r = (v << 1) | cin;
                self.registers.a = r;
                self.status.update_carry_overflow_zero_neg(r, v & 0x80 != 0);
            },
            AddressingResult::ReadAddress(addr) => {
                let v = self.memory.mem_read(addr);
                let r = (v << 1) | cin;
                self.memory.mem_write(addr, r);
                self.status.update_carry_overflow_zero_neg(r, v & 0x80 != 0);
                proof {
                    assert(self@ =~= spec_rol(
                        old(self)@,
                        *mode,
                        wr_of(old(self).memory),
                        al_of(old(self).memory),
                    ));
                }
            },
            _ => {
                unreached()
            },
        }
    }

    fn ror(&mut self, mode: &AddressingMode)
        requires
            *mode is Accumulator || mode_reads(*mode),
        ensures
            final(self)@ == spec_ror(
                old(self)@,
                *mode,
                wr_of(old(self).memory),
                al_of(old(self).memory),
            ),
            forall|a: u16| final(self).memory.writable(a) == old(self).memory.writable(a),
            forall|a: u16| final(self).memory.alias(a) == old(self).memory.alias(a),
    {
        let cin: u8 = if self.status.carry_flag {
            0x80
        } else {
            0x00
        };
        match mode.get_operand_address(self) {
            AddressingResult::AccumulatorOperation => {
                let v = self.registers.a;
                let r = (v >> 1) | cin;
                self.registers.a = r;
                self.status.update_carry_overflow_zero_neg(r, v & 0x01 != 0);
            },
            AddressingResult::ReadAddress(addr) => {
                let v = self.memory.mem_read(addr);
                let r = (v >> 1) | cin;
                self.memory.mem_write(addr, r);
                self.status.update_carry_overflow_zero_neg(r, v & 0x01 != 0);
                proof {
                    assert(self@ =~= spec_ror(
                        old(self)@,
                        *mode,
                        wr_of(old(self).memory),
                        al_of(old(self).memory),
                    ));
                }
            },
            _ => {
                unreached()
            },
        }
    }

    fn bit(&mut self, mode: &AddressingMode)
        requires
            mode_reads(*mode),
        ensures
            final(self)@ == spec_bit(old(self)@, *mode),
            final(self).memory == old(self).memory,
    {
        let addr = mode.get_operand_address(self).unwrap_read_address();
        let value = self.memory.mem_read(addr);
        self.status.zero_flag = self.registers.a & value == 0;
        self.status.negative_flag = value & 0x80 != 0;
        self.status.overflow_flag = value & 0x40 != 0;
    }

    fn dec(&mut self, mode: &AddressingMode)
        requires
            mode_reads(*mode),
        ensures
            final(self)@ == spec_dec(
                old(self)@,
                *mode,
                wr_of(old(self).memory),
                al_of(old(self).memory),
            ),
            forall|a: u16| final(self).memory.writable(a) == old(self).memory.writable(a),
            forall|a: u16| final(self).memory.alias(a) == old(self).memory.alias(a),
    {
        let addr = mode.get_operand_address(self).unwrap_read_address();
        let value = self.memory.mem_read(addr);
        let r = value.wrapping_sub(1);
        self.memory.mem_write(addr, r);
        self.status.update_zero_neg_flags(r);
        proof {
            assert(self@ =~= spec_dec(
                old(self)@,
                *mode,
                wr_of(old(self).memory),
                al_of(old(self).memory),
            ));
        }
    }

    fn inc(&mut self, mode: &AddressingMode)
        requires
            mode_reads(*mode),
        ensures
            final(self)@ == spec_inc(
                old(self)@,
                *mode,
                wr_of(old(self).memory),
                al_of(old(self).memory),
            ),
            forall|a: u16| final(self).memory.writable(a) == old(self).memory.writable(a),
            forall|a: u16| final(self).memory.alias(a) == old(self).memory.alias(a),
    {
        let addr = mode.get_operand_address(self).unwrap_read_address();
        let value = self.memory.mem_read(addr);
        let r = value.wrapping_add(1);
        self.memory.mem_write(addr, r);
        self.status.update_zero_neg_flags(r);
        proof {
            assert(self@ =~= spec_inc(
                old(self)@,
                *mode,
                wr_of(old(self).memory),
                al_of(old(self).memory),
            ));
        }
    }

    fn dex(&mut self)
        ensures
            final(self)@ == spec_dex(old(self)@),
            final(self).memory == old(self).memory,
    {
        self.registers.x = self.registers.x.wrapping_sub(1);
        self.status.update_zero_neg_flags(self.registers.x);
    }

    fn dey(&mut self)
        ensures
            final(self)@ == spec_dey(old(self)@),
            final(self).memory == old(self).memory,
    {
        self.registers.y = self.registers.y.wrapping_sub(1);
        self.status.update_zero_neg_flags(self.registers.y);
    }

    fn inx(&mut self)
        ensures
            final(self)@ == spec_inx(old(self)@),
            final(self).memory == old(self).memory,
    {
        self.registers.x = self.registers.x.wrapping_add(1);
        self.status.update_zero_neg_flags(self.registers.x);
    }

    fn iny(&mut self)
        ensures
            final(self)@ == spec_iny(old(self)@),
            final(self).memory == old(self).memory,
    {
        self.registers.y = self.registers.y.wrapping_add(1);
        self.status.update_zero_neg_flags(self.registers.y);
    }

    fn jmp(&mut self, mode: &AddressingMode)
        requires
            mode_reads(*mode),
        ensures
            final(self)@ == spec_jmp(old(self)@, *mode),
            final(self).memory == old(self).memory,
    {
        let addr = mode.get_operand_address(self).unwrap_read_address();
        self.program_counter = addr;
    }

    fn jsr(&mut self, mode: &AddressingMode, bytes: u8)
        requires
            mode_reads(*mode),
        ensures
            final(self)@ == spec_jsr(
                old(self)@,
                *mode,
                wr_of(old(self).memory),
                al_of(old(self).memory),
                bytes,
            ),
            forall|a: u16| final(self).memory.writable(a) == old(self).memory.writable(a),
            forall|a: u16| final(self).memory.alias(a) == old(self).memory.alias(a),
    {
        let ghost s0 = self@;
        let ghost wr0 = wr_of(self.memory);
        let ghost al0 = al_of(self.memory);
        let ret = self.program_counter.wrapping_add(bytes as u16).wrapping_sub(2);
        let hi: u8 = (ret / 0x100) as u8;
        let lo: u8 = (ret % 0x100) as u8;
        self.push_byte(hi);
        let ghost m1 = self.memory;
        let ghost s1 = self@;
        self.push_byte(lo);
        proof {
            assert(s1 == spec_push_byte(s0, wr0, al0, hi));
            assert(self@ == spec_push_byte(s1, wr_of(m1), al_of(m1), lo));
            assert(spec_push_byte(s1, wr_of(m1), al_of(m1), lo) =~= spec_push_byte(
                s1,
                wr0,
                al0,
                lo,
            ));
        }
        let addr = mode.get_operand_address(self).unwrap_read_address();
        self.program_counter = addr;
        proof {
            assert(self@ =~= spec_jsr(s0, *mode, wr0, al0, bytes));
        }
    }

    fn rts(&mut self)
        ensures
            final(self)@ == spec_rts(old(self)@),
            final(self).memory == old(self).memory,
    {
        let lo = self.pop_byte();
        let hi = self.pop_byte();
        self.program_counter = (lo as u16 + 0x100 * hi as u16).wrapping_add(1);
    }

    fn rti(&mut self)
        ensures
            final(self)@ == spec_rti(old(self)@),
            final(self).memory == old(self).memory,
    {
        let p = self.pop_byte();
        self.status = ProcessorStatus::from_byte(p);
        let lo = self.pop_byte();
        let hi = self.pop_byte();
        self.program_counter = lo as u16 + 0x100 * hi as u16;
    }

    fn lda(&mut self, mode: &AddressingMode)
        requires
            mode_reads(*mode),
        ensures
            final(self)@ == spec_lda(old(self)@, *mode),
            final(self).memory == old(self).memory,
    {
        let addr = mode.get_operand_address(self).unwrap_read_address();
        let value = self.memory.mem_read(addr);
        self.registers.a = value;
        self.status.update_zero_neg_flags(value);
    }

    fn ldx(&mut self, mode: &AddressingMode)
        requires
            mode_reads(*mode),
        ensures
            final(self)@ == spec_ldx(old(self)@, *mode),
            final(self).memory == old(self).memory,
    {
        let addr = mode.get_operand_address(self).unwrap_read_address();
        let value = self.memory.mem_read(addr);
        self.registers.x = value;
        self.status.update_zero_neg_flags(value);
    }

    fn ldy(&mut self, mode: &AddressingMode)
        requires
            mode_reads(*mode),
        ensures
            final(self)@ == spec_ldy(old(self)@, *mode),
            final(self).memory == old(self).memory,
    {
        let addr = mode.get_operand_address(self).unwrap_read_address();
        let value = self.memory.mem_read(addr);
        self.registers.y = value;
        self.status.update_zero_neg_flags(value);
    }

    fn pha(&mut self)
        ensures
            final(self)@ == spec_pha(old(self)@, wr_of(old(self).memory), al_of(old(self).memory)),
            forall|a: u16| final(self).memory.writable(a) == old(self).memory.writable(a),
            forall|a: u16| final(self).memory.alias(a) == old(self).memory.alias(a),
    {
        let a = self.registers.a;
        self.push_byte(a);
    }

    fn php(&mut self)
        ensures
            final(self)@ == spec_php(old(self)@, wr_of(old(self).memory), al_of(old(self).memory)),
            forall|a: u16| final(self).memory.writable(a) == old(self).memory.writable(a),
            forall|a: u16| final(self).memory.alias(a) == old(self).memory.alias(a),
    {
        let b = self.status.to_byte() | 0x10;
        self.push_byte(b);
    }

    fn pla(&mut self)
        ensures
            final(self)@ == spec_pla(old(self)@),
            final(self).memory == old(self).memory,
    {
        let v = self.pop_byte();
        self.registers.a = v;
        self.status.update_zero_neg_flags(v);
    }

    fn plp(&mut self)
        ensures
            final(self)@ == spec_plp(old(self)@),
            final(self).memory == old(self).memory,
    {
        let v = self.pop_byte();
        self.status = ProcessorStatus::from_byte(v);
    }

    fn sta(&mut self, mode: &AddressingMode)
        requires
            mode_reads(*mode),
        ensures
            final(self)@ == spec_sta(
                old(self)@,
                *mode,
                wr_of(old(self).memory),
                al_of(old(self).memory),
            ),
            forall|a: u16| final(self).memory.writable(a) == old(self).memory.writable(a),
            forall|a: u16| final(self).memory.alias(a) == old(self).memory.alias(a),
    {
        let addr = mode.get_operand_address(self).unwrap_read_address();
        let a = self.registers.a;
        self.memory.mem_write(addr, a);
        proof {
            assert(self@ =~= spec_sta(
                old(self)@,
                *mode,
                wr_of(old(self).memory),
                al_of(old(self).memory),
            ));
        }
    }

    fn stx(&mut self, mode: &AddressingMode)
        requires
            mode_reads(*mode),
        ensures
            final(self)@ == spec_stx(
                old(self)@,
                *mode,
                wr_of(old(self).memory),
                al_of(old(self).memory),
            ),
            forall|a: u16| final(self).memory.writable(a) == old(self).memory.writable(a),
            forall|a: u16| final(self).memory.alias(a) == old(self).memory.alias(a),
    {
        let addr = mode.get_operand_address(self).unwrap_read_address();
        let x = self.registers.x;
        self.memory.mem_write(addr, x);
        proof {
            assert(self@ =~= spec_stx(
                old(self)@,
                *mode,
                wr_of(old(self).memory),
                al_of(old(self).memory),
            ));
        }
    }

    fn sty(&mut self, mode: &AddressingMode)
        requires
            mode_reads(*mode),
        ensures
            final(self)@ == spec_sty(
                old(self)@,
                *mode,
                wr_of(old(self).memory),
                al_of(old(self).memory),
            ),
            forall|a: u16| final(self).memory.writable(a) == old(self).memory.writable(a),
            forall|a: u16| final(self).memory.alias(a) == old(self).memory.alias(a),
    {
        let addr = mode.get_operand_address(self).unwrap_read_address();
        let y = self.registers.y;
        self.memory.mem_write(addr, y);
        proof {
            assert(self@ =~= spec_sty(
                old(self)@,
                *mode,
                wr_of(old(self).memory),
                al_of(old(self).memory),
            ));
        }
    }

    fn cmp(&mut self, mode: &AddressingMode)
        requires
            mode_reads(*mode),
        ensures
            final(self)@ == spec_cmp(old(self)@, *mode),
            final(self).memory == old(self).memory,
    {
        let addr = mode.get_operand_address(self).unwrap_read_address();
        let value = self.memory.mem_read(addr);
        let a = self.registers.a;
        self.status.update_carry_zero_neg_cmp(a, value);
    }

    fn cpx(&mut self, mode: &AddressingMode)
        requires
            mode_reads(*mode),
        ensures
            final(self)@ == spec_cpx(old(self)@, *mode),
            final(self).memory == old(self).memory,
    {
        let addr = mode.get_operand_address(self).unwrap_read_address();
        let value = self.memory.mem_read(addr);
        let x = self.registers.x;
        self.status.update_carry_zero_neg_cmp(x, value);
    }

    fn cpy(&mut self, mode: &AddressingMode)
        requires
            mode_reads(*mode),
        ensures
            final(self)@ == spec_cpy(old(self)@, *mode),
            final(self).memory == old(self).memory,
    {
        let addr = mode.get_operand_address(self).unwrap_read_address();
        let value = self.memory.mem_read(addr);
        let y = self.registers.y;
        self.status.update_carry_zero_neg_cmp(y, value);
    }

    fn tax(&mut self)
        ensures
            final(self)@ == spec_tax(old(self)@),
            final(self).memory == old(self).memory,
    {
        self.registers.x = self.registers.a;
        self.status.update_zero_neg_flags(self.registers.x);
    }

    fn tay(&mut self)
        ensures
            final(self)@ == spec_tay(old(self)@),
            final(self).memory == old(self).memory,
    {
        self.registers.y = self.registers.a;
        self.status.update_zero_neg_flags(self.registers.y);
    }

    fn tsx(&mut self)
        ensures
            final(self)@ == spec_tsx(old(self)@),
            final(self).memory == old(self).memory,
    {
        self.registers.x = self.stack_pointer;
        self.status.update_zero_neg_flags(self.registers.x);
    }

    fn txa(&mut self)
        ensures
            final(self)@ == spec_txa(old(self)@),
            final(self).memory == old(self).memory,
    {
        self.registers.a = self.registers.x;
        self.status.update_zero_neg_flags(self.registers.a);
    }

    fn txs(&mut self)
        ensures
            final(self)@ == spec_txs(old(self)@),
            final(self).memory == old(self).memory,
    {
        self.stack_pointer = self.registers.x;
    }

    fn tya(&mut self)
        ensures
            final(self)@ == spec_tya(old(self)@),
            final(self).memory == old(self).memory,
    {
        self.registers.a = self.registers.y;
        self.status.update_zero_neg_flags(self.registers.a);
    }

    fn branch(&mut self, condition: bool, offset: i8) -> (taken: bool)
        ensures
            taken == condition,
            condition ==> final(self)@ == (CpuV {
                pc: wrap16(old(self)@.pc + 1 + offset),
                ..old(self)@
            }),
            !condition ==> final(self)@ == old(self)@,
            final(self).memory == old(self).memory,
    {
        if condition {
            let off16: u16 = if offset >= 0 {
                offset as u16
            } else {
                ((offset as i32) + 0x10000) as u16
            };
            self.program_counter = self.program_counter.wrapping_add(1).wrapping_add(off16);
            true
        } else {
            false
        }
    }
}

} // verus!
