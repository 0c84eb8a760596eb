//! The processor: its state, the two-slot pipeline and the fetch
//! controller.
//!
//! What a piece of execution does is stated as an [`Effect`]: the
//! processor after it and the bus transactions it made. The effect is a
//! function of the processor before it and of `input`, the data that the
//! bus handed back, one entry for each transaction in order (the entry of
//! a write or an idle turn is not looked at). A contract then says that the
//! record of the bus grew by the transactions of the effect, computed for
//! the data that these very transactions carry, and that the processor is
//! the one of the effect.

use crate::cpu::alu::low_word;
use crate::cpu::block_transfer::{execute_block_data_transfer, listed, BlockTransfer};
use crate::cpu::opcodes::{
    check_condition, decode_arm_opcode, execute_arm_to_thumb_bx, execute_b, execute_bl,
    execute_data_processing, spec_check_condition, spec_decode_arm_opcode,
    spec_execute_arm_to_thumb_bx, spec_execute_b, spec_execute_bl, spec_execute_data_processing,
    DecodedArmOpcode, Opcode, TransferType,
};
use crate::cpu::registers::{
    lemma_fields_assembled, lemma_mask_written, lemma_read_after_write, lemma_status_constants,
    CondFlag, CpuMode, CpuState, RegisterFile, PC_IDX,
};
use crate::system_bus::{
    appended, data_of, is_code, is_sequential, lemma_access_kinds, lemma_trace_chain,
    lemma_trace_push, BusAccess, BusOp, SystemBus, TracedBus, ACCESS_CODE, ACCESS_NONSEQ,
    ACCESS_SEQ,
};
use vstd::prelude::*;

pub mod alu;
pub mod block_transfer;
pub mod disasm;
pub mod history;
pub mod opcodes;
pub mod registers;

verus! {

/// The processor.
#[derive(Debug, Copy, Clone)]
pub struct Arm7Cpu {
    pub registers: RegisterFile,
    /// The processor has a three-stage pipeline. The instruction to execute
    /// is taken from slot 0, slot 1 moves down, and the word just fetched
    /// goes to slot 1.
    pub pipeline: [u32; 2],
    /// The kind that the fetch of the next step will be tagged with. A
    /// refill of the pipeline does not look at it: its first read is always
    /// non-sequential.
    pub next_access: u8,
}

/// What a piece of execution leaves behind: the processor after it, and
/// the bus transactions it made, in order.
pub struct Effect {
    pub cpu: Arm7Cpu,
    pub trace: Seq<BusAccess>,
}

/// How a step ended.
#[derive(Debug, Copy, Clone, PartialEq, Eq, Structural)]
pub enum StepOutcome {
    /// The instruction was executed.
    Executed(Opcode),
    /// The condition of the instruction did not hold: it was passed over.
    ConditionFailed(Opcode),
    /// The word encodes no instruction that the processor knows: nothing
    /// was executed.
    Unrecognized(u32),
}

impl Default for Arm7Cpu {
    fn default() -> (cpu: Arm7Cpu)
        ensures
            cpu.is_reset(),
    {
        Arm7Cpu::new()
    }
}

impl Arm7Cpu {
    /// The state after reset: registers and pipeline zero, system mode,
    /// ARM state, interrupts disabled, a fresh code fetch pending.
    pub open spec fn is_reset(self) -> bool {
        &&& self.registers.cpsr == 0xDF
        &&& self.registers.has_valid_mode()
        &&& self.registers.spec_mode() == CpuMode::System
        &&& self.registers.spec_state() == CpuState::Arm
        &&& forall|i: int| 0 <= i < 16 ==> self.registers.reg(i) == 0
        &&& forall|i: int| 0 <= i < 16 ==> self.registers.user_bank[i] == 0
        &&& forall|i: int| 0 <= i < 7 ==> self.registers.fiq_registers[i] == 0
        &&& self.registers.spsr_fiq == 0 && self.registers.spsr_svc == 0
            && self.registers.spsr_abt == 0 && self.registers.spsr_irq == 0
            && self.registers.spsr_und == 0
        &&& self.registers.r13_svc == 0 && self.registers.r14_svc == 0
            && self.registers.r13_abt == 0 && self.registers.r14_abt == 0
        &&& self.registers.r13_irq == 0 && self.registers.r14_irq == 0
            && self.registers.r13_und == 0 && self.registers.r14_und == 0
        &&& self.pipeline[0] == 0 && self.pipeline[1] == 0
        &&& self.next_access == ACCESS_CODE
    }

    pub open spec fn with_registers(self, registers: RegisterFile) -> Arm7Cpu {
        Arm7Cpu { registers, ..self }
    }

    pub open spec fn with_next_access(self, next_access: u8) -> Arm7Cpu {
        Arm7Cpu { next_access, ..self }
    }

    /// The processor with the state bit of the status word inverted.
    pub open spec fn spec_toggle_cpu_state(self) -> Arm7Cpu {
        self.with_registers(self.registers.with_cpsr(self.registers.cpsr ^ CondFlag::State.mask()))
    }

    /// The processor with the mode field of the status word replaced.
    pub open spec fn spec_switch_cpu_mode(self, cpu_mode: CpuMode) -> Arm7Cpu {
        self.with_registers(
            self.registers.with_cpsr(
                (self.registers.cpsr & !CondFlag::ModeMask.mask()) | cpu_mode.bits(),
            ),
        )
    }

    /// Refill of the pipeline with two words from the program counter on,
    /// which then stands two words further. The first fetch is a
    /// non-sequential code fetch, whatever kind was pending; the second is
    /// a sequential code fetch, and so is whatever comes next.
    pub open spec fn spec_reload_pipeline32(self, input: Seq<u32>) -> Effect {
        let pc = self.registers.pc();
        Effect {
            cpu: Arm7Cpu {
                registers: self.registers.with_pc(pc.wrapping_add(4).wrapping_add(4)),
                pipeline: [input[0], input[1]],
                next_access: ACCESS_CODE | ACCESS_SEQ,
            },
            trace: seq![
                BusAccess::read_word(pc, ACCESS_CODE | ACCESS_NONSEQ, input[0]),
                BusAccess::read_word(pc.wrapping_add(4), ACCESS_CODE | ACCESS_SEQ, input[1]),
            ],
        }
    }

    /// Refill of the pipeline with two half-words from the program counter
    /// on, which then stands two half-words further. The first fetch is
    /// non-sequential, the second sequential.
    pub open spec fn spec_reload_pipeline16(self, input: Seq<u32>) -> Effect {
        let pc = self.registers.pc();
        Effect {
            cpu: Arm7Cpu {
                registers: self.registers.with_pc(pc.wrapping_add(2).wrapping_add(2)),
                pipeline: [input[0], input[1]],
                next_access: ACCESS_CODE | ACCESS_SEQ,
            },
            trace: seq![
                BusAccess {
                    op: BusOp::ReadHalfWord,
                    address: pc,
                    access: ACCESS_CODE | ACCESS_NONSEQ,
                    data: input[0],
                },
                BusAccess {
                    op: BusOp::ReadHalfWord,
                    address: pc.wrapping_add(2),
                    access: ACCESS_CODE | ACCESS_SEQ,
                    data: input[1],
                },
            ],
        }
    }

    /// Refill of the pipeline in the width of the current state.
    pub open spec fn spec_reload_pipeline(self, input: Seq<u32>) -> Effect {
        match self.registers.spec_state() {
            CpuState::Arm => self.spec_reload_pipeline32(input),
            CpuState::Thumb => self.spec_reload_pipeline16(input),
        }
    }

    /// The effect of one decoded instruction.
    pub open spec fn spec_execute_arm_opcode(
        self,
        opcode: DecodedArmOpcode,
        input: Seq<u32>,
    ) -> Effect {
        match opcode {
            DecodedArmOpcode::B { offset } => spec_execute_b(self, offset, input),
            DecodedArmOpcode::BL { offset } => spec_execute_bl(self, offset, input),
            DecodedArmOpcode::BX { register_idx } => spec_execute_arm_to_thumb_bx(
                self,
                register_idx as usize,
                input,
            ),
            DecodedArmOpcode::DataProcessing {
                operand,
                rd,
                rn,
                sub_opcode,
                set_flags,
            } => spec_execute_data_processing(self, sub_opcode, rd, rn, operand, set_flags, input),
            DecodedArmOpcode::BlockDataTransfer {
                base_register,
                transfer_type,
                pre_increment,
                increment,
                psr_n_force_user,
                write_address_into_base,
                rlist,
            } => (BlockTransfer {
                base_register,
                transfer_type,
                pre_increment,
                increment,
                psr_n_force_user,
                write_address_into_base,
                rlist,
            }).spec_execute(self, input),
        }
    }

    /// The processor after the fetch that opens a step: bit 0 of the
    /// program counter is cleared, slot 1 of the pipeline has moved to slot
    /// 0, and the fetched word stands in slot 1.
    pub open spec fn spec_fetched(self, word: u32) -> Arm7Cpu {
        Arm7Cpu {
            registers: self.registers.with_pc(self.registers.pc() & !1u32),
            pipeline: [self.pipeline[1], word],
            next_access: self.next_access,
        }
    }

    /// How a step in ARM state ends, for the word that the fetch returns.
    pub open spec fn spec_outcome(self, word: u32) -> StepOutcome {
        match spec_decode_arm_opcode(self.pipeline[0]) {
            Some(opcode) => if spec_check_condition(
                self.spec_fetched(word).registers,
                self.pipeline[0],
            ) {
                StepOutcome::Executed(opcode)
            } else {
                StepOutcome::ConditionFailed(opcode)
            },
            None => StepOutcome::Unrecognized(self.pipeline[0]),
        }
    }

    /// One step in ARM state. The word in slot 0 of the pipeline is
    /// retired and a new word is fetched at the program counter, with the
    /// pending access kind. The retired word is decoded. Where it is no
    /// instruction, nothing more happens. Where its condition fails, the
    /// word at the program counter is read once more as a code fetch, the
    /// program counter moves one word on, and the next access is marked as
    /// a sequential code fetch. Otherwise the instruction is executed.
    pub open spec fn spec_execute_next_arm(self, input: Seq<u32>) -> Effect {
        let fetched = self.spec_fetched(input[0]);
        let pc = fetched.registers.pc();
        let fetch = BusAccess::read_word(pc, self.next_access, input[0]);
        match self.spec_outcome(input[0]) {
            StepOutcome::Executed(Opcode::Arm(opcode)) => {
                let executed = fetched.spec_execute_arm_opcode(opcode, input.skip(1));
                Effect { cpu: executed.cpu, trace: seq![fetch] + executed.trace }
            },
            StepOutcome::ConditionFailed(_) => Effect {
                cpu: fetched.with_registers(
                    fetched.registers.with_pc(pc.wrapping_add(4)),
                ).with_next_access(ACCESS_CODE | ACCESS_SEQ),
                trace: seq![fetch, BusAccess::read_word(pc, ACCESS_CODE, input[1])],
            },
            _ => Effect { cpu: fetched, trace: seq![fetch] },
        }
    }

    /// The processor can take a step: its mode bits encode a mode and it
    /// is in ARM state.
    pub open spec fn spec_can_step(&self) -> bool {
        self.registers.has_valid_mode() && self.registers.spec_state() == CpuState::Arm
    }

    /// A processor in its reset state.
    pub fn new() -> (cpu: Arm7Cpu)
        ensures
            cpu.is_reset(),
    {
        Arm7Cpu { registers: RegisterFile::default(), pipeline: [0; 2], next_access: ACCESS_CODE }
    }

    /// Inverts the execution state.
    pub fn toggle_cpu_state(&mut self)
        ensures
            *final(self) == old(self).spec_toggle_cpu_state(),
            final(self).registers.spec_state() != old(self).registers.spec_state(),
            CpuMode::decode(final(self).registers.cpsr) == CpuMode::decode(
                old(self).registers.cpsr,
            ),
    {
        proof {
            lemma_mask_written(self.registers.cpsr, 0);
        }
        self.registers.cpsr ^= CondFlag::State.mask();
    }

    /// Makes `cpu_mode` the current mode. Indexed register access resolves
    /// to that mode's bank from now on; no register is copied.
    pub fn switch_cpu_mode(&mut self, cpu_mode: CpuMode)
        ensures
            *final(self) == old(self).spec_switch_cpu_mode(cpu_mode),
            final(self).registers.has_valid_mode(),
            final(self).registers.spec_mode() == cpu_mode,
            final(self).registers.spec_state() == old(self).registers.spec_state(),
    {
        proof {
            lemma_status_constants();
            lemma_fields_assembled(self.registers.cpsr, cpu_mode.bits(), 0);
        }
        self.registers.cpsr = (self.registers.cpsr & !CondFlag::ModeMask.mask()) | cpu_mode.bits();
    }

    /// Reads the word at the program counter as a code fetch and moves the
    /// program counter one word on.
    pub fn fetch_word<BusType: SystemBus>(&mut self, bus: &mut TracedBus<BusType>) -> (word: u32)
        ensures
            final(bus).log() == old(bus).log().push(
                BusAccess::read_word(old(self).registers.pc(), ACCESS_CODE, word),
            ),
            *final(self) == old(self).with_registers(
                old(self).registers.with_pc(old(self).registers.pc().wrapping_add(4)),
            ),
    {
        let pc = self.registers.get_and_incr_pc(4);
        bus.read_word(pc, ACCESS_CODE)
    }

    /// Refills the pipeline from the program counter on, in the width of
    /// the current state. The first read is tagged non-sequential, the
    /// second sequential.
    pub fn reload_pipeline<BusType: SystemBus>(&mut self, bus: &mut TracedBus<BusType>)
        ensures
            final(bus).extends(old(bus)),
            old(self).spec_reload_pipeline(data_of(final(bus).since(old(bus)))) == (Effect {
                cpu: *final(self),
                trace: final(bus).since(old(bus)),
            }),
            final(bus).since(old(bus)).len() == 2,
            final(bus).since(old(bus))[0].address == old(self).registers.pc(),
            final(bus).since(old(bus))[0].access == ACCESS_CODE | ACCESS_NONSEQ,
            final(bus).since(old(bus))[1].access == ACCESS_CODE | ACCESS_SEQ,
            final(self).next_access == ACCESS_CODE | ACCESS_SEQ,
            old(self).registers.spec_state() == CpuState::Arm ==> final(self).registers.pc() == old(
                self,
            ).registers.pc().wrapping_add(8) && final(bus).since(old(bus))[1].address == old(
                self,
            ).registers.pc().wrapping_add(4),
    {
        match self.registers.state() {
            CpuState::Arm => self.reload_pipeline32(bus),
            CpuState::Thumb => self.reload_pipeline16(bus),
        }
    }

    /// Refills the pipeline with two half-words.
    pub fn reload_pipeline16<BusType: SystemBus>(&mut self, bus: &mut TracedBus<BusType>)
        ensures
            final(bus).extends(old(bus)),
            old(self).spec_reload_pipeline16(data_of(final(bus).since(old(bus)))) == (Effect {
                cpu: *final(self),
                trace: final(bus).since(old(bus)),
            }),
    {
        let first_address = self.registers.get_and_incr_pc(2);
        let first = bus.read_half_word(first_address, ACCESS_CODE | ACCESS_NONSEQ);
        let second_address = self.registers.get_and_incr_pc(2);
        let second = bus.read_half_word(second_address, ACCESS_CODE | ACCESS_SEQ);
        self.pipeline[0] = first as u32;
        self.pipeline[1] = second as u32;
        self.next_access = ACCESS_CODE | ACCESS_SEQ;
        proof {
            let before = old(bus).log();
            let a0 = BusAccess::read_half_word(first_address, ACCESS_CODE | ACCESS_NONSEQ, first);
            let a1 = BusAccess::read_half_word(second_address, ACCESS_CODE | ACCESS_SEQ, second);
            lemma_trace_push(before, Seq::empty(), a0);
            lemma_trace_push(before, seq![a0], a1);
            let trace = bus.since(old(bus));
            let expected = old(self).spec_reload_pipeline16(data_of(trace));
            assert(expected.trace =~= trace);
            assert(expected.cpu.pipeline =~= self.pipeline);
            assert(expected.cpu.registers.user_bank =~= self.registers.user_bank);
        }
    }

    /// Refills the pipeline with two words.
    pub fn reload_pipeline32<BusType: SystemBus>(&mut self, bus: &mut TracedBus<BusType>)
        ensures
            final(bus).extends(old(bus)),
            old(self).spec_reload_pipeline32(data_of(final(bus).since(old(bus)))) == (Effect {
                cpu: *final(self),
                trace: final(bus).since(old(bus)),
            }),
            final(bus).since(old(bus)).len() == 2,
            final(bus).since(old(bus))[0] == BusAccess::read_word(
                old(self).registers.pc(),
                ACCESS_CODE | ACCESS_NONSEQ,
                final(self).pipeline[0],
            ),
            final(bus).since(old(bus))[1] == BusAccess::read_word(
                old(self).registers.pc().wrapping_add(4),
                ACCESS_CODE | ACCESS_SEQ,
                final(self).pipeline[1],
            ),
            final(self).registers.pc() == old(self).registers.pc().wrapping_add(8),
            final(self).next_access == ACCESS_CODE | ACCESS_SEQ,
    {
        let first_address = self.registers.get_and_incr_pc(4);
        let first = bus.read_word(first_address, ACCESS_CODE | ACCESS_NONSEQ);
        let second_address = self.registers.get_and_incr_pc(4);
        let second = bus.read_word(second_address, ACCESS_CODE | ACCESS_SEQ);
        self.pipeline[0] = first;
        self.pipeline[1] = second;
        self.next_access = ACCESS_CODE | ACCESS_SEQ;
        proof {
            let before = old(bus).log();
            let a0 = BusAccess::read_word(first_address, ACCESS_CODE | ACCESS_NONSEQ, first);
            let a1 = BusAccess::read_word(second_address, ACCESS_CODE | ACCESS_SEQ, second);
            lemma_trace_push(before, Seq::empty(), a0);
            lemma_trace_push(before, seq![a0], a1);
            let trace = bus.since(old(bus));
            let expected = old(self).spec_reload_pipeline32(data_of(trace));
            assert(expected.trace =~= trace);
            assert(expected.cpu.pipeline =~= self.pipeline);
            assert(expected.cpu.registers.user_bank =~= self.registers.user_bank);
        }
    }

    /// Whether `step` can be called.
    #[verifier::when_used_as_spec(spec_can_step)]
    pub fn can_step(&self) -> (ready: bool)
        ensures
            ready == self.spec_can_step(),
    {
        self.registers.try_mode().is_some() && self.registers.state() == CpuState::Arm
    }

    /// Executes one instruction, or passes over one word. An instruction
    /// that restores the status word may leave mode bits that encode no
    /// mode, or the Thumb state: `can_step` tells whether another step can
    /// follow.
    pub fn step<BusType: SystemBus>(&mut self, bus: &mut TracedBus<BusType>) -> (outcome:
        StepOutcome)
        requires
            old(self).spec_can_step(),
        ensures
            final(bus).extends(old(bus)),
            old(self).spec_execute_next_arm(data_of(final(bus).since(old(bus)))) == (Effect {
                cpu: *final(self),
                trace: final(bus).since(old(bus)),
            }),
            outcome == old(self).spec_outcome(data_of(final(bus).since(old(bus)))[0]),
    {
        match self.registers.state() {
            CpuState::Arm => self.execute_next_arm(bus),
            CpuState::Thumb => vstd::pervasive::unreached(),
        }
    }

    /// One step in ARM state.
    pub fn execute_next_arm<BusType: SystemBus>(
        &mut self,
        bus: &mut TracedBus<BusType>,
    ) -> (outcome: StepOutcome)
        requires
            old(self).registers.has_valid_mode(),
            old(self).registers.spec_state() == CpuState::Arm,
        ensures
            final(bus).extends(old(bus)),
            old(self).spec_execute_next_arm(data_of(final(bus).since(old(bus)))) == (Effect {
                cpu: *final(self),
                trace: final(bus).since(old(bus)),
            }),
            outcome == old(self).spec_outcome(data_of(final(bus).since(old(bus)))[0]),
    {
        let execute_opcode = self.pipeline[0];
        proof {
            lemma_read_after_write(self.registers, 15, 0, 15);
        }
        let pc = self.registers.read(PC_IDX) & !1;
        self.registers.write(PC_IDX, pc);
        let fetched_word = bus.read_word(pc, self.next_access);
        self.pipeline[0] = self.pipeline[1];
        self.pipeline[1] = fetched_word;
        let ghost fetch = BusAccess::read_word(pc, self.next_access, fetched_word);
        let ghost middle = bus.log();
        let ghost fetched = *self;
        proof {
            lemma_trace_push(old(bus).log(), Seq::empty(), fetch);
            assert(appended(old(bus).log(), middle) =~= seq![fetch]);
            assert(fetched.pipeline =~= old(self).spec_fetched(fetched_word).pipeline);
        }
        match decode_arm_opcode(execute_opcode) {
            Some(Opcode::Arm(opcode)) => {
                if check_condition(&self.registers, execute_opcode) {
                    self.execute_arm_opcode(opcode, bus);
                    proof {
                        lemma_trace_chain(old(bus).log(), middle, bus.log());
                    }
                    StepOutcome::Executed(Opcode::Arm(opcode))
                } else {
                    let address = self.registers.get_and_incr_pc(4);
                    let again = bus.read_word(address, ACCESS_CODE);
                    self.next_access = ACCESS_CODE | ACCESS_SEQ;
                    proof {
                        let second = BusAccess::read_word(address, ACCESS_CODE, again);
                        lemma_trace_push(old(bus).log(), seq![fetch], second);
                        assert(bus.since(old(bus)) =~= seq![fetch, second]);
                    }
                    StepOutcome::ConditionFailed(Opcode::Arm(opcode))
                }
            },
            Some(Opcode::Thumb) => vstd::pervasive::unreached(),
            None => StepOutcome::Unrecognized(execute_opcode),
        }
    }

    /// Executes a decoded instruction.
    pub fn execute_arm_opcode<BusType: SystemBus>(
        &mut self,
        opcode: DecodedArmOpcode,
        bus: &mut TracedBus<BusType>,
    )
        requires
            old(self).registers.has_valid_mode(),
            old(self).registers.spec_state() == CpuState::Arm,
            opcode.wf(),
        ensures
            final(bus).extends(old(bus)),
            old(self).spec_execute_arm_opcode(opcode, data_of(final(bus).since(old(bus))))
                == (Effect { cpu: *final(self), trace: final(bus).since(old(bus)) }),
    {
        match opcode {
            DecodedArmOpcode::B { offset } => execute_b(self, bus, offset),
            DecodedArmOpcode::BL { offset } => execute_bl(self, bus, offset),
            DecodedArmOpcode::BX { register_idx } => {
                execute_arm_to_thumb_bx(self, bus, register_idx as usize)
            },
            DecodedArmOpcode::DataProcessing { sub_opcode, rd, rn, operand, set_flags } => {
                execute_data_processing(self, bus, sub_opcode, rd, rn, operand, set_flags)
            },
            DecodedArmOpcode::BlockDataTransfer {
                base_register,
                transfer_type,
                pre_increment,
                increment,
                psr_n_force_user,
                write_address_into_base,
                rlist,
            } => execute_block_data_transfer(
                self,
                bus,
                BlockTransfer {
                    base_register,
                    transfer_type,
                    pre_increment,
                    increment,
                    psr_n_force_user,
                    write_address_into_base,
                    rlist,
                },
            ),
        }
    }
}

/// A refill of the pipeline in ARM state makes exactly two reads, at the
/// program counter and one word above it. The first is a non-sequential
/// code fetch, the second a sequential one, whatever access kind was
/// pending. The words read fill the pipeline, the program counter stands
/// two words further, and a sequential code fetch is pending.
pub proof fn lemma_reload_pipeline32(cpu: Arm7Cpu, input: Seq<u32>)
    ensures
        cpu.spec_reload_pipeline32(input).trace.len() == 2,
        cpu.spec_reload_pipeline32(input).trace[0] == BusAccess::read_word(
            cpu.registers.pc(),
            ACCESS_CODE | ACCESS_NONSEQ,
            input[0],
        ),
        cpu.spec_reload_pipeline32(input).trace[1] == BusAccess::read_word(
            cpu.registers.pc().wrapping_add(4),
            ACCESS_CODE | ACCESS_SEQ,
            input[1],
        ),
        is_code(ACCESS_CODE | ACCESS_NONSEQ) && !is_sequential(ACCESS_CODE | ACCESS_NONSEQ),
        is_code(ACCESS_CODE | ACCESS_SEQ) && is_sequential(ACCESS_CODE | ACCESS_SEQ),
        cpu.spec_reload_pipeline32(input).cpu.pipeline[0] == input[0],
        cpu.spec_reload_pipeline32(input).cpu.pipeline[1] == input[1],
        cpu.spec_reload_pipeline32(input).cpu.registers.pc() == low_word(cpu.registers.pc() + 8),
        cpu.spec_reload_pipeline32(input).cpu.next_access == ACCESS_CODE | ACCESS_SEQ,
        cpu.spec_reload_pipeline32(input).cpu.registers.cpsr == cpu.registers.cpsr,
{
    lemma_access_kinds();
}

/// A refill of the pipeline in either state tags its two reads as a
/// non-sequential code fetch and a sequential one, and leaves a
/// sequential code fetch pending.
pub proof fn lemma_reload_pipeline_tags(cpu: Arm7Cpu, input: Seq<u32>)
    ensures
        cpu.spec_reload_pipeline(input).trace.len() == 2,
        cpu.spec_reload_pipeline(input).trace[0].access == ACCESS_CODE | ACCESS_NONSEQ,
        cpu.spec_reload_pipeline(input).trace[1].access == ACCESS_CODE | ACCESS_SEQ,
        cpu.spec_reload_pipeline(input).trace[0].address == cpu.registers.pc(),
        cpu.spec_reload_pipeline(input).cpu.next_access == ACCESS_CODE | ACCESS_SEQ,
{
}

/// Every instruction leaves the pending access kind determined: a
/// sequential code fetch, but after a block data transfer that did not
/// load the program counter a non-sequential one.
pub proof fn lemma_next_access_determined(cpu: Arm7Cpu, opcode: DecodedArmOpcode, input: Seq<u32>)
    ensures
        cpu.spec_execute_arm_opcode(opcode, input).cpu.next_access == match opcode {
            DecodedArmOpcode::BlockDataTransfer { transfer_type, rlist, .. } => if transfer_type
                == TransferType::Load && listed(
                if rlist == 0 {
                    0x8000
                } else {
                    rlist
                },
                15,
            ) {
                ACCESS_CODE | ACCESS_SEQ
            } else {
                ACCESS_CODE | ACCESS_NONSEQ
            },
            _ => ACCESS_CODE | ACCESS_SEQ,
        },
{
}

} // verus!
