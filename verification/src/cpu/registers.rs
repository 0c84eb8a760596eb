//! The register file: the shared bank, the banked registers of the
//! privileged modes, the status words and the condition flags.

use vstd::array::spec_array_update;
use vstd::prelude::*;
use vstd::std_specs::convert::TryFromSpecImpl;

verus! {

/// Index of the program counter.
pub const PC_IDX: usize = 15;

/// Index of the link register.
pub const LR_IDX: usize = 14;

/// Execution state, bit 5 of the status word.
#[derive(Debug, Copy, Clone, Eq, PartialEq, Structural)]
pub enum CpuState {
    Arm,
    Thumb,
}

impl CpuState {
    /// The state as it stands in the status word.
    pub open spec fn spec_bits(self) -> u32 {
        match self {
            CpuState::Arm => 0,
            CpuState::Thumb => 0x20,
        }
    }

    #[verifier::when_used_as_spec(spec_bits)]
    pub fn bits(self) -> (bits: u32)
        ensures
            bits == self.spec_bits(),
    {
        match self {
            CpuState::Arm => 0,
            CpuState::Thumb => 0x20,
        }
    }

    /// The state that `value` encodes, if it encodes one.
    pub open spec fn decode(value: u32) -> Option<CpuState> {
        if value == 0 {
            Some(CpuState::Arm)
        } else if value == 0x20 {
            Some(CpuState::Thumb)
        } else {
            None
        }
    }
}

impl Default for CpuState {
    fn default() -> (state: CpuState)
        ensures
            state == CpuState::Arm,
    {
        CpuState::Arm
    }
}

impl TryFrom<u32> for CpuState {
    type Error = ();

    fn try_from(value: u32) -> (r: Result<CpuState, ()>) {
        if value == 0 {
            Ok(CpuState::Arm)
        } else if value == 0x20 {
            Ok(CpuState::Thumb)
        } else {
            Err(())
        }
    }
}

impl TryFromSpecImpl<u32> for CpuState {
    open spec fn obeys_try_from_spec() -> bool {
        true
    }

    open spec fn try_from_spec(value: u32) -> Result<CpuState, ()> {
        match CpuState::decode(value) {
            Some(state) => Ok(state),
            None => Err(()),
        }
    }
}

/// Processor mode, the low five bits of the status word.
#[derive(Debug, Copy, Clone, Eq, PartialEq, Structural)]
pub enum CpuMode {
    User,
    Fiq,
    Irq,
    Supervisor,
    Abort,
    Undefined,
    System,
}

impl CpuMode {
    /// The mode as it stands in the status word.
    pub open spec fn spec_bits(self) -> u32 {
        match self {
            CpuMode::User => 0b10000,
            CpuMode::Fiq => 0b10001,
            CpuMode::Irq => 0b10010,
            CpuMode::Supervisor => 0b10011,
            CpuMode::Abort => 0b10111,
            CpuMode::Undefined => 0b11011,
            CpuMode::System => 0b11111,
        }
    }

    #[verifier::when_used_as_spec(spec_bits)]
    pub fn bits(self) -> (bits: u32)
        ensures
            bits == self.spec_bits(),
    {
        match self {
            CpuMode::User => 0b10000,
            CpuMode::Fiq => 0b10001,
            CpuMode::Irq => 0b10010,
            CpuMode::Supervisor => 0b10011,
            CpuMode::Abort => 0b10111,
            CpuMode::Undefined => 0b11011,
            CpuMode::System => 0b11111,
        }
    }

    /// The mode that the low five bits of `value` encode, if they encode one.
    pub open spec fn decode(value: u32) -> Option<CpuMode> {
        let bits = value & 0x1F;
        if bits == 0b10000 {
            Some(CpuMode::User)
        } else if bits == 0b10001 {
            Some(CpuMode::Fiq)
        } else if bits == 0b10010 {
            Some(CpuMode::Irq)
        } else if bits == 0b10011 {
            Some(CpuMode::Supervisor)
        } else if bits == 0b10111 {
            Some(CpuMode::Abort)
        } else if bits == 0b11011 {
            Some(CpuMode::Undefined)
        } else if bits == 0b11111 {
            Some(CpuMode::System)
        } else {
            None
        }
    }
}

impl Default for CpuMode {
    fn default() -> (mode: CpuMode)
        ensures
            mode == CpuMode::System,
    {
        CpuMode::System
    }
}

impl TryFrom<u32> for CpuMode {
    type Error = ();

    fn try_from(value: u32) -> (r: Result<CpuMode, ()>) {
        let bits = value & 0x1F;
        if bits == 0b10000 {
            Ok(CpuMode::User)
        } else if bits == 0b10001 {
            Ok(CpuMode::Fiq)
        } else if bits == 0b10010 {
            Ok(CpuMode::Irq)
        } else if bits == 0b10011 {
            Ok(CpuMode::Supervisor)
        } else if bits == 0b10111 {
            Ok(CpuMode::Abort)
        } else if bits == 0b11011 {
            Ok(CpuMode::Undefined)
        } else if bits == 0b11111 {
            Ok(CpuMode::System)
        } else {
            Err(())
        }
    }
}

impl TryFromSpecImpl<u32> for CpuMode {
    open spec fn obeys_try_from_spec() -> bool {
        true
    }

    open spec fn try_from_spec(value: u32) -> Result<CpuMode, ()> {
        match CpuMode::decode(value) {
            Some(mode) => Ok(mode),
            None => Err(()),
        }
    }
}

/// The fields of the status word.
#[derive(Debug, Copy, Clone, Eq, PartialEq, Structural)]
pub enum CondFlag {
    Sign,
    Zero,
    Carry,
    Overflow,
    IrqDisable,
    FiqDisable,
    State,
    ModeMask,
}

impl CondFlag {
    /// The bits of the status word that the field occupies.
    pub open spec fn spec_mask(self) -> u32 {
        match self {
            CondFlag::Sign => 0x8000_0000,
            CondFlag::Zero => 0x4000_0000,
            CondFlag::Carry => 0x2000_0000,
            CondFlag::Overflow => 0x1000_0000,
            CondFlag::IrqDisable => 0x80,
            CondFlag::FiqDisable => 0x40,
            CondFlag::State => 0x20,
            CondFlag::ModeMask => 0x1F,
        }
    }

    #[verifier::when_used_as_spec(spec_mask)]
    pub fn mask(self) -> (mask: u32)
        ensures
            mask == self.spec_mask(),
    {
        match self {
            CondFlag::Sign => 0x8000_0000,
            CondFlag::Zero => 0x4000_0000,
            CondFlag::Carry => 0x2000_0000,
            CondFlag::Overflow => 0x1000_0000,
            CondFlag::IrqDisable => 0x80,
            CondFlag::FiqDisable => 0x40,
            CondFlag::State => 0x20,
            CondFlag::ModeMask => 0x1F,
        }
    }

    /// The field is one of the four condition flags.
    pub open spec fn is_condition(self) -> bool {
        self == CondFlag::Sign || self == CondFlag::Zero || self == CondFlag::Carry || self
            == CondFlag::Overflow
    }
}

/// The status word with `flag` set to `value`.
pub open spec fn status_with_flag(status: u32, flag: CondFlag, value: bool) -> u32 {
    if value {
        status | flag.mask()
    } else {
        status & !flag.mask()
    }
}

/// The status word that holds `mode`, `state` and otherwise the bits of `rest`.
pub open spec fn status_word(rest: u32, mode: CpuMode, state: CpuState) -> u32 {
    (rest & !0x3Fu32) | mode.bits() | state.bits()
}

/// The registers of the processor. The fields are the physical storage;
/// `read` and `write` reach it by register number in the current mode.
#[derive(Debug, Copy, Clone)]
pub struct RegisterFile {
    /// R0 to R15 of the user and system modes. R0 to R7 and R15 are shared
    /// by all modes.
    pub user_bank: [u32; 16],
    /// R8 to R14 of the FIQ mode.
    pub fiq_registers: [u32; 7],
    pub spsr_fiq: u32,
    pub r13_svc: u32,
    pub r14_svc: u32,
    pub spsr_svc: u32,
    pub r13_abt: u32,
    pub r14_abt: u32,
    pub spsr_abt: u32,
    pub r13_irq: u32,
    pub r14_irq: u32,
    pub spsr_irq: u32,
    pub r13_und: u32,
    pub r14_und: u32,
    pub spsr_und: u32,
    pub cpsr: u32,
}

impl Default for RegisterFile {
    /// All registers zero; system mode, ARM state, both interrupts disabled.
    fn default() -> (registers: RegisterFile)
        ensures
            registers.cpsr == 0xDF,
            registers.has_valid_mode(),
            registers.spec_mode() == CpuMode::System,
            registers.spec_state() == CpuState::Arm,
            forall|i: int| 0 <= i < 16 ==> registers.user_bank[i] == 0,
            forall|i: int| 0 <= i < 7 ==> registers.fiq_registers[i] == 0,
            registers.spsr_fiq == 0 && registers.spsr_svc == 0 && registers.spsr_abt == 0
                && registers.spsr_irq == 0 && registers.spsr_und == 0,
            registers.r13_svc == 0 && registers.r14_svc == 0 && registers.r13_abt == 0
                && registers.r14_abt == 0,
            registers.r13_irq == 0 && registers.r14_irq == 0 && registers.r13_und == 0
                && registers.r14_und == 0,
    {
        let cpsr: u32 = (0b11 << 6) | CpuMode::System.bits() | CpuState::Arm.bits();
        proof {
            lemma_status_constants();
        }
        RegisterFile {
            user_bank: [0; 16],
            fiq_registers: [0; 7],
            spsr_fiq: 0,
            r13_svc: 0,
            r14_svc: 0,
            spsr_svc: 0,
            r13_abt: 0,
            r14_abt: 0,
            spsr_abt: 0,
            r13_irq: 0,
            r14_irq: 0,
            spsr_irq: 0,
            r13_und: 0,
            r14_und: 0,
            spsr_und: 0,
            cpsr,
        }
    }
}

impl RegisterFile {
    /// The mode bits of the status word encode a mode.
    pub open spec fn has_valid_mode(self) -> bool {
        CpuMode::decode(self.cpsr) is Some
    }

    /// The current mode; meaningful where `has_valid_mode` holds.
    pub open spec fn spec_mode(self) -> CpuMode {
        CpuMode::decode(self.cpsr).unwrap()
    }

    /// The current execution state.
    pub open spec fn spec_state(self) -> CpuState {
        if self.cpsr & 0x20 == 0 {
            CpuState::Arm
        } else {
            CpuState::Thumb
        }
    }

    /// Whether `flag` has any of its bits set in the status word.
    pub open spec fn spec_flag(&self, flag: CondFlag) -> bool {
        self.cpsr & flag.mask() != 0
    }

    /// The register that `index` names in the current mode: the FIQ mode
    /// has R8 to R14 of its own, the supervisor, abort, IRQ and undefined
    /// modes have R13 and R14 of their own, everything else is shared.
    pub open spec fn reg(self, index: int) -> u32 {
        let mode = self.spec_mode();
        if mode == CpuMode::Fiq && 8 <= index <= 14 {
            self.fiq_registers[index - 8]
        } else if mode == CpuMode::Irq && index == 13 {
            self.r13_irq
        } else if mode == CpuMode::Irq && index == 14 {
            self.r14_irq
        } else if mode == CpuMode::Supervisor && index == 13 {
            self.r13_svc
        } else if mode == CpuMode::Supervisor && index == 14 {
            self.r14_svc
        } else if mode == CpuMode::Abort && index == 13 {
            self.r13_abt
        } else if mode == CpuMode::Abort && index == 14 {
            self.r14_abt
        } else if mode == CpuMode::Undefined && index == 13 {
            self.r13_und
        } else if mode == CpuMode::Undefined && index == 14 {
            self.r14_und
        } else {
            self.user_bank[index]
        }
    }

    /// The register file after `value` went to the register that `index`
    /// names in the current mode. No other storage changes.
    pub open spec fn with_reg(self, index: int, value: u32) -> RegisterFile {
        let mode = self.spec_mode();
        if mode == CpuMode::Fiq && 8 <= index <= 14 {
            RegisterFile {
                fiq_registers: spec_array_update(self.fiq_registers, index - 8, value),
                ..self
            }
        } else if mode == CpuMode::Irq && index == 13 {
            RegisterFile { r13_irq: value, ..self }
        } else if mode == CpuMode::Irq && index == 14 {
            RegisterFile { r14_irq: value, ..self }
        } else if mode == CpuMode::Supervisor && index == 13 {
            RegisterFile { r13_svc: value, ..self }
        } else if mode == CpuMode::Supervisor && index == 14 {
            RegisterFile { r14_svc: value, ..self }
        } else if mode == CpuMode::Abort && index == 13 {
            RegisterFile { r13_abt: value, ..self }
        } else if mode == CpuMode::Abort && index == 14 {
            RegisterFile { r14_abt: value, ..self }
        } else if mode == CpuMode::Undefined && index == 13 {
            RegisterFile { r13_und: value, ..self }
        } else if mode == CpuMode::Undefined && index == 14 {
            RegisterFile { r14_und: value, ..self }
        } else {
            RegisterFile { user_bank: spec_array_update(self.user_bank, index, value), ..self }
        }
    }

    /// `reg` for an index as the instructions carry it.
    pub open spec fn spec_read(self, index: usize) -> u32 {
        self.reg(index as int)
    }

    /// `with_reg` for an index as the instructions carry it.
    pub open spec fn spec_write(self, index: usize, value: u32) -> RegisterFile {
        self.with_reg(index as int, value)
    }

    /// The program counter, whatever the mode.
    pub open spec fn pc(self) -> u32 {
        self.user_bank[15]
    }

    /// The register file with the program counter set to `value`.
    pub open spec fn with_pc(self, value: u32) -> RegisterFile {
        RegisterFile { user_bank: spec_array_update(self.user_bank, 15, value), ..self }
    }

    /// The register file with the status word replaced.
    pub open spec fn with_cpsr(self, cpsr: u32) -> RegisterFile {
        RegisterFile { cpsr, ..self }
    }

    /// The register file with `flag` set to `value` in the status word.
    pub open spec fn with_flag(self, flag: CondFlag, value: bool) -> RegisterFile {
        self.with_cpsr(status_with_flag(self.cpsr, flag, value))
    }

    /// The saved status word of the current mode. The user and system
    /// modes have none: for them it is the current status word.
    pub open spec fn spec_spsr_moded(self) -> u32 {
        match self.spec_mode() {
            CpuMode::User => self.cpsr,
            CpuMode::Fiq => self.spsr_fiq,
            CpuMode::Irq => self.spsr_irq,
            CpuMode::Supervisor => self.spsr_svc,
            CpuMode::Abort => self.spsr_abt,
            CpuMode::Undefined => self.spsr_und,
            CpuMode::System => self.cpsr,
        }
    }

    /// Returns the program counter and then advances it by `by`, wrapping.
    pub fn get_and_incr_pc(&mut self, by: u32) -> (pc: u32)
        ensures
            pc == old(self).pc(),
            *final(self) == old(self).with_pc(pc.wrapping_add(by)),
    {
        let res = self.user_bank[PC_IDX];
        self.user_bank[PC_IDX] = res.wrapping_add(by);
        res
    }

    /// The current execution state.
    pub fn state(&self) -> (state: CpuState)
        ensures
            state == self.spec_state(),
    {
        if self.cpsr & CondFlag::State.mask() == 0 {
            CpuState::Arm
        } else {
            CpuState::Thumb
        }
    }

    /// The current mode, or `None` where the mode bits encode no mode.
    pub fn try_mode(&self) -> (mode: Option<CpuMode>)
        ensures
            mode == CpuMode::decode(self.cpsr),
    {
        proof {
            lemma_mask_written(self.cpsr, 0x1F);
        }
        match CpuMode::try_from(self.cpsr & CondFlag::ModeMask.mask()) {
            Ok(mode) => Some(mode),
            Err(_) => None,
        }
    }

    /// The current mode.
    pub fn mode(&self) -> (mode: CpuMode)
        requires
            self.has_valid_mode(),
        ensures
            mode == self.spec_mode(),
    {
        match self.try_mode() {
            Some(mode) => mode,
            None => vstd::pervasive::unreached(),
        }
    }

    /// The saved status word of the current mode.
    pub fn spsr_moded(&self) -> (spsr: u32)
        requires
            self.has_valid_mode(),
        ensures
            spsr == self.spec_spsr_moded(),
    {
        match self.mode() {
            CpuMode::User => self.cpsr,
            CpuMode::Fiq => self.spsr_fiq,
            CpuMode::Irq => self.spsr_irq,
            CpuMode::Supervisor => self.spsr_svc,
            CpuMode::Abort => self.spsr_abt,
            CpuMode::Undefined => self.spsr_und,
            CpuMode::System => self.cpsr,
        }
    }

    /// Whether `flag` has any of its bits set in the status word.
    #[verifier::when_used_as_spec(spec_flag)]
    pub fn flag(&self, flag: CondFlag) -> (set: bool)
        ensures
            set == self.spec_flag(flag),
    {
        self.cpsr & flag.mask() != 0
    }

    /// The sign flag.
    pub fn sign(&self) -> (set: bool)
        ensures
            set == self.flag(CondFlag::Sign),
    {
        self.cpsr & CondFlag::Sign.mask() != 0
    }

    /// The zero flag.
    pub fn zero(&self) -> (set: bool)
        ensures
            set == self.flag(CondFlag::Zero),
    {
        self.cpsr & CondFlag::Zero.mask() != 0
    }

    /// The carry flag.
    pub fn carry(&self) -> (set: bool)
        ensures
            set == self.flag(CondFlag::Carry),
    {
        self.cpsr & CondFlag::Carry.mask() != 0
    }

    /// The overflow flag.
    pub fn overflow(&self) -> (set: bool)
        ensures
            set == self.flag(CondFlag::Overflow),
    {
        self.cpsr & CondFlag::Overflow.mask() != 0
    }

    /// Sets or clears the bits of `flag` in the status word.
    pub fn update_flag(&mut self, flag: CondFlag, value: bool)
        ensures
            *final(self) == old(self).with_flag(flag, value),
    {
        if value {
            self.cpsr = self.cpsr | flag.mask();
        } else {
            self.cpsr = self.cpsr & !flag.mask();
        }
    }

    /// Reads the register that `index` names in the current mode.
    pub fn read(&self, index: usize) -> (value: u32)
        requires
            index < 16,
            self.has_valid_mode(),
        ensures
            value == self.reg(index as int),
            value == self.spec_read(index),
    {
        match self.mode() {
            CpuMode::User | CpuMode::System => self.user_bank[index],
            CpuMode::Fiq => {
                if 8 <= index && index <= 14 {
                    self.fiq_registers[index - 8]
                } else {
                    self.user_bank[index]
                }
            },
            CpuMode::Irq => {
                if index == 13 {
                    self.r13_irq
                } else if index == 14 {
                    self.r14_irq
                } else {
                    self.user_bank[index]
                }
            },
            CpuMode::Supervisor => {
                if index == 13 {
                    self.r13_svc
                } else if index == 14 {
                    self.r14_svc
                } else {
                    self.user_bank[index]
                }
            },
            CpuMode::Abort => {
                if index == 13 {
                    self.r13_abt
                } else if index == 14 {
                    self.r14_abt
                } else {
                    self.user_bank[index]
                }
            },
            CpuMode::Undefined => {
                if index == 13 {
                    self.r13_und
                } else if index == 14 {
                    self.r14_und
                } else {
                    self.user_bank[index]
                }
            },
        }
    }

    /// Writes the register that `index` names in the current mode.
    pub fn write(&mut self, index: usize, value: u32)
        requires
            index < 16,
            old(self).has_valid_mode(),
        ensures
            *final(self) == old(self).with_reg(index as int, value),
            *final(self) == old(self).spec_write(index, value),
            final(self).cpsr == old(self).cpsr,
    {
        match self.mode() {
            CpuMode::User | CpuMode::System => {
                self.user_bank[index] = value;
            },
            CpuMode::Fiq => {
                if 8 <= index && index <= 14 {
                    self.fiq_registers[index - 8] = value;
                } else {
                    self.user_bank[index] = value;
                }
            },
            CpuMode::Irq => {
                if index == 13 {
                    self.r13_irq = value;
                } else if index == 14 {
                    self.r14_irq = value;
                } else {
                    self.user_bank[index] = value;
                }
            },
            CpuMode::Supervisor => {
                if index == 13 {
                    self.r13_svc = value;
                } else if index == 14 {
                    self.r14_svc = value;
                } else {
                    self.user_bank[index] = value;
                }
            },
            CpuMode::Abort => {
                if index == 13 {
                    self.r13_abt = value;
                } else if index == 14 {
                    self.r14_abt = value;
                } else {
                    self.user_bank[index] = value;
                }
            },
            CpuMode::Undefined => {
                if index == 13 {
                    self.r13_und = value;
                } else if index == 14 {
                    self.r14_und = value;
                } else {
                    self.user_bank[index] = value;
                }
            },
        }
    }
}

/// A register reads what was last written to it, and a write to one
/// register leaves the others, in the mode in which it was made, as they
/// were. The status word, and with it the mode, is untouched.
pub proof fn lemma_read_after_write(registers: RegisterFile, index: int, value: u32, other: int)
    requires
        registers.has_valid_mode(),
        0 <= index < 16,
        0 <= other < 16,
    ensures
        registers.with_reg(index, value).cpsr == registers.cpsr,
        registers.with_reg(index, value).reg(other) == if other == index {
            value
        } else {
            registers.reg(other)
        },
        registers.with_reg(15, value) == registers.with_pc(value),
        registers.reg(15) == registers.pc(),
{
}

/// Facts about the constants of the status word.
pub(crate) proof fn lemma_status_constants()
    by (bit_vector)
    ensures
        (0b11u32 << 6) | 0b11111u32 | 0u32 == 0xDF,
        0xDFu32 & 0x1F == 0b11111,
        0xDFu32 & 0x20 == 0,
        0b10000u32 & !0x1Fu32 == 0,
        0b10001u32 & !0x1Fu32 == 0,
        0b10010u32 & !0x1Fu32 == 0,
        0b10011u32 & !0x1Fu32 == 0,
        0b10111u32 & !0x1Fu32 == 0,
        0b11011u32 & !0x1Fu32 == 0,
        0b11111u32 & !0x1Fu32 == 0,
        0u32 & !0x20u32 == 0,
        0x20u32 & !0x20u32 == 0,
        0x8000_0000u32 & 0x1F == 0 && 0x8000_0000u32 & 0x20 == 0 && 0x8000_0000u32 != 0,
        0x4000_0000u32 & 0x1F == 0 && 0x4000_0000u32 & 0x20 == 0 && 0x4000_0000u32 != 0,
        0x2000_0000u32 & 0x1F == 0 && 0x2000_0000u32 & 0x20 == 0 && 0x2000_0000u32 != 0,
        0x1000_0000u32 & 0x1F == 0 && 0x1000_0000u32 & 0x20 == 0 && 0x1000_0000u32 != 0,
        0x80u32 & 0x1F == 0 && 0x80u32 & 0x20 == 0,
        0x40u32 & 0x1F == 0 && 0x40u32 & 0x20 == 0,
        0x20u32 & 0x1F == 0,
        0x8000_0000u32 & 0x4000_0000u32 == 0 && 0x8000_0000u32 & 0x2000_0000u32 == 0,
        0x8000_0000u32 & 0x1000_0000u32 == 0 && 0x4000_0000u32 & 0x2000_0000u32 == 0,
        0x4000_0000u32 & 0x1000_0000u32 == 0 && 0x2000_0000u32 & 0x1000_0000u32 == 0,
        0x4000_0000u32 & 0x8000_0000u32 == 0 && 0x2000_0000u32 & 0x8000_0000u32 == 0,
        0x1000_0000u32 & 0x8000_0000u32 == 0 && 0x2000_0000u32 & 0x4000_0000u32 == 0,
        0x1000_0000u32 & 0x4000_0000u32 == 0 && 0x1000_0000u32 & 0x2000_0000u32 == 0,
{
}

/// Setting or clearing the bits of `m` leaves the bits of a disjoint `keep`.
proof fn lemma_disjoint_masks(status: u32, m: u32, keep: u32)
    by (bit_vector)
    requires
        m & keep == 0,
    ensures
        (status | m) & keep == status & keep,
        (status & !m) & keep == status & keep,
{
}

/// What a field reads after its bits were set or cleared.
pub(crate) proof fn lemma_mask_written(status: u32, m: u32)
    by (bit_vector)
    ensures
        m != 0 ==> (status | m) & m != 0,
        (status & !m) & m == 0,
        (status & m) & m == status & m,
        (status ^ 0x20) & 0x1F == status & 0x1F,
        (status & 0x20 == 0) == ((status ^ 0x20) & 0x20 != 0),
{
}

/// A word assembled from a mode field, a state field and other bits gives
/// both fields back.
pub(crate) proof fn lemma_fields_assembled(rest: u32, m: u32, s: u32)
    by (bit_vector)
    requires
        m & !0x1Fu32 == 0,
        s & !0x20u32 == 0,
    ensures
        ((rest & !0x3Fu32) | m | s) & 0x1F == m,
        ((rest & !0x3Fu32) | m | s) & 0x20 == s,
        m & 0x1F == m,
        ((rest & !0x1Fu32) | m) & 0x1F == m,
        ((rest & !0x1Fu32) | m) & 0x20 == rest & 0x20,
{
}

/// A status word built from a mode and a state decodes to that mode and
/// that state, whatever its other bits hold.
pub proof fn lemma_status_round_trip(rest: u32, mode: CpuMode, state: CpuState)
    ensures
        CpuMode::decode(status_word(rest, mode, state)) == Some(mode),
        CpuState::decode(status_word(rest, mode, state) & CondFlag::State.mask()) == Some(state),
        CpuMode::decode(mode.bits()) == Some(mode),
        CpuState::decode(state.bits()) == Some(state),
{
    lemma_status_constants();
    lemma_fields_assembled(rest, mode.bits(), state.bits());
}

/// Writing a condition flag, an interrupt mask or the state bit leaves the
/// mode bits as they were; writing anything but the state bit leaves the
/// state.
pub proof fn lemma_flag_keeps_mode(status: u32, flag: CondFlag, value: bool)
    requires
        flag != CondFlag::ModeMask,
    ensures
        CpuMode::decode(status_with_flag(status, flag, value)) == CpuMode::decode(status),
        flag != CondFlag::State ==> status_with_flag(status, flag, value) & 0x20 == status & 0x20,
{
    lemma_status_constants();
    lemma_disjoint_masks(status, flag.mask(), 0x1F);
    if flag != CondFlag::State {
        lemma_disjoint_masks(status, flag.mask(), 0x20);
    }
}

/// After a condition flag is written it reads back as written, and the
/// other three condition flags read as before.
pub proof fn lemma_flag_written(status: u32, flag: CondFlag, value: bool, other: CondFlag)
    requires
        flag.is_condition(),
        other.is_condition(),
    ensures
        (status_with_flag(status, flag, value) & flag.mask() != 0) == value,
        other != flag ==> (status_with_flag(status, flag, value) & other.mask() != 0) == (status
            & other.mask() != 0),
{
    lemma_status_constants();
    lemma_mask_written(status, flag.mask());
    if other != flag {
        lemma_disjoint_masks(status, flag.mask(), other.mask());
    }
}

} // verus!
