//! The instruction set: the decoded forms, the decoder, the condition
//! check, and the executors of the branches and of data processing.

use crate::cpu::alu::{
    bit, do_adc, do_add, do_sbc, do_sub, lemma_shift_bits, low_word, ror, shift, shift_by_immediate,
    spec_add, spec_ror, spec_shift, spec_shift_by_immediate, spec_sub, test_bit,
};
use crate::cpu::registers::{
    lemma_flag_keeps_mode, lemma_flag_written, lemma_mask_written, lemma_read_after_write,
    CondFlag, CpuState, RegisterFile, LR_IDX, PC_IDX,
};
use crate::cpu::{Arm7Cpu, Effect};
use crate::system_bus::{
    data_of, is_code, is_sequential, lemma_access_kinds, lemma_trace_chain,
    lemma_trace_push, BusAccess, SystemBus, TracedBus, ACCESS_CODE, ACCESS_NONSEQ, ACCESS_SEQ,
};
use vstd::prelude::*;

verus! {

/// The condition field, the top four bits of an instruction word.
#[derive(Debug, Clone, Copy, PartialEq, Eq, Structural)]
pub enum Condition {
    Equal,
    NotEqual,
    CarrySet,
    CarryCleared,
    Minus,
    Positive,
    Overflow,
    NoOverflow,
    UnsignedHigher,
    UnsignedLowerOrSame,
    GreaterOrEqual,
    LessThan,
    GreaterThan,
    LessOrEqual,
    Always,
    Never,
}

impl Condition {
    /// The condition that a four-bit code names.
    pub open spec fn spec_from_code(code: u32) -> Condition {
        if code == 0x0 {
            Condition::Equal
        } else if code == 0x1 {
            Condition::NotEqual
        } else if code == 0x2 {
            Condition::CarrySet
        } else if code == 0x3 {
            Condition::CarryCleared
        } else if code == 0x4 {
            Condition::Minus
        } else if code == 0x5 {
            Condition::Positive
        } else if code == 0x6 {
            Condition::Overflow
        } else if code == 0x7 {
            Condition::NoOverflow
        } else if code == 0x8 {
            Condition::UnsignedHigher
        } else if code == 0x9 {
            Condition::UnsignedLowerOrSame
        } else if code == 0xA {
            Condition::GreaterOrEqual
        } else if code == 0xB {
            Condition::LessThan
        } else if code == 0xC {
            Condition::GreaterThan
        } else if code == 0xD {
            Condition::LessOrEqual
        } else if code == 0xE {
            Condition::Always
        } else {
            Condition::Never
        }
    }

    #[verifier::when_used_as_spec(spec_from_code)]
    pub fn from_code(code: u32) -> (condition: Condition)
        ensures
            condition == Condition::spec_from_code(code),
    {
        match code {
            0x0 => Condition::Equal,
            0x1 => Condition::NotEqual,
            0x2 => Condition::CarrySet,
            0x3 => Condition::CarryCleared,
            0x4 => Condition::Minus,
            0x5 => Condition::Positive,
            0x6 => Condition::Overflow,
            0x7 => Condition::NoOverflow,
            0x8 => Condition::UnsignedHigher,
            0x9 => Condition::UnsignedLowerOrSame,
            0xA => Condition::GreaterOrEqual,
            0xB => Condition::LessThan,
            0xC => Condition::GreaterThan,
            0xD => Condition::LessOrEqual,
            0xE => Condition::Always,
            _ => Condition::Never,
        }
    }

    /// Whether the condition holds for the given flags.
    pub open spec fn spec_holds(self, zero: bool, carry: bool, overflow: bool, sign: bool) -> bool {
        match self {
            Condition::Equal => zero,
            Condition::NotEqual => !zero,
            Condition::CarrySet => carry,
            Condition::CarryCleared => !carry,
            Condition::Minus => sign,
            Condition::Positive => !sign,
            Condition::Overflow => overflow,
            Condition::NoOverflow => !overflow,
            Condition::UnsignedHigher => carry && !zero,
            Condition::UnsignedLowerOrSame => !carry || zero,
            Condition::GreaterOrEqual => sign == overflow,
            Condition::LessThan => sign != overflow,
            Condition::GreaterThan => !zero && (sign == overflow),
            Condition::LessOrEqual => zero || (sign != overflow),
            Condition::Always => true,
            Condition::Never => false,
        }
    }

    #[verifier::when_used_as_spec(spec_holds)]
    pub fn holds(self, zero: bool, carry: bool, overflow: bool, sign: bool) -> (holds: bool)
        ensures
            holds == self.spec_holds(zero, carry, overflow, sign),
    {
        match self {
            Condition::Equal => zero,
            Condition::NotEqual => !zero,
            Condition::CarrySet => carry,
            Condition::CarryCleared => !carry,
            Condition::Minus => sign,
            Condition::Positive => !sign,
            Condition::Overflow => overflow,
            Condition::NoOverflow => !overflow,
            Condition::UnsignedHigher => carry && !zero,
            Condition::UnsignedLowerOrSame => !carry || zero,
            Condition::GreaterOrEqual => sign == overflow,
            Condition::LessThan => sign != overflow,
            Condition::GreaterThan => !zero && (sign == overflow),
            Condition::LessOrEqual => zero || (sign != overflow),
            Condition::Always => true,
            Condition::Never => false,
        }
    }
}

/// Whether the condition field of `opcode` holds for the flags of
/// `registers`.
pub open spec fn spec_check_condition(registers: RegisterFile, opcode: u32) -> bool {
    Condition::spec_from_code(opcode >> 28).spec_holds(
        registers.flag(CondFlag::Zero),
        registers.flag(CondFlag::Carry),
        registers.flag(CondFlag::Overflow),
        registers.flag(CondFlag::Sign),
    )
}

/// Whether the instruction word `opcode` is to be executed under the
/// flags of `registers`.
pub fn check_condition(registers: &RegisterFile, opcode: u32) -> (holds: bool)
    ensures
        holds == spec_check_condition(*registers, opcode),
{
    let condition = Condition::from_code(opcode >> 28);
    condition.holds(registers.zero(), registers.carry(), registers.overflow(), registers.sign())
}

/// The operation of a data-processing instruction, bits 24 to 21.
#[derive(Debug, Clone, Copy, PartialEq, Eq, Structural)]
pub enum DataProcessingOpcode {
    AND,
    EOR,
    SUB,
    RSB,
    ADD,
    ADC,
    SBC,
    RSC,
    TST,
    TEQ,
    CMP,
    CMN,
    ORR,
    MOV,
    BIC,
    MVN,
}

impl DataProcessingOpcode {
    /// The operation that a four-bit code names.
    pub open spec fn spec_from_code(code: u32) -> DataProcessingOpcode {
        if code == 0x0 {
            DataProcessingOpcode::AND
        } else if code == 0x1 {
            DataProcessingOpcode::EOR
        } else if code == 0x2 {
            DataProcessingOpcode::SUB
        } else if code == 0x3 {
            DataProcessingOpcode::RSB
        } else if code == 0x4 {
            DataProcessingOpcode::ADD
        } else if code == 0x5 {
            DataProcessingOpcode::ADC
        } else if code == 0x6 {
            DataProcessingOpcode::SBC
        } else if code == 0x7 {
            DataProcessingOpcode::RSC
        } else if code == 0x8 {
            DataProcessingOpcode::TST
        } else if code == 0x9 {
            DataProcessingOpcode::TEQ
        } else if code == 0xA {
            DataProcessingOpcode::CMP
        } else if code == 0xB {
            DataProcessingOpcode::CMN
        } else if code == 0xC {
            DataProcessingOpcode::ORR
        } else if code == 0xD {
            DataProcessingOpcode::MOV
        } else if code == 0xE {
            DataProcessingOpcode::BIC
        } else {
            DataProcessingOpcode::MVN
        }
    }

    #[verifier::when_used_as_spec(spec_from_code)]
    pub fn from_code(code: u32) -> (operation: DataProcessingOpcode)
        ensures
            operation == DataProcessingOpcode::spec_from_code(code),
    {
        match code {
            0x0 => DataProcessingOpcode::AND,
            0x1 => DataProcessingOpcode::EOR,
            0x2 => DataProcessingOpcode::SUB,
            0x3 => DataProcessingOpcode::RSB,
            0x4 => DataProcessingOpcode::ADD,
            0x5 => DataProcessingOpcode::ADC,
            0x6 => DataProcessingOpcode::SBC,
            0x7 => DataProcessingOpcode::RSC,
            0x8 => DataProcessingOpcode::TST,
            0x9 => DataProcessingOpcode::TEQ,
            0xA => DataProcessingOpcode::CMP,
            0xB => DataProcessingOpcode::CMN,
            0xC => DataProcessingOpcode::ORR,
            0xD => DataProcessingOpcode::MOV,
            0xE => DataProcessingOpcode::BIC,
            _ => DataProcessingOpcode::MVN,
        }
    }

    /// The operation only sets flags and writes no register.
    pub open spec fn spec_is_comparison(self) -> bool {
        self == DataProcessingOpcode::TST || self == DataProcessingOpcode::TEQ || self
            == DataProcessingOpcode::CMP || self == DataProcessingOpcode::CMN
    }

    #[verifier::when_used_as_spec(spec_is_comparison)]
    pub fn is_comparison(self) -> (comparison: bool)
        ensures
            comparison == self.spec_is_comparison(),
    {
        match self {
            DataProcessingOpcode::TST
            | DataProcessingOpcode::TEQ
            | DataProcessingOpcode::CMP
            | DataProcessingOpcode::CMN => true,
            _ => false,
        }
    }

    /// The operation is bitwise: its carry comes from the shifter and it
    /// leaves the overflow flag alone.
    pub open spec fn spec_is_logical(self) -> bool {
        self == DataProcessingOpcode::AND || self == DataProcessingOpcode::EOR || self
            == DataProcessingOpcode::TST || self == DataProcessingOpcode::TEQ || self
            == DataProcessingOpcode::ORR || self == DataProcessingOpcode::MOV || self
            == DataProcessingOpcode::BIC || self == DataProcessingOpcode::MVN
    }

    #[verifier::when_used_as_spec(spec_is_logical)]
    pub fn is_logical(self) -> (logical: bool)
        ensures
            logical == self.spec_is_logical(),
    {
        match self {
            DataProcessingOpcode::AND
            | DataProcessingOpcode::EOR
            | DataProcessingOpcode::TST
            | DataProcessingOpcode::TEQ
            | DataProcessingOpcode::ORR
            | DataProcessingOpcode::MOV
            | DataProcessingOpcode::BIC
            | DataProcessingOpcode::MVN => true,
            _ => false,
        }
    }
}

/// The shift that the second operand of a data-processing instruction
/// goes through, bits 6 and 5.
#[derive(Debug, Clone, Copy, PartialEq, Eq, Structural)]
pub enum ShiftType {
    Lsl,
    Lsr,
    Asr,
    Ror,
}

impl ShiftType {
    /// The shift that a two-bit code names.
    pub open spec fn spec_from_code(code: u32) -> ShiftType {
        if code == 0 {
            ShiftType::Lsl
        } else if code == 1 {
            ShiftType::Lsr
        } else if code == 2 {
            ShiftType::Asr
        } else {
            ShiftType::Ror
        }
    }

    #[verifier::when_used_as_spec(spec_from_code)]
    pub fn from_code(code: u32) -> (shift_type: ShiftType)
        ensures
            shift_type == ShiftType::spec_from_code(code),
    {
        match code {
            0 => ShiftType::Lsl,
            1 => ShiftType::Lsr,
            2 => ShiftType::Asr,
            _ => ShiftType::Ror,
        }
    }
}

/// The second operand of a data-processing instruction.
#[derive(Debug, Clone, Copy, PartialEq, Eq, Structural)]
pub enum DataProcessingOperand {
    /// An eight-bit immediate, not rotated.
    Immediate(u32),
    /// An eight-bit immediate rotated right by `shift` places.
    ShiftedImmediate { operand: u32, shift: u32 },
    /// A register shifted by the low byte of another register.
    RegisterShiftedRegister {
        operand_register: usize,
        shift_register: usize,
        shift_type: ShiftType,
    },
    /// A register shifted by an amount of the instruction.
    ImmediateShiftedRegister { operand_register: usize, shift: u32, shift_type: ShiftType },
}

impl DataProcessingOperand {
    /// Register numbers are below 16 and amounts are ones that an
    /// instruction can encode.
    pub open spec fn wf(self) -> bool {
        match self {
            DataProcessingOperand::Immediate(_) => true,
            DataProcessingOperand::ShiftedImmediate { operand, shift } => 1 <= shift <= 32,
            DataProcessingOperand::RegisterShiftedRegister {
                operand_register,
                shift_register,
                shift_type,
            } => operand_register < 16 && shift_register < 16,
            DataProcessingOperand::ImmediateShiftedRegister {
                operand_register,
                shift,
                shift_type,
            } => operand_register < 16 && shift < 32,
        }
    }
}

/// Whether a block transfer loads registers from memory or stores them.
#[derive(Debug, Clone, Copy, PartialEq, Eq, Structural)]
pub enum TransferType {
    Store,
    Load,
}

/// A decoded instruction of the ARM state.
#[derive(Debug, Clone, Copy, PartialEq, Eq, Structural)]
pub enum DecodedArmOpcode {
    /// Branch. The offset is a signed 24-bit number of words.
    B { offset: u32 },
    /// Branch with link. The offset is a signed 24-bit number of words.
    BL { offset: u32 },
    /// Branch to the address in a register, which may change the state.
    BX { register_idx: u8 },
    DataProcessing {
        operand: DataProcessingOperand,
        /// Destination register. With the program counter here the
        /// instruction redirects execution.
        rd: usize,
        /// First operand register.
        rn: usize,
        sub_opcode: DataProcessingOpcode,
        set_flags: bool,
    },
    /// Load or store of the registers named in `rlist`, one bit each.
    BlockDataTransfer {
        base_register: usize,
        transfer_type: TransferType,
        /// The address moves before each transfer, not after it.
        pre_increment: bool,
        /// The addresses lie above the base, not below it.
        increment: bool,
        psr_n_force_user: bool,
        write_address_into_base: bool,
        rlist: u16,
    },
}

impl DecodedArmOpcode {
    /// The fields are in the ranges that an instruction word can encode.
    pub open spec fn wf(self) -> bool {
        match self {
            DecodedArmOpcode::B { offset } => offset <= 0xFF_FFFF,
            DecodedArmOpcode::BL { offset } => offset <= 0xFF_FFFF,
            DecodedArmOpcode::BX { register_idx } => register_idx < 16,
            DecodedArmOpcode::DataProcessing { operand, rd, rn, sub_opcode, set_flags } => rd < 16
                && rn < 16 && operand.wf(),
            DecodedArmOpcode::BlockDataTransfer {
                base_register,
                transfer_type,
                pre_increment,
                increment,
                psr_n_force_user,
                write_address_into_base,
                rlist,
            } => base_register < 16,
        }
    }
}

/// A decoded instruction. The Thumb state has none yet.
#[derive(Debug, Clone, Copy, PartialEq, Eq, Structural)]
pub enum Opcode {
    Arm(DecodedArmOpcode),
    Thumb,
}

/// Branch and branch with link: bits 27 to 25 are `101`, bit 24 asks for
/// the link, the low 24 bits are the offset.
pub open spec fn spec_decode_b_bl(opcode: u32) -> Option<DecodedArmOpcode> {
    if opcode & 0x0E00_0000 != 0x0A00_0000 {
        None
    } else if opcode & 0x0100_0000 == 0 {
        Some(DecodedArmOpcode::B { offset: opcode & 0xFF_FFFF })
    } else {
        Some(DecodedArmOpcode::BL { offset: opcode & 0xFF_FFFF })
    }
}

/// Branch and exchange: bits 27 to 8 and bit 4 are fixed, the low four
/// bits name the register.
pub open spec fn spec_decode_bx(opcode: u32) -> Option<DecodedArmOpcode> {
    if opcode & 0x0FFF_FF10 != 0x012F_FF10 {
        None
    } else {
        Some(DecodedArmOpcode::BX { register_idx: (opcode & 0xF) as u8 })
    }
}

/// The second operand of a data-processing instruction: with bit 25 an
/// eight-bit immediate and twice the rotation of bits 11 to 8; without it
/// a register, shifted by a register where bit 4 is set (bit 7 must then
/// be clear) and by the amount of bits 11 to 7 otherwise.
pub open spec fn spec_decode_operand(opcode: u32) -> Option<DataProcessingOperand> {
    if opcode & 0x0200_0000 != 0 {
        let shift = (opcode & 0xF00) >> 7;
        if shift != 0 {
            Some(DataProcessingOperand::ShiftedImmediate { operand: opcode & 0xFF, shift })
        } else {
            Some(DataProcessingOperand::Immediate(opcode & 0xFF))
        }
    } else if opcode & 0x10 != 0 {
        if opcode & 0x80 != 0 {
            None
        } else {
            Some(
                DataProcessingOperand::RegisterShiftedRegister {
                    operand_register: (opcode & 0xF) as usize,
                    shift_register: ((opcode & 0xF00) >> 8) as usize,
                    shift_type: ShiftType::spec_from_code((opcode & 0x60) >> 5),
                },
            )
        }
    } else {
        Some(
            DataProcessingOperand::ImmediateShiftedRegister {
                operand_register: (opcode & 0xF) as usize,
                shift: (opcode & 0xF80) >> 7,
                shift_type: ShiftType::spec_from_code((opcode & 0x60) >> 5),
            },
        )
    }
}

/// Data processing: bits 27 and 26 are clear. The four operations that
/// only set flags must have bit 20 set and a destination field of zero or
/// fifteen; the two moves must have a first operand field of zero.
pub open spec fn spec_decode_data_processing(opcode: u32) -> Option<DecodedArmOpcode> {
    let code = (opcode & 0x01E0_0000) >> 21;
    let set_flags = opcode & 0x0010_0000 != 0;
    let rn = (opcode & 0x000F_0000) >> 16;
    let rd = (opcode & 0x0000_F000) >> 12;
    let only_flags = 0x8 <= code <= 0xB;
    if opcode & 0x0C00_0000 != 0 {
        None
    } else if only_flags && !set_flags {
        None
    } else if (code == 0xD || code == 0xF) && rn != 0 {
        None
    } else if only_flags && rd != 0 && rd != 15 {
        None
    } else {
        match spec_decode_operand(opcode) {
            None => None,
            Some(operand) => Some(
                DecodedArmOpcode::DataProcessing {
                    operand,
                    rd: rd as usize,
                    rn: rn as usize,
                    sub_opcode: DataProcessingOpcode::spec_from_code(code),
                    set_flags,
                },
            ),
        }
    }
}

/// Block data transfer: bits 27 to 25 are `100`; bits 24 to 20 select
/// indexing before the transfer, upward direction, the status or
/// user-bank form, write-back and load; bits 19 to 16 name the base
/// register and the low 16 bits the registers to transfer.
pub open spec fn spec_decode_block_data_transfer(opcode: u32) -> Option<DecodedArmOpcode> {
    if opcode & 0x0E00_0000 != 0x0800_0000 {
        None
    } else {
        Some(
            DecodedArmOpcode::BlockDataTransfer {
                base_register: ((opcode & 0x000F_0000) >> 16) as usize,
                transfer_type: if opcode & 0x0010_0000 != 0 {
                    TransferType::Load
                } else {
                    TransferType::Store
                },
                pre_increment: opcode & 0x0100_0000 != 0,
                increment: opcode & 0x0080_0000 != 0,
                psr_n_force_user: opcode & 0x0040_0000 != 0,
                write_address_into_base: opcode & 0x0020_0000 != 0,
                rlist: (opcode & 0xFFFF) as u16,
            },
        )
    }
}

/// The instruction that a word encodes, if it encodes one: the first of
/// the four forms that recognises the word.
pub open spec fn spec_decode_arm_opcode(opcode: u32) -> Option<Opcode> {
    if let Some(decoded) = spec_decode_b_bl(opcode) {
        Some(Opcode::Arm(decoded))
    } else if let Some(decoded) = spec_decode_bx(opcode) {
        Some(Opcode::Arm(decoded))
    } else if let Some(decoded) = spec_decode_data_processing(opcode) {
        Some(Opcode::Arm(decoded))
    } else if let Some(decoded) = spec_decode_block_data_transfer(opcode) {
        Some(Opcode::Arm(decoded))
    } else {
        None
    }
}

/// The fields of an instruction word stay within their widths.
proof fn lemma_field_ranges(opcode: u32)
    by (bit_vector)
    ensures
        opcode & 0xFF_FFFF <= 0xFF_FFFF,
        opcode & 0xF < 16,
        (opcode & 0x000F_0000) >> 16 < 16,
        (opcode & 0x0000_F000) >> 12 < 16,
        (opcode & 0xF00) >> 8 < 16,
        (opcode & 0xF00) >> 7 < 32,
        (opcode & 0xF80) >> 7 < 32,
        (opcode & 0x60) >> 5 < 4,
        (opcode & 0x01E0_0000) >> 21 < 16,
        opcode & 0xFFFF <= 0xFFFF,
        opcode >> 28 < 16,
{
}

/// The fixed bits of the four forms contradict each other.
proof fn lemma_patterns_disjoint(opcode: u32)
    by (bit_vector)
    ensures
        opcode & 0x0E00_0000 == 0x0A00_0000 ==> opcode & 0x0FFF_FF10 != 0x012F_FF10 && opcode
            & 0x0C00_0000 != 0 && opcode & 0x0E00_0000 != 0x0800_0000,
        opcode & 0x0E00_0000 == 0x0800_0000 ==> opcode & 0x0FFF_FF10 != 0x012F_FF10 && opcode
            & 0x0C00_0000 != 0,
        opcode & 0x0FFF_FF10 == 0x012F_FF10 ==> (opcode & 0x01E0_0000) >> 21 == 0x9 && opcode
            & 0x0010_0000 == 0,
{
}

/// Decodes a branch or a branch with link.
pub fn try_decode_b_bl(opcode: u32) -> (decoded: Option<DecodedArmOpcode>)
    ensures
        decoded == spec_decode_b_bl(opcode),
{
    if opcode & 0x0E00_0000 != 0x0A00_0000 {
        return None;
    }
    if opcode & 0x0100_0000 == 0 {
        Some(DecodedArmOpcode::B { offset: opcode & 0xFF_FFFF })
    } else {
        Some(DecodedArmOpcode::BL { offset: opcode & 0xFF_FFFF })
    }
}

/// Decodes a branch and exchange.
pub fn try_decode_bx(opcode: u32) -> (decoded: Option<DecodedArmOpcode>)
    ensures
        decoded == spec_decode_bx(opcode),
{
    if opcode & 0x0FFF_FF10 != 0x012F_FF10 {
        return None;
    }
    proof {
        lemma_field_ranges(opcode);
    }
    Some(DecodedArmOpcode::BX { register_idx: (opcode & 0xF) as u8 })
}

/// Decodes the second operand of a data-processing instruction.
pub fn try_decode_operand(opcode: u32) -> (decoded: Option<DataProcessingOperand>)
    ensures
        decoded == spec_decode_operand(opcode),
{
    let is_immediate = opcode & 0x0200_0000 != 0;
    if is_immediate {
        let nn = opcode & 0xFF;
        let shift = (opcode & 0xF00) >> 7;
        if shift != 0 {
            Some(DataProcessingOperand::ShiftedImmediate { operand: nn, shift })
        } else {
            Some(DataProcessingOperand::Immediate(nn))
        }
    } else {
        let shift_by_register = (opcode & 0x10) != 0;
        if shift_by_register && (opcode & 0x80 != 0) {
            return None;
        }
        let operand_register = (opcode & 0xF) as usize;
        let shift_type = ShiftType::from_code((opcode & 0x60) >> 5);
        if shift_by_register {
            let shift_register = ((opcode & 0xF00) >> 8) as usize;
            Some(
                DataProcessingOperand::RegisterShiftedRegister {
                    operand_register,
                    shift_register,
                    shift_type,
                },
            )
        } else {
            Some(
                DataProcessingOperand::ImmediateShiftedRegister {
                    operand_register,
                    shift: (opcode & 0xF80) >> 7,
                    shift_type,
                },
            )
        }
    }
}

/// Decodes a data-processing instruction.
pub fn try_decode_data_processing(opcode: u32) -> (decoded: Option<DecodedArmOpcode>)
    ensures
        decoded == spec_decode_data_processing(opcode),
{
    if opcode & 0x0C00_0000 != 0 {
        return None;
    }
    let sub_opcode = (opcode & 0x01E0_0000) >> 21;
    let only_flags = 0x8 <= sub_opcode && sub_opcode <= 0xB;
    let set_flags = opcode & 0x0010_0000 != 0;
    if only_flags && !set_flags {
        return None;
    }
    let rn = (opcode & 0x000F_0000) >> 16;
    if (sub_opcode == 0xD || sub_opcode == 0xF) && rn != 0 {
        return None;
    }
    let rd = (opcode & 0x0000_F000) >> 12;
    if only_flags && rd != 0 && rd != 15 {
        return None;
    }
    let sub_opcode = DataProcessingOpcode::from_code(sub_opcode);
    match try_decode_operand(opcode) {
        None => None,
        Some(operand) => Some(
            DecodedArmOpcode::DataProcessing {
                operand,
                rd: rd as usize,
                rn: rn as usize,
                sub_opcode,
                set_flags,
            },
        ),
    }
}

/// Decodes a block data transfer.
pub fn try_decode_block_data_transfer(opcode: u32) -> (decoded: Option<DecodedArmOpcode>)
    ensures
        decoded == spec_decode_block_data_transfer(opcode),
{
    if opcode & 0x0E00_0000 != 0x0800_0000 {
        return None;
    }
    proof {
        lemma_field_ranges(opcode);
    }
    Some(
        DecodedArmOpcode::BlockDataTransfer {
            base_register: ((opcode & 0x000F_0000) >> 16) as usize,
            transfer_type: if opcode & 0x0010_0000 != 0 {
                TransferType::Load
            } else {
                TransferType::Store
            },
            pre_increment: opcode & 0x0100_0000 != 0,
            increment: opcode & 0x0080_0000 != 0,
            psr_n_force_user: opcode & 0x0040_0000 != 0,
            write_address_into_base: opcode & 0x0020_0000 != 0,
            rlist: (opcode & 0xFFFF) as u16,
        },
    )
}

/// Decodes an instruction word. Nothing but the word is looked at.
pub fn decode_arm_opcode(opcode: u32) -> (decoded: Option<Opcode>)
    ensures
        decoded == spec_decode_arm_opcode(opcode),
        decoded matches Some(Opcode::Arm(instruction)) ==> instruction.wf(),
        decoded != Some(Opcode::Thumb),
{
    proof {
        lemma_decoded_wf(opcode);
    }
    if let Some(decoded_opcode) = try_decode_b_bl(opcode) {
        return Some(Opcode::Arm(decoded_opcode));
    }
    if let Some(decoded_opcode) = try_decode_bx(opcode) {
        return Some(Opcode::Arm(decoded_opcode));
    }
    if let Some(decoded_opcode) = try_decode_data_processing(opcode) {
        return Some(Opcode::Arm(decoded_opcode));
    }
    if let Some(decoded_opcode) = try_decode_block_data_transfer(opcode) {
        return Some(Opcode::Arm(decoded_opcode));
    }
    None
}

/// Every decoded instruction has its fields in range.
pub proof fn lemma_decoded_wf(opcode: u32)
    ensures
        spec_decode_b_bl(opcode) matches Some(instruction) ==> instruction.wf(),
        spec_decode_bx(opcode) matches Some(instruction) ==> instruction.wf(),
        spec_decode_data_processing(opcode) matches Some(instruction) ==> instruction.wf(),
        spec_decode_block_data_transfer(opcode) matches Some(instruction) ==> instruction.wf(),
        spec_decode_arm_opcode(opcode) matches Some(Opcode::Arm(instruction)) ==> instruction.wf(),
        spec_decode_arm_opcode(opcode) != Some(Opcode::Thumb),
{
    lemma_field_ranges(opcode);
}

/// The four instruction forms exclude each other: a word that one of them
/// recognises is recognised by no other, so the order in which the decoder
/// tries them does not matter.
pub proof fn lemma_forms_exclusive(opcode: u32)
    ensures
        spec_decode_b_bl(opcode) is Some ==> spec_decode_bx(opcode) is None
            && spec_decode_data_processing(opcode) is None && spec_decode_block_data_transfer(
            opcode,
        ) is None,
        spec_decode_bx(opcode) is Some ==> spec_decode_data_processing(opcode) is None
            && spec_decode_block_data_transfer(opcode) is None,
        spec_decode_data_processing(opcode) is Some ==> spec_decode_block_data_transfer(opcode)
            is None,
{
    lemma_patterns_disjoint(opcode);
}

/// The distance in bytes that a branch with the given 24-bit offset
/// covers: the offset read as a signed number of words.
pub open spec fn branch_displacement(offset: u32) -> int {
    if offset >= 0x80_0000 {
        (offset - 0x100_0000) * 4
    } else {
        offset * 4
    }
}

/// Where a branch taken at `pc` leads.
pub open spec fn spec_branch_target(pc: u32, offset: u32) -> u32 {
    low_word(pc + branch_displacement(offset))
}

/// Branch: the program counter moves by the displacement and the
/// pipeline is refilled from there, after which the next access is a
/// sequential code fetch.
pub open spec fn spec_execute_b(cpu: Arm7Cpu, offset: u32, input: Seq<u32>) -> Effect {
    let target = spec_branch_target(cpu.registers.pc(), offset);
    cpu.with_registers(cpu.registers.with_pc(target)).spec_reload_pipeline(input)
}

/// Branch with link: a branch, after which the link register holds the
/// program counter as it was before the branch, less one word.
pub open spec fn spec_execute_bl(cpu: Arm7Cpu, offset: u32, input: Seq<u32>) -> Effect {
    let link = cpu.registers.pc().wrapping_sub(4);
    let branched = spec_execute_b(cpu, offset, input);
    Effect {
        cpu: branched.cpu.with_registers(branched.cpu.registers.with_reg(14, link)),
        trace: branched.trace,
    }
}

/// Branch and exchange: the target is the content of the register; a set
/// low bit is cleared from it and inverts the state. The pipeline is
/// refilled, starting with a non-sequential code fetch, in the width of
/// the state that then holds.
pub open spec fn spec_execute_arm_to_thumb_bx(
    cpu: Arm7Cpu,
    register_idx: usize,
    input: Seq<u32>,
) -> Effect {
    let destination = cpu.registers.reg(register_idx as int);
    let exchanged = if destination & 1 == 1 {
        cpu.spec_toggle_cpu_state()
    } else {
        cpu
    };
    let target = if destination & 1 == 1 {
        destination & !1u32
    } else {
        destination
    };
    exchanged.with_registers(exchanged.registers.with_pc(target)).spec_reload_pipeline(input)
}

/// A branch in ARM state taken at program counter `P` with offset `O`
/// leads to `P` plus four times the signed `O`. The pipeline is refilled
/// with exactly two reads, at the target and one word above it, the first
/// a non-sequential code fetch and the second a sequential one, whatever
/// access kind was pending. The program counter then stands two words
/// above the target and a sequential code fetch is pending.
pub proof fn lemma_branch(cpu: Arm7Cpu, offset: u32, input: Seq<u32>)
    requires
        cpu.registers.spec_state() == CpuState::Arm,
    ensures
        ({
            let target = spec_branch_target(cpu.registers.pc(), offset);
            let after = spec_execute_b(cpu, offset, input);
            &&& target == low_word(cpu.registers.pc() + branch_displacement(offset))
            &&& after.trace =~= seq![
                BusAccess::read_word(target, ACCESS_CODE | ACCESS_NONSEQ, input[0]),
                BusAccess::read_word(low_word(target + 4), ACCESS_CODE | ACCESS_SEQ, input[1]),
            ]
            &&& is_code(ACCESS_CODE | ACCESS_NONSEQ) && !is_sequential(ACCESS_CODE | ACCESS_NONSEQ)
            &&& is_code(ACCESS_CODE | ACCESS_SEQ) && is_sequential(ACCESS_CODE | ACCESS_SEQ)
            &&& after.cpu.registers.pc() == low_word(target + 8)
            &&& after.cpu.pipeline[0] == input[0] && after.cpu.pipeline[1] == input[1]
            &&& after.cpu.next_access == ACCESS_CODE | ACCESS_SEQ
        }),
{
    lemma_access_kinds();
}

/// A branch with link leaves in the link register the program counter as
/// it was before the branch, less one word.
pub proof fn lemma_branch_link(cpu: Arm7Cpu, offset: u32, input: Seq<u32>)
    requires
        cpu.registers.has_valid_mode(),
    ensures
        spec_execute_bl(cpu, offset, input).cpu.registers.reg(14) == low_word(
            cpu.registers.pc() - 4,
        ),
        spec_execute_bl(cpu, offset, input).trace == spec_execute_b(cpu, offset, input).trace,
{
    let branched = spec_execute_b(cpu, offset, input);
    lemma_read_after_write(branched.cpu.registers, 14, cpu.registers.pc().wrapping_sub(4), 14);
}

/// A branch and exchange refills the pipeline with a non-sequential code
/// fetch at the target followed by a sequential one. A target with its low
/// bit set leaves the processor in Thumb state, any other in ARM state.
pub proof fn lemma_exchange(cpu: Arm7Cpu, register_idx: usize, input: Seq<u32>)
    requires
        cpu.registers.spec_state() == CpuState::Arm,
    ensures
        ({
            let after = spec_execute_arm_to_thumb_bx(cpu, register_idx, input);
            let target = cpu.registers.spec_read(register_idx);
            &&& after.trace.len() == 2
            &&& after.trace[0].access == ACCESS_CODE | ACCESS_NONSEQ
            &&& after.trace[1].access == ACCESS_CODE | ACCESS_SEQ
            &&& is_code(after.trace[0].access) && !is_sequential(after.trace[0].access)
            &&& is_code(after.trace[1].access) && is_sequential(after.trace[1].access)
            &&& after.trace[0].address == if target & 1 == 1 {
                target & !1u32
            } else {
                target
            }
            &&& after.cpu.registers.spec_state() == if target & 1 == 1 {
                CpuState::Thumb
            } else {
                CpuState::Arm
            }
        }),
{
    lemma_access_kinds();
    lemma_mask_written(cpu.registers.cpsr, 0);
}

/// Setting the top byte of a 24-bit offset adds it.
pub(crate) proof fn lemma_sign_extension(offset: u32)
    by (bit_vector)
    requires
        offset <= 0xFF_FFFF,
    ensures
        (offset & 0x80_0000 != 0) == (offset >= 0x80_0000),
        offset | 0xFF00_0000 == offset + 0xFF00_0000,
{
}

/// Executes a branch.
pub fn execute_b<BusType: SystemBus>(cpu: &mut Arm7Cpu, bus: &mut TracedBus<BusType>, offset: u32)
    requires
        old(cpu).registers.has_valid_mode(),
        offset <= 0xFF_FFFF,
    ensures
        final(bus).extends(old(bus)),
        spec_execute_b(*old(cpu), offset, data_of(final(bus).since(old(bus)))) == (Effect {
            cpu: *final(cpu),
            trace: final(bus).since(old(bus)),
        }),
        final(bus).since(old(bus)).len() == 2,
        final(bus).since(old(bus))[0].access == ACCESS_CODE | ACCESS_NONSEQ,
        final(bus).since(old(bus))[1].access == ACCESS_CODE | ACCESS_SEQ,
        final(cpu).next_access == ACCESS_CODE | ACCESS_SEQ,
        final(cpu).registers.cpsr == old(cpu).registers.cpsr,
{
    let mut extended = offset;
    if offset & 0x80_0000 != 0 {
        extended = offset | 0xFF00_0000;
    }
    proof {
        lemma_sign_extension(offset);
        lemma_read_after_write(cpu.registers, 15, 0, 15);
    }
    let destination = cpu.registers.read(PC_IDX).wrapping_add(extended.wrapping_mul(4));
    cpu.registers.write(PC_IDX, destination);
    cpu.reload_pipeline(bus);
}

/// Executes a branch with link.
pub fn execute_bl<BusType: SystemBus>(cpu: &mut Arm7Cpu, bus: &mut TracedBus<BusType>, offset: u32)
    requires
        old(cpu).registers.has_valid_mode(),
        offset <= 0xFF_FFFF,
    ensures
        final(bus).extends(old(bus)),
        spec_execute_bl(*old(cpu), offset, data_of(final(bus).since(old(bus)))) == (Effect {
            cpu: *final(cpu),
            trace: final(bus).since(old(bus)),
        }),
        final(cpu).registers.reg(14) == old(cpu).registers.pc().wrapping_sub(4),
{
    proof {
        lemma_read_after_write(cpu.registers, 15, 0, 15);
    }
    let link = cpu.registers.read(PC_IDX).wrapping_sub(4);
    execute_b(cpu, bus, offset);
    proof {
        lemma_read_after_write(cpu.registers, 14, link, 14);
    }
    cpu.registers.write(LR_IDX, link);
}

/// Executes a branch and exchange.
pub fn execute_arm_to_thumb_bx<BusType: SystemBus>(
    cpu: &mut Arm7Cpu,
    bus: &mut TracedBus<BusType>,
    register_idx: usize,
)
    requires
        old(cpu).registers.has_valid_mode(),
        old(cpu).registers.spec_state() == CpuState::Arm,
        register_idx < 16,
    ensures
        final(bus).extends(old(bus)),
        spec_execute_arm_to_thumb_bx(*old(cpu), register_idx, data_of(final(bus).since(old(bus))))
            == (Effect { cpu: *final(cpu), trace: final(bus).since(old(bus)) }),
{
    let mut destination = cpu.registers.read(register_idx);
    if destination & 1 == 1 {
        destination &= !1;
        cpu.toggle_cpu_state();
    }
    proof {
        lemma_read_after_write(cpu.registers, 15, destination, 15);
    }
    cpu.registers.write(PC_IDX, destination);
    cpu.reload_pipeline(bus);
}

/// What each operation computes from its two operands and the carry flag:
/// the result, the carry and the overflow. The bitwise operations have no
/// carry or overflow of their own and give `false` for both.
pub open spec fn spec_alu(operation: DataProcessingOpcode, a: u32, b: u32, carry: bool) -> (
    u32,
    bool,
    bool,
) {
    match operation {
        DataProcessingOpcode::AND => (a & b, false, false),
        DataProcessingOpcode::EOR => (a ^ b, false, false),
        DataProcessingOpcode::SUB => spec_sub(a, b, true),
        DataProcessingOpcode::RSB => spec_sub(b, a, true),
        DataProcessingOpcode::ADD => spec_add(a, b, false),
        DataProcessingOpcode::ADC => spec_add(a, b, carry),
        DataProcessingOpcode::SBC => spec_sub(a, b, carry),
        DataProcessingOpcode::RSC => spec_sub(b, a, carry),
        DataProcessingOpcode::TST => (a & b, false, false),
        DataProcessingOpcode::TEQ => (a ^ b, false, false),
        DataProcessingOpcode::CMP => spec_sub(a, b, true),
        DataProcessingOpcode::CMN => spec_add(a, b, false),
        DataProcessingOpcode::ORR => (a | b, false, false),
        DataProcessingOpcode::MOV => (b, false, false),
        DataProcessingOpcode::BIC => (a & !b, false, false),
        DataProcessingOpcode::MVN => (!b, false, false),
    }
}

/// One operation on the processor: the first operand is read from `rn`,
/// and the result goes to `rd` unless the operation only sets flags.
pub open spec fn spec_execute_alu(
    cpu: Arm7Cpu,
    operation: DataProcessingOpcode,
    rd: usize,
    rn: usize,
    operand: u32,
) -> (Arm7Cpu, (u32, bool, bool)) {
    let result = spec_alu(
        operation,
        cpu.registers.spec_read(rn),
        operand,
        cpu.registers.flag(CondFlag::Carry),
    );
    if operation.spec_is_comparison() {
        (cpu, result)
    } else {
        (cpu.with_registers(cpu.registers.spec_write(rd, result.0)), result)
    }
}

/// `rd := rn AND operand`.
pub fn execute_and(cpu: &mut Arm7Cpu, rd: usize, rn: usize, operand: u32) -> (result: (
    u32,
    bool,
    bool,
))
    requires
        old(cpu).registers.has_valid_mode(),
        rd < 16,
        rn < 16,
    ensures
        (*final(cpu), result) == spec_execute_alu(
            *old(cpu),
            DataProcessingOpcode::AND,
            rd,
            rn,
            operand,
        ),
{
    let result = cpu.registers.read(rn) & operand;
    cpu.registers.write(rd, result);
    (result, false, false)
}

/// `rd := rn XOR operand`.
pub fn execute_eor(cpu: &mut Arm7Cpu, rd: usize, rn: usize, operand: u32) -> (result: (
    u32,
    bool,
    bool,
))
    requires
        old(cpu).registers.has_valid_mode(),
        rd < 16,
        rn < 16,
    ensures
        (*final(cpu), result) == spec_execute_alu(
            *old(cpu),
            DataProcessingOpcode::EOR,
            rd,
            rn,
            operand,
        ),
{
    let result = cpu.registers.read(rn) ^ operand;
    cpu.registers.write(rd, result);
    (result, false, false)
}

/// `rd := rn - operand`.
pub fn execute_sub(cpu: &mut Arm7Cpu, rd: usize, rn: usize, operand: u32) -> (result: (
    u32,
    bool,
    bool,
))
    requires
        old(cpu).registers.has_valid_mode(),
        rd < 16,
        rn < 16,
    ensures
        (*final(cpu), result) == spec_execute_alu(
            *old(cpu),
            DataProcessingOpcode::SUB,
            rd,
            rn,
            operand,
        ),
{
    let result = do_sub(cpu.registers.read(rn), operand);
    cpu.registers.write(rd, result.0);
    result
}

/// `rd := operand - rn`.
pub fn execute_rsb(cpu: &mut Arm7Cpu, rd: usize, rn: usize, operand: u32) -> (result: (
    u32,
    bool,
    bool,
))
    requires
        old(cpu).registers.has_valid_mode(),
        rd < 16,
        rn < 16,
    ensures
        (*final(cpu), result) == spec_execute_alu(
            *old(cpu),
            DataProcessingOpcode::RSB,
            rd,
            rn,
            operand,
        ),
{
    let result = do_sub(operand, cpu.registers.read(rn));
    cpu.registers.write(rd, result.0);
    result
}

/// `rd := rn + operand`.
pub fn execute_add(cpu: &mut Arm7Cpu, rd: usize, rn: usize, operand: u32) -> (result: (
    u32,
    bool,
    bool,
))
    requires
        old(cpu).registers.has_valid_mode(),
        rd < 16,
        rn < 16,
    ensures
        (*final(cpu), result) == spec_execute_alu(
            *old(cpu),
            DataProcessingOpcode::ADD,
            rd,
            rn,
            operand,
        ),
{
    let result = do_add(cpu.registers.read(rn), operand);
    cpu.registers.write(rd, result.0);
    result
}

/// `rd := rn + operand + carry`.
pub fn execute_adc(cpu: &mut Arm7Cpu, rd: usize, rn: usize, operand: u32) -> (result: (
    u32,
    bool,
    bool,
))
    requires
        old(cpu).registers.has_valid_mode(),
        rd < 16,
        rn < 16,
    ensures
        (*final(cpu), result) == spec_execute_alu(
            *old(cpu),
            DataProcessingOpcode::ADC,
            rd,
            rn,
            operand,
        ),
{
    let result = do_adc(cpu.registers.read(rn), operand, cpu.registers.carry());
    cpu.registers.write(rd, result.0);
    result
}

/// `rd := rn - operand - 1 + carry`.
pub fn execute_sbc(cpu: &mut Arm7Cpu, rd: usize, rn: usize, operand: u32) -> (result: (
    u32,
    bool,
    bool,
))
    requires
        old(cpu).registers.has_valid_mode(),
        rd < 16,
        rn < 16,
    ensures
        (*final(cpu), result) == spec_execute_alu(
            *old(cpu),
            DataProcessingOpcode::SBC,
            rd,
            rn,
            operand,
        ),
{
    let result = do_sbc(cpu.registers.read(rn), operand, cpu.registers.carry());
    cpu.registers.write(rd, result.0);
    result
}

/// `rd := operand - rn - 1 + carry`.
pub fn execute_rsc(cpu: &mut Arm7Cpu, rd: usize, rn: usize, operand: u32) -> (result: (
    u32,
    bool,
    bool,
))
    requires
        old(cpu).registers.has_valid_mode(),
        rd < 16,
        rn < 16,
    ensures
        (*final(cpu), result) == spec_execute_alu(
            *old(cpu),
            DataProcessingOpcode::RSC,
            rd,
            rn,
            operand,
        ),
{
    let result = do_sbc(operand, cpu.registers.read(rn), cpu.registers.carry());
    cpu.registers.write(rd, result.0);
    result
}

/// `rn AND operand`, for the flags only.
pub fn execute_tst(cpu: &mut Arm7Cpu, rd: usize, rn: usize, operand: u32) -> (result: (
    u32,
    bool,
    bool,
))
    requires
        old(cpu).registers.has_valid_mode(),
        rd < 16,
        rn < 16,
    ensures
        (*final(cpu), result) == spec_execute_alu(
            *old(cpu),
            DataProcessingOpcode::TST,
            rd,
            rn,
            operand,
        ),
{
    (cpu.registers.read(rn) & operand, false, false)
}

/// `rn XOR operand`, for the flags only.
pub fn execute_teq(cpu: &mut Arm7Cpu, rd: usize, rn: usize, operand: u32) -> (result: (
    u32,
    bool,
    bool,
))
    requires
        old(cpu).registers.has_valid_mode(),
        rd < 16,
        rn < 16,
    ensures
        (*final(cpu), result) == spec_execute_alu(
            *old(cpu),
            DataProcessingOpcode::TEQ,
            rd,
            rn,
            operand,
        ),
{
    (cpu.registers.read(rn) ^ operand, false, false)
}

/// `rn - operand`, for the flags only.
pub fn execute_cmp(cpu: &mut Arm7Cpu, rd: usize, rn: usize, operand: u32) -> (result: (
    u32,
    bool,
    bool,
))
    requires
        old(cpu).registers.has_valid_mode(),
        rd < 16,
        rn < 16,
    ensures
        (*final(cpu), result) == spec_execute_alu(
            *old(cpu),
            DataProcessingOpcode::CMP,
            rd,
            rn,
            operand,
        ),
{
    do_sub(cpu.registers.read(rn), operand)
}

/// `rn + operand`, for the flags only.
pub fn execute_cmn(cpu: &mut Arm7Cpu, rd: usize, rn: usize, operand: u32) -> (result: (
    u32,
    bool,
    bool,
))
    requires
        old(cpu).registers.has_valid_mode(),
        rd < 16,
        rn < 16,
    ensures
        (*final(cpu), result) == spec_execute_alu(
            *old(cpu),
            DataProcessingOpcode::CMN,
            rd,
            rn,
            operand,
        ),
{
    do_add(cpu.registers.read(rn), operand)
}

/// `rd := rn OR operand`.
pub fn execute_orr(cpu: &mut Arm7Cpu, rd: usize, rn: usize, operand: u32) -> (result: (
    u32,
    bool,
    bool,
))
    requires
        old(cpu).registers.has_valid_mode(),
        rd < 16,
        rn < 16,
    ensures
        (*final(cpu), result) == spec_execute_alu(
            *old(cpu),
            DataProcessingOpcode::ORR,
            rd,
            rn,
            operand,
        ),
{
    let result = cpu.registers.read(rn) | operand;
    cpu.registers.write(rd, result);
    (result, false, false)
}

/// `rd := operand`.
pub fn execute_mov(cpu: &mut Arm7Cpu, rd: usize, rn: usize, operand: u32) -> (result: (
    u32,
    bool,
    bool,
))
    requires
        old(cpu).registers.has_valid_mode(),
        rd < 16,
        rn < 16,
    ensures
        (*final(cpu), result) == spec_execute_alu(
            *old(cpu),
            DataProcessingOpcode::MOV,
            rd,
            rn,
            operand,
        ),
{
    let result = operand;
    cpu.registers.write(rd, result);
    (result, false, false)
}

/// `rd := rn AND NOT operand`.
pub fn execute_bic(cpu: &mut Arm7Cpu, rd: usize, rn: usize, operand: u32) -> (result: (
    u32,
    bool,
    bool,
))
    requires
        old(cpu).registers.has_valid_mode(),
        rd < 16,
        rn < 16,
    ensures
        (*final(cpu), result) == spec_execute_alu(
            *old(cpu),
            DataProcessingOpcode::BIC,
            rd,
            rn,
            operand,
        ),
{
    let result = cpu.registers.read(rn) & !operand;
    cpu.registers.write(rd, result);
    (result, false, false)
}

/// `rd := NOT operand`.
pub fn execute_mvn(cpu: &mut Arm7Cpu, rd: usize, rn: usize, operand: u32) -> (result: (
    u32,
    bool,
    bool,
))
    requires
        old(cpu).registers.has_valid_mode(),
        rd < 16,
        rn < 16,
    ensures
        (*final(cpu), result) == spec_execute_alu(
            *old(cpu),
            DataProcessingOpcode::MVN,
            rd,
            rn,
            operand,
        ),
{
    let result = !operand;
    cpu.registers.write(rd, result);
    (result, false, false)
}

/// The value of the second operand and the carry that left the shifter,
/// if the operand went through it.
pub open spec fn spec_operand_value(registers: RegisterFile, operand: DataProcessingOperand) -> (
    u32,
    Option<bool>,
) {
    match operand {
        DataProcessingOperand::Immediate(value) => (value, None),
        DataProcessingOperand::ShiftedImmediate { operand, shift } => (
            spec_ror(operand, shift),
            Some(bit(operand, (shift - 1) as u32)),
        ),
        DataProcessingOperand::RegisterShiftedRegister {
            operand_register,
            shift_register,
            shift_type,
        } => {
            let (value, carry) = spec_shift(
                shift_type,
                registers.spec_read(operand_register),
                registers.spec_read(shift_register) & 0xFF,
                registers.flag(CondFlag::Carry),
            );
            (value, Some(carry))
        },
        DataProcessingOperand::ImmediateShiftedRegister {
            operand_register,
            shift,
            shift_type,
        } => spec_shift_by_immediate(
            shift_type,
            registers.spec_read(operand_register),
            shift,
            registers.flag(CondFlag::Carry),
        ),
    }
}

/// The flags after an operation that sets them. Zero and sign follow the
/// result. An arithmetic operation gives carry and overflow; a bitwise
/// one takes the carry from the shifter, where the operand went through
/// it, and leaves the overflow flag.
pub open spec fn spec_result_flags(
    registers: RegisterFile,
    operation: DataProcessingOpcode,
    result: (u32, bool, bool),
    shifted_carry: Option<bool>,
) -> RegisterFile {
    let by_result = registers.with_flag(CondFlag::Zero, result.0 == 0).with_flag(
        CondFlag::Sign,
        result.0 >= 0x8000_0000,
    );
    if operation.spec_is_logical() {
        match shifted_carry {
            Some(carry) => by_result.with_flag(CondFlag::Carry, carry),
            None => by_result,
        }
    } else {
        by_result.with_flag(CondFlag::Carry, result.1).with_flag(CondFlag::Overflow, result.2)
    }
}

/// The operand is a register shifted by a register.
pub open spec fn shifts_by_register(operand: DataProcessingOperand) -> bool {
    operand is RegisterShiftedRegister
}

/// A data-processing instruction.
///
/// With a shift by register the processor first takes an internal cycle,
/// and the program counter has moved one word on before any register is
/// read. Then the operand is resolved, the operation is carried out, and
/// the flags are set where asked for. The next access is marked as a
/// sequential code fetch. With the program counter as destination the
/// status word is restored from the saved one, where flags were asked for,
/// and the pipeline is refilled, starting with a non-sequential code
/// fetch, unless the operation only sets flags.
/// Otherwise the program counter moves one word on, if it has not yet.
pub open spec fn spec_execute_data_processing(
    cpu: Arm7Cpu,
    sub_opcode: DataProcessingOpcode,
    rd: usize,
    rn: usize,
    operand: DataProcessingOperand,
    set_flags: bool,
    input: Seq<u32>,
) -> Effect {
    let by_register = shifts_by_register(operand);
    let advanced = cpu.registers.with_pc(cpu.registers.pc().wrapping_add(4));
    let started = if by_register {
        cpu.with_registers(advanced)
    } else {
        cpu
    };
    let internal = if by_register {
        seq![BusAccess::idle()]
    } else {
        Seq::empty()
    };
    let (operand_b, shifted_carry) = spec_operand_value(started.registers, operand);
    let (computed, result) = spec_execute_alu(started, sub_opcode, rd, rn, operand_b);
    let flagged = if set_flags {
        spec_result_flags(computed.registers, sub_opcode, result, shifted_carry)
    } else {
        computed.registers
    };
    let restored = if rd == 15 && set_flags {
        flagged.with_cpsr(flagged.spec_spsr_moded())
    } else {
        flagged
    };
    let finished = computed.with_registers(restored).with_next_access(ACCESS_CODE | ACCESS_SEQ);
    if rd == 15 && !sub_opcode.spec_is_comparison() {
        let reloaded = finished.spec_reload_pipeline(input.skip(internal.len() as int));
        Effect { cpu: reloaded.cpu, trace: internal + reloaded.trace }
    } else if by_register {
        Effect { cpu: finished, trace: internal }
    } else {
        Effect {
            cpu: finished.with_registers(restored.with_pc(restored.pc().wrapping_add(4))),
            trace: internal,
        }
    }
}

/// Resolves the second operand. For a shift by register this takes the
/// internal cycle and moves the program counter first.
fn resolve_operand<BusType: SystemBus>(
    cpu: &mut Arm7Cpu,
    bus: &mut TracedBus<BusType>,
    operand: DataProcessingOperand,
) -> (value: (u32, Option<bool>))
    requires
        old(cpu).registers.has_valid_mode(),
        operand.wf(),
    ensures
        shifts_by_register(operand) ==> final(bus).log() == old(bus).log().push(BusAccess::idle())
            && *final(cpu) == old(cpu).with_registers(
            old(cpu).registers.with_pc(old(cpu).registers.pc().wrapping_add(4)),
        ),
        !shifts_by_register(operand) ==> final(bus).log() == old(bus).log() && *final(cpu) == *old(
            cpu,
        ),
        value == spec_operand_value(final(cpu).registers, operand),
{
    match operand {
        DataProcessingOperand::Immediate(value) => (value, None),
        DataProcessingOperand::ShiftedImmediate { operand, shift } => {
            let shifted_operand = ror(operand, shift);
            let shifted_carry = test_bit(operand, shift - 1);
            (shifted_operand, Some(shifted_carry))
        },
        DataProcessingOperand::RegisterShiftedRegister {
            operand_register,
            shift_register,
            shift_type,
        } => {
            cpu.registers.get_and_incr_pc(4);
            bus.idle();
            // Only the low byte of the register gives the amount.
            let shift_amount = cpu.registers.read(shift_register) & 0xFF;
            let value = cpu.registers.read(operand_register);
            let (value, carry) = shift(shift_type, value, shift_amount, cpu.registers.carry());
            (value, Some(carry))
        },
        DataProcessingOperand::ImmediateShiftedRegister {
            operand_register,
            shift: shift_amount,
            shift_type,
        } => {
            let value = cpu.registers.read(operand_register);
            shift_by_immediate(shift_type, value, shift_amount, cpu.registers.carry())
        },
    }
}

/// Sets the flags after an operation.
fn update_result_flags(
    registers: &mut RegisterFile,
    sub_opcode: DataProcessingOpcode,
    result: (u32, bool, bool),
    shifted_carry: Option<bool>,
)
    ensures
        *final(registers) == spec_result_flags(*old(registers), sub_opcode, result, shifted_carry),
        crate::cpu::registers::CpuMode::decode(final(registers).cpsr)
            == crate::cpu::registers::CpuMode::decode(old(registers).cpsr),
{
    proof {
        lemma_shift_bits(result.0);
        let zero = old(registers).with_flag(CondFlag::Zero, result.0 == 0);
        let sign = zero.with_flag(CondFlag::Sign, result.0 >= 0x8000_0000);
        lemma_flag_keeps_mode(old(registers).cpsr, CondFlag::Zero, result.0 == 0);
        lemma_flag_keeps_mode(zero.cpsr, CondFlag::Sign, result.0 >= 0x8000_0000);
        lemma_flag_keeps_mode(sign.cpsr, CondFlag::Carry, result.1);
        lemma_flag_keeps_mode(
            sign.with_flag(CondFlag::Carry, result.1).cpsr,
            CondFlag::Overflow,
            result.2,
        );
        if let Some(carry) = shifted_carry {
            lemma_flag_keeps_mode(sign.cpsr, CondFlag::Carry, carry);
        }
    }
    registers.update_flag(CondFlag::Zero, result.0 == 0);
    registers.update_flag(CondFlag::Sign, result.0 & 0x8000_0000 != 0);
    if sub_opcode.is_logical() {
        if let Some(carry) = shifted_carry {
            registers.update_flag(CondFlag::Carry, carry);
        }
    } else {
        registers.update_flag(CondFlag::Carry, result.1);
        registers.update_flag(CondFlag::Overflow, result.2);
    }
}

/// Carries out one operation on the processor.
fn execute_alu(
    cpu: &mut Arm7Cpu,
    sub_opcode: DataProcessingOpcode,
    rd: usize,
    rn: usize,
    operand: u32,
) -> (result: (u32, bool, bool))
    requires
        old(cpu).registers.has_valid_mode(),
        rd < 16,
        rn < 16,
    ensures
        (*final(cpu), result) == spec_execute_alu(*old(cpu), sub_opcode, rd, rn, operand),
        final(cpu).registers.cpsr == old(cpu).registers.cpsr,
        final(cpu).pipeline == old(cpu).pipeline,
        final(cpu).next_access == old(cpu).next_access,
{
    match sub_opcode {
        DataProcessingOpcode::AND => execute_and(cpu, rd, rn, operand),
        DataProcessingOpcode::EOR => execute_eor(cpu, rd, rn, operand),
        DataProcessingOpcode::SUB => execute_sub(cpu, rd, rn, operand),
        DataProcessingOpcode::RSB => execute_rsb(cpu, rd, rn, operand),
        DataProcessingOpcode::ADD => execute_add(cpu, rd, rn, operand),
        DataProcessingOpcode::ADC => execute_adc(cpu, rd, rn, operand),
        DataProcessingOpcode::SBC => execute_sbc(cpu, rd, rn, operand),
        DataProcessingOpcode::RSC => execute_rsc(cpu, rd, rn, operand),
        DataProcessingOpcode::TST => execute_tst(cpu, rd, rn, operand),
        DataProcessingOpcode::TEQ => execute_teq(cpu, rd, rn, operand),
        DataProcessingOpcode::CMP => execute_cmp(cpu, rd, rn, operand),
        DataProcessingOpcode::CMN => execute_cmn(cpu, rd, rn, operand),
        DataProcessingOpcode::ORR => execute_orr(cpu, rd, rn, operand),
        DataProcessingOpcode::MOV => execute_mov(cpu, rd, rn, operand),
        DataProcessingOpcode::BIC => execute_bic(cpu, rd, rn, operand),
        DataProcessingOpcode::MVN => execute_mvn(cpu, rd, rn, operand),
    }
}

/// Executes a data-processing instruction.
pub fn execute_data_processing<BusType: SystemBus>(
    cpu: &mut Arm7Cpu,
    bus: &mut TracedBus<BusType>,
    sub_opcode: DataProcessingOpcode,
    rd: usize,
    rn: usize,
    operand: DataProcessingOperand,
    set_flags: bool,
)
    requires
        old(cpu).registers.has_valid_mode(),
        rd < 16,
        rn < 16,
        operand.wf(),
    ensures
        final(bus).extends(old(bus)),
        spec_execute_data_processing(
            *old(cpu),
            sub_opcode,
            rd,
            rn,
            operand,
            set_flags,
            data_of(final(bus).since(old(bus))),
        ) == (Effect { cpu: *final(cpu), trace: final(bus).since(old(bus)) }),
{
    let by_register = match operand {
        DataProcessingOperand::RegisterShiftedRegister { .. } => true,
        _ => false,
    };
    let (operand_b, shifted_carry) = resolve_operand(cpu, bus, operand);
    let ghost internal = if by_register {
        seq![BusAccess::idle()]
    } else {
        Seq::empty()
    };
    let ghost middle = bus.log();
    proof {
        lemma_trace_push(old(bus).log(), Seq::empty(), BusAccess::idle());
        assert(bus.since(old(bus)) =~= internal);
    }
    let result = execute_alu(cpu, sub_opcode, rd, rn, operand_b);
    if set_flags {
        update_result_flags(&mut cpu.registers, sub_opcode, result, shifted_carry);
    }
    cpu.next_access = ACCESS_CODE | ACCESS_SEQ;
    if rd == PC_IDX {
        if set_flags {
            cpu.registers.cpsr = cpu.registers.spsr_moded();
        }
        if !sub_opcode.is_comparison() {
            cpu.reload_pipeline(bus);
            proof {
                lemma_trace_chain(old(bus).log(), middle, bus.log());
            }
        } else if !by_register {
            cpu.registers.get_and_incr_pc(4);
        }
    } else if !by_register {
        cpu.registers.get_and_incr_pc(4);
    }
}

/// A move of a register shifted right logically by an encoded amount of
/// zero, with the flags set: the destination is zero, the zero flag is
/// set, and the carry flag is bit 31 of the register.
pub proof fn lemma_move_shifted_right_by_zero(cpu: Arm7Cpu, rd: usize, rm: usize, input: Seq<u32>)
    requires
        cpu.registers.has_valid_mode(),
        rd < 15,
        rm < 16,
    ensures
        ({
            let operand = DataProcessingOperand::ImmediateShiftedRegister {
                operand_register: rm,
                shift: 0,
                shift_type: ShiftType::Lsr,
            };
            let after = spec_execute_data_processing(
                cpu,
                DataProcessingOpcode::MOV,
                rd,
                0,
                operand,
                true,
                input,
            );
            &&& spec_operand_value(cpu.registers, operand) == (
                0u32,
                Some(bit(cpu.registers.spec_read(rm), 31)),
            )
            &&& after.cpu.registers.spec_read(rd) == 0
            &&& after.cpu.registers.flag(CondFlag::Carry) == bit(cpu.registers.spec_read(rm), 31)
            &&& after.cpu.registers.flag(CondFlag::Zero)
            &&& after.trace =~= Seq::<BusAccess>::empty()
        }),
{
    let carry = bit(cpu.registers.spec_read(rm), 31);
    let written = cpu.registers.spec_write(rd, 0);
    lemma_read_after_write(cpu.registers, rd as int, 0, rd as int);
    let zero = written.with_flag(CondFlag::Zero, true);
    let sign = zero.with_flag(CondFlag::Sign, false);
    let flagged = sign.with_flag(CondFlag::Carry, carry);
    lemma_flag_written(written.cpsr, CondFlag::Zero, true, CondFlag::Carry);
    lemma_flag_written(zero.cpsr, CondFlag::Sign, false, CondFlag::Zero);
    lemma_flag_written(sign.cpsr, CondFlag::Carry, carry, CondFlag::Zero);
    lemma_flag_keeps_mode(written.cpsr, CondFlag::Zero, true);
    lemma_flag_keeps_mode(zero.cpsr, CondFlag::Sign, false);
    lemma_flag_keeps_mode(sign.cpsr, CondFlag::Carry, carry);
}

} // verus!
