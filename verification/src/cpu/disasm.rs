//! Instructions as text.

use crate::cpu::alu::{ror, signed, spec_ror};
use crate::cpu::opcodes::{
    lemma_sign_extension, DataProcessingOpcode, DataProcessingOperand, DecodedArmOpcode, Opcode,
};
use crate::text::{
    decimal_digits, format_decimal, format_hex_word, format_signed_decimal, hex_word_text,
    signed_decimal_text,
};
use vstd::prelude::*;
use vstd::string::StringExecFns;

verus! {

/// The text of a branch: `B $` and the offset in hexadecimal.
pub open spec fn spec_branch_text(offset: u32) -> Seq<char> {
    "B $"@ + hex_word_text(offset)
}

/// The name of a register: `R` and the number up to 13, `LR` for 14, `PC`
/// for 15, and `UNKNOWN` for what is no register.
pub open spec fn spec_register_name(idx: usize) -> Seq<char> {
    if idx <= 13 {
        "R"@ + decimal_digits(idx as nat)
    } else if idx == 14 {
        "LR"@
    } else if idx == 15 {
        "PC"@
    } else {
        "UNKNOWN"@
    }
}

/// The text of a second operand: `$` and the value in hexadecimal for an
/// immediate, rotated where the instruction rotates it; the name of the
/// form for a register.
pub open spec fn spec_operand_text(operand: DataProcessingOperand) -> Seq<char> {
    match operand {
        DataProcessingOperand::Immediate(value) => "$"@ + hex_word_text(value),
        DataProcessingOperand::ShiftedImmediate { operand, shift } => "$"@ + hex_word_text(
            spec_ror(operand, shift),
        ),
        DataProcessingOperand::RegisterShiftedRegister {
            operand_register,
            shift_register,
            shift_type,
        } => "RegisterShiftedRegister"@,
        DataProcessingOperand::ImmediateShiftedRegister {
            operand_register,
            shift,
            shift_type,
        } => "ImmediateShiftedRegister"@,
    }
}

/// The text of an instruction. Only the branch has one.
pub fn disassemble_opcode(opcode: &Opcode) -> (text: String)
    requires
        *opcode matches Opcode::Arm(DecodedArmOpcode::B { .. }),
    ensures
        *opcode matches Opcode::Arm(DecodedArmOpcode::B { offset }) && text@ == spec_branch_text(
            offset,
        ),
{
    match opcode {
        Opcode::Arm(decoded_arm_opcode) => format_decoded_arm_opcode(decoded_arm_opcode),
        Opcode::Thumb => vstd::pervasive::unreached(),
    }
}

pub fn format_decoded_arm_opcode(opcode: &DecodedArmOpcode) -> (text: String)
    requires
        *opcode is B,
    ensures
        *opcode matches DecodedArmOpcode::B { offset } && text@ == spec_branch_text(offset),
{
    match opcode {
        DecodedArmOpcode::B { offset } => String::from_str("B $").concat(
            format_hex_word(*offset).as_str(),
        ),
        _ => vstd::pervasive::unreached(),
    }
}

pub fn format_register(idx: usize) -> (text: String)
    ensures
        text@ == spec_register_name(idx),
{
    if idx <= 13 {
        String::from_str("R").concat(format_decimal(idx as u64).as_str())
    } else if idx == 14 {
        String::from_str("LR")
    } else if idx == 15 {
        String::from_str("PC")
    } else {
        String::from_str("UNKNOWN")
    }
}

pub fn format_data_processing_operand(operand: &DataProcessingOperand) -> (text: String)
    ensures
        text@ == spec_operand_text(*operand),
{
    match operand {
        DataProcessingOperand::Immediate(value) => String::from_str("$").concat(
            format_hex_word(*value).as_str(),
        ),
        DataProcessingOperand::ShiftedImmediate { operand, shift } => String::from_str("$").concat(
            format_hex_word(ror(*operand, *shift)).as_str(),
        ),
        DataProcessingOperand::RegisterShiftedRegister { .. } => String::from_str(
            "RegisterShiftedRegister",
        ),
        DataProcessingOperand::ImmediateShiftedRegister { .. } => String::from_str(
            "ImmediateShiftedRegister",
        ),
    }
}

/// The name of an operation.
pub open spec fn spec_mnemonic(operation: DataProcessingOpcode) -> Seq<char> {
    match operation {
        DataProcessingOpcode::AND => "AND"@,
        DataProcessingOpcode::EOR => "EOR"@,
        DataProcessingOpcode::SUB => "SUB"@,
        DataProcessingOpcode::RSB => "RSB"@,
        DataProcessingOpcode::ADD => "ADD"@,
        DataProcessingOpcode::ADC => "ADC"@,
        DataProcessingOpcode::SBC => "SBC"@,
        DataProcessingOpcode::RSC => "RSC"@,
        DataProcessingOpcode::TST => "TST"@,
        DataProcessingOpcode::TEQ => "TEQ"@,
        DataProcessingOpcode::CMP => "CMP"@,
        DataProcessingOpcode::CMN => "CMN"@,
        DataProcessingOpcode::ORR => "ORR"@,
        DataProcessingOpcode::MOV => "MOV"@,
        DataProcessingOpcode::BIC => "BIC"@,
        DataProcessingOpcode::MVN => "MVN"@,
    }
}

/// The offset that the label of a branch shows: for a branch without link
/// a set bit 23 is extended into the top byte, and the word is then read
/// as a signed number.
pub open spec fn spec_shown_offset(offset: u32, link: bool) -> int {
    if !link && offset & 0x80_0000 != 0 {
        signed(offset | 0xFF00_0000)
    } else {
        signed(offset)
    }
}

/// The register that the label of a data-processing instruction shows:
/// the destination, but the first operand for an operation that only sets
/// flags.
pub open spec fn spec_shown_register(
    operation: DataProcessingOpcode,
    rd: usize,
    rn: usize,
) -> usize {
    if operation.spec_is_comparison() {
        rn
    } else {
        rd
    }
}

/// The name of an operation.
pub fn mnemonic(operation: DataProcessingOpcode) -> (text: String)
    ensures
        text@ == spec_mnemonic(operation),
{
    match operation {
        DataProcessingOpcode::AND => String::from_str("AND"),
        DataProcessingOpcode::EOR => String::from_str("EOR"),
        DataProcessingOpcode::SUB => String::from_str("SUB"),
        DataProcessingOpcode::RSB => String::from_str("RSB"),
        DataProcessingOpcode::ADD => String::from_str("ADD"),
        DataProcessingOpcode::ADC => String::from_str("ADC"),
        DataProcessingOpcode::SBC => String::from_str("SBC"),
        DataProcessingOpcode::RSC => String::from_str("RSC"),
        DataProcessingOpcode::TST => String::from_str("TST"),
        DataProcessingOpcode::TEQ => String::from_str("TEQ"),
        DataProcessingOpcode::CMP => String::from_str("CMP"),
        DataProcessingOpcode::CMN => String::from_str("CMN"),
        DataProcessingOpcode::ORR => String::from_str("ORR"),
        DataProcessingOpcode::MOV => String::from_str("MOV"),
        DataProcessingOpcode::BIC => String::from_str("BIC"),
        DataProcessingOpcode::MVN => String::from_str("MVN"),
    }
}

/// The two labels of a branch: its name, and `$` with the offset in
/// decimal.
pub fn format_opcode_b_bl(offset: u32, is_bl: bool) -> (label: (String, String))
    ensures
        label.0@ == (if is_bl {
            "BL"@
        } else {
            "B"@
        }),
        label.1@ == "$"@ + signed_decimal_text(spec_shown_offset(offset, is_bl)),
{
    let mut shown = offset;
    if !is_bl && offset & 0x80_0000 != 0 {
        // The offset is a signed number of 24 bits.
        shown = offset | 0xFF00_0000;
    }
    let name = if is_bl {
        String::from_str("BL")
    } else {
        String::from_str("B")
    };
    (name, String::from_str("$").concat(format_signed_decimal(shown).as_str()))
}

/// The two labels of a branch and exchange: its name and the register.
pub fn format_opcode_bx(register_idx: usize) -> (label: (String, String))
    ensures
        label.0@ == "BX"@,
        label.1@ == spec_register_name(register_idx),
{
    (String::from_str("BX"), format_register(register_idx))
}

/// The register that the label of a data-processing instruction shows.
pub fn shown_register(operation: DataProcessingOpcode, rd: usize, rn: usize) -> (idx: usize)
    ensures
        idx == spec_shown_register(operation, rd, rn),
{
    if operation.is_comparison() {
        rn
    } else {
        rd
    }
}

/// The two labels of a data-processing instruction: the name of the
/// operation and the register shown.
pub fn format_data_processing(
    operation: DataProcessingOpcode,
    rd: usize,
    rn: usize,
) -> (label: (String, String))
    ensures
        label.0@ == spec_mnemonic(operation),
        label.1@ == spec_register_name(spec_shown_register(operation, rd, rn)),
{
    (mnemonic(operation), format_register(shown_register(operation, rd, rn)))
}

/// The two labels of an instruction: for the branches and for data
/// processing those of their forms; for anything else one label that says
/// so, and an empty one.
pub open spec fn spec_opcode_labels(opcode: Opcode) -> (Seq<char>, Seq<char>) {
    match opcode {
        Opcode::Arm(DecodedArmOpcode::B { offset }) => (
            "B"@,
            "$"@ + signed_decimal_text(spec_shown_offset(offset, false)),
        ),
        Opcode::Arm(DecodedArmOpcode::BL { offset }) => (
            "BL"@,
            "$"@ + signed_decimal_text(spec_shown_offset(offset, true)),
        ),
        Opcode::Arm(DecodedArmOpcode::BX { register_idx }) => (
            "BX"@,
            spec_register_name(register_idx as usize),
        ),
        Opcode::Arm(DecodedArmOpcode::DataProcessing { operand, rd, rn, sub_opcode, set_flags }) => (
            spec_mnemonic(sub_opcode),
            spec_register_name(spec_shown_register(sub_opcode, rd, rn)),
        ),
        Opcode::Arm(_) => ("Opcode not implemented"@, Seq::empty()),
        Opcode::Thumb => ("Thumb disassembly not implemented"@, Seq::empty()),
    }
}

/// The two labels of an instruction.
pub fn opcode_disassembly(opcode: &Opcode) -> (label: (String, String))
    ensures
        (label.0@, label.1@) == spec_opcode_labels(*opcode),
{
    match opcode {
        Opcode::Arm(DecodedArmOpcode::B { offset }) => format_opcode_b_bl(*offset, false),
        Opcode::Arm(DecodedArmOpcode::BL { offset }) => format_opcode_b_bl(*offset, true),
        Opcode::Arm(DecodedArmOpcode::BX { register_idx }) => format_opcode_bx(
            *register_idx as usize,
        ),
        Opcode::Arm(DecodedArmOpcode::DataProcessing { rd, rn, sub_opcode, .. }) => {
            format_data_processing(*sub_opcode, *rd, *rn)
        },
        Opcode::Arm(_) => (String::from_str("Opcode not implemented"), String::new()),
        Opcode::Thumb => (String::from_str("Thumb disassembly not implemented"), String::new()),
    }
}

/// The labels of a branch show the displacement in words: for a 24-bit
/// offset of a branch without link, the signed number that the branch
/// multiplies by four.
pub proof fn lemma_shown_offset(offset: u32)
    requires
        offset <= 0xFF_FFFF,
    ensures
        spec_shown_offset(offset, false) == if offset >= 0x80_0000 {
            offset - 0x100_0000
        } else {
            offset as int
        },
        spec_shown_offset(offset, true) == offset,
{
    lemma_sign_extension(offset);
}

} // verus!
