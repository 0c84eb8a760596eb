use gba::cpu::disasm::{
    disassemble_opcode, format_data_processing, format_data_processing_operand,
    format_decoded_arm_opcode, format_opcode_b_bl, format_opcode_bx, format_register, mnemonic,
    opcode_disassembly, shown_register,
};
use gba::cpu::history::OpcodeHistory;
use gba::cpu::opcodes::{
    DataProcessingOpcode, DataProcessingOperand, DecodedArmOpcode, Opcode, ShiftType, TransferType,
};
use gba::text::{format_decimal, format_hex_byte, format_hex_word, format_signed_decimal};

#[test]
fn test_history_keeps_last_ten() {
    let mut history = OpcodeHistory::new();
    assert_eq!(history.len(), 0);
    assert_eq!(history.words(), Vec::<u32>::new());
    for word in 1..=3u32 {
        history.record(word);
    }
    assert_eq!(history.len(), 3);
    assert_eq!(history.words(), vec![1, 2, 3]);
    for word in 4..=10u32 {
        history.record(word);
    }
    assert_eq!(history.words(), vec![1, 2, 3, 4, 5, 6, 7, 8, 9, 10]);
    history.record(11);
    assert_eq!(history.len(), 10);
    assert_eq!(history.words(), vec![2, 3, 4, 5, 6, 7, 8, 9, 10, 11]);
    for word in 12..=25u32 {
        history.record(word);
    }
    assert_eq!(history.words(), vec![16, 17, 18, 19, 20, 21, 22, 23, 24, 25]);
}

#[test]
fn test_disassemble_branch() {
    let opcode = Opcode::Arm(DecodedArmOpcode::B { offset: 0x2A });
    assert_eq!(disassemble_opcode(&opcode), "B $0x2A");
    assert_eq!(format_decoded_arm_opcode(&DecodedArmOpcode::B { offset: 0 }), "B $0x0");
    assert_eq!(
        format_decoded_arm_opcode(&DecodedArmOpcode::B { offset: 0xFF_FFFE }),
        "B $0xFFFFFE"
    );
}

#[test]
fn test_register_names() {
    assert_eq!(format_register(0), "R0");
    assert_eq!(format_register(9), "R9");
    assert_eq!(format_register(13), "R13");
    assert_eq!(format_register(14), "LR");
    assert_eq!(format_register(15), "PC");
    assert_eq!(format_register(16), "UNKNOWN");
}

#[test]
fn test_operand_texts() {
    assert_eq!(format_data_processing_operand(&DataProcessingOperand::Immediate(0xAB)), "$0xAB");
    assert_eq!(
        format_data_processing_operand(&DataProcessingOperand::ShiftedImmediate {
            operand: 0xFF,
            shift: 8
        }),
        "$0xFF000000"
    );
    assert_eq!(
        format_data_processing_operand(&DataProcessingOperand::RegisterShiftedRegister {
            operand_register: 1,
            shift_register: 2,
            shift_type: ShiftType::Lsl,
        }),
        "RegisterShiftedRegister"
    );
    assert_eq!(
        format_data_processing_operand(&DataProcessingOperand::ImmediateShiftedRegister {
            operand_register: 1,
            shift: 2,
            shift_type: ShiftType::Asr,
        }),
        "ImmediateShiftedRegister"
    );
}

fn labels(name: &str, operand: &str) -> (String, String) {
    (name.to_string(), operand.to_string())
}

#[test]
fn test_branch_labels() {
    assert_eq!(format_opcode_b_bl(2, false), labels("B", "$2"));
    assert_eq!(format_opcode_b_bl(0, false), labels("B", "$0"));
    // Offset -2 words.
    assert_eq!(format_opcode_b_bl(0xFF_FFFE, false), labels("B", "$-2"));
    assert_eq!(format_opcode_b_bl(0x80_0000, false), labels("B", "$-8388608"));
    assert_eq!(format_opcode_b_bl(0x7F_FFFF, false), labels("B", "$8388607"));
    // The offset of a branch with link is shown as it stands.
    assert_eq!(format_opcode_b_bl(0xFF_FFFE, true), labels("BL", "$16777214"));
    assert_eq!(format_opcode_b_bl(5, true), labels("BL", "$5"));
    assert_eq!(format_opcode_b_bl(0xFFFF_FFFF, true), labels("BL", "$-1"));
}

#[test]
fn test_exchange_labels() {
    assert_eq!(format_opcode_bx(3), labels("BX", "R3"));
    assert_eq!(format_opcode_bx(14), labels("BX", "LR"));
}

#[test]
fn test_data_processing_labels() {
    assert_eq!(format_data_processing(DataProcessingOpcode::ADD, 1, 2), labels("ADD", "R1"));
    assert_eq!(format_data_processing(DataProcessingOpcode::MOV, 15, 0), labels("MOV", "PC"));
    // An operation that only sets flags shows its first operand.
    assert_eq!(format_data_processing(DataProcessingOpcode::CMP, 0, 2), labels("CMP", "R2"));
    assert_eq!(format_data_processing(DataProcessingOpcode::TST, 15, 14), labels("TST", "LR"));
    assert_eq!(shown_register(DataProcessingOpcode::TEQ, 1, 2), 2);
    assert_eq!(shown_register(DataProcessingOpcode::CMN, 1, 2), 2);
    assert_eq!(shown_register(DataProcessingOpcode::BIC, 1, 2), 1);
    for code in 0..16u32 {
        let operation = DataProcessingOpcode::from_code(code);
        assert_eq!(mnemonic(operation), format!("{operation:?}"));
    }
}

#[test]
fn test_opcode_disassembly() {
    assert_eq!(
        opcode_disassembly(&Opcode::Arm(DecodedArmOpcode::B { offset: 0xFF_FFFD })),
        labels("B", "$-3")
    );
    assert_eq!(
        opcode_disassembly(&Opcode::Arm(DecodedArmOpcode::BL { offset: 7 })),
        labels("BL", "$7")
    );
    assert_eq!(
        opcode_disassembly(&Opcode::Arm(DecodedArmOpcode::BX { register_idx: 15 })),
        labels("BX", "PC")
    );
    assert_eq!(
        opcode_disassembly(&Opcode::Arm(DecodedArmOpcode::DataProcessing {
            operand: DataProcessingOperand::Immediate(1),
            rd: 4,
            rn: 5,
            sub_opcode: DataProcessingOpcode::RSC,
            set_flags: false,
        })),
        labels("RSC", "R4")
    );
    assert_eq!(
        opcode_disassembly(&Opcode::Arm(DecodedArmOpcode::BlockDataTransfer {
            base_register: 13,
            transfer_type: TransferType::Load,
            pre_increment: false,
            increment: true,
            psr_n_force_user: false,
            write_address_into_base: true,
            rlist: 3,
        })),
        labels("Opcode not implemented", "")
    );
    assert_eq!(opcode_disassembly(&Opcode::Thumb), labels("Thumb disassembly not implemented", ""));
}

#[test]
fn test_numbers_as_text() {
    for byte in 0..=255u8 {
        assert_eq!(format_hex_byte(byte), format!("{:#04X}", byte));
    }
    assert_eq!(format_hex_byte(0x0A), "0x0A");
    for word in [0u32, 1, 9, 10, 15, 16, 0xFF, 0x100, 0xABCDEF, 0x1234_5678, 0xFFFF_FFFF] {
        assert_eq!(format_hex_word(word), format!("{:#X}", word));
        assert_eq!(format_signed_decimal(word), format!("{}", word as i32));
    }
    assert_eq!(format_hex_word(0xBEEF), "0xBEEF");
    assert_eq!(format_signed_decimal(0x8000_0000), "-2147483648");
    for value in [0u64, 7, 10, 99, 100, 12345, u64::MAX] {
        assert_eq!(format_decimal(value), format!("{}", value));
    }
    for value in 0..2000u64 {
        assert_eq!(format_decimal(value), value.to_string());
    }
}
