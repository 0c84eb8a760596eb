use gba::cpu::alu::{asr, do_adc, do_add, do_sbc, do_sub, lsl, lsr, ror, shift, shift_by_immediate};
use gba::cpu::block_transfer::{count_registers, execute_block_data_transfer, BlockTransfer};
use gba::cpu::opcodes::{
    check_condition, decode_arm_opcode, execute_arm_to_thumb_bx, execute_b, execute_bl,
    execute_data_processing, Condition, DataProcessingOpcode, DataProcessingOperand,
    DecodedArmOpcode, Opcode, ShiftType, TransferType,
};
use gba::cpu::registers::{CondFlag, CpuMode, CpuState, RegisterFile, PC_IDX};
use gba::cpu::{Arm7Cpu, StepOutcome};
use gba::system_bus::{SystemBus, TracedBus, ACCESS_CODE, ACCESS_NONSEQ, ACCESS_SEQ};

#[derive(Debug, Clone, Copy, PartialEq, Eq)]
enum Kind {
    ReadWord,
    ReadHalfWord,
    WriteWord,
    WriteHalfWord,
    Idle,
}

#[derive(Debug, Clone, Copy, PartialEq, Eq)]
struct Access {
    kind: Kind,
    address: u32,
    data: u32,
    access: u8,
}

/// A bus that answers a read of an address it has no word for with the
/// address itself, and keeps a record of every access.
#[derive(Default)]
struct RecordingBus {
    words: Vec<(u32, u32)>,
    accesses: Vec<Access>,
}

impl RecordingBus {
    fn with_words(words: &[(u32, u32)]) -> TracedBus<RecordingBus> {
        TracedBus::new(RecordingBus { words: words.to_vec(), accesses: Vec::new() })
    }

    fn word(&self, address: u32) -> u32 {
        for (at, word) in self.words.iter() {
            if *at == address {
                return *word;
            }
        }
        address
    }
}

impl SystemBus for RecordingBus {
    fn read_word(&mut self, address: u32, access: u8) -> u32 {
        let data = self.word(address);
        self.accesses.push(Access { kind: Kind::ReadWord, address, data, access });
        data
    }

    fn read_half_word(&mut self, address: u32, access: u8) -> u16 {
        let data = self.word(address) as u16;
        self.accesses.push(Access { kind: Kind::ReadHalfWord, address, data: data as u32, access });
        data
    }

    fn write_word(&mut self, address: u32, data: u32, access: u8) {
        self.accesses.push(Access { kind: Kind::WriteWord, address, data, access });
    }

    fn write_half_word(&mut self, address: u32, data: u16, access: u8) {
        self.accesses.push(Access { kind: Kind::WriteHalfWord, address, data: data as u32, access });
    }

    fn idle(&mut self) {
        self.accesses.push(Access { kind: Kind::Idle, address: 0, data: 0, access: 0 });
    }
}

fn read(address: u32, data: u32, access: u8) -> Access {
    Access { kind: Kind::ReadWord, address, data, access }
}

fn write(address: u32, data: u32, access: u8) -> Access {
    Access { kind: Kind::WriteWord, address, data, access }
}

fn cpu_in_mode(mode: CpuMode) -> Arm7Cpu {
    let mut cpu = Arm7Cpu::new();
    cpu.switch_cpu_mode(mode);
    cpu
}

const CODE_SEQ: u8 = ACCESS_CODE | ACCESS_SEQ;
const CODE_NONSEQ: u8 = ACCESS_CODE | ACCESS_NONSEQ;

#[test]
fn test_cpu_startup() {
    let cpu = Arm7Cpu::new();

    assert_eq!(cpu.registers.read(PC_IDX), 0x00000000);
    assert_eq!(cpu.registers.mode(), CpuMode::System);
    assert_eq!(cpu.registers.state(), CpuState::Arm);
    assert_eq!(cpu.registers.cpsr, 0x000000DF); // IRQ and FIQ disabled
}

#[test]
fn test_cpu_mode_change() {
    let mut cpu = Arm7Cpu::new();
    assert_eq!(cpu.registers.mode(), CpuMode::System);

    cpu.switch_cpu_mode(CpuMode::Irq);
    assert_eq!(cpu.registers.mode(), CpuMode::Irq);

    cpu.switch_cpu_mode(CpuMode::Abort);
    assert_eq!(cpu.registers.mode(), CpuMode::Abort);

    cpu.switch_cpu_mode(CpuMode::Supervisor);
    assert_eq!(cpu.registers.mode(), CpuMode::Supervisor);

    cpu.switch_cpu_mode(CpuMode::Fiq);
    assert_eq!(cpu.registers.mode(), CpuMode::Fiq);

    cpu.switch_cpu_mode(CpuMode::Undefined);
    assert_eq!(cpu.registers.mode(), CpuMode::Undefined);

    cpu.switch_cpu_mode(CpuMode::User);
    assert_eq!(cpu.registers.mode(), CpuMode::User);
}

#[test]
fn test_cpu_default_is_reset() {
    let cpu = Arm7Cpu::default();
    assert_eq!(cpu.pipeline, [0, 0]);
    assert_eq!(cpu.next_access, ACCESS_CODE);
    assert_eq!(cpu.registers.user_bank, [0; 16]);
    assert_eq!(cpu.registers.fiq_registers, [0; 7]);
    assert_eq!(cpu.registers.spsr_svc, 0);
    assert_eq!(CpuMode::default(), CpuMode::System);
    assert_eq!(CpuState::default(), CpuState::Arm);
}

#[test]
fn test_condition_table() {
    let codes = [
        Condition::Equal,
        Condition::NotEqual,
        Condition::CarrySet,
        Condition::CarryCleared,
        Condition::Minus,
        Condition::Positive,
        Condition::Overflow,
        Condition::NoOverflow,
        Condition::UnsignedHigher,
        Condition::UnsignedLowerOrSame,
        Condition::GreaterOrEqual,
        Condition::LessThan,
        Condition::GreaterThan,
        Condition::LessOrEqual,
        Condition::Always,
        Condition::Never,
    ];
    for code in 0..16u32 {
        assert_eq!(Condition::from_code(code), codes[code as usize]);
        for flags in 0..16u32 {
            let n = flags & 8 != 0;
            let z = flags & 4 != 0;
            let c = flags & 2 != 0;
            let v = flags & 1 != 0;
            let expected = match code {
                0x0 => z,
                0x1 => !z,
                0x2 => c,
                0x3 => !c,
                0x4 => n,
                0x5 => !n,
                0x6 => v,
                0x7 => !v,
                0x8 => c && !z,
                0x9 => !c || z,
                0xA => n == v,
                0xB => n != v,
                0xC => !z && n == v,
                0xD => z || n != v,
                0xE => true,
                _ => false,
            };
            let mut registers = RegisterFile::default();
            registers.cpsr = (flags << 28) | 0x1F;
            assert_eq!(registers.sign(), n);
            assert_eq!(registers.zero(), z);
            assert_eq!(registers.carry(), c);
            assert_eq!(registers.overflow(), v);
            let opcode = (code << 28) | 0x00A0_0000;
            assert_eq!(check_condition(&registers, opcode), expected, "code {code} flags {flags}");
            assert_eq!(codes[code as usize].holds(z, c, v, n), expected);
        }
    }
}

#[test]
fn test_mode_and_state_round_trip() {
    let modes = [
        (CpuMode::User, 0b10000),
        (CpuMode::Fiq, 0b10001),
        (CpuMode::Irq, 0b10010),
        (CpuMode::Supervisor, 0b10011),
        (CpuMode::Abort, 0b10111),
        (CpuMode::Undefined, 0b11011),
        (CpuMode::System, 0b11111),
    ];
    let states = [(CpuState::Arm, 0), (CpuState::Thumb, 0x20)];
    for (mode, mode_bits) in modes {
        assert_eq!(mode.bits(), mode_bits);
        assert_eq!(CpuMode::try_from(mode_bits), Ok(mode));
        for (state, state_bits) in states {
            assert_eq!(state.bits(), state_bits);
            assert_eq!(CpuState::try_from(state_bits), Ok(state));
            let mut registers = RegisterFile::default();
            registers.cpsr = 0xF000_00C0 | mode.bits() | state.bits();
            assert_eq!(registers.mode(), mode);
            assert_eq!(registers.try_mode(), Some(mode));
            assert_eq!(registers.state(), state);
        }
    }
}

#[test]
fn test_mode_out_of_range_is_an_error() {
    assert_eq!(CpuMode::try_from(0), Err(()));
    assert_eq!(CpuMode::try_from(0b10100), Err(()));
    assert_eq!(CpuMode::try_from(0xFFFF_FF00 | 0b10011), Ok(CpuMode::Supervisor));
    assert_eq!(CpuState::try_from(1), Err(()));
    assert_eq!(CpuState::try_from(0x40), Err(()));
    let mut registers = RegisterFile::default();
    registers.cpsr = 0;
    assert_eq!(registers.try_mode(), None);
}

#[test]
fn test_toggle_state() {
    let mut cpu = Arm7Cpu::new();
    cpu.toggle_cpu_state();
    assert_eq!(cpu.registers.state(), CpuState::Thumb);
    assert_eq!(cpu.registers.cpsr, 0xFF);
    cpu.toggle_cpu_state();
    assert_eq!(cpu.registers.state(), CpuState::Arm);
    assert_eq!(cpu.registers.cpsr, 0xDF);
}

#[test]
fn test_banked_registers() {
    let mut cpu = Arm7Cpu::new();
    for index in 0..16 {
        cpu.registers.write(index, 100 + index as u32);
    }
    // The FIQ mode has R8 to R14 of its own.
    cpu.switch_cpu_mode(CpuMode::Fiq);
    for index in 0..16 {
        let expected = if (8..=14).contains(&index) { 0 } else { 100 + index as u32 };
        assert_eq!(cpu.registers.read(index), expected);
    }
    cpu.registers.write(8, 0xF8);
    cpu.registers.write(14, 0xFE);
    cpu.registers.write(7, 0xF7);
    assert_eq!(cpu.registers.fiq_registers, [0xF8, 0, 0, 0, 0, 0, 0xFE]);
    assert_eq!(cpu.registers.user_bank[7], 0xF7);
    assert_eq!(cpu.registers.user_bank[8], 108);
    // The other privileged modes have R13 and R14 of their own.
    for (mode, base) in [
        (CpuMode::Supervisor, 0x10),
        (CpuMode::Abort, 0x20),
        (CpuMode::Irq, 0x30),
        (CpuMode::Undefined, 0x40),
    ] {
        cpu.switch_cpu_mode(mode);
        assert_eq!(cpu.registers.read(13), 0);
        assert_eq!(cpu.registers.read(12), 112);
        assert_eq!(cpu.registers.read(8), 108);
        cpu.registers.write(13, base + 13);
        cpu.registers.write(14, base + 14);
        assert_eq!(cpu.registers.read(13), base + 13);
        assert_eq!(cpu.registers.read(14), base + 14);
    }
    assert_eq!((cpu.registers.r13_svc, cpu.registers.r14_svc), (0x1D, 0x1E));
    assert_eq!((cpu.registers.r13_abt, cpu.registers.r14_abt), (0x2D, 0x2E));
    assert_eq!((cpu.registers.r13_irq, cpu.registers.r14_irq), (0x3D, 0x3E));
    assert_eq!((cpu.registers.r13_und, cpu.registers.r14_und), (0x4D, 0x4E));
    // Switching back copies nothing.
    cpu.switch_cpu_mode(CpuMode::User);
    assert_eq!(cpu.registers.read(13), 113);
    assert_eq!(cpu.registers.read(14), 114);
    cpu.switch_cpu_mode(CpuMode::System);
    assert_eq!(cpu.registers.read(13), 113);
}

#[test]
fn test_saved_status() {
    let mut cpu = Arm7Cpu::new();
    cpu.registers.spsr_fiq = 1;
    cpu.registers.spsr_irq = 2;
    cpu.registers.spsr_svc = 3;
    cpu.registers.spsr_abt = 4;
    cpu.registers.spsr_und = 5;
    assert_eq!(cpu.registers.spsr_moded(), 0xDF);
    for (mode, expected) in [
        (CpuMode::Fiq, 1),
        (CpuMode::Irq, 2),
        (CpuMode::Supervisor, 3),
        (CpuMode::Abort, 4),
        (CpuMode::Undefined, 5),
        (CpuMode::User, 0xD0),
    ] {
        cpu.switch_cpu_mode(mode);
        assert_eq!(cpu.registers.spsr_moded(), expected);
    }
}

#[test]
fn test_flags_and_program_counter() {
    let mut registers = RegisterFile::default();
    registers.update_flag(CondFlag::Zero, true);
    assert_eq!(registers.cpsr, 0x4000_00DF);
    registers.update_flag(CondFlag::Sign, true);
    registers.update_flag(CondFlag::Carry, true);
    registers.update_flag(CondFlag::Overflow, true);
    assert_eq!(registers.cpsr, 0xF000_00DF);
    registers.update_flag(CondFlag::Zero, false);
    assert_eq!(registers.cpsr, 0xB000_00DF);
    assert!(registers.sign() && !registers.zero() && registers.carry() && registers.overflow());
    assert!(registers.flag(CondFlag::Sign) && !registers.flag(CondFlag::Zero));
    assert!(registers.flag(CondFlag::IrqDisable) && !registers.flag(CondFlag::State));
    assert_eq!(CondFlag::IrqDisable.mask(), 0x80);
    assert_eq!(CondFlag::FiqDisable.mask(), 0x40);
    assert_eq!(CondFlag::State.mask(), 0x20);
    assert_eq!(CondFlag::ModeMask.mask(), 0x1F);

    registers.user_bank[15] = 0xFFFF_FFFE;
    assert_eq!(registers.get_and_incr_pc(4), 0xFFFF_FFFE);
    assert_eq!(registers.user_bank[15], 2);
}

#[test]
fn test_decode_branches() {
    assert_eq!(
        decode_arm_opcode(0xEA00_0002),
        Some(Opcode::Arm(DecodedArmOpcode::B { offset: 2 }))
    );
    assert_eq!(
        decode_arm_opcode(0xEBFF_FFFE),
        Some(Opcode::Arm(DecodedArmOpcode::BL { offset: 0xFF_FFFE }))
    );
    assert_eq!(
        decode_arm_opcode(0xE12F_FF1E),
        Some(Opcode::Arm(DecodedArmOpcode::BX { register_idx: 14 }))
    );
}

#[test]
fn test_decode_data_processing() {
    // ADDS R0, R1, #0xFF
    assert_eq!(
        decode_arm_opcode(0xE291_00FF),
        Some(Opcode::Arm(DecodedArmOpcode::DataProcessing {
            operand: DataProcessingOperand::Immediate(0xFF),
            rd: 0,
            rn: 1,
            sub_opcode: DataProcessingOpcode::ADD,
            set_flags: true,
        }))
    );
    // MOV R2, #0xFF000000: the immediate 0xFF rotated right by 8
    assert_eq!(
        decode_arm_opcode(0xE3A0_24FF),
        Some(Opcode::Arm(DecodedArmOpcode::DataProcessing {
            operand: DataProcessingOperand::ShiftedImmediate { operand: 0xFF, shift: 8 },
            rd: 2,
            rn: 0,
            sub_opcode: DataProcessingOpcode::MOV,
            set_flags: false,
        }))
    );
    // MOV R3, R4, LSR #0
    assert_eq!(
        decode_arm_opcode(0xE1A0_3024),
        Some(Opcode::Arm(DecodedArmOpcode::DataProcessing {
            operand: DataProcessingOperand::ImmediateShiftedRegister {
                operand_register: 4,
                shift: 0,
                shift_type: ShiftType::Lsr,
            },
            rd: 3,
            rn: 0,
            sub_opcode: DataProcessingOpcode::MOV,
            set_flags: false,
        }))
    );
    // ORR R5, R6, R7, ROR R8
    assert_eq!(
        decode_arm_opcode(0xE186_5877),
        Some(Opcode::Arm(DecodedArmOpcode::DataProcessing {
            operand: DataProcessingOperand::RegisterShiftedRegister {
                operand_register: 7,
                shift_register: 8,
                shift_type: ShiftType::Ror,
            },
            rd: 5,
            rn: 6,
            sub_opcode: DataProcessingOpcode::ORR,
            set_flags: false,
        }))
    );
    // CMP R1, R2
    assert_eq!(
        decode_arm_opcode(0xE151_0002),
        Some(Opcode::Arm(DecodedArmOpcode::DataProcessing {
            operand: DataProcessingOperand::ImmediateShiftedRegister {
                operand_register: 2,
                shift: 0,
                shift_type: ShiftType::Lsl,
            },
            rd: 0,
            rn: 1,
            sub_opcode: DataProcessingOpcode::CMP,
            set_flags: true,
        }))
    );
}

#[test]
fn test_decode_rejects() {
    // A comparison without the set-flags bit.
    assert_eq!(decode_arm_opcode(0xE141_0002), None);
    // A comparison with a destination that is neither 0 nor 15.
    assert_eq!(decode_arm_opcode(0xE151_3002), None);
    assert!(decode_arm_opcode(0xE151_F002).is_some());
    // A move with a first operand register.
    assert_eq!(decode_arm_opcode(0xE1A1_0002), None);
    assert_eq!(decode_arm_opcode(0xE1E1_0002), None);
    // A shift by register with bit 7 set.
    assert_eq!(decode_arm_opcode(0xE080_0291), None);
    // Single data transfer and software interrupt are not known.
    assert_eq!(decode_arm_opcode(0xE590_0000), None);
    assert_eq!(decode_arm_opcode(0xEF00_0000), None);
}

#[test]
fn test_decode_block_data_transfer() {
    // LDMIA R13!, {R0, R1, R15}
    assert_eq!(
        decode_arm_opcode(0xE8BD_8003),
        Some(Opcode::Arm(DecodedArmOpcode::BlockDataTransfer {
            base_register: 13,
            transfer_type: TransferType::Load,
            pre_increment: false,
            increment: true,
            psr_n_force_user: false,
            write_address_into_base: true,
            rlist: 0x8003,
        }))
    );
    // STMDB R13, {R4}^
    assert_eq!(
        decode_arm_opcode(0xE94D_0010),
        Some(Opcode::Arm(DecodedArmOpcode::BlockDataTransfer {
            base_register: 13,
            transfer_type: TransferType::Store,
            pre_increment: true,
            increment: false,
            psr_n_force_user: true,
            write_address_into_base: false,
            rlist: 0x0010,
        }))
    );
}

#[test]
fn test_decode_codes() {
    let operations = [
        DataProcessingOpcode::AND,
        DataProcessingOpcode::EOR,
        DataProcessingOpcode::SUB,
        DataProcessingOpcode::RSB,
        DataProcessingOpcode::ADD,
        DataProcessingOpcode::ADC,
        DataProcessingOpcode::SBC,
        DataProcessingOpcode::RSC,
        DataProcessingOpcode::TST,
        DataProcessingOpcode::TEQ,
        DataProcessingOpcode::CMP,
        DataProcessingOpcode::CMN,
        DataProcessingOpcode::ORR,
        DataProcessingOpcode::MOV,
        DataProcessingOpcode::BIC,
        DataProcessingOpcode::MVN,
    ];
    for code in 0..16u32 {
        let operation = DataProcessingOpcode::from_code(code);
        assert_eq!(operation, operations[code as usize]);
        assert_eq!(operation.is_comparison(), (8..=11).contains(&code));
        assert_eq!(operation.is_logical(), ![2, 3, 4, 5, 6, 7, 10, 11].contains(&code));
    }
    assert_eq!(ShiftType::from_code(0), ShiftType::Lsl);
    assert_eq!(ShiftType::from_code(1), ShiftType::Lsr);
    assert_eq!(ShiftType::from_code(2), ShiftType::Asr);
    assert_eq!(ShiftType::from_code(3), ShiftType::Ror);
}

#[test]
fn test_shifts() {
    assert_eq!(lsl(0x8000_0001, 1), 2);
    assert_eq!(lsl(1, 31), 0x8000_0000);
    assert_eq!(lsl(0xFFFF_FFFF, 32), 0);
    assert_eq!(lsr(0x8000_0001, 1), 0x4000_0000);
    assert_eq!(lsr(0xFFFF_FFFF, 32), 0);
    assert_eq!(asr(0x8000_0000, 4), 0xF800_0000);
    assert_eq!(asr(0x4000_0000, 4), 0x0400_0000);
    assert_eq!(asr(0x8000_0000, 32), 0xFFFF_FFFF);
    assert_eq!(asr(0x7FFF_FFFF, 200), 0);
    assert_eq!(ror(0x0000_00FF, 8), 0xFF00_0000);
    assert_eq!(ror(0x1234_5678, 32), 0x1234_5678);
    assert_eq!(ror(0x1234_5678, 36), 0x8123_4567);
    for amount in 0..70u32 {
        assert_eq!(ror(0x1234_5678, amount), 0x1234_5678u32.rotate_right(amount));
    }
}

#[test]
fn test_shifter_carry() {
    // Amount zero from a register: nothing moves, the carry stays.
    for shift_type in [ShiftType::Lsl, ShiftType::Lsr, ShiftType::Asr, ShiftType::Ror] {
        assert_eq!(shift(shift_type, 0x8000_0001, 0, true), (0x8000_0001, true));
        assert_eq!(shift(shift_type, 0x8000_0001, 0, false), (0x8000_0001, false));
    }
    assert_eq!(shift(ShiftType::Lsl, 0x4000_0001, 2, false), (4, true));
    assert_eq!(shift(ShiftType::Lsl, 0x0000_0001, 32, false), (0, true));
    assert_eq!(shift(ShiftType::Lsl, 0xFFFF_FFFF, 33, true), (0, false));
    assert_eq!(shift(ShiftType::Lsr, 0x0000_0006, 2, false), (1, true));
    assert_eq!(shift(ShiftType::Lsr, 0x8000_0000, 32, false), (0, true));
    assert_eq!(shift(ShiftType::Lsr, 0xFFFF_FFFF, 33, true), (0, false));
    assert_eq!(shift(ShiftType::Asr, 0x8000_0004, 3, false), (0xF000_0000, true));
    assert_eq!(shift(ShiftType::Asr, 0x8000_0000, 32, false), (0xFFFF_FFFF, true));
    assert_eq!(shift(ShiftType::Asr, 0x7FFF_FFFF, 255, true), (0, false));
    assert_eq!(shift(ShiftType::Ror, 0x0000_0001, 1, false), (0x8000_0000, true));
    assert_eq!(shift(ShiftType::Ror, 0x8000_0000, 32, false), (0x8000_0000, true));
    assert_eq!(shift(ShiftType::Ror, 0x0000_0002, 34, false), (0x8000_0000, true));
}

#[test]
fn test_shift_by_immediate_zero() {
    let value = 0x8000_0003;
    assert_eq!(shift_by_immediate(ShiftType::Lsl, value, 0, true), (value, None));
    assert_eq!(shift_by_immediate(ShiftType::Lsr, value, 0, false), (0, Some(true)));
    assert_eq!(shift_by_immediate(ShiftType::Lsr, 0x7FFF_FFFF, 0, true), (0, Some(false)));
    assert_eq!(shift_by_immediate(ShiftType::Asr, value, 0, false), (0xFFFF_FFFF, Some(true)));
    assert_eq!(shift_by_immediate(ShiftType::Asr, 0x7FFF_FFFF, 0, true), (0, Some(false)));
    assert_eq!(shift_by_immediate(ShiftType::Ror, value, 0, false), (0x4000_0001, Some(true)));
    assert_eq!(shift_by_immediate(ShiftType::Ror, 2, 0, true), (0x8000_0001, Some(false)));
    assert_eq!(shift_by_immediate(ShiftType::Lsl, 1, 4, true), (16, Some(false)));
}

#[test]
fn test_arithmetic() {
    assert_eq!(do_add(1, 0xFFFF_FFFF), (0, true, false));
    assert_eq!(do_add(0x7FFF_FFFF, 1), (0x8000_0000, false, true));
    assert_eq!(do_add(0x8000_0000, 0x8000_0000), (0, true, true));
    assert_eq!(do_add(2, 3), (5, false, false));
    assert_eq!(do_adc(0xFFFF_FFFF, 0, true), (0, true, false));
    assert_eq!(do_adc(0xFFFF_FFFF, 0xFFFF_FFFF, true), (0xFFFF_FFFF, true, false));
    assert_eq!(do_adc(0x7FFF_FFFF, 0, true), (0x8000_0000, false, true));
    assert_eq!(do_adc(1, 2, false), (3, false, false));
    assert_eq!(do_sub(5, 3), (2, true, false));
    assert_eq!(do_sub(3, 5), (0xFFFF_FFFE, false, false));
    assert_eq!(do_sub(0x8000_0000, 1), (0x7FFF_FFFF, true, true));
    assert_eq!(do_sub(0, 0), (0, true, false));
    assert_eq!(do_sbc(5, 3, true), (2, true, false));
    assert_eq!(do_sbc(5, 3, false), (1, true, false));
    assert_eq!(do_sbc(3, 3, false), (0xFFFF_FFFF, false, false));
    assert_eq!(do_sbc(0x8000_0000, 0, false), (0x7FFF_FFFF, true, true));
}

#[test]
fn test_branch() {
    let mut cpu = Arm7Cpu::new();
    cpu.registers.user_bank[15] = 0x100;
    let mut bus = RecordingBus::with_words(&[(0x120, 0xAAAA), (0x124, 0xBBBB)]);
    execute_b(&mut cpu, &mut bus, 8);
    // The target is 0x100 + 8 * 4; the pipeline is filled from there.
    assert_eq!(cpu.registers.user_bank[15], 0x128);
    assert_eq!(cpu.pipeline, [0xAAAA, 0xBBBB]);
    assert_eq!(cpu.next_access, CODE_SEQ);
    assert_eq!(
        bus.inner().accesses,
        vec![read(0x120, 0xAAAA, CODE_NONSEQ), read(0x124, 0xBBBB, CODE_SEQ)]
    );
}

#[test]
fn test_branch_backwards_and_wrapping() {
    let mut cpu = Arm7Cpu::new();
    cpu.registers.user_bank[15] = 0x100;
    let mut bus = RecordingBus::with_words(&[]);
    // Offset -2 words.
    execute_b(&mut cpu, &mut bus, 0xFF_FFFE);
    assert_eq!(cpu.registers.user_bank[15], 0x100);
    assert_eq!(
        bus.inner().accesses,
        vec![read(0xF8, 0xF8, CODE_NONSEQ), read(0xFC, 0xFC, CODE_SEQ)]
    );

    let mut cpu = Arm7Cpu::new();
    cpu.registers.user_bank[15] = 4;
    let mut bus = RecordingBus::with_words(&[]);
    // Offset -0x800000 words, the lowest.
    execute_b(&mut cpu, &mut bus, 0x80_0000);
    assert_eq!(cpu.registers.user_bank[15], 0xFE00_000C);
}

#[test]
fn test_branch_with_link() {
    let mut cpu = cpu_in_mode(CpuMode::Irq);
    cpu.registers.user_bank[15] = 0x1008;
    let mut bus = RecordingBus::with_words(&[]);
    execute_bl(&mut cpu, &mut bus, 0x10);
    assert_eq!(cpu.registers.read(14), 0x1004);
    // The link register is the one of the current mode.
    assert_eq!(cpu.registers.r14_irq, 0x1004);
    assert_eq!(cpu.registers.user_bank[14], 0);
    assert_eq!(cpu.registers.user_bank[15], 0x1008 + 0x40 + 8);
    assert_eq!(bus.inner().accesses.len(), 2);
}

#[test]
fn test_branch_and_exchange() {
    let mut cpu = Arm7Cpu::new();
    cpu.registers.user_bank[3] = 0x2000;
    let mut bus = RecordingBus::with_words(&[]);
    execute_arm_to_thumb_bx(&mut cpu, &mut bus, 3);
    assert_eq!(cpu.registers.state(), CpuState::Arm);
    assert_eq!(cpu.registers.user_bank[15], 0x2008);
    assert_eq!(cpu.next_access, CODE_SEQ);
    assert_eq!(
        bus.inner().accesses,
        vec![
            read(0x2000, 0x2000, ACCESS_CODE | ACCESS_NONSEQ),
            read(0x2004, 0x2004, CODE_SEQ)
        ]
    );

    // A set low bit changes the state; the pipeline takes half-words.
    let mut cpu = Arm7Cpu::new();
    cpu.registers.user_bank[3] = 0x2001;
    let mut bus = RecordingBus::with_words(&[(0x2000, 0x1_BEEF)]);
    execute_arm_to_thumb_bx(&mut cpu, &mut bus, 3);
    assert_eq!(cpu.registers.state(), CpuState::Thumb);
    assert_eq!(cpu.registers.user_bank[15], 0x2004);
    assert_eq!(cpu.pipeline, [0xBEEF, 0x2002]);
    assert_eq!(
        bus.inner().accesses,
        vec![
            Access { kind: Kind::ReadHalfWord, address: 0x2000, data: 0xBEEF, access: ACCESS_CODE },
            Access { kind: Kind::ReadHalfWord, address: 0x2002, data: 0x2002, access: CODE_SEQ },
        ]
    );
}

#[test]
fn test_add_sets_flags() {
    let mut cpu = Arm7Cpu::new();
    cpu.registers.user_bank[1] = 1;
    cpu.registers.user_bank[15] = 0x108;
    let mut bus = RecordingBus::with_words(&[]);
    execute_data_processing(
        &mut cpu,
        &mut bus,
        DataProcessingOpcode::ADD,
        0,
        1,
        DataProcessingOperand::Immediate(0xFFFF_FFFF),
        true,
    );
    assert_eq!(cpu.registers.user_bank[0], 0);
    assert!(cpu.registers.carry());
    assert!(cpu.registers.zero());
    assert!(!cpu.registers.overflow());
    assert!(!cpu.registers.sign());
    assert_eq!(cpu.registers.user_bank[15], 0x10C);
    assert_eq!(cpu.next_access, CODE_SEQ);
    assert!(bus.inner().accesses.is_empty());
}

#[test]
fn test_move_with_logical_shift_right_by_zero() {
    for value in [0x8000_0001u32, 0x7FFF_FFFF] {
        let mut cpu = Arm7Cpu::new();
        cpu.registers.user_bank[2] = value;
        cpu.registers.user_bank[1] = 0x55;
        let mut bus = RecordingBus::with_words(&[]);
        execute_data_processing(
            &mut cpu,
            &mut bus,
            DataProcessingOpcode::MOV,
            1,
            0,
            DataProcessingOperand::ImmediateShiftedRegister {
                operand_register: 2,
                shift: 0,
                shift_type: ShiftType::Lsr,
            },
            true,
        );
        assert_eq!(cpu.registers.user_bank[1], 0);
        assert_eq!(cpu.registers.carry(), value & 0x8000_0000 != 0);
        assert!(cpu.registers.zero());
    }
}

#[test]
fn test_logical_operation_keeps_carry_without_shift() {
    let mut cpu = Arm7Cpu::new();
    cpu.registers.update_flag(CondFlag::Carry, true);
    cpu.registers.update_flag(CondFlag::Overflow, true);
    cpu.registers.user_bank[1] = 0xF0;
    let mut bus = RecordingBus::with_words(&[]);
    execute_data_processing(
        &mut cpu,
        &mut bus,
        DataProcessingOpcode::AND,
        0,
        1,
        DataProcessingOperand::Immediate(0x0F),
        true,
    );
    assert_eq!(cpu.registers.user_bank[0], 0);
    assert!(cpu.registers.zero() && cpu.registers.carry() && cpu.registers.overflow());

    // A rotated immediate gives the carry: bit 31 of the rotated value.
    execute_data_processing(
        &mut cpu,
        &mut bus,
        DataProcessingOpcode::MOV,
        0,
        0,
        DataProcessingOperand::ShiftedImmediate { operand: 0x01, shift: 2 },
        true,
    );
    assert_eq!(cpu.registers.user_bank[0], 0x4000_0000);
    assert!(!cpu.registers.carry());
    execute_data_processing(
        &mut cpu,
        &mut bus,
        DataProcessingOpcode::MVN,
        0,
        0,
        DataProcessingOperand::ShiftedImmediate { operand: 0x02, shift: 2 },
        true,
    );
    assert_eq!(cpu.registers.user_bank[0], 0x7FFF_FFFF);
    assert!(cpu.registers.carry());
    assert!(cpu.registers.overflow());
}

#[test]
fn test_every_operation() {
    let cases = [
        (DataProcessingOpcode::AND, 0b1100, 0b1010, false, Some(0b1000)),
        (DataProcessingOpcode::EOR, 0b1100, 0b1010, false, Some(0b0110)),
        (DataProcessingOpcode::SUB, 10, 3, false, Some(7)),
        (DataProcessingOpcode::RSB, 3, 10, false, Some(7)),
        (DataProcessingOpcode::ADD, 10, 3, true, Some(13)),
        (DataProcessingOpcode::ADC, 10, 3, true, Some(14)),
        (DataProcessingOpcode::SBC, 10, 3, false, Some(6)),
        (DataProcessingOpcode::RSC, 3, 10, true, Some(7)),
        (DataProcessingOpcode::TST, 0b1100, 0b1010, false, None),
        (DataProcessingOpcode::TEQ, 0b1100, 0b1010, false, None),
        (DataProcessingOpcode::CMP, 10, 3, false, None),
        (DataProcessingOpcode::CMN, 10, 3, false, None),
        (DataProcessingOpcode::ORR, 0b1100, 0b1010, false, Some(0b1110)),
        (DataProcessingOpcode::MOV, 0b1100, 0b1010, false, Some(0b1010)),
        (DataProcessingOpcode::BIC, 0b1100, 0b1010, false, Some(0b0100)),
        (DataProcessingOpcode::MVN, 0b1100, 0b1010, false, Some(0xFFFF_FFF5)),
    ];
    for (operation, a, b, carry, expected) in cases {
        let mut cpu = Arm7Cpu::new();
        cpu.registers.update_flag(CondFlag::Carry, carry);
        cpu.registers.user_bank[1] = a;
        cpu.registers.user_bank[0] = 0xABCD;
        let mut bus = RecordingBus::with_words(&[]);
        execute_data_processing(
            &mut cpu,
            &mut bus,
            operation,
            0,
            1,
            DataProcessingOperand::Immediate(b),
            false,
        );
        assert_eq!(cpu.registers.user_bank[0], expected.unwrap_or(0xABCD), "{operation:?}");
        assert_eq!(cpu.registers.carry(), carry);
        assert_eq!(cpu.registers.user_bank[15], 4);
    }
}

#[test]
fn test_comparison_sets_flags_only() {
    let mut cpu = Arm7Cpu::new();
    cpu.registers.user_bank[1] = 3;
    cpu.registers.user_bank[15] = 0x40;
    let mut bus = RecordingBus::with_words(&[]);
    // CMP R1, #5 with the destination field at 15: no redirection.
    execute_data_processing(
        &mut cpu,
        &mut bus,
        DataProcessingOpcode::CMP,
        15,
        1,
        DataProcessingOperand::Immediate(5),
        true,
    );
    assert!(cpu.registers.sign() && !cpu.registers.zero() && !cpu.registers.carry());
    // With the flags set and the destination field at 15 the status word
    // comes from the saved one, which is the current one in system mode.
    assert_eq!(cpu.registers.user_bank[15], 0x44);
    assert!(bus.inner().accesses.is_empty());
}

#[test]
fn test_shift_by_register_takes_a_cycle() {
    let mut cpu = Arm7Cpu::new();
    cpu.registers.user_bank[2] = 0x0000_00F0;
    cpu.registers.user_bank[3] = 0xFFFF_FF04;
    cpu.registers.user_bank[15] = 0x108;
    let mut bus = RecordingBus::with_words(&[]);
    // MOV R0, R2, LSL R3: only the low byte of R3 counts.
    execute_data_processing(
        &mut cpu,
        &mut bus,
        DataProcessingOpcode::MOV,
        0,
        0,
        DataProcessingOperand::RegisterShiftedRegister {
            operand_register: 2,
            shift_register: 3,
            shift_type: ShiftType::Lsl,
        },
        false,
    );
    assert_eq!(cpu.registers.user_bank[0], 0x0000_0F00);
    assert_eq!(cpu.registers.user_bank[15], 0x10C);
    assert_eq!(
        bus.inner().accesses,
        vec![Access { kind: Kind::Idle, address: 0, data: 0, access: 0 }]
    );

    // The program counter as operand reads one word further.
    let mut cpu = Arm7Cpu::new();
    cpu.registers.user_bank[15] = 0x108;
    let mut bus = RecordingBus::with_words(&[]);
    execute_data_processing(
        &mut cpu,
        &mut bus,
        DataProcessingOpcode::ADD,
        0,
        15,
        DataProcessingOperand::RegisterShiftedRegister {
            operand_register: 15,
            shift_register: 3,
            shift_type: ShiftType::Lsl,
        },
        false,
    );
    assert_eq!(cpu.registers.user_bank[0], 0x218);
    assert_eq!(cpu.registers.user_bank[15], 0x10C);
}

#[test]
fn test_write_to_program_counter_reloads() {
    let mut cpu = cpu_in_mode(CpuMode::Supervisor);
    cpu.registers.spsr_svc = 0x6000_0010;
    cpu.registers.user_bank[15] = 0x108;
    let mut bus = RecordingBus::with_words(&[]);
    // MOVS PC, #0x400: return from the supervisor mode.
    execute_data_processing(
        &mut cpu,
        &mut bus,
        DataProcessingOpcode::MOV,
        15,
        0,
        DataProcessingOperand::Immediate(0x400),
        true,
    );
    assert_eq!(cpu.registers.cpsr, 0x6000_0010);
    assert_eq!(cpu.registers.mode(), CpuMode::User);
    assert_eq!(cpu.registers.user_bank[15], 0x408);
    assert_eq!(cpu.pipeline, [0x400, 0x404]);
    assert_eq!(
        bus.inner().accesses,
        vec![read(0x400, 0x400, CODE_NONSEQ), read(0x404, 0x404, CODE_SEQ)]
    );
}

fn transfer(
    base_register: usize,
    transfer_type: TransferType,
    pre_increment: bool,
    increment: bool,
    write_address_into_base: bool,
    rlist: u16,
) -> BlockTransfer {
    BlockTransfer {
        base_register,
        transfer_type,
        pre_increment,
        increment,
        psr_n_force_user: false,
        write_address_into_base,
        rlist,
    }
}

#[test]
fn test_count_registers() {
    assert_eq!(count_registers(0), 0);
    assert_eq!(count_registers(0x8000), 1);
    assert_eq!(count_registers(0x8003), 3);
    assert_eq!(count_registers(0xFFFF), 16);
}

#[test]
fn test_store_multiple_addresses() {
    // The four ways of addressing, with three registers and base 0x1000.
    let cases = [
        (false, true, [0x1000, 0x1004, 0x1008], 0x100C),
        (true, true, [0x1004, 0x1008, 0x100C], 0x100C),
        (false, false, [0x0FF8, 0x0FFC, 0x1000], 0x0FF4),
        (true, false, [0x0FF4, 0x0FF8, 0x0FFC], 0x0FF4),
    ];
    for (pre, up, addresses, base_after) in cases {
        let mut cpu = Arm7Cpu::new();
        cpu.registers.user_bank[0] = 0x10;
        cpu.registers.user_bank[2] = 0x12;
        cpu.registers.user_bank[5] = 0x15;
        cpu.registers.user_bank[13] = 0x1000;
        cpu.registers.user_bank[15] = 0x208;
        let mut bus = RecordingBus::with_words(&[]);
        execute_block_data_transfer(
            &mut cpu,
            &mut bus,
            transfer(13, TransferType::Store, pre, up, true, 0b10_0101),
        );
        assert_eq!(
            bus.inner().accesses,
            vec![
                write(addresses[0], 0x10, ACCESS_NONSEQ),
                write(addresses[1], 0x12, ACCESS_SEQ),
                write(addresses[2], 0x15, ACCESS_SEQ),
            ]
        );
        assert_eq!(cpu.registers.user_bank[13], base_after);
        assert_eq!(cpu.registers.user_bank[15], 0x20C);
        assert_eq!(cpu.next_access, ACCESS_CODE | ACCESS_NONSEQ);
    }
}

#[test]
fn test_load_multiple() {
    let mut cpu = cpu_in_mode(CpuMode::Fiq);
    cpu.registers.user_bank[1] = 0x3000;
    let mut bus = RecordingBus::with_words(&[(0x3000, 7), (0x3004, 9)]);
    // LDMIA R1, {R0, R8}: R8 is the one of the FIQ mode.
    execute_block_data_transfer(
        &mut cpu,
        &mut bus,
        transfer(1, TransferType::Load, false, true, false, 0x0101),
    );
    assert_eq!(cpu.registers.user_bank[0], 7);
    assert_eq!(cpu.registers.fiq_registers[0], 9);
    assert_eq!(cpu.registers.user_bank[8], 0);
    assert_eq!(cpu.registers.user_bank[1], 0x3000);
    assert_eq!(cpu.registers.user_bank[15], 4);
    assert_eq!(
        bus.inner().accesses,
        vec![read(0x3000, 7, ACCESS_NONSEQ), read(0x3004, 9, ACCESS_SEQ)]
    );
}

#[test]
fn test_load_multiple_with_base_in_list_keeps_loaded_base() {
    let mut cpu = Arm7Cpu::new();
    cpu.registers.user_bank[1] = 0x3000;
    let mut bus = RecordingBus::with_words(&[(0x3000, 7), (0x3004, 9)]);
    execute_block_data_transfer(
        &mut cpu,
        &mut bus,
        transfer(1, TransferType::Load, false, true, true, 0b11),
    );
    assert_eq!(cpu.registers.user_bank[0], 7);
    assert_eq!(cpu.registers.user_bank[1], 9);
}

#[test]
fn test_load_multiple_with_program_counter_reloads() {
    let mut cpu = Arm7Cpu::new();
    cpu.registers.user_bank[13] = 0x3000;
    let mut bus = RecordingBus::with_words(&[(0x3000, 7), (0x3004, 0x500)]);
    // LDMIA R13!, {R0, R15}
    execute_block_data_transfer(
        &mut cpu,
        &mut bus,
        transfer(13, TransferType::Load, false, true, true, 0x8001),
    );
    assert_eq!(cpu.registers.user_bank[0], 7);
    assert_eq!(cpu.registers.user_bank[13], 0x3008);
    assert_eq!(cpu.registers.user_bank[15], 0x508);
    assert_eq!(cpu.pipeline, [0x500, 0x504]);
    assert_eq!(cpu.next_access, CODE_SEQ);
    assert_eq!(
        bus.inner().accesses,
        vec![
            read(0x3000, 7, ACCESS_NONSEQ),
            read(0x3004, 0x500, ACCESS_SEQ),
            read(0x500, 0x500, ACCESS_CODE | ACCESS_NONSEQ),
            read(0x504, 0x504, CODE_SEQ),
        ]
    );
}

#[test]
fn test_empty_list_transfers_program_counter() {
    // A store with an empty list stores the program counter alone.
    let mut cpu = Arm7Cpu::new();
    cpu.registers.user_bank[2] = 0x1000;
    cpu.registers.user_bank[15] = 0x208;
    let mut bus = RecordingBus::with_words(&[]);
    execute_block_data_transfer(
        &mut cpu,
        &mut bus,
        transfer(2, TransferType::Store, false, true, true, 0),
    );
    assert_eq!(bus.inner().accesses, vec![write(0x1000, 0x208, ACCESS_NONSEQ)]);
    assert_eq!(cpu.registers.user_bank[2], 0x1004);
    assert_eq!(cpu.registers.user_bank[15], 0x20C);

    // A load with an empty list loads the program counter alone.
    let mut cpu = Arm7Cpu::new();
    cpu.registers.user_bank[2] = 0x1000;
    let mut bus = RecordingBus::with_words(&[(0x1000, 0x700)]);
    execute_block_data_transfer(
        &mut cpu,
        &mut bus,
        transfer(2, TransferType::Load, false, true, false, 0),
    );
    assert_eq!(cpu.registers.user_bank[15], 0x708);
    assert_eq!(
        bus.inner().accesses,
        vec![
            read(0x1000, 0x700, ACCESS_NONSEQ),
            read(0x700, 0x700, ACCESS_CODE | ACCESS_NONSEQ),
            read(0x704, 0x704, CODE_SEQ),
        ]
    );
}

#[test]
fn test_store_of_base_register_with_write_back() {
    // The base register is the lowest in the list: its old value is stored.
    let mut cpu = Arm7Cpu::new();
    cpu.registers.user_bank[1] = 0x1000;
    cpu.registers.user_bank[3] = 0x33;
    let mut bus = RecordingBus::with_words(&[]);
    execute_block_data_transfer(
        &mut cpu,
        &mut bus,
        transfer(1, TransferType::Store, false, true, true, 0b1010),
    );
    assert_eq!(
        bus.inner().accesses,
        vec![write(0x1000, 0x1000, ACCESS_NONSEQ), write(0x1004, 0x33, ACCESS_SEQ)]
    );
    assert_eq!(cpu.registers.user_bank[1], 0x1008);

    // The base register is not the lowest: its new value is stored.
    let mut cpu = Arm7Cpu::new();
    cpu.registers.user_bank[0] = 0x30;
    cpu.registers.user_bank[1] = 0x1000;
    let mut bus = RecordingBus::with_words(&[]);
    execute_block_data_transfer(
        &mut cpu,
        &mut bus,
        transfer(1, TransferType::Store, false, true, true, 0b0011),
    );
    assert_eq!(
        bus.inner().accesses,
        vec![write(0x1000, 0x30, ACCESS_NONSEQ), write(0x1004, 0x1008, ACCESS_SEQ)]
    );
    assert_eq!(cpu.registers.user_bank[1], 0x1008);

    // Without write-back the base register is stored as it is.
    let mut cpu = Arm7Cpu::new();
    cpu.registers.user_bank[1] = 0x1000;
    let mut bus = RecordingBus::with_words(&[]);
    execute_block_data_transfer(
        &mut cpu,
        &mut bus,
        transfer(1, TransferType::Store, false, true, false, 0b0011),
    );
    assert_eq!(
        bus.inner().accesses,
        vec![write(0x1000, 0, ACCESS_NONSEQ), write(0x1004, 0x1000, ACCESS_SEQ)]
    );
    assert_eq!(cpu.registers.user_bank[1], 0x1000);
}

#[test]
fn test_step_branch_from_reset_address() {
    let mut registers = RegisterFile::default();
    registers.cpsr = 0x13;
    let mut cpu = Arm7Cpu { registers, pipeline: [0xEA00_0002, 0], next_access: ACCESS_CODE };
    assert_eq!(cpu.registers.mode(), CpuMode::Supervisor);
    assert_eq!(cpu.registers.state(), CpuState::Arm);
    let mut bus = RecordingBus::with_words(&[(0, 0xEA00_0002)]);
    let outcome = cpu.step(&mut bus);
    assert_eq!(outcome, StepOutcome::Executed(Opcode::Arm(DecodedArmOpcode::B { offset: 2 })));
    assert_eq!(cpu.registers.user_bank[15], 0x10);
    assert_eq!(
        bus.inner().accesses,
        vec![
            read(0, 0xEA00_0002, ACCESS_CODE),
            read(8, 8, CODE_NONSEQ),
            read(12, 12, CODE_SEQ),
        ]
    );
    assert_eq!(cpu.pipeline, [8, 12]);
    assert_eq!(cpu.registers.cpsr, 0x13);
}

#[test]
fn test_step_passes_over_failed_condition() {
    let mut cpu = Arm7Cpu::new();
    // MOVEQ R0, #1 with the zero flag clear.
    cpu.pipeline = [0x03A0_0001, 0x1111];
    cpu.registers.user_bank[15] = 0x109;
    let mut bus = RecordingBus::with_words(&[(0x108, 0x2222)]);
    let outcome = cpu.step(&mut bus);
    assert!(matches!(outcome, StepOutcome::ConditionFailed(_)));
    assert_eq!(cpu.registers.user_bank[0], 0);
    assert_eq!(cpu.registers.user_bank[15], 0x10C);
    assert_eq!(cpu.pipeline, [0x1111, 0x2222]);
    assert_eq!(cpu.next_access, CODE_SEQ);
    assert_eq!(
        bus.inner().accesses,
        vec![read(0x108, 0x2222, ACCESS_CODE), read(0x108, 0x2222, ACCESS_CODE)]
    );
}

#[test]
fn test_step_never_condition() {
    let mut cpu = Arm7Cpu::new();
    cpu.registers.cpsr = 0xF000_001F;
    cpu.pipeline = [0xF3A0_0001, 0];
    let mut bus = RecordingBus::with_words(&[]);
    assert!(matches!(cpu.step(&mut bus), StepOutcome::ConditionFailed(_)));
    assert_eq!(cpu.registers.user_bank[0], 0);
}

#[test]
fn test_step_reports_unknown_word() {
    let mut cpu = Arm7Cpu::new();
    cpu.pipeline = [0xEF00_0000, 0x1111];
    cpu.registers.user_bank[15] = 0x108;
    let mut bus = RecordingBus::with_words(&[(0x108, 0x2222)]);
    let before = cpu.registers;
    let outcome = cpu.step(&mut bus);
    assert_eq!(outcome, StepOutcome::Unrecognized(0xEF00_0000));
    assert_eq!(cpu.registers.user_bank, before.user_bank);
    assert_eq!(cpu.registers.cpsr, before.cpsr);
    assert_eq!(cpu.pipeline, [0x1111, 0x2222]);
    assert_eq!(bus.inner().accesses, vec![read(0x108, 0x2222, ACCESS_CODE)]);
}

#[test]
fn test_step_sequence() {
    // MOV R0, #5; ADDS R1, R0, #3; STMIA R2, {R0, R1}
    let program = [0xE3A0_0005u32, 0xE290_1003, 0xE882_0003, 0xE1A0_0000, 0xE1A0_0000];
    let words: Vec<(u32, u32)> =
        program.iter().enumerate().map(|(i, word)| (4 * i as u32, *word)).collect();
    let mut bus = RecordingBus::with_words(&words);
    let mut cpu = Arm7Cpu::new();
    cpu.registers.user_bank[2] = 0x0300_0000;
    cpu.reload_pipeline(&mut bus);
    assert_eq!(cpu.pipeline, [program[0], program[1]]);
    for _ in 0..3 {
        assert!(matches!(cpu.step(&mut bus), StepOutcome::Executed(_)));
    }
    assert_eq!(cpu.registers.user_bank[0], 5);
    assert_eq!(cpu.registers.user_bank[1], 8);
    assert_eq!(cpu.registers.user_bank[15], 0x14);
    let stores: Vec<Access> =
        bus.inner().accesses.iter().copied().filter(|a| a.kind == Kind::WriteWord).collect();
    assert_eq!(
        stores,
        vec![write(0x0300_0000, 5, ACCESS_NONSEQ), write(0x0300_0004, 8, ACCESS_SEQ)]
    );
    let bus = bus.into_inner();
    assert_eq!(bus.accesses.len(), 2 + 3 + 2);
}

#[test]
fn test_reload_starts_with_non_sequential_fetch() {
    for pending in [CODE_SEQ, CODE_NONSEQ, ACCESS_SEQ, ACCESS_NONSEQ] {
        let mut cpu = Arm7Cpu::new();
        cpu.next_access = pending;
        cpu.registers.user_bank[15] = 0x80;
        let mut bus = RecordingBus::with_words(&[(0x80, 1), (0x84, 2)]);
        cpu.reload_pipeline(&mut bus);
        assert_eq!(
            bus.inner().accesses,
            vec![read(0x80, 1, CODE_NONSEQ), read(0x84, 2, CODE_SEQ)]
        );
        assert_eq!(cpu.pipeline, [1, 2]);
        assert_eq!(cpu.registers.user_bank[15], 0x88);
        assert_eq!(cpu.next_access, CODE_SEQ);

        // The same in Thumb state, with half-words.
        let mut cpu = Arm7Cpu::new();
        cpu.toggle_cpu_state();
        cpu.next_access = pending;
        cpu.registers.user_bank[15] = 0x80;
        let mut bus = RecordingBus::with_words(&[(0x80, 1), (0x82, 2)]);
        cpu.reload_pipeline(&mut bus);
        assert_eq!(
            bus.inner().accesses,
            vec![
                Access { kind: Kind::ReadHalfWord, address: 0x80, data: 1, access: CODE_NONSEQ },
                Access { kind: Kind::ReadHalfWord, address: 0x82, data: 2, access: CODE_SEQ },
            ]
        );
        assert_eq!(cpu.registers.user_bank[15], 0x84);
        assert_eq!(cpu.next_access, CODE_SEQ);
    }
}

#[test]
fn test_fetch_word() {
    let mut cpu = Arm7Cpu::new();
    cpu.registers.user_bank[15] = 0x40;
    let mut bus = RecordingBus::with_words(&[(0x40, 0xCAFE)]);
    assert_eq!(cpu.fetch_word(&mut bus), 0xCAFE);
    assert_eq!(cpu.registers.user_bank[15], 0x44);
    assert_eq!(bus.inner().accesses, vec![read(0x40, 0xCAFE, ACCESS_CODE)]);
}

#[test]
fn test_traced_bus_passes_every_access_on() {
    let mut bus = RecordingBus::with_words(&[(0x10, 0xABCD_1234)]);
    assert_eq!(bus.read_word(0x10, 1), 0xABCD_1234);
    assert_eq!(bus.read_half_word(0x10, 2), 0x1234);
    bus.write_word(0x20, 7, 0);
    bus.write_half_word(0x24, 8, 1);
    bus.idle();
    assert_eq!(
        bus.into_inner().accesses,
        vec![
            read(0x10, 0xABCD_1234, 1),
            Access { kind: Kind::ReadHalfWord, address: 0x10, data: 0x1234, access: 2 },
            write(0x20, 7, 0),
            Access { kind: Kind::WriteHalfWord, address: 0x24, data: 8, access: 1 },
            Access { kind: Kind::Idle, address: 0, data: 0, access: 0 },
        ]
    );
}
