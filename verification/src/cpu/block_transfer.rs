//! Block data transfer: load and store of several registers with one
//! instruction.
//!
//! The registers named in the list are moved lowest first, to or from
//! consecutive words of memory. The first transaction is non-sequential,
//! the others are sequential. Registers are read and written in the
//! current mode, and the program counter is stored as it stands.

use crate::cpu::alu::low_word;
use crate::cpu::opcodes::TransferType;
use crate::cpu::{Arm7Cpu, Effect};
use crate::system_bus::{
    data_of, lemma_trace_chain, lemma_trace_push, BusAccess, BusOp, SystemBus, TracedBus,
    ACCESS_CODE, ACCESS_NONSEQ, ACCESS_SEQ,
};
use vstd::prelude::*;

verus! {

/// The fields of a block data transfer instruction.
#[derive(Debug, Clone, Copy, PartialEq, Eq, Structural)]
pub struct BlockTransfer {
    pub base_register: usize,
    pub transfer_type: TransferType,
    /// The address moves before each transfer, not after it.
    pub pre_increment: bool,
    /// The addresses lie above the base, not below it.
    pub increment: bool,
    /// Carried from the instruction word; it does not change what the
    /// transfer does.
    pub psr_n_force_user: bool,
    pub write_address_into_base: bool,
    pub rlist: u16,
}

/// Register `index` has its bit set in `list`.
pub open spec fn listed(list: u16, index: int) -> bool {
    0 <= index < 16 && (list >> (index as u16)) & 1 != 0
}

/// How many registers below `upto` have their bit set in `list`.
pub open spec fn count_listed(list: u16, upto: int) -> nat
    decreases upto,
{
    if upto <= 0 {
        0
    } else if listed(list, upto - 1) {
        count_listed(list, upto - 1) + 1
    } else {
        count_listed(list, upto - 1)
    }
}

/// The access kind of the transfer at `position`: the first is
/// non-sequential, the others are sequential.
pub open spec fn transfer_access(position: nat) -> u8 {
    if position == 0 {
        ACCESS_NONSEQ
    } else {
        ACCESS_SEQ
    }
}

impl BlockTransfer {
    /// The registers that are transferred. An empty list stands for the
    /// program counter alone.
    pub open spec fn list(self) -> u16 {
        if self.rlist == 0 {
            0x8000
        } else {
            self.rlist
        }
    }

    /// Register `index` is transferred.
    pub open spec fn lists(self, index: int) -> bool {
        listed(self.list(), index)
    }

    /// How many transfers come before that of register `index`.
    pub open spec fn position(self, index: int) -> nat {
        count_listed(self.list(), index)
    }

    /// The number of bytes transferred: four for each register.
    pub open spec fn bytes(self) -> int {
        4 * (count_listed(self.list(), 16) as int)
    }

    /// The base after write-back: the old base moved by the bytes
    /// transferred, up or down.
    pub open spec fn final_base(self, base: u32) -> u32 {
        if self.increment {
            low_word(base + self.bytes())
        } else {
            low_word(base - self.bytes())
        }
    }

    /// The address of the first transfer, which is the lowest. Upwards
    /// the transfers start at the base, or one word above it with
    /// indexing before the transfer. Downwards they end one word below
    /// the base with indexing before the transfer, and at the base
    /// without.
    pub open spec fn start_address(self, base: u32) -> u32 {
        if self.increment {
            if self.pre_increment {
                low_word(base + 4)
            } else {
                base
            }
        } else {
            if self.pre_increment {
                low_word(base - self.bytes())
            } else {
                low_word(base - self.bytes() + 4)
            }
        }
    }

    /// The address of the transfer at `position`: one word further for
    /// each transfer before it.
    pub open spec fn address(self, base: u32, position: nat) -> u32 {
        low_word(self.start_address(base) + 4 * position)
    }

    /// What a store writes for register `index`: the register, but for the
    /// base register under write-back, where it is not the first register
    /// transferred, the base as it will be after write-back.
    pub open spec fn stored_value(self, cpu: Arm7Cpu, index: int) -> u32 {
        if index == self.base_register && self.write_address_into_base && self.position(index)
            != 0 {
            self.final_base(cpu.registers.spec_read(self.base_register))
        } else {
            cpu.registers.reg(index)
        }
    }

    /// The bus transaction that moves register `index`, given the data
    /// that the bus returns at each position.
    pub open spec fn access_for(self, cpu: Arm7Cpu, index: int, input: Seq<u32>) -> BusAccess {
        let position = self.position(index);
        let address = self.address(cpu.registers.spec_read(self.base_register), position);
        match self.transfer_type {
            TransferType::Load => BusAccess::read_word(
                address,
                transfer_access(position),
                input[position as int],
            ),
            TransferType::Store => BusAccess::write_word(
                address,
                self.stored_value(cpu, index),
                transfer_access(position),
            ),
        }
    }

    /// The transfers of the registers below `upto`, from the lowest
    /// register up, starting from `cpu`: each listed register is loaded
    /// from, or stored to, the next word.
    pub open spec fn spec_transfers(self, cpu: Arm7Cpu, upto: int, input: Seq<u32>) -> Effect
        decreases upto,
    {
        if upto <= 0 {
            Effect { cpu, trace: Seq::empty() }
        } else {
            let done = self.spec_transfers(cpu, upto - 1, input);
            let index = upto - 1;
            if !self.lists(index) {
                done
            } else {
                let access = self.access_for(cpu, index, input);
                match self.transfer_type {
                    TransferType::Load => Effect {
                        cpu: done.cpu.with_registers(
                            done.cpu.registers.with_reg(index, input[self.position(index) as int]),
                        ),
                        trace: done.trace.push(access),
                    },
                    TransferType::Store => Effect { cpu: done.cpu, trace: done.trace.push(access) },
                }
            }
        }
    }

    /// The base register is written back after the transfers, unless the
    /// instruction loaded it.
    pub open spec fn writes_back(self) -> bool {
        self.write_address_into_base && !(self.transfer_type == TransferType::Load && self.lists(
            self.base_register as int,
        ))
    }

    /// The instruction loads the program counter.
    pub open spec fn loads_pc(self) -> bool {
        self.transfer_type == TransferType::Load && self.lists(15)
    }

    /// A block data transfer: the transfers, then the write-back of the
    /// base. Where the program counter was loaded the pipeline is
    /// refilled, starting with a non-sequential code fetch; otherwise the
    /// program counter moves one word on and a non-sequential code fetch
    /// is pending.
    pub open spec fn spec_execute(self, cpu: Arm7Cpu, input: Seq<u32>) -> Effect {
        let base = cpu.registers.spec_read(self.base_register);
        let moved = self.spec_transfers(cpu, 16, input);
        let written_back = if self.writes_back() {
            moved.cpu.registers.spec_write(self.base_register, self.final_base(base))
        } else {
            moved.cpu.registers
        };
        let finished = moved.cpu.with_registers(written_back).with_next_access(
            ACCESS_CODE | ACCESS_NONSEQ,
        );
        if self.loads_pc() {
            let reloaded = finished.spec_reload_pipeline(input.skip(moved.trace.len() as int));
            Effect { cpu: reloaded.cpu, trace: moved.trace + reloaded.trace }
        } else {
            Effect {
                cpu: finished.with_registers(
                    written_back.with_pc(written_back.pc().wrapping_add(4)),
                ),
                trace: moved.trace,
            }
        }
    }
}

/// The shape of what the transfers below `upto` leave: one transaction
/// for each listed register, the status word, the pipeline and the pending
/// access kind untouched, and after stores no register changed.
pub proof fn lemma_transfers_shape(
    transfer: BlockTransfer,
    cpu: Arm7Cpu,
    upto: int,
    input: Seq<u32>,
)
    requires
        0 <= upto <= 16,
    ensures
        transfer.spec_transfers(cpu, upto, input).trace.len() == transfer.position(upto),
        transfer.spec_transfers(cpu, upto, input).cpu.registers.cpsr == cpu.registers.cpsr,
        transfer.spec_transfers(cpu, upto, input).cpu.pipeline == cpu.pipeline,
        transfer.spec_transfers(cpu, upto, input).cpu.next_access == cpu.next_access,
        transfer.transfer_type == TransferType::Store ==> transfer.spec_transfers(
            cpu,
            upto,
            input,
        ).cpu == cpu,
    decreases upto,
{
    if upto > 0 {
        lemma_transfers_shape(transfer, cpu, upto - 1, input);
    }
}

/// The transfers below `upto` look at the input only at the positions of
/// their own transactions.
pub proof fn lemma_transfers_input(
    transfer: BlockTransfer,
    cpu: Arm7Cpu,
    upto: int,
    first: Seq<u32>,
    second: Seq<u32>,
)
    requires
        0 <= upto <= 16,
        forall|k: int| 0 <= k < transfer.position(upto) ==> first[k] == second[k],
    ensures
        transfer.spec_transfers(cpu, upto, first) == transfer.spec_transfers(cpu, upto, second),
    decreases upto,
{
    if upto > 0 {
        lemma_transfers_input(transfer, cpu, upto - 1, first, second);
    }
}

/// The transaction of each listed register stands in the trace at the
/// register's position.
pub proof fn lemma_transfer_entry(
    transfer: BlockTransfer,
    cpu: Arm7Cpu,
    upto: int,
    input: Seq<u32>,
    index: int,
)
    requires
        0 <= index < upto <= 16,
        transfer.lists(index),
    ensures
        transfer.position(index) < transfer.position(upto),
        transfer.spec_transfers(cpu, upto, input).trace.len() == transfer.position(upto),
        transfer.spec_transfers(cpu, upto, input).trace[transfer.position(index) as int]
            == transfer.access_for(cpu, index, input),
    decreases upto,
{
    lemma_transfers_shape(transfer, cpu, upto, input);
    lemma_transfers_shape(transfer, cpu, upto - 1, input);
    if index < upto - 1 {
        lemma_transfer_entry(transfer, cpu, upto - 1, input, index);
    }
}

/// Bit 15 is the only bit of the list that stands for an empty one.
proof fn lemma_only_pc_listed(index: u16)
    by (bit_vector)
    requires
        index < 16,
    ensures
        ((0x8000u16 >> index) & 1 != 0) == (index == 15),
{
}

/// In the list that stands for an empty one, the program counter is the
/// only register, and it is the first.
pub proof fn lemma_empty_list_positions(transfer: BlockTransfer, upto: int)
    requires
        transfer.rlist == 0,
        0 <= upto <= 16,
    ensures
        transfer.position(upto) == if upto == 16 {
            1nat
        } else {
            0nat
        },
        forall|index: int| transfer.lists(index) <==> index == 15,
    decreases upto,
{
    assert forall|index: int| transfer.lists(index) <==> index == 15 by {
        if 0 <= index < 16 {
            lemma_only_pc_listed(index as u16);
        }
    }
    if upto > 0 {
        lemma_empty_list_positions(transfer, upto - 1);
        assert(transfer.lists(upto - 1) <==> upto - 1 == 15);
    }
}

/// An instruction with an empty register list transfers exactly one word,
/// the one of the program counter, at the first address and as a
/// non-sequential access.
pub proof fn lemma_empty_list_transfers_pc(transfer: BlockTransfer, cpu: Arm7Cpu, input: Seq<u32>)
    requires
        transfer.rlist == 0,
    ensures
        transfer.bytes() == 4,
        transfer.spec_transfers(cpu, 16, input).trace =~= seq![
            transfer.access_for(cpu, 15, input),
        ],
        transfer.access_for(cpu, 15, input).address == transfer.start_address(
            cpu.registers.spec_read(transfer.base_register),
        ),
        transfer.access_for(cpu, 15, input).access == ACCESS_NONSEQ,
        transfer.transfer_type == TransferType::Store ==> transfer.access_for(cpu, 15, input)
            == BusAccess::write_word(
            transfer.start_address(cpu.registers.spec_read(transfer.base_register)),
            cpu.registers.reg(15),
            ACCESS_NONSEQ,
        ),
        transfer.transfer_type == TransferType::Load ==> transfer.spec_transfers(cpu, 16, input).cpu
            == cpu.with_registers(cpu.registers.with_reg(15, input[0])),
{
    lemma_empty_list_positions(transfer, 16);
    lemma_empty_list_positions(transfer, 15);
    lemma_transfers_shape(transfer, cpu, 16, input);
    lemma_transfer_entry(transfer, cpu, 16, input, 15);
    lemma_no_transfer_below(transfer, cpu, 15, input);
}

/// Where no register below `upto` is listed, nothing happens below `upto`.
pub proof fn lemma_no_transfer_below(
    transfer: BlockTransfer,
    cpu: Arm7Cpu,
    upto: int,
    input: Seq<u32>,
)
    requires
        0 <= upto <= 16,
        transfer.position(upto) == 0,
    ensures
        transfer.spec_transfers(cpu, upto, input) == (Effect { cpu, trace: Seq::empty() }),
    decreases upto,
{
    if upto > 0 {
        lemma_no_transfer_below(transfer, cpu, upto - 1, input);
    }
}

/// A store with write-back whose list holds the base register stores, for
/// the base register, the base as it was before the instruction where the
/// base register is the lowest in the list, and the base as it is after
/// write-back where it is not.
pub proof fn lemma_stored_base(transfer: BlockTransfer, cpu: Arm7Cpu, input: Seq<u32>)
    requires
        transfer.transfer_type == TransferType::Store,
        transfer.write_address_into_base,
        transfer.base_register < 16,
        transfer.lists(transfer.base_register as int),
    ensures
        transfer.position(transfer.base_register as int) < transfer.spec_execute(
            cpu,
            input,
        ).trace.len(),
        transfer.spec_execute(cpu, input).trace[transfer.position(
            transfer.base_register as int,
        ) as int].op == BusOp::WriteWord,
        transfer.spec_execute(cpu, input).trace[transfer.position(
            transfer.base_register as int,
        ) as int].data == if transfer.position(transfer.base_register as int) == 0 {
            cpu.registers.spec_read(transfer.base_register)
        } else {
            transfer.final_base(cpu.registers.spec_read(transfer.base_register))
        },
{
    lemma_transfer_entry(transfer, cpu, 16, input, transfer.base_register as int);
}

/// One more transfer: what the transfers below `index + 1` leave, given
/// what those below `index` left and the transaction made for `index`.
proof fn lemma_transfer_step(
    transfer: BlockTransfer,
    cpu: Arm7Cpu,
    index: int,
    before: Effect,
    made: BusAccess,
)
    requires
        0 <= index < 16,
        transfer.lists(index),
        before.trace.len() == transfer.position(index),
        transfer.spec_transfers(cpu, index, data_of(before.trace)) == before,
        made == transfer.access_for(cpu, index, data_of(before.trace.push(made))),
    ensures
        transfer.position(index + 1) == transfer.position(index) + 1,
        transfer.spec_transfers(cpu, index + 1, data_of(before.trace.push(made))) == (Effect {
            cpu: if transfer.transfer_type == TransferType::Load {
                before.cpu.with_registers(before.cpu.registers.with_reg(index, made.data))
            } else {
                before.cpu
            },
            trace: before.trace.push(made),
        }),
{
    lemma_transfers_input(
        transfer,
        cpu,
        index,
        data_of(before.trace),
        data_of(before.trace.push(made)),
    );
}

/// The address of each transfer is one word above that of the one before.
proof fn lemma_address_step(transfer: BlockTransfer, base: u32, position: nat)
    ensures
        transfer.address(base, position + 1) == transfer.address(base, position).wrapping_add(4),
        transfer.address(base, 0) == transfer.start_address(base),
{
}

/// The base after write-back and the first address, as the processor
/// computes them.
proof fn lemma_block_addresses(transfer: BlockTransfer, base: u32, bytes: u32)
    requires
        bytes == transfer.bytes(),
        bytes <= 64,
    ensures
        transfer.final_base(base) == if transfer.increment {
            base.wrapping_add(bytes)
        } else {
            base.wrapping_sub(bytes)
        },
        transfer.start_address(base) == if transfer.increment {
            if transfer.pre_increment {
                base.wrapping_add(4)
            } else {
                base
            }
        } else {
            if transfer.pre_increment {
                base.wrapping_sub(bytes)
            } else {
                base.wrapping_sub(bytes).wrapping_add(4)
            }
        },
{
}

/// Register `index` has its bit set in `list`.
pub fn is_listed(list: u16, index: usize) -> (set: bool)
    requires
        index < 16,
    ensures
        set == listed(list, index as int),
{
    (list >> (index as u16)) & 1 != 0
}

/// The number of registers in `list`.
pub fn count_registers(list: u16) -> (count: u32)
    ensures
        count == count_listed(list, 16),
        count <= 16,
{
    let mut count: u32 = 0;
    let mut index: usize = 0;
    while index < 16
        invariant
            index <= 16,
            count == count_listed(list, index as int),
            count <= index,
        decreases 16 - index,
    {
        if is_listed(list, index) {
            count += 1;
        }
        index += 1;
    }
    count
}

/// Executes a block data transfer.
pub fn execute_block_data_transfer<BusType: SystemBus>(
    cpu: &mut Arm7Cpu,
    bus: &mut TracedBus<BusType>,
    transfer: BlockTransfer,
)
    requires
        old(cpu).registers.has_valid_mode(),
        transfer.base_register < 16,
    ensures
        final(bus).extends(old(bus)),
        transfer.spec_execute(*old(cpu), data_of(final(bus).since(old(bus)))) == (Effect {
            cpu: *final(cpu),
            trace: final(bus).since(old(bus)),
        }),
{
    // An empty list transfers the program counter alone.
    let list: u16 = if transfer.rlist == 0 {
        0x8000
    } else {
        transfer.rlist
    };
    let bytes = count_registers(list) * 4;
    let base = cpu.registers.read(transfer.base_register);
    let new_base = if transfer.increment {
        base.wrapping_add(bytes)
    } else {
        base.wrapping_sub(bytes)
    };
    let mut address = if transfer.increment {
        if transfer.pre_increment {
            base.wrapping_add(4)
        } else {
            base
        }
    } else {
        if transfer.pre_increment {
            new_base
        } else {
            new_base.wrapping_add(4)
        }
    };
    let loads = match transfer.transfer_type {
        TransferType::Load => true,
        TransferType::Store => false,
    };
    let mut access = ACCESS_NONSEQ;
    let mut first = true;
    let mut index: usize = 0;
    proof {
        lemma_block_addresses(transfer, base, bytes);
        lemma_address_step(transfer, base, 0);
        assert(bus.since(old(bus)) =~= Seq::empty());
    }
    while index < 16
        invariant
            index <= 16,
            transfer.base_register < 16,
            list == transfer.list(),
            loads == (transfer.transfer_type == TransferType::Load),
            base == old(cpu).registers.spec_read(transfer.base_register),
            new_base == transfer.final_base(base),
            old(cpu).registers.has_valid_mode(),
            cpu.registers.cpsr == old(cpu).registers.cpsr,
            bus.extends(old(bus)),
            bus.since(old(bus)).len() == transfer.position(index as int),
            transfer.spec_transfers(*old(cpu), index as int, data_of(bus.since(old(bus))))
                == (Effect { cpu: *cpu, trace: bus.since(old(bus)) }),
            address == transfer.address(base, transfer.position(index as int)),
            access == transfer_access(transfer.position(index as int)),
            first == (transfer.position(index as int) == 0),
        decreases 16 - index,
    {
        if is_listed(list, index) {
            let ghost before = Effect { cpu: *cpu, trace: bus.since(old(bus)) };
            if loads {
                let data = bus.read_word(address, access);
                cpu.registers.write(index, data);
            } else {
                let value = if index == transfer.base_register && transfer.write_address_into_base
                    && !first {
                    new_base
                } else {
                    cpu.registers.read(index)
                };
                proof {
                    lemma_transfers_shape(
                        transfer,
                        *old(cpu),
                        index as int,
                        data_of(before.trace),
                    );
                }
                bus.write_word(address, value, access);
            }
            proof {
                let made = bus.log().last();
                lemma_trace_push(old(bus).log(), before.trace, made);
                assert(bus.since(old(bus)) =~= before.trace.push(made));
                lemma_transfer_step(transfer, *old(cpu), index as int, before, made);
                lemma_address_step(transfer, base, transfer.position(index as int));
            }
            address = address.wrapping_add(4);
            access = ACCESS_SEQ;
            first = false;
        }
        index += 1;
    }
    let ghost moved = bus.since(old(bus));
    let ghost middle = bus.log();
    if transfer.write_address_into_base && !(loads && is_listed(list, transfer.base_register)) {
        cpu.registers.write(transfer.base_register, new_base);
    }
    cpu.next_access = ACCESS_CODE | ACCESS_NONSEQ;
    if loads && is_listed(list, 15) {
        cpu.reload_pipeline(bus);
        proof {
            lemma_trace_chain(old(bus).log(), middle, bus.log());
            lemma_transfers_input(
                transfer,
                *old(cpu),
                16,
                data_of(moved),
                data_of(bus.since(old(bus))),
            );
        }
    } else {
        cpu.registers.get_and_incr_pc(4);
    }
}

} // verus!
