//! The bus seen from the processor core, and a recording port in front of it.

use crate::gamepak::Gamepak;
use vstd::bytes::{spec_u32_from_le_bytes, u32_from_le_bytes};
use vstd::prelude::*;
use vstd::slice::slice_subrange;

verus! {

/// Access kind bit: the access continues the previous address sequence.
pub const ACCESS_SEQ: u8 = 1;

/// Access kind: the access starts a fresh address sequence (no bit set).
pub const ACCESS_NONSEQ: u8 = 0;

/// Access kind bit: the access is an instruction fetch (clear for data).
pub const ACCESS_CODE: u8 = 2;

/// The access continues the previous address sequence.
pub open spec fn is_sequential(access: u8) -> bool {
    access & ACCESS_SEQ != 0
}

/// The access is an instruction fetch.
pub open spec fn is_code(access: u8) -> bool {
    access & ACCESS_CODE != 0
}

/// The four access kinds that the processor uses.
pub proof fn lemma_access_kinds()
    by (bit_vector)
    ensures
        !is_sequential(ACCESS_NONSEQ) && !is_code(ACCESS_NONSEQ),
        is_sequential(ACCESS_SEQ) && !is_code(ACCESS_SEQ),
        !is_sequential(ACCESS_CODE | ACCESS_NONSEQ) && is_code(ACCESS_CODE | ACCESS_NONSEQ),
        is_sequential(ACCESS_CODE | ACCESS_SEQ) && is_code(ACCESS_CODE | ACCESS_SEQ),
        ACCESS_CODE | ACCESS_NONSEQ == ACCESS_CODE,
        ACCESS_CODE | ACCESS_SEQ == 3,
{
}

/// The memory and peripherals behind the processor. An implementation may
/// return anything from a read; the core makes no assumption about it.
pub trait SystemBus {
    fn read_word(&mut self, address: u32, access: u8) -> u32;

    fn read_half_word(&mut self, address: u32, access: u8) -> u16;

    fn write_word(&mut self, address: u32, data: u32, access: u8);

    fn write_half_word(&mut self, address: u32, data: u16, access: u8);

    /// One bus turn in which the processor works internally.
    fn idle(&mut self);
}

/// First address above the BIOS region.
pub const BIOS_END: u32 = 0x4000;

/// The memory of the console: the cartridge and the BIOS, which is mapped
/// at address zero while it is active.
pub struct Bus {
    gamepak: Gamepak,
    bios: Vec<u8>,
    bios_active: bool,
}

impl Bus {
    pub closed spec fn spec_bios(&self) -> Seq<u8> {
        self.bios@
    }

    pub closed spec fn spec_bios_active(&self) -> bool {
        self.bios_active
    }

    pub closed spec fn spec_gamepak(&self) -> Gamepak {
        self.gamepak
    }

    /// The word at `address` is mapped: the BIOS is active and holds the
    /// four bytes from `address` on, below the end of its region.
    pub open spec fn maps_word(&self, address: u32) -> bool {
        self.spec_bios_active() && address < BIOS_END && address + 4 <= self.spec_bios().len()
    }

    /// The word at `address`: four bytes of the BIOS, lowest byte first.
    pub open spec fn word_at(&self, address: u32) -> u32 {
        spec_u32_from_le_bytes(self.spec_bios().subrange(address as int, address + 4))
    }

    /// A bus with the given cartridge and BIOS, the BIOS active.
    pub fn new(gamepak: Gamepak, bios: Vec<u8>) -> (bus: Bus)
        ensures
            bus.spec_bios_active(),
            bus.spec_bios() == bios@,
            bus.spec_gamepak() == gamepak,
    {
        Bus { gamepak, bios, bios_active: true }
    }

    /// Maps the BIOS in if it is out, and out if it is in.
    pub fn toggle_bios(&mut self)
        ensures
            final(self).spec_bios_active() == !old(self).spec_bios_active(),
            final(self).spec_bios() == old(self).spec_bios(),
            final(self).spec_gamepak() == old(self).spec_gamepak(),
    {
        self.bios_active = !self.bios_active;
    }

    pub fn bios_active(&self) -> (active: bool)
        ensures
            active == self.spec_bios_active(),
    {
        self.bios_active
    }

    pub fn gamepak(&self) -> (gamepak: &Gamepak)
        ensures
            *gamepak == self.spec_gamepak(),
    {
        &self.gamepak
    }

    /// Whether `read_word` can serve `address`.
    pub fn can_read_word(&self, address: u32) -> (mapped: bool)
        ensures
            mapped == self.maps_word(address),
    {
        self.bios_active && address < BIOS_END && address as usize + 4 <= self.bios.len()
    }

    /// Reads the word at a mapped address.
    pub fn read_word(&self, address: u32) -> (word: u32)
        requires
            self.maps_word(address),
        ensures
            word == self.word_at(address),
    {
        let start = address as usize;
        u32_from_le_bytes(slice_subrange(self.bios.as_slice(), start, start + 4))
    }
}

/// The operation of one bus transaction.
#[derive(Debug, Clone, Copy, PartialEq, Eq, Structural)]
pub enum BusOp {
    ReadWord,
    ReadHalfWord,
    WriteWord,
    WriteHalfWord,
    Idle,
}

/// One bus transaction. `data` is what a read returned or what a write
/// stored; for an idle turn `address`, `access` and `data` are zero.
#[derive(Debug, Clone, Copy, PartialEq, Eq, Structural)]
pub struct BusAccess {
    pub op: BusOp,
    pub address: u32,
    pub access: u8,
    pub data: u32,
}

impl BusAccess {
    pub open spec fn read_word(address: u32, access: u8, data: u32) -> BusAccess {
        BusAccess { op: BusOp::ReadWord, address, access, data }
    }

    pub open spec fn read_half_word(address: u32, access: u8, data: u16) -> BusAccess {
        BusAccess { op: BusOp::ReadHalfWord, address, access, data: data as u32 }
    }

    pub open spec fn write_word(address: u32, data: u32, access: u8) -> BusAccess {
        BusAccess { op: BusOp::WriteWord, address, access, data }
    }

    pub open spec fn write_half_word(address: u32, data: u16, access: u8) -> BusAccess {
        BusAccess { op: BusOp::WriteHalfWord, address, access, data: data as u32 }
    }

    pub open spec fn idle() -> BusAccess {
        BusAccess { op: BusOp::Idle, address: 0, access: 0, data: 0 }
    }
}

/// The data of each transaction of `trace`, position by position.
pub open spec fn data_of(trace: Seq<BusAccess>) -> Seq<u32> {
    Seq::new(trace.len(), |i: int| trace[i].data)
}

/// The transactions that `after` holds beyond those of `before`.
pub open spec fn appended(before: Seq<BusAccess>, after: Seq<BusAccess>) -> Seq<BusAccess> {
    after.skip(before.len() as int)
}

/// A bus together with the record of every transaction made through it.
/// The record is ghost: it costs nothing at run time. Since the bus is
/// reachable for writing only through the five methods below, the record is
/// complete.
pub struct TracedBus<B: SystemBus> {
    inner: B,
    log: Ghost<Seq<BusAccess>>,
}

impl<B: SystemBus> TracedBus<B> {
    /// Every transaction made so far, oldest first.
    pub closed spec fn log(&self) -> Seq<BusAccess> {
        self.log@
    }

    /// The bus behind the port.
    pub closed spec fn spec_inner(&self) -> B {
        self.inner
    }

    /// `self` has made the transactions of `before` and then some more.
    pub open spec fn extends(&self, before: &Self) -> bool {
        before.log().is_prefix_of(self.log())
    }

    /// The transactions made since `before`.
    pub open spec fn since(&self, before: &Self) -> Seq<BusAccess> {
        appended(before.log(), self.log())
    }

    /// A port in front of `inner`, with nothing on record.
    pub fn new(inner: B) -> (bus: Self)
        ensures
            bus.log() == Seq::<BusAccess>::empty(),
            bus.spec_inner() == inner,
    {
        TracedBus { inner, log: Ghost(Seq::empty()) }
    }

    /// The bus behind the port, for reading.
    pub fn inner(&self) -> (inner: &B)
        ensures
            *inner == self.spec_inner(),
    {
        &self.inner
    }

    /// Gives the bus back and drops the record.
    pub fn into_inner(self) -> (inner: B)
        ensures
            inner == self.spec_inner(),
    {
        self.inner
    }

    pub fn read_word(&mut self, address: u32, access: u8) -> (data: u32)
        ensures
            final(self).log() == old(self).log().push(BusAccess::read_word(address, access, data)),
    {
        let data = self.inner.read_word(address, access);
        proof {
            self.log@ = self.log@.push(BusAccess::read_word(address, access, data));
        }
        data
    }

    pub fn read_half_word(&mut self, address: u32, access: u8) -> (data: u16)
        ensures
            final(self).log() == old(self).log().push(
                BusAccess::read_half_word(address, access, data),
            ),
    {
        let data = self.inner.read_half_word(address, access);
        proof {
            self.log@ = self.log@.push(BusAccess::read_half_word(address, access, data));
        }
        data
    }

    pub fn write_word(&mut self, address: u32, data: u32, access: u8)
        ensures
            final(self).log() == old(self).log().push(
                BusAccess::write_word(address, data, access),
            ),
    {
        self.inner.write_word(address, data, access);
        proof {
            self.log@ = self.log@.push(BusAccess::write_word(address, data, access));
        }
    }

    pub fn write_half_word(&mut self, address: u32, data: u16, access: u8)
        ensures
            final(self).log() == old(self).log().push(
                BusAccess::write_half_word(address, data, access),
            ),
    {
        self.inner.write_half_word(address, data, access);
        proof {
            self.log@ = self.log@.push(BusAccess::write_half_word(address, data, access));
        }
    }

    pub fn idle(&mut self)
        ensures
            final(self).log() == old(self).log().push(BusAccess::idle()),
    {
        self.inner.idle();
        proof {
            self.log@ = self.log@.push(BusAccess::idle());
        }
    }
}

/// How the record grows by one transaction after `made` have been added
/// to `before`.
pub proof fn lemma_trace_push(before: Seq<BusAccess>, made: Seq<BusAccess>, access: BusAccess)
    ensures
        (before + made).push(access) =~= before + made.push(access),
        before.is_prefix_of(before + made),
        appended(before, before + made) =~= made,
        before + Seq::<BusAccess>::empty() =~= before,
{
}

/// The transactions of two stretches that follow each other are those of
/// the first and then those of the second.
pub proof fn lemma_trace_chain(
    before: Seq<BusAccess>,
    middle: Seq<BusAccess>,
    after: Seq<BusAccess>,
)
    requires
        before.is_prefix_of(middle),
        middle.is_prefix_of(after),
    ensures
        before.is_prefix_of(after),
        appended(before, after) =~= appended(before, middle) + appended(middle, after),
        data_of(appended(before, after)).skip(appended(before, middle).len() as int) =~= data_of(
            appended(middle, after),
        ),
        forall|i: int|
            0 <= i < appended(before, middle).len() ==> data_of(appended(before, after))[i]
                == #[trigger] data_of(appended(before, middle))[i],
{
}

} // verus!
