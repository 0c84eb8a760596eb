//! An emulator core for the ARM7TDMI processor: register file, instruction
//! decoder, instruction executors and the pipelined fetch controller, with
//! the bus access pattern of every instruction stated in its contract.

pub mod cpu;
pub mod gamepak;
pub mod system_bus;
pub mod text;
