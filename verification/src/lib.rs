//! Execution runtime model for a bare-metal target without an operating
//! system: a boot sequencer that takes the processor from reset to the
//! application entry point, and a division service that drives the target's
//! memory-mapped hardware division unit.
//!
//! The hardware itself (CPU mode registers, the memory-protection
//! coprocessor, RAM, and the division unit's register file) is represented
//! by explicit machine-state types, so that every step of the boot sequence
//! and of the division protocol carries a proved contract.

pub mod arith;
pub mod boot;
pub mod divider;
