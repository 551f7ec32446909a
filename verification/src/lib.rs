//! The core of an NVMe block driver.
//!
//! What the driver decides is here, as functions on plain values. The host around it does what it
//! is told, moves bytes between this core, the device and the block layer, and reports what came
//! of it.
pub mod admin;
pub mod defs;
pub mod disk;
pub mod irq;
pub mod module;
pub mod mq;
pub mod probe;
pub mod prp;
pub mod queue;
pub mod wire;
