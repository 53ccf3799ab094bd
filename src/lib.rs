//! Synchronisation core of an interrupt-driven I2C controller: per-peripheral
//! wake slots, the cancellation-safe remediation protocol, the interrupt
//! handler's decisions and the error taxonomy.

mod sealed;

pub mod error;
pub mod instance;
pub mod remediation;
pub mod wake;
pub mod interrupt;
pub mod dma;
