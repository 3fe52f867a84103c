//! Reads a per-core power-state status register, decodes its packed
//! bit-fields into clock frequency and core voltage, and models the
//! privilege-restriction discipline that must surround those reads.

pub mod backend;
pub mod cpuctl;
pub mod ctlprobe;
pub mod decode;
pub mod errors;
pub mod session;
pub mod topology;
