//! An Intel 8080 interpreter: a 64 KB flat address space, the seven 8-bit
//! registers with their five condition flags, and the semantics of every
//! opcode, stated against a mathematical model of the processor state and
//! proved bit-exact.

pub mod cpu;
pub mod instructions;
pub mod intel8080;
pub mod laws;
pub mod model;
