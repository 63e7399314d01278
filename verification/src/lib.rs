//! Verified core of a bridge between a Rust harness and a Lean model of the
//! SBPF virtual machine: Lean object headers and reference counts, the
//! one-time start-up of the Lean runtime, the text encoding of requests and
//! replies, instruction decoding, fuzzing configuration and the verdict that
//! compares two executions.
#![allow(non_camel_case_types)]

pub mod object;
pub mod decimal;
pub mod init;
pub mod protocol;
pub mod config;
pub mod disasm;
pub mod diff;
