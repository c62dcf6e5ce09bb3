//! Privileged x86 primitives as plain values.
//!
//! Each primitive of the processor (interrupt control, descriptor-table and
//! task-register loads, halt, timestamp and model-specific-register access,
//! port I/O) is described by a function that places its operands exactly where
//! the instruction expects them and returns the request as an `Instruction` or
//! a `StringInstruction`. Whoever owns the processor issues the request and
//! hands back the registers it left behind; `Outputs` decodes them.
//!
//! `Machine` is a reference processor: it performs requests on a register bank
//! and a set of loop-back ports, so that what a request means can be stated and
//! the round trips through the encodings can be proved.

pub mod halves;
pub mod descriptor;
pub mod selector;
pub mod instructions;
pub mod port;
pub mod machine;
pub mod round_trips;
