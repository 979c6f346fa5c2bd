//! An assembler for EVM bytecode.
//!
//! - [`opcodes`]: the instruction set, one specifier per byte, with
//!   mnemonics and immediate widths.
//! - [`bigint`]: integers of any size for immediates and expressions.
//! - [`expression`]: arithmetic over numbers, labels, macro parameters and
//!   expression macros, and its evaluation.
//! - [`ops`]: operations as they come in, and concrete instructions as they
//!   go out.
//! - [`expansion`]: the body of one expansion of an instruction macro, with
//!   fresh names for its labels.
//! - [`assembler`]: the assembler itself.

pub mod assembler;
pub mod bigint;
pub mod expansion;
pub mod expression;
pub mod opcodes;
pub mod ops;
