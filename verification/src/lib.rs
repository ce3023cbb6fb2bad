//! A small abstract machine for a strict functional calculus.
//!
//! The machine runs continuations against an explicit state: an operand
//! stack, a stack of return frames and a lexical environment. Functions are
//! curried and applied one argument at a time; tail calls reuse the pending
//! return frame, so a loop written as a tail call runs in constant space.
//!
//! * [`value`] holds the runtime values and their mathematical content.
//! * [`error`] holds the ways in which an ill-formed program fails.
//! * [`machine`] is the machine as mathematics: each operation as a
//!   function on states.
//! * [`vm`] is the executable machine; every operation is proved to do what
//!   [`machine`] says.
//! * [`program`] describes continuations as data.
//! * [`laws`] states and proves what holds of the operations together.
pub mod error;
pub mod laws;
pub mod machine;
pub mod program;
pub mod value;
pub mod vm;
