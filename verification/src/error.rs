use vstd::prelude::*;

verus! {

/// Why the machine refused an operation. Each of these means that the program
/// being run is ill-formed; none is recoverable.
#[derive(Debug, Clone, Copy, PartialEq, Eq, Structural)]
pub enum VmError {
    /// An operation on integers or on blocks met a value of another variant.
    TypeMismatch,
    /// A position beyond the environment, beyond a block's fields, or a
    /// continuation that the program does not hold.
    OutOfRange,
    /// A stack held too few values, or values of a shape that the
    /// application protocol does not allow.
    ProtocolViolation,
}

} // verus!
