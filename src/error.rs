use vstd::prelude::*;

verus! {

/// The ways in which building the constraints can fail.
#[derive(Clone, Copy, Debug, PartialEq, Eq, Structural)]
pub enum SynthesisError {
    /// A variable was allocated without a constraint system.
    MissingCS,
    /// The assignment of a variable was needed but is not known.
    AssignmentMissing,
    /// A variable whose assignment is zero was inverted.
    DivisionByZero,
    /// The constraint system cannot be satisfied.
    Unsatisfiable,
    /// A polynomial ended up of too high a degree.
    PolynomialDegreeTooLarge,
    /// An identity element was met in the reference string.
    UnexpectedIdentity,
    /// A verifying key was malformed.
    MalformedVerifyingKey,
    /// An auxiliary variable was left unconstrained.
    UnconstrainedVariable,
}

/// How a new variable enters the constraint system.
#[derive(Clone, Copy, Debug, PartialEq, Eq, Structural)]
pub enum AllocationMode {
    /// Baked into the circuit: its value is always known.
    Constant,
    /// A public input.
    Input,
    /// A private witness.
    Witness,
}

/// What the allocation code asks of the constraint system: whether it is
/// only being set up, in which case inputs and witnesses carry no value.
#[derive(Clone, Copy, Debug, PartialEq, Eq, Structural)]
pub struct ConstraintSystem {
    pub setup_mode: bool,
}

impl ConstraintSystem {
    /// Whether a variable allocated in `mode` takes its value from the provider.
    pub open spec fn spec_needs_value(self, mode: AllocationMode) -> bool {
        mode == AllocationMode::Constant || !self.setup_mode
    }

    pub fn needs_value(&self, mode: AllocationMode) -> (r: bool)
        ensures
            r == self.spec_needs_value(mode),
    {
        match mode {
            AllocationMode::Constant => true,
            _ => !self.setup_mode,
        }
    }
}

} // verus!
