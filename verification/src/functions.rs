//! What the metadata layer asks of the registry of functions.

use vstd::prelude::*;

verus! {

/// The registry that supplies scalar and aggregate functions by name. The
/// metadata layer assumes nothing about what a registry answers.
pub trait FunctionRegistry {
    /// The descriptor of a scalar function.
    type Scalar;

    /// The descriptor of an aggregate function.
    type Aggregate;

    /// What the registry says of a name that it does not know.
    type Error;

    /// The scalar function called `name`.
    fn udf(&self, name: &str) -> Result<Self::Scalar, Self::Error>;

    /// The aggregate function called `name`.
    fn udaf(&self, name: &str) -> Result<Self::Aggregate, Self::Error>;
}

/// Whether `answer` is something that `registry` may say when it is asked
/// for the scalar function called `name`.
pub open spec fn registry_found_scalar<F: FunctionRegistry>(
    registry: &F,
    name: Seq<char>,
    answer: Result<F::Scalar, F::Error>,
) -> bool {
    exists|n: &str| n@ == name && #[trigger] call_ensures(F::udf, (registry, n), answer)
}

/// Whether `answer` is something that `registry` may say when it is asked
/// for the aggregate function called `name`.
pub open spec fn registry_found_aggregate<F: FunctionRegistry>(
    registry: &F,
    name: Seq<char>,
    answer: Result<F::Aggregate, F::Error>,
) -> bool {
    exists|n: &str| n@ == name && #[trigger] call_ensures(F::udaf, (registry, n), answer)
}

} // verus!
