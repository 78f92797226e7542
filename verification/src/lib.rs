//! Instrumentation stand-ins for code that is built both under a formal
//! verification tool and for ordinary execution or fuzzing.
//!
//! Call sites use one set of primitive names in every build. Under the
//! verification tool the names resolve to the tool's own primitives;
//! everywhere else they resolve to the stand-ins here, which type-check
//! identically but perform no exploration. The [`mode`] module states
//! which effect each primitive has under which build configuration.

use vstd::prelude::*;

pub mod mode;

verus! {

/// The failure reported when a verification-only primitive is invoked
/// outside verification mode. It is the one runtime-detectable failure in
/// the whole surface, and it is not recoverable: the violated
/// precondition, "only call this under the verification tool", cannot be
/// satisfied after the fact.
#[derive(Clone, Copy, Debug, PartialEq, Eq, Structural)]
pub struct MisuseError;

/// What every misuse report says.
pub open spec fn spec_misuse_diagnostic() -> Seq<char> {
    "arbitrary values are only available under the verification tool"@
}

impl MisuseError {
    /// The diagnostic identifying the violated precondition.
    pub fn diagnostic(&self) -> (d: &'static str)
        ensures
            d@ == spec_misuse_diagnostic(),
    {
        "arbitrary values are only available under the verification tool"
    }
}

/// Stand-in for the exploration engine's "unconstrained value of a type".
/// Outside verification mode no engine exists to supply one, so every
/// call fails, for every type: substituting a default value would
/// silently hide verification-only paths running where their results mean
/// nothing. The failure propagates to the top of the calling unit.
pub fn any<T>() -> (r: Result<T, MisuseError>)
    ensures
        r == Result::<T, MisuseError>::Err(MisuseError),
{
    Err(MisuseError)
}

/// Stand-in for the exploration engine's "constrain future exploration to
/// paths where the condition holds". An ordinary run has no exploration
/// state to prune, so this accepts the condition and does nothing at all:
/// it never fails and never alters control flow.
pub fn presume(_cond: bool) {
}

} // verus!
