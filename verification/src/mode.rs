//! The build-mode dispatch table: which effect each instrumentation
//! primitive has under a given build configuration.
//!
//! The configuration is fixed once, when an artifact is built, and never
//! changes while it runs, so every resolution below is a pure function of
//! the mode.

use vstd::prelude::*;

verus! {

/// The compile-time configuration an instrumented build is made with: two
/// independent switches, fixed for the lifetime of the artifact.
#[derive(Clone, Copy, Debug, PartialEq, Eq, Structural)]
pub struct BuildMode {
    /// The build is compiled for analysis by the formal verification tool.
    pub verification: bool,
    /// The build is compiled for high-iteration randomized testing.
    pub fuzzing: bool,
}

/// What the debug-print primitive does in one build mode.
#[derive(Clone, Copy, Debug, PartialEq, Eq, Structural)]
pub enum PrintEffect {
    /// Forwards to the host's diagnostic printer, which evaluates the
    /// argument, prints it, and passes its value through.
    Forward,
    /// No code is generated: the argument is never evaluated and nothing
    /// is printed.
    Elided,
}

/// What the coverage-marker primitive does in one build mode.
#[derive(Clone, Copy, Debug, PartialEq, Eq, Structural)]
pub enum MarkerEffect {
    /// The verification tool's own marking primitive records whether the
    /// marked condition was reachable.
    Native,
    /// The marked expression is type-checked inside a branch that can
    /// never run: it is neither evaluated nor recorded.
    Inert,
}

/// Which definitions the two verification-only primitives resolve to.
#[derive(Clone, Copy, Debug, PartialEq, Eq, Structural)]
pub enum DispatchState {
    /// The verification tool's real primitives, re-exported verbatim.
    Native,
    /// The stand-ins: type-correct substitutes that perform no
    /// exploration at runtime.
    StandIn,
}

/// Diagnostic output is elided in every cost-sensitive build: under the
/// verification tool and under the fuzzer.
pub open spec fn spec_print_effect(m: BuildMode) -> PrintEffect {
    if m.verification || m.fuzzing {
        PrintEffect::Elided
    } else {
        PrintEffect::Forward
    }
}

/// Marking is real exactly under the verification tool.
pub open spec fn spec_marker_effect(m: BuildMode) -> MarkerEffect {
    if m.verification {
        MarkerEffect::Native
    } else {
        MarkerEffect::Inert
    }
}

/// The verification-only primitives are native exactly under the tool.
pub open spec fn spec_dispatch_state(m: BuildMode) -> DispatchState {
    if m.verification {
        DispatchState::Native
    } else {
        DispatchState::StandIn
    }
}

/// Whether a print effect evaluates the printed expression at runtime.
pub open spec fn print_evaluates(e: PrintEffect) -> bool {
    e is Forward
}

/// Whether a marker effect may examine the marked expression at all:
/// only the tool's native marker does.
pub open spec fn marker_evaluates(e: MarkerEffect) -> bool {
    e is Native
}

/// The debug-print column of the build-mode table.
pub fn debug_print_effect(m: BuildMode) -> (e: PrintEffect)
    ensures
        e == spec_print_effect(m),
{
    if m.verification || m.fuzzing {
        PrintEffect::Elided
    } else {
        PrintEffect::Forward
    }
}

/// The coverage-marker column of the build-mode table.
pub fn coverage_marker_effect(m: BuildMode) -> (e: MarkerEffect)
    ensures
        e == spec_marker_effect(m),
{
    if m.verification {
        MarkerEffect::Native
    } else {
        MarkerEffect::Inert
    }
}

/// The resolution of the two verification-only primitives in one build
/// mode.
pub fn dispatch_state(m: BuildMode) -> (s: DispatchState)
    ensures
        s == spec_dispatch_state(m),
{
    if m.verification {
        DispatchState::Native
    } else {
        DispatchState::StandIn
    }
}

/// Every build mode resolves each primitive to exactly one effect, and
/// the resolution follows the mode table: debug-print forwards exactly in
/// ordinary builds, and the coverage marker and the verification-only
/// primitives are native exactly under the verification tool.
pub proof fn lemma_mode_table(m: BuildMode)
    ensures
        (spec_print_effect(m) is Forward) <==> (!m.verification && !m.fuzzing),
        (spec_marker_effect(m) is Native) <==> m.verification,
        (spec_dispatch_state(m) is Native) <==> m.verification,
{
}

/// Under the verification tool, and likewise under the fuzzer, the
/// debug-print primitive is fully elided: nothing is printed and its
/// argument is never evaluated.
pub proof fn lemma_print_elided_when_sensitive(m: BuildMode)
    requires
        m.verification || m.fuzzing,
    ensures
        spec_print_effect(m) is Elided,
        !print_evaluates(spec_print_effect(m)),
{
}

/// Outside verification mode the coverage marker is inert: the marked
/// expression is never evaluated, so an expression that would fail at
/// runtime is still safe to mark.
pub proof fn lemma_marker_inert_outside_verification(m: BuildMode)
    requires
        !m.verification,
    ensures
        spec_marker_effect(m) is Inert,
        !marker_evaluates(spec_marker_effect(m)),
{
}

/// How many observations an instrumentation point has recorded after a
/// number of invocations, when every invocation records one observation
/// (`active`) or none.
pub open spec fn records_after(active: bool, calls: nat) -> nat
    decreases calls,
{
    if calls == 0 {
        0
    } else {
        records_after(active, (calls - 1) as nat) + (if active { 1nat } else { 0nat })
    }
}

/// An inactive instrumentation point is idempotent: no state accumulates,
/// however often it is hit.
pub proof fn lemma_inactive_records_nothing(active: bool, calls: nat)
    requires
        !active,
    ensures
        records_after(active, calls) == 0,
    decreases calls,
{
    if calls > 0 {
        lemma_inactive_records_nothing(active, (calls - 1) as nat);
    }
}

/// Outside verification mode, repeating the coverage marker or the
/// condition-constraining primitive any number of times leaves no record
/// at all.
pub proof fn lemma_standins_accumulate_nothing(m: BuildMode, calls: nat)
    requires
        !m.verification,
    ensures
        records_after(marker_evaluates(spec_marker_effect(m)), calls) == 0,
        records_after((spec_dispatch_state(m) is Native), calls) == 0,
{
    lemma_inactive_records_nothing(marker_evaluates(spec_marker_effect(m)), calls);
    lemma_inactive_records_nothing((spec_dispatch_state(m) is Native), calls);
}

} // verus!
