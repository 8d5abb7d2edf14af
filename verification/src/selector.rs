//! The terminal behavior selector: a pure decision, fixed at build time,
//! between the two terminal states a faulting program can end in.

use vstd::prelude::*;

verus! {

/// The build profile axis of the configuration.
#[derive(Clone, Copy, PartialEq, Eq, Structural, Debug)]
pub enum BuildProfile {
    Debug,
    Release,
}

/// One of the two terminal states a faulting execution context can end in.
///
/// `Halt` freezes the context in an infinite loop with a full memory fence on
/// every iteration, so a debugger can still attach; `Abort` stops the context
/// at once with a hardware trap.
#[derive(Clone, Copy, PartialEq, Eq, Structural, Debug)]
pub enum TerminalBehavior {
    Halt,
    Abort,
}

/// The full build configuration the selector decides over: the build profile
/// and the two independent override flags, one per profile. Both flags are
/// unset by default.
#[derive(Clone, Copy, PartialEq, Eq, Structural, Debug)]
pub struct BuildConfig {
    pub profile: BuildProfile,
    pub abort_on_debug: bool,
    pub abort_on_release: bool,
}

/// The decision matrix: in each profile, the behavior is `Halt` unless that
/// profile's own override flag is set, in which case it is `Abort`.
pub open spec fn selected_behavior(cfg: BuildConfig) -> TerminalBehavior {
    match cfg.profile {
        BuildProfile::Debug => if cfg.abort_on_debug {
            TerminalBehavior::Abort
        } else {
            TerminalBehavior::Halt
        },
        BuildProfile::Release => if cfg.abort_on_release {
            TerminalBehavior::Abort
        } else {
            TerminalBehavior::Halt
        },
    }
}

/// The default terminal decision for a fault: returns the behavior the build
/// configuration selects. The caller then performs that behavior, which never
/// returns control.
pub fn __default_panic(cfg: &BuildConfig) -> (behavior: TerminalBehavior)
    ensures
        behavior == selected_behavior(*cfg),
{
    match cfg.profile {
        BuildProfile::Debug => if cfg.abort_on_debug {
            TerminalBehavior::Abort
        } else {
            TerminalBehavior::Halt
        },
        BuildProfile::Release => if cfg.abort_on_release {
            TerminalBehavior::Abort
        } else {
            TerminalBehavior::Halt
        },
    }
}

/// Law: the selected behavior matches the decision matrix exactly, row by row,
/// for every configuration.
pub proof fn lemma_selector_matrix(cfg: BuildConfig)
    ensures
        cfg.profile is Debug && !cfg.abort_on_debug ==> selected_behavior(cfg) is Halt,
        cfg.profile is Debug && cfg.abort_on_debug ==> selected_behavior(cfg) is Abort,
        cfg.profile is Release && !cfg.abort_on_release ==> selected_behavior(cfg) is Halt,
        cfg.profile is Release && cfg.abort_on_release ==> selected_behavior(cfg) is Abort,
{
}

/// Law: the two override flags are independent axes. Each controls only its
/// own profile: two configurations that agree on the profile and on that
/// profile's own flag select the same behavior.
pub proof fn lemma_override_independence(a: BuildConfig, b: BuildConfig)
    requires
        a.profile == b.profile,
        a.profile is Debug ==> a.abort_on_debug == b.abort_on_debug,
        a.profile is Release ==> a.abort_on_release == b.abort_on_release,
    ensures
        selected_behavior(a) == selected_behavior(b),
{
}

} // verus!
