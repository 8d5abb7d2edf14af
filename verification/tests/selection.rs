use panic_custom::selector::{BuildConfig, BuildProfile, TerminalBehavior, __default_panic};

fn config(profile: BuildProfile, abort_on_debug: bool, abort_on_release: bool) -> BuildConfig {
    BuildConfig { profile, abort_on_debug, abort_on_release }
}

#[test]
fn selector_debug_default_halts() {
    let cfg = config(BuildProfile::Debug, false, false);
    assert_eq!(__default_panic(&cfg), TerminalBehavior::Halt);
}

#[test]
fn selector_debug_override_aborts() {
    let cfg = config(BuildProfile::Debug, true, false);
    assert_eq!(__default_panic(&cfg), TerminalBehavior::Abort);
}

#[test]
fn selector_release_default_halts() {
    let cfg = config(BuildProfile::Release, false, false);
    assert_eq!(__default_panic(&cfg), TerminalBehavior::Halt);
}

#[test]
fn selector_release_override_aborts() {
    let cfg = config(BuildProfile::Release, false, true);
    assert_eq!(__default_panic(&cfg), TerminalBehavior::Abort);
}

#[test]
fn selector_overrides_are_independent() {
    // The release flag has no effect in the debug profile, and the debug flag
    // has no effect in the release profile.
    let cfg = config(BuildProfile::Debug, false, true);
    assert_eq!(__default_panic(&cfg), TerminalBehavior::Halt);
    let cfg = config(BuildProfile::Release, true, false);
    assert_eq!(__default_panic(&cfg), TerminalBehavior::Halt);
    let cfg = config(BuildProfile::Debug, true, true);
    assert_eq!(__default_panic(&cfg), TerminalBehavior::Abort);
    let cfg = config(BuildProfile::Release, true, true);
    assert_eq!(__default_panic(&cfg), TerminalBehavior::Abort);
}
