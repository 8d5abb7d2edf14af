//! The invocation wrapper: what the generated fault entry function does when
//! a fault arrives. The user code, if any was installed, runs first,
//! borrowing the fault record; unless that code diverges on its own, control
//! then falls through unconditionally to the terminal behavior the build
//! configuration selected. Either way the entry function never returns
//! control: each step of the observable trace is itself terminal or is
//! followed by one that is.

use vstd::prelude::*;

use crate::registry::{EntryFunction, Registry};
use crate::selector::{BuildConfig, TerminalBehavior, __default_panic, selected_behavior};

verus! {

/// The per-event fault record the runtime hands to the entry function: the
/// origin of the fault and its message. It is borrowed for the duration of
/// one invocation and never owned or persisted by the entry function.
pub struct FaultRecord {
    pub line: u64,
    pub column: u64,
    pub message: String,
}

/// One observable step of an invocation of the entry function: the user code
/// ran, or the context entered a terminal behavior.
#[derive(Clone, Copy, PartialEq, Eq, Structural, Debug)]
pub enum Event {
    UserCode,
    Terminal(TerminalBehavior),
}

/// The observable steps of one invocation of the entry function, in order.
/// The trace is everything the context does before it stops making forward
/// progress: it ends in a terminal behavior, or in user code that diverges
/// on its own.
pub struct InvocationTrace {
    pub events: Vec<Event>,
}

/// What an invocation of the given entry function observably does under the
/// given build configuration: with no user code, exactly the selected
/// terminal behavior; with user code that completes normally, the user code
/// and then that behavior; with user code that diverges on its own, the user
/// code alone, and the selector's code is never reached.
pub open spec fn entry_trace(entry: EntryFunction, cfg: BuildConfig) -> Seq<Event> {
    match entry.handler {
        Option::None => seq![Event::Terminal(selected_behavior(cfg))],
        Option::Some(h) => if h.diverges {
            seq![Event::UserCode]
        } else {
            seq![Event::UserCode, Event::Terminal(selected_behavior(cfg))]
        },
    }
}

/// How many steps of a trace ran the user code.
pub open spec fn user_code_runs(t: Seq<Event>) -> nat
    decreases t.len(),
{
    if t.len() == 0 {
        0
    } else {
        (if t[0] is UserCode {
            1nat
        } else {
            0nat
        }) + user_code_runs(t.drop_first())
    }
}

/// Whether a trace enters some terminal behavior.
pub open spec fn reaches_terminal(t: Seq<Event>) -> bool {
    exists|i: int| 0 <= i < t.len() && t[i] is Terminal
}

/// One invocation of the installed entry function: a fault arrived with the
/// given record, under the given build configuration. Returns the observable
/// trace, which is exactly what the entry function's contract fixes for the
/// installed handler.
pub fn invoke_entry(reg: &Registry, cfg: &BuildConfig, _record: &FaultRecord) -> (t:
    InvocationTrace)
    requires
        reg.installed() is Some,
    ensures
        t.events@ == entry_trace(reg.installed()->Some_0, *cfg),
{
    let entry = reg.installed_entry().unwrap();
    let mut events: Vec<Event> = Vec::new();
    match entry.handler {
        Option::None => {
            let behavior = __default_panic(cfg);
            events.push(Event::Terminal(behavior));
        },
        Option::Some(h) => {
            events.push(Event::UserCode);
            if !h.diverges {
                let behavior = __default_panic(cfg);
                events.push(Event::Terminal(behavior));
            }
        },
    }
    proof {
        assert(events@ =~= entry_trace(reg.installed()->Some_0, *cfg));
    }
    InvocationTrace { events }
}

/// Law: with no user handler installed, the entry function's trace is exactly
/// one step, the terminal behavior the configuration selects — it is always
/// reached, and nothing follows it.
pub proof fn lemma_no_handler_reaches_terminal(cfg: BuildConfig)
    ensures
        entry_trace((EntryFunction { handler: Option::None }), cfg) =~= seq![
            Event::Terminal(selected_behavior(cfg)),
        ],
        reaches_terminal(entry_trace((EntryFunction { handler: Option::None }), cfg)),
{
    let t = entry_trace((EntryFunction { handler: Option::None }), cfg);
    assert(t[0] is Terminal);
}

/// Law: the entry function always diverges. Either its trace enters a
/// terminal behavior, or the installed user code diverges on its own.
pub proof fn lemma_entry_diverges(entry: EntryFunction, cfg: BuildConfig)
    ensures
        reaches_terminal(entry_trace(entry, cfg)) || (entry.handler matches Some(h) && h.diverges),
{
    let t = entry_trace(entry, cfg);
    if !(entry.handler matches Some(h) && h.diverges) {
        assert(t[t.len() - 1] is Terminal);
    }
}

/// Law: every terminal step of a trace performs exactly the behavior the
/// configuration selects; the terminal behavior is never chosen by runtime
/// data.
pub proof fn lemma_terminal_is_selected(entry: EntryFunction, cfg: BuildConfig)
    ensures
        forall|i: int|
            0 <= i < entry_trace(entry, cfg).len() && entry_trace(entry, cfg)[i] is Terminal
                ==> entry_trace(entry, cfg)[i] == Event::Terminal(selected_behavior(cfg)),
{
}

/// Law: an installed user handler runs exactly once per invocation, as the
/// first step, before any terminal behavior is entered.
pub proof fn lemma_user_code_before_terminal(entry: EntryFunction, cfg: BuildConfig)
    requires
        entry.handler is Some,
    ensures
        user_code_runs(entry_trace(entry, cfg)) == 1,
        entry_trace(entry, cfg)[0] is UserCode,
        forall|i: int|
            0 <= i < entry_trace(entry, cfg).len() && entry_trace(entry, cfg)[i] is Terminal ==> i
                > 0,
{
    reveal_with_fuel(user_code_runs, 3);
}

/// Law: a user handler that diverges on its own keeps the selector's code
/// from ever being reached; the user code still runs exactly once.
pub proof fn lemma_diverging_handler_skips_terminal(entry: EntryFunction, cfg: BuildConfig)
    requires
        entry.handler matches Some(h) && h.diverges,
    ensures
        !reaches_terminal(entry_trace(entry, cfg)),
        user_code_runs(entry_trace(entry, cfg)) == 1,
{
    reveal_with_fuel(user_code_runs, 3);
}

} // verus!
