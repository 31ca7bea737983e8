//! The watchdog / lifecycle controller: a two-state machine supervising the
//! render thread.
//!
//! The shared health flag starts `Running` when the render thread is
//! spawned. The supervising task blocks until that thread terminates and
//! folds the outcome through [`observe_render_exit`]; the event thread reads
//! the flag once per dispatched event and ends the loop when it is
//! `Stopped` (see [`crate::input::exit_decision`]). There is no restart:
//! render-thread failure is unrecoverable for the process lifetime.

use vstd::prelude::*;

verus! {

/// The shared health flag's two states.
#[derive(Clone, Copy, Debug, PartialEq, Eq, Structural)]
pub enum Health {
    Running,
    Stopped,
}

/// What observing the render thread's termination does to the flag: an
/// abnormal termination stops it, for good; a clean one changes nothing.
pub open spec fn observe_spec(h: Health, clean: bool) -> Health {
    if clean {
        h
    } else {
        Health::Stopped
    }
}

/// The watchdog's one transition, taken when the render thread has
/// terminated: `clean` says whether it terminated normally.
pub fn observe_render_exit(h: Health, clean: bool) -> (h2: Health)
    ensures
        h2 == observe_spec(h, clean),
{
    if clean {
        h
    } else {
        Health::Stopped
    }
}

/// Watchdog liveness: an abnormal render-thread termination drives the flag
/// to `Stopped` whatever it was, `Stopped` is absorbing, and under a
/// `Stopped` flag the very next dispatched event — whichever it is — ends
/// the event loop.
pub proof fn lemma_watchdog_liveness(h: Health, event: crate::input::InputEvent)
    ensures
        observe_spec(h, false) == Health::Stopped,
        observe_spec(Health::Stopped, true) == Health::Stopped,
        crate::input::exit_decision(Health::Stopped, event),
{
}

} // verus!
