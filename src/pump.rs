//! The bounded event pump: it drains an endpoint's events for a window of
//! time and then hands the endpoint back, so that other work gets a turn.

use vstd::prelude::*;
use crate::event::{Disposition, Event, Role, classify, disposition};

verus! {

/// Length of one pump window, in microseconds.
pub const PUMP_WINDOW_MICROS: u64 = 100;

/// How long binding waits for listen confirmations, in microseconds.
pub const BIND_WINDOW_MICROS: u64 = 1000000;

/// What woke the pump: an event of the endpoint, or the end of its window.
pub enum Wake {
    Event(Event),
    Timer,
}

/// What the pump does after a wake.
#[derive(Clone, Copy, Debug, PartialEq, Eq, Structural)]
pub enum PumpAction {
    /// Handle the event as the disposition says, and keep the endpoint.
    Continue(Disposition),
    /// Handle the event as the disposition says, then release the endpoint.
    Finish(Disposition),
    /// Release the endpoint.
    Release,
    /// The event is a contract violation: stop.
    Abort,
}

/// One holding of an endpoint, begun at `started_at` (microseconds).
#[derive(Clone, Copy, Debug)]
pub struct Pump {
    pub role: Role,
    pub started_at: u64,
    pub max_duration: u64,
    /// Stop at the first newly bound listening address (used while binding).
    pub until_listening: bool,
}

/// When the pump's window closes.
pub open spec fn deadline(p: Pump) -> int {
    p.started_at + p.max_duration
}

/// What the pump does when woken by `wake` at time `now`.
pub open spec fn pump_action(p: Pump, now: u64, wake: Wake) -> PumpAction {
    match wake {
        Wake::Timer => PumpAction::Release,
        Wake::Event(ev) => {
            let d = disposition(p.role, ev);
            if d == Disposition::Fatal {
                PumpAction::Abort
            } else if (p.until_listening && ev is NewListenAddr) || now >= deadline(p) {
                PumpAction::Finish(d)
            } else {
                PumpAction::Continue(d)
            }
        },
    }
}

impl Pump {
    /// A pump window of `max_duration` microseconds from `now`.
    pub fn window(role: Role, now: u64, max_duration: u64) -> (r: Pump)
        ensures
            r == (Pump { role, started_at: now, max_duration, until_listening: false }),
    {
        Pump { role, started_at: now, max_duration, until_listening: false }
    }

    /// The wait that follows a listen request: it ends at the first bound
    /// address, or after `max_duration` microseconds from `now`.
    pub fn binding(role: Role, now: u64, max_duration: u64) -> (r: Pump)
        ensures
            r == (Pump { role, started_at: now, max_duration, until_listening: true }),
    {
        Pump { role, started_at: now, max_duration, until_listening: true }
    }

    /// Decides what to do after a wake at time `now`.
    pub fn on_wake(&self, now: u64, wake: &Wake) -> (r: PumpAction)
        ensures
            r == pump_action(*self, now, *wake),
    {
        match wake {
            Wake::Timer => PumpAction::Release,
            Wake::Event(ev) => {
                let d = classify(self.role, ev);
                let listening = match ev {
                    Event::NewListenAddr { .. } => true,
                    _ => false,
                };
                let expired = now >= self.started_at && now - self.started_at >= self.max_duration;
                if d == Disposition::Fatal {
                    PumpAction::Abort
                } else if (self.until_listening && listening) || expired {
                    PumpAction::Finish(d)
                } else {
                    PumpAction::Continue(d)
                }
            },
        }
    }
}

/// The pump kept the endpoint through every wake of `trace` but the last.
pub open spec fn held_through(p: Pump, trace: Seq<(u64, Wake)>) -> bool {
    forall|i: int| 0 <= i < trace.len() - 1 ==> #[trigger] pump_action(p, trace[i].0, trace[i].1) is Continue
}

/// The pump keeps the endpoint only through wakes that come before the end
/// of its window: once the window has closed, the next wake releases it, after
/// handling at most that one event.
pub proof fn lemma_hold_is_bounded(p: Pump, trace: Seq<(u64, Wake)>)
    requires
        held_through(p, trace),
    ensures
        forall|i: int| 0 <= i < trace.len() - 1 ==> trace[i].0 < deadline(p),
        trace.len() > 0 && trace.last().0 >= deadline(p) ==> !(pump_action(
            p,
            trace.last().0,
            trace.last().1,
        ) is Continue),
        trace.len() > 0 && trace.last().1 is Timer ==> pump_action(p, trace.last().0, trace.last().1)
            == PumpAction::Release,
{
    assert forall|i: int| 0 <= i < trace.len() - 1 implies trace[i].0 < deadline(p) by {
        assert(pump_action(p, trace[i].0, trace[i].1) is Continue);
    }
}

} // verus!
