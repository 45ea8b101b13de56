//! The queue-lease heartbeat schedule.
//!
//! While a job runs in the background, the worker extends the queue
//! message's lease on a schedule: the first extension fires a safety margin
//! before the initial budget runs out, every later one the same margin
//! before the renewed budget does.  After ten extensions the lease is
//! abandoned: the work keeps running, but the message is no longer
//! protected.  The timing and the network call live in the surrounding
//! process; the schedule decisions live here.

use vstd::prelude::*;

verus! {

/// The lease budget a freshly received message starts with, in seconds.
pub const INITIAL_BUDGET_SECS: u32 = 240;

/// The lease budget after each successful extension, in seconds.
pub const RENEWED_BUDGET_SECS: u32 = 60;

/// How long before the budget runs out an extension fires, in seconds.
pub const PREPARE_MARGIN_SECS: u32 = 10;

/// How many extensions are granted before the lease is abandoned.
pub const MAX_EXTENSIONS: u32 = 10;

/// What the heartbeat loop observed: its timer fired, or the unit of work
/// signalled completion.  When both are ready at once, the timer is handed
/// in first, so an extension is never skipped in favour of a simultaneous
/// completion.
#[derive(Debug, Copy, Clone, PartialEq, Eq, Structural)]
pub enum HeartbeatEvent {
    TimerFired,
    WorkCompleted,
}

/// What the loop must do next: extend the lease, give the lease up and
/// alert, or stop because the work is done.
#[derive(Debug, Copy, Clone, PartialEq, Eq, Structural)]
pub enum HeartbeatAction {
    Extend,
    GiveUp,
    Stop,
}

/// The schedule state of one held lease.
#[derive(Debug, Copy, Clone, PartialEq, Eq, Structural)]
pub struct HeartBeat {
    /// How many extensions have been issued so far.
    pub extensions: u32,
    /// The remaining lease budget the next delay is computed from.
    pub budget_secs: u32,
    /// True once the loop has exited, by completion or by giving up.
    pub done: bool,
}

/// The state a freshly received message starts in.
pub open spec fn initial_heartbeat() -> HeartBeat {
    HeartBeat { extensions: 0, budget_secs: INITIAL_BUDGET_SECS, done: false }
}

/// One decision of the heartbeat loop.
pub open spec fn heartbeat_step(s: HeartBeat, ev: HeartbeatEvent) -> (HeartBeat, HeartbeatAction) {
    match ev {
        HeartbeatEvent::WorkCompleted => (
            HeartBeat { done: true, ..s },
            HeartbeatAction::Stop,
        ),
        HeartbeatEvent::TimerFired => {
            if s.extensions >= MAX_EXTENSIONS {
                (HeartBeat { done: true, ..s }, HeartbeatAction::GiveUp)
            } else {
                (
                    HeartBeat {
                        extensions: (s.extensions + 1) as u32,
                        budget_secs: RENEWED_BUDGET_SECS,
                        done: false,
                    },
                    HeartbeatAction::Extend,
                )
            }
        },
    }
}

/// The state after feeding a whole event sequence to the loop, which ignores
/// events once it has exited.
pub open spec fn heartbeat_run_from(s: HeartBeat, events: Seq<HeartbeatEvent>) -> HeartBeat
    decreases events.len(),
{
    if events.len() == 0 || s.done {
        s
    } else {
        heartbeat_run_from(heartbeat_step(s, events[0]).0, events.drop_first())
    }
}

pub open spec fn heartbeat_run(events: Seq<HeartbeatEvent>) -> HeartBeat {
    heartbeat_run_from(initial_heartbeat(), events)
}

/// A run of `n` timer events and nothing else.
pub open spec fn tick_seq(n: nat) -> Seq<HeartbeatEvent> {
    Seq::new(n, |i: int| HeartbeatEvent::TimerFired)
}

impl HeartBeat {
    /// Start holding a lease: no extension issued, full initial budget.
    pub fn new() -> (s: Self)
        ensures
            s == initial_heartbeat(),
    {
        HeartBeat { extensions: 0, budget_secs: INITIAL_BUDGET_SECS, done: false }
    }

    /// How long the loop sleeps before the next extension is due: the
    /// remaining budget less the safety margin.
    pub fn next_delay_secs(&self) -> (r: u32)
        requires
            self.budget_secs >= PREPARE_MARGIN_SECS,
        ensures
            r == self.budget_secs - PREPARE_MARGIN_SECS,
    {
        self.budget_secs - PREPARE_MARGIN_SECS
    }

    /// Take one decision of the loop.
    pub fn on_event(&mut self, ev: HeartbeatEvent) -> (act: HeartbeatAction)
        requires
            !old(self).done,
        ensures
            (*final(self), act) == heartbeat_step(*old(self), ev),
            final(self).budget_secs >= PREPARE_MARGIN_SECS || final(self).done,
    {
        match ev {
            HeartbeatEvent::WorkCompleted => {
                self.done = true;
                HeartbeatAction::Stop
            },
            HeartbeatEvent::TimerFired => {
                if self.extensions >= MAX_EXTENSIONS {
                    self.done = true;
                    HeartbeatAction::GiveUp
                } else {
                    self.extensions = self.extensions + 1;
                    self.budget_secs = RENEWED_BUDGET_SECS;
                    HeartbeatAction::Extend
                }
            },
        }
    }
}

/// Feed a recorded event sequence to a fresh loop, stopping where the loop
/// itself would stop.
pub fn replay_heartbeat(events: &Vec<HeartbeatEvent>) -> (s: HeartBeat)
    ensures
        s == heartbeat_run(events@),
{
    let mut s = HeartBeat::new();
    let n = events.len();
    let mut i: usize = 0;
    proof {
        assert(events@.skip(0) =~= events@);
    }
    while i < n && !s.done
        invariant
            n == events@.len(),
            i <= n,
            heartbeat_run_from(s, events@.skip(i as int)) == heartbeat_run(events@),
        decreases n - i,
    {
        proof {
            assert(events@.skip(i as int)[0] == events@[i as int]);
            assert(events@.skip(i as int).drop_first() =~= events@.skip(i + 1));
        }
        s.on_event(events[i]);
        i += 1;
    }
    proof {
        if i == n {
            assert(events@.skip(n as int) =~= Seq::<HeartbeatEvent>::empty());
        }
    }
    s
}

/// Law: work that completes before the first scheduled tick causes no
/// extension at all.
pub proof fn lemma_completion_before_first_tick(events: Seq<HeartbeatEvent>)
    requires
        events.len() >= 1,
        events[0] == HeartbeatEvent::WorkCompleted,
    ensures
        heartbeat_run(events).extensions == 0,
{
    let s1 = heartbeat_step(initial_heartbeat(), events[0]).0;
    assert(heartbeat_run_from(s1, events.drop_first()) == s1);
}

proof fn lemma_ticks_from(s: HeartBeat, n: nat)
    requires
        !s.done,
        s.extensions <= MAX_EXTENSIONS,
    ensures
        n + s.extensions <= MAX_EXTENSIONS ==> {
            let r = heartbeat_run_from(s, tick_seq(n));
            r.extensions == s.extensions + n && !r.done
        },
        n + s.extensions > MAX_EXTENSIONS ==> {
            let r = heartbeat_run_from(s, tick_seq(n));
            r.extensions == MAX_EXTENSIONS && r.done
        },
    decreases n,
{
    if n > 0 {
        let (s1, _) = heartbeat_step(s, tick_seq(n)[0]);
        assert(tick_seq(n).drop_first() =~= tick_seq((n - 1) as nat));
        if s.extensions >= MAX_EXTENSIONS {
            assert(heartbeat_run_from(s1, tick_seq((n - 1) as nat)) == s1);
        } else {
            lemma_ticks_from(s1, (n - 1) as nat);
        }
    }
}

/// Law: a run of timer events alone issues one extension per tick up to the
/// cap of ten; from the eleventh tick on the loop has given the lease up,
/// and no eleventh extension is ever issued.
pub proof fn lemma_extension_cap(n: nat)
    ensures
        n <= MAX_EXTENSIONS ==> heartbeat_run(tick_seq(n)).extensions == n,
        n <= MAX_EXTENSIONS ==> !heartbeat_run(tick_seq(n)).done,
        n > MAX_EXTENSIONS ==> heartbeat_run(tick_seq(n)).extensions == MAX_EXTENSIONS,
        n > MAX_EXTENSIONS ==> heartbeat_run(tick_seq(n)).done,
{
    lemma_ticks_from(initial_heartbeat(), n);
}

} // verus!
