//! Animation scheduling: a bounded state machine that advances a frame
//! counter at fixed deadlines and signals each advance, then a terminal close.

use vstd::prelude::*;

verus! {

/// Number of animation frames: the scheduler emits exactly this many
/// `FrameAdvanced` signals, then one `Finished`.
pub const MAX_FRAMES: u32 = 5;

/// A discrete, ordered message from the scheduler to the overlay driver.
#[derive(Debug, Clone, Copy, PartialEq, Eq, Structural)]
pub enum Signal {
    /// One frame is due: the payload is the zero-based frame index.
    FrameAdvanced(u32),
    /// The animation is over; no further signal follows.
    Finished,
}

/// The scheduler's state: `closed` is the terminal state, otherwise it is
/// running with `frame_index` frames already advanced and a next deadline.
/// Timestamps and the interval are in milliseconds.
pub struct Scheduler {
    pub frame_index: u32,
    pub next_deadline: u64,
    pub interval_millis: u64,
    pub closed: bool,
}

/// Signals the scheduler has yet to emit: `FrameAdvanced` for each remaining
/// frame index, then `Finished`; nothing once closed.
pub open spec fn pending_signals(s: Scheduler) -> Seq<Signal> {
    if s.closed {
        Seq::empty()
    } else {
        Seq::new((MAX_FRAMES - s.frame_index + 1) as nat, |i: int|
            if s.frame_index + i < MAX_FRAMES {
                Signal::FrameAdvanced((s.frame_index + i) as u32)
            } else {
                Signal::Finished
            })
    }
}

/// Everything a freshly started scheduler will ever emit, in order.
pub open spec fn full_signal_sequence() -> Seq<Signal> {
    seq![
        Signal::FrameAdvanced(0),
        Signal::FrameAdvanced(1),
        Signal::FrameAdvanced(2),
        Signal::FrameAdvanced(3),
        Signal::FrameAdvanced(4),
        Signal::Finished,
    ]
}

/// One wake-up of the scheduler at time `now`: before the deadline or once
/// closed nothing happens; at or past the deadline it advances exactly one
/// step, whatever the delay, and the next deadline is anchored to the
/// previous deadline, not to `now`.
pub open spec fn tick_transition(pre: Scheduler, now: u64) -> (Scheduler, Option<Signal>) {
    if pre.closed || now < pre.next_deadline {
        (pre, None)
    } else if pre.frame_index < MAX_FRAMES {
        (
            Scheduler {
                frame_index: (pre.frame_index + 1) as u32,
                next_deadline: (pre.next_deadline + pre.interval_millis) as u64,
                interval_millis: pre.interval_millis,
                closed: false,
            },
            Some(Signal::FrameAdvanced(pre.frame_index)),
        )
    } else {
        (
            Scheduler {
                frame_index: pre.frame_index,
                next_deadline: pre.next_deadline,
                interval_millis: pre.interval_millis,
                closed: true,
            },
            Some(Signal::Finished),
        )
    }
}

impl Scheduler {
    /// Well-formed: the frame index never passes `MAX_FRAMES`, the terminal
    /// state is only reached there, and the deadlines still to be computed
    /// fit in a `u64`.
    pub open spec fn wf(self) -> bool {
        &&& self.frame_index <= MAX_FRAMES
        &&& (self.closed ==> self.frame_index == MAX_FRAMES)
        &&& self.next_deadline + (MAX_FRAMES - self.frame_index) * self.interval_millis
            <= u64::MAX
    }

    /// Starts the animation: frame 0 is due at `first_deadline`.
    pub fn new(first_deadline: u64, interval_millis: u64) -> (s: Scheduler)
        requires
            first_deadline + MAX_FRAMES * interval_millis <= u64::MAX,
        ensures
            s == (Scheduler {
                frame_index: 0,
                next_deadline: first_deadline,
                interval_millis,
                closed: false,
            }),
            s.wf(),
    {
        Scheduler {
            frame_index: 0,
            next_deadline: first_deadline,
            interval_millis,
            closed: false,
        }
    }

    /// One wake-up at time `now`; returns the signal emitted, if any.
    /// The state and the result are exactly `tick_transition` of the old
    /// state, so a run of the scheduler is a pure function of its start
    /// state and wake-up times.
    pub fn tick(&mut self, now: u64) -> (signal: Option<Signal>)
        requires
            old(self).wf(),
        ensures
            final(self).wf(),
            ({
                let (post, sig) = tick_transition(*old(self), now);
                *final(self) == post && signal == sig
            }),
    {
        if self.closed || now < self.next_deadline {
            None
        } else if self.frame_index < MAX_FRAMES {
            let idx = self.frame_index;
            proof {
                let k = (MAX_FRAMES - self.frame_index) as int;
                assert(k * self.interval_millis >= 1 * self.interval_millis
                    && k * self.interval_millis
                        == (k - 1) * self.interval_millis + self.interval_millis)
                    by (nonlinear_arith)
                    requires k >= 1;
            }
            self.frame_index = idx + 1;
            self.next_deadline = self.next_deadline + self.interval_millis;
            Some(Signal::FrameAdvanced(idx))
        } else {
            self.closed = true;
            Some(Signal::Finished)
        }
    }
}

/// A freshly started scheduler has the whole fixed sequence ahead of it:
/// five `FrameAdvanced` signals with indices 0 through 4, then `Finished`.
pub proof fn lemma_initial_signals(first_deadline: u64, interval_millis: u64)
    ensures
        pending_signals(Scheduler {
            frame_index: 0,
            next_deadline: first_deadline,
            interval_millis,
            closed: false,
        }) =~= full_signal_sequence(),
{
}

/// Each tick either emits nothing and leaves the pending signals unchanged,
/// or emits exactly the first pending signal and leaves the rest: signals
/// come out in order, none is dropped or duplicated, and nothing follows
/// `Finished` (a closed scheduler has no pending signals).
pub proof fn lemma_signal_order(pre: Scheduler, now: u64)
    requires
        pre.wf(),
    ensures
        ({
            let (post, sig) = tick_transition(pre, now);
            match sig {
                Some(s) => pending_signals(pre).len() > 0
                    && s == pending_signals(pre)[0]
                    && pending_signals(post) =~= pending_signals(pre).drop_first(),
                None => pending_signals(post) =~= pending_signals(pre),
            }
        }),
{
}

/// Ring radius used for a frame: the base radius divided by the one-based
/// frame number (integer division), so the ring shrinks monotonically over
/// the frames: full size, then halves, thirds, and so on.
pub fn current_radius(base_radius: u32, frame_index: u32) -> (r: u32)
    requires
        frame_index < MAX_FRAMES,
    ensures
        r == base_radius as int / (frame_index as int + 1),
{
    base_radius / (frame_index + 1)
}

/// Runs a schedule from its first deadline to completion, waking exactly at
/// each deadline: the signals, in order, are the five `FrameAdvanced` with
/// indices 0 through 4, then exactly one `Finished`, and nothing more.
pub fn run_schedule(first_deadline: u64, interval_millis: u64) -> (signals: Vec<Signal>)
    requires
        first_deadline + MAX_FRAMES * interval_millis <= u64::MAX,
    ensures
        signals@ == full_signal_sequence(),
{
    let mut sched = Scheduler::new(first_deadline, interval_millis);
    let mut signals: Vec<Signal> = Vec::new();
    proof {
        lemma_initial_signals(first_deadline, interval_millis);
    }
    while !sched.closed
        invariant
            sched.wf(),
            signals@ + pending_signals(sched) =~= full_signal_sequence(),
        decreases pending_signals(sched).len(),
    {
        let ghost pre = sched;
        let now = sched.next_deadline;
        let signal = sched.tick(now);
        proof {
            lemma_signal_order(pre, now);
        }
        let s = signal.unwrap();
        signals.push(s);
    }
    proof {
        assert(signals@ =~= full_signal_sequence());
    }
    signals
}

} // verus!
