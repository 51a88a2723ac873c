use vstd::prelude::*;

use crate::config::MAX_LOAD_PERCENT;

verus! {

/// Length of one duty-cycle period, in microseconds.
pub const PERIOD_MICROS: u64 = 10000;

/// Busy time that each percent of load adds to a period, in microseconds.
pub const MICROS_PER_PERCENT: u64 = 100;

/// Nanoseconds in one microsecond.
pub const NANOS_PER_MICRO: u64 = 1000;

/// Busy part of a period at `load` percent, in microseconds.
pub open spec fn busy_span(load: int) -> int {
    load * MICROS_PER_PERCENT
}

/// Idle part of a period at `load` percent, in microseconds.
pub open spec fn idle_span(load: int) -> int {
    PERIOD_MICROS - busy_span(load)
}

/// What a worker's loop reports after carrying out an action.
#[derive(Clone, Copy, Debug, PartialEq, Eq, Structural)]
pub enum Event {
    /// A non-blocking check of the cancellation signal, with the time since
    /// the current period began.
    Polled { cancelled: bool, elapsed_nanos: u64 },
    /// The end of a sleep: woken by cancellation, or by its timeout.
    Woke { cancelled: bool },
}

/// What a worker's loop does next.
#[derive(Clone, Copy, Debug, PartialEq, Eq, Structural)]
pub enum Action {
    /// Record the start of a new period, then check for cancellation.
    BeginPeriod,
    /// Check for cancellation again, within the current busy phase.
    Poll,
    /// Block on the cancellation signal for at most `micros` microseconds.
    Sleep { micros: u64 },
    /// Leave the loop for good.
    Stop,
}

/// The action that follows `event` for a running worker at `load` percent.
pub open spec fn next_action(load: int, event: Event) -> Action {
    match event {
        Event::Polled { cancelled, elapsed_nanos } => {
            if cancelled {
                Action::Stop
            } else if elapsed_nanos > busy_span(load) * NANOS_PER_MICRO {
                if load < MAX_LOAD_PERCENT {
                    Action::Sleep { micros: idle_span(load) as u64 }
                } else {
                    Action::BeginPeriod
                }
            } else {
                Action::Poll
            }
        },
        Event::Woke { cancelled } => {
            if cancelled {
                Action::Stop
            } else {
                Action::BeginPeriod
            }
        },
    }
}

/// Whether an event carries an observed cancellation.
pub open spec fn observes_cancel(event: Event) -> bool {
    match event {
        Event::Polled { cancelled, .. } => cancelled,
        Event::Woke { cancelled } => cancelled,
    }
}

/// The decision state of one load worker.
#[derive(Clone, Copy, Debug, PartialEq, Eq, Structural)]
pub struct DutyCycle {
    /// Target busy share, in percent.
    pub load_percent: u8,
    /// Set once cancellation has been observed; never cleared.
    pub stopped: bool,
}

impl DutyCycle {
    pub open spec fn wf(&self) -> bool {
        self.load_percent <= MAX_LOAD_PERCENT
    }

    /// A running worker at `load_percent`.
    pub fn new(load_percent: u8) -> (r: DutyCycle)
        requires
            load_percent <= MAX_LOAD_PERCENT,
        ensures
            r.wf(),
            r.load_percent == load_percent,
            !r.stopped,
    {
        DutyCycle { load_percent, stopped: false }
    }

    /// The action the loop starts with.
    pub fn first_action(&self) -> (r: Action)
        ensures
            r == (if self.stopped {
                Action::Stop
            } else {
                Action::BeginPeriod
            }),
    {
        if self.stopped {
            Action::Stop
        } else {
            Action::BeginPeriod
        }
    }

    /// Takes in what the loop observed and returns what it does next. Once
    /// a cancellation has been observed every later action is `Stop`.
    pub fn step(&mut self, event: Event) -> (r: Action)
        requires
            old(self).wf(),
        ensures
            final(self).wf(),
            final(self).load_percent == old(self).load_percent,
            r == (if old(self).stopped {
                Action::Stop
            } else {
                next_action(old(self).load_percent as int, event)
            }),
            final(self).stopped == (r == Action::Stop),
    {
        if self.stopped {
            return Action::Stop;
        }
        let r = match event {
            Event::Polled { cancelled, elapsed_nanos } => {
                if cancelled {
                    Action::Stop
                } else if elapsed_nanos > busy_micros(self.load_percent) * NANOS_PER_MICRO {
                    if self.load_percent < MAX_LOAD_PERCENT {
                        Action::Sleep { micros: idle_micros(self.load_percent) }
                    } else {
                        Action::BeginPeriod
                    }
                } else {
                    Action::Poll
                }
            },
            Event::Woke { cancelled } => {
                if cancelled {
                    Action::Stop
                } else {
                    Action::BeginPeriod
                }
            },
        };
        self.stopped = r == Action::Stop;
        r
    }
}

/// Busy part of a period at `load_percent`, in microseconds.
pub fn busy_micros(load_percent: u8) -> (r: u64)
    requires
        load_percent <= MAX_LOAD_PERCENT,
    ensures
        r == busy_span(load_percent as int),
{
    load_percent as u64 * MICROS_PER_PERCENT
}

/// Idle part of a period at `load_percent`, in microseconds.
pub fn idle_micros(load_percent: u8) -> (r: u64)
    requires
        load_percent <= MAX_LOAD_PERCENT,
    ensures
        r == idle_span(load_percent as int),
{
    PERIOD_MICROS - busy_micros(load_percent)
}

/// Each period splits into busy and idle time in the ratio of the load: the
/// busy part is `load` hundredths of the period, and once the busy part is
/// over a worker below full load sleeps for exactly the rest of the period.
pub proof fn lemma_busy_share(load: int, elapsed_nanos: u64)
    requires
        0 <= load <= MAX_LOAD_PERCENT,
        elapsed_nanos > busy_span(load) * NANOS_PER_MICRO,
    ensures
        busy_span(load) * MAX_LOAD_PERCENT == load * PERIOD_MICROS,
        busy_span(load) + idle_span(load) == PERIOD_MICROS,
        0 <= idle_span(load),
        next_action(load, Event::Polled { cancelled: false, elapsed_nanos }) == (if load < MAX_LOAD_PERCENT {
            Action::Sleep { micros: idle_span(load) as u64 }
        } else {
            Action::BeginPeriod
        }),
{
}

/// At full load a worker never sleeps: its busy part fills the whole period
/// and no event leads to a sleep.
pub proof fn lemma_full_load_never_sleeps(event: Event)
    ensures
        busy_span(100) == PERIOD_MICROS,
        !(next_action(100, event) is Sleep),
{
}

/// At zero load a worker has no busy part: the first poll of a period that
/// sees time pass puts it to sleep for the whole period, and it still checks
/// for cancellation at the start of every period and while it sleeps.
pub proof fn lemma_zero_load_idles(elapsed_nanos: u64)
    requires
        elapsed_nanos > 0,
    ensures
        busy_span(0) == 0,
        next_action(0, Event::Polled { cancelled: false, elapsed_nanos }) == (Action::Sleep {
            micros: PERIOD_MICROS,
        }),
        next_action(0, Event::Polled { cancelled: true, elapsed_nanos }) == Action::Stop,
        next_action(0, Event::Woke { cancelled: true }) == Action::Stop,
        next_action(0, Event::Woke { cancelled: false }) == Action::BeginPeriod,
{
}

/// Cancellation is acted on at once, and never waits longer than a period:
/// any event that carries it leads to `Stop`; a sleep lasts at most one
/// period and is a wait on the cancellation signal; and the busy phase keeps
/// polling only while less than one period has passed since it began.
pub proof fn lemma_cancellation_latency(load: int, event: Event)
    requires
        0 <= load <= MAX_LOAD_PERCENT,
    ensures
        observes_cancel(event) ==> next_action(load, event) == Action::Stop,
        next_action(load, event) matches Action::Sleep { micros } ==> micros <= PERIOD_MICROS,
        next_action(load, event) == Action::Poll ==> (event matches Event::Polled {
            elapsed_nanos,
            ..
        } && elapsed_nanos <= PERIOD_MICROS * NANOS_PER_MICRO),
{
}

} // verus!
