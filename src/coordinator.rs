use vstd::prelude::*;

use crate::config::LoadConfig;

verus! {

/// Where a run stands.
#[derive(Clone, Copy, Debug, PartialEq, Eq, Structural)]
pub enum Stage {
    /// Workers are being started, in order.
    Spawning,
    /// Every worker runs; the run's duration is being waited out.
    Waiting,
    /// The oldest worker still running is to be told to stop.
    Cancelling,
    /// The oldest worker still running has been told to stop and is awaited.
    Joining,
    /// Every worker has stopped.
    Done,
    /// Signalling or awaiting the worker at `index` failed.
    Aborted { index: usize },
}

/// What the program around the coordinator does next.
#[derive(Clone, Copy, Debug, PartialEq, Eq, Structural)]
pub enum Command {
    /// Start the worker with this ordinal.
    Spawn { index: usize },
    /// Block for this many seconds.
    Wait { seconds: u64 },
    /// Send the stop signal to the worker with this ordinal.
    Cancel { index: usize },
    /// Wait until the worker with this ordinal has ended.
    Join { index: usize },
    /// End the process with a diagnostic naming the worker with this ordinal.
    Abort { index: usize },
    /// Return: the run is over and no worker is left.
    Finish,
}

/// What the program reports after carrying out a command.
#[derive(Clone, Copy, Debug, PartialEq, Eq, Structural)]
pub enum Report {
    /// The requested worker was started.
    Spawned,
    /// The wait is over.
    WaitOver,
    /// The stop signal was sent (`ok`), or sending it failed.
    CancelSent { ok: bool },
    /// The worker ended normally (`ok`), or awaiting it failed.
    Joined { ok: bool },
}

/// The decision state of a run: its configuration, how many workers were
/// started, and how many of them (the oldest ones) have been confirmed
/// stopped.
#[derive(Clone, Copy, Debug, PartialEq, Eq, Structural)]
pub struct Coordinator {
    pub config: LoadConfig,
    pub stage: Stage,
    pub spawned: usize,
    pub stopped: usize,
}

/// The command that follows from a state.
pub open spec fn command_of(c: Coordinator) -> Command {
    match c.stage {
        Stage::Spawning => Command::Spawn { index: c.spawned },
        Stage::Waiting => Command::Wait { seconds: c.config.run_seconds() },
        Stage::Cancelling => Command::Cancel { index: c.stopped },
        Stage::Joining => Command::Join { index: c.stopped },
        Stage::Done => Command::Finish,
        Stage::Aborted { index } => Command::Abort { index },
    }
}

/// The state after `report`. A report that does not answer the current
/// command changes nothing.
pub open spec fn after_report(c: Coordinator, report: Report) -> Coordinator {
    match (c.stage, report) {
        (Stage::Spawning, Report::Spawned) => {
            if c.spawned + 1 == c.config.thread_count {
                Coordinator { stage: Stage::Waiting, spawned: (c.spawned + 1) as usize, ..c }
            } else {
                Coordinator { spawned: (c.spawned + 1) as usize, ..c }
            }
        },
        (Stage::Waiting, Report::WaitOver) => {
            if c.spawned == 0 {
                Coordinator { stage: Stage::Done, ..c }
            } else {
                Coordinator { stage: Stage::Cancelling, ..c }
            }
        },
        (Stage::Cancelling, Report::CancelSent { ok }) => {
            if ok {
                Coordinator { stage: Stage::Joining, ..c }
            } else {
                Coordinator { stage: Stage::Aborted { index: c.stopped }, ..c }
            }
        },
        (Stage::Joining, Report::Joined { ok }) => {
            if !ok {
                Coordinator { stage: Stage::Aborted { index: c.stopped }, ..c }
            } else if c.stopped + 1 == c.spawned {
                Coordinator { stage: Stage::Done, stopped: (c.stopped + 1) as usize, ..c }
            } else {
                Coordinator { stage: Stage::Cancelling, stopped: (c.stopped + 1) as usize, ..c }
            }
        },
        _ => c,
    }
}

/// The report that a successful execution of the current command gives.
pub open spec fn success_report(c: Coordinator) -> Report {
    match c.stage {
        Stage::Spawning => Report::Spawned,
        Stage::Waiting => Report::WaitOver,
        Stage::Cancelling => Report::CancelSent { ok: true },
        _ => Report::Joined { ok: true },
    }
}

/// The state after `k` commands in a row have succeeded.
pub open spec fn run_ok(c: Coordinator, k: nat) -> Coordinator
    decreases k,
{
    if k == 0 {
        c
    } else {
        run_ok(after_report(c, success_report(c)), (k - 1) as nat)
    }
}

impl Coordinator {
    /// Workers that were started and not yet confirmed stopped.
    pub open spec fn live(&self) -> int {
        self.spawned - self.stopped
    }

    pub open spec fn wf(&self) -> bool {
        &&& self.config.wf()
        &&& self.stopped <= self.spawned <= self.config.thread_count
        &&& match self.stage {
            Stage::Spawning => self.stopped == 0 && self.spawned < self.config.thread_count,
            Stage::Waiting => self.stopped == 0 && self.spawned == self.config.thread_count,
            Stage::Cancelling | Stage::Joining => self.spawned == self.config.thread_count
                && self.stopped < self.spawned,
            Stage::Done => self.spawned == self.config.thread_count && self.stopped
                == self.spawned,
            Stage::Aborted { index } => index == self.stopped && self.stopped < self.spawned,
        }
    }

    /// A run that has not started anything yet.
    pub open spec fn initial(config: LoadConfig) -> Coordinator {
        Coordinator {
            config,
            stage: if config.thread_count == 0 {
                Stage::Waiting
            } else {
                Stage::Spawning
            },
            spawned: 0,
            stopped: 0,
        }
    }

    /// A coordinator for `config`, before any worker is started.
    pub fn new(config: LoadConfig) -> (r: Coordinator)
        requires
            config.wf(),
        ensures
            r == Coordinator::initial(config),
            r.wf(),
    {
        let stage = if config.thread_count == 0 {
            Stage::Waiting
        } else {
            Stage::Spawning
        };
        Coordinator { config, stage, spawned: 0, stopped: 0 }
    }

    /// The command that the current state calls for.
    pub fn command(&self) -> (r: Command)
        requires
            self.wf(),
        ensures
            r == command_of(*self),
    {
        match self.stage {
            Stage::Spawning => Command::Spawn { index: self.spawned },
            Stage::Waiting => Command::Wait { seconds: self.config.wait_seconds() },
            Stage::Cancelling => Command::Cancel { index: self.stopped },
            Stage::Joining => Command::Join { index: self.stopped },
            Stage::Done => Command::Finish,
            Stage::Aborted { index } => Command::Abort { index },
        }
    }

    /// Takes in the outcome of the last command.
    pub fn record(&mut self, report: Report)
        requires
            old(self).wf(),
        ensures
            *final(self) == after_report(*old(self), report),
            final(self).wf(),
    {
        match (self.stage, report) {
            (Stage::Spawning, Report::Spawned) => {
                self.spawned = self.spawned + 1;
                if self.spawned == self.config.thread_count {
                    self.stage = Stage::Waiting;
                }
            },
            (Stage::Waiting, Report::WaitOver) => {
                if self.spawned == 0 {
                    self.stage = Stage::Done;
                } else {
                    self.stage = Stage::Cancelling;
                }
            },
            (Stage::Cancelling, Report::CancelSent { ok }) => {
                if ok {
                    self.stage = Stage::Joining;
                } else {
                    self.stage = Stage::Aborted { index: self.stopped };
                }
            },
            (Stage::Joining, Report::Joined { ok }) => {
                if !ok {
                    self.stage = Stage::Aborted { index: self.stopped };
                } else {
                    self.stopped = self.stopped + 1;
                    if self.stopped == self.spawned {
                        self.stage = Stage::Done;
                    } else {
                        self.stage = Stage::Cancelling;
                    }
                }
            },
            _ => {},
        }
    }

    /// Whether the run has reached a state it never leaves.
    pub fn is_finished(&self) -> (r: bool)
        ensures
            r == (self.stage == Stage::Done || self.stage is Aborted),
    {
        match self.stage {
            Stage::Done | Stage::Aborted { .. } => true,
            _ => false,
        }
    }
}

/// Running `a` successful commands and then `b` more is running `a + b`.
proof fn lemma_run_ok_split(c: Coordinator, a: nat, b: nat)
    ensures
        run_ok(c, a + b) == run_ok(run_ok(c, a), b),
    decreases a,
{
    if a > 0 {
        lemma_run_ok_split(after_report(c, success_report(c)), (a - 1) as nat, b);
        assert((a + b - 1) as nat == ((a - 1) as nat + b));
    }
}

/// While spawning, the remaining successful spawns lead to the wait.
proof fn lemma_spawn_all(c: Coordinator)
    requires
        c.wf(),
        c.stage == Stage::Spawning,
    ensures
        run_ok(c, (c.config.thread_count - c.spawned) as nat) == (Coordinator {
            stage: Stage::Waiting,
            spawned: c.config.thread_count,
            ..c
        }),
    decreases c.config.thread_count - c.spawned,
{
    let next = after_report(c, Report::Spawned);
    let k = (c.config.thread_count - c.spawned) as nat;
    assert(run_ok(c, k) == run_ok(next, (k - 1) as nat));
    if c.spawned + 1 < c.config.thread_count {
        lemma_spawn_all(next);
    } else {
        assert(run_ok(next, 0) == next);
    }
}

/// While tearing down, the remaining successful cancels and joins stop
/// every worker that is still live.
proof fn lemma_stop_all(c: Coordinator)
    requires
        c.wf(),
        c.stage == Stage::Cancelling,
    ensures
        run_ok(c, (2 * (c.spawned - c.stopped)) as nat) == (Coordinator {
            stage: Stage::Done,
            stopped: c.spawned,
            ..c
        }),
    decreases c.spawned - c.stopped,
{
    let joining = after_report(c, Report::CancelSent { ok: true });
    let next = after_report(joining, Report::Joined { ok: true });
    assert(run_ok(c, 2) == next) by {
        reveal_with_fuel(run_ok, 3);
    }
    if c.stopped + 1 < c.spawned {
        lemma_stop_all(next);
        lemma_run_ok_split(c, 2, (2 * (next.spawned - next.stopped)) as nat);
    }
}

/// A run in which every command succeeds starts all its workers, waits, and
/// then cancels and joins each of them, ending in `Done` with no worker
/// left live; three commands per worker and one wait take it there.
pub proof fn lemma_clean_run(config: LoadConfig)
    requires
        config.wf(),
    ensures
        run_ok(Coordinator::initial(config), (3 * config.thread_count + 1) as nat) == (Coordinator {
            config,
            stage: Stage::Done,
            spawned: config.thread_count,
            stopped: config.thread_count,
        }),
        run_ok(Coordinator::initial(config), (3 * config.thread_count + 1) as nat).live() == 0,
{
    let n = config.thread_count;
    let c0 = Coordinator::initial(config);
    let waiting = Coordinator { config, stage: Stage::Waiting, spawned: n, stopped: 0 };
    if n > 0 {
        lemma_spawn_all(c0);
        lemma_run_ok_split(c0, n as nat, 1);
    }
    assert(run_ok(c0, (n + 1) as nat) == run_ok(waiting, 1));
    assert(run_ok(waiting, 1) == after_report(waiting, Report::WaitOver)) by {
        reveal_with_fuel(run_ok, 2);
    }
    let cancelling = after_report(waiting, Report::WaitOver);
    if n > 0 {
        lemma_stop_all(cancelling);
        lemma_run_ok_split(c0, (n + 1) as nat, (2 * n) as nat);
        assert((n + 1 + 2 * n) as nat == (3 * n + 1) as nat);
    } else {
        assert(run_ok(cancelling, 0) == cancelling);
    }
}

/// A run never ends with a worker left: in `Done` every worker that was
/// started has been confirmed stopped, and `Done` and `Aborted` are never
/// left, whatever is reported.
pub proof fn lemma_finished_is_final(c: Coordinator, report: Report)
    requires
        c.wf(),
        c.stage == Stage::Done || c.stage is Aborted,
    ensures
        c.stage == Stage::Done ==> c.live() == 0 && command_of(c) == Command::Finish,
        after_report(c, report) == c,
{
}

/// Workers are torn down oldest first, one at a time: a worker is joined
/// right after it was signalled, and the next signal goes to the next
/// ordinal only once the previous worker has been joined.
pub proof fn lemma_ordered_teardown(c: Coordinator)
    requires
        c.wf(),
        c.stage == Stage::Cancelling,
    ensures
        command_of(c) == (Command::Cancel { index: c.stopped }),
        command_of(after_report(c, Report::CancelSent { ok: true })) == (Command::Join {
            index: c.stopped,
        }),
        after_report(after_report(c, Report::CancelSent { ok: true }), Report::Joined {
            ok: true,
        }).stopped == c.stopped + 1,
        c.stopped + 1 < c.spawned ==> command_of(
            after_report(after_report(c, Report::CancelSent { ok: true }), Report::Joined {
                ok: true,
            }),
        ) == (Command::Cancel { index: (c.stopped + 1) as usize }),
{
}

} // verus!
