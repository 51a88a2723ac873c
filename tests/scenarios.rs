use cpu_loader::config::{ConfigError, LoadConfig};
use cpu_loader::coordinator::{Command, Coordinator, Report, Stage};
use cpu_loader::duty_cycle::{busy_micros, idle_micros, Action, DutyCycle, Event};

/// Drives a coordinator with every command succeeding and returns the
/// commands it gave, `Finish` included.
fn clean_run(config: LoadConfig) -> Vec<Command> {
    let mut c = Coordinator::new(config);
    let mut out = Vec::new();
    loop {
        let cmd = c.command();
        out.push(cmd);
        let report = match cmd {
            Command::Spawn { .. } => Report::Spawned,
            Command::Wait { .. } => Report::WaitOver,
            Command::Cancel { .. } => Report::CancelSent { ok: true },
            Command::Join { .. } => Report::Joined { ok: true },
            Command::Abort { .. } | Command::Finish => break,
        };
        c.record(report);
    }
    out
}

fn teardown(n: usize) -> Vec<Command> {
    let mut v = Vec::new();
    for i in 0..n {
        v.push(Command::Cancel { index: i });
        v.push(Command::Join { index: i });
    }
    v
}

#[test]
fn one_full_load_worker_for_two_seconds() {
    let config = LoadConfig::new(1, 100, Some(2)).unwrap();
    let mut expected = vec![Command::Spawn { index: 0 }, Command::Wait { seconds: 2 }];
    expected.extend(teardown(1));
    expected.push(Command::Finish);
    assert_eq!(clean_run(config), expected);

    let mut w = DutyCycle::new(100);
    assert_eq!(w.first_action(), Action::BeginPeriod);
    assert_eq!(w.step(Event::Polled { cancelled: false, elapsed_nanos: 9_999_999 }), Action::Poll);
    assert_eq!(
        w.step(Event::Polled { cancelled: false, elapsed_nanos: 10_000_001 }),
        Action::BeginPeriod
    );
    assert_eq!(idle_micros(100), 0);
}

#[test]
fn four_half_load_workers_for_five_seconds() {
    let config = LoadConfig::new(4, 50, Some(5)).unwrap();
    let mut expected: Vec<Command> = (0..4).map(|i| Command::Spawn { index: i }).collect();
    expected.push(Command::Wait { seconds: 5 });
    expected.extend(teardown(4));
    expected.push(Command::Finish);
    assert_eq!(clean_run(config), expected);

    assert_eq!(busy_micros(50), 5000);
    assert_eq!(idle_micros(50), 5000);
    let mut w = DutyCycle::new(50);
    assert_eq!(w.step(Event::Polled { cancelled: false, elapsed_nanos: 5_000_000 }), Action::Poll);
    assert_eq!(
        w.step(Event::Polled { cancelled: false, elapsed_nanos: 5_000_001 }),
        Action::Sleep { micros: 5000 }
    );
    assert_eq!(w.step(Event::Woke { cancelled: false }), Action::BeginPeriod);
}

#[test]
fn load_above_one_hundred_is_refused() {
    assert_eq!(
        LoadConfig::new(1, 150, None),
        Err(ConfigError::LoadPercentTooHigh { load_percent: 150 })
    );
    assert_eq!(
        LoadConfig::new(1, 101, Some(3)),
        Err(ConfigError::LoadPercentTooHigh { load_percent: 101 })
    );
    assert!(LoadConfig::new(1, 100, None).is_ok());
}

#[test]
fn two_idle_workers_for_one_second() {
    let config = LoadConfig::new(2, 0, Some(1)).unwrap();
    let mut expected = vec![
        Command::Spawn { index: 0 },
        Command::Spawn { index: 1 },
        Command::Wait { seconds: 1 },
    ];
    expected.extend(teardown(2));
    expected.push(Command::Finish);
    assert_eq!(clean_run(config), expected);

    let mut w = DutyCycle::new(0);
    assert_eq!(busy_micros(0), 0);
    assert_eq!(
        w.step(Event::Polled { cancelled: false, elapsed_nanos: 1 }),
        Action::Sleep { micros: 10000 }
    );
}

#[test]
fn busy_share_matches_load() {
    for load in 0..=100u8 {
        assert_eq!(busy_micros(load) * 100, load as u64 * 10000);
        assert_eq!(busy_micros(load) + idle_micros(load), 10000);
    }
    assert_eq!(busy_micros(37), 3700);
    assert_eq!(idle_micros(37), 6300);
}

#[test]
fn full_load_never_sleeps() {
    let mut w = DutyCycle::new(100);
    for elapsed in [0u64, 1, 5_000_000, 10_000_000, 10_000_001, u64::MAX] {
        let a = w.step(Event::Polled { cancelled: false, elapsed_nanos: elapsed });
        assert!(!matches!(a, Action::Sleep { .. }));
    }
}

#[test]
fn cancellation_stops_at_once() {
    for load in [0u8, 1, 50, 99, 100] {
        let mut busy = DutyCycle::new(load);
        assert_eq!(
            busy.step(Event::Polled { cancelled: true, elapsed_nanos: 0 }),
            Action::Stop
        );
        assert!(busy.stopped);
        assert_eq!(busy.step(Event::Woke { cancelled: false }), Action::Stop);
        assert_eq!(busy.first_action(), Action::Stop);

        let mut sleeping = DutyCycle::new(load);
        assert_eq!(sleeping.step(Event::Woke { cancelled: true }), Action::Stop);
        assert_eq!(
            sleeping.step(Event::Polled { cancelled: false, elapsed_nanos: 1 }),
            Action::Stop
        );
    }
}

#[test]
fn zero_threads_is_an_empty_run() {
    let config = LoadConfig::new(0, 100, Some(4)).unwrap();
    assert_eq!(clean_run(config), vec![Command::Wait { seconds: 4 }, Command::Finish]);
}

#[test]
fn unbounded_run_waits_longest_span() {
    let config = LoadConfig::new(1, 10, None).unwrap();
    assert_eq!(config.wait_seconds(), u64::MAX);
    assert_eq!(LoadConfig::new(1, 10, Some(0)).unwrap().wait_seconds(), 0);
}

#[test]
fn failed_cancel_aborts_naming_worker() {
    let config = LoadConfig::new(3, 20, Some(1)).unwrap();
    let mut c = Coordinator::new(config);
    for _ in 0..3 {
        c.record(Report::Spawned);
    }
    c.record(Report::WaitOver);
    c.record(Report::CancelSent { ok: true });
    c.record(Report::Joined { ok: true });
    assert_eq!(c.command(), Command::Cancel { index: 1 });
    c.record(Report::CancelSent { ok: false });
    assert_eq!(c.stage, Stage::Aborted { index: 1 });
    assert_eq!(c.command(), Command::Abort { index: 1 });
    assert!(c.is_finished());
    c.record(Report::Joined { ok: true });
    assert_eq!(c.command(), Command::Abort { index: 1 });
}

#[test]
fn failed_join_aborts_naming_worker() {
    let config = LoadConfig::new(1, 20, Some(1)).unwrap();
    let mut c = Coordinator::new(config);
    c.record(Report::Spawned);
    c.record(Report::WaitOver);
    c.record(Report::CancelSent { ok: true });
    c.record(Report::Joined { ok: false });
    assert_eq!(c.command(), Command::Abort { index: 0 });
}

#[test]
fn clean_run_leaves_no_live_worker() {
    for n in [0usize, 1, 2, 7] {
        let config = LoadConfig::new(n, 60, Some(1)).unwrap();
        let mut c = Coordinator::new(config);
        let mut steps = 0usize;
        while !c.is_finished() {
            let report = match c.command() {
                Command::Spawn { .. } => Report::Spawned,
                Command::Wait { .. } => Report::WaitOver,
                Command::Cancel { .. } => Report::CancelSent { ok: true },
                _ => Report::Joined { ok: true },
            };
            c.record(report);
            steps += 1;
        }
        assert_eq!(c.stage, Stage::Done);
        assert_eq!(steps, 3 * n + 1);
        assert_eq!(c.spawned, n);
        assert_eq!(c.stopped, n);
    }
}

#[test]
fn mismatched_report_changes_nothing() {
    let config = LoadConfig::new(2, 20, Some(1)).unwrap();
    let mut c = Coordinator::new(config);
    let before = c;
    c.record(Report::WaitOver);
    c.record(Report::Joined { ok: false });
    assert_eq!(c, before);
}
