use risc_bot::action::exec::{sent, Error, Exec, ExecRun, Invocation, Phase, Sending, TICK_MILLIS};
use risc_bot::executor::ExitStatus;
use risc_bot::status::{ExecStatus, OUTPUT_TRUNCATE};
use risc_bot::time::{Duration, Timestamp};
use std::io;

fn at(millis: u64) -> Timestamp {
    Timestamp::from_epoch(Duration::from_millis(millis))
}

fn start(cmd: &str) -> ExecRun<&'static str> {
    let (run, _) = ExecRun::start(Ok::<_, String>(Some("handle")), cmd, None, at(50_000)).unwrap();
    run
}

#[test]
fn exec_action_names() {
    let exec = Exec::new();
    assert_eq!(exec.cmd(), "exec");
    assert!(!exec.hidden());
    assert_eq!(exec.help(), "Execute a shell command");
}

#[test]
fn start_gives_the_run_and_the_command_line() {
    let (run, line) =
        ExecRun::start(Ok::<_, String>(Some(9u8)), "echo hi", Some("replied"), at(50_000)).unwrap();
    assert_eq!(run.phase(), Phase::Racing);
    assert_eq!(*run.status().status_msg(), 9);
    assert_eq!(run.status().started_at(), at(50_000));
    assert_eq!(run.status().build_status_msg(), "<i>Executing command...</i>");
    assert_eq!(line.program(), "docker");
    assert_eq!(line.args()[13], "REPLY=replied");
    assert_eq!(line.args().last().unwrap(), "echo hi");
}

#[test]
fn start_without_status_message_fails() {
    let none = ExecRun::<u8>::start(Ok::<_, String>(None), "echo hi", None, at(1));
    assert!(matches!(none, Err(Error::StatusMessage(None))));
    let failed = ExecRun::<u8>::start(Err("offline".to_string()), "echo hi", None, at(1));
    match failed {
        Err(Error::StatusMessage(Some(cause))) => assert_eq!(cause, "offline"),
        _ => panic!("unexpected"),
    }
}

#[test]
fn echo_hi_is_shown_and_flushed() {
    let mut run = start("echo hi");
    assert_eq!(run.tick(at(51_000)), None);
    run.line("hi");
    let pushed = run.tick(at(51_000)).unwrap();
    assert_eq!(pushed, "<b>Output:</b>\n<code>hi</code>\n\n\u{23f3}  ");
    assert_eq!(run.tick(at(52_000)), None);
    let flush = run.finish::<String>(Ok(ExitStatus::Exited(0)), at(52_100)).unwrap().unwrap();
    assert_eq!(flush, "<b>Output:</b>\n<code>hi</code>\n\n\u{2705}   (took 2s)");
    assert!(flush.contains("hi"));
    assert!(flush.contains("took "));
    assert!(!flush.contains("timed out"));
    assert!(!flush.contains("truncated"));
    assert_eq!(run.phase(), Phase::Flushed);
    assert_eq!(run.status().updated_count(), 2);
    assert!(!run.status().changed());
}

#[test]
fn flush_goes_out_despite_the_throttle() {
    let mut run = start("true");
    run.line("a");
    assert!(run.tick(at(51_000)).is_some());
    run.line("b");
    // Too early for a throttled update.
    assert_eq!(run.tick(at(51_500)), None);
    let flush = run.finish::<String>(Ok(ExitStatus::Exited(0)), at(51_600));
    assert_eq!(
        flush.unwrap(),
        Some("<b>Output:</b>\n<code>a\nb</code>\n\n\u{2705}   (took 1s)".to_string())
    );
}

#[test]
fn flush_goes_out_for_a_silent_command() {
    let mut run = start("true");
    assert_eq!(run.tick(at(60_000)), None);
    let flush = run.finish::<String>(Ok(ExitStatus::Exited(0)), at(60_010)).unwrap();
    assert_eq!(flush, Some("<i>No output</i>\n\n\u{2705}   (took 10s)".to_string()));
}

#[test]
fn long_output_is_flushed_truncated() {
    let mut run = start("yes");
    for _ in 0..OUTPUT_TRUNCATE {
        run.line("y");
    }
    let flush = run.finish::<String>(Ok(ExitStatus::Exited(1)), at(50_700)).unwrap().unwrap();
    let kept: String = "\ny".repeat(OUTPUT_TRUNCATE / 2);
    assert_eq!(
        flush,
        format!(
            "<b>Output:</b>\n<code>[truncated] {}</code>\n\n\u{274c}   Exit code <code>1</code> (took 700ms, truncated)",
            kept
        )
    );
}

#[test]
fn failed_run_sends_nothing() {
    let mut run = start("echo hi");
    run.line("partial");
    let cause = io::Error::new(io::ErrorKind::UnexpectedEof, "eof");
    let result = run.finish::<String>(Err(risc_bot::executor::Error::CollectOutput(cause)), at(50_500));
    match result {
        Err(Error::Execute(risc_bot::executor::Error::CollectOutput(cause))) => {
            assert_eq!(cause.kind(), io::ErrorKind::UnexpectedEof)
        }
        _ => panic!("unexpected"),
    }
    assert_eq!(run.phase(), Phase::Failed);
    assert!(run.status().changed());
    assert_eq!(run.status().updated_count(), 0);
    assert_eq!(run.tick(at(60_000)), None);
}

#[test]
fn nothing_goes_out_after_the_flush() {
    let mut run = start("echo hi");
    run.line("hi");
    assert!(run.finish::<String>(Ok(ExitStatus::Exited(0)), at(50_100)).unwrap().is_some());
    run.line("late");
    assert_eq!(run.status().output(), b"hi");
    assert_eq!(run.tick(at(90_000)), None);
    assert_eq!(run.ticker_stopped(at(90_000)), None);
    assert!(matches!(run.finish::<String>(Ok(ExitStatus::Exited(1)), at(90_000)), Ok(None)));
    assert_eq!(run.status().status(), Some(ExitStatus::Exited(0)));
    assert_eq!(run.phase(), Phase::Flushed);
}

#[test]
fn ticker_stopping_ends_the_race_with_a_flush() {
    let mut run = start("sleep 1");
    run.line("x");
    let flush = run.ticker_stopped(at(50_001));
    assert_eq!(flush, Some("<b>Output:</b>\n<code>x</code>\n\n\u{23f3}  ".to_string()));
    assert_eq!(run.phase(), Phase::Flushed);
    let mut idle = start("sleep 1");
    assert_eq!(idle.ticker_stopped(at(50_001)), None);
    assert_eq!(idle.phase(), Phase::Flushed);
}

#[test]
fn action_error_messages() {
    assert_eq!(Error::Help("x").message(), "failed to send help response message");
    assert_eq!(
        Error::StatusMessage(None::<u8>).message(),
        "failed to send command status message"
    );
    let cause = io::Error::new(io::ErrorKind::Other, "x");
    assert_eq!(
        Error::<u8>::Execute(risc_bot::executor::Error::Spawn(cause)).message(),
        "failed to execute user shell command"
    );
}

#[test]
fn invocation_runs_what_stands_behind_the_first_word() {
    assert_eq!(Exec::invocation("/exec echo Hello!"), Invocation::Run("echo Hello!".to_string()));
    assert_eq!(Exec::invocation("/exec   ls -l  "), Invocation::Run("ls -l  ".to_string()));
    assert_eq!(Exec::invocation("/exec"), Invocation::Usage);
    assert_eq!(Exec::invocation("/exec    "), Invocation::Usage);
    assert_eq!(Exec::invocation("/exec \n\t"), Invocation::Usage);
    assert_eq!(Exec::invocation(""), Invocation::Usage);
    assert_eq!(
        Exec::usage(),
        "Please provide a command to run.\n\nFor example:\n`/exec echo Hello!`"
    );
}

#[test]
fn only_updates_on_the_way_may_fail_to_arrive() {
    for what in [Sending::Usage, Sending::Update, Sending::LastUpdate] {
        assert!(matches!(sent::<String>(what, Ok(())), Ok(())));
    }
    assert!(matches!(sent(Sending::Update, Err("offline".to_string())), Ok(())));
    match sent(Sending::LastUpdate, Err("offline".to_string())) {
        Err(Error::StatusMessage(Some(cause))) => assert_eq!(cause, "offline"),
        _ => panic!("unexpected"),
    }
    match sent(Sending::Usage, Err("offline".to_string())) {
        Err(Error::Help(cause)) => assert_eq!(cause, "offline"),
        _ => panic!("unexpected"),
    }
    assert_eq!(TICK_MILLIS, 1000);
}

#[test]
fn create_status_msg_needs_the_message() {
    let status = ExecStatus::create_status_msg_at(Ok::<_, String>(Some(3u8)), at(77)).unwrap();
    assert_eq!(*status.status_msg(), 3);
    assert_eq!(status.started_at(), at(77));
    assert_eq!(status.build_status_msg(), "<i>Executing command...</i>");
    assert!(matches!(
        ExecStatus::<u8>::create_status_msg_at(Ok::<_, String>(None), at(77)),
        Err(Error::StatusMessage(None))
    ));
    match ExecStatus::<u8>::create_status_msg(Err("offline".to_string())) {
        Err(Error::StatusMessage(Some(cause))) => assert_eq!(cause, "offline"),
        _ => panic!("unexpected"),
    }
    let now = ExecStatus::create_status_msg(Ok::<_, String>(Some(()))).unwrap();
    assert!(now.started_at().since_epoch().as_secs() > 1_000_000_000);
}
