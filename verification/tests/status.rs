use risc_bot::executor::ExitStatus;
use risc_bot::status::{ExecStatus, OUTPUT_TRUNCATE};
use risc_bot::time::{Duration, Timestamp};

fn at(millis: u64) -> Timestamp {
    Timestamp::from_epoch(Duration::from_millis(millis))
}

fn fresh() -> ExecStatus<u32> {
    ExecStatus::new_at(7, at(1_000_000))
}

#[test]
fn new_status_is_empty_and_clean() {
    let status = fresh();
    assert_eq!(status.output(), b"");
    assert_eq!(status.status(), None);
    assert_eq!(status.completion_duration(), None);
    assert!(!status.changed());
    assert!(!status.completed());
    assert!(!status.truncating());
    assert_eq!(status.updated_count(), 0);
    assert_eq!(status.started_at(), at(1_000_000));
    assert_eq!(status.changed_at(), at(1_000_000));
    assert_eq!(*status.status_msg(), 7);
}

#[test]
fn new_status_reads_the_clock() {
    let status = ExecStatus::new(());
    // Any clock that runs reads later than the year 2001.
    assert!(status.started_at().since_epoch().as_secs() > 1_000_000_000);
    assert_eq!(status.started_at(), status.changed_at());
    assert_eq!(status.output(), b"");
    assert!(!status.changed());
}

#[test]
fn truncate_budget_is_3946_bytes() {
    assert_eq!(OUTPUT_TRUNCATE, 3946);
}

#[test]
fn append_marks_changed_only_for_input() {
    let mut status = fresh();
    status.append("");
    assert!(!status.changed());
    assert_eq!(status.output(), b"");
    status.append("ab");
    assert!(status.changed());
    status.append("cd");
    assert_eq!(status.output(), b"abcd");
}

#[test]
fn append_line_separates_lines() {
    let mut status = fresh();
    status.append_line("one");
    assert_eq!(status.output(), b"one");
    status.append_line("two");
    assert_eq!(status.output(), b"one\ntwo");
    status.append_line("");
    assert_eq!(status.output(), b"one\ntwo\n");
    status.append_line("x");
    assert_eq!(status.output(), b"one\ntwo\n\nx");
}

#[test]
fn append_line_empty_first_line_leaves_no_trace() {
    let mut status = fresh();
    status.append_line("");
    assert_eq!(status.output(), b"");
    assert!(!status.changed());
    status.append_line("a");
    assert_eq!(status.output(), b"a");
    assert!(status.changed());
}

#[test]
fn append_keeps_the_tail_that_fits() {
    let mut status = fresh();
    let mut all = Vec::new();
    for i in 0..500u32 {
        let line = format!("line {}", i);
        if !all.is_empty() {
            all.push(b'\n');
        }
        all.extend_from_slice(line.as_bytes());
        status.append_line(&line);
        assert!(status.output().len() <= OUTPUT_TRUNCATE);
        let kept = all.len().min(OUTPUT_TRUNCATE);
        assert_eq!(status.output(), &all[all.len() - kept..]);
        assert_eq!(status.truncating(), all.len() >= OUTPUT_TRUNCATE);
    }
    assert!(all.len() > OUTPUT_TRUNCATE);
    assert_eq!(status.output().len(), OUTPUT_TRUNCATE);
}

#[test]
fn append_exactly_the_budget_is_kept_whole() {
    let mut status = fresh();
    let text = "x".repeat(OUTPUT_TRUNCATE);
    status.append(&text);
    assert_eq!(status.output(), text.as_bytes());
    assert!(status.truncating());
    status.append("y");
    assert_eq!(status.output().len(), OUTPUT_TRUNCATE);
    assert_eq!(status.output()[OUTPUT_TRUNCATE - 1], b'y');
    assert_eq!(status.output()[0], b'x');
}

#[test]
fn append_cuts_bytes_not_characters() {
    let mut status = fresh();
    // Two bytes each: with one byte more the cut falls inside a character.
    let text = "\u{e9}".repeat(OUTPUT_TRUNCATE / 2);
    status.append(&text);
    status.append("a");
    let mut all = text.as_bytes().to_vec();
    all.push(b'a');
    assert_eq!(status.output(), &all[all.len() - OUTPUT_TRUNCATE..]);
    assert_eq!(status.output()[0], 0xa9);
    assert_eq!(status.output()[1], 0xc3);
}

#[test]
fn set_status_first_time_marks_changed() {
    let mut status = fresh();
    status.set_status_at(ExitStatus::Exited(0), at(1_002_500));
    assert!(status.changed());
    assert!(status.completed());
    assert_eq!(status.status(), Some(ExitStatus::Exited(0)));
    assert_eq!(status.completion_duration(), Some(Duration::from_millis(2_500)));
}

#[test]
fn set_status_same_again_does_not_mark_changed() {
    let mut status = fresh();
    status.set_status_at(ExitStatus::Exited(3), at(1_000_100));
    assert!(status.update_at(at(1_000_100)).is_some());
    assert!(!status.changed());
    status.set_status_at(ExitStatus::Exited(3), at(1_000_200));
    assert!(!status.changed());
    assert_eq!(status.completion_duration(), Some(Duration::from_millis(200)));
    status.set_status_at(ExitStatus::Exited(4), at(1_000_300));
    assert!(status.changed());
    assert_eq!(status.status(), Some(ExitStatus::Exited(4)));
}

#[test]
fn set_status_tells_signals_apart() {
    let mut status = fresh();
    status.set_status_at(ExitStatus::Signaled(9), at(1_000_100));
    status.update_at(at(1_000_100));
    status.set_status_at(ExitStatus::Signaled(15), at(1_000_100));
    assert!(status.changed());
}

#[test]
fn set_status_before_the_start_leaves_duration_unknown() {
    let mut status = fresh();
    status.set_status_at(ExitStatus::Exited(0), at(999_999));
    assert!(status.completed());
    assert_eq!(status.completion_duration(), None);
}

#[test]
fn set_status_reads_the_clock() {
    let mut status = ExecStatus::new(());
    status.set_status(ExitStatus::Exited(0));
    assert!(status.changed());
    let took = status.completion_duration();
    assert!(took.is_none() || took.unwrap().as_secs() < 3600);
}

#[test]
fn exit_status_success_and_code() {
    assert!(ExitStatus::Exited(0).success());
    assert!(!ExitStatus::Exited(1).success());
    assert!(!ExitStatus::Signaled(0).success());
    assert_eq!(ExitStatus::Exited(124).code(), Some(124));
    assert_eq!(ExitStatus::Exited(-1).code(), Some(-1));
    assert_eq!(ExitStatus::Signaled(9).code(), None);
}

fn pushed(times: u64) -> ExecStatus<u32> {
    let mut status = fresh();
    for i in 0..times {
        status.append("x");
        assert!(status.update_at(at(1_000_000 + i)).is_some());
    }
    assert_eq!(status.updated_count(), times);
    status
}

#[test]
fn throttle_secs_steps_with_the_update_count() {
    let expected = [1u64, 1, 3, 3, 3, 5, 5, 5, 10, 10, 10, 10];
    for (count, secs) in expected.iter().enumerate() {
        let status = pushed(count as u64);
        assert_eq!(status.throttle_secs(0), *secs, "count {}", count);
    }
}

#[test]
fn throttle_secs_never_falls() {
    let mut last = 0;
    for count in 0..20 {
        let secs = pushed(count).throttle_secs(0);
        assert!(secs >= last);
        last = secs;
    }
    assert_eq!(last, 10);
}

#[test]
fn throttle_secs_takes_an_offset() {
    let status = pushed(1);
    assert_eq!(status.throttle_secs(0), 1);
    assert_eq!(status.throttle_secs(1), 3);
    assert_eq!(status.throttle_secs(4), 5);
    assert_eq!(status.throttle_secs(7), 10);
    assert_eq!(status.throttle_secs(-1), 1);
    assert_eq!(status.throttle_secs(i64::MIN), 1);
    assert_eq!(status.throttle_secs(i64::MAX), 10);
    assert!(!status.throttling(0));
    assert!(status.throttling(1));
}

#[test]
fn throttle_duration_is_next_delay_less_slack() {
    assert_eq!(pushed(0).throttle_duration(), Duration::from_millis(950));
    assert_eq!(pushed(1).throttle_duration(), Duration::from_millis(2_950));
    assert_eq!(pushed(4).throttle_duration(), Duration::from_millis(4_950));
    assert_eq!(pushed(7).throttle_duration(), Duration::from_millis(9_950));
    assert_eq!(pushed(30).throttle_duration(), Duration::from_millis(9_950));
}

fn ended(code: i32, after_millis: u64) -> ExecStatus<u32> {
    let mut status = fresh();
    status.set_status_at(ExitStatus::Exited(code), at(1_000_000 + after_millis));
    status
}

#[test]
fn timed_out_needs_code_124_and_the_full_time() {
    assert!(ended(124, 299_500).timed_out());
    assert!(ended(124, 299_000).timed_out());
    assert!(ended(124, 300_000).timed_out());
    assert!(ended(124, 305_000).timed_out());
    assert!(!ended(124, 298_999).timed_out());
    assert!(!ended(124, 10_000).timed_out());
    assert!(!ended(0, 300_000).timed_out());
    assert!(!ended(1, 300_000).timed_out());
    assert!(!ended(125, 300_000).timed_out());
}

#[test]
fn timed_out_with_unknown_duration() {
    let mut status = fresh();
    assert!(!status.timed_out());
    status.set_status_at(ExitStatus::Exited(124), at(0));
    assert_eq!(status.completion_duration(), None);
    assert!(status.timed_out());
    let mut killed = fresh();
    killed.set_status_at(ExitStatus::Signaled(124), at(1_300_000));
    assert!(!killed.timed_out());
}

#[test]
fn update_sends_only_what_changed() {
    let mut status = fresh();
    assert_eq!(status.update_at(at(1_000_500)), None);
    assert_eq!(status.updated_count(), 0);
    assert_eq!(status.changed_at(), at(1_000_000));
    status.append_line("hi");
    let text = status.update_at(at(1_000_500));
    assert_eq!(text, Some("<b>Output:</b>\n<code>hi</code>\n\n\u{23f3}  ".to_string()));
    assert_eq!(status.updated_count(), 1);
    assert!(!status.changed());
    assert_eq!(status.changed_at(), at(1_000_500));
    assert_eq!(status.update_at(at(1_000_600)), None);
    assert_eq!(status.updated_count(), 1);
    assert_eq!(status.changed_at(), at(1_000_500));
}

#[test]
fn update_status_msg_counts_even_without_change() {
    let mut status = fresh();
    let text = status.update_status_msg_at(at(1_000_010));
    assert_eq!(text, "<i>Executing command...</i>");
    assert_eq!(status.updated_count(), 1);
    assert_eq!(status.changed_at(), at(1_000_010));
    assert!(!status.changed());
}

#[test]
fn update_throttled_waits_for_the_delay() {
    let mut status = fresh();
    status.append_line("a");
    // No updates yet: the next delay is 1 s, less 50 ms.
    assert_eq!(status.update_throttled_at(at(1_000_949)), None);
    assert!(status.changed());
    assert!(status.update_throttled_at(at(1_000_950)).is_some());
    assert_eq!(status.updated_count(), 1);
    // One update: the next delay is 3 s, less 50 ms.
    status.append_line("b");
    assert_eq!(status.update_throttled_at(at(1_003_899)), None);
    assert!(status.update_throttled_at(at(1_003_900)).is_some());
    assert_eq!(status.updated_count(), 2);
    assert_eq!(status.changed_at(), at(1_003_900));
}

#[test]
fn update_throttled_sends_nothing_unchanged_or_backwards() {
    let mut status = fresh();
    assert_eq!(status.update_throttled_at(at(2_000_000)), None);
    assert_eq!(status.updated_count(), 0);
    status.append("x");
    assert_eq!(status.update_throttled_at(at(999_000)), None);
    assert!(status.changed());
    assert_eq!(status.updated_count(), 0);
}

#[test]
fn update_with_the_clock() {
    let mut status = ExecStatus::new(());
    assert_eq!(status.update(), None);
    assert_eq!(status.update_throttled(), None);
    assert_eq!(status.updated_count(), 0);
    status.append_line("out");
    let text = status.update();
    assert_eq!(text, Some("<b>Output:</b>\n<code>out</code>\n\n\u{23f3}  ".to_string()));
    assert_eq!(status.updated_count(), 1);
    assert!(!status.changed());
    let again = status.update_status_msg();
    assert_eq!(again, "<b>Output:</b>\n<code>out</code>\n\n\u{23f3}   (throttling 3s)");
    assert_eq!(status.updated_count(), 2);
    assert!(status.changed_at().since_epoch().as_secs() > 1_000_000_000);
}

#[test]
fn update_throttled_with_the_clock_sends_or_waits() {
    let mut status = ExecStatus::new(());
    status.append_line("out");
    match status.update_throttled() {
        // The throttle delay has not passed since the status was made.
        None => {
            assert!(status.changed());
            assert_eq!(status.updated_count(), 0);
        }
        // It has: the test was held up for a second.
        Some(text) => {
            assert_eq!(text, "<b>Output:</b>\n<code>out</code>\n\n\u{23f3}  ");
            assert!(!status.changed());
            assert_eq!(status.updated_count(), 1);
        }
    }
}
