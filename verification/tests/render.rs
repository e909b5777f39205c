use risc_bot::executor::ExitStatus;
use risc_bot::status::{ExecStatus, OUTPUT_TRUNCATE};
use risc_bot::time::{Duration, Timestamp};

fn at_nanos(secs: u64, nanos: u32) -> Timestamp {
    Timestamp::from_epoch(Duration::new(secs, nanos).unwrap())
}

fn fresh() -> ExecStatus<()> {
    ExecStatus::new_at((), at_nanos(1_000, 0))
}

fn ended_after(status: ExitStatus, secs: u64, nanos: u32) -> ExecStatus<()> {
    let mut exec = fresh();
    exec.set_status_at(status, at_nanos(1_000 + secs, nanos));
    exec
}

#[test]
fn render_of_a_new_status_is_the_placeholder() {
    assert_eq!(fresh().build_status_msg(), "<i>Executing command...</i>");
    assert_eq!(ExecStatus::new(0u8).build_status_msg(), "<i>Executing command...</i>");
}

#[test]
fn render_placeholder_survives_empty_input() {
    let mut status = fresh();
    status.append("");
    status.append_line("");
    assert_eq!(status.build_status_msg(), "<i>Executing command...</i>");
}

#[test]
fn render_running_with_output() {
    let mut status = fresh();
    status.append_line("hello");
    status.append_line("world");
    assert_eq!(
        status.build_status_msg(),
        "<b>Output:</b>\n<code>hello\nworld</code>\n\n\u{23f3}  "
    );
}

#[test]
fn render_success_without_output() {
    let status = ended_after(ExitStatus::Exited(0), 2, 700_000_000);
    assert_eq!(status.build_status_msg(), "<i>No output</i>\n\n\u{2705}   (took 2s)");
}

#[test]
fn render_failure_shows_the_exit_code() {
    let mut status = fresh();
    status.append_line("oops");
    status.set_status_at(ExitStatus::Exited(2), at_nanos(1_061, 0));
    assert_eq!(
        status.build_status_msg(),
        "<b>Output:</b>\n<code>oops</code>\n\n\u{274c}   Exit code <code>2</code> (took 1m 1s)"
    );
    let negative = ended_after(ExitStatus::Exited(-7), 1, 0);
    assert_eq!(
        negative.build_status_msg(),
        "<i>No output</i>\n\n\u{274c}   Exit code <code>-7</code> (took 1s)"
    );
}

#[test]
fn render_failure_without_code_shows_a_question_mark() {
    let status = ended_after(ExitStatus::Signaled(9), 3, 0);
    assert_eq!(
        status.build_status_msg(),
        "<i>No output</i>\n\n\u{274c}   Exit code <code>?</code> (took 3s)"
    );
}

#[test]
fn render_escapes_html() {
    let mut status = fresh();
    status.append_line("<a href=\"x\">Tom & 'Jerry'</a>");
    assert_eq!(
        status.build_status_msg(),
        "<b>Output:</b>\n<code>&lt;a href=&quot;x&quot;&gt;Tom &amp; &#x27;Jerry&#x27;&lt;/a&gt;</code>\n\n\u{23f3}  "
    );
}

#[test]
fn render_keeps_other_characters() {
    let mut status = fresh();
    status.append_line("gr\u{fc}\u{df}e \u{1f600}");
    assert_eq!(
        status.build_status_msg(),
        "<b>Output:</b>\n<code>gr\u{fc}\u{df}e \u{1f600}</code>\n\n\u{23f3}  "
    );
}

#[test]
fn render_timed_out_near_the_ceiling() {
    let status = ended_after(ExitStatus::Exited(124), 299, 500_000_000);
    assert_eq!(
        status.build_status_msg(),
        "<i>No output</i>\n\n\u{274c}   Exit code <code>124</code> (timed out, took 4m 59s)"
    );
    assert_eq!(status.status_labels(), vec!["timed out".to_string(), "took 4m 59s".to_string()]);
}

#[test]
fn render_code_124_early_is_not_timed_out() {
    let status = ended_after(ExitStatus::Exited(124), 10, 0);
    assert_eq!(
        status.build_status_msg(),
        "<i>No output</i>\n\n\u{274c}   Exit code <code>124</code> (took 10s)"
    );
    assert_eq!(status.status_labels(), vec!["took 10s".to_string()]);
}

#[test]
fn render_timed_out_with_unknown_duration() {
    let mut status = fresh();
    status.set_status_at(ExitStatus::Exited(124), at_nanos(999, 0));
    assert_eq!(
        status.build_status_msg(),
        "<i>No output</i>\n\n\u{274c}   Exit code <code>124</code> (timed out)"
    );
    assert_eq!(status.format_duration(), None);
}

#[test]
fn render_throttling_label_while_running() {
    let mut status = fresh();
    status.append_line("a");
    // The first update: the next one waits a second, which is no throttling.
    assert_eq!(
        status.update_at(at_nanos(1_001, 0)).unwrap(),
        "<b>Output:</b>\n<code>a</code>\n\n\u{23f3}  "
    );
    status.append_line("b");
    assert_eq!(
        status.update_at(at_nanos(1_002, 0)).unwrap(),
        "<b>Output:</b>\n<code>a\nb</code>\n\n\u{23f3}   (throttling 3s)"
    );
    for _ in 0..2 {
        status.append("c");
        status.update_at(at_nanos(1_003, 0));
    }
    status.append("c");
    assert_eq!(
        status.update_at(at_nanos(1_004, 0)).unwrap(),
        "<b>Output:</b>\n<code>a\nbccc</code>\n\n\u{23f3}   (throttling 5s)"
    );
    for _ in 0..3 {
        status.append("d");
        status.update_at(at_nanos(1_005, 0));
    }
    assert_eq!(status.status_labels(), vec!["throttling 10s".to_string()]);
}

#[test]
fn render_no_throttling_label_once_ended() {
    let mut status = fresh();
    for _ in 0..9 {
        status.append("x");
        status.update_at(at_nanos(1_001, 0));
    }
    assert!(status.throttling(1));
    status.set_status_at(ExitStatus::Exited(0), at_nanos(1_005, 0));
    assert_eq!(status.status_labels(), vec!["took 5s".to_string()]);
}

#[test]
fn render_truncating_while_running() {
    let mut status = fresh();
    status.append(&"a".repeat(OUTPUT_TRUNCATE + 10));
    let expected = format!(
        "<b>Output:</b>\n<code>[truncated] {}</code>\n\n\u{23f3}   (truncating)",
        "a".repeat(OUTPUT_TRUNCATE)
    );
    assert_eq!(status.build_status_msg(), expected);
}

#[test]
fn render_truncated_once_ended() {
    let mut status = fresh();
    status.append_line(&"head ".repeat(1_000));
    status.append_line("tail");
    status.set_status_at(ExitStatus::Exited(0), at_nanos(1_001, 0));
    let text = status.build_status_msg();
    let body = format!("{}\ntail", "head ".repeat(1_000));
    let kept = &body[body.len() - OUTPUT_TRUNCATE..];
    assert_eq!(
        text,
        format!("<b>Output:</b>\n<code>[truncated] {}</code>\n\n\u{2705}   (took 1s, truncated)", kept)
    );
}

#[test]
fn render_all_labels_of_an_ended_command() {
    let mut status = fresh();
    status.append(&"z".repeat(OUTPUT_TRUNCATE));
    status.set_status_at(ExitStatus::Exited(124), at_nanos(1_300, 1));
    assert_eq!(
        status.status_labels(),
        vec!["timed out".to_string(), "took 5m".to_string(), "truncated".to_string()]
    );
    assert_eq!(
        status.status_notice(),
        " Exit code <code>124</code> (timed out, took 5m, truncated)"
    );
}

#[test]
fn render_replaces_bytes_of_a_cut_character() {
    let mut status = fresh();
    status.append(&"\u{e9}".repeat(OUTPUT_TRUNCATE / 2));
    status.append("a");
    let text = status.build_status_msg();
    let expected = format!(
        "<b>Output:</b>\n<code>[truncated] \u{fffd}{}a</code>\n\n\u{23f3}   (truncating)",
        "\u{e9}".repeat(OUTPUT_TRUNCATE / 2 - 1)
    );
    assert_eq!(text, expected);
}

#[test]
fn format_duration_whole_seconds_from_a_second_on() {
    assert_eq!(ended_after(ExitStatus::Exited(0), 1, 0).format_duration().unwrap(), "1s");
    assert_eq!(
        ended_after(ExitStatus::Exited(0), 1, 999_999_999).format_duration().unwrap(),
        "1s"
    );
    assert_eq!(ended_after(ExitStatus::Exited(0), 9_420, 5).format_duration().unwrap(), "2h 37m");
    assert_eq!(
        ended_after(ExitStatus::Exited(0), 90_061, 0).format_duration().unwrap(),
        "1day 1h 1m 1s"
    );
}

#[test]
fn format_duration_smallest_unit_below_a_second() {
    assert_eq!(
        ended_after(ExitStatus::Exited(0), 0, 32_000_000).format_duration().unwrap(),
        "32ms"
    );
    assert_eq!(
        ended_after(ExitStatus::Exited(0), 0, 5_300_020).format_duration().unwrap(),
        "20ns"
    );
    assert_eq!(
        ended_after(ExitStatus::Exited(0), 0, 999_999_000).format_duration().unwrap(),
        "999us"
    );
    assert_eq!(ended_after(ExitStatus::Exited(0), 0, 0).format_duration().unwrap(), "0s");
    assert_eq!(fresh().format_duration(), None);
}

#[test]
fn executing_is_the_placeholder() {
    assert_eq!(risc_bot::render::executing(), "<i>Executing command...</i>");
    assert_eq!(fresh().build_status_msg(), risc_bot::render::executing());
}

#[test]
fn format_output_escapes_and_marks() {
    assert_eq!(
        risc_bot::render::format_output("a < b", false),
        "<b>Output:</b>\n<code>a &lt; b</code>"
    );
    assert_eq!(
        risc_bot::render::format_output("tail", true),
        "<b>Output:</b>\n<code>[truncated] tail</code>"
    );
    assert_eq!(risc_bot::render::format_output("", false), "<b>Output:</b>\n<code></code>");
}
