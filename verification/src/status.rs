//! The status of a command that runs in the sandbox: what it has written so
//! far, how it ended, and when the chat was last told.

use vstd::prelude::*;
use vstd::string::*;

use crate::executor::ExitStatus;
use crate::render::text_view;
use crate::time::{elapsed, system_now, Duration, Timestamp, NANOS_PER_MILLI, NANOS_PER_SEC};

verus! {

/// The number of bytes of output that are kept. What came first goes first.
pub const OUTPUT_TRUNCATE: usize = 4096 - 150;

/// The time after which the sandbox ends a command, in seconds.
pub const EXEC_TIMEOUT_SECS: u64 = 300;

/// How far off a measured running time may be, in seconds.
pub const EXEC_TIMEOUT_PRECISION_SECS: u64 = 1;

/// The exit code with which the sandbox reports that it ended a command
/// because its time was up.
pub const TIMEOUT_EXIT_CODE: i32 = 124;

/// How much earlier than the throttle delay an update may pass, in
/// milliseconds, so that a tick that comes a moment early is not lost.
pub const THROTTLE_SLACK_MILLIS: u64 = 50;

/// The byte that stands between two lines of output.
pub const LINE_SEPARATOR: u8 = 0x0a;

/// The last `limit` bytes of `bytes`; all of them if there are no more.
pub open spec fn tail(bytes: Seq<u8>, limit: nat) -> Seq<u8> {
    if bytes.len() > limit {
        bytes.skip(bytes.len() - limit)
    } else {
        bytes
    }
}

/// The seconds to wait before the next update, for the number of updates
/// that have been sent.
pub open spec fn throttle_secs_for(count: int) -> nat {
    if count < 2 {
        1
    } else if count < 5 {
        3
    } else if count < 8 {
        5
    } else {
        10
    }
}

/// The update count after one more update.
pub open spec fn counted_up(count: nat) -> nat {
    if count < u64::MAX {
        count + 1
    } else {
        count
    }
}

/// What an [`ExecStatus`] stands for.
pub struct StatusModel<H> {
    /// The output that is kept, as bytes.
    pub output: Seq<u8>,
    /// How the command ended, once it has.
    pub status: Option<ExitStatus>,
    /// When the command started.
    pub started_at: nat,
    /// How long the command ran, in nanoseconds, where that is known.
    pub completion_duration: Option<nat>,
    /// Whether output or exit status have changed since the last update.
    pub changed: bool,
    /// When the last update was sent.
    pub changed_at: nat,
    /// The number of updates sent.
    pub updated_count: nat,
    /// The message in the chat that shows the status.
    pub status_msg: H,
}

impl<H> StatusModel<H> {
    /// The status of a command that starts at `now`.
    pub open spec fn fresh(status_msg: H, now: nat) -> Self {
        StatusModel {
            output: Seq::empty(),
            status: None,
            started_at: now,
            completion_duration: None,
            changed: false,
            changed_at: now,
            updated_count: 0,
            status_msg,
        }
    }

    /// Whether the command has ended.
    pub open spec fn completed(self) -> bool {
        self.status is Some
    }

    /// Whether the output fills all the room there is.
    pub open spec fn truncating(self) -> bool {
        self.output.len() >= OUTPUT_TRUNCATE
    }

    /// The status after `bytes` of output more.
    pub open spec fn append(self, bytes: Seq<u8>) -> Self {
        StatusModel {
            output: tail(self.output + bytes, OUTPUT_TRUNCATE as nat),
            changed: self.changed || bytes.len() > 0,
            ..self
        }
    }

    /// The status after one more line of output.
    pub open spec fn append_line(self, line: Seq<u8>) -> Self {
        if self.output.len() > 0 {
            self.append(seq![LINE_SEPARATOR]).append(line)
        } else {
            self.append(line)
        }
    }

    /// The seconds to wait before an update, `offset` updates from now.
    pub open spec fn throttle_secs(self, offset: int) -> nat {
        throttle_secs_for(self.updated_count + offset)
    }

    /// Whether updates `offset` updates from now are held back for more
    /// than a second.
    pub open spec fn throttling(self, offset: int) -> bool {
        self.throttle_secs(offset) > 1
    }

    /// The time that has to pass after an update before a throttled update
    /// goes out, in nanoseconds: the delay of the next update, less the
    /// slack.
    pub open spec fn throttle_nanos(self) -> nat {
        (self.throttle_secs(1) * NANOS_PER_SEC - THROTTLE_SLACK_MILLIS * NANOS_PER_MILLI) as nat
    }

    /// Whether the sandbox ended the command because its time was up: it
    /// ended with [`TIMEOUT_EXIT_CODE`], and as far as its running time is known
    /// it reached the timeout, give or take the precision.
    pub open spec fn timed_out(self) -> bool {
        &&& self.status matches Some(status)
        &&& status.spec_code() == Some(TIMEOUT_EXIT_CODE)
        &&& (self.completion_duration matches Some(d) ==> d >= (EXEC_TIMEOUT_SECS
            - EXEC_TIMEOUT_PRECISION_SECS) * NANOS_PER_SEC)
    }

    /// The status after the command has ended with `status` at `now`.
    pub open spec fn set_status(self, status: ExitStatus, now: nat) -> Self {
        StatusModel {
            status: Some(status),
            completion_duration: elapsed(self.started_at, now),
            changed: self.changed || self.status != Some(status),
            ..self
        }
    }

    /// The status after an update has been sent at `now`.
    pub open spec fn pushed(self, now: nat) -> Self {
        StatusModel {
            changed: false,
            changed_at: now,
            updated_count: counted_up(self.updated_count),
            ..self
        }
    }

    /// The status after a call for an update at `now`, and the text to send:
    /// none where nothing has changed.
    pub open spec fn update(self, now: nat) -> (Self, Option<Seq<char>>) {
        if self.changed {
            (self.pushed(now), Some(self.render()))
        } else {
            (self, None)
        }
    }

    /// The status after a call for a throttled update at `now`, and the text
    /// to send: none where too little time has passed since the last update,
    /// where `now` lies before it, or where nothing has changed.
    pub open spec fn update_throttled(self, now: nat) -> (Self, Option<Seq<char>>) {
        match elapsed(self.changed_at, now) {
            Some(passed) => if passed < self.throttle_nanos() {
                (self, None)
            } else {
                self.update(now)
            },
            None => (self, None),
        }
    }

    /// The status after the lines of `lines` have come in, one by one.
    pub open spec fn append_lines(self, lines: Seq<Seq<u8>>) -> Self
        decreases lines.len(),
    {
        if lines.len() == 0 {
            self
        } else {
            self.append_lines(lines.drop_last()).append_line(lines.last())
        }
    }
}

/// All of the output after the lines of `lines` have come in on top of
/// `before`, had nothing been dropped: a separator goes before each line that
/// does not come first.
pub open spec fn all_output(before: Seq<u8>, lines: Seq<Seq<u8>>) -> Seq<u8>
    decreases lines.len(),
{
    if lines.len() == 0 {
        before
    } else {
        let so_far = all_output(before, lines.drop_last());
        if so_far.len() > 0 {
            so_far + seq![LINE_SEPARATOR] + lines.last()
        } else {
            lines.last()
        }
    }
}

/// The tail of a text that grows is the tail of its own tail grown as much.
pub proof fn lemma_tail_of_grown_tail(kept: Seq<u8>, more: Seq<u8>, limit: nat)
    ensures
        tail(tail(kept, limit) + more, limit) == tail(kept + more, limit),
{
    assert(tail(tail(kept, limit) + more, limit) =~= tail(kept + more, limit));
}

/// However many lines come in, the output never holds more than
/// [`OUTPUT_TRUNCATE`] bytes, and it holds the end of all that was written: of
/// a status whose output is the tail of `before`, the output after `lines` is
/// the tail of `before` with the lines appended.
pub proof fn lemma_output_is_tail<H>(status: StatusModel<H>, before: Seq<u8>, lines: Seq<Seq<u8>>)
    requires
        status.output == tail(before, OUTPUT_TRUNCATE as nat),
    ensures
        status.append_lines(lines).output == tail(
            all_output(before, lines),
            OUTPUT_TRUNCATE as nat,
        ),
        status.append_lines(lines).output.len() <= OUTPUT_TRUNCATE,
        all_output(before, lines).len() >= OUTPUT_TRUNCATE ==> status.append_lines(
            lines,
        ).truncating(),
    decreases lines.len(),
{
    let limit = OUTPUT_TRUNCATE as nat;
    if lines.len() > 0 {
        let earlier = status.append_lines(lines.drop_last());
        let so_far = all_output(before, lines.drop_last());
        lemma_output_is_tail(status, before, lines.drop_last());
        if earlier.output.len() > 0 {
            lemma_tail_of_grown_tail(so_far, seq![LINE_SEPARATOR], limit);
            lemma_tail_of_grown_tail(so_far + seq![LINE_SEPARATOR], lines.last(), limit);
        } else {
            assert(so_far.len() == 0);
            assert(so_far + lines.last() =~= lines.last());
        }
    }
}

/// The output of a status that started empty is the tail of the lines that
/// have come in, joined by separators.
pub proof fn lemma_fresh_output_is_tail<H>(status_msg: H, now: nat, lines: Seq<Seq<u8>>)
    ensures
        StatusModel::fresh(status_msg, now).append_lines(lines).output == tail(
            all_output(Seq::empty(), lines),
            OUTPUT_TRUNCATE as nat,
        ),
        StatusModel::fresh(status_msg, now).append_lines(lines).output.len() <= OUTPUT_TRUNCATE,
{
    lemma_output_is_tail(StatusModel::fresh(status_msg, now), Seq::empty(), lines);
}

/// The throttle delay never falls as updates are sent: it is 1 second before
/// the second update, 3 before the fifth, 5 before the eighth, and 10 from
/// then on.
pub proof fn lemma_throttle_grows(fewer: int, more: int)
    requires
        fewer <= more,
    ensures
        throttle_secs_for(fewer) <= throttle_secs_for(more),
        fewer < 2 ==> throttle_secs_for(fewer) == 1,
        2 <= fewer < 5 ==> throttle_secs_for(fewer) == 3,
        5 <= fewer < 8 ==> throttle_secs_for(fewer) == 5,
        8 <= fewer ==> throttle_secs_for(fewer) == 10,
{
}

/// To set the exit status that is set already marks nothing as changed; to
/// set another, or the first, does.
pub proof fn lemma_set_status_marks_change<H>(status: StatusModel<H>, exit: ExitStatus, now: nat)
    ensures
        status.status == Some(exit) ==> status.set_status(exit, now).changed == status.changed,
        status.status != Some(exit) ==> status.set_status(exit, now).changed,
        status.set_status(exit, now).pushed(now).set_status(exit, now).changed == false,
{
}

/// What has changed stays marked until an update goes out: output and exit
/// status only ever mark a change, and output keeps the exit status as the
/// exit status keeps the output.
pub proof fn lemma_change_stays_marked<H>(
    status: StatusModel<H>,
    bytes: Seq<u8>,
    exit: ExitStatus,
    now: nat,
)
    ensures
        status.changed ==> status.append(bytes).changed && status.append_line(bytes).changed
            && status.set_status(exit, now).changed,
        bytes.len() > 0 ==> status.append(bytes).changed && status.append_line(bytes).changed,
        status.append(bytes).status == status.status,
        status.append_line(bytes).status == status.status,
        status.set_status(exit, now).output == status.output,
        status.append(bytes).updated_count == status.updated_count,
        status.append_line(bytes).updated_count == status.updated_count,
        status.set_status(exit, now).updated_count == status.updated_count,
{
}

/// A throttled update goes out only when the throttle delay, less the
/// slack, has passed since the last update, and then it is the update that
/// would go out unthrottled.
pub proof fn lemma_throttled_update_waits<H>(status: StatusModel<H>, now: nat)
    ensures
        status.update_throttled(now).1 is Some ==> now >= status.changed_at
            + status.throttle_nanos() && status.changed,
        now >= status.changed_at + status.throttle_nanos() ==> status.update_throttled(now)
            == status.update(now),
        now < status.changed_at + status.throttle_nanos() ==> status.update_throttled(now) == (
            status,
            None::<Seq<char>>,
        ),
        status.throttle_nanos() == throttle_secs_for(status.updated_count as int + 1) * NANOS_PER_SEC
            - THROTTLE_SLACK_MILLIS * NANOS_PER_MILLI,
{
}

/// An update counts once and leaves nothing to tell; the count never falls.
pub proof fn lemma_update_counts<H>(status: StatusModel<H>, now: nat)
    ensures
        status.update(now).0.updated_count >= status.updated_count,
        status.update(now).0.changed == false,
        status.update(now).1 is Some <==> status.changed,
        status.changed && status.updated_count < u64::MAX ==> status.update(now).0.updated_count
            == status.updated_count + 1,
        !status.changed ==> status.update(now).0 == status,
{
}

/// The status of a command that runs in the sandbox.
pub struct ExecStatus<H> {
    output: Vec<u8>,
    status: Option<ExitStatus>,
    started_at: Timestamp,
    completion_duration: Option<Duration>,
    changed: bool,
    changed_at: Timestamp,
    updated_count: u64,
    status_msg: H,
}

impl<H> View for ExecStatus<H> {
    type V = StatusModel<H>;

    closed spec fn view(&self) -> StatusModel<H> {
        StatusModel {
            output: self.output@,
            status: self.status,
            started_at: self.started_at@,
            completion_duration: match self.completion_duration {
                Some(d) => Some(d@),
                None => None,
            },
            changed: self.changed,
            changed_at: self.changed_at@,
            updated_count: self.updated_count as nat,
            status_msg: self.status_msg,
        }
    }
}

impl<H> ExecStatus<H> {
    #[verifier::type_invariant]
    spec fn output_fits(self) -> bool {
        self.output@.len() <= OUTPUT_TRUNCATE
    }

    /// The status of a command that starts at `now` and shows in
    /// `status_msg`: no output, not ended, nothing to tell the chat.
    pub fn new_at(status_msg: H, now: Timestamp) -> (status: Self)
        ensures
            status@ == StatusModel::fresh(status_msg, now@),
    {
        ExecStatus {
            output: Vec::new(),
            status: None,
            started_at: now,
            completion_duration: None,
            changed: false,
            changed_at: now,
            updated_count: 0,
            status_msg,
        }
    }

    /// The status of a command that starts now and shows in `status_msg`.
    pub fn new(status_msg: H) -> (status: Self)
        ensures
            exists|now: nat| status@ == #[trigger] StatusModel::fresh(status_msg, now),
    {
        let now = system_now();
        Self::new_at(status_msg, now)
    }

    /// Appends `output` to the output so far. Of output that has grown over
    /// [`OUTPUT_TRUNCATE`] bytes only the last [`OUTPUT_TRUNCATE`] bytes stay.
    pub fn append(&mut self, output: &str)
        ensures
            final(self)@ == old(self)@.append(output.spec_bytes()),
    {
        proof {
            use_type_invariant(&*self);
        }
        let mut buffer: Vec<u8> = Vec::new();
        core::mem::swap(&mut self.output, &mut buffer);
        buffer.extend_from_slice(output.as_bytes());
        assert(buffer@ =~= old(self)@.output + output.spec_bytes());
        if buffer.len() >= OUTPUT_TRUNCATE {
            let truncate_at = buffer.len() - OUTPUT_TRUNCATE;
            buffer = buffer.split_off(truncate_at);
        }
        assert(buffer@ =~= tail(old(self)@.output + output.spec_bytes(), OUTPUT_TRUNCATE as nat));
        self.output = buffer;
        if output.len() > 0 {
            self.changed = true;
        }
    }

    /// Whether the output fills all the room there is, so that what came
    /// first may have gone.
    pub fn truncating(&self) -> (truncating: bool)
        ensures
            truncating == self@.truncating(),
    {
        self.output.len() >= OUTPUT_TRUNCATE
    }

    /// Appends `line` to the output as a line of its own.
    pub fn append_line(&mut self, line: &str)
        ensures
            final(self)@ == old(self)@.append_line(line.spec_bytes()),
    {
        if self.output.len() > 0 {
            proof {
                reveal_strlit("\n");
                vstd::string::is_ascii_spec_bytes("\n");
                assert("\n".spec_bytes() =~= seq![LINE_SEPARATOR]);
            }
            self.append("\n");
        }
        self.append(line);
    }

    /// Records that the command has ended with `status` at `now`.
    pub fn set_status_at(&mut self, status: ExitStatus, now: Timestamp)
        ensures
            final(self)@ == old(self)@.set_status(status, now@),
    {
        proof {
            use_type_invariant(&*self);
        }
        let same = match self.status {
            Some(before) => before == status,
            None => false,
        };
        if !same {
            self.changed = true;
        }
        self.status = Some(status);
        self.completion_duration = now.duration_since(&self.started_at);
    }

    /// Records that the command has ended with `status` now.
    pub fn set_status(&mut self, status: ExitStatus)
        ensures
            exists|now: nat| final(self)@ == #[trigger] old(self)@.set_status(status, now),
    {
        let now = system_now();
        self.set_status_at(status, now);
    }

    /// Whether the command has ended, well or not.
    pub fn completed(&self) -> (completed: bool)
        ensures
            completed == self@.completed(),
    {
        self.status.is_some()
    }

    /// Whether updates `offset` updates from now are held back for more
    /// than a second.
    pub fn throttling(&self, offset: i64) -> (throttling: bool)
        ensures
            throttling == self@.throttling(offset as int),
    {
        self.throttle_secs(offset) > 1
    }

    /// The seconds to wait before an update, `offset` updates from now. The
    /// wait grows with the number of updates, to stay within the rate that
    /// the chat accepts.
    pub fn throttle_secs(&self, offset: i64) -> (secs: u64)
        ensures
            secs == self@.throttle_secs(offset as int),
    {
        let count: i128 = self.updated_count as i128 + offset as i128;
        if count < 2 {
            1
        } else if count < 5 {
            3
        } else if count < 8 {
            5
        } else {
            10
        }
    }

    /// The time that has to pass after an update before a throttled update
    /// goes out.
    pub fn throttle_duration(&self) -> (wait: Duration)
        ensures
            wait@ == self@.throttle_nanos(),
    {
        Duration::from_millis(self.throttle_secs(1) * 1000 - THROTTLE_SLACK_MILLIS)
    }

    /// Whether the sandbox ended the command because its time was up.
    pub fn timed_out(&self) -> (timed_out: bool)
        ensures
            timed_out == self@.timed_out(),
    {
        match self.status {
            Some(status) => {
                if status.code() != Some(TIMEOUT_EXIT_CODE) {
                    return false;
                }
            },
            None => {
                return false;
            },
        }
        match self.completion_duration {
            Some(duration) => {
                let least = Duration::from_secs(EXEC_TIMEOUT_SECS - EXEC_TIMEOUT_PRECISION_SECS);
                !duration.is_shorter_than(&least)
            },
            None => true,
        }
    }

    /// Counts an update that goes out at `now`, and gives the text to send.
    pub fn update_status_msg_at(&mut self, now: Timestamp) -> (text: String)
        ensures
            text@ == old(self)@.render(),
            final(self)@ == old(self)@.pushed(now@),
    {
        proof {
            use_type_invariant(&*self);
        }
        let text = self.build_status_msg();
        self.changed = false;
        if self.updated_count < u64::MAX {
            self.updated_count += 1;
        }
        self.changed_at = now;
        text
    }

    /// Counts an update that goes out now, and gives the text to send.
    pub fn update_status_msg(&mut self) -> (text: String)
        ensures
            text@ == old(self)@.render(),
            exists|now: nat| final(self)@ == #[trigger] old(self)@.pushed(now),
    {
        let now = system_now();
        self.update_status_msg_at(now)
    }

    /// Gives the text to send at `now` if anything has changed since the
    /// last update, and counts the update.
    pub fn update_at(&mut self, now: Timestamp) -> (text: Option<String>)
        ensures
            (final(self)@, text_view(text)) == old(self)@.update(now@),
    {
        if !self.changed {
            return None;
        }
        Some(self.update_status_msg_at(now))
    }

    /// Gives the text to send now if anything has changed since the last
    /// update, and counts the update.
    pub fn update(&mut self) -> (text: Option<String>)
        ensures
            exists|now: nat| (final(self)@, text_view(text)) == #[trigger] old(self)@.update(now),
    {
        let now = system_now();
        self.update_at(now)
    }

    /// Gives the text to send at `now` if anything has changed since the
    /// last update and the throttle delay has passed since, and counts the
    /// update.
    pub fn update_throttled_at(&mut self, now: Timestamp) -> (text: Option<String>)
        ensures
            (final(self)@, text_view(text)) == old(self)@.update_throttled(now@),
    {
        match now.duration_since(&self.changed_at) {
            Some(passed) => {
                if passed.is_shorter_than(&self.throttle_duration()) {
                    return None;
                }
            },
            None => {
                return None;
            },
        }
        self.update_at(now)
    }

    /// Gives the text to send now if anything has changed since the last
    /// update and the throttle delay has passed since, and counts the update.
    pub fn update_throttled(&mut self) -> (text: Option<String>)
        ensures
            exists|now: nat|
                (final(self)@, text_view(text)) == #[trigger] old(self)@.update_throttled(now),
    {
        let now = system_now();
        self.update_throttled_at(now)
    }

    /// The output that is kept.
    pub fn output(&self) -> (output: &[u8])
        ensures
            output@ == self@.output,
            output@.len() <= OUTPUT_TRUNCATE,
    {
        proof {
            use_type_invariant(self);
        }
        self.output.as_slice()
    }

    /// How the command ended, once it has.
    pub fn status(&self) -> (status: Option<ExitStatus>)
        ensures
            status == self@.status,
    {
        self.status
    }

    /// How long the command ran, where that is known.
    pub fn completion_duration(&self) -> (duration: Option<Duration>)
        ensures
            duration is Some <==> self@.completion_duration is Some,
            duration matches Some(d) ==> self@.completion_duration == Some(d@),
    {
        self.completion_duration
    }

    /// Whether output or exit status have changed since the last update.
    pub fn changed(&self) -> (changed: bool)
        ensures
            changed == self@.changed,
    {
        self.changed
    }

    /// When the command started.
    pub fn started_at(&self) -> (at: Timestamp)
        ensures
            at@ == self@.started_at,
    {
        self.started_at
    }

    /// When the last update was sent; before the first, when the command
    /// started.
    pub fn changed_at(&self) -> (at: Timestamp)
        ensures
            at@ == self@.changed_at,
    {
        self.changed_at
    }

    /// The number of updates sent.
    pub fn updated_count(&self) -> (count: u64)
        ensures
            count == self@.updated_count,
    {
        self.updated_count
    }

    /// The message in the chat that shows the status.
    pub fn status_msg(&self) -> (status_msg: &H)
        ensures
            *status_msg == self@.status_msg,
    {
        &self.status_msg
    }
}

} // verus!
