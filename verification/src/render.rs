//! The text that shows an execution status in the chat, as HTML.

use vstd::prelude::*;
use vstd::string::*;

use crate::status::{
    ExecStatus, StatusModel, EXEC_TIMEOUT_PRECISION_SECS, EXEC_TIMEOUT_SECS, TIMEOUT_EXIT_CODE,
};
use crate::text::{
    decimal, encode_minimal, escaped, from_utf8_lossy, i32_text, join, joined, last_word,
    last_word_of, lossy_text, push_decimal, signed_decimal, texts,
};
use crate::time::{format_duration, humantime_text, Duration, NANOS_PER_SEC};

verus! {

/// The output `shown` as a block of code, with the characters that HTML
/// reserves written as entities, and marked as cut if `truncated`.
pub open spec fn code_block(shown: Seq<char>, truncated: bool) -> Seq<char> {
    "<b>Output:</b>\n<code>"@ + (if truncated {
        "[truncated] "@
    } else {
        Seq::empty()
    }) + escaped(shown) + "</code>"@
}

/// The views of an optional text and of nothing.
pub open spec fn text_view(text: Option<String>) -> Option<Seq<char>> {
    match text {
        Some(text) => Some(text@),
        None => None,
    }
}

impl<H> StatusModel<H> {
    /// The running time in words, where it is known: whole seconds for a
    /// second or more, else only its smallest unit that is not zero.
    pub open spec fn took_text(self) -> Option<Seq<char>> {
        match self.completion_duration {
            Some(d) => Some(
                if d >= NANOS_PER_SEC {
                    humantime_text(((d / (NANOS_PER_SEC as nat)) * NANOS_PER_SEC) as nat)
                } else {
                    last_word(humantime_text(d))
                },
            ),
            None => None,
        }
    }

    /// The label that tells of throttling, while the command runs and the
    /// next update is held back for more than a second.
    pub open spec fn throttling_label(self) -> Seq<Seq<char>> {
        if !self.completed() && self.throttling(1) {
            seq!["throttling "@ + decimal(self.throttle_secs(1)) + "s"@]
        } else {
            Seq::empty()
        }
    }

    /// The label of a command that the sandbox ended for its running time.
    pub open spec fn timed_out_label(self) -> Seq<Seq<char>> {
        if self.timed_out() {
            seq!["timed out"@]
        } else {
            Seq::empty()
        }
    }

    /// The label that tells how long the command ran, once it has ended and
    /// where that is known.
    pub open spec fn took_label(self) -> Seq<Seq<char>> {
        if self.completed() && self.completion_duration is Some {
            seq!["took "@ + self.took_text()->0]
        } else {
            Seq::empty()
        }
    }

    /// The label of output that fills all the room there is.
    pub open spec fn truncating_label(self) -> Seq<Seq<char>> {
        if self.truncating() {
            if self.completed() {
                seq!["truncated"@]
            } else {
                seq!["truncating"@]
            }
        } else {
            Seq::empty()
        }
    }

    /// The labels that follow the emoji, in order.
    pub open spec fn labels(self) -> Seq<Seq<char>> {
        self.throttling_label() + self.timed_out_label() + self.took_label()
            + self.truncating_label()
    }

    /// The emoji for the state: running, ended well, or failed.
    pub open spec fn emoji(self) -> Seq<char> {
        match self.status {
            None => "\u{23f3}"@,
            Some(status) => if status.spec_success() {
                "\u{2705}"@
            } else {
                "\u{274c}"@
            },
        }
    }

    /// The exit code of a command that failed, `?` where it has none.
    pub open spec fn exit_notice(self) -> Seq<char> {
        match self.status {
            Some(status) => if status.spec_success() {
                Seq::empty()
            } else {
                " Exit code <code>"@ + (match status.spec_code() {
                    Some(code) => signed_decimal(code as int),
                    None => "?"@,
                }) + "</code>"@
            },
            None => Seq::empty(),
        }
    }

    /// What follows the emoji: the exit code of a command that failed, then
    /// the labels in round brackets, if there are any.
    pub open spec fn notice(self) -> Seq<char> {
        if self.labels().len() > 0 {
            self.exit_notice() + " ("@ + joined(self.labels(), ", "@) + ")"@
        } else {
            self.exit_notice()
        }
    }

    /// The output as a block of code, marked where it fills all the room
    /// there is; a note where there is no output.
    pub open spec fn output_block(self) -> Seq<char> {
        if self.output.len() == 0 {
            "<i>No output</i>"@
        } else {
            code_block(lossy_text(self.output), self.truncating())
        }
    }

    /// The text that shows the status in the chat.
    pub open spec fn render(self) -> Seq<char> {
        if !self.completed() && self.output.len() == 0 {
            "<i>Executing command...</i>"@
        } else {
            self.output_block() + "\n\n"@ + self.emoji() + "  "@ + self.notice()
        }
    }
}

/// While the command runs and has written nothing, the text is the fixed
/// one; so it is for a status that has just been made.
pub proof fn lemma_render_before_output<H>(status: StatusModel<H>)
    requires
        !status.completed(),
        status.output.len() == 0,
    ensures
        status.render() == "<i>Executing command...</i>"@,
        StatusModel::fresh(status.status_msg, status.started_at).render()
            == "<i>Executing command...</i>"@,
{
}

/// The label `timed out` stands among the labels if and only if the command
/// ended with [`TIMEOUT_EXIT_CODE`] and its running time is unknown or at
/// least the timeout less the precision.
pub proof fn lemma_timed_out_label<H>(status: StatusModel<H>)
    ensures
        status.labels().contains("timed out"@) <==> status.timed_out(),
        status.timed_out() <==> (status.status matches Some(exit) && exit.spec_code() == Some(
            TIMEOUT_EXIT_CODE,
        ) && (status.completion_duration is None || status.completion_duration->0
            >= (EXEC_TIMEOUT_SECS - EXEC_TIMEOUT_PRECISION_SECS) * NANOS_PER_SEC)),
{
    reveal_strlit("timed out");
    reveal_strlit("throttling ");
    reveal_strlit("took ");
    reveal_strlit("truncated");
    reveal_strlit("truncating");
    let wanted = "timed out"@;
    let throttling = status.throttling_label();
    let timed_out = status.timed_out_label();
    let took = status.took_label();
    let truncating = status.truncating_label();
    assert forall|i: int| 0 <= i < throttling.len() implies throttling[i] != wanted by {
        assert(throttling[i][1] == 'h');
    }
    assert forall|i: int| 0 <= i < took.len() implies took[i] != wanted by {
        assert(took[i][1] == 'o');
    }
    assert forall|i: int| 0 <= i < truncating.len() implies truncating[i] != wanted by {
        assert(truncating[i][1] == 'r');
    }
    if status.timed_out() {
        assert(status.labels()[throttling.len() as int] == wanted);
    }
}

/// Output that fills all the room there is shows as cut: once the command
/// has ended the label `truncated` stands among the labels, and the block of
/// output starts with the mark before what is kept.
pub proof fn lemma_full_output_is_marked<H>(status: StatusModel<H>)
    requires
        status.truncating(),
    ensures
        status.completed() ==> status.labels().contains("truncated"@),
        !status.completed() ==> status.labels().contains("truncating"@),
        status.output_block() == "<b>Output:</b>\n<code>"@ + "[truncated] "@ + escaped(
            lossy_text(status.output),
        ) + "</code>"@,
        status.render() == status.output_block() + "\n\n"@ + status.emoji() + "  "@
            + status.notice(),
{
    let before = status.throttling_label() + status.timed_out_label() + status.took_label();
    assert(status.labels()[before.len() as int] == status.truncating_label()[0]);
}

/// Output that leaves room shows whole and unmarked, and neither label of
/// truncation stands among the labels.
pub proof fn lemma_short_output_is_unmarked<H>(status: StatusModel<H>)
    requires
        !status.truncating(),
    ensures
        !status.labels().contains("truncated"@),
        !status.labels().contains("truncating"@),
        status.output.len() > 0 ==> status.output_block() == "<b>Output:</b>\n<code>"@ + escaped(
            lossy_text(status.output),
        ) + "</code>"@,
{
    reveal_strlit("timed out");
    reveal_strlit("throttling ");
    reveal_strlit("took ");
    reveal_strlit("truncated");
    reveal_strlit("truncating");
    let throttling = status.throttling_label();
    let timed_out = status.timed_out_label();
    let took = status.took_label();
    assert(status.output_block() =~= if status.output.len() > 0 {
        "<b>Output:</b>\n<code>"@ + escaped(lossy_text(status.output)) + "</code>"@
    } else {
        status.output_block()
    });
    assert forall|i: int| 0 <= i < throttling.len() implies throttling[i][1] == 'h' by {}
    assert forall|i: int| 0 <= i < timed_out.len() implies timed_out[i][1] == 'i' by {}
    assert forall|i: int| 0 <= i < took.len() implies took[i][1] == 'o' by {}
    assert forall|i: int| 0 <= i < status.labels().len() implies status.labels()[i][1]
        != 'r' by {
        if i < throttling.len() {
            assert(status.labels()[i] == throttling[i]);
        } else if i < throttling.len() + timed_out.len() {
            assert(status.labels()[i] == timed_out[i - throttling.len()]);
        } else {
            assert(status.labels()[i] == took[i - throttling.len() - timed_out.len()]);
        }
    }
}

/// A command that has ended well, with a known running time and output that
/// leaves room, shows the emoji of success and the one label that tells how
/// long it took.
pub proof fn lemma_plain_success<H>(status: StatusModel<H>)
    requires
        status.status matches Some(exit) && exit.spec_success(),
        status.completion_duration is Some,
        !status.truncating(),
    ensures
        status.emoji() == "\u{2705}"@,
        status.labels() == seq!["took "@ + status.took_text()->0],
        status.notice() == " ("@ + ("took "@ + status.took_text()->0) + ")"@,
        !status.timed_out(),
{
    assert(status.labels() =~= seq!["took "@ + status.took_text()->0]);
}

/// The output `shown` as a block of code, marked as cut if `truncated`.
pub fn format_output(shown: &str, truncated: bool) -> (block: String)
    ensures
        block@ == code_block(shown@, truncated),
{
    let mut block = String::from_str("<b>Output:</b>\n<code>");
    if truncated {
        block.append("[truncated] ");
    }
    let encoded = encode_minimal(shown);
    block.append(encoded.as_str());
    block.append("</code>");
    block
}

/// The text that shows a command that runs and has written nothing.
pub fn executing() -> (text: &'static str)
    ensures
        text@ == "<i>Executing command...</i>"@,
{
    "<i>Executing command...</i>"
}

impl<H> ExecStatus<H> {
    /// The running time in words, where it is known: whole seconds for a
    /// second or more, else only its smallest unit that is not zero.
    pub fn format_duration(&self) -> (text: Option<String>)
        ensures
            text_view(text) == self@.took_text(),
    {
        match self.completion_duration() {
            Some(duration) => {
                let secs = duration.as_secs();
                if secs >= 1 {
                    Some(format_duration(&Duration::from_secs(secs)))
                } else {
                    let all = format_duration(&duration);
                    Some(last_word_of(all.as_str()))
                }
            },
            None => None,
        }
    }

    /// The labels that follow the emoji, in order: throttling, timed out,
    /// running time, truncation, each where it applies.
    pub fn status_labels(&self) -> (labels: Vec<String>)
        ensures
            texts(labels@) == self@.labels(),
    {
        let completed = self.completed();
        let mut labels: Vec<String> = Vec::new();
        assert(texts(labels@) =~= Seq::<Seq<char>>::empty());
        if !completed && self.throttling(1) {
            let mut label = String::from_str("throttling ");
            push_decimal(&mut label, self.throttle_secs(1));
            label.append("s");
            labels.push(label);
        }
        assert(texts(labels@) =~= self@.throttling_label());
        if self.timed_out() {
            labels.push(String::from_str("timed out"));
        }
        assert(texts(labels@) =~= self@.throttling_label() + self@.timed_out_label());
        if completed {
            match self.format_duration() {
                Some(took) => {
                    let mut label = String::from_str("took ");
                    label.append(took.as_str());
                    labels.push(label);
                },
                None => {},
            }
        }
        assert(texts(labels@) =~= self@.throttling_label() + self@.timed_out_label()
            + self@.took_label());
        if self.truncating() {
            if completed {
                labels.push(String::from_str("truncated"));
            } else {
                labels.push(String::from_str("truncating"));
            }
        }
        assert(texts(labels@) =~= self@.labels());
        labels
    }

    /// What follows the emoji: the exit code of a command that failed, then
    /// the labels in round brackets, if there are any.
    pub fn status_notice(&self) -> (notice: String)
        ensures
            notice@ == self@.notice(),
    {
        let mut notice = String::new();
        match self.status() {
            Some(status) => {
                if !status.success() {
                    notice.append(" Exit code <code>");
                    match status.code() {
                        Some(code) => {
                            let code = i32_text(code);
                            notice.append(code.as_str());
                        },
                        None => {
                            notice.append("?");
                        },
                    }
                    notice.append("</code>");
                }
            },
            None => {},
        }
        assert(notice@ =~= self@.exit_notice());
        let labels = self.status_labels();
        if labels.len() > 0 {
            let list = join(&labels, ", ");
            notice.append(" (");
            notice.append(list.as_str());
            notice.append(")");
        }
        assert(notice@ =~= self@.notice());
        notice
    }

    /// The text that shows the status in the chat, as HTML: a fixed text
    /// while the command runs and has written nothing; else the output,
    /// then an emoji for the state, the exit code of a command that failed,
    /// and the labels.
    pub fn build_status_msg(&self) -> (text: String)
        ensures
            text@ == self@.render(),
    {
        let output = self.output();
        if !self.completed() && output.len() == 0 {
            return String::from_str(executing());
        }
        let mut text = if output.len() == 0 {
            String::from_str("<i>No output</i>")
        } else {
            let shown = from_utf8_lossy(output);
            format_output(shown.as_str(), self.truncating())
        };
        text.append("\n\n");
        match self.status() {
            None => {
                text.append("\u{23f3}");
            },
            Some(status) => {
                if status.success() {
                    text.append("\u{2705}");
                } else {
                    text.append("\u{274c}");
                }
            },
        }
        text.append("  ");
        let notice = self.status_notice();
        text.append(notice.as_str());
        assert(text@ =~= self@.render());
        text
    }
}

} // verus!
