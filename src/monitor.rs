use vstd::prelude::*;
use vstd::string::StringExecFns;

use crate::types::{CodexMessage, MessageContent, MessageType};

verus! {

/// What one look at the running process found.
#[derive(Debug)]
pub enum PollOutcome {
    /// The process has ended; `status` describes how.
    Exited { success: bool, status: String },
    /// The process is still running.
    Running,
    /// The look itself failed.
    Failed { error: String },
}

/// What the exit watcher does after one look.
#[derive(Debug)]
pub enum MonitorAction {
    /// Sleep a short while, then look again.
    Wait,
    /// Publish the message, then look again.
    Report(CodexMessage),
    /// Stop watching, publishing the message if there is one.
    Finish(Option<CodexMessage>),
}

/// The description published when the process ends badly.
pub open spec fn exit_text(status: Seq<char>) -> Seq<char> {
    "Codex process exited with status: "@ + status
}

/// `m` is an error message whose message and text both hold `t`.
pub open spec fn is_error_with(m: CodexMessage, t: Seq<char>) -> bool {
    &&& m.msg matches Some(c)
    &&& c.msg_type == MessageType::Error
    &&& c.message matches Some(s) && s@ == t
    &&& c.text matches Some(s) && s@ == t
}

/// A message fabricated to report a process-level failure.
pub fn error_message(description: String) -> (r: CodexMessage)
    ensures
        is_error_with(r, description@),
{
    let content = MessageContent {
        msg_type: MessageType::Error,
        message: Some(description.clone()),
        text: Some(description),
        info: None,
        model_context_window: None,
    };
    let mut m = CodexMessage::default();
    m.msg = Some(content);
    m
}

/// The watcher's decision after one look, in terms of the texts published.
pub enum WatchStep {
    Wait,
    Report(Seq<char>),
    Finish(Option<Seq<char>>),
}

/// Wait while the process runs, report a failed look and go on, and stop
/// at the first exit, reporting it only when the exit was not a success.
pub open spec fn step_of(p: PollOutcome) -> WatchStep {
    match p {
        PollOutcome::Running => WatchStep::Wait,
        PollOutcome::Failed { error } => WatchStep::Report(error@),
        PollOutcome::Exited { success, status } => if success {
            WatchStep::Finish(None)
        } else {
            WatchStep::Finish(Some(exit_text(status@)))
        },
    }
}

/// `a` is the action that carries out `s`, each published message being an
/// error message with the step's text.
pub open spec fn carries_out(a: MonitorAction, s: WatchStep) -> bool {
    match (a, s) {
        (MonitorAction::Wait, WatchStep::Wait) => true,
        (MonitorAction::Report(m), WatchStep::Report(t)) => is_error_with(m, t),
        (MonitorAction::Finish(None), WatchStep::Finish(None)) => true,
        (MonitorAction::Finish(Some(m)), WatchStep::Finish(Some(t))) => is_error_with(m, t),
        _ => false,
    }
}

/// The steps the watcher takes over a run of looks: up to and including the
/// first exit, after which it looks no more.
pub open spec fn watch_of(polls: Seq<PollOutcome>) -> Seq<WatchStep>
    decreases polls.len(),
{
    if polls.len() == 0 {
        Seq::empty()
    } else if polls[0] is Exited {
        seq![step_of(polls[0])]
    } else {
        seq![step_of(polls[0])] + watch_of(polls.drop_first())
    }
}

/// The exit watcher's decision for one look at the process.
pub fn monitor_step(poll: PollOutcome) -> (r: MonitorAction)
    ensures
        carries_out(r, step_of(poll)),
{
    match poll {
        PollOutcome::Running => MonitorAction::Wait,
        PollOutcome::Failed { error } => MonitorAction::Report(error_message(error)),
        PollOutcome::Exited { success, status } => {
            if success {
                MonitorAction::Finish(None)
            } else {
                let mut text = "Codex process exited with status: ".to_owned();
                text.append(status.as_str());
                MonitorAction::Finish(Some(error_message(text)))
            }
        },
    }
}

/// Adds one line read from the process's error stream to the buffer that is
/// logged once the stream closes.
pub fn collect_stderr_line(buffer: &mut String, line: &str)
    ensures
        final(buffer)@ == old(buffer)@ + line@ + "\n"@,
{
    buffer.append(line);
    buffer.append("\n");
}

/// When the process ends badly (as it does when it is killed on timeout)
/// and no earlier look saw it end, the watcher publishes exactly one exit
/// report: it goes on through every earlier look without stopping, and its
/// last step reports the exit status.
pub proof fn lemma_failed_exit_reported_once(polls: Seq<PollOutcome>, k: int)
    requires
        0 <= k < polls.len(),
        polls[k] matches PollOutcome::Exited { success, .. } && !success,
        forall|j: int| 0 <= j < k ==> !(polls[j] is Exited),
    ensures
        watch_of(polls).len() == k + 1,
        forall|j: int| 0 <= j < k ==> !(#[trigger] watch_of(polls)[j] is Finish),
        watch_of(polls)[k] == (match polls[k] {
            PollOutcome::Exited { status, .. } => WatchStep::Finish(Some(exit_text(status@))),
            _ => WatchStep::Wait,
        }),
    decreases k,
{
    if k > 0 {
        let rest = polls.drop_first();
        assert(!(polls[0] is Exited));
        assert forall|j: int| 0 <= j < k - 1 implies !(rest[j] is Exited) by {
            assert(rest[j] == polls[j + 1]);
        }
        lemma_failed_exit_reported_once(rest, k - 1);
        assert(watch_of(polls) == seq![step_of(polls[0])] + watch_of(rest));
        assert forall|j: int| 0 <= j < k implies !(#[trigger] watch_of(polls)[j] is Finish) by {
            if j > 0 {
                assert(watch_of(polls)[j] == watch_of(rest)[j - 1]);
            }
        }
    }
}

} // verus!
