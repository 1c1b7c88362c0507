use vstd::prelude::*;

use crate::monitor::is_error_with;
use crate::types::{CodexMessage, MessageType, TokenUsageInfo};

verus! {

/// The level of a notification sent to the caller.
#[derive(Debug, Clone, Copy, PartialEq, Eq, Structural)]
pub enum LoggingLevel {
    Debug,
    Info,
    Error,
}

/// What a notification carries.
#[derive(Debug)]
pub enum Payload {
    Text(String),
    Usage(Option<TokenUsageInfo>),
}

/// A side-channel report for the caller: reasoning, token usage or an error.
#[derive(Debug)]
pub struct Notification {
    pub level: LoggingLevel,
    pub logger: Option<String>,
    pub payload: Payload,
}

/// What the router does with one message.
#[derive(Debug)]
pub enum RouteAction {
    /// The final answer: stop and return this text.
    Answer(String),
    /// Forward this notification and go on.
    Notify(Notification),
    /// Nothing to do; go on.
    Skip,
}

pub enum PayloadView {
    Text(Seq<char>),
    Usage(Option<TokenUsageInfo>),
}

pub struct NotificationView {
    pub level: LoggingLevel,
    pub logger: Option<Seq<char>>,
    pub payload: PayloadView,
}

pub enum Step {
    Answer(Seq<char>),
    Notify(NotificationView),
    Skip,
}

impl View for Payload {
    type V = PayloadView;

    open spec fn view(&self) -> PayloadView {
        match self {
            Payload::Text(s) => PayloadView::Text(s@),
            Payload::Usage(u) => PayloadView::Usage(*u),
        }
    }
}

impl View for Notification {
    type V = NotificationView;

    open spec fn view(&self) -> NotificationView {
        NotificationView {
            level: self.level,
            logger: match self.logger {
                Some(l) => Some(l@),
                None => None,
            },
            payload: self.payload@,
        }
    }
}

impl View for RouteAction {
    type V = Step;

    open spec fn view(&self) -> Step {
        match self {
            RouteAction::Answer(s) => Step::Answer(s@),
            RouteAction::Notify(n) => Step::Notify(n@),
            RouteAction::Skip => Step::Skip,
        }
    }
}

/// The text of an optional field, empty where it is absent.
pub open spec fn text_or_empty(o: Option<String>) -> Seq<char> {
    match o {
        Some(s) => s@,
        None => Seq::empty(),
    }
}

/// How the router treats one message: an agent message is the answer, its
/// `message` field the text; reasoning goes out at info level under the
/// `codex.reasoning` logger; token counts at debug level; errors at error
/// level; everything else, and a message without content, is skipped.
pub open spec fn route_of(m: CodexMessage) -> Step {
    match m.msg {
        None => Step::Skip,
        Some(c) => match c.msg_type {
            MessageType::AgentMessage => Step::Answer(text_or_empty(c.message)),
            MessageType::AgentReasoning => Step::Notify(
                NotificationView {
                    level: LoggingLevel::Info,
                    logger: Some("codex.reasoning"@),
                    payload: PayloadView::Text(text_or_empty(c.text)),
                },
            ),
            MessageType::TokenCount => Step::Notify(
                NotificationView {
                    level: LoggingLevel::Debug,
                    logger: None,
                    payload: PayloadView::Usage(c.info),
                },
            ),
            MessageType::Error => Step::Notify(
                NotificationView {
                    level: LoggingLevel::Error,
                    logger: None,
                    payload: PayloadView::Text(text_or_empty(c.message)),
                },
            ),
            _ => Step::Skip,
        },
    }
}

fn take_text(o: Option<String>) -> (r: String)
    ensures
        r@ == text_or_empty(o),
{
    match o {
        Some(s) => s,
        None => String::new(),
    }
}

/// The router's decision for one received message.
pub fn route_message(msg: CodexMessage) -> (r: RouteAction)
    ensures
        r@ == route_of(msg),
{
    match msg.msg {
        None => RouteAction::Skip,
        Some(c) => match c.msg_type {
            MessageType::AgentMessage => RouteAction::Answer(take_text(c.message)),
            MessageType::AgentReasoning => RouteAction::Notify(
                Notification {
                    level: LoggingLevel::Info,
                    logger: Some("codex.reasoning".to_owned()),
                    payload: Payload::Text(take_text(c.text)),
                },
            ),
            MessageType::TokenCount => RouteAction::Notify(
                Notification { level: LoggingLevel::Debug, logger: None, payload: Payload::Usage(c.info) },
            ),
            MessageType::Error => RouteAction::Notify(
                Notification {
                    level: LoggingLevel::Error,
                    logger: None,
                    payload: Payload::Text(take_text(c.message)),
                },
            ),
            _ => RouteAction::Skip,
        },
    }
}

/// The result of routing a whole run of the agent's output.
#[derive(Debug)]
pub struct RouterOutcome {
    pub answer: String,
    pub notifications: Vec<Notification>,
}

/// The views of a list of notifications, in order.
pub open spec fn views_of(ns: Seq<Notification>) -> Seq<NotificationView> {
    ns.map_values(|n: Notification| n@)
}

/// Routing a run of output lines, each decoded into a message or, where it
/// did not decode, `None`: lines that did not decode are dropped, and the
/// first agent message ends the run with its text. A run that ends without
/// one answers with empty text. The second part lists every notification
/// forwarded before the end, in order.
pub open spec fn run_of(lines: Seq<Option<CodexMessage>>) -> (Seq<char>, Seq<NotificationView>)
    decreases lines.len(),
{
    if lines.len() == 0 {
        (Seq::empty(), Seq::empty())
    } else {
        let rest = run_of(lines.drop_first());
        match lines[0] {
            None => rest,
            Some(m) => match route_of(m) {
                Step::Answer(t) => (t, Seq::empty()),
                Step::Notify(n) => (rest.0, seq![n] + rest.1),
                Step::Skip => rest,
            },
        }
    }
}

/// Routes a whole run of output lines, as the router does while it drains
/// the process's messages.
pub fn route_lines(lines: Vec<Option<CodexMessage>>) -> (r: RouterOutcome)
    ensures
        r.answer@ == run_of(lines@).0,
        views_of(r.notifications@) == run_of(lines@).1,
{
    let ghost all = lines@;
    let mut rest = lines;
    let mut notes: Vec<Notification> = Vec::new();
    while rest.len() > 0
        invariant
            all == lines@,
            run_of(all).0 == run_of(rest@).0,
            run_of(all).1 == views_of(notes@) + run_of(rest@).1,
        decreases rest@.len(),
    {
        let ghost before = rest@;
        let line = rest.remove(0);
        assert(rest@ =~= before.drop_first());
        match line {
            None => {},
            Some(m) => match route_message(m) {
                RouteAction::Answer(t) => {
                    assert(run_of(before).1 =~= Seq::<NotificationView>::empty());
                    assert(views_of(notes@) + Seq::<NotificationView>::empty() =~= views_of(
                        notes@,
                    ));
                    return RouterOutcome { answer: t, notifications: notes };
                },
                RouteAction::Notify(n) => {
                    let ghost old_notes = notes@;
                    notes.push(n);
                    assert(views_of(notes@) =~= views_of(old_notes) + seq![notes@.last()@]);
                    assert(views_of(notes@) + run_of(rest@).1 =~= views_of(old_notes) + run_of(
                        before,
                    ).1);
                },
                RouteAction::Skip => {},
            },
        }
    }
    assert(run_of(rest@).1 =~= Seq::<NotificationView>::empty());
    assert(views_of(notes@) + Seq::<NotificationView>::empty() =~= views_of(notes@));
    RouterOutcome { answer: String::new(), notifications: notes }
}

/// The line decoded as an agent message.
pub open spec fn is_answer_line(l: Option<CodexMessage>) -> bool {
    l matches Some(m) && route_of(m) is Answer
}

/// Every notification that the lines call for, one per line that is
/// forwarded, in order, whether or not the run would have ended earlier.
pub open spec fn notes_of(lines: Seq<Option<CodexMessage>>) -> Seq<NotificationView>
    decreases lines.len(),
{
    if lines.len() == 0 {
        Seq::empty()
    } else {
        let here = match lines[0] {
            Some(m) => match route_of(m) {
                Step::Notify(n) => seq![n],
                _ => Seq::empty(),
            },
            None => Seq::empty(),
        };
        here + notes_of(lines.drop_first())
    }
}

/// Where line `k` is the only agent message of a run, the run answers with
/// its text, and forwards exactly the notifications that the lines before
/// it call for, one each, in order.
pub proof fn lemma_single_answer(lines: Seq<Option<CodexMessage>>, k: int)
    requires
        0 <= k < lines.len(),
        is_answer_line(lines[k]),
        forall|j: int| 0 <= j < lines.len() && j != k ==> !is_answer_line(#[trigger] lines[j]),
    ensures
        route_of(lines[k]->Some_0) == Step::Answer(run_of(lines).0),
        run_of(lines).1 == notes_of(lines.take(k)),
    decreases k,
{
    if k == 0 {
        assert(lines.take(0) =~= Seq::<Option<CodexMessage>>::empty());
    } else {
        let rest = lines.drop_first();
        assert(!is_answer_line(lines[0]));
        assert forall|j: int| 0 <= j < rest.len() && j != k - 1 implies !is_answer_line(
            #[trigger] rest[j],
        ) by {
            assert(rest[j] == lines[j + 1]);
        }
        lemma_single_answer(rest, k - 1);
        assert(lines.take(k).drop_first() =~= rest.take(k - 1));
        assert(lines.take(k)[0] == lines[0]);
        if let Some(m) = lines[0] {
            if let Step::Notify(n) = route_of(m) {
                assert(run_of(lines).1 == seq![n] + run_of(rest).1);
            }
        }
        assert(run_of(lines).1 =~= notes_of(lines.take(k)));
    }
}

/// A line that did not decode changes nothing, wherever it stands: it is
/// never forwarded and never ends the run.
pub proof fn lemma_malformed_line_ignored(
    before: Seq<Option<CodexMessage>>,
    after: Seq<Option<CodexMessage>>,
)
    ensures
        run_of(before + seq![None] + after) == run_of(before + after),
    decreases before.len(),
{
    let with = before + seq![None] + after;
    let without = before + after;
    if before.len() == 0 {
        assert(with.drop_first() =~= after);
        assert(without =~= after);
    } else {
        lemma_malformed_line_ignored(before.drop_first(), after);
        assert(with.drop_first() =~= before.drop_first() + seq![None] + after);
        assert(without.drop_first() =~= before.drop_first() + after);
        assert(with[0] == before[0]);
        assert(without[0] == before[0]);
    }
}

/// A run in which no line is an agent message answers with empty text.
pub proof fn lemma_no_answer_is_empty(lines: Seq<Option<CodexMessage>>)
    requires
        forall|j: int| 0 <= j < lines.len() ==> !is_answer_line(#[trigger] lines[j]),
    ensures
        run_of(lines).0 == Seq::<char>::empty(),
    decreases lines.len(),
{
    if lines.len() > 0 {
        let rest = lines.drop_first();
        assert(!is_answer_line(lines[0]));
        assert forall|j: int| 0 <= j < rest.len() implies !is_answer_line(#[trigger] rest[j]) by {
            assert(rest[j] == lines[j + 1]);
        }
        lemma_no_answer_is_empty(rest);
    }
}

/// An error message, such as the one published when the process exits
/// badly, is forwarded as one error-level notification carrying its text.
pub proof fn lemma_error_forwarded(m: CodexMessage, t: Seq<char>)
    requires
        is_error_with(m, t),
    ensures
        route_of(m) == Step::Notify(
            NotificationView { level: LoggingLevel::Error, logger: None, payload: PayloadView::Text(t) },
        ),
{
}

} // verus!
