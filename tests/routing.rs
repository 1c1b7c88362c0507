use codex_bridge::monitor::{collect_stderr_line, error_message, monitor_step, MonitorAction, PollOutcome};
use codex_bridge::router::{route_lines, route_message, LoggingLevel, Payload, RouteAction};
use codex_bridge::types::{CodexMessage, MessageContent, MessageType, TokenUsage, TokenUsageInfo};

fn content(msg_type: MessageType, message: Option<&str>, text: Option<&str>) -> CodexMessage {
    CodexMessage {
        msg: Some(MessageContent {
            msg_type,
            message: message.map(|s| s.to_string()),
            text: text.map(|s| s.to_string()),
            ..Default::default()
        }),
        ..Default::default()
    }
}

#[test]
fn agent_message_then_close_returns_text() {
    let lines = vec![Some(content(MessageType::AgentMessage, Some("done"), None))];
    let out = route_lines(lines);
    assert_eq!(out.answer, "done");
    assert!(out.notifications.is_empty());
}

#[test]
fn error_then_agent_message() {
    let lines = vec![
        Some(content(MessageType::Error, Some("boom"), None)),
        Some(content(MessageType::AgentMessage, Some("ok"), None)),
    ];
    let out = route_lines(lines);
    assert_eq!(out.answer, "ok");
    assert_eq!(out.notifications.len(), 1);
    assert_eq!(out.notifications[0].level, LoggingLevel::Error);
    assert!(out.notifications[0].logger.is_none());
    assert!(matches!(&out.notifications[0].payload, Payload::Text(t) if t == "boom"));
}

#[test]
fn single_answer_after_each_kind_of_message() {
    let usage = TokenUsageInfo {
        total_token_usage: Some(TokenUsage {
            input_tokens: 3,
            cached_input_tokens: None,
            output_tokens: 4,
            reasoning_output_tokens: Some(1),
            total_tokens: 7,
        }),
        last_token_usage: None,
        model_context_window: Some(100),
    };
    let mut tokens = content(MessageType::TokenCount, None, None);
    tokens.msg.as_mut().unwrap().info = Some(usage);
    let lines = vec![
        Some(content(MessageType::TaskStarted, None, None)),
        Some(content(MessageType::AgentReasoning, None, Some("thinking"))),
        Some(tokens),
        Some(CodexMessage::default()),
        Some(content(MessageType::AgentReasoningSectionBreak, None, None)),
        Some(content(MessageType::Error, Some("warn"), None)),
        Some(content(MessageType::AgentMessage, Some("answer"), None)),
        Some(content(MessageType::Error, Some("late"), None)),
    ];
    let out = route_lines(lines);
    assert_eq!(out.answer, "answer");
    let levels: Vec<LoggingLevel> = out.notifications.iter().map(|n| n.level).collect();
    assert_eq!(levels, vec![LoggingLevel::Info, LoggingLevel::Debug, LoggingLevel::Error]);
    assert_eq!(out.notifications[0].logger.as_deref(), Some("codex.reasoning"));
    assert!(matches!(&out.notifications[0].payload, Payload::Text(t) if t == "thinking"));
    assert!(matches!(&out.notifications[1].payload, Payload::Usage(Some(u)) if *u == usage));
}

#[test]
fn malformed_lines_are_ignored() {
    let lines = vec![
        None,
        Some(content(MessageType::AgentReasoning, None, Some("r"))),
        None,
        None,
        Some(content(MessageType::AgentMessage, Some("fine"), None)),
        None,
    ];
    let out = route_lines(lines);
    assert_eq!(out.answer, "fine");
    assert_eq!(out.notifications.len(), 1);
    assert_eq!(out.notifications[0].level, LoggingLevel::Info);
}

#[test]
fn closing_without_answer_returns_empty() {
    let lines = vec![
        Some(content(MessageType::Error, Some("boom"), None)),
        None,
        Some(content(MessageType::TaskStarted, None, None)),
    ];
    let out = route_lines(lines);
    assert_eq!(out.answer, "");
    assert_eq!(out.notifications.len(), 1);
    assert_eq!(route_lines(Vec::new()).answer, "");
}

#[test]
fn agent_message_without_text_answers_empty() {
    match route_message(content(MessageType::AgentMessage, None, Some("ignored"))) {
        RouteAction::Answer(t) => assert_eq!(t, ""),
        other => panic!("unexpected {:?}", other),
    }
    assert!(matches!(route_message(CodexMessage::default()), RouteAction::Skip));
}

#[test]
fn killed_process_reports_exit_once() {
    let polls = vec![
        PollOutcome::Running,
        PollOutcome::Failed { error: "interrupted".to_string() },
        PollOutcome::Running,
        PollOutcome::Exited { success: false, status: "signal: 9 (SIGKILL)".to_string() },
    ];
    let mut published = Vec::new();
    let mut finished = false;
    for poll in polls {
        assert!(!finished);
        match monitor_step(poll) {
            MonitorAction::Wait => {}
            MonitorAction::Report(m) => published.push(m),
            MonitorAction::Finish(m) => {
                published.extend(m);
                finished = true;
            }
        }
    }
    assert!(finished);
    assert_eq!(published.len(), 2);
    let exit = published[1].msg.as_ref().unwrap();
    assert_eq!(exit.msg_type, MessageType::Error);
    assert_eq!(exit.text.as_deref(), Some("Codex process exited with status: signal: 9 (SIGKILL)"));
    let notes = route_lines(published.into_iter().map(Some).collect());
    assert_eq!(notes.answer, "");
    assert_eq!(notes.notifications.len(), 2);
    assert!(notes.notifications.iter().all(|n| n.level == LoggingLevel::Error));
    assert!(matches!(&notes.notifications[1].payload,
        Payload::Text(t) if t == "Codex process exited with status: signal: 9 (SIGKILL)"));
}

#[test]
fn clean_exit_publishes_nothing() {
    let action = monitor_step(PollOutcome::Exited { success: true, status: "exit status: 0".to_string() });
    assert!(matches!(action, MonitorAction::Finish(None)));
    assert!(matches!(monitor_step(PollOutcome::Running), MonitorAction::Wait));
}

#[test]
fn error_message_carries_description() {
    let m = error_message("broken pipe".to_string());
    let c = m.msg.unwrap();
    assert_eq!(c.msg_type, MessageType::Error);
    assert_eq!(c.message.as_deref(), Some("broken pipe"));
    assert_eq!(c.text.as_deref(), Some("broken pipe"));
}

#[test]
fn stderr_lines_are_collected() {
    let mut buffer = String::new();
    collect_stderr_line(&mut buffer, "first");
    collect_stderr_line(&mut buffer, "second");
    assert_eq!(buffer, "first\nsecond\n");
}
