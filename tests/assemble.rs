use codex_bridge::codex::CodexClient;
use codex_bridge::types::{
    CodexConfig, CodexPromptRequest, Context, ContextFile, Model, ReasoningEffort, SandboxMode,
};

fn scenario_request() -> CodexPromptRequest {
    CodexPromptRequest {
        prompt: "fix the bug".to_string(),
        context: Some(Context {
            files: Some(vec![ContextFile { path: "a.py".to_string(), content: None }]),
            variables: Some(vec![("lang".to_string(), "python".to_string())]),
            working_dir: Some("/repo".to_string()),
        }),
        ..Default::default()
    }
}

#[test]
fn scenario_arguments_with_defaults() {
    let client = CodexClient::new(CodexConfig::default());
    let args = client.assemble_args(&scenario_request());
    let expected = vec![
        "exec",
        "--json",
        "--sandbox",
        "read-only",
        "--model",
        "gpt-5-codex",
        "--config",
        "model_reasoning_effort=medium",
        "--cd",
        "/repo",
    ];
    assert_eq!(args, expected);
}

#[test]
fn scenario_prompt_with_context() {
    let client = CodexClient::new(CodexConfig::default());
    let prompt = client.assemble_prompt(&scenario_request());
    assert_eq!(
        prompt,
        "# Context\n\nWorking directory: /repo\n\n## Files\n\na.py\n\n## Variables\n\nlang: python\n\n## User Prompt\n\nfix the bug"
    );
    assert!(prompt.contains("# Context"));
    assert!(prompt.contains("Working directory: /repo"));
    assert!(prompt.contains("## Files"));
    assert!(prompt.contains("lang: python"));
    assert!(prompt.ends_with("## User Prompt\n\nfix the bug"));
}

#[test]
fn prompt_without_context_is_heading_and_text() {
    let client = CodexClient::new(CodexConfig::default());
    let request = CodexPromptRequest { prompt: "hello".to_string(), ..Default::default() };
    assert_eq!(client.assemble_prompt(&request), "## User Prompt\n\nhello");
}

#[test]
fn prompt_inlines_file_content() {
    let client = CodexClient::new(CodexConfig::default());
    let request = CodexPromptRequest {
        prompt: "p".to_string(),
        context: Some(Context {
            files: Some(vec![
                ContextFile { path: "x.rs".to_string(), content: Some("fn main() {}".to_string()) },
                ContextFile { path: "y.rs".to_string(), content: None },
            ]),
            variables: None,
            working_dir: None,
        }),
        ..Default::default()
    };
    assert_eq!(
        client.assemble_prompt(&request),
        "# Context\n\n## Files\n\nx.rs:\nfn main() {}\n\ny.rs\n\n## User Prompt\n\np"
    );
}

#[test]
fn arguments_follow_precedence() {
    let config = CodexConfig {
        binary: "codex".to_string(),
        timeout_ms: 10,
        model: Some(Model::Gpt5),
        sandbox_mode: Some(SandboxMode::WorkspaceWrite),
        reasoning_effort: Some(ReasoningEffort::Low),
    };
    let client = CodexClient::new(config);
    let from_config = client.assemble_args(&CodexPromptRequest::default());
    assert_eq!(from_config[3], "workspace-write");
    assert_eq!(from_config[5], "gpt-5");
    assert_eq!(from_config[7], "model_reasoning_effort=low");
    assert_eq!(from_config[9], ".");

    let request = CodexPromptRequest {
        model: Some(Model::Gpt5Codex),
        sandbox_mode: Some(SandboxMode::DangerFullAccess),
        reasoning_effort: Some(ReasoningEffort::High),
        ..Default::default()
    };
    let from_request = client.assemble_args(&request);
    assert_eq!(from_request[3], "danger-full-access");
    assert_eq!(from_request[5], "gpt-5-codex");
    assert_eq!(from_request[7], "model_reasoning_effort=high");
}

#[test]
fn timeout_uses_override_or_default() {
    let mut config = CodexConfig::default();
    config.timeout_ms = 5000;
    let client = CodexClient::new(config);
    assert_eq!(client.effective_timeout(&CodexPromptRequest::default()), 5000);
    let request = CodexPromptRequest { timeout: Some(42), ..Default::default() };
    assert_eq!(client.effective_timeout(&request), 42);
    let default_client = CodexClient::new(CodexConfig::default());
    assert_eq!(default_client.effective_timeout(&CodexPromptRequest::default()), 1800000);
    assert_eq!(default_client.effective_timeout(&request), 42);
}

#[test]
fn invocation_ends_with_prompt() {
    let client = CodexClient::new(CodexConfig::default());
    let request = scenario_request();
    let inv = client.prepare_invocation(&request);
    assert_eq!(inv.binary, "codex");
    assert_eq!(inv.timeout_ms, 1800000);
    assert_eq!(inv.args.len(), 11);
    assert_eq!(inv.args[10], client.assemble_prompt(&request));
}

#[test]
fn unknown_names_parse_as_defaults() {
    assert_eq!(ReasoningEffort::from_str("extreme"), ReasoningEffort::Medium);
    assert_eq!(Model::from_str("gpt-4"), Model::Gpt5Codex);
    assert_eq!(SandboxMode::from_str(""), SandboxMode::ReadOnly);
    assert_eq!(ReasoningEffort::from_str("LOW"), ReasoningEffort::Medium);
}

#[test]
fn names_round_trip() {
    for e in [ReasoningEffort::Low, ReasoningEffort::Medium, ReasoningEffort::High] {
        assert_eq!(ReasoningEffort::from_str(&e.to_string()), e);
    }
    for m in [Model::Gpt5Codex, Model::Gpt5] {
        assert_eq!(Model::from_str(m.as_str()), m);
    }
    for s in [SandboxMode::ReadOnly, SandboxMode::WorkspaceWrite, SandboxMode::DangerFullAccess] {
        assert_eq!(SandboxMode::from_str(&s.to_string()), s);
    }
    assert_eq!(SandboxMode::DangerFullAccess.to_string(), "danger-full-access");
    assert_eq!(Model::Gpt5.to_string(), "gpt-5");
    assert_eq!(ReasoningEffort::High.as_str(), "high");
}

#[test]
fn settings_fall_back_to_defaults() {
    let config = CodexConfig::from_settings(None, None, None, None, None);
    assert_eq!(config.binary, "codex");
    assert_eq!(config.timeout_ms, 1800000);
    assert!(config.model.is_none());
    let config = CodexConfig::from_settings(
        Some("/bin/agent".to_string()),
        Some(7),
        Some("gpt-5".to_string()),
        Some("bogus".to_string()),
        Some("high".to_string()),
    );
    assert_eq!(config.binary, "/bin/agent");
    assert_eq!(config.timeout_ms, 7);
    assert_eq!(config.model, Some(Model::Gpt5));
    assert_eq!(config.sandbox_mode, Some(SandboxMode::ReadOnly));
    assert_eq!(config.reasoning_effort, Some(ReasoningEffort::High));
}
