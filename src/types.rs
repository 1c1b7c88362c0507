use vstd::prelude::*;

verus! {

/// How much reasoning the agent spends on a prompt.
#[derive(Debug, Clone, Copy, PartialEq, Eq, Structural)]
pub enum ReasoningEffort {
    Low,
    Medium,
    High,
}

impl ReasoningEffort {
    /// The canonical name, used on the command line and on the wire.
    pub open spec fn spec_name(self) -> Seq<char> {
        match self {
            ReasoningEffort::Low => "low"@,
            ReasoningEffort::Medium => "medium"@,
            ReasoningEffort::High => "high"@,
        }
    }

    /// Parsing is lenient: an unknown name gives the default.
    pub open spec fn spec_parse(s: Seq<char>) -> ReasoningEffort {
        if s == "low"@ {
            ReasoningEffort::Low
        } else if s == "high"@ {
            ReasoningEffort::High
        } else {
            ReasoningEffort::Medium
        }
    }

    pub fn as_str(&self) -> (r: &'static str)
        ensures
            r@ == self.spec_name(),
    {
        match self {
            ReasoningEffort::Low => "low",
            ReasoningEffort::Medium => "medium",
            ReasoningEffort::High => "high",
        }
    }

    pub fn to_string(&self) -> (r: String)
        ensures
            r@ == self.spec_name(),
    {
        self.as_str().to_owned()
    }

    pub fn from_str(s: &str) -> (r: ReasoningEffort)
        ensures
            r == Self::spec_parse(s@),
    {
        if str_is(s, "low") {
            ReasoningEffort::Low
        } else if str_is(s, "high") {
            ReasoningEffort::High
        } else {
            ReasoningEffort::Medium
        }
    }
}

impl Default for ReasoningEffort {
    fn default() -> (r: ReasoningEffort)
        ensures
            r == ReasoningEffort::Medium,
    {
        ReasoningEffort::Medium
    }
}

/// The model the agent runs on.
#[derive(Debug, Clone, Copy, PartialEq, Eq, Structural)]
pub enum Model {
    Gpt5Codex,
    Gpt5,
}

impl Model {
    pub open spec fn spec_name(self) -> Seq<char> {
        match self {
            Model::Gpt5Codex => "gpt-5-codex"@,
            Model::Gpt5 => "gpt-5"@,
        }
    }

    pub open spec fn spec_parse(s: Seq<char>) -> Model {
        if s == "gpt-5"@ {
            Model::Gpt5
        } else {
            Model::Gpt5Codex
        }
    }

    pub fn as_str(&self) -> (r: &'static str)
        ensures
            r@ == self.spec_name(),
    {
        match self {
            Model::Gpt5Codex => "gpt-5-codex",
            Model::Gpt5 => "gpt-5",
        }
    }

    pub fn to_string(&self) -> (r: String)
        ensures
            r@ == self.spec_name(),
    {
        self.as_str().to_owned()
    }

    pub fn from_str(s: &str) -> (r: Model)
        ensures
            r == Self::spec_parse(s@),
    {
        if str_is(s, "gpt-5") {
            Model::Gpt5
        } else {
            Model::Gpt5Codex
        }
    }
}

impl Default for Model {
    fn default() -> (r: Model)
        ensures
            r == Model::Gpt5Codex,
    {
        Model::Gpt5Codex
    }
}

/// What the agent process may touch on disk.
#[derive(Debug, Clone, Copy, PartialEq, Eq, Structural)]
pub enum SandboxMode {
    ReadOnly,
    WorkspaceWrite,
    DangerFullAccess,
}

impl SandboxMode {
    pub open spec fn spec_name(self) -> Seq<char> {
        match self {
            SandboxMode::ReadOnly => "read-only"@,
            SandboxMode::WorkspaceWrite => "workspace-write"@,
            SandboxMode::DangerFullAccess => "danger-full-access"@,
        }
    }

    pub open spec fn spec_parse(s: Seq<char>) -> SandboxMode {
        if s == "workspace-write"@ {
            SandboxMode::WorkspaceWrite
        } else if s == "danger-full-access"@ {
            SandboxMode::DangerFullAccess
        } else {
            SandboxMode::ReadOnly
        }
    }

    pub fn as_str(&self) -> (r: &'static str)
        ensures
            r@ == self.spec_name(),
    {
        match self {
            SandboxMode::ReadOnly => "read-only",
            SandboxMode::WorkspaceWrite => "workspace-write",
            SandboxMode::DangerFullAccess => "danger-full-access",
        }
    }

    pub fn to_string(&self) -> (r: String)
        ensures
            r@ == self.spec_name(),
    {
        self.as_str().to_owned()
    }

    pub fn from_str(s: &str) -> (r: SandboxMode)
        ensures
            r == Self::spec_parse(s@),
    {
        if str_is(s, "workspace-write") {
            SandboxMode::WorkspaceWrite
        } else if str_is(s, "danger-full-access") {
            SandboxMode::DangerFullAccess
        } else {
            SandboxMode::ReadOnly
        }
    }
}

impl Default for SandboxMode {
    fn default() -> (r: SandboxMode)
        ensures
            r == SandboxMode::ReadOnly,
    {
        SandboxMode::ReadOnly
    }
}

/// A name that none of an enum's variants has parses as that enum's
/// default; parsing never fails.
pub proof fn lemma_unknown_names_give_defaults(s: Seq<char>)
    ensures
        s != "low"@ && s != "medium"@ && s != "high"@ ==> ReasoningEffort::spec_parse(s)
            == ReasoningEffort::Medium,
        s != "gpt-5-codex"@ && s != "gpt-5"@ ==> Model::spec_parse(s) == Model::Gpt5Codex,
        s != "read-only"@ && s != "workspace-write"@ && s != "danger-full-access"@
            ==> SandboxMode::spec_parse(s) == SandboxMode::ReadOnly,
{
}

/// Whether two strings hold the same characters.
fn str_is(s: &str, name: &str) -> (r: bool)
    ensures
        r == (s@ == name@),
{
    s.to_owned() == name.to_owned()
}

/// How long an invocation may run when neither the request nor the
/// environment says otherwise: thirty minutes.
pub const DEFAULT_TIMEOUT_MS: u64 = 1800000;

/// Process-wide settings, read once at startup.
#[derive(Debug, Clone)]
pub struct CodexConfig {
    pub binary: String,
    pub timeout_ms: u64,
    pub model: Option<Model>,
    pub sandbox_mode: Option<SandboxMode>,
    pub reasoning_effort: Option<ReasoningEffort>,
}

impl Default for CodexConfig {
    fn default() -> (r: CodexConfig)
        ensures
            r.binary@ == "codex"@,
            r.timeout_ms == DEFAULT_TIMEOUT_MS,
            r.model is None,
            r.sandbox_mode is None,
            r.reasoning_effort is None,
    {
        CodexConfig {
            binary: "codex".to_owned(),
            timeout_ms: DEFAULT_TIMEOUT_MS,
            model: None,
            sandbox_mode: None,
            reasoning_effort: None,
        }
    }
}

impl CodexConfig {
    /// Builds the settings from raw values, each of them possibly unset: the
    /// binary falls back to `codex`, the timeout to thirty minutes, and each
    /// enum name is parsed leniently.
    pub fn from_settings(
        binary: Option<String>,
        timeout_ms: Option<u64>,
        model: Option<String>,
        sandbox_mode: Option<String>,
        reasoning_effort: Option<String>,
    ) -> (r: CodexConfig)
        ensures
            r.binary@ == (match binary {
                Some(b) => b@,
                None => "codex"@,
            }),
            r.timeout_ms == (match timeout_ms {
                Some(t) => t,
                None => DEFAULT_TIMEOUT_MS,
            }),
            r.model == (match model {
                Some(m) => Some(Model::spec_parse(m@)),
                None => None,
            }),
            r.sandbox_mode == (match sandbox_mode {
                Some(m) => Some(SandboxMode::spec_parse(m@)),
                None => None,
            }),
            r.reasoning_effort == (match reasoning_effort {
                Some(e) => Some(ReasoningEffort::spec_parse(e@)),
                None => None,
            }),
    {
        let binary = match binary {
            Some(b) => b,
            None => "codex".to_owned(),
        };
        let timeout_ms: u64 = match timeout_ms {
            Some(t) => t,
            None => DEFAULT_TIMEOUT_MS,
        };
        let model = match model {
            Some(m) => Some(Model::from_str(m.as_str())),
            None => None,
        };
        let sandbox_mode = match sandbox_mode {
            Some(m) => Some(SandboxMode::from_str(m.as_str())),
            None => None,
        };
        let reasoning_effort = match reasoning_effort {
            Some(e) => Some(ReasoningEffort::from_str(e.as_str())),
            None => None,
        };
        CodexConfig { binary, timeout_ms, model, sandbox_mode, reasoning_effort }
    }
}

/// One prompt to run, with its optional context and overrides.
#[derive(Debug, Clone)]
pub struct CodexPromptRequest {
    pub prompt: String,
    pub context: Option<Context>,
    pub timeout: Option<u64>,
    pub model: Option<Model>,
    pub reasoning_effort: Option<ReasoningEffort>,
    pub sandbox_mode: Option<SandboxMode>,
}

impl Default for CodexPromptRequest {
    fn default() -> (r: CodexPromptRequest)
        ensures
            r.prompt@ == Seq::<char>::empty(),
            r.context is None,
            r.timeout is None,
            r.model is None,
            r.reasoning_effort is None,
            r.sandbox_mode is None,
    {
        CodexPromptRequest {
            prompt: String::new(),
            context: None,
            timeout: None,
            model: None,
            reasoning_effort: None,
            sandbox_mode: None,
        }
    }
}

/// What the agent should know before it reads the prompt. The variables are
/// name/value pairs, listed in the prompt in the order given here.
#[derive(Debug, Clone)]
pub struct Context {
    pub files: Option<Vec<ContextFile>>,
    pub variables: Option<Vec<(String, String)>>,
    pub working_dir: Option<String>,
}

/// A file named in the context, with its content inline where given.
#[derive(Debug, Clone)]
pub struct ContextFile {
    pub path: String,
    pub content: Option<String>,
}

/// One decoded line of the agent's output.
#[derive(Debug, Clone)]
pub struct CodexMessage {
    pub id: Option<String>,
    pub msg: Option<MessageContent>,
    pub prompt: Option<String>,
    pub model: Option<String>,
    pub sandbox: Option<String>,
    pub provider: Option<String>,
    pub reasoning: Option<String>,
    pub workdir: Option<String>,
    pub approval: Option<String>,
    pub reasoning_effort: Option<String>,
    pub reasoning_summaries: Option<String>,
}

impl Default for CodexMessage {
    fn default() -> (r: CodexMessage)
        ensures
            r.id is None,
            r.msg is None,
            r.prompt is None,
            r.model is None,
            r.sandbox is None,
            r.provider is None,
            r.reasoning is None,
            r.workdir is None,
            r.approval is None,
            r.reasoning_effort is None,
            r.reasoning_summaries is None,
    {
        CodexMessage {
            id: None,
            msg: None,
            prompt: None,
            model: None,
            sandbox: None,
            provider: None,
            reasoning: None,
            workdir: None,
            approval: None,
            reasoning_effort: None,
            reasoning_summaries: None,
        }
    }
}

/// The tagged content of a message.
#[derive(Debug, Clone)]
pub struct MessageContent {
    pub msg_type: MessageType,
    pub message: Option<String>,
    pub text: Option<String>,
    pub info: Option<TokenUsageInfo>,
    pub model_context_window: Option<u64>,
}

impl Default for MessageContent {
    fn default() -> (r: MessageContent)
        ensures
            r.msg_type == MessageType::AgentMessage,
            r.message is None,
            r.text is None,
            r.info is None,
            r.model_context_window is None,
    {
        MessageContent {
            msg_type: MessageType::AgentMessage,
            message: None,
            text: None,
            info: None,
            model_context_window: None,
        }
    }
}

/// The tag of a message's content.
#[derive(Debug, Clone, Copy, PartialEq, Eq, Structural)]
pub enum MessageType {
    TaskStarted,
    AgentReasoning,
    AgentMessage,
    TokenCount,
    AgentReasoningSectionBreak,
    Error,
}

impl Default for MessageType {
    fn default() -> (r: MessageType)
        ensures
            r == MessageType::AgentMessage,
    {
        MessageType::AgentMessage
    }
}

/// Token accounting reported by the agent; carried through, never read.
#[derive(Debug, Clone, Copy, PartialEq, Eq, Structural)]
pub struct TokenUsageInfo {
    pub total_token_usage: Option<TokenUsage>,
    pub last_token_usage: Option<TokenUsage>,
    pub model_context_window: Option<u64>,
}

#[derive(Debug, Clone, Copy, PartialEq, Eq, Structural)]
pub struct TokenUsage {
    pub input_tokens: u64,
    pub cached_input_tokens: Option<u64>,
    pub output_tokens: u64,
    pub reasoning_output_tokens: Option<u64>,
    pub total_tokens: u64,
}

} // verus!
