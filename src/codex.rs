use vstd::prelude::*;
use vstd::string::StringExecFns;

use crate::types::{CodexConfig, CodexPromptRequest, ContextFile, Model, ReasoningEffort, SandboxMode};

verus! {

/// Runs prompts against the agent binary named in its configuration.
#[derive(Debug)]
pub struct CodexClient {
    config: CodexConfig,
}

impl View for CodexClient {
    type V = CodexConfig;

    closed spec fn view(&self) -> CodexConfig {
        self.config
    }
}

/// The sandbox mode: the request's, else the configuration's, else read-only.
pub open spec fn chosen_sandbox(config: CodexConfig, request: CodexPromptRequest) -> SandboxMode {
    match request.sandbox_mode {
        Some(m) => m,
        None => match config.sandbox_mode {
            Some(m) => m,
            None => SandboxMode::ReadOnly,
        },
    }
}

/// The model: the request's, else the configuration's, else gpt-5-codex.
pub open spec fn chosen_model(config: CodexConfig, request: CodexPromptRequest) -> Model {
    match request.model {
        Some(m) => m,
        None => match config.model {
            Some(m) => m,
            None => Model::Gpt5Codex,
        },
    }
}

/// The reasoning effort: the request's, else the configuration's, else medium.
pub open spec fn chosen_effort(config: CodexConfig, request: CodexPromptRequest) -> ReasoningEffort {
    match request.reasoning_effort {
        Some(e) => e,
        None => match config.reasoning_effort {
            Some(e) => e,
            None => ReasoningEffort::Medium,
        },
    }
}

/// The directory the agent runs in: the context's, else the current one.
pub open spec fn chosen_dir(request: CodexPromptRequest) -> Seq<char> {
    match request.context {
        Some(c) => match c.working_dir {
            Some(d) => d@,
            None => "."@,
        },
        None => "."@,
    }
}

/// How long the process may run before it is killed.
pub open spec fn timeout_of(config: CodexConfig, request: CodexPromptRequest) -> u64 {
    match request.timeout {
        Some(t) => t,
        None => config.timeout_ms,
    }
}

/// The arguments that come before the prompt.
pub open spec fn args_of(config: CodexConfig, request: CodexPromptRequest) -> Seq<Seq<char>> {
    seq![
        "exec"@,
        "--json"@,
        "--sandbox"@,
        chosen_sandbox(config, request).spec_name(),
        "--model"@,
        chosen_model(config, request).spec_name(),
        "--config"@,
        "model_reasoning_effort="@ + chosen_effort(config, request).spec_name(),
        "--cd"@,
        chosen_dir(request),
    ]
}

/// One file of the context: its path, then its content where given.
pub open spec fn file_text(f: ContextFile) -> Seq<char> {
    match f.content {
        Some(c) => f.path@ + ":\n"@ + c@ + "\n\n"@,
        None => f.path@ + "\n"@,
    }
}

pub open spec fn files_text(files: Seq<ContextFile>) -> Seq<char>
    decreases files.len(),
{
    if files.len() == 0 {
        Seq::empty()
    } else {
        files_text(files.drop_last()) + file_text(files.last())
    }
}

pub open spec fn variables_text(vars: Seq<(String, String)>) -> Seq<char>
    decreases vars.len(),
{
    if vars.len() == 0 {
        Seq::empty()
    } else {
        variables_text(vars.drop_last()) + vars.last().0@ + ": "@ + vars.last().1@ + "\n"@
    }
}

/// The preamble that describes the context, empty where there is none.
pub open spec fn context_text(request: CodexPromptRequest) -> Seq<char> {
    match request.context {
        None => Seq::empty(),
        Some(c) => "# Context\n\n"@ + (match c.working_dir {
            Some(d) => "Working directory: "@ + d@ + "\n\n"@,
            None => Seq::empty(),
        }) + (match c.files {
            Some(fs) => "## Files\n\n"@ + files_text(fs@) + "\n"@,
            None => Seq::empty(),
        }) + (match c.variables {
            Some(vs) => "## Variables\n\n"@ + variables_text(vs@) + "\n"@,
            None => Seq::empty(),
        }),
    }
}

/// The whole prompt handed to the agent.
pub open spec fn prompt_of(request: CodexPromptRequest) -> Seq<char> {
    context_text(request) + "## User Prompt\n\n"@ + request.prompt@
}

fn push_file(out: &mut String, f: &ContextFile)
    ensures
        final(out)@ == old(out)@ + file_text(*f),
{
    out.append(f.path.as_str());
    match &f.content {
        Some(c) => {
            out.append(":\n");
            out.append(c.as_str());
            out.append("\n\n");
        },
        None => {
            out.append("\n");
        },
    }
}

fn push_files(out: &mut String, files: &Vec<ContextFile>)
    ensures
        final(out)@ == old(out)@ + files_text(files@),
{
    let ghost start = out@;
    let mut i: usize = 0;
    while i < files.len()
        invariant
            i <= files@.len(),
            out@ == start + files_text(files@.subrange(0, i as int)),
        decreases files@.len() - i,
    {
        push_file(out, &files[i]);
        proof {
            assert(files@.subrange(0, i + 1).drop_last() =~= files@.subrange(0, i as int));
        }
        i = i + 1;
    }
    assert(files@.subrange(0, i as int) =~= files@);
}

fn push_variables(out: &mut String, vars: &Vec<(String, String)>)
    ensures
        final(out)@ == old(out)@ + variables_text(vars@),
{
    let ghost start = out@;
    let mut i: usize = 0;
    while i < vars.len()
        invariant
            i <= vars@.len(),
            out@ == start + variables_text(vars@.subrange(0, i as int)),
        decreases vars@.len() - i,
    {
        let (k, v) = &vars[i];
        out.append(k.as_str());
        out.append(": ");
        out.append(v.as_str());
        out.append("\n");
        proof {
            assert(vars@.subrange(0, i + 1).drop_last() =~= vars@.subrange(0, i as int));
        }
        i = i + 1;
    }
    assert(vars@.subrange(0, i as int) =~= vars@);
}

/// What it takes to start the agent for one request: the binary, its
/// arguments with the prompt last, and the deadline after which the process
/// is killed.
#[derive(Debug)]
pub struct Invocation {
    pub binary: String,
    pub args: Vec<String>,
    pub timeout_ms: u64,
}

impl CodexClient {
    pub fn new(config: CodexConfig) -> (r: CodexClient)
        ensures
            r@ == config,
    {
        CodexClient { config }
    }

    /// The request's timeout where it has one, else the configured default.
    pub fn effective_timeout(&self, request: &CodexPromptRequest) -> (r: u64)
        ensures
            r == timeout_of(self@, *request),
    {
        match request.timeout {
            Some(t) => t,
            None => self.config.timeout_ms,
        }
    }

    /// The arguments for the agent, without the prompt that ends them.
    pub fn assemble_args(&self, request: &CodexPromptRequest) -> (r: Vec<String>)
        ensures
            r@.map_values(|s: String| s@) == args_of(self@, *request),
    {
        let mut args: Vec<String> = Vec::new();
        args.push("exec".to_owned());
        args.push("--json".to_owned());

        let sandbox_mode = match request.sandbox_mode {
            Some(m) => m,
            None => match self.config.sandbox_mode {
                Some(m) => m,
                None => SandboxMode::ReadOnly,
            },
        };
        args.push("--sandbox".to_owned());
        args.push(sandbox_mode.to_string());

        let model = match request.model {
            Some(m) => m,
            None => match self.config.model {
                Some(m) => m,
                None => Model::Gpt5Codex,
            },
        };
        args.push("--model".to_owned());
        args.push(model.to_string());

        let effort = match request.reasoning_effort {
            Some(e) => e,
            None => match self.config.reasoning_effort {
                Some(e) => e,
                None => ReasoningEffort::Medium,
            },
        };
        args.push("--config".to_owned());
        let mut setting = "model_reasoning_effort=".to_owned();
        setting.append(effort.as_str());
        args.push(setting);

        let working_dir = match &request.context {
            Some(c) => match &c.working_dir {
                Some(d) => d.clone(),
                None => ".".to_owned(),
            },
            None => ".".to_owned(),
        };
        args.push("--cd".to_owned());
        args.push(working_dir);

        assert(args@.map_values(|s: String| s@) =~= args_of(self@, *request));
        args
    }

    /// The prompt for the agent: the context preamble, if any, then the
    /// user's own text under its heading.
    pub fn assemble_prompt(&self, request: &CodexPromptRequest) -> (r: String)
        ensures
            r@ == prompt_of(*request),
    {
        let mut prompt = String::new();
        if let Some(context) = &request.context {
            prompt.append("# Context\n\n");
            if let Some(dir) = &context.working_dir {
                prompt.append("Working directory: ");
                prompt.append(dir.as_str());
                prompt.append("\n\n");
            }
            if let Some(files) = &context.files {
                prompt.append("## Files\n\n");
                push_files(&mut prompt, files);
                prompt.append("\n");
            }
            if let Some(vars) = &context.variables {
                prompt.append("## Variables\n\n");
                push_variables(&mut prompt, vars);
                prompt.append("\n");
            }
        }
        prompt.append("## User Prompt\n\n");
        prompt.append(request.prompt.as_str());
        prompt
    }

    /// Everything needed to spawn the agent for `request`.
    pub fn prepare_invocation(&self, request: &CodexPromptRequest) -> (r: Invocation)
        ensures
            r.binary@ == self@.binary@,
            r.args@.map_values(|s: String| s@) == args_of(self@, *request).push(prompt_of(*request)),
            r.timeout_ms == timeout_of(self@, *request),
    {
        let mut args = self.assemble_args(request);
        let prompt = self.assemble_prompt(request);
        args.push(prompt);
        assert(args@.map_values(|s: String| s@) =~= args_of(self@, *request).push(prompt_of(*request)));
        Invocation {
            binary: self.config.binary.clone(),
            args,
            timeout_ms: self.effective_timeout(request),
        }
    }
}

/// Without an override the deadline is the configured default; with one it
/// is the override, whatever the configuration says.
pub proof fn lemma_timeout_precedence(config: CodexConfig, request: CodexPromptRequest)
    ensures
        request.timeout is None ==> timeout_of(config, request) == config.timeout_ms,
        request.timeout matches Some(t) ==> timeout_of(config, request) == t,
        forall|other: CodexConfig|
            request.timeout is Some ==> timeout_of(other, request) == timeout_of(config, request),
{
}

} // verus!
