//! The daemon's side of a conversation turn: the user's prompt, the model's
//! replies, the tools they ask for, and the tool results fed back, with at
//! most a fixed number of tool rounds.
use vstd::prelude::*;
use crate::engine::{parse_level, ThinkingLevel, TokenUsage};
use crate::ipc::DaemonEvent;
use crate::session::{message_views, MessageSpec, Session};
use crate::tools::{llm_report, opt_call_view, parse_tool_call, reply_tool_call, CommandOutput, ToolCall, ToolCallSpec};
use crate::text::{extend_str, string_of};

verus! {

broadcast use vstd::string::group_string_axioms;

/// How many tool rounds one prompt may take.
pub const MAX_TOOL_TURNS: usize = 5;

/// What the daemon does next.
#[derive(Debug)]
pub enum Step {
    /// Send the conversation to the model.
    AskModel,
    /// Run the tool the model asked for.
    RunTool(ToolCall),
    /// Save the session and end the turn.
    Finish,
}

/// A conversation turn in progress.
pub struct Conversation {
    pub session: Session,
    pub thinking_level: ThinkingLevel,
    /// Tool rounds still allowed.
    pub turns_left: usize,
}

/// The level a stored thinking setting stands for (`off` when unset or unknown).
pub open spec fn resolved_level(stored: Option<Seq<char>>) -> ThinkingLevel {
    match parse_level(match stored { Some(s) => s, None => "off"@ }) {
        Some(l) => l,
        None => ThinkingLevel::Off,
    }
}

pub open spec fn opt_seq(o: Option<String>) -> Option<Seq<char>> {
    match o {
        Some(s) => Some(s@),
        None => None,
    }
}

/// The message that feeds a tool's result back to the model.
pub open spec fn tool_feedback(call: ToolCallSpec, output: Seq<char>) -> Seq<char> {
    match call {
        ToolCallSpec::Shell(cmd) => "[Tool Output for `"@ + cmd + "`]:\n"@ + output
            + "\n\nPlease provide the final response to the user based on this output."@,
        ToolCallSpec::Read { .. } => output
            + "\n\nPlease analyze this file content and answer the user."@,
        ToolCallSpec::Write { .. } => output
            + "\n\nPlease confirm to the user that the file was created or updated successfully."@,
        ToolCallSpec::Edit { .. } => output + "\n\nPlease verify the result and inform the user."@,
        ToolCallSpec::WebSearch { .. } => output
            + "\n\nPlease review these results. If you need more details from a specific result, use the 'read_webpage' tool on its URL."@,
        ToolCallSpec::ReadWebPage { .. } => output
            + "\n\nPlease analyze this page content to answer the user's question."@,
    }
}

/// The name of a tool and the detail shown when it starts.
pub open spec fn tool_label(call: ToolCallSpec) -> (Seq<char>, Seq<char>) {
    match call {
        ToolCallSpec::Shell(cmd) => ("bash"@, cmd),
        ToolCallSpec::Read { path } => ("read"@, path),
        ToolCallSpec::Write { path, .. } => ("write"@, path),
        ToolCallSpec::Edit { path, .. } => ("edit"@, path),
        ToolCallSpec::WebSearch { query } => ("web_search"@, query),
        ToolCallSpec::ReadWebPage { url } => ("read_webpage"@, url),
    }
}

/// The line the single-binary daemon prints when a tool starts.
pub open spec fn tool_status_line(call: ToolCallSpec) -> Seq<char> {
    match call {
        ToolCallSpec::Shell(cmd) => "\x1B[33m⚡ [Executing]:\x1B[0m "@ + cmd + "\n"@,
        ToolCallSpec::Read { path } => "\x1B[36m📄 [Reading File]:\x1B[0m "@ + path + "\n"@,
        ToolCallSpec::Write { path, .. } => "\x1B[33m✍️  [Writing File]:\x1B[0m "@ + path + "\n"@,
        ToolCallSpec::Edit { path, .. } => "\x1B[35m✏️  [Editing File]:\x1B[0m "@ + path + "\n"@,
        ToolCallSpec::WebSearch { query } => "\x1B[34m🔍 [Searching Web]:\x1B[0m "@ + query + "\n"@,
        ToolCallSpec::ReadWebPage { url } => "\x1B[36m🌐 [Reading Webpage]:\x1B[0m "@ + url + "\n"@,
    }
}

/// The text a shell command's outcome gives the model.
pub open spec fn shell_result_text(r: Result<CommandOutput, String>) -> Seq<char> {
    match r {
        Ok(out) => llm_report(&out),
        Err(e) => "[Execution Error]: "@ + e@,
    }
}

/// What a shell command's outcome reads as: the command report, or the error.
pub fn shell_output_text(r: &Result<CommandOutput, String>) -> (t: String)
    ensures
        t@ == shell_result_text(*r),
{
    match r {
        Ok(out) => out.to_llm_string(),
        Err(e) => {
            let mut v: Vec<char> = Vec::new();
            extend_str(&mut v, "[Execution Error]: ");
            extend_str(&mut v, e.as_str());
            string_of(&v)
        },
    }
}

/// The event that announces a tool.
pub fn tool_start_event(call: &ToolCall) -> (e: DaemonEvent)
    ensures
        e matches DaemonEvent::ToolStart { tool_name, details } && (tool_name@, details@) == tool_label(call@),
{
    match call {
        ToolCall::Shell(cmd) => DaemonEvent::ToolStart { tool_name: "bash".to_string(), details: cmd.clone() },
        ToolCall::Read { path } => DaemonEvent::ToolStart { tool_name: "read".to_string(), details: path.clone() },
        ToolCall::Write { path, .. } => DaemonEvent::ToolStart { tool_name: "write".to_string(), details: path.clone() },
        ToolCall::Edit { path, .. } => DaemonEvent::ToolStart { tool_name: "edit".to_string(), details: path.clone() },
        ToolCall::WebSearch { query } => DaemonEvent::ToolStart { tool_name: "web_search".to_string(), details: query.clone() },
        ToolCall::ReadWebPage { url } => DaemonEvent::ToolStart { tool_name: "read_webpage".to_string(), details: url.clone() },
    }
}

/// The status line printed when a tool starts.
pub fn tool_status(call: &ToolCall) -> (r: String)
    ensures
        r@ == tool_status_line(call@),
{
    let mut v: Vec<char> = Vec::new();
    match call {
        ToolCall::Shell(cmd) => {
            extend_str(&mut v, "\x1B[33m⚡ [Executing]:\x1B[0m ");
            extend_str(&mut v, cmd.as_str());
        },
        ToolCall::Read { path } => {
            extend_str(&mut v, "\x1B[36m📄 [Reading File]:\x1B[0m ");
            extend_str(&mut v, path.as_str());
        },
        ToolCall::Write { path, .. } => {
            extend_str(&mut v, "\x1B[33m✍️  [Writing File]:\x1B[0m ");
            extend_str(&mut v, path.as_str());
        },
        ToolCall::Edit { path, .. } => {
            extend_str(&mut v, "\x1B[35m✏️  [Editing File]:\x1B[0m ");
            extend_str(&mut v, path.as_str());
        },
        ToolCall::WebSearch { query } => {
            extend_str(&mut v, "\x1B[34m🔍 [Searching Web]:\x1B[0m ");
            extend_str(&mut v, query.as_str());
        },
        ToolCall::ReadWebPage { url } => {
            extend_str(&mut v, "\x1B[36m🌐 [Reading Webpage]:\x1B[0m ");
            extend_str(&mut v, url.as_str());
        },
    }
    extend_str(&mut v, "\n");
    string_of(&v)
}

/// The message a tool's result is fed back with.
pub fn tool_feedback_text(call: &ToolCall, output: &str) -> (r: String)
    ensures
        r@ == tool_feedback(call@, output@),
{
    let mut v: Vec<char> = Vec::new();
    match call {
        ToolCall::Shell(cmd) => {
            extend_str(&mut v, "[Tool Output for `");
            extend_str(&mut v, cmd.as_str());
            extend_str(&mut v, "`]:\n");
            extend_str(&mut v, output);
            extend_str(&mut v, "\n\nPlease provide the final response to the user based on this output.");
        },
        ToolCall::Read { .. } => {
            extend_str(&mut v, output);
            extend_str(&mut v, "\n\nPlease analyze this file content and answer the user.");
        },
        ToolCall::Write { .. } => {
            extend_str(&mut v, output);
            extend_str(
                &mut v,
                "\n\nPlease confirm to the user that the file was created or updated successfully.",
            );
        },
        ToolCall::Edit { .. } => {
            extend_str(&mut v, output);
            extend_str(&mut v, "\n\nPlease verify the result and inform the user.");
        },
        ToolCall::WebSearch { .. } => {
            extend_str(&mut v, output);
            extend_str(
                &mut v,
                "\n\nPlease review these results. If you need more details from a specific result, use the 'read_webpage' tool on its URL.",
            );
        },
        ToolCall::ReadWebPage { .. } => {
            extend_str(&mut v, output);
            extend_str(&mut v, "\n\nPlease analyze this page content to answer the user's question.");
        },
    }
    string_of(&v)
}

/// The message the single-binary daemon prints when the model cannot be reached.
pub fn engine_error_line(err: &str) -> (r: String)
    ensures
        r@ == "\n\x1B[31m❌ [Mobius Engine Error]: "@ + err@ + "\x1B[0m\n"@,
{
    let mut v: Vec<char> = Vec::new();
    extend_str(&mut v, "\n\x1B[31m❌ [Mobius Engine Error]: ");
    extend_str(&mut v, err);
    extend_str(&mut v, "\x1B[0m\n");
    string_of(&v)
}

pub open spec fn step_call(s: Step) -> Option<ToolCallSpec> {
    match s {
        Step::RunTool(c) => Some(c@),
        _ => None,
    }
}

impl Conversation {
    /// Opens a turn: a thinking level passed along is stored in the session,
    /// the stored level (`off` when unset or unknown) is used, and the prompt
    /// is appended as a user message. The model is asked next.
    pub fn start(session: Session, prompt: &str, thinking_override: Option<String>) -> (c: Conversation)
        ensures
            opt_seq(c.session.thinking_level) == match thinking_override {
                Some(o) => Some(o@),
                None => opt_seq(session.thinking_level),
            },
            c.thinking_level == resolved_level(opt_seq(c.session.thinking_level)),
            message_views(c.session.messages@) == message_views(session.messages@).push(
                MessageSpec { role: "user"@, content: prompt@ },
            ),
            c.session == (Session {
                messages: c.session.messages,
                thinking_level: c.session.thinking_level,
                ..session
            }),
            c.turns_left == MAX_TOOL_TURNS,
    {
        let mut session = session;
        match thinking_override {
            Some(o) => {
                session.thinking_level = Some(o);
            },
            None => {},
        }
        let level = match &session.thinking_level {
            Some(t) => ThinkingLevel::from_str(t.as_str()),
            None => ThinkingLevel::from_str("off"),
        };
        let thinking_level = match level {
            Some(l) => l,
            None => ThinkingLevel::Off,
        };
        session.add_message("user", prompt);
        Conversation { session, thinking_level, turns_left: MAX_TOOL_TURNS }
    }

    /// Takes in a reply of the model: its token figures and the context
    /// window are noted in the session, the reply joins the history, and a
    /// tool block in it is run next; without one the turn ends.
    pub fn on_reply(&mut self, reply: &str, usage: TokenUsage, context_window: usize) -> (s: Step)
        ensures
            message_views(final(self).session.messages@) == message_views(
                old(self).session.messages@,
            ).push(MessageSpec { role: "assistant"@, content: reply@ }),
            final(self).session.last_prompt_tokens == usage.prompt_tokens,
            final(self).session.last_completion_tokens == usage.completion_tokens,
            final(self).session.context_window == context_window,
            final(self).session == (Session {
                messages: final(self).session.messages,
                last_prompt_tokens: final(self).session.last_prompt_tokens,
                last_completion_tokens: final(self).session.last_completion_tokens,
                context_window: final(self).session.context_window,
                ..old(self).session
            }),
            final(self).thinking_level == old(self).thinking_level,
            final(self).turns_left == old(self).turns_left,
            step_call(s) == reply_tool_call(reply@),
            !(s is AskModel),
    {
        self.session.last_prompt_tokens = usage.prompt_tokens;
        self.session.last_completion_tokens = usage.completion_tokens;
        self.session.context_window = context_window;
        self.session.add_message("assistant", reply);
        match parse_tool_call(reply) {
            Some(c) => Step::RunTool(c),
            None => Step::Finish,
        }
    }

    /// Feeds a tool's result back as a user message and uses up one tool
    /// round; the model is asked again while rounds are left.
    pub fn on_tool_output(&mut self, call: &ToolCall, output: &str) -> (s: Step)
        ensures
            message_views(final(self).session.messages@) == message_views(
                old(self).session.messages@,
            ).push(MessageSpec { role: "user"@, content: tool_feedback(call@, output@) }),
            final(self).turns_left == if old(self).turns_left > 0 {
                (old(self).turns_left - 1) as usize
            } else {
                0
            },
            final(self).session == (Session { messages: final(self).session.messages, ..old(self).session }),
            final(self).thinking_level == old(self).thinking_level,
            s is AskModel <==> final(self).turns_left > 0,
            s is AskModel || s is Finish,
    {
        let text = tool_feedback_text(call, output);
        self.session.add_message("user", text.as_str());
        if self.turns_left > 0 {
            self.turns_left = self.turns_left - 1;
        }
        if self.turns_left > 0 {
            Step::AskModel
        } else {
            Step::Finish
        }
    }
}

} // verus!
