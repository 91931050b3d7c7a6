//! The client's side of a request: what it asks the daemon for, given its
//! command line, and how it shows the events that come back.
use vstd::prelude::*;
use crate::arguments::{parse_unsigned, parse_usize};
use crate::cli::{FlagAction, FlagActionSpec};
use crate::client_cli::CliArgs;
use crate::engine::{level_at, level_name, ThinkingLevel, THINKING_LEVEL_COUNT};
use crate::ipc::{metadata_views, opt_text, DaemonEvent, DaemonEventSpec, IpcRequest, SessionMetadata, SessionMetadataSpec};
use crate::text::{decimal, decimal_chars, extend, extend_str, string_of};

verus! {

broadcast use vstd::string::group_string_axioms;

/// The value a flag was given, if it was given one.
pub open spec fn flag_value(f: Option<FlagActionSpec>) -> Option<Seq<char>> {
    match f {
        Some(FlagActionSpec::Value(v)) => Some(v),
        _ => None,
    }
}

/// Whether a flag was given without a value (a query).
pub open spec fn flag_query(f: Option<FlagActionSpec>) -> bool {
    f matches Some(FlagActionSpec::Query)
}

/// The thinking level a `-t` value names: a listed number selects the level
/// at that position, anything else is passed on as a name.
pub open spec fn thinking_choice(v: Seq<char>) -> Seq<char> {
    match parse_unsigned(v, usize::MAX as nat) {
        Some(n) => if n < THINKING_LEVEL_COUNT {
            level_name(level_at(n as int))
        } else {
            v
        },
        None => v,
    }
}

fn thinking_value(v: &String) -> (r: String)
    ensures
        r@ == thinking_choice(v@),
{
    match parse_usize(v.as_str()) {
        Some(n) => if n < THINKING_LEVEL_COUNT {
            let levels = ThinkingLevel::all();
            levels[n].as_str().to_string()
        } else {
            v.clone()
        },
        None => v.clone(),
    }
}

/// The request the client sends for its command line: the prompt, a
/// thinking level or model picked with a value, the listings asked for with
/// `-t` or `-m` alone, a fresh session, or a shutdown.
pub fn build_request(args: &CliArgs, ppid: u32) -> (r: IpcRequest)
    ensures
        r.ppid == ppid,
        r.prompt@ == args.prompt@,
        opt_text(r.thinking_level_override) == match flag_value(args@.thinking_level) {
            Some(v) => Some(thinking_choice(v)),
            None => None,
        },
        opt_text(r.model_override) == flag_value(args@.model),
        r.model_number == match flag_value(args@.model) {
            Some(v) => match parse_unsigned(v, usize::MAX as nat) {
                Some(n) => Some(n as usize),
                None => None,
            },
            None => None,
        },
        r.new_session == args.new_session,
        !r.query_tokens,
        r.query_model == flag_query(args@.model),
        !r.query_model_list,
        r.query_thinking == flag_query(args@.thinking_level),
        !r.query_llm_status,
        r.llm_provider is None,
        r.shutdown == args.stop_daemon,
        r.record_history is None,
        !r.list_sessions,
        r.load_session is None,
        r.delete_session is None,
{
    let thinking_level_override = match &args.thinking_level {
        Some(FlagAction::Value(v)) => Some(thinking_value(v)),
        _ => None,
    };
    let query_thinking = match &args.thinking_level {
        Some(FlagAction::Query) => true,
        _ => false,
    };
    let (model_override, model_number) = match &args.model {
        Some(FlagAction::Value(v)) => (Some(v.clone()), parse_usize(v.as_str())),
        _ => (None, None),
    };
    let query_model = match &args.model {
        Some(FlagAction::Query) => true,
        _ => false,
    };
    IpcRequest {
        ppid,
        prompt: args.prompt.clone(),
        thinking_level_override,
        model_override,
        model_number,
        new_session: args.new_session,
        query_tokens: false,
        query_model,
        query_model_list: false,
        query_thinking,
        query_llm_status: false,
        llm_provider: None,
        shutdown: args.stop_daemon,
        record_history: None,
        list_sessions: false,
        load_session: None,
        delete_session: None,
    }
}

/// Whether a request asks the daemon for anything; without that the client
/// shows its help instead.
pub open spec fn asks_something(req: IpcRequest) -> bool {
    ||| req.prompt@.len() > 0
    ||| req.shutdown
    ||| req.new_session
    ||| req.query_tokens
    ||| req.query_model
    ||| req.query_thinking
    ||| req.thinking_level_override is Some
    ||| req.model_override is Some
}

pub fn has_action(req: &IpcRequest) -> (r: bool)
    ensures
        r == asks_something(*req),
{
    !req.prompt.as_str().is_empty() || req.shutdown || req.new_session || req.query_tokens
        || req.query_model || req.query_thinking || req.thinking_level_override.is_some()
        || req.model_override.is_some()
}

/// What the client does with an event.
#[derive(Debug)]
pub enum Shown {
    /// Print this on standard output.
    Out(String),
    /// Print this on standard error.
    ErrOut(String),
    /// Show the context use for these token figures.
    Usage { prompt: usize, context_window: usize },
    /// Nothing to show.
    Nothing,
    /// Print this and stop reading: the request is answered.
    Finish(String),
}

pub enum ShownSpec {
    Out(Seq<char>),
    ErrOut(Seq<char>),
    Usage { prompt: usize, context_window: usize },
    Nothing,
    Finish(Seq<char>),
}

impl View for Shown {
    type V = ShownSpec;

    open spec fn view(&self) -> ShownSpec {
        match self {
            Shown::Out(s) => ShownSpec::Out(s@),
            Shown::ErrOut(s) => ShownSpec::ErrOut(s@),
            Shown::Usage { prompt, context_window } => ShownSpec::Usage {
                prompt: *prompt,
                context_window: *context_window,
            },
            Shown::Nothing => ShownSpec::Nothing,
            Shown::Finish(s) => ShownSpec::Finish(s@),
        }
    }
}

/// How a listed session is shown: a filled dot for the current session,
/// its file name, its preview and its size.
pub open spec fn session_entry_text(s: SessionMetadataSpec) -> Seq<char> {
    (if s.is_active {
        "●"@
    } else {
        "○"@
    }) + " "@ + s.filename + "\n"@ + "   "@ + s.preview + "\n"@ + "   "@ + decimal(
        s.message_count as nat,
    ) + " messages\n"@
}

pub open spec fn session_list_text(ss: Seq<SessionMetadataSpec>) -> Seq<char>
    decreases ss.len(),
{
    if ss.len() == 0 {
        Seq::empty()
    } else {
        session_list_text(ss.drop_last()) + session_entry_text(ss.last())
    }
}

/// What the client shows for an event, given whether the answer prefix
/// has been printed.
pub open spec fn shown_for(e: DaemonEventSpec, prefix_printed: bool) -> ShownSpec {
    match e {
        DaemonEventSpec::ThinkingChunk(c) => ShownSpec::Out("\x1b[90m"@ + c + "\x1b[0m"@),
        DaemonEventSpec::TextChunk(c) => ShownSpec::Out(
            (if prefix_printed {
                Seq::empty()
            } else {
                "\x1b[1;32mMobius: \x1b[0m"@
            }) + c,
        ),
        DaemonEventSpec::ToolStart { tool_name, details } => ShownSpec::Out(
            "\n\x1b[33m[🛠️  Executing Tool: "@ + tool_name + " | "@ + details + "]\x1b[0m\n"@,
        ),
        DaemonEventSpec::ToolFinished { .. } => ShownSpec::Nothing,
        DaemonEventSpec::TokenUsage { prompt, context_window, .. } => ShownSpec::Usage {
            prompt,
            context_window,
        },
        DaemonEventSpec::LlmStatus { .. } => ShownSpec::Nothing,
        DaemonEventSpec::Info(t) => ShownSpec::Out(t),
        DaemonEventSpec::Error(t) => ShownSpec::ErrOut("\n\x1b[31m[Daemon Error]: "@ + t + "\x1b[0m\n"@),
        DaemonEventSpec::Done => ShownSpec::Finish("\n"@),
        DaemonEventSpec::SessionList(ss) => ShownSpec::Out(session_list_text(ss)),
        DaemonEventSpec::ModelList(_) => ShownSpec::Nothing,
    }
}

fn session_list_output(ss: &Vec<SessionMetadata>) -> (r: String)
    ensures
        r@ == session_list_text(metadata_views(ss@)),
{
    let mut v: Vec<char> = Vec::new();
    let mut i: usize = 0;
    while i < ss.len()
        invariant
            i <= ss.len(),
            v@ == session_list_text(metadata_views(ss@).subrange(0, i as int)),
        decreases ss.len() - i,
    {
        let s = &ss[i];
        let ghost before = v@;
        if s.is_active {
            extend_str(&mut v, "●");
        } else {
            extend_str(&mut v, "○");
        }
        extend_str(&mut v, " ");
        extend_str(&mut v, s.filename.as_str());
        extend_str(&mut v, "\n");
        extend_str(&mut v, "   ");
        extend_str(&mut v, s.preview.as_str());
        extend_str(&mut v, "\n");
        extend_str(&mut v, "   ");
        let d = decimal_chars(s.message_count as u64);
        extend(&mut v, &d);
        extend_str(&mut v, " messages\n");
        let ghost next = metadata_views(ss@).subrange(0, i + 1);
        assert(next.drop_last() =~= metadata_views(ss@).subrange(0, i as int));
        assert(v@ =~= before + session_entry_text(s@));
        i += 1;
    }
    assert(metadata_views(ss@).subrange(0, ss@.len() as int) =~= metadata_views(ss@));
    string_of(&v)
}

/// Shows the events of one request.
pub struct EventPrinter {
    pub prefix_printed: bool,
}

impl EventPrinter {
    pub fn new() -> (p: EventPrinter)
        ensures
            !p.prefix_printed,
    {
        EventPrinter { prefix_printed: false }
    }

    /// What to show for an event: thinking dimmed, the first answer text
    /// after a `Mobius:` prefix, tool starts, errors on standard error, the
    /// listed sessions, and a final line break when the request is done.
    pub fn show(&mut self, e: &DaemonEvent) -> (r: Shown)
        ensures
            r@ == shown_for(e@, old(self).prefix_printed),
            final(self).prefix_printed == (old(self).prefix_printed || e is TextChunk),
    {
        let mut v: Vec<char> = Vec::new();
        match e {
            DaemonEvent::ThinkingChunk(c) => {
                extend_str(&mut v, "\x1b[90m");
                extend_str(&mut v, c.as_str());
                extend_str(&mut v, "\x1b[0m");
                Shown::Out(string_of(&v))
            },
            DaemonEvent::TextChunk(c) => {
                if !self.prefix_printed {
                    extend_str(&mut v, "\x1b[1;32mMobius: \x1b[0m");
                    self.prefix_printed = true;
                }
                extend_str(&mut v, c.as_str());
                Shown::Out(string_of(&v))
            },
            DaemonEvent::ToolStart { tool_name, details } => {
                extend_str(&mut v, "\n\x1b[33m[🛠️  Executing Tool: ");
                extend_str(&mut v, tool_name.as_str());
                extend_str(&mut v, " | ");
                extend_str(&mut v, details.as_str());
                extend_str(&mut v, "]\x1b[0m\n");
                Shown::Out(string_of(&v))
            },
            DaemonEvent::ToolFinished { .. } => Shown::Nothing,
            DaemonEvent::TokenUsage { prompt, context_window, .. } => Shown::Usage {
                prompt: *prompt,
                context_window: *context_window,
            },
            DaemonEvent::LlmStatus { .. } => Shown::Nothing,
            DaemonEvent::Info(t) => Shown::Out(t.clone()),
            DaemonEvent::Error(t) => {
                extend_str(&mut v, "\n\x1b[31m[Daemon Error]: ");
                extend_str(&mut v, t.as_str());
                extend_str(&mut v, "\x1b[0m\n");
                Shown::ErrOut(string_of(&v))
            },
            DaemonEvent::Done => Shown::Finish("\n".to_string()),
            DaemonEvent::SessionList(ss) => Shown::Out(session_list_output(ss)),
            DaemonEvent::ModelList(_) => Shown::Nothing,
        }
    }
}

/// The session file `mobius -s <pid>` switches to: `<pid>.json`, when the
/// value reads as a process id.
pub fn session_file_for(value: &str) -> (r: Option<String>)
    ensures
        match parse_unsigned(value@, u32::MAX as nat) {
            Some(n) => r matches Some(f) && f@ == decimal(n) + ".json"@,
            None => r is None,
        },
{
    match parse_usize(value) {
        Some(n) => if n <= 0xFFFF_FFFF {
            let mut v = decimal_chars(n as u64);
            extend_str(&mut v, ".json");
            Some(string_of(&v))
        } else {
            None
        },
        None => None,
    }
}

/// Whether the client starts the daemon before sending a request: when none
/// is running, except for a shutdown request (a daemon is never started just
/// to be stopped).
pub fn needs_daemon_start(req: &IpcRequest, running: bool) -> (r: bool)
    ensures
        r == (!req.shutdown && !running),
{
    !req.shutdown && !running
}

/// The process id `mobius -s <pid>` names, when the value reads as one.
pub fn session_pid(value: &str) -> (r: Option<u32>)
    ensures
        match parse_unsigned(value@, u32::MAX as nat) {
            Some(n) => r == Some(n as u32),
            None => r is None,
        },
{
    match parse_usize(value) {
        Some(n) => if n <= 0xFFFF_FFFF {
            Some(n as u32)
        } else {
            None
        },
        None => None,
    }
}

/// How often the client probes for a daemon it has just started.
pub const MAX_START_ATTEMPTS: u32 = 40;

/// Whether the client waits and probes once more for a daemon it started:
/// while the daemon is not up and fewer than forty probes were made.
pub fn keep_waiting(up: bool, attempts: u32) -> (r: bool)
    ensures
        r == (!up && attempts < MAX_START_ATTEMPTS),
{
    !up && attempts < MAX_START_ATTEMPTS
}

/// The message when the daemon could not be started.
pub fn autostart_error(reason: &str) -> (r: String)
    ensures
        r@ == "❌ Mobius daemon is not running. Failed to auto-start it: "@ + reason@
            + ". You can also start it manually in another terminal with: mobius --start-daemon"@,
{
    let mut v: Vec<char> = Vec::new();
    extend_str(&mut v, "❌ Mobius daemon is not running. Failed to auto-start it: ");
    extend_str(&mut v, reason);
    extend_str(
        &mut v,
        ". You can also start it manually in another terminal with: mobius --start-daemon",
    );
    string_of(&v)
}

/// The message when the daemon could not be reached.
pub fn connect_error(reason: &str) -> (r: String)
    ensures
        r@ == "❌ Failed to connect to Mobius Daemon. Is it running? ("@ + reason@ + ")"@,
{
    let mut v: Vec<char> = Vec::new();
    extend_str(&mut v, "❌ Failed to connect to Mobius Daemon. Is it running? (");
    extend_str(&mut v, reason);
    extend_str(&mut v, ")");
    string_of(&v)
}

/// The message when the daemon process could not be spawned.
pub fn spawn_error(daemon: &str, reason: &str) -> (r: String)
    ensures
        r@ == "Failed to auto-spawn daemon '"@ + daemon@ + "': "@ + reason@,
{
    let mut v: Vec<char> = Vec::new();
    extend_str(&mut v, "Failed to auto-spawn daemon '");
    extend_str(&mut v, daemon);
    extend_str(&mut v, "': ");
    extend_str(&mut v, reason);
    string_of(&v)
}

} // verus!
