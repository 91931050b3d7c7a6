//! The messages that travel between the client and the daemon.
use vstd::prelude::*;

verus! {

/// A recorded terminal command and its output.
#[derive(Debug, Clone)]
pub struct HistoryEntry {
    pub command: String,
    pub output: String,
}

pub struct HistoryEntrySpec {
    pub command: Seq<char>,
    pub output: Seq<char>,
}

impl View for HistoryEntry {
    type V = HistoryEntrySpec;

    open spec fn view(&self) -> HistoryEntrySpec {
        HistoryEntrySpec { command: self.command@, output: self.output@ }
    }
}

impl HistoryEntry {
    /// A copy of the entry.
    pub fn duplicate(&self) -> (r: HistoryEntry)
        ensures
            r@ == self@,
    {
        HistoryEntry { command: self.command.clone(), output: self.output.clone() }
    }
}

/// The payload sent from a client to the background daemon.
#[derive(Debug)]
pub struct IpcRequest {
    pub ppid: u32,
    pub prompt: String,
    pub thinking_level_override: Option<String>,
    pub model_override: Option<String>,
    /// A model picked by its number in the listing (`mobius -m <n>`).
    pub model_number: Option<usize>,
    pub new_session: bool,
    pub query_tokens: bool,
    pub query_model: bool,
    /// The model listing as structured entries (for graphical clients).
    pub query_model_list: bool,
    pub query_thinking: bool,
    /// Whether the provider is reachable (for graphical clients).
    pub query_llm_status: bool,
    /// The provider asked about by `query_llm_status`.
    pub llm_provider: Option<String>,
    pub shutdown: bool,
    pub record_history: Option<HistoryEntry>,
    pub list_sessions: bool,
    pub load_session: Option<String>,
    pub delete_session: Option<String>,
}

/// Serializable session metadata for transport.
#[derive(Debug, Clone)]
pub struct SessionMetadata {
    pub filename: String,
    pub path: String,
    pub preview: String,
    pub is_active: bool,
    pub message_count: usize,
}

pub struct SessionMetadataSpec {
    pub filename: Seq<char>,
    pub path: Seq<char>,
    pub preview: Seq<char>,
    pub is_active: bool,
    pub message_count: usize,
}

impl View for SessionMetadata {
    type V = SessionMetadataSpec;

    open spec fn view(&self) -> SessionMetadataSpec {
        SessionMetadataSpec {
            filename: self.filename@,
            path: self.path@,
            preview: self.preview@,
            is_active: self.is_active,
            message_count: self.message_count,
        }
    }
}

/// One model of the listing a graphical client shows.
#[derive(Debug, Clone)]
pub struct ModelListEntry {
    pub provider: String,
    pub model_name: String,
    pub display_name: String,
    pub selected: bool,
}

pub struct ModelListEntrySpec {
    pub provider: Seq<char>,
    pub model_name: Seq<char>,
    pub display_name: Seq<char>,
    pub selected: bool,
}

impl View for ModelListEntry {
    type V = ModelListEntrySpec;

    open spec fn view(&self) -> ModelListEntrySpec {
        ModelListEntrySpec {
            provider: self.provider@,
            model_name: self.model_name@,
            display_name: self.display_name@,
            selected: self.selected,
        }
    }
}

/// The structured events sent back from the daemon to a client.
#[derive(Debug)]
pub enum DaemonEvent {
    ThinkingChunk(String),
    TextChunk(String),
    ToolStart { tool_name: String, details: String },
    ToolFinished { result: String },
    TokenUsage { prompt: usize, completion: usize, context_window: usize },
    LlmStatus { connected: bool, provider: String, model_name: Option<String> },
    Info(String),
    Error(String),
    Done,
    SessionList(Vec<SessionMetadata>),
    ModelList(Vec<ModelListEntry>),
}

/// The contents of an event.
pub enum DaemonEventSpec {
    ThinkingChunk(Seq<char>),
    TextChunk(Seq<char>),
    ToolStart { tool_name: Seq<char>, details: Seq<char> },
    ToolFinished { result: Seq<char> },
    TokenUsage { prompt: usize, completion: usize, context_window: usize },
    LlmStatus { connected: bool, provider: Seq<char>, model_name: Option<Seq<char>> },
    Info(Seq<char>),
    Error(Seq<char>),
    Done,
    SessionList(Seq<SessionMetadataSpec>),
    ModelList(Seq<ModelListEntrySpec>),
}

pub open spec fn metadata_views(v: Seq<SessionMetadata>) -> Seq<SessionMetadataSpec> {
    Seq::new(v.len(), |i: int| v[i]@)
}

pub open spec fn model_entry_views(v: Seq<ModelListEntry>) -> Seq<ModelListEntrySpec> {
    Seq::new(v.len(), |i: int| v[i]@)
}

pub open spec fn opt_text(o: Option<String>) -> Option<Seq<char>> {
    match o {
        Some(s) => Some(s@),
        None => None,
    }
}

impl View for DaemonEvent {
    type V = DaemonEventSpec;

    open spec fn view(&self) -> DaemonEventSpec {
        match self {
            DaemonEvent::ThinkingChunk(s) => DaemonEventSpec::ThinkingChunk(s@),
            DaemonEvent::TextChunk(s) => DaemonEventSpec::TextChunk(s@),
            DaemonEvent::ToolStart { tool_name, details } => DaemonEventSpec::ToolStart {
                tool_name: tool_name@,
                details: details@,
            },
            DaemonEvent::ToolFinished { result } => DaemonEventSpec::ToolFinished { result: result@ },
            DaemonEvent::TokenUsage { prompt, completion, context_window } => DaemonEventSpec::TokenUsage {
                prompt: *prompt,
                completion: *completion,
                context_window: *context_window,
            },
            DaemonEvent::LlmStatus { connected, provider, model_name } => DaemonEventSpec::LlmStatus {
                connected: *connected,
                provider: provider@,
                model_name: opt_text(*model_name),
            },
            DaemonEvent::Info(s) => DaemonEventSpec::Info(s@),
            DaemonEvent::Error(s) => DaemonEventSpec::Error(s@),
            DaemonEvent::Done => DaemonEventSpec::Done,
            DaemonEvent::SessionList(l) => DaemonEventSpec::SessionList(metadata_views(l@)),
            DaemonEvent::ModelList(l) => DaemonEventSpec::ModelList(model_entry_views(l@)),
        }
    }
}

/// The views of a list of events.
pub open spec fn event_views(v: Seq<DaemonEvent>) -> Seq<DaemonEventSpec> {
    Seq::new(v.len(), |i: int| v[i]@)
}

/// A request's events end with the end marker, and only there.
pub open spec fn ends_with_one_done(ev: Seq<DaemonEventSpec>) -> bool {
    &&& ev.len() > 0
    &&& ev.last() is Done
    &&& forall|i: int| 0 <= i < ev.len() - 1 ==> !(#[trigger] ev[i] is Done)
}

} // verus!
