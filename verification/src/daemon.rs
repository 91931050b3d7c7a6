//! How the daemon answers a request: which of its duties a request asks for,
//! in the order the daemon checks them, and the replies it sends back. The
//! work in between (files, the network, the model) is done by the caller,
//! which hands the results back to the functions here.
use vstd::prelude::*;
use crate::engine::{level_at, level_name, parse_level, ThinkingLevel, THINKING_LEVEL_COUNT};
use crate::inferences::{engine_for, provider_name, InferenceEngine, ModelInfo};
use crate::ipc::{
    ends_with_one_done, event_views, model_entry_views, opt_text, DaemonEvent, DaemonEventSpec, HistoryEntry, IpcRequest,
    ModelListEntry, ModelListEntrySpec,
};
use crate::session::{get_state_dir, join_path, join_path_exec, state_dir, Session};
use crate::text::{chars_of, decimal, decimal_chars, extend, extend_str, string_of, trim, trimmed};

verus! {

broadcast use vstd::string::group_string_axioms;

/// The socket the single-binary daemon listens on:
/// `~/.local/state/mobius/mobius.sock` below the given home directory.
pub fn get_socket_path(home: &str) -> (r: String)
    ensures
        r@ == join_path(state_dir(home@), "mobius.sock"@),
{
    let d = get_state_dir(home);
    join_path_exec(d.as_str(), "mobius.sock")
}

/// The first duty a request asks of the daemon, in the order it checks them.
#[derive(Debug)]
pub enum Route {
    /// Say goodbye and stop the process.
    Shutdown,
    /// List the stored sessions.
    ListSessions,
    /// Make the session stored at this path the terminal's current one.
    LoadSession(String),
    /// Remove the session stored at this path.
    DeleteSession(String),
    /// Archive the current session and start afresh.
    NewSession,
    /// Pick a model by its number in the listing, then go on.
    SelectModel(usize),
    /// None of these: the rest of the request is looked at with the session.
    Continue,
}

/// Decides which duty a request asks for first: shutting down, listing,
/// loading or deleting sessions, a fresh session, or a model selection.
pub fn route(req: &IpcRequest) -> (r: Route)
    ensures
        if req.shutdown {
            r is Shutdown
        } else if req.list_sessions {
            r is ListSessions
        } else if req.load_session is Some {
            r matches Route::LoadSession(p) && opt_text(req.load_session) == Some(p@)
        } else if req.delete_session is Some {
            r matches Route::DeleteSession(p) && opt_text(req.delete_session) == Some(p@)
        } else if req.new_session {
            r is NewSession
        } else if req.model_number is Some {
            r matches Route::SelectModel(n) && req.model_number == Some(n)
        } else {
            r is Continue
        },
{
    if req.shutdown {
        Route::Shutdown
    } else if req.list_sessions {
        Route::ListSessions
    } else if let Some(p) = &req.load_session {
        Route::LoadSession(p.clone())
    } else if let Some(p) = &req.delete_session {
        Route::DeleteSession(p.clone())
    } else if req.new_session {
        Route::NewSession
    } else if let Some(n) = req.model_number {
        Route::SelectModel(n)
    } else {
        Route::Continue
    }
}

/// A request to the single-binary daemon: record a terminal command,
/// shut down, or hold a conversation.
#[derive(Debug)]
pub enum LocalRoute {
    RecordHistory(HistoryEntry),
    Shutdown,
    Converse,
}

/// Decides what a request to the single-binary daemon asks for.
pub fn local_route(req: &IpcRequest) -> (r: LocalRoute)
    ensures
        match req.record_history {
            Some(e) => r matches LocalRoute::RecordHistory(f) && f@ == e@,
            None => if req.shutdown {
                r is Shutdown
            } else {
                r is Converse
            },
        },
{
    match &req.record_history {
        Some(e) => LocalRoute::RecordHistory(e.duplicate()),
        None => if req.shutdown {
            LocalRoute::Shutdown
        } else {
            LocalRoute::Converse
        },
    }
}

/// What the single-binary daemon answers a shutdown request with.
pub fn local_shutdown_message() -> (r: &'static str)
    ensures
        r@ == "[\x1B[32mOK\x1B[0m] Mobius daemon shut down successfully.\n"@,
{
    "[\x1B[32mOK\x1B[0m] Mobius daemon shut down successfully.\n"
}

fn text_event(s: &str) -> (e: DaemonEvent)
    ensures
        e@ == DaemonEventSpec::Info(s@),
{
    DaemonEvent::Info(s.to_string())
}

fn error_event(s: &str) -> (e: DaemonEvent)
    ensures
        e@ == DaemonEventSpec::Error(s@),
{
    DaemonEvent::Error(s.to_string())
}

/// An event followed by the end marker.
fn then_done(e: DaemonEvent) -> (r: Vec<DaemonEvent>)
    ensures
        event_views(r@) == seq![e@, DaemonEventSpec::Done],
{
    let ghost ev = e@;
    let mut v: Vec<DaemonEvent> = Vec::new();
    v.push(e);
    v.push(DaemonEvent::Done);
    assert(event_views(v@) =~= seq![ev, DaemonEventSpec::Done]);
    v
}

/// The end marker alone.
fn done_only() -> (r: Vec<DaemonEvent>)
    ensures
        event_views(r@) == seq![DaemonEventSpec::Done],
{
    let mut v: Vec<DaemonEvent> = Vec::new();
    v.push(DaemonEvent::Done);
    assert(event_views(v@) =~= seq![DaemonEventSpec::Done]);
    v
}

/// The events sent before the daemon stops.
pub fn shutdown_events() -> (r: Vec<DaemonEvent>)
    ensures
        ends_with_one_done(event_views(r@)),
        event_views(r@) == seq![
            DaemonEventSpec::Info("Mobius daemon shutting down...\n"@),
            DaemonEventSpec::Done,
        ],
{
    then_done(text_event("Mobius daemon shutting down...\n"))
}

/// The events that answer a session load: the loaded messages (as the JSON
/// text the caller serialised) or a failure.
pub fn load_session_events(messages_json: Option<String>) -> (r: Vec<DaemonEvent>)
    ensures
        ends_with_one_done(event_views(r@)),
        event_views(r@) == match messages_json {
            Some(j) => seq![DaemonEventSpec::TextChunk(j@), DaemonEventSpec::Done],
            None => seq![DaemonEventSpec::Error("Failed to load session"@), DaemonEventSpec::Done],
        },
{
    match messages_json {
        Some(j) => then_done(DaemonEvent::TextChunk(j)),
        None => then_done(error_event("Failed to load session")),
    }
}

/// The name of the file that holds a terminal's current session.
pub open spec fn active_file_name(ppid: u32) -> Seq<char> {
    decimal(ppid as nat) + ".json"@
}

/// The last component of a path, as `Path::file_name` gives it (no name for
/// a path that ends in `..` or is a root or empty).
pub uninterp spec fn path_file_name(path: Seq<char>) -> Option<Seq<char>>;

/// `Path::file_name` of a path given as text: the last component, if any.
#[verifier::external_body]
fn file_name_of(path: &str) -> (r: Option<String>)
    ensures
        opt_text(r) == path_file_name(path@),
{
    std::path::Path::new(path).file_name().map(|f| f.to_string_lossy().to_string())
}

/// Whether a session file is the terminal's current one: its file name is
/// `<ppid>.json`.
pub open spec fn is_active_session(path: Seq<char>, ppid: u32) -> bool {
    path_file_name(path) == Some(active_file_name(ppid))
}

/// Whether the session at `path` may be deleted: not while it is the
/// terminal's current session.
pub fn may_delete_session(path: &str, ppid: u32) -> (r: bool)
    ensures
        r == !is_active_session(path@, ppid),
{
    let mut name = decimal_chars(ppid as u64);
    extend_str(&mut name, ".json");
    match file_name_of(path) {
        Some(f) => {
            let fv = chars_of(f.as_str());
            !crate::text::seq_eq(&fv, &name)
        },
        None => true,
    }
}

/// The events that answer a deletion: refused for the current session, the
/// reason when removing the file failed, and the end marker.
pub fn delete_session_events(allowed: bool, removal_error: Option<String>) -> (r: Vec<DaemonEvent>)
    ensures
        ends_with_one_done(event_views(r@)),
        event_views(r@) == if !allowed {
            seq![
                DaemonEventSpec::Error("Cannot delete the currently active session"@),
                DaemonEventSpec::Done,
            ]
        } else {
            match removal_error {
                Some(e) => seq![
                    DaemonEventSpec::Error("Failed to delete session: "@ + e@),
                    DaemonEventSpec::Done,
                ],
                None => seq![DaemonEventSpec::Done],
            }
        },
{
    if !allowed {
        then_done(error_event("Cannot delete the currently active session"))
    } else {
        match removal_error {
            Some(e) => {
                let mut v: Vec<char> = Vec::new();
                extend_str(&mut v, "Failed to delete session: ");
                extend_str(&mut v, e.as_str());
                then_done(DaemonEvent::Error(string_of(&v)))
            },
            None => done_only(),
        }
    }
}

/// The events that confirm a fresh session.
pub fn new_session_events() -> (r: Vec<DaemonEvent>)
    ensures
        ends_with_one_done(event_views(r@)),
        event_views(r@) == seq![
            DaemonEventSpec::Info("✨ Started fresh session for this terminal.\n"@),
            DaemonEventSpec::Done,
        ],
{
    then_done(text_event("✨ Started fresh session for this terminal.\n"))
}

/// The message that confirms a model selection.
pub open spec fn switch_message(n: usize, display_name: Seq<char>) -> Seq<char> {
    "🔄 Switched to ["@ + decimal(n as nat) + "] "@ + display_name + "\n"@
}

/// The message that refuses a model number out of range.
pub open spec fn bad_model_message(n: usize) -> Seq<char> {
    "Invalid model selection: ["@ + decimal(n as nat)
        + "]. Use `mobius -m` to list available models.\n"@
}

/// Selects the `n`-th listed model (counting from 1) for the session: its
/// engine's provider name and its model name are stored, and the
/// confirmation is returned. A number out of range leaves the session as it
/// was and gives the refusal.
pub fn select_model(session: &mut Session, n: usize, models: &Vec<ModelInfo>) -> (r: Result<String, String>)
    ensures
        if 0 < n <= models@.len() {
            &&& r matches Ok(m) && m@ == switch_message(n, models@[n - 1].display_name@)
            &&& opt_text(final(session).model_provider) == Some(provider_name(models@[n - 1].engine))
            &&& opt_text(final(session).model_name) == Some(models@[n - 1].model_name@)
            &&& *final(session) == (Session {
                model_provider: final(session).model_provider,
                model_name: final(session).model_name,
                ..*old(session)
            })
        } else {
            &&& r matches Err(m) && m@ == bad_model_message(n)
            &&& *final(session) == *old(session)
        },
{
    let digits = decimal_chars(n as u64);
    if n > 0 && n <= models.len() {
        let choice = &models[n - 1];
        session.model_provider = Some(choice.engine.as_provider_str().to_string());
        session.model_name = Some(choice.model_name.clone());
        let mut v: Vec<char> = Vec::new();
        extend_str(&mut v, "🔄 Switched to [");
        extend(&mut v, &digits);
        extend_str(&mut v, "] ");
        extend_str(&mut v, choice.display_name.as_str());
        extend_str(&mut v, "\n");
        Ok(string_of(&v))
    } else {
        let mut v: Vec<char> = Vec::new();
        extend_str(&mut v, "Invalid model selection: [");
        extend(&mut v, &digits);
        extend_str(&mut v, "]. Use `mobius -m` to list available models.\n");
        Err(string_of(&v))
    }
}

/// The events that answer a refused model selection.
pub fn bad_model_events(message: String) -> (r: Vec<DaemonEvent>)
    ensures
        ends_with_one_done(event_views(r@)),
        event_views(r@) == seq![DaemonEventSpec::Error(message@), DaemonEventSpec::Done],
{
    then_done(DaemonEvent::Error(message))
}

/// What remains of a request once the session is at hand.
#[derive(Debug)]
pub enum Rest {
    /// Send these events; the request is answered.
    Reply(Vec<DaemonEvent>),
    /// Store the changed session, then send these events.
    SaveAndReply(Vec<DaemonEvent>),
    /// Send the model listing as entries.
    ModelList,
    /// Send the model listing as text.
    ModelQuery,
    /// Report whether this provider is reachable.
    LlmStatus(String),
    /// Hold a conversation about the prompt.
    Converse,
}

/// A stored setting, or a default when none is stored.
pub open spec fn stored_or(o: Option<Seq<char>>, d: Seq<char>) -> Seq<char> {
    match o {
        Some(s) => s,
        None => d,
    }
}

/// The marker in front of the current entry of a listing.
pub open spec fn marker(current: bool) -> Seq<char> {
    if current {
        "➡"@
    } else {
        "  "@
    }
}

/// One line of the thinking level listing.
pub open spec fn level_line(i: int, current: Seq<char>) -> Seq<char> {
    "  "@ + marker(level_name(level_at(i)) == current) + " ["@ + decimal(i as nat) + "] "@
        + level_name(level_at(i)) + "\n"@
}

/// The first `n` lines of the thinking level listing.
pub open spec fn level_lines(n: nat, current: Seq<char>) -> Seq<char>
    decreases n,
{
    if n == 0 {
        Seq::empty()
    } else {
        level_lines((n - 1) as nat, current) + level_line(n - 1, current)
    }
}

/// The thinking level listing, with the current level marked.
pub open spec fn thinking_listing(current: Seq<char>) -> Seq<char> {
    "🧠 Current Thinking Level: "@ + current + "\n\n"@ + "Available Levels:\n"@ + level_lines(
        THINKING_LEVEL_COUNT as nat,
        current,
    )
}

fn thinking_listing_text(current: &str) -> (r: String)
    ensures
        r@ == thinking_listing(current@),
{
    let cur = chars_of(current);
    let levels = ThinkingLevel::all();
    let mut v: Vec<char> = Vec::new();
    extend_str(&mut v, "🧠 Current Thinking Level: ");
    extend_str(&mut v, current);
    extend_str(&mut v, "\n\n");
    extend_str(&mut v, "Available Levels:\n");
    let ghost head = v@;
    let mut i: usize = 0;
    while i < levels.len()
        invariant
            levels@.len() == THINKING_LEVEL_COUNT,
            forall|j: int| 0 <= j < THINKING_LEVEL_COUNT ==> #[trigger] levels@[j] == level_at(j),
            cur@ == current@,
            i <= levels.len(),
            v@ == head + level_lines(i as nat, current@),
        decreases levels.len() - i,
    {
        let name = levels[i].as_str();
        let nv = chars_of(name);
        assert(levels@[i as int] == level_at(i as int));
        extend_str(&mut v, "  ");
        if crate::text::seq_eq(&nv, &cur) {
            extend_str(&mut v, "➡");
        } else {
            extend_str(&mut v, "  ");
        }
        extend_str(&mut v, " [");
        let d = decimal_chars(i as u64);
        extend(&mut v, &d);
        extend_str(&mut v, "] ");
        extend_str(&mut v, name);
        extend_str(&mut v, "\n");
        assert(v@ =~= head + level_lines((i + 1) as nat, current@));
        i += 1;
    }
    string_of(&v)
}

/// The message that refuses an unknown thinking level.
pub open spec fn bad_level_message(level: Seq<char>) -> Seq<char> {
    "Invalid thinking level: '"@ + level + "'. Use `mobius -t` to list available levels.\n"@
}

/// Whether a prompt holds nothing but white space.
pub open spec fn blank(s: Seq<char>) -> bool {
    trim(s).len() == 0
}

fn is_blank(s: &str) -> (r: bool)
    ensures
        r == blank(s@),
{
    let v = chars_of(s);
    trimmed(&v).len() == 0
}

/// Decides the rest of a request, in the daemon's order: a model switch
/// without a prompt is confirmed; the model listing (as entries or as text)
/// and the thinking listing are answered; a thinking level without a prompt
/// is checked and stored; a provider status is reported; an empty prompt
/// ends the request; anything else starts a conversation.
pub fn route_rest(req: &IpcRequest, session: &mut Session, switch_msg: Option<String>) -> (r: Rest)
    ensures
        match r {
            Rest::Reply(ev) => ends_with_one_done(event_views(ev@)),
            Rest::SaveAndReply(ev) => ends_with_one_done(event_views(ev@)),
            _ => true,
        },
        ({
            let prompt_blank = blank(req.prompt@);
            if prompt_blank && !req.query_model && !req.query_model_list && switch_msg is Some {
                &&& r matches Rest::Reply(ev) && event_views(ev@) == seq![
                    DaemonEventSpec::Info(switch_msg->0@),
                    DaemonEventSpec::Done,
                ]
                &&& *final(session) == *old(session)
            } else if req.query_model_list {
                r is ModelList && *final(session) == *old(session)
            } else if req.query_model {
                r is ModelQuery && *final(session) == *old(session)
            } else if req.query_thinking {
                &&& r matches Rest::Reply(ev) && event_views(ev@) == seq![
                    DaemonEventSpec::Info(thinking_listing(stored_or(opt_text(old(session).thinking_level), "off"@))),
                    DaemonEventSpec::Done,
                ]
                &&& *final(session) == *old(session)
            } else if req.thinking_level_override is Some && prompt_blank {
                let level = req.thinking_level_override->0@;
                if parse_level(level) is None {
                    &&& r matches Rest::Reply(ev) && event_views(ev@) == seq![
                        DaemonEventSpec::Error(bad_level_message(level)),
                        DaemonEventSpec::Done,
                    ]
                    &&& *final(session) == *old(session)
                } else {
                    &&& r matches Rest::SaveAndReply(ev) && event_views(ev@) == seq![
                        DaemonEventSpec::Info("🧠 Thinking level set to: "@ + level + "\n"@),
                        DaemonEventSpec::Done,
                    ]
                    &&& opt_text(final(session).thinking_level) == Some(level)
                    &&& *final(session) == (Session {
                        thinking_level: final(session).thinking_level,
                        ..*old(session)
                    })
                }
            } else if req.query_llm_status {
                &&& r matches Rest::LlmStatus(p) && p@ == stored_or(
                    opt_text(req.llm_provider),
                    stored_or(opt_text(old(session).model_provider), "llama"@),
                )
                &&& *final(session) == *old(session)
            } else if prompt_blank {
                &&& r matches Rest::Reply(ev) && event_views(ev@) == seq![DaemonEventSpec::Done]
                &&& *final(session) == *old(session)
            } else {
                r is Converse && *final(session) == *old(session)
            }
        }),
{
    let prompt_blank = is_blank(req.prompt.as_str());
    if prompt_blank && !req.query_model && !req.query_model_list {
        if let Some(m) = switch_msg {
            return Rest::Reply(then_done(DaemonEvent::Info(m)));
        }
    }
    if req.query_model_list {
        return Rest::ModelList;
    }
    if req.query_model {
        return Rest::ModelQuery;
    }
    if req.query_thinking {
        let text = match &session.thinking_level {
            Some(t) => thinking_listing_text(t.as_str()),
            None => thinking_listing_text("off"),
        };
        return Rest::Reply(then_done(DaemonEvent::Info(text)));
    }
    if prompt_blank {
        if let Some(level) = &req.thinking_level_override {
            if ThinkingLevel::from_str(level.as_str()).is_none() {
                let mut v: Vec<char> = Vec::new();
                extend_str(&mut v, "Invalid thinking level: '");
                extend_str(&mut v, level.as_str());
                extend_str(&mut v, "'. Use `mobius -t` to list available levels.\n");
                return Rest::Reply(then_done(DaemonEvent::Error(string_of(&v))));
            }
            session.thinking_level = Some(level.clone());
            let mut v: Vec<char> = Vec::new();
            extend_str(&mut v, "🧠 Thinking level set to: ");
            extend_str(&mut v, level.as_str());
            extend_str(&mut v, "\n");
            return Rest::SaveAndReply(then_done(DaemonEvent::Info(string_of(&v))));
        }
    }
    if req.query_llm_status {
        let p = match &req.llm_provider {
            Some(p) => p.clone(),
            None => match &session.model_provider {
                Some(p) => p.clone(),
                None => "llama".to_string(),
            },
        };
        return Rest::LlmStatus(p);
    }
    if prompt_blank {
        return Rest::Reply(done_only());
    }
    Rest::Converse
}

/// The first listed model served by an engine, from position `i` on.
pub open spec fn first_with_engine(ms: Seq<ModelInfo>, e: InferenceEngine, i: int) -> Option<int>
    decreases ms.len() - i,
{
    if i < 0 || i >= ms.len() {
        None
    } else if ms[i].engine == e {
        Some(i)
    } else {
        first_with_engine(ms, e, i + 1)
    }
}

/// The name of the first listed model an engine serves.
pub open spec fn engine_model(ms: Seq<ModelInfo>, e: InferenceEngine) -> Option<Seq<char>> {
    match first_with_engine(ms, e, 0) {
        Some(i) => Some(ms[i].model_name@),
        None => None,
    }
}

fn find_engine_model(models: &Vec<ModelInfo>, e: InferenceEngine) -> (r: Option<&ModelInfo>)
    ensures
        match first_with_engine(models@, e, 0) {
            Some(i) => r matches Some(m) && *m == models@[i],
            None => r is None,
        },
{
    let mut i: usize = 0;
    while i < models.len()
        invariant
            i <= models.len(),
            first_with_engine(models@, e, 0) == first_with_engine(models@, e, i as int),
        decreases models.len() - i,
    {
        if models[i].engine == e {
            return Some(&models[i]);
        }
        i += 1;
    }
    None
}

/// The model a conversation uses: the one stored in the session, else the
/// first one listed for the session's engine, else `default`.
pub open spec fn conversation_model_name(session: Session, ms: Seq<ModelInfo>) -> Seq<char> {
    match opt_text(session.model_name) {
        Some(m) => m,
        None => match engine_model(ms, engine_for(stored_or(opt_text(session.model_provider), "llama"@))) {
            Some(m) => m,
            None => "default"@,
        },
    }
}

/// Picks the model a conversation uses.
pub fn conversation_model(session: &Session, models: &Vec<ModelInfo>) -> (r: String)
    ensures
        r@ == conversation_model_name(*session, models@),
{
    match &session.model_name {
        Some(m) => m.clone(),
        None => {
            let engine = match &session.model_provider {
                Some(p) => InferenceEngine::from_provider(p.as_str()),
                None => InferenceEngine::from_provider("llama"),
            };
            match find_engine_model(models, engine) {
                Some(m) => m.model_name.clone(),
                None => "default".to_string(),
            }
        },
    }
}

/// The events that report a provider's status: whether one of its models is
/// listed, and the model in use (the session's, else the listed one).
pub fn llm_status_events(provider: &str, session: &Session, models: &Vec<ModelInfo>) -> (r: Vec<DaemonEvent>)
    ensures
        ends_with_one_done(event_views(r@)),
        event_views(r@) == seq![
            DaemonEventSpec::LlmStatus {
                connected: first_with_engine(models@, engine_for(provider@), 0) is Some,
                provider: provider@,
                model_name: match opt_text(session.model_name) {
                    Some(m) => Some(m),
                    None => engine_model(models@, engine_for(provider@)),
                },
            },
            DaemonEventSpec::Done,
        ],
{
    let engine = InferenceEngine::from_provider(provider);
    let found = find_engine_model(models, engine);
    let model_name = match &session.model_name {
        Some(m) => Some(m.clone()),
        None => match found {
            Some(m) => Some(m.model_name.clone()),
            None => None,
        },
    };
    then_done(
        DaemonEvent::LlmStatus { connected: found.is_some(), provider: provider.to_string(), model_name },
    )
}

/// One entry of the model listing: numbered from 1, marked when it is the
/// session's model.
pub open spec fn model_entry(ms: Seq<ModelInfo>, i: int, current: Option<Seq<char>>) -> ModelListEntrySpec {
    ModelListEntrySpec {
        provider: provider_name(ms[i].engine),
        model_name: ms[i].model_name@,
        display_name: "["@ + decimal((i + 1) as nat) + "] "@ + ms[i].display_name@,
        selected: current == Some(ms[i].model_name@),
    }
}

/// The events that send the model listing as entries.
pub fn model_list_events(session: &Session, models: &Vec<ModelInfo>) -> (r: Vec<DaemonEvent>)
    ensures
        ends_with_one_done(event_views(r@)),
        event_views(r@) == seq![
            DaemonEventSpec::ModelList(
                Seq::new(models@.len(), |i: int| model_entry(models@, i, opt_text(session.model_name))),
            ),
            DaemonEventSpec::Done,
        ],
{
    let ghost current = opt_text(session.model_name);
    let mut entries: Vec<ModelListEntry> = Vec::new();
    let mut i: usize = 0;
    while i < models.len()
        invariant
            i <= models.len(),
            current == opt_text(session.model_name),
            model_entry_views(entries@) == Seq::new(i as nat, |j: int| model_entry(models@, j, current)),
        decreases models.len() - i,
    {
        let m = &models[i];
        let mut d: Vec<char> = Vec::new();
        extend_str(&mut d, "[");
        let digits = decimal_chars((i + 1) as u64);
        extend(&mut d, &digits);
        extend_str(&mut d, "] ");
        extend_str(&mut d, m.display_name.as_str());
        let selected = match &session.model_name {
            Some(n) => {
                let nv = chars_of(n.as_str());
                let mv = chars_of(m.model_name.as_str());
                crate::text::seq_eq(&nv, &mv)
            },
            None => false,
        };
        let ghost prev = model_entry_views(entries@);
        entries.push(
            ModelListEntry {
                provider: m.engine.as_provider_str().to_string(),
                model_name: m.model_name.clone(),
                display_name: string_of(&d),
                selected,
            },
        );
        assert(model_entry_views(entries@) =~= prev.push(entries@[i as int]@));
        assert(model_entry_views(entries@) =~= Seq::new((i + 1) as nat, |j: int| model_entry(models@, j, current)));
        i += 1;
    }
    then_done(DaemonEvent::ModelList(entries))
}

/// One line of the model listing text.
pub open spec fn model_line(ms: Seq<ModelInfo>, i: int, current: Option<Seq<char>>) -> Seq<char> {
    "  "@ + marker(current == Some(ms[i].model_name@)) + " ["@ + decimal((i + 1) as nat) + "] "@
        + provider_name(ms[i].engine) + ": "@ + ms[i].model_name@ + "\n"@
}

/// The first `n` lines of the model listing text.
pub open spec fn model_lines(ms: Seq<ModelInfo>, n: nat, current: Option<Seq<char>>) -> Seq<char>
    decreases n,
{
    if n == 0 {
        Seq::empty()
    } else {
        model_lines(ms, (n - 1) as nat, current) + model_line(ms, n - 1, current)
    }
}

/// The model listing as text: the provider, the session's model, and the
/// models the engines offer, or a hint when none is running.
pub open spec fn model_query_text(provider: Seq<char>, current: Option<Seq<char>>, ms: Seq<ModelInfo>) -> Seq<char> {
    "🤖 Active Provider: "@ + provider + "\n"@ + (match current {
        Some(m) => "   Current Model:   "@ + m + "\n"@,
        None => Seq::empty(),
    }) + if ms.len() == 0 {
        "\n⚠️ No local models detected. Start llama.cpp (8080), Ollama (11434), or LM Studio (1234).\n"@
    } else {
        "\nAvailable Models:\n"@ + model_lines(ms, ms.len(), current)
            + "\nSelect by number, e.g. `mobius -m 2`.\n"@
    }
}

fn model_line_text(models: &Vec<ModelInfo>, i: usize, current: &Option<String>) -> (r: Vec<char>)
    requires
        i < models.len(),
    ensures
        r@ == model_line(models@, i as int, opt_text(*current)),
{
    let m = &models[i];
    let selected = match current {
        Some(n) => {
            let nv = chars_of(n.as_str());
            let mv = chars_of(m.model_name.as_str());
            crate::text::seq_eq(&nv, &mv)
        },
        None => false,
    };
    let mut v: Vec<char> = Vec::new();
    extend_str(&mut v, "  ");
    if selected {
        extend_str(&mut v, "➡");
    } else {
        extend_str(&mut v, "  ");
    }
    extend_str(&mut v, " [");
    let digits = decimal_chars((i + 1) as u64);
    extend(&mut v, &digits);
    extend_str(&mut v, "] ");
    extend_str(&mut v, m.engine.as_provider_str());
    extend_str(&mut v, ": ");
    extend_str(&mut v, m.model_name.as_str());
    extend_str(&mut v, "\n");
    v
}

fn model_lines_text(models: &Vec<ModelInfo>, current: &Option<String>) -> (r: Vec<char>)
    ensures
        r@ == model_lines(models@, models@.len(), opt_text(*current)),
{
    let mut v: Vec<char> = Vec::new();
    let mut i: usize = 0;
    while i < models.len()
        invariant
            i <= models.len(),
            v@ == model_lines(models@, i as nat, opt_text(*current)),
        decreases models.len() - i,
    {
        let line = model_line_text(models, i, current);
        extend(&mut v, &line);
        i += 1;
    }
    v
}

/// The events that send the model listing as text.
pub fn model_query_events(session: &Session, models: &Vec<ModelInfo>) -> (r: Vec<DaemonEvent>)
    ensures
        ends_with_one_done(event_views(r@)),
        event_views(r@) == seq![
            DaemonEventSpec::Info(
                model_query_text(
                    stored_or(opt_text(session.model_provider), "llama"@),
                    opt_text(session.model_name),
                    models@,
                ),
            ),
            DaemonEventSpec::Done,
        ],
{
    let mut v: Vec<char> = Vec::new();
    extend_str(&mut v, "🤖 Active Provider: ");
    match &session.model_provider {
        Some(p) => extend_str(&mut v, p.as_str()),
        None => extend_str(&mut v, "llama"),
    }
    extend_str(&mut v, "\n");
    let ghost a = v@;
    let mut cur: Vec<char> = Vec::new();
    match &session.model_name {
        Some(m) => {
            extend_str(&mut cur, "   Current Model:   ");
            extend_str(&mut cur, m.as_str());
            extend_str(&mut cur, "\n");
        },
        None => {},
    }
    let mut tail: Vec<char> = Vec::new();
    if models.len() == 0 {
        extend_str(
            &mut tail,
            "\n⚠️ No local models detected. Start llama.cpp (8080), Ollama (11434), or LM Studio (1234).\n",
        );
    } else {
        extend_str(&mut tail, "\nAvailable Models:\n");
        let lines = model_lines_text(models, &session.model_name);
        extend(&mut tail, &lines);
        extend_str(&mut tail, "\nSelect by number, e.g. `mobius -m 2`.\n");
    }
    extend(&mut v, &cur);
    extend(&mut v, &tail);
    then_done(DaemonEvent::Info(string_of(&v)))
}

/// The events that end a conversation turn: the model's failure, if the
/// turn stopped on one, then the end marker.
pub fn turn_end_events(failure: Option<String>) -> (r: Vec<DaemonEvent>)
    ensures
        event_views(r@) == match failure {
            Some(e) => seq![DaemonEventSpec::Error(e@), DaemonEventSpec::Done],
            None => seq![DaemonEventSpec::Done],
        },
        ends_with_one_done(event_views(r@)),
{
    match failure {
        Some(e) => then_done(DaemonEvent::Error(e)),
        None => done_only(),
    }
}

/// The event that reports the token figures the session holds after a reply.
pub fn usage_event(session: &Session) -> (e: DaemonEvent)
    ensures
        e@ == (DaemonEventSpec::TokenUsage {
            prompt: session.last_prompt_tokens,
            completion: session.last_completion_tokens,
            context_window: session.context_window,
        }),
{
    DaemonEvent::TokenUsage {
        prompt: session.last_prompt_tokens,
        completion: session.last_completion_tokens,
        context_window: session.context_window,
    }
}

} // verus!
