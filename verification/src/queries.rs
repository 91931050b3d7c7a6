//! The single-binary client: what it does for a command line without a
//! prompt (the settings it shows or changes), and the prompt it sends with
//! recorded terminal history.
use vstd::prelude::*;
use crate::cli::{opt_action_view, CliArgs, FlagAction, FlagActionSpec};
use crate::engine::parse_level;
use crate::inferences::{provider_is, provider_matches, ModelInfo};
use crate::ipc::{opt_text, HistoryEntry, HistoryEntrySpec};
use crate::session::{entry_views, Session};
use crate::text::{chars_of, decimal, decimal_chars, extend, extend_str, string_of, trim, trimmed};

verus! {

broadcast use vstd::string::group_string_axioms;

/// What a command line without a prompt asks for, after an optional fresh
/// session.
#[derive(Debug)]
pub enum Query {
    /// The token use of the session.
    Tokens,
    /// The last `n` recorded terminal commands.
    History(usize),
    /// The current thinking level.
    ThinkingQuery,
    /// Store a thinking level.
    ThinkingSet(String),
    /// The provider and the running models.
    ModelQuery,
    /// Store a provider.
    ModelSet(String),
    /// Nothing more.
    Nothing,
}

/// Decides what a command line without a prompt does: whether the session is
/// archived first (`-n`), then the first of the token use, the history, the
/// thinking level and the model that was asked about.
pub fn plan_queries(args: &CliArgs) -> (r: (bool, Query))
    ensures
        r.0 == args.new_session,
        if args.tokens {
            r.1 is Tokens
        } else if args.last_lines is Some {
            r.1 matches Query::History(n) && args.last_lines == Some(n)
        } else if args.thinking_level is Some {
            match opt_action_view(args.thinking_level) {
                Some(FlagActionSpec::Value(v)) => r.1 matches Query::ThinkingSet(w) && w@ == v,
                _ => r.1 is ThinkingQuery,
            }
        } else {
            match opt_action_view(args.model) {
                Some(FlagActionSpec::Value(v)) => r.1 matches Query::ModelSet(w) && w@ == v,
                Some(FlagActionSpec::Query) => r.1 is ModelQuery,
                None => r.1 is Nothing,
            }
        },
{
    let q = if args.tokens {
        Query::Tokens
    } else if let Some(n) = args.last_lines {
        Query::History(n)
    } else if let Some(a) = &args.thinking_level {
        match a {
            FlagAction::Value(v) => Query::ThinkingSet(v.clone()),
            FlagAction::Query => Query::ThinkingQuery,
        }
    } else {
        match &args.model {
            Some(FlagAction::Value(v)) => Query::ModelSet(v.clone()),
            Some(FlagAction::Query) => Query::ModelQuery,
            None => Query::Nothing,
        }
    };
    (args.new_session, q)
}

/// The tokens used by the last exchange and the context window, which is
/// taken as 8192 when none is known.
pub fn token_counts(session: &Session) -> (r: (usize, usize))
    requires
        session.last_prompt_tokens + session.last_completion_tokens <= usize::MAX,
    ensures
        r.0 == session.last_prompt_tokens + session.last_completion_tokens,
        r.1 == if session.context_window > 0 {
            session.context_window
        } else {
            8192
        },
{
    let used = session.last_prompt_tokens + session.last_completion_tokens;
    let total = if session.context_window > 0 {
        session.context_window
    } else {
        8192
    };
    (used, total)
}

/// One entry of the history listing.
pub open spec fn history_item(i: int, e: HistoryEntrySpec) -> Seq<char> {
    "\n--- ["@ + decimal((i + 1) as nat) + "] $ "@ + e.command + " ---\n"@ + trim(e.output) + "\n"@
}

pub open spec fn history_items(es: Seq<HistoryEntrySpec>, n: nat) -> Seq<char>
    decreases n,
{
    if n == 0 {
        Seq::empty()
    } else {
        history_items(es, (n - 1) as nat) + history_item(n - 1, es[n - 1])
    }
}

/// The history listing of a terminal: a heading, then each entry numbered
/// from 1 with its output trimmed, or a note that nothing was recorded.
pub open spec fn history_listing(ppid: u32, es: Seq<HistoryEntrySpec>) -> Seq<char> {
    "Terminal History (-l / --last): [PID "@ + decimal(ppid as nat) + "]\n"@ + if es.len() == 0 {
        "  ⚠️ No history recorded yet.\n"@
    } else {
        history_items(es, es.len())
    }
}

pub fn history_listing_text(ppid: u32, entries: &Vec<HistoryEntry>) -> (r: String)
    ensures
        r@ == history_listing(ppid, entry_views(entries@)),
{
    let mut v: Vec<char> = Vec::new();
    extend_str(&mut v, "Terminal History (-l / --last): [PID ");
    let d = decimal_chars(ppid as u64);
    extend(&mut v, &d);
    extend_str(&mut v, "]\n");
    if entries.len() == 0 {
        extend_str(&mut v, "  ⚠️ No history recorded yet.\n");
    } else {
        let ghost head = v@;
        let mut i: usize = 0;
        while i < entries.len()
            invariant
                i <= entries.len(),
                v@ == head + history_items(entry_views(entries@), i as nat),
            decreases entries.len() - i,
        {
            let e = &entries[i];
            extend_str(&mut v, "\n--- [");
            let k = decimal_chars((i + 1) as u64);
            extend(&mut v, &k);
            extend_str(&mut v, "] $ ");
            extend_str(&mut v, e.command.as_str());
            extend_str(&mut v, " ---\n");
            let out = chars_of(e.output.as_str());
            let t = trimmed(&out);
            extend(&mut v, &t);
            extend_str(&mut v, "\n");
            assert(entry_views(entries@)[i as int] == e@);
            assert(v@ =~= head + history_items(entry_views(entries@), (i + 1) as nat));
            i += 1;
        }
    }
    string_of(&v)
}

/// What `-t` alone shows.
pub open spec fn thinking_query_text(current: Seq<char>) -> Seq<char> {
    "Thinking Level (-t / --thinking): [QUERY MODE]\n"@ + "  💡 Current Level: "@ + current + "\n"@
        + "  💡 Available Options: off, min/minimal, low, med/medium, high, xhigh, max\n"@
}

pub fn thinking_query_output(session: &Session) -> (r: String)
    ensures
        r@ == thinking_query_text(
            match opt_text(session.thinking_level) {
                Some(t) => t,
                None => "off"@,
            },
        ),
{
    let mut v: Vec<char> = Vec::new();
    extend_str(&mut v, "Thinking Level (-t / --thinking): [QUERY MODE]\n");
    extend_str(&mut v, "  💡 Current Level: ");
    match &session.thinking_level {
        Some(t) => extend_str(&mut v, t.as_str()),
        None => extend_str(&mut v, "off"),
    }
    extend_str(&mut v, "\n");
    extend_str(&mut v, "  💡 Available Options: off, min/minimal, low, med/medium, high, xhigh, max\n");
    string_of(&v)
}

/// Stores a thinking level given by name. A known name is stored as given
/// and confirmed (the session is then to be saved); an unknown one leaves
/// the session as it was and gives the refusal.
pub fn set_thinking_level(session: &mut Session, value: &str, ppid: u32) -> (r: Result<String, String>)
    ensures
        if parse_level(value@) is Some {
            &&& r matches Ok(m) && m@ == "✅ Thinking level set to '"@ + value@
                + "' for current session (PID "@ + decimal(ppid as nat) + ").\n"@
            &&& opt_text(final(session).thinking_level) == Some(value@)
            &&& *final(session) == (Session { thinking_level: final(session).thinking_level, ..*old(session) })
        } else {
            &&& r matches Err(m) && m@ == "❌ Invalid thinking level '"@ + value@ + "'.\n"@
                + "  💡 Available options: off, min/minimal, low, med/medium, high, xhigh, max\n"@
            &&& *final(session) == *old(session)
        },
{
    let mut v: Vec<char> = Vec::new();
    if crate::engine::ThinkingLevel::from_str(value).is_some() {
        session.thinking_level = Some(value.to_string());
        extend_str(&mut v, "✅ Thinking level set to '");
        extend_str(&mut v, value);
        extend_str(&mut v, "' for current session (PID ");
        let d = decimal_chars(ppid as u64);
        extend(&mut v, &d);
        extend_str(&mut v, ").\n");
        Ok(string_of(&v))
    } else {
        extend_str(&mut v, "❌ Invalid thinking level '");
        extend_str(&mut v, value);
        extend_str(&mut v, "'.\n");
        extend_str(&mut v, "  💡 Available options: off, min/minimal, low, med/medium, high, xhigh, max\n");
        Err(string_of(&v))
    }
}

/// `str::to_lowercase`: Unicode lower case of each character, some of which
/// lower to more than one character.
pub uninterp spec fn unicode_lowercase(s: Seq<char>) -> Seq<char>;

/// `str::to_lowercase`.
#[verifier::external_body]
fn lowercase(s: &str) -> (r: String)
    ensures
        r@ == unicode_lowercase(s@),
{
    s.to_lowercase()
}

/// Stores a provider name, lowered, and confirms it with the name as given.
pub fn set_provider(session: &mut Session, value: &str, ppid: u32) -> (r: String)
    ensures
        r@ == "✅ Model provider set to '"@ + value@ + "' for current session (PID "@ + decimal(
            ppid as nat,
        ) + ").\n"@,
        opt_text(final(session).model_provider) == Some(unicode_lowercase(value@)),
        *final(session) == (Session { model_provider: final(session).model_provider, ..*old(session) }),
{
    session.model_provider = Some(lowercase(value));
    let mut v: Vec<char> = Vec::new();
    extend_str(&mut v, "✅ Model provider set to '");
    extend_str(&mut v, value);
    extend_str(&mut v, "' for current session (PID ");
    let d = decimal_chars(ppid as u64);
    extend(&mut v, &d);
    extend_str(&mut v, ").\n");
    string_of(&v)
}

/// What `-m` alone shows before the engines are scanned.
pub open spec fn model_query_header(provider: Seq<char>) -> Seq<char> {
    "Model (-m / --model)             : [QUERY MODE]\n"@ + "  💡 Current Provider            : "@
        + provider + "\n"@ + "  🔍 Scanning local ports for active inference engines...\n\n"@
}

pub fn model_query_heading(session: &Session) -> (r: String)
    ensures
        r@ == model_query_header(
            match opt_text(session.model_provider) {
                Some(p) => p,
                None => "llama"@,
            },
        ),
{
    let mut v: Vec<char> = Vec::new();
    extend_str(&mut v, "Model (-m / --model)             : [QUERY MODE]\n");
    extend_str(&mut v, "  💡 Current Provider            : ");
    match &session.model_provider {
        Some(p) => extend_str(&mut v, p.as_str()),
        None => extend_str(&mut v, "llama"),
    }
    extend_str(&mut v, "\n");
    extend_str(&mut v, "  🔍 Scanning local ports for active inference engines...\n\n");
    string_of(&v)
}

/// One running model, numbered from 1, tagged when its engine is the
/// session's provider.
pub open spec fn running_model_line(i: int, m: ModelInfo, provider: Seq<char>) -> Seq<char> {
    "  🟢 ["@ + decimal((i + 1) as nat) + "] "@ + m.display_name@ + (if provider_is(provider, m.engine) {
        " \x1B[32m[Active]\x1B[0m"@
    } else {
        Seq::empty()
    }) + "\n"@
}

pub open spec fn running_model_lines(ms: Seq<ModelInfo>, n: nat, provider: Seq<char>) -> Seq<char>
    decreases n,
{
    if n == 0 {
        Seq::empty()
    } else {
        running_model_lines(ms, (n - 1) as nat, provider) + running_model_line(n - 1, ms[n - 1], provider)
    }
}

/// The running models, or a hint when none was found.
pub open spec fn running_models_text(ms: Seq<ModelInfo>, provider: Seq<char>) -> Seq<char> {
    if ms.len() == 0 {
        "  ⚠️ No active local models found. Start Ollama, llama.cpp, or LM Studio first.\n"@
    } else {
        running_model_lines(ms, ms.len(), provider)
    }
}

pub fn running_models(models: &Vec<ModelInfo>, provider: &str) -> (r: String)
    ensures
        r@ == running_models_text(models@, provider@),
{
    let mut v: Vec<char> = Vec::new();
    if models.len() == 0 {
        extend_str(&mut v, "  ⚠️ No active local models found. Start Ollama, llama.cpp, or LM Studio first.\n");
    } else {
        let mut i: usize = 0;
        while i < models.len()
            invariant
                i <= models.len(),
                v@ == running_model_lines(models@, i as nat, provider@),
            decreases models.len() - i,
        {
            let m = &models[i];
            extend_str(&mut v, "  🟢 [");
            let k = decimal_chars((i + 1) as u64);
            extend(&mut v, &k);
            extend_str(&mut v, "] ");
            extend_str(&mut v, m.display_name.as_str());
            if provider_matches(provider, &m.engine) {
                extend_str(&mut v, " \x1B[32m[Active]\x1B[0m");
            }
            extend_str(&mut v, "\n");
            assert(v@ =~= running_model_lines(models@, (i + 1) as nat, provider@));
            i += 1;
        }
    }
    string_of(&v)
}

/// A recorded command and its output as the prompt shows them.
pub open spec fn history_context_entry(e: HistoryEntrySpec) -> Seq<char> {
    "$ "@ + e.command + "\n"@ + e.output + "\n"@
}

pub open spec fn history_context_entries(es: Seq<HistoryEntrySpec>) -> Seq<char>
    decreases es.len(),
{
    if es.len() == 0 {
        Seq::empty()
    } else {
        history_context_entries(es.drop_last()) + history_context_entry(es.last())
    }
}

/// The prompt with recorded commands appended under a context heading; with
/// no recorded commands the prompt stays as it is.
pub open spec fn prompt_with_history(prompt: Seq<char>, n: usize, es: Seq<HistoryEntrySpec>) -> Seq<char> {
    if es.len() == 0 {
        prompt
    } else {
        prompt + "\n\n[Context: Last "@ + decimal(n as nat) + " Terminal Commands]\n"@
            + history_context_entries(es)
    }
}

pub fn with_history(prompt: &str, n: usize, entries: &Vec<HistoryEntry>) -> (r: String)
    ensures
        r@ == prompt_with_history(prompt@, n, entry_views(entries@)),
{
    if entries.len() == 0 {
        return prompt.to_string();
    }
    let mut v: Vec<char> = Vec::new();
    extend_str(&mut v, prompt);
    extend_str(&mut v, "\n\n[Context: Last ");
    let k = decimal_chars(n as u64);
    extend(&mut v, &k);
    extend_str(&mut v, " Terminal Commands]\n");
    let ghost head = v@;
    let mut i: usize = 0;
    while i < entries.len()
        invariant
            i <= entries.len(),
            v@ == head + history_context_entries(entry_views(entries@).subrange(0, i as int)),
        decreases entries.len() - i,
    {
        let e = &entries[i];
        let ghost before = v@;
        extend_str(&mut v, "$ ");
        extend_str(&mut v, e.command.as_str());
        extend_str(&mut v, "\n");
        extend_str(&mut v, e.output.as_str());
        extend_str(&mut v, "\n");
        let ghost next = entry_views(entries@).subrange(0, i + 1);
        assert(next.drop_last() =~= entry_views(entries@).subrange(0, i as int));
        assert(next.last() == e@);
        assert(v@ =~= before + history_context_entry(e@));
        i += 1;
    }
    assert(entry_views(entries@).subrange(0, entries@.len() as int) =~= entry_views(entries@));
    string_of(&v)
}

} // verus!
