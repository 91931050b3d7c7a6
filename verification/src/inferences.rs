//! The local inference engines: where they listen, what a chat request to
//! each carries, and how the context window of a model is found.
use vstd::prelude::*;
use crate::engine::{level_params, ThinkingLevel};
use crate::session::{message_views, Message, MessageSpec};
use crate::text::{chars_of, eq_str, extend_str, string_of};

verus! {

broadcast use vstd::string::group_string_axioms;

/// A local inference server.
#[derive(Debug, Clone, Copy, PartialEq, Eq, Structural)]
pub enum InferenceEngine {
    LlamaCpp,
    Ollama,
    GenericOpenAI,
}

pub open spec fn engine_url(e: InferenceEngine) -> Seq<char> {
    match e {
        InferenceEngine::LlamaCpp => "http://localhost:8080/v1/chat/completions"@,
        InferenceEngine::Ollama => "http://localhost:11434/v1/chat/completions"@,
        InferenceEngine::GenericOpenAI => "http://localhost:1234/v1/chat/completions"@,
    }
}

/// What a streamed chat request to an engine carries. It always asks for a
/// stream with usage figures; `sampling_defaults` stands for temperature 0.1,
/// min_p 0.05 and top_p 0.9.
pub struct ChatPayload {
    pub model: Option<String>,
    pub messages: Vec<Message>,
    pub stream: bool,
    pub include_usage: bool,
    /// `chat_template_kwargs`: whether thinking is enabled, and the effort.
    pub template_thinking: Option<(bool, &'static str)>,
    pub sampling_defaults: bool,
}

impl InferenceEngine {
    /// The chat completions endpoint of the engine.
    pub fn get_url(&self) -> (r: &'static str)
        ensures
            r@ == engine_url(*self),
    {
        match self {
            InferenceEngine::LlamaCpp => "http://localhost:8080/v1/chat/completions",
            InferenceEngine::Ollama => "http://localhost:11434/v1/chat/completions",
            InferenceEngine::GenericOpenAI => "http://localhost:1234/v1/chat/completions",
        }
    }

    /// The chat request for this engine: llama.cpp gets the thinking switch in
    /// `chat_template_kwargs` and the sampling defaults but no model name;
    /// Ollama gets the model name only (its Modelfile holds the parameters);
    /// a generic OpenAI server gets the model name and the sampling defaults.
    pub fn build_payload(&self, messages: Vec<Message>, thinking_level: ThinkingLevel, model_name: &str) -> (r: ChatPayload)
        ensures
            message_views(r.messages@) == message_views(messages@),
            r.stream,
            r.include_usage,
            match *self {
                InferenceEngine::LlamaCpp => {
                    &&& r.model is None
                    &&& r.template_thinking matches Some((en, eff)) && (en, eff@) == level_params(
                        thinking_level,
                    )
                    &&& r.sampling_defaults
                },
                InferenceEngine::Ollama => {
                    &&& r.model matches Some(m) && m@ == model_name@
                    &&& r.template_thinking is None
                    &&& !r.sampling_defaults
                },
                InferenceEngine::GenericOpenAI => {
                    &&& r.model matches Some(m) && m@ == model_name@
                    &&& r.template_thinking is None
                    &&& r.sampling_defaults
                },
            },
    {
        let params = thinking_level.to_params();
        match self {
            InferenceEngine::LlamaCpp => ChatPayload {
                model: None,
                messages,
                stream: true,
                include_usage: true,
                template_thinking: Some(params),
                sampling_defaults: true,
            },
            InferenceEngine::Ollama => ChatPayload {
                model: Some(model_name.to_string()),
                messages,
                stream: true,
                include_usage: true,
                template_thinking: None,
                sampling_defaults: false,
            },
            InferenceEngine::GenericOpenAI => ChatPayload {
                model: Some(model_name.to_string()),
                messages,
                stream: true,
                include_usage: true,
                template_thinking: None,
                sampling_defaults: true,
            },
        }
    }
}

/// Whether a stored provider name refers to an engine (`llama`, `ollama`, `lmstudio`).
pub open spec fn provider_is(provider: Seq<char>, e: InferenceEngine) -> bool {
    ||| (provider == "ollama"@ && e == InferenceEngine::Ollama)
    ||| (provider == "lmstudio"@ && e == InferenceEngine::GenericOpenAI)
    ||| (provider == "llama"@ && e == InferenceEngine::LlamaCpp)
}

/// Whether the session's provider name refers to the engine.
pub fn provider_matches(provider: &str, engine: &InferenceEngine) -> (r: bool)
    ensures
        r == provider_is(provider@, *engine),
{
    let p = chars_of(provider);
    match engine {
        InferenceEngine::Ollama => eq_str(&p, "ollama"),
        InferenceEngine::GenericOpenAI => eq_str(&p, "lmstudio"),
        InferenceEngine::LlamaCpp => eq_str(&p, "llama"),
    }
}

/// The provider name stored for an engine.
pub open spec fn provider_name(e: InferenceEngine) -> Seq<char> {
    match e {
        InferenceEngine::LlamaCpp => "llama"@,
        InferenceEngine::Ollama => "ollama"@,
        InferenceEngine::GenericOpenAI => "lmstudio"@,
    }
}

/// The engine a stored provider name selects; unknown names select llama.cpp.
pub open spec fn engine_for(provider: Seq<char>) -> InferenceEngine {
    if provider == "ollama"@ {
        InferenceEngine::Ollama
    } else if provider == "lmstudio"@ {
        InferenceEngine::GenericOpenAI
    } else {
        InferenceEngine::LlamaCpp
    }
}

impl InferenceEngine {
    /// The engine a stored provider name selects (`llama`, `ollama`,
    /// `lmstudio`); any other name selects llama.cpp.
    pub fn from_provider(provider: &str) -> (r: InferenceEngine)
        ensures
            r == engine_for(provider@),
    {
        let p = chars_of(provider);
        if eq_str(&p, "ollama") {
            InferenceEngine::Ollama
        } else if eq_str(&p, "lmstudio") {
            InferenceEngine::GenericOpenAI
        } else {
            InferenceEngine::LlamaCpp
        }
    }

    /// The provider name stored for the engine.
    pub fn as_provider_str(&self) -> (r: &'static str)
        ensures
            r@ == provider_name(*self),
    {
        match self {
            InferenceEngine::LlamaCpp => "llama",
            InferenceEngine::Ollama => "ollama",
            InferenceEngine::GenericOpenAI => "lmstudio",
        }
    }
}

/// A model a running engine offers.
#[derive(Debug)]
pub struct ModelInfo {
    pub engine: InferenceEngine,
    pub model_name: String,
    pub display_name: String,
}

/// The models endpoint of an engine and the label it is shown with.
pub open spec fn engine_endpoint(e: InferenceEngine) -> (Seq<char>, Seq<char>) {
    match e {
        InferenceEngine::LlamaCpp => ("http://localhost:8080/v1/models"@, "llama.cpp"@),
        InferenceEngine::Ollama => ("http://localhost:11434/v1/models"@, "Ollama"@),
        InferenceEngine::GenericOpenAI => ("http://localhost:1234/v1/models"@, "LM Studio/Generic"@),
    }
}

/// The engines scanned for models, in order, with their models endpoint and label.
pub fn model_endpoints() -> (r: Vec<(InferenceEngine, &'static str, &'static str)>)
    ensures
        r@.len() == 3,
        r@[0].0 == InferenceEngine::LlamaCpp,
        r@[1].0 == InferenceEngine::Ollama,
        r@[2].0 == InferenceEngine::GenericOpenAI,
        forall|i: int| 0 <= i < 3 ==> (#[trigger] r@[i].1@, r@[i].2@) == engine_endpoint(r@[i].0),
{
    let mut v: Vec<(InferenceEngine, &'static str, &'static str)> = Vec::new();
    v.push((InferenceEngine::LlamaCpp, "http://localhost:8080/v1/models", "llama.cpp"));
    v.push((InferenceEngine::Ollama, "http://localhost:11434/v1/models", "Ollama"));
    v.push((InferenceEngine::GenericOpenAI, "http://localhost:1234/v1/models", "LM Studio/Generic"));
    v
}

impl InferenceEngine {
    /// Whether the engine's models listing reports the context length under
    /// `meta.n_ctx` (llama.cpp) rather than `context_length` (LM Studio).
    pub fn reports_context_in_meta(&self) -> (r: bool)
        ensures
            r == (*self == InferenceEngine::LlamaCpp),
    {
        match self {
            InferenceEngine::LlamaCpp => true,
            _ => false,
        }
    }

    /// The models endpoint of the engine.
    pub fn models_url(&self) -> (r: &'static str)
        ensures
            r@ == engine_endpoint(*self).0,
    {
        match self {
            InferenceEngine::LlamaCpp => "http://localhost:8080/v1/models",
            InferenceEngine::Ollama => "http://localhost:11434/v1/models",
            InferenceEngine::GenericOpenAI => "http://localhost:1234/v1/models",
        }
    }
}

/// The entry for the first model an engine lists: shown as `<label>: <id>`.
pub fn model_info(engine: InferenceEngine, label: &str, first_id: &str) -> (r: ModelInfo)
    ensures
        r.engine == engine,
        r.model_name@ == first_id@,
        r.display_name@ == label@ + ": "@ + first_id@,
{
    let mut d = chars_of(label);
    extend_str(&mut d, ": ");
    extend_str(&mut d, first_id);
    ModelInfo { engine, model_name: first_id.to_string(), display_name: string_of(&d) }
}

/// The context window assumed when the engine does not tell.
pub open spec fn fallback_context(e: InferenceEngine) -> usize {
    match e {
        InferenceEngine::Ollama => 4096,
        _ => 8192,
    }
}

pub fn context_window_fallback(engine: &InferenceEngine) -> (r: usize)
    ensures
        r == fallback_context(*engine),
{
    match engine {
        InferenceEngine::Ollama => 4096,
        _ => 8192,
    }
}

/// A model as a models listing describes it: its id, and the context length
/// it reports (`meta.n_ctx` for llama.cpp, `context_length` for LM Studio).
pub struct ListedModel {
    pub id: Option<String>,
    pub context: Option<u64>,
}

/// The context length of the first listed model with the given id that reports one.
pub open spec fn listed_context(ms: Seq<ListedModel>, name: Seq<char>) -> Option<u64>
    decreases ms.len(),
{
    if ms.len() == 0 {
        None
    } else {
        match listed_context(ms.drop_last(), name) {
            Some(c) => Some(c),
            None => if ms.last().id matches Some(id) && id@ == name && ms.last().context is Some {
                ms.last().context
            } else {
                None
            },
        }
    }
}

/// The context window of `model_name` according to a models listing
/// (llama.cpp or LM Studio), or the engine's fallback.
pub fn context_window_from_listing(engine: &InferenceEngine, model_name: &str, models: &Vec<ListedModel>) -> (r: usize)
    ensures
        r == match listed_context(models@, model_name@) {
            Some(c) => c as usize,
            None => fallback_context(*engine),
        },
{
    let n = models.len();
    let mut i: usize = 0;
    while i < n
        invariant
            n == models@.len(),
            i <= n,
            listed_context(models@.subrange(0, i as int), model_name@) is None,
        decreases n - i,
    {
        let m = &models[i];
        assert(models@.subrange(0, i + 1).drop_last() =~= models@.subrange(0, i as int));
        match &m.id {
            Some(id) => {
                if eq_str(&chars_of(id.as_str()), model_name) {
                    match m.context {
                        Some(c) => {
                            proof {
                                assert(listed_context(models@.subrange(0, i + 1), model_name@) == Some(c));
                                lemma_listed_context_prefix(models@, model_name@, i + 1);
                            }
                            return c as usize;
                        },
                        None => {},
                    }
                }
            },
            None => {},
        }
        i += 1;
    }
    assert(models@.subrange(0, n as int) =~= models@);
    context_window_fallback(engine)
}

pub proof fn lemma_listed_context_prefix(ms: Seq<ListedModel>, name: Seq<char>, k: int)
    requires
        0 <= k <= ms.len(),
        listed_context(ms.subrange(0, k), name) is Some,
    ensures
        listed_context(ms, name) == listed_context(ms.subrange(0, k), name),
    decreases ms.len() - k,
{
    if k < ms.len() {
        assert(ms.subrange(0, k + 1).drop_last() =~= ms.subrange(0, k));
        lemma_listed_context_prefix(ms, name, k + 1);
    } else {
        assert(ms.subrange(0, k) =~= ms);
    }
}

/// One entry of Ollama's `model_info`: its key, and its value when that is
/// an unsigned integer.
pub struct InfoEntry {
    pub key: String,
    pub value: Option<u64>,
}

/// The value of the first `*.context_length` entry holding an integer.
pub open spec fn info_context(es: Seq<InfoEntry>) -> Option<u64>
    decreases es.len(),
{
    if es.len() == 0 {
        None
    } else {
        match info_context(es.drop_last()) {
            Some(c) => Some(c),
            None => if crate::text::ends_with(es.last().key@, ".context_length"@)
                && es.last().value is Some {
                es.last().value
            } else {
                None
            },
        }
    }
}

pub proof fn lemma_info_context_prefix(es: Seq<InfoEntry>, k: int)
    requires
        0 <= k <= es.len(),
        info_context(es.subrange(0, k)) is Some,
    ensures
        info_context(es) == info_context(es.subrange(0, k)),
    decreases es.len() - k,
{
    if k < es.len() {
        assert(es.subrange(0, k + 1).drop_last() =~= es.subrange(0, k));
        lemma_info_context_prefix(es, k + 1);
    } else {
        assert(es.subrange(0, k) =~= es);
    }
}

/// The context window Ollama reports in `model_info` (entries in the order
/// the map yields them), or Ollama's fallback of 4096.
pub fn context_window_from_info(entries: &Vec<InfoEntry>) -> (r: usize)
    ensures
        r == match info_context(entries@) {
            Some(c) => c as usize,
            None => 4096,
        },
{
    let n = entries.len();
    let mut i: usize = 0;
    while i < n
        invariant
            n == entries@.len(),
            i <= n,
            info_context(entries@.subrange(0, i as int)) is None,
        decreases n - i,
    {
        let e = &entries[i];
        assert(entries@.subrange(0, i + 1).drop_last() =~= entries@.subrange(0, i as int));
        let k = chars_of(e.key.as_str());
        if crate::text::has_suffix_str(&k, ".context_length") {
            match e.value {
                Some(c) => {
                    proof {
                        assert(info_context(entries@.subrange(0, i + 1)) == Some(c));
                        lemma_info_context_prefix(entries@, i + 1);
                    }
                    return c as usize;
                },
                None => {},
            }
        }
        i += 1;
    }
    assert(entries@.subrange(0, n as int) =~= entries@);
    4096
}

} // verus!
