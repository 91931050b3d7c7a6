//! A streamed chat reply: the server-sent event stream is cut into lines,
//! `data:` payloads and the end marker are recognised, and each decoded delta
//! is turned into what the user sees and what the reply keeps.
use vstd::prelude::*;
use crate::engine::{clean_thinking_blocks, cleaned_reply, TokenUsage};
use crate::ipc::{event_views, opt_text, DaemonEvent, DaemonEventSpec};
use crate::text::{
    chars_of, contains, contains_str, eq_str, extend, extend_str, find_char_from, find_char_in,
    has_prefix_str, lemma_find_char_from_found, slice, starts_with, string_of, trim, trimmed,
};

verus! {

broadcast use vstd::string::group_string_axioms;

/// Text received from the server and not yet cut into lines.
pub struct SseBuffer {
    pub pending: Vec<char>,
}

/// The first complete line of buffered text, trimmed, and what follows its
/// line feed; `None` while no line feed has arrived.
pub open spec fn sse_split(p: Seq<char>) -> Option<(Seq<char>, Seq<char>)> {
    match find_char_from(p, '\n', 0) {
        None => None,
        Some(i) => Some((trim(p.subrange(0, i)), p.subrange(i + 1, p.len() as int))),
    }
}

impl SseBuffer {
    /// An empty buffer.
    pub fn new() -> (b: SseBuffer)
        ensures
            b.pending@ == Seq::<char>::empty(),
    {
        SseBuffer { pending: Vec::new() }
    }

    /// Appends decoded text from the network.
    pub fn push_chunk(&mut self, chunk: &str)
        ensures
            final(self).pending@ == old(self).pending@ + chunk@,
    {
        extend_str(&mut self.pending, chunk);
    }

    /// Takes the next complete line out of the buffer, trimmed.
    pub fn next_line(&mut self) -> (r: Option<String>)
        ensures
            match sse_split(old(self).pending@) {
                None => r is None && final(self).pending@ == old(self).pending@,
                Some((line, rest)) => r matches Some(l) && l@ == line && final(self).pending@ == rest,
            },
    {
        match find_char_in(&self.pending, '\n', 0) {
            None => None,
            Some(i) => {
                proof {
                    lemma_find_char_from_found(self.pending@, '\n', 0, i as int);
                }
                let head = slice(&self.pending, 0, i);
                let line = trimmed(&head);
                let rest = slice(&self.pending, i + 1, self.pending.len());
                self.pending = rest;
                Some(string_of(&line))
            },
        }
    }
}

/// A line of the event stream.
#[derive(Debug)]
pub enum SseLine {
    /// `data: [DONE]`: the reply is complete.
    End,
    /// The payload of a `data: ` line.
    Data(String),
    /// Anything else (comments, blank lines, other fields).
    Other,
}

/// The payload of a `data: ` line.
pub open spec fn sse_payload(line: Seq<char>) -> Option<Seq<char>> {
    if starts_with(line, "data: "@) {
        Some(line.subrange(6, line.len() as int))
    } else {
        None
    }
}

/// Sorts a line of the stream: the end marker, a payload, or neither.
pub fn classify_line(line: &str) -> (r: SseLine)
    ensures
        match sse_payload(line@) {
            None => r is Other,
            Some(p) => if p == "[DONE]"@ {
                r is End
            } else {
                r matches SseLine::Data(d) && d@ == p
            },
        },
{
    proof {
        reveal_strlit("data: ");
    }
    let v = chars_of(line);
    if !has_prefix_str(&v, "data: ") {
        return SseLine::Other;
    }
    let payload = slice(&v, 6, v.len());
    if eq_str(&payload, "[DONE]") {
        SseLine::End
    } else {
        SseLine::Data(string_of(&payload))
    }
}

/// The message for a reply the server refused: its status line and body.
pub fn status_error(status: &str, body: &str) -> (r: String)
    ensures
        r@ == "Server HTTP Status Error ("@ + status@ + "): "@ + body@,
{
    let mut v: Vec<char> = Vec::new();
    extend_str(&mut v, "Server HTTP Status Error (");
    extend_str(&mut v, status);
    extend_str(&mut v, "): ");
    extend_str(&mut v, body);
    string_of(&v)
}

/// What one decoded event of the stream carries: the usage figures when the
/// engine sends them, and the reasoning and content of the first choice's delta.
#[derive(Debug)]
pub struct StreamDelta {
    pub prompt_tokens: Option<u64>,
    pub completion_tokens: Option<u64>,
    pub total_tokens: Option<u64>,
    pub reasoning: Option<String>,
    pub content: Option<String>,
}

/// The contents of a delta.
pub struct StreamDeltaSpec {
    pub prompt_tokens: Option<u64>,
    pub completion_tokens: Option<u64>,
    pub total_tokens: Option<u64>,
    pub reasoning: Option<Seq<char>>,
    pub content: Option<Seq<char>>,
}

impl View for StreamDelta {
    type V = StreamDeltaSpec;

    open spec fn view(&self) -> StreamDeltaSpec {
        StreamDeltaSpec {
            prompt_tokens: self.prompt_tokens,
            completion_tokens: self.completion_tokens,
            total_tokens: self.total_tokens,
            reasoning: opt_text(self.reasoning),
            content: opt_text(self.content),
        }
    }
}

pub open spec fn delta_view(d: Option<StreamDelta>) -> Option<StreamDeltaSpec> {
    match d {
        Some(x) => Some(x@),
        None => None,
    }
}

/// What a `data:` payload holds as a delta, when it is JSON: the
/// `prompt_tokens`, `completion_tokens` and `total_tokens` of its `usage`
/// object that are unsigned integers, and the `reasoning_content` and
/// `content` strings of the `delta` of the first entry of its `choices`
/// array; `None` when the payload is not JSON.
pub uninterp spec fn data_line_delta(payload: Seq<char>) -> Option<StreamDeltaSpec>;

/// Reads a `data:` payload with `serde_json::from_str` into a JSON value and
/// picks out the fields a delta carries.
#[verifier::external_body]
fn parse_data_line(payload: &str) -> (r: Option<StreamDelta>)
    ensures
        delta_view(r) == data_line_delta(payload@),
{
    let v: serde_json::Value = serde_json::from_str(payload).ok()?;
    let count = |k: &str| v.get("usage").and_then(|u| u.get(k)).and_then(|n| n.as_u64());
    let delta = v.get("choices").and_then(|c| c.as_array()).and_then(|a| a.first()).and_then(|c| c.get("delta"));
    let text = |k: &str| delta.and_then(|d| d.get(k)).and_then(|t| t.as_str()).map(|t| t.to_string());
    Some(StreamDelta {
        prompt_tokens: count("prompt_tokens"),
        completion_tokens: count("completion_tokens"),
        total_tokens: count("total_tokens"),
        reasoning: text("reasoning_content"),
        content: text("content"),
    })
}

/// A reply being received.
pub struct ReplyState {
    /// All content received so far, thinking blocks included.
    pub full_text: Vec<char>,
    /// The latest usage figures.
    pub usage: TokenUsage,
    /// Whether content is inside an inline thinking block.
    pub in_thinking_block: bool,
    /// Whether any thinking has been shown (terminal output).
    pub has_thought: bool,
    /// Whether the `Mobius:` prefix has been printed (terminal output).
    pub printed_prefix: bool,
}

/// Whether content opens an inline thinking block.
pub open spec fn opens_block(c: Seq<char>) -> bool {
    contains(c, "<think>"@) || contains(c, "<thinking>"@)
}

/// Whether content closes an inline thinking block.
pub open spec fn closes_block(c: Seq<char>) -> bool {
    contains(c, "</think>"@) || contains(c, "</thinking>"@)
}

/// Whether content arriving in the given block state is shown as thinking.
pub open spec fn shown_as_thinking(in_block: bool, c: Seq<char>) -> bool {
    in_block || opens_block(c)
}

/// The block state after a piece of content.
pub open spec fn block_after(in_block: bool, content: Option<Seq<char>>) -> bool {
    match content {
        Some(c) => shown_as_thinking(in_block, c) && !closes_block(c),
        None => in_block,
    }
}

/// A count replaced when the engine reports it.
pub open spec fn count_after(old: usize, reported: Option<u64>) -> usize {
    match reported {
        Some(n) => n as usize,
        None => old,
    }
}

/// The usage figures after a delta.
pub open spec fn usage_after(u: TokenUsage, d: StreamDeltaSpec) -> TokenUsage {
    TokenUsage {
        prompt_tokens: count_after(u.prompt_tokens, d.prompt_tokens),
        completion_tokens: count_after(u.completion_tokens, d.completion_tokens),
        total_tokens: count_after(u.total_tokens, d.total_tokens),
    }
}

/// The reply text after a delta: its content, if any, appended.
pub open spec fn text_after(t: Seq<char>, content: Option<Seq<char>>) -> Seq<char> {
    match content {
        Some(c) => t + c,
        None => t,
    }
}

/// Non-empty reasoning, if the delta has any.
pub open spec fn visible_reasoning(r: Option<Seq<char>>) -> Option<Seq<char>> {
    match r {
        Some(t) => if t.len() > 0 {
            Some(t)
        } else {
            None
        },
        None => None,
    }
}

/// The events a delta gives rise to, in order: its reasoning as thinking,
/// then its content, as thinking inside a block and as text outside one.
pub open spec fn delta_events(in_block: bool, reasoning: Option<Seq<char>>, content: Option<Seq<char>>) -> Seq<DaemonEventSpec> {
    let first = match visible_reasoning(reasoning) {
        Some(t) => seq![DaemonEventSpec::ThinkingChunk(t)],
        None => Seq::empty(),
    };
    match content {
        Some(c) => if shown_as_thinking(in_block, c) {
            first.push(DaemonEventSpec::ThinkingChunk(c))
        } else {
            first.push(DaemonEventSpec::TextChunk(c))
        },
        None => first,
    }
}

/// Text shown dimmed in the terminal.
pub open spec fn grey(t: Seq<char>) -> Seq<char> {
    "\x1B[90m"@ + t + "\x1B[0m"@
}

/// The prefix of the first visible answer text: a line break first when
/// thinking was shown.
pub open spec fn answer_prefix(has_thought: bool) -> Seq<char> {
    (if has_thought {
        "\n"@
    } else {
        Seq::empty()
    }) + "\x1B[32mMobius:\x1B[0m "@
}

/// What the terminal shows for a delta: reasoning dimmed, then content,
/// dimmed inside a thinking block, and otherwise after the `Mobius:` prefix
/// the first time.
pub open spec fn delta_terminal_text(
    in_block: bool,
    has_thought: bool,
    printed_prefix: bool,
    reasoning: Option<Seq<char>>,
    content: Option<Seq<char>>,
) -> Seq<char> {
    let first = match visible_reasoning(reasoning) {
        Some(t) => grey(t),
        None => Seq::empty(),
    };
    let thought = has_thought || visible_reasoning(reasoning) is Some;
    match content {
        Some(c) => if shown_as_thinking(in_block, c) {
            first + grey(c)
        } else if printed_prefix {
            first + c
        } else {
            first + answer_prefix(thought) + c
        },
        None => first,
    }
}

/// Whether thinking has been shown after a delta.
pub open spec fn thought_after(in_block: bool, has_thought: bool, reasoning: Option<Seq<char>>, content: Option<Seq<char>>) -> bool {
    ||| has_thought
    ||| visible_reasoning(reasoning) is Some
    ||| (content matches Some(c) && shown_as_thinking(in_block, c))
}

/// Whether the answer prefix has been printed after a delta.
pub open spec fn prefix_after(in_block: bool, printed_prefix: bool, content: Option<Seq<char>>) -> bool {
    printed_prefix || (content matches Some(c) && !shown_as_thinking(in_block, c))
}

fn has_text(o: &Option<String>) -> (r: Option<&String>)
    ensures
        match r {
            Some(t) => visible_reasoning(opt_text(*o)) == Some(t@),
            None => visible_reasoning(opt_text(*o)) is None,
        },
{
    match o {
        Some(t) => if t.as_str().is_empty() {
            None
        } else {
            Some(t)
        },
        None => None,
    }
}

fn count_update(old: usize, reported: Option<u64>) -> (r: usize)
    ensures
        r == count_after(old, reported),
{
    match reported {
        Some(n) => n as usize,
        None => old,
    }
}

impl ReplyState {
    /// Nothing received yet.
    pub fn new() -> (s: ReplyState)
        ensures
            s.full_text@ == Seq::<char>::empty(),
            s.usage == (TokenUsage { prompt_tokens: 0, completion_tokens: 0, total_tokens: 0 }),
            !s.in_thinking_block,
            !s.has_thought,
            !s.printed_prefix,
    {
        ReplyState {
            full_text: Vec::new(),
            usage: TokenUsage::zero(),
            in_thinking_block: false,
            has_thought: false,
            printed_prefix: false,
        }
    }

    /// Keeps the content of a delta and moves the block state on; returns
    /// whether the content is shown as thinking.
    fn take_content(&mut self, c: &str) -> (thinking: bool)
        ensures
            thinking == shown_as_thinking(old(self).in_thinking_block, c@),
            final(self).in_thinking_block == block_after(old(self).in_thinking_block, Some(c@)),
            final(self).full_text@ == old(self).full_text@ + c@,
            final(self).usage == old(self).usage,
            final(self).has_thought == old(self).has_thought,
            final(self).printed_prefix == old(self).printed_prefix,
    {
        extend_str(&mut self.full_text, c);
        let cv = chars_of(c);
        if contains_str(&cv, "<think>") || contains_str(&cv, "<thinking>") {
            self.in_thinking_block = true;
        }
        let thinking = self.in_thinking_block;
        if thinking && (contains_str(&cv, "</think>") || contains_str(&cv, "</thinking>")) {
            self.in_thinking_block = false;
        }
        thinking
    }

    /// Takes in a delta for a client: the usage figures it reports replace
    /// the old ones, its content joins the reply, and the events to forward
    /// are returned.
    pub fn on_delta(&mut self, d: &StreamDelta) -> (events: Vec<DaemonEvent>)
        ensures
            event_views(events@) == delta_events(
                old(self).in_thinking_block,
                opt_text(d.reasoning),
                opt_text(d.content),
            ),
            final(self).usage == usage_after(old(self).usage, d@),
            final(self).full_text@ == text_after(old(self).full_text@, opt_text(d.content)),
            final(self).in_thinking_block == block_after(old(self).in_thinking_block, opt_text(d.content)),
            final(self).has_thought == old(self).has_thought,
            final(self).printed_prefix == old(self).printed_prefix,
    {
        self.usage = TokenUsage {
            prompt_tokens: count_update(self.usage.prompt_tokens, d.prompt_tokens),
            completion_tokens: count_update(self.usage.completion_tokens, d.completion_tokens),
            total_tokens: count_update(self.usage.total_tokens, d.total_tokens),
        };
        let mut events: Vec<DaemonEvent> = Vec::new();
        match has_text(&d.reasoning) {
            Some(t) => {
                events.push(DaemonEvent::ThinkingChunk(t.clone()));
            },
            None => {},
        }
        let ghost first = event_views(events@);
        match &d.content {
            Some(c) => {
                let thinking = self.take_content(c.as_str());
                if thinking {
                    events.push(DaemonEvent::ThinkingChunk(c.clone()));
                } else {
                    events.push(DaemonEvent::TextChunk(c.clone()));
                }
                assert(event_views(events@) =~= first.push(events@[events@.len() - 1]@));
            },
            None => {},
        }
        assert(event_views(events@) =~= delta_events(
            old(self).in_thinking_block,
            opt_text(d.reasoning),
            opt_text(d.content),
        ));
        events
    }

    /// Takes in a delta for the terminal: returns the text to print, with
    /// thinking dimmed and the `Mobius:` prefix before the first answer text.
    pub fn render_delta(&mut self, d: &StreamDelta) -> (out: String)
        ensures
            out@ == delta_terminal_text(
                old(self).in_thinking_block,
                old(self).has_thought,
                old(self).printed_prefix,
                opt_text(d.reasoning),
                opt_text(d.content),
            ),
            final(self).full_text@ == text_after(old(self).full_text@, opt_text(d.content)),
            final(self).in_thinking_block == block_after(old(self).in_thinking_block, opt_text(d.content)),
            final(self).has_thought == thought_after(
                old(self).in_thinking_block,
                old(self).has_thought,
                opt_text(d.reasoning),
                opt_text(d.content),
            ),
            final(self).printed_prefix == prefix_after(
                old(self).in_thinking_block,
                old(self).printed_prefix,
                opt_text(d.content),
            ),
            final(self).usage == old(self).usage,
    {
        let mut out: Vec<char> = Vec::new();
        match has_text(&d.reasoning) {
            Some(t) => {
                self.has_thought = true;
                extend_str(&mut out, "\x1B[90m");
                extend_str(&mut out, t.as_str());
                extend_str(&mut out, "\x1B[0m");
            },
            None => {},
        }
        match &d.content {
            Some(c) => {
                let thinking = self.take_content(c.as_str());
                if thinking {
                    self.has_thought = true;
                    extend_str(&mut out, "\x1B[90m");
                    extend_str(&mut out, c.as_str());
                    extend_str(&mut out, "\x1B[0m");
                } else {
                    if !self.printed_prefix {
                        if self.has_thought {
                            extend_str(&mut out, "\n");
                        }
                        extend_str(&mut out, "\x1B[32mMobius:\x1B[0m ");
                        self.printed_prefix = true;
                    }
                    extend_str(&mut out, c.as_str());
                }
            },
            None => {},
        }
        string_of(&out)
    }

    /// Takes in the payload of a `data:` line for a client: a payload that is
    /// not JSON changes nothing and gives no events; otherwise its delta is
    /// taken in as `on_delta` does.
    pub fn on_data_line(&mut self, payload: &str) -> (events: Vec<DaemonEvent>)
        ensures
            match data_line_delta(payload@) {
                None => events@.len() == 0 && *final(self) == *old(self),
                Some(d) => {
                    &&& event_views(events@) == delta_events(old(self).in_thinking_block, d.reasoning, d.content)
                    &&& final(self).usage == usage_after(old(self).usage, d)
                    &&& final(self).full_text@ == text_after(old(self).full_text@, d.content)
                    &&& final(self).in_thinking_block == block_after(old(self).in_thinking_block, d.content)
                    &&& final(self).has_thought == old(self).has_thought
                    &&& final(self).printed_prefix == old(self).printed_prefix
                },
            },
    {
        match parse_data_line(payload) {
            None => Vec::new(),
            Some(d) => self.on_delta(&d),
        }
    }

    /// Takes in the payload of a `data:` line for the terminal: a payload that
    /// is not JSON changes nothing and prints nothing; otherwise its delta is
    /// rendered as `render_delta` does.
    pub fn render_data_line(&mut self, payload: &str) -> (out: String)
        ensures
            match data_line_delta(payload@) {
                None => out@.len() == 0 && *final(self) == *old(self),
                Some(d) => {
                    &&& out@ == delta_terminal_text(
                        old(self).in_thinking_block,
                        old(self).has_thought,
                        old(self).printed_prefix,
                        d.reasoning,
                        d.content,
                    )
                    &&& final(self).full_text@ == text_after(old(self).full_text@, d.content)
                    &&& final(self).in_thinking_block == block_after(old(self).in_thinking_block, d.content)
                    &&& final(self).has_thought == thought_after(
                        old(self).in_thinking_block,
                        old(self).has_thought,
                        d.reasoning,
                        d.content,
                    )
                    &&& final(self).printed_prefix == prefix_after(
                        old(self).in_thinking_block,
                        old(self).printed_prefix,
                        d.content,
                    )
                    &&& final(self).usage == old(self).usage
                },
            },
    {
        match parse_data_line(payload) {
            None => String::new(),
            Some(d) => self.render_delta(&d),
        }
    }

    /// The reply as kept in the history: thinking blocks removed, trimmed.
    pub fn reply_text(&self) -> (r: String)
        ensures
            r@ == cleaned_reply(self.full_text@),
    {
        let t = string_of(&self.full_text);
        clean_thinking_blocks(t.as_str())
    }
}

} // verus!
