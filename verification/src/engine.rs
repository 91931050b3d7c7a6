//! Thinking levels, token usage and the clean-up of model replies.
use vstd::prelude::*;
use crate::text::{
    chars_of, eq_str, extend, find, find_from, find_in, lemma_find_from_first, slice, string_of, trim,
    trimmed,
};

verus! {

/// How much reasoning the model is asked for.
#[derive(Debug, Clone, Copy, PartialEq, Eq, Structural)]
pub enum ThinkingLevel {
    Off,
    Minimal,
    Low,
    Medium,
    High,
    XHigh,
    Max,
}

/// The number of thinking levels; `mobius -t <n>` accepts `n` below it.
pub const THINKING_LEVEL_COUNT: usize = 7;

/// ASCII letters lowered, every other character kept. For the level names
/// (which hold no `k`) this agrees with `str::to_lowercase` followed by a
/// comparison: no other character lowers to one of their letters.
pub open spec fn lower_ascii(c: char) -> char {
    if 'A' <= c && c <= 'Z' {
        ((c as u32) + 32) as char
    } else {
        c
    }
}

pub open spec fn lower_ascii_seq(s: Seq<char>) -> Seq<char> {
    Seq::new(s.len(), |i: int| lower_ascii(s[i]))
}

/// The level a lowered name stands for.
pub open spec fn level_named(t: Seq<char>) -> Option<ThinkingLevel> {
    if t == "off"@ {
        Some(ThinkingLevel::Off)
    } else if t == "minimal"@ || t == "min"@ {
        Some(ThinkingLevel::Minimal)
    } else if t == "low"@ {
        Some(ThinkingLevel::Low)
    } else if t == "medium"@ || t == "med"@ {
        Some(ThinkingLevel::Medium)
    } else if t == "high"@ {
        Some(ThinkingLevel::High)
    } else if t == "xhigh"@ {
        Some(ThinkingLevel::XHigh)
    } else if t == "max"@ {
        Some(ThinkingLevel::Max)
    } else {
        None
    }
}

/// What `ThinkingLevel::from_str` gives for a name, case ignored.
pub open spec fn parse_level(s: Seq<char>) -> Option<ThinkingLevel> {
    level_named(lower_ascii_seq(s))
}

/// The request parameters of a level: whether thinking is enabled, and the effort.
pub open spec fn level_params(l: ThinkingLevel) -> (bool, Seq<char>) {
    match l {
        ThinkingLevel::Off => (false, "none"@),
        ThinkingLevel::Minimal => (true, "minimal"@),
        ThinkingLevel::Low => (true, "low"@),
        ThinkingLevel::Medium => (true, "medium"@),
        ThinkingLevel::High => (true, "high"@),
        ThinkingLevel::XHigh => (true, "xhigh"@),
        ThinkingLevel::Max => (true, "max"@),
    }
}

fn lowered(s: &str) -> (v: Vec<char>)
    ensures
        v@ == lower_ascii_seq(s@),
{
    let cs = chars_of(s);
    let mut v: Vec<char> = Vec::new();
    for i in 0..cs.len()
        invariant
            cs@ == s@,
            v@.len() == i,
            forall|j: int| 0 <= j < i ==> #[trigger] v@[j] == lower_ascii(cs@[j]),
    {
        let c = cs[i];
        if 'A' <= c && c <= 'Z' {
            let l = ((c as u8) + 32) as char;
            assert(l == lower_ascii(c));
            v.push(l);
        } else {
            v.push(c);
        }
    }
    assert(v@ =~= lower_ascii_seq(s@));
    v
}

impl ThinkingLevel {
    /// Reads a level from its name (`off`, `min`/`minimal`, `low`, `med`/`medium`,
    /// `high`, `xhigh`, `max`), in any letter case.
    pub fn from_str(s: &str) -> (r: Option<ThinkingLevel>)
        ensures
            r == parse_level(s@),
    {
        let t = lowered(s);
        if eq_str(&t, "off") {
            Some(ThinkingLevel::Off)
        } else if eq_str(&t, "minimal") || eq_str(&t, "min") {
            Some(ThinkingLevel::Minimal)
        } else if eq_str(&t, "low") {
            Some(ThinkingLevel::Low)
        } else if eq_str(&t, "medium") || eq_str(&t, "med") {
            Some(ThinkingLevel::Medium)
        } else if eq_str(&t, "high") {
            Some(ThinkingLevel::High)
        } else if eq_str(&t, "xhigh") {
            Some(ThinkingLevel::XHigh)
        } else if eq_str(&t, "max") {
            Some(ThinkingLevel::Max)
        } else {
            None
        }
    }

    /// Whether thinking is enabled at this level, and the reasoning effort sent along.
    pub fn to_params(&self) -> (r: (bool, &'static str))
        ensures
            (r.0, r.1@) == level_params(*self),
    {
        match self {
            ThinkingLevel::Off => (false, "none"),
            ThinkingLevel::Minimal => (true, "minimal"),
            ThinkingLevel::Low => (true, "low"),
            ThinkingLevel::Medium => (true, "medium"),
            ThinkingLevel::High => (true, "high"),
            ThinkingLevel::XHigh => (true, "xhigh"),
            ThinkingLevel::Max => (true, "max"),
        }
    }
}

/// The canonical name of a level.
pub open spec fn level_name(l: ThinkingLevel) -> Seq<char> {
    match l {
        ThinkingLevel::Off => "off"@,
        ThinkingLevel::Minimal => "minimal"@,
        ThinkingLevel::Low => "low"@,
        ThinkingLevel::Medium => "medium"@,
        ThinkingLevel::High => "high"@,
        ThinkingLevel::XHigh => "xhigh"@,
        ThinkingLevel::Max => "max"@,
    }
}

/// The levels in listing order, from `off` to `max`; `level_at(i)` is the
/// level that `mobius -t <i>` selects.
pub open spec fn level_at(i: int) -> ThinkingLevel {
    if i == 0 {
        ThinkingLevel::Off
    } else if i == 1 {
        ThinkingLevel::Minimal
    } else if i == 2 {
        ThinkingLevel::Low
    } else if i == 3 {
        ThinkingLevel::Medium
    } else if i == 4 {
        ThinkingLevel::High
    } else if i == 5 {
        ThinkingLevel::XHigh
    } else {
        ThinkingLevel::Max
    }
}

impl ThinkingLevel {
    /// The canonical name of the level.
    pub fn as_str(&self) -> (r: &'static str)
        ensures
            r@ == level_name(*self),
    {
        match self {
            ThinkingLevel::Off => "off",
            ThinkingLevel::Minimal => "minimal",
            ThinkingLevel::Low => "low",
            ThinkingLevel::Medium => "medium",
            ThinkingLevel::High => "high",
            ThinkingLevel::XHigh => "xhigh",
            ThinkingLevel::Max => "max",
        }
    }

    /// All levels in listing order.
    pub fn all() -> (r: Vec<ThinkingLevel>)
        ensures
            r@.len() == THINKING_LEVEL_COUNT,
            forall|i: int| 0 <= i < THINKING_LEVEL_COUNT ==> #[trigger] r@[i] == level_at(i),
    {
        let mut v: Vec<ThinkingLevel> = Vec::new();
        v.push(ThinkingLevel::Off);
        v.push(ThinkingLevel::Minimal);
        v.push(ThinkingLevel::Low);
        v.push(ThinkingLevel::Medium);
        v.push(ThinkingLevel::High);
        v.push(ThinkingLevel::XHigh);
        v.push(ThinkingLevel::Max);
        v
    }
}

/// Token counts the engine reports for one reply.
#[derive(Debug, Clone, Copy, PartialEq, Eq, Structural)]
pub struct TokenUsage {
    pub prompt_tokens: usize,
    pub completion_tokens: usize,
    pub total_tokens: usize,
}

impl TokenUsage {
    /// All counts zero.
    pub fn zero() -> (u: TokenUsage)
        ensures
            u.prompt_tokens == 0 && u.completion_tokens == 0 && u.total_tokens == 0,
    {
        TokenUsage { prompt_tokens: 0, completion_tokens: 0, total_tokens: 0 }
    }
}

/// Removes every `open ... close` block, first to last; an `open` with no
/// `close` after it cuts the text there.
pub open spec fn strip_blocks(s: Seq<char>, open: Seq<char>, close: Seq<char>) -> Seq<char>
    decreases s.len(),
{
    match find(s, open) {
        None => s,
        Some(st) => match find_from(s, close, st) {
            None => s.subrange(0, st),
            Some(k) => {
                if close.len() == 0 {
                    s
                } else {
                    proof {
                        lemma_find_from_first(s, close, st, k);
                        lemma_find_from_first(s, open, 0, st);
                    }
                    strip_blocks(
                        s.subrange(0, st) + s.subrange(k + close.len(), s.len() as int),
                        open,
                        close,
                    )
                }
            },
        },
    }
}

/// The text of a reply with `<think>` and then `<thinking>` blocks removed, trimmed.
pub open spec fn cleaned_reply(s: Seq<char>) -> Seq<char> {
    trim(strip_blocks(strip_blocks(s, "<think>"@, "</think>"@), "<thinking>"@, "</thinking>"@))
}

fn strip_blocks_exec(s: Vec<char>, open: &str, close: &str) -> (r: Vec<char>)
    requires
        close@.len() > 0,
    ensures
        r@ == strip_blocks(s@, open@, close@),
{
    let ov = chars_of(open);
    let cv = chars_of(close);
    let mut cur = s;
    loop
        invariant
            ov@ == open@,
            cv@ == close@,
            cv@.len() > 0,
            strip_blocks(s@, open@, close@) == strip_blocks(cur@, open@, close@),
        decreases cur@.len(),
    {
        match find_in(&cur, &ov, 0) {
            None => {
                return cur;
            },
            Some(st) => {
                proof {
                    lemma_find_from_first(cur@, open@, 0, st as int);
                }
                match find_in(&cur, &cv, st) {
                    None => {
                        let r = slice(&cur, 0, st);
                        return r;
                    },
                    Some(k) => {
                        proof {
                            lemma_find_from_first(cur@, close@, st as int, k as int);
                        }
                        let mut next = slice(&cur, 0, st);
                        let tail = slice(&cur, k + cv.len(), cur.len());
                        extend(&mut next, &tail);
                        cur = next;
                    },
                }
            },
        }
    }
}

/// Strips inline thinking blocks from a reply so that they stay out of the
/// chat history: every `<think>...</think>`, then every
/// `<thinking>...</thinking>`; an unclosed opening tag drops the rest of the
/// text. The result is trimmed.
pub fn clean_thinking_blocks(text: &str) -> (r: String)
    ensures
        r@ == cleaned_reply(text@),
{
    let v = chars_of(text);
    proof {
        reveal_strlit("</think>");
        reveal_strlit("</thinking>");
    }
    let a = strip_blocks_exec(v, "<think>", "</think>");
    let b = strip_blocks_exec(a, "<thinking>", "</thinking>");
    let t = trimmed(&b);
    string_of(&t)
}

} // verus!
