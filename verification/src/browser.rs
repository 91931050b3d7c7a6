//! The session browser: a list of stored sessions with one selected, a
//! scrollable preview of the selected conversation, and the keys that move
//! through the list, open a session or delete one.
use vstd::prelude::*;
use crate::session::{message_views, Message, MessageSpec};
use crate::text::{
    chars_of, ends_with, extend, extend_str, find_char_from, find_char_in, find_from, find_in, has_suffix_str,
    lemma_find_char_from_found, lemma_find_from_first, slice, string_of,
};

verus! {

broadcast use vstd::string::group_string_axioms;

/// A stored session as the browser lists it.
#[derive(Debug, Clone)]
pub struct SessionFile {
    pub filename: String,
    pub path: String,
    pub preview: String,
    pub is_active: bool,
}

/// The keys and wheel movements the browser reacts to.
#[derive(Debug, Clone, Copy, PartialEq, Eq, Structural)]
pub enum BrowserKey {
    /// `q` or Esc.
    Quit,
    /// Down arrow or `j`.
    Down,
    /// Up arrow or `k`.
    Up,
    /// Page Down or Tab.
    PageDown,
    /// Page Up or Shift-Tab.
    PageUp,
    /// Enter.
    Open,
    /// `d` or Delete.
    Delete,
    /// Mouse wheel down.
    WheelDown,
    /// Mouse wheel up.
    WheelUp,
    /// Anything else.
    Other,
}

/// What the caller does after a key.
#[derive(Debug)]
pub enum BrowserAction {
    /// Keep browsing.
    Stay,
    /// Leave without choosing.
    Quit,
    /// Leave with the session stored at this path chosen.
    Open(String),
    /// Remove the file of the session that was dropped from the list.
    Remove(String),
}

/// The browser's state: the sessions, the selected one, and how far the
/// preview is scrolled.
pub struct SessionBrowser {
    pub sessions: Vec<SessionFile>,
    pub selected: Option<usize>,
    pub scroll: u16,
}

/// `u16::saturating_add`.
pub open spec fn sat_add(a: u16, b: u16) -> u16 {
    if a + b > u16::MAX {
        u16::MAX
    } else {
        (a + b) as u16
    }
}

/// `u16::saturating_sub`.
pub open spec fn sat_sub(a: u16, b: u16) -> u16 {
    if a < b {
        0
    } else {
        (a - b) as u16
    }
}

/// The selection after moving down: the next entry, wrapping to the first
/// after the last.
pub open spec fn select_down(selected: Option<usize>, len: nat) -> usize {
    match selected {
        Some(i) => if i + 1 >= len {
            0
        } else {
            (i + 1) as usize
        },
        None => 0,
    }
}

/// The selection after moving up: the previous entry, wrapping to the last
/// before the first.
pub open spec fn select_up(selected: Option<usize>, len: nat) -> usize {
    match selected {
        Some(i) => if i == 0 {
            if len == 0 {
                0
            } else {
                (len - 1) as usize
            }
        } else {
            (i - 1) as usize
        },
        None => 0,
    }
}

/// The selection after the entry at `i` was removed from a list that now
/// holds `len` entries.
pub open spec fn select_after_removal(i: usize, len: nat) -> Option<usize> {
    if len == 0 {
        None
    } else if i >= len {
        Some((len - 1) as usize)
    } else {
        Some(i)
    }
}

/// The entry at the selection, if the selection points into the list.
pub open spec fn selected_entry(sessions: Seq<SessionFile>, selected: Option<usize>) -> Option<int> {
    match selected {
        Some(i) => if i < sessions.len() {
            Some(i as int)
        } else {
            None
        },
        None => None,
    }
}

impl SessionBrowser {
    /// A browser over the sessions, the first one selected.
    pub fn new(sessions: Vec<SessionFile>) -> (b: SessionBrowser)
        ensures
            b.sessions@ == sessions@,
            b.selected == if sessions@.len() == 0 {
                None
            } else {
                Some(0usize)
            },
            b.scroll == 0,
    {
        let selected = if sessions.len() == 0 {
            None
        } else {
            Some(0)
        };
        SessionBrowser { sessions, selected, scroll: 0 }
    }

    /// Reacts to a key. Moving up or down wraps around and resets the
    /// preview scroll; the page keys scroll by five lines and the wheel by
    /// three, without going below zero or past the largest offset; Enter
    /// chooses the selected session; Delete drops the selected session from
    /// the list (never the terminal's current one) and keeps a selection
    /// inside the list.
    pub fn on_key(&mut self, key: BrowserKey) -> (a: BrowserAction)
        ensures
            match key {
                BrowserKey::Quit => a is Quit && *final(self) == *old(self),
                BrowserKey::Down => {
                    &&& a is Stay
                    &&& final(self).selected == Some(select_down(old(self).selected, old(self).sessions@.len()))
                    &&& final(self).scroll == 0
                    &&& final(self).sessions == old(self).sessions
                },
                BrowserKey::Up => {
                    &&& a is Stay
                    &&& final(self).selected == Some(select_up(old(self).selected, old(self).sessions@.len()))
                    &&& final(self).scroll == 0
                    &&& final(self).sessions == old(self).sessions
                },
                BrowserKey::PageDown => a is Stay && *final(self) == (SessionBrowser {
                    scroll: sat_add(old(self).scroll, 5),
                    ..*old(self)
                }),
                BrowserKey::PageUp => a is Stay && *final(self) == (SessionBrowser {
                    scroll: sat_sub(old(self).scroll, 5),
                    ..*old(self)
                }),
                BrowserKey::WheelDown => a is Stay && *final(self) == (SessionBrowser {
                    scroll: sat_add(old(self).scroll, 3),
                    ..*old(self)
                }),
                BrowserKey::WheelUp => a is Stay && *final(self) == (SessionBrowser {
                    scroll: sat_sub(old(self).scroll, 3),
                    ..*old(self)
                }),
                BrowserKey::Open => {
                    &&& *final(self) == *old(self)
                    &&& match selected_entry(old(self).sessions@, old(self).selected) {
                        Some(i) => a matches BrowserAction::Open(p) && p@ == old(self).sessions@[i].path@,
                        None => a is Stay,
                    }
                },
                BrowserKey::Delete => match selected_entry(old(self).sessions@, old(self).selected) {
                    Some(i) => if old(self).sessions@[i].is_active {
                        a is Stay && *final(self) == *old(self)
                    } else {
                        &&& a matches BrowserAction::Remove(p) && p@ == old(self).sessions@[i].path@
                        &&& final(self).sessions@ == old(self).sessions@.remove(i)
                        &&& final(self).selected == select_after_removal(
                            i as usize,
                            final(self).sessions@.len(),
                        )
                        &&& final(self).scroll == old(self).scroll
                    },
                    None => a is Stay && *final(self) == *old(self),
                },
                BrowserKey::Other => a is Stay && *final(self) == *old(self),
            },
    {
        let len = self.sessions.len();
        match key {
            BrowserKey::Quit => BrowserAction::Quit,
            BrowserKey::Down => {
                let i = match self.selected {
                    Some(i) => if i >= len.saturating_sub(1) {
                        0
                    } else {
                        i + 1
                    },
                    None => 0,
                };
                self.selected = Some(i);
                self.scroll = 0;
                BrowserAction::Stay
            },
            BrowserKey::Up => {
                let i = match self.selected {
                    Some(i) => if i == 0 {
                        len.saturating_sub(1)
                    } else {
                        i - 1
                    },
                    None => 0,
                };
                self.selected = Some(i);
                self.scroll = 0;
                BrowserAction::Stay
            },
            BrowserKey::PageDown => {
                self.scroll = self.scroll.saturating_add(5);
                BrowserAction::Stay
            },
            BrowserKey::PageUp => {
                self.scroll = self.scroll.saturating_sub(5);
                BrowserAction::Stay
            },
            BrowserKey::WheelDown => {
                self.scroll = self.scroll.saturating_add(3);
                BrowserAction::Stay
            },
            BrowserKey::WheelUp => {
                self.scroll = self.scroll.saturating_sub(3);
                BrowserAction::Stay
            },
            BrowserKey::Open => match self.selected {
                Some(i) => if i < len {
                    BrowserAction::Open(self.sessions[i].path.clone())
                } else {
                    BrowserAction::Stay
                },
                None => BrowserAction::Stay,
            },
            BrowserKey::Delete => match self.selected {
                Some(i) => if i < len && !self.sessions[i].is_active {
                    let removed = self.sessions.remove(i);
                    let n = self.sessions.len();
                    if i >= n && n > 0 {
                        self.selected = Some(n - 1);
                    } else if n == 0 {
                        self.selected = None;
                    }
                    BrowserAction::Remove(removed.path)
                } else {
                    BrowserAction::Stay
                },
                None => BrowserAction::Stay,
            },
            BrowserKey::Other => BrowserAction::Stay,
        }
    }
}

/// `s` with every occurrence of `p` removed, scanning left to right.
pub open spec fn remove_all(s: Seq<char>, p: Seq<char>) -> Seq<char>
    decreases s.len(),
{
    if p.len() == 0 {
        s
    } else {
        match find_from(s, p, 0) {
            None => s,
            Some(k) => {
                proof {
                    lemma_find_from_first(s, p, 0, k);
                }
                s.subrange(0, k) + remove_all(s.subrange(k + p.len(), s.len() as int), p)
            },
        }
    }
}

/// How the list shows a session: a filled dot for the terminal's current
/// session, an empty one otherwise, then the file name without `.json`, and
/// the preview.
pub open spec fn list_label(f: SessionFile) -> Seq<char> {
    (if f.is_active {
        "●"@
    } else {
        "○"@
    }) + " "@ + remove_all(f.filename@, ".json"@) + " | "@ + f.preview@
}

fn without(s: &str, p: &str) -> (r: Vec<char>)
    requires
        p@.len() > 0,
    ensures
        r@ == remove_all(s@, p@),
{
    let pv = chars_of(p);
    let mut cur = chars_of(s);
    let mut out: Vec<char> = Vec::new();
    loop
        invariant
            pv@ == p@,
            pv@.len() > 0,
            out@ + remove_all(cur@, p@) == remove_all(s@, p@),
        decreases cur@.len(),
    {
        match find_in(&cur, &pv, 0) {
            None => {
                extend(&mut out, &cur);
                return out;
            },
            Some(k) => {
                proof {
                    lemma_find_from_first(cur@, pv@, 0, k as int);
                }
                let plen = pv.len();
                let clen = cur.len();
                assert(k + plen <= clen);
                let head = slice(&cur, 0, k);
                let tail = slice(&cur, k + plen, clen);
                extend(&mut out, &head);
                assert(out@ + remove_all(tail@, p@) =~= remove_all(s@, p@));
                cur = tail;
            },
        }
    }
}

/// The list entry for a session.
pub fn session_label(f: &SessionFile) -> (r: String)
    ensures
        r@ == list_label(*f),
{
    let mut v: Vec<char> = Vec::new();
    if f.is_active {
        extend_str(&mut v, "●");
    } else {
        extend_str(&mut v, "○");
    }
    extend_str(&mut v, " ");
    proof {
        reveal_strlit(".json");
    }
    let name = without(f.filename.as_str(), ".json");
    extend(&mut v, &name);
    extend_str(&mut v, " | ");
    extend_str(&mut v, f.preview.as_str());
    string_of(&v)
}

/// Whether a file of the sessions directory holds a session: a `.json`
/// file that is not a terminal history (`_history.json`).
pub open spec fn is_session_file(name: Seq<char>) -> bool {
    ends_with(name, ".json"@) && !ends_with(name, "_history.json"@)
}

pub fn session_file_name(name: &str) -> (r: bool)
    ensures
        r == is_session_file(name@),
{
    let v = chars_of(name);
    has_suffix_str(&v, ".json") && !has_suffix_str(&v, "_history.json")
}

/// The longest preview the list shows, in characters.
pub const PREVIEW_CHARS: usize = 60;

/// The index of the first message with the given role.
pub open spec fn first_with_role(ms: Seq<MessageSpec>, role: Seq<char>, i: int) -> Option<int>
    decreases ms.len() - i,
{
    if i < 0 || i >= ms.len() {
        None
    } else if ms[i].role == role {
        Some(i)
    } else {
        first_with_role(ms, role, i + 1)
    }
}

/// The text before the first line break.
pub open spec fn first_line(s: Seq<char>) -> Seq<char> {
    match find_char_from(s, '\n', 0) {
        Some(i) => s.subrange(0, i),
        None => s,
    }
}

/// How a stored session is previewed in the list: the first line of its
/// first user message, at most sixty characters, or `(empty)`.
pub open spec fn preview_text(ms: Seq<MessageSpec>) -> Seq<char> {
    match first_with_role(ms, "user"@, 0) {
        Some(i) => {
            let l = first_line(ms[i].content);
            if l.len() > PREVIEW_CHARS {
                l.subrange(0, PREVIEW_CHARS as int)
            } else {
                l
            }
        },
        None => "(empty)"@,
    }
}

/// The list preview of a stored session.
pub fn session_preview(messages: &Vec<Message>) -> (r: String)
    ensures
        r@ == preview_text(message_views(messages@)),
{
    let ghost ms = message_views(messages@);
    let mut i: usize = 0;
    while i < messages.len()
        invariant
            i <= messages.len(),
            ms == message_views(messages@),
            first_with_role(ms, "user"@, 0) == first_with_role(ms, "user"@, i as int),
        decreases messages.len() - i,
    {
        let role = chars_of(messages[i].role.as_str());
        if crate::text::eq_str(&role, "user") {
            assert(ms[i as int] == messages@[i as int]@);
            let c = chars_of(messages[i].content.as_str());
            let end = match find_char_in(&c, '\n', 0) {
                Some(k) => {
                    proof {
                        lemma_find_char_from_found(c@, '\n', 0, k as int);
                    }
                    k
                },
                None => c.len(),
            };
            let line = slice(&c, 0, end);
            let cut = if line.len() > PREVIEW_CHARS {
                slice(&line, 0, PREVIEW_CHARS)
            } else {
                line
            };
            return string_of(&cut);
        }
        assert(ms[i as int] == messages@[i as int]@);
        i += 1;
    }
    "(empty)".to_string()
}

/// Who a preview line is from.
#[derive(Debug, Clone, Copy, PartialEq, Eq, Structural)]
pub enum Speaker {
    User,
    Mobius,
    /// A spacer line.
    Blank,
}

/// A line of the conversation preview.
#[derive(Debug)]
pub struct PreviewLine {
    pub speaker: Speaker,
    pub text: String,
}

pub struct PreviewLineSpec {
    pub speaker: Speaker,
    pub text: Seq<char>,
}

impl View for PreviewLine {
    type V = PreviewLineSpec;

    open spec fn view(&self) -> PreviewLineSpec {
        PreviewLineSpec { speaker: self.speaker, text: self.text@ }
    }
}

/// The preview lines of one message: the user's and the model's messages
/// with their speaker, others left out, each followed by a spacer.
pub open spec fn message_preview(m: MessageSpec) -> Seq<PreviewLineSpec> {
    let blank = PreviewLineSpec { speaker: Speaker::Blank, text: Seq::empty() };
    if m.role == "user"@ {
        seq![PreviewLineSpec { speaker: Speaker::User, text: m.content }, blank]
    } else if m.role == "assistant"@ {
        seq![PreviewLineSpec { speaker: Speaker::Mobius, text: m.content }, blank]
    } else {
        seq![blank]
    }
}

/// The preview of a conversation.
pub open spec fn conversation_preview(ms: Seq<MessageSpec>) -> Seq<PreviewLineSpec>
    decreases ms.len(),
{
    if ms.len() == 0 {
        Seq::empty()
    } else {
        conversation_preview(ms.drop_last()) + message_preview(ms.last())
    }
}

pub open spec fn preview_views(v: Seq<PreviewLine>) -> Seq<PreviewLineSpec> {
    Seq::new(v.len(), |i: int| v[i]@)
}

/// The preview of a stored conversation.
pub fn preview_lines(messages: &Vec<Message>) -> (r: Vec<PreviewLine>)
    ensures
        preview_views(r@) == conversation_preview(message_views(messages@)),
{
    let mut out: Vec<PreviewLine> = Vec::new();
    let mut i: usize = 0;
    while i < messages.len()
        invariant
            i <= messages.len(),
            preview_views(out@) == conversation_preview(message_views(messages@).subrange(0, i as int)),
        decreases messages.len() - i,
    {
        let m = &messages[i];
        let role = chars_of(m.role.as_str());
        let ghost before = preview_views(out@);
        let ghost ms = message_views(messages@).subrange(0, i + 1);
        assert(ms.drop_last() =~= message_views(messages@).subrange(0, i as int));
        assert(ms.last() == m@);
        if crate::text::eq_str(&role, "user") {
            out.push(PreviewLine { speaker: Speaker::User, text: m.content.clone() });
        } else if crate::text::eq_str(&role, "assistant") {
            out.push(PreviewLine { speaker: Speaker::Mobius, text: m.content.clone() });
        }
        out.push(PreviewLine { speaker: Speaker::Blank, text: String::new() });
        assert(preview_views(out@) =~= before + message_preview(m@));
        i += 1;
    }
    assert(message_views(messages@).subrange(0, messages@.len() as int) =~= message_views(messages@));
    out
}

} // verus!
