//! A conversation kept per terminal, and the recorded terminal history.
use vstd::prelude::*;
use crate::ipc::{HistoryEntry, HistoryEntrySpec};
use crate::text::{decimal, decimal_chars, extend, extend_str, string_of};
use std::collections::VecDeque;

verus! {

/// One chat message.
#[derive(Debug, Clone)]
pub struct Message {
    pub role: String,
    pub content: String,
}

pub struct MessageSpec {
    pub role: Seq<char>,
    pub content: Seq<char>,
}

impl View for Message {
    type V = MessageSpec;

    open spec fn view(&self) -> MessageSpec {
        MessageSpec { role: self.role@, content: self.content@ }
    }
}

impl Message {
    /// A copy of the message.
    pub fn duplicate(&self) -> (r: Message)
        ensures
            r@ == self@,
    {
        Message { role: self.role.clone(), content: self.content.clone() }
    }
}

/// The views of a list of messages.
pub open spec fn message_views(ms: Seq<Message>) -> Seq<MessageSpec> {
    Seq::new(ms.len(), |i: int| ms[i]@)
}

/// The conversation of one terminal.
#[derive(Debug, Clone)]
pub struct Session {
    pub messages: Vec<Message>,
    pub thinking_level: Option<String>,
    pub model_provider: Option<String>,
    pub model_name: Option<String>,
    pub last_prompt_tokens: usize,
    pub last_completion_tokens: usize,
    pub context_window: usize,
}

/// The instructions that open every request to the model.
pub const SYSTEM_PROMPT: &'static str = "You are Mobius, an AI agent that lives in the terminal. You should be helpful and concise. You have full access to the host file system, terminal using tools available and recorded terminal history. Your task is to help the user with their queries by replying in a helpful and concise manner.

            TERMINAL HISTORY CONTEXT:
            - Prompts may contain a section tagged as `[Context: Last N Terminal Commands]`. This section contains real, accurate logs of the user's recent terminal commands and their execution outputs. Always read and refer to this context when asked about past commands or terminal actions.

            You have full access to these 6 tools:
            - `read` to read any local plain-text file (config files, source code, scripts, logs, markdown, json, etc.).
            - `write` to create or overwrite any local plain-text files completely.
            - `edit` to make targeted search-and-replace edits in local files.
            - `bash` to run shell commands.
            - 'web_search' to search the internet for up-to-date information, documentation, or URLs.
            - `read_webpage` to fetch and extract the main content of a webpage into readable Markdown format.

            TOOL BLOCK SYNTAX:
            To use/invoke a tool, you MUST output a Markdown block using the tool name:

            TOOL USAGE:
            1. 'read' - To read ANY file contents (configs, code, scripts, text, logs, etc.):
            ```read
            /etc/bluetooth/main.conf
            ```

            2. 'write' - To create a new file OR replace an entire file's content completely (first line is path, following lines are content):
            ```write
            ~/path/to/file.txt
            Full file content goes here.
            ```

            3. 'edit' - To replace specific sections inside an existing file using SEARCH/REPLACE blocks (first line is path):
            ```edit
            ~/path/to/file.txt
            <<<<<<< SEARCH
            exact original code lines to find
            =======
            replacement code lines to insert
            >>>>>>> REPLACE
            ```

            4. 'bash' - Executes shell commands:
            ```bash
            ls -la ~/obsidian_vaults/general
            ```

            5. `web_search` - To search the web (query inside block):
            ```web_search
            how to undo last commit in git
            ```

            6. 'read_webpage' - To web content of provided URL:
            ```read_webpage
            https://git-scm.com/docs/git-reset
            ```

            TOOL RULES:
            1. For ALL file tools (`read`, `write`, `edit`), the target file path MUST be specified on the very first line inside the code block.
            2. ALWAYS run `read` on a file before using `edit` to ensure an exact match of indentation and content.
            3. Use `write` if you are creating a new file or replacing/rewriting the whole file (e.g. adding extensive comments to a short file).
            4. Use `edit` for small, targeted modifications in large files to avoid re-generating unchanged code. You might always have to make multiple edits in a file, if required you MUST do it. But to do so, you must use 'edit' tool multiple times but NEVER in single response. ALWAYS one change/tool call after another.
            5. Whenever you want to use 'cat' to read something, alway use 'read' tool specifically.
            6. DO NOT use 'curl' in 'bash' tool to fetch, search or read a webpage. Try to use `web_search` and 'read_webpage'.
            7. For 'web_search' tool, ALWAYS use single query per tool use. If you want to use multiple queries, then use tool multiple times (once per response ALWAYS).
            8. For 'read_webpage' tool, ALWAYS use single url per tool use. If you want to read multiple webpages, then use tool multiple times (once per response ALWAYS).

            CRITICAL BEHAVIOR RULES:
            1. NEVER REFUSE FILE OR HISTORY ACCESS: Never state 'I do not have access to history' or 'I am an AI'. You have direct access to injected terminal context and files.
            2. AUTOMATIC EXECUTION: Any 'bash', 'read', 'write', 'edit', 'web_search' or 'read_webpage' block you output WILL be executed automatically.
            3. STRICT TOOL RULE: If the user asks about or requests changes to local files, YOU MUST FIRST use 'read' to inspect the file before executing 'edit' or 'write'.
            4. ONE TOOL PER RESPONSE: You MUST strictly output only ONE tool block per response. Wait for the execution result before taking further action.
            5. MANDATORY FINAL ANSWER: Always provide a clear summary or answer after receiving tool results.";

/// The messages a request to the model carries: the system prompt, then the history.
pub open spec fn api_messages(s: Session) -> Seq<MessageSpec> {
    seq![MessageSpec { role: "system"@, content: SYSTEM_PROMPT@ }] + message_views(s.messages@)
}

impl Default for Session {
    fn default() -> (s: Session)
        ensures
            s.messages@.len() == 0,
            s.thinking_level is None,
            s.model_provider is None,
            s.model_name is None,
            s.last_prompt_tokens == 0,
            s.last_completion_tokens == 0,
            s.context_window == 0,
    {
        Session {
            messages: Vec::new(),
            thinking_level: None,
            model_provider: None,
            model_name: None,
            last_prompt_tokens: 0,
            last_completion_tokens: 0,
            context_window: 0,
        }
    }
}

/// `dir` joined with a relative file name, as `Path::join` does.
pub open spec fn join_path(dir: Seq<char>, name: Seq<char>) -> Seq<char> {
    if dir.len() == 0 {
        name
    } else if dir.last() == '/' {
        dir + name
    } else {
        dir + "/"@ + name
    }
}

/// `Path::join` with a relative name.
pub fn join_path_exec(dir: &str, name: &str) -> (r: String)
    ensures
        r@ == join_path(dir@, name@),
{
    let mut v = crate::text::chars_of(dir);
    if v.len() > 0 && v[v.len() - 1] != '/' {
        extend_str(&mut v, "/");
    }
    extend_str(&mut v, name);
    string_of(&v)
}

/// The directory of the mobius state below a home directory.
pub open spec fn state_dir(home: Seq<char>) -> Seq<char> {
    join_path(join_path(join_path(home, ".local"@), "state"@), "mobius"@)
}

/// `~/.local/state/mobius` for the given home directory.
pub fn get_state_dir(home: &str) -> (r: String)
    ensures
        r@ == state_dir(home@),
{
    let a = join_path_exec(home, ".local");
    let b = join_path_exec(a.as_str(), "state");
    join_path_exec(b.as_str(), "mobius")
}

impl Session {
    /// The directory that holds the sessions: `~/.local/state/mobius/sessions`.
    pub fn get_session_dir(home: &str) -> (r: String)
        ensures
            r@ == join_path(state_dir(home@), "sessions"@),
    {
        let d = get_state_dir(home);
        join_path_exec(d.as_str(), "sessions")
    }

    /// The file of the session of terminal `ppid` in `dir`: `<ppid>.json`.
    pub fn get_file_path(dir: &str, ppid: u32) -> (r: String)
        ensures
            r@ == join_path(dir@, decimal(ppid as nat) + ".json"@),
    {
        let mut name = decimal_chars(ppid as u64);
        extend_str(&mut name, ".json");
        let n = string_of(&name);
        join_path_exec(dir, n.as_str())
    }

    /// Appends a new message to the history.
    pub fn add_message(&mut self, role: &str, content: &str)
        ensures
            message_views(final(self).messages@) == message_views(old(self).messages@).push(
                MessageSpec { role: role@, content: content@ },
            ),
            final(self).thinking_level == old(self).thinking_level,
            final(self).model_provider == old(self).model_provider,
            final(self).model_name == old(self).model_name,
            final(self).last_prompt_tokens == old(self).last_prompt_tokens,
            final(self).last_completion_tokens == old(self).last_completion_tokens,
            final(self).context_window == old(self).context_window,
    {
        let m = Message { role: role.to_string(), content: content.to_string() };
        self.messages.push(m);
        assert(message_views(self.messages@) =~= message_views(old(self).messages@).push(
            MessageSpec { role: role@, content: content@ },
        ));
    }

    /// The messages for the model: the system prompt first, then the history.
    pub fn get_api_messages(&self) -> (r: Vec<Message>)
        ensures
            message_views(r@) == api_messages(*self),
    {
        let mut out: Vec<Message> = Vec::new();
        out.push(Message { role: "system".to_string(), content: SYSTEM_PROMPT.to_string() });
        let n = self.messages.len();
        for i in 0..n
            invariant
                n == self.messages@.len(),
                message_views(out@) == seq![MessageSpec { role: "system"@, content: SYSTEM_PROMPT@ }]
                    + message_views(self.messages@).subrange(0, i as int),
        {
            let m = self.messages[i].duplicate();
            let ghost prev = message_views(out@);
            let ghost mv = m@;
            out.push(m);
            assert(message_views(out@) =~= prev.push(mv));
            assert(message_views(out@) =~= seq![MessageSpec { role: "system"@, content: SYSTEM_PROMPT@ }]
                + message_views(self.messages@).subrange(0, i + 1));
        }
        assert(message_views(self.messages@).subrange(0, n as int) =~= message_views(self.messages@));
        out
    }
}

/// The most entries the terminal history keeps.
pub const MAX_HISTORY: usize = 10;

/// The recorded commands of one terminal, oldest first.
#[derive(Debug)]
pub struct TerminalHistory {
    pub entries: VecDeque<HistoryEntry>,
}

pub open spec fn entry_views(es: Seq<HistoryEntry>) -> Seq<HistoryEntrySpec> {
    Seq::new(es.len(), |i: int| es[i]@)
}

/// The entries after recording one more: the oldest goes first when the
/// history is full.
pub open spec fn pushed_history(es: Seq<HistoryEntrySpec>, e: HistoryEntrySpec) -> Seq<HistoryEntrySpec> {
    if es.len() >= MAX_HISTORY {
        es.drop_first().push(e)
    } else {
        es.push(e)
    }
}

/// The newest `n` entries (all if there are fewer), oldest first.
pub open spec fn last_entries(es: Seq<HistoryEntrySpec>, n: nat) -> Seq<HistoryEntrySpec> {
    if n >= es.len() {
        es
    } else {
        es.subrange(es.len() - n, es.len() as int)
    }
}

impl Default for TerminalHistory {
    fn default() -> (h: TerminalHistory)
        ensures
            h.entries@.len() == 0,
    {
        TerminalHistory { entries: VecDeque::new() }
    }
}

impl TerminalHistory {
    /// The history file of terminal `ppid` in `dir`: `<ppid>_history.json`.
    pub fn get_history_file(dir: &str, ppid: u32) -> (r: String)
        ensures
            r@ == join_path(dir@, decimal(ppid as nat) + "_history.json"@),
    {
        let mut name = decimal_chars(ppid as u64);
        extend_str(&mut name, "_history.json");
        let n = string_of(&name);
        join_path_exec(dir, n.as_str())
    }

    /// Records a command and its output; at most 10 entries are kept, the
    /// oldest leaving first.
    pub fn push_entry(&mut self, command: String, output: String)
        ensures
            entry_views(final(self).entries@) == pushed_history(
                entry_views(old(self).entries@),
                HistoryEntrySpec { command: command@, output: output@ },
            ),
    {
        let ghost e = HistoryEntrySpec { command: command@, output: output@ };
        if self.entries.len() >= MAX_HISTORY {
            let _ = self.entries.pop_front();
            assert(entry_views(self.entries@) =~= entry_views(old(self).entries@).drop_first());
        }
        self.entries.push_back(HistoryEntry { command, output });
        assert(entry_views(self.entries@) =~= pushed_history(entry_views(old(self).entries@), e));
    }

    /// The newest `n` entries, oldest first.
    pub fn get_last_n(&self, n: usize) -> (r: Vec<HistoryEntry>)
        ensures
            entry_views(r@) == last_entries(entry_views(self.entries@), n as nat),
    {
        let len = self.entries.len();
        let start: usize = if n >= len { 0 } else { len - n };
        let mut out: Vec<HistoryEntry> = Vec::new();
        for i in start..len
            invariant
                len == self.entries@.len(),
                start <= len,
                entry_views(out@) == entry_views(self.entries@).subrange(start as int, i as int),
        {
            let e = self.entries[i].duplicate();
            let ghost prev = entry_views(out@);
            let ghost ev = e@;
            out.push(e);
            assert(entry_views(out@) =~= prev.push(ev));
            assert(entry_views(out@) =~= entry_views(self.entries@).subrange(start as int, i + 1));
        }
        assert(entry_views(self.entries@).subrange(0, len as int) =~= entry_views(self.entries@));
        out
    }
}

} // verus!
