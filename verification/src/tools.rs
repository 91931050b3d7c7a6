//! Tool calls: recognising them in a model reply, and turning the results of
//! running them into the text that goes back to the model.
use vstd::prelude::*;
use crate::text::{
    chars_of, concat_each_with, contains, decimal, decimal_chars, find_from, signed_decimal,
    signed_decimal_chars, eq_str, extend, extend_str, find, find_in, has_prefix_str,
    lemma_find_from_first, lines, match_at, slice, split_lines, starts_with, string_of, trim,
    trim_char, trim_start_char, trimmed, trimmed_char, trimmed_start_char,
};

verus! {

broadcast use vstd::string::group_string_axioms;

/// A tool invocation found in a model reply.
#[derive(Debug, PartialEq)]
pub enum ToolCall {
    /// Direct bash/shell command execution.
    Shell(String),
    /// File reading tool.
    Read { path: String },
    /// File creation and overwrite tool.
    Write { path: String, content: String },
    /// File edit tool.
    Edit { path: String, old_text: String, new_text: String },
    /// Search the web with a query.
    WebSearch { query: String },
    /// Read a web page.
    ReadWebPage { url: String },
}

/// The contents of a tool call.
pub enum ToolCallSpec {
    Shell(Seq<char>),
    Read { path: Seq<char> },
    Write { path: Seq<char>, content: Seq<char> },
    Edit { path: Seq<char>, old_text: Seq<char>, new_text: Seq<char> },
    WebSearch { query: Seq<char> },
    ReadWebPage { url: Seq<char> },
}

impl View for ToolCall {
    type V = ToolCallSpec;

    open spec fn view(&self) -> ToolCallSpec {
        match self {
            ToolCall::Shell(c) => ToolCallSpec::Shell(c@),
            ToolCall::Read { path } => ToolCallSpec::Read { path: path@ },
            ToolCall::Write { path, content } => ToolCallSpec::Write {
                path: path@,
                content: content@,
            },
            ToolCall::Edit { path, old_text, new_text } => ToolCallSpec::Edit {
                path: path@,
                old_text: old_text@,
                new_text: new_text@,
            },
            ToolCall::WebSearch { query } => ToolCallSpec::WebSearch { query: query@ },
            ToolCall::ReadWebPage { url } => ToolCallSpec::ReadWebPage { url: url@ },
        }
    }
}

pub open spec fn opt_call_view(r: Option<ToolCall>) -> Option<ToolCallSpec> {
    match r {
        Some(c) => Some(c@),
        None => None,
    }
}

// ----- SEARCH/REPLACE markers -----

/// The SEARCH/REPLACE texts of an edit block: the text between the first
/// `<<<<<<< SEARCH` and the first `=======`, and between that and the first
/// `>>>>>>> REPLACE`, each with surrounding newlines trimmed; none when a
/// marker is missing, out of order, or the search text is empty.
pub open spec fn edit_markers(c: Seq<char>) -> Option<(Seq<char>, Seq<char>)> {
    match (find(c, "<<<<<<< SEARCH"@), find(c, "======="@), find(c, ">>>>>>> REPLACE"@)) {
        (Some(a), Some(b), Some(e)) => {
            if a < b && b < e {
                let old_text = trim_char(c.subrange(a + 14, b), '\n');
                let new_text = trim_char(c.subrange(b + 7, e), '\n');
                if old_text.len() > 0 {
                    Some((old_text, new_text))
                } else {
                    None
                }
            } else {
                None
            }
        },
        _ => None,
    }
}

/// Reads the SEARCH/REPLACE markers of an edit block.
pub fn parse_edit_markers(content: &str) -> (r: Option<(String, String)>)
    ensures
        match r {
            Some((o, n)) => edit_markers(content@) == Some((o@, n@)),
            None => edit_markers(content@) is None,
        },
{
    let c = chars_of(content);
    let sv = chars_of("<<<<<<< SEARCH");
    let mv = chars_of("=======");
    let ev = chars_of(">>>>>>> REPLACE");
    proof {
        reveal_strlit("<<<<<<< SEARCH");
        reveal_strlit("=======");
        reveal_strlit(">>>>>>> REPLACE");
    }
    let a = match find_in(&c, &sv, 0) {
        Some(a) => a,
        None => return None,
    };
    let b = match find_in(&c, &mv, 0) {
        Some(b) => b,
        None => return None,
    };
    let e = match find_in(&c, &ev, 0) {
        Some(e) => e,
        None => return None,
    };
    if !(a < b && b < e) {
        return None;
    }
    proof {
        lemma_find_from_first(c@, sv@, 0, a as int);
        lemma_find_from_first(c@, mv@, 0, b as int);
        lemma_find_from_first(c@, ev@, 0, e as int);
        if b < a + 14 {
            assert(c@.subrange(a as int, a + 14)[b - a] == c@[b as int]);
            assert(c@.subrange(b as int, b + 7)[0] == c@[b as int]);
        }
        if e < b + 7 {
            assert(c@.subrange(b as int, b + 7)[e - b] == c@[e as int]);
            assert(c@.subrange(e as int, e + 15)[0] == c@[e as int]);
        }
    }
    let old_raw = slice(&c, a + 14, b);
    let new_raw = slice(&c, b + 7, e);
    let old_text = trimmed_char(&old_raw, '\n');
    let new_text = trimmed_char(&new_raw, '\n');
    if old_text.len() > 0 {
        Some((string_of(&old_text), string_of(&new_text)))
    } else {
        None
    }
}

// ----- tool blocks -----

/// A fence line: one that starts with three backticks once trimmed.
pub open spec fn is_fence(line: Seq<char>) -> bool {
    starts_with(trim(line), "```"@)
}

/// The language tag of a fence line.
pub open spec fn fence_header(line: Seq<char>) -> Seq<char> {
    trim(trim_start_char(trim(line), '`'))
}

pub open spec fn known_header(h: Seq<char>) -> bool {
    ||| h == "bash"@
    ||| h == "sh"@
    ||| h == "read"@
    ||| h == "write"@
    ||| h == "edit"@
    ||| h == "web_search"@
    ||| h == "read_webpage"@
}

/// The index of the first fence line at or after `j` (or the number of lines).
pub open spec fn block_end(ls: Seq<Seq<char>>, j: int) -> int
    decreases ls.len() - j,
{
    if j < 0 || j >= ls.len() {
        ls.len() as int
    } else if is_fence(ls[j]) {
        j
    } else {
        block_end(ls, j + 1)
    }
}

pub open spec fn map_trim(body: Seq<Seq<char>>) -> Seq<Seq<char>> {
    Seq::new(body.len(), |k: int| trim(body[k]))
}

pub open spec fn opt_trim(body: Seq<Seq<char>>, trim_each: bool) -> Seq<Seq<char>> {
    if trim_each {
        map_trim(body)
    } else {
        body
    }
}

/// The first line of a block, trimmed (empty for an empty block).
pub open spec fn first_line_path(body: Seq<Seq<char>>) -> Seq<char> {
    if body.len() > 0 {
        trim(body[0])
    } else {
        Seq::empty()
    }
}

/// The lines after the first, each followed by a newline.
pub open spec fn rest_content(body: Seq<Seq<char>>) -> Seq<char> {
    if body.len() > 0 {
        concat_each_with(body.drop_first(), "\n"@)
    } else {
        Seq::empty()
    }
}

/// The tool call a block with header `h` and lines `body` stands for.
pub open spec fn block_call(h: Seq<char>, body: Seq<Seq<char>>) -> Option<ToolCallSpec> {
    if h == "bash"@ || h == "sh"@ {
        let cmd = trim(concat_each_with(body, "\n"@));
        if cmd.len() > 0 {
            Some(ToolCallSpec::Shell(cmd))
        } else {
            None
        }
    } else if h == "read"@ {
        let path = concat_each_with(map_trim(body), Seq::empty());
        if path.len() > 0 {
            Some(ToolCallSpec::Read { path })
        } else {
            None
        }
    } else if h == "write"@ {
        let path = first_line_path(body);
        if path.len() > 0 {
            Some(ToolCallSpec::Write { path, content: rest_content(body) })
        } else {
            None
        }
    } else if h == "edit"@ {
        match edit_markers(rest_content(body)) {
            Some((o, n)) => Some(
                ToolCallSpec::Edit { path: first_line_path(body), old_text: o, new_text: n },
            ),
            None => None,
        }
    } else if h == "web_search"@ {
        let q = trim(concat_each_with(map_trim(body), " "@));
        if q.len() > 0 {
            Some(ToolCallSpec::WebSearch { query: q })
        } else {
            None
        }
    } else if h == "read_webpage"@ {
        let url = concat_each_with(map_trim(body), Seq::empty());
        if url.len() > 0 {
            Some(ToolCallSpec::ReadWebPage { url })
        } else {
            None
        }
    } else {
        None
    }
}

pub proof fn lemma_block_end_bounds(ls: Seq<Seq<char>>, j: int)
    requires
        0 <= j <= ls.len(),
    ensures
        j <= block_end(ls, j) <= ls.len(),
        forall|m: int| j <= m < block_end(ls, j) ==> !is_fence(#[trigger] ls[m]),
        block_end(ls, j) < ls.len() ==> is_fence(ls[block_end(ls, j)]),
    decreases ls.len() - j,
{
    if j < ls.len() && !is_fence(ls[j]) {
        lemma_block_end_bounds(ls, j + 1);
    }
}

/// The first tool call in the lines from `i` on: a fence line with a known
/// header opens a block that runs to the next fence line; a block that
/// yields no call is skipped together with its closing fence, and any other
/// line is passed over.
pub open spec fn tool_call_from(ls: Seq<Seq<char>>, i: int) -> Option<ToolCallSpec>
    decreases ls.len() + 1 - i,
{
    if i < 0 || i >= ls.len() {
        None
    } else if is_fence(ls[i]) && known_header(fence_header(ls[i])) {
        let e = block_end(ls, i + 1);
        proof {
            lemma_block_end_bounds(ls, i + 1);
        }
        match block_call(fence_header(ls[i]), ls.subrange(i + 1, e)) {
            Some(c) => Some(c),
            None => tool_call_from(ls, e + 1),
        }
    } else {
        tool_call_from(ls, i + 1)
    }
}

/// The tool call in a reply, if any.
pub open spec fn reply_tool_call(text: Seq<char>) -> Option<ToolCallSpec> {
    tool_call_from(lines(text), 0)
}

pub open spec fn view_lines(ls: Seq<Vec<char>>) -> Seq<Seq<char>> {
    Seq::new(ls.len(), |k: int| ls[k]@)
}

fn is_fence_line(l: &Vec<char>) -> (r: bool)
    ensures
        r == is_fence(l@),
{
    let t = trimmed(l);
    has_prefix_str(&t, "```")
}

fn header_of(l: &Vec<char>) -> (r: Vec<char>)
    ensures
        r@ == fence_header(l@),
{
    let t = trimmed(l);
    let u = trimmed_start_char(&t, '`');
    trimmed(&u)
}

/// The lines `ls[lo..hi]`, trimmed if asked, each followed by `sep`.
fn gather(ls: &Vec<Vec<char>>, lo: usize, hi: usize, trim_each: bool, sep: &str) -> (r: Vec<char>)
    requires
        lo <= hi <= ls.len(),
    ensures
        r@ == concat_each_with(
            opt_trim(view_lines(ls@).subrange(lo as int, hi as int), trim_each),
            sep@,
        ),
{
    let mut r: Vec<char> = Vec::new();
    let mut k = lo;
    while k < hi
        invariant
            lo <= k <= hi <= ls.len(),
            r@ == concat_each_with(
                opt_trim(view_lines(ls@).subrange(lo as int, k as int), trim_each),
                sep@,
            ),
        decreases hi - k,
    {
        let ghost prev = opt_trim(view_lines(ls@).subrange(lo as int, k as int), trim_each);
        let ghost next = opt_trim(view_lines(ls@).subrange(lo as int, k + 1), trim_each);
        if trim_each {
            let t = trimmed(&ls[k]);
            extend(&mut r, &t);
        } else {
            extend(&mut r, &ls[k]);
        }
        extend_str(&mut r, sep);
        proof {
            assert(next.drop_last() =~= prev);
            assert(next.last() == if trim_each { trim(ls@[k as int]@) } else { ls@[k as int]@ });
        }
        k += 1;
    }
    r
}

proof fn lemma_opt_trim_false(body: Seq<Seq<char>>)
    ensures
        opt_trim(body, false) == body,
{
}

/// The call a known block yields.
fn build_block(h: &Vec<char>, ls: &Vec<Vec<char>>, lo: usize, hi: usize) -> (r: Option<ToolCall>)
    requires
        lo <= hi <= ls.len(),
    ensures
        opt_call_view(r) == block_call(h@, view_lines(ls@).subrange(lo as int, hi as int)),
{
    let ghost body = view_lines(ls@).subrange(lo as int, hi as int);
    proof {
        reveal_strlit("\n");
        reveal_strlit("");
        assert(""@ =~= Seq::<char>::empty());
        lemma_opt_trim_false(body);
    }
    if eq_str(h, "bash") || eq_str(h, "sh") {
        let cmd = gather(ls, lo, hi, false, "\n");
        let t = trimmed(&cmd);
        if t.len() > 0 {
            Some(ToolCall::Shell(string_of(&t)))
        } else {
            None
        }
    } else if eq_str(h, "read") {
        let path = gather(ls, lo, hi, true, "");
        proof {
            reveal_strlit("");
        }
        if path.len() > 0 {
            Some(ToolCall::Read { path: string_of(&path) })
        } else {
            None
        }
    } else if eq_str(h, "write") || eq_str(h, "edit") {
        let mut path: Vec<char> = Vec::new();
        let mut content: Vec<char> = Vec::new();
        if lo < hi {
            path = trimmed(&ls[lo]);
            content = gather(ls, lo + 1, hi, false, "\n");
            proof {
                assert(view_lines(ls@).subrange(lo + 1, hi as int) =~= body.drop_first());
            }
        }
        proof {
            assert(path@ == first_line_path(body));
            assert(content@ == rest_content(body));
        }
        if eq_str(h, "write") {
            if path.len() > 0 {
                Some(ToolCall::Write { path: string_of(&path), content: string_of(&content) })
            } else {
                None
            }
        } else {
            let cs = string_of(&content);
            match parse_edit_markers(cs.as_str()) {
                Some((old_text, new_text)) => Some(
                    ToolCall::Edit { path: string_of(&path), old_text, new_text },
                ),
                None => None,
            }
        }
    } else if eq_str(h, "web_search") {
        let q = gather(ls, lo, hi, true, " ");
        let t = trimmed(&q);
        if t.len() > 0 {
            Some(ToolCall::WebSearch { query: string_of(&t) })
        } else {
            None
        }
    } else if eq_str(h, "read_webpage") {
        let url = gather(ls, lo, hi, true, "");
        proof {
            reveal_strlit("");
        }
        if url.len() > 0 {
            Some(ToolCall::ReadWebPage { url: string_of(&url) })
        } else {
            None
        }
    } else {
        None
    }
}

/// Finds the first tool block in a model reply: a Markdown fence tagged
/// `bash`/`sh`, `read`, `write`, `edit`, `web_search` or `read_webpage`.
/// A block whose contents do not make a call (an empty command or path, an
/// edit without valid markers) is skipped and the search goes on after it.
pub fn parse_tool_call(text: &str) -> (r: Option<ToolCall>)
    ensures
        opt_call_view(r) == reply_tool_call(text@),
{
    let tv = chars_of(text);
    let ls = split_lines(&tv);
    let ghost lsv = lines(text@);
    assert(view_lines(ls@) =~= lsv);
    let n = ls.len();
    let mut i: usize = 0;
    while i < n
        invariant
            n == ls.len() == lsv.len(),
            lsv == lines(text@),
            view_lines(ls@) == lsv,
            i <= n,
            tool_call_from(lsv, 0) == tool_call_from(lsv, i as int),
        decreases n + 1 - i,
    {
        proof {
            assert(lsv[i as int] == ls@[i as int]@);
        }
        if is_fence_line(&ls[i]) {
            let h = header_of(&ls[i]);
            let known = eq_str(&h, "bash") || eq_str(&h, "sh") || eq_str(&h, "read") || eq_str(
                &h,
                "write",
            ) || eq_str(&h, "edit") || eq_str(&h, "web_search") || eq_str(&h, "read_webpage");
            if known {
                let mut e = i + 1;
                while e < n && !is_fence_line(&ls[e])
                    invariant
                        i < e <= n == ls.len() == lsv.len(),
                        view_lines(ls@) == lsv,
                        block_end(lsv, i + 1) == block_end(lsv, e as int),
                    decreases n - e,
                {
                    e += 1;
                }
                proof {
                    lemma_block_end_bounds(lsv, i + 1);
                }
                proof {
                    lemma_block_end_bounds(lsv, i + 1);
                    assert(lsv[i as int] == ls@[i as int]@);
                    if e < n {
                        assert(lsv[e as int] == ls@[e as int]@);
                    }
                    assert(block_end(lsv, e as int) == e);
                    assert(block_end(lsv, i + 1) == e);
                    assert(h@ == fence_header(lsv[i as int]));
                    assert(known_header(h@));
                    assert(is_fence(lsv[i as int]));
                    assert(tool_call_from(lsv, i as int) == match block_call(
                        h@,
                        lsv.subrange(i + 1, e as int),
                    ) {
                        Some(c) => Some(c),
                        None => tool_call_from(lsv, e + 1),
                    });
                }
                let c = build_block(&h, &ls, i + 1, e);
                if c.is_some() {
                    return c;
                }
                if e < n {
                    i = e + 1;
                } else {
                    i = n;
                }
            } else {
                i += 1;
            }
        } else {
            i += 1;
        }
    }
    None
}

// ----- results of running tools -----

/// What a finished shell command produced.
#[derive(Debug)]
pub struct CommandOutput {
    pub stdout: String,
    pub stderr: String,
    pub success: bool,
    pub exit_code: Option<i32>,
}

/// The report of a command for the model.
pub open spec fn llm_report(out: &CommandOutput) -> Seq<char> {
    let status = if out.success { "SUCCESS"@ } else { "FAILED"@ };
    let code = match out.exit_code {
        Some(c) => signed_decimal(c as int),
        None => "Unknown"@,
    };
    let head = "[Command Execution: "@ + status + " (Exit Code: "@ + code + ")]\n"@;
    let with_out = if trim(out.stdout@).len() > 0 {
        head + "--- STDOUT ---\n"@ + out.stdout@ + "\n"@
    } else {
        head
    };
    if trim(out.stderr@).len() > 0 {
        with_out + "--- STDERR ---\n"@ + out.stderr@ + "\n"@
    } else {
        with_out
    }
}

impl CommandOutput {
    /// Formats the result into one string for the model to read: a status
    /// line with the exit code, then the standard output and error streams
    /// when they hold more than whitespace.
    pub fn to_llm_string(&self) -> (r: String)
        ensures
            r@ == llm_report(self),
    {
        let mut v: Vec<char> = Vec::new();
        extend_str(&mut v, "[Command Execution: ");
        if self.success {
            extend_str(&mut v, "SUCCESS");
        } else {
            extend_str(&mut v, "FAILED");
        }
        extend_str(&mut v, " (Exit Code: ");
        match self.exit_code {
            Some(c) => {
                let d = signed_decimal_chars(c as i64);
                extend(&mut v, &d);
            },
            None => {
                extend_str(&mut v, "Unknown");
            },
        }
        extend_str(&mut v, ")]\n");
        let so = chars_of(self.stdout.as_str());
        if trimmed(&so).len() > 0 {
            extend_str(&mut v, "--- STDOUT ---\n");
            extend(&mut v, &so);
            extend_str(&mut v, "\n");
        }
        let se = chars_of(self.stderr.as_str());
        if trimmed(&se).len() > 0 {
            extend_str(&mut v, "--- STDERR ---\n");
            extend(&mut v, &se);
            extend_str(&mut v, "\n");
        }
        string_of(&v)
    }
}

/// A path with surrounding whitespace and quotes removed and a leading
/// `~` expanded to the home directory when one is known.
pub open spec fn expanded_path(path: Seq<char>, home: Option<Seq<char>>) -> Seq<char> {
    let clean = trim_char(trim_char(trim(path), '"'), '\'');
    if starts_with(clean, "~/"@) || clean == "~"@ {
        match home {
            Some(h) => if clean == "~"@ {
                h
            } else {
                h + "/"@ + clean.subrange(2, clean.len() as int)
            },
            None => clean,
        }
    } else {
        clean
    }
}

/// Expands a leading `~` in a path to the home directory (`home` is the
/// value of `HOME`, if set), after trimming whitespace and quotes.
pub fn expand_path(path: &str, home: Option<&str>) -> (r: String)
    ensures
        r@ == expanded_path(path@, match home { Some(h) => Some(h@), None => None }),
{
    let pv = chars_of(path);
    let t = trimmed(&pv);
    let t2 = trimmed_char(&t, '"');
    let clean = trimmed_char(&t2, '\'');
    let tilde = eq_str(&clean, "~");
    if has_prefix_str(&clean, "~/") || tilde {
        match home {
            Some(h) => {
                if tilde {
                    let hv = chars_of(h);
                    return string_of(&hv);
                }
                proof {
                    reveal_strlit("~/");
                    reveal_strlit("~");
                }
                let mut v = chars_of(h);
                extend_str(&mut v, "/");
                let rest = slice(&clean, 2, clean.len());
                extend(&mut v, &rest);
                return string_of(&v);
            },
            None => {},
        }
    }
    string_of(&clean)
}

/// The most lines of a file the read tool shows.
pub const MAX_READ_LINES: usize = 500;

/// The lines `ls[..k]`, each followed by a newline.
pub open spec fn numbered_prefix(ls: Seq<Seq<char>>, k: int) -> Seq<char> {
    concat_each_with(ls.subrange(0, k), "\n"@)
}

/// The read tool's report of a file's content.
pub open spec fn read_report(path: Seq<char>, content: Seq<char>) -> Seq<char> {
    let ls = lines(content);
    let head = "[Contents of "@ + path + "]\n"@;
    if ls.len() > MAX_READ_LINES {
        head + numbered_prefix(ls, MAX_READ_LINES as int)
            + "\n... ⚠️ [File truncated after 500 lines. Too large to read entirely.]\n"@
    } else if ls.len() == 0 {
        head + "File is Empty!\n"@
    } else {
        head + numbered_prefix(ls, ls.len() as int)
    }
}

/// The read tool's report when the file could not be read.
pub open spec fn read_failure(path: Seq<char>, reason: Seq<char>) -> Seq<char> {
    "❌ [Read Error]: Failed to read '"@ + path + "'. Reason: "@ + reason
}

/// What the read tool answers: the file's first 500 lines under a header,
/// a truncation note for longer files, a note for empty ones; or the error.
pub fn format_read_output(expanded_path: &str, content: Result<&str, &str>) -> (r: String)
    ensures
        r@ == match content {
            Ok(c) => read_report(expanded_path@, c@),
            Err(e) => read_failure(expanded_path@, e@),
        },
{
    let mut v: Vec<char> = Vec::new();
    match content {
        Err(e) => {
            extend_str(&mut v, "❌ [Read Error]: Failed to read '");
            extend_str(&mut v, expanded_path);
            extend_str(&mut v, "'. Reason: ");
            extend_str(&mut v, e);
            assert(v@ == read_failure(expanded_path@, e@));
            string_of(&v)
        },
        Ok(c) => {
            extend_str(&mut v, "[Contents of ");
            extend_str(&mut v, expanded_path);
            extend_str(&mut v, "]\n");
            let cv = chars_of(c);
            let ls = split_lines(&cv);
            let ghost lsv = lines(c@);
            let ghost head = v@;
            let n = ls.len();
            let mut i: usize = 0;
            while i < n && i < MAX_READ_LINES
                invariant
                    n == ls.len() == lsv.len(),
                    lsv == lines(c@),
                    forall|k: int| 0 <= k < n ==> #[trigger] ls@[k]@ == lsv[k],
                    i <= n,
                    i <= MAX_READ_LINES,
                    v@ == head + numbered_prefix(lsv, i as int),
                    head =~= "[Contents of "@ + expanded_path@ + "]\n"@,
                decreases n - i,
            {
                extend(&mut v, &ls[i]);
                extend_str(&mut v, "\n");
                proof {
                    assert(lsv.subrange(0, i + 1).drop_last() =~= lsv.subrange(0, i as int));
                }
                i += 1;
            }
            if n > MAX_READ_LINES {
                extend_str(
                    &mut v,
                    "\n... ⚠️ [File truncated after 500 lines. Too large to read entirely.]\n",
                );
            }
            if n == 0 {
                extend_str(&mut v, "File is Empty!\n");
                proof {
                    assert(lsv.subrange(0, 0) =~= Seq::<Seq<char>>::empty());
                }
            }
            proof {
                if n == 0 {
                    assert(numbered_prefix(lsv, 0) =~= Seq::<char>::empty());
                    assert(head + numbered_prefix(lsv, 0) =~= head);
                }
                assert(v@ =~= read_report(expanded_path@, c@));
            }
            string_of(&v)
        },
    }
}

/// Non-overlapping occurrences of `p` in `s` from `i` on, as `str::matches`
/// counts them (an empty pattern matches at every position).
pub open spec fn count_from(s: Seq<char>, p: Seq<char>, i: int) -> nat
    decreases s.len() + 1 - i,
{
    if i < 0 || i > s.len() {
        0
    } else {
        match find_from(s, p, i) {
            None => 0,
            Some(k) => {
                proof {
                    lemma_find_from_first(s, p, i, k);
                }
                1 + count_from(s, p, k + if p.len() > 0 { p.len() as int } else { 1 })
            },
        }
    }
}

pub open spec fn count_matches(s: Seq<char>, p: Seq<char>) -> nat {
    count_from(s, p, 0)
}

/// `str::replacen(p, q, 1)`: the first occurrence of `p` replaced by `q`.
pub open spec fn replace_first(s: Seq<char>, p: Seq<char>, q: Seq<char>) -> Seq<char> {
    match find(s, p) {
        Some(k) => s.subrange(0, k) + q + s.subrange(k + p.len(), s.len() as int),
        None => s,
    }
}

/// The edit tool's answer when the file could not be read.
pub open spec fn edit_read_failure(path: Seq<char>, reason: Seq<char>) -> Seq<char> {
    "❌ [Edit Error]: Failed to read target file '"@ + path + "'. Reason: "@ + reason
}

/// The edit tool's answer when the search text is not in the file.
pub open spec fn edit_not_found(path: Seq<char>) -> Seq<char> {
    "❌ [Edit Error]: The text block to replace was not found in '"@ + path
        + "'. \n💡 Tip: Use 'read' tool first to check exact indentation, whitespace, and line content."@
}

/// The outcome of planning an edit: the new file content and how many times
/// the search text occurs, or the message that refuses the edit.
pub open spec fn edit_plan(path: Seq<char>, content: Seq<char>, old_text: Seq<char>, new_text: Seq<char>) -> Result<(Seq<char>, nat), Seq<char>> {
    if !contains(content, old_text) {
        Err(edit_not_found(path))
    } else {
        Ok((replace_first(content, old_text, new_text), count_matches(content, old_text)))
    }
}

fn count_occurrences(s: &Vec<char>, p: &Vec<char>) -> (r: usize)
    requires
        s@.len() < usize::MAX,
    ensures
        r == count_matches(s@, p@),
{
    let step: usize = if p.len() > 0 { p.len() } else { 1 };
    let mut i: usize = 0;
    let mut count: usize = 0;
    while i <= s.len()
        invariant
            step == if p@.len() > 0 { p@.len() as int } else { 1 },
            s@.len() < usize::MAX,
            count_matches(s@, p@) == count + count_from(s@, p@, i as int),
            count <= i,
            i <= s.len() + 1,
        decreases s.len() + 1 - i,
    {
        match find_in(s, p, i) {
            None => {
                return count;
            },
            Some(k) => {
                proof {
                    lemma_find_from_first(s@, p@, i as int, k as int);
                }
                if s.len() - k < step {
                    assert(count_from(s@, p@, k + step) == 0);
                    return count + 1;
                }
                count = count + 1;
                i = k + step;
            },
        }
    }
    count
}

/// Decides an edit of a file's `content`: refused with a message when the
/// search text does not occur; otherwise the content with its first
/// occurrence replaced, and the number of occurrences.
pub fn plan_edit(expanded_path: &str, content: &str, old_text: &str, new_text: &str) -> (r: Result<(String, usize), String>)
    requires
        content@.len() < usize::MAX,
    ensures
        match r {
            Ok((u, n)) => edit_plan(expanded_path@, content@, old_text@, new_text@) == Ok::<(Seq<char>, nat), Seq<char>>((u@, n as nat)),
            Err(m) => edit_plan(expanded_path@, content@, old_text@, new_text@) == Err::<(Seq<char>, nat), Seq<char>>(m@),
        },
{
    let cv = chars_of(content);
    let ov = chars_of(old_text);
    match find_in(&cv, &ov, 0) {
        None => {
            let mut v: Vec<char> = Vec::new();
            extend_str(&mut v, "❌ [Edit Error]: The text block to replace was not found in '");
            extend_str(&mut v, expanded_path);
            extend_str(
                &mut v,
                "'. \n💡 Tip: Use 'read' tool first to check exact indentation, whitespace, and line content.",
            );
            Err(string_of(&v))
        },
        Some(k) => {
            proof {
                lemma_find_from_first(cv@, ov@, 0, k as int);
                assert(k + ov@.len() <= cv@.len());
            }
            let n = count_occurrences(&cv, &ov);
            let mut u = slice(&cv, 0, k);
            extend_str(&mut u, new_text);
            let tail = slice(&cv, k + ov.len(), cv.len());
            extend(&mut u, &tail);
            Ok((string_of(&u), n))
        },
    }
}

/// The edit tool's answer once the new content was written (or not).
pub open spec fn edit_report(path: Seq<char>, occurrences: nat, written: Result<(), Seq<char>>) -> Seq<char> {
    match written {
        Ok(()) => if occurrences > 1 {
            "✅ [Edit Success]: Replaced 1st of "@ + decimal(occurrences) + " matching occurrences in '"@
                + path + "'."@
        } else {
            "✅ [Edit Success]: File '"@ + path + "' updated successfully."@
        },
        Err(e) => "❌ [Edit Error]: Failed to write changes to '"@ + path + "'. Reason: "@ + e,
    }
}

/// What the edit tool answers after writing the planned content.
pub fn format_edit_result(expanded_path: &str, occurrences: usize, written: Result<(), &str>) -> (r: String)
    ensures
        r@ == edit_report(
            expanded_path@,
            occurrences as nat,
            match written { Ok(()) => Ok(()), Err(e) => Err(e@) },
        ),
{
    let mut v: Vec<char> = Vec::new();
    match written {
        Ok(()) => {
            if occurrences > 1 {
                extend_str(&mut v, "✅ [Edit Success]: Replaced 1st of ");
                let d = decimal_chars(occurrences as u64);
                extend(&mut v, &d);
                extend_str(&mut v, " matching occurrences in '");
                extend_str(&mut v, expanded_path);
                extend_str(&mut v, "'.");
            } else {
                extend_str(&mut v, "✅ [Edit Success]: File '");
                extend_str(&mut v, expanded_path);
                extend_str(&mut v, "' updated successfully.");
            }
        },
        Err(e) => {
            extend_str(&mut v, "❌ [Edit Error]: Failed to write changes to '");
            extend_str(&mut v, expanded_path);
            extend_str(&mut v, "'. Reason: ");
            extend_str(&mut v, e);
        },
    }
    string_of(&v)
}

/// The edit tool's answer when the target file could not be read.
pub fn format_edit_read_failure(expanded_path: &str, reason: &str) -> (r: String)
    ensures
        r@ == edit_read_failure(expanded_path@, reason@),
{
    let mut v: Vec<char> = Vec::new();
    extend_str(&mut v, "❌ [Edit Error]: Failed to read target file '");
    extend_str(&mut v, expanded_path);
    extend_str(&mut v, "'. Reason: ");
    extend_str(&mut v, reason);
    string_of(&v)
}

/// How writing a file went.
pub enum WriteOutcome {
    /// The parent directories could not be created.
    DirectoryFailed(String),
    /// The file could not be written.
    WriteFailed(String),
    /// The content was written.
    Written,
}

/// The write tool's answer.
pub open spec fn write_report(path: Seq<char>, byte_len: nat, outcome: WriteOutcome) -> Seq<char> {
    match outcome {
        WriteOutcome::DirectoryFailed(e) => "❌ [Write Error]: Failed to create directories for '"@
            + path + "'. Reason: "@ + e@,
        WriteOutcome::WriteFailed(e) => "❌ [Write Error]: Failed to write to file '"@ + path
            + "'. Reason: "@ + e@,
        WriteOutcome::Written => "✅ [Write Success]: Successfully wrote "@ + decimal(byte_len)
            + " bytes to '"@ + path + "'."@,
    }
}

/// What the write tool answers for `content` written to `expanded_path`; the
/// size given is the content's length in UTF-8 bytes.
pub fn format_write_result(expanded_path: &str, content: &str, outcome: WriteOutcome) -> (r: String)
    ensures
        r@ == write_report(expanded_path@, content.len() as nat, outcome),
{
    let mut v: Vec<char> = Vec::new();
    match outcome {
        WriteOutcome::DirectoryFailed(e) => {
            extend_str(&mut v, "❌ [Write Error]: Failed to create directories for '");
            extend_str(&mut v, expanded_path);
            extend_str(&mut v, "'. Reason: ");
            extend_str(&mut v, e.as_str());
        },
        WriteOutcome::WriteFailed(e) => {
            extend_str(&mut v, "❌ [Write Error]: Failed to write to file '");
            extend_str(&mut v, expanded_path);
            extend_str(&mut v, "'. Reason: ");
            extend_str(&mut v, e.as_str());
        },
        WriteOutcome::Written => {
            let bytes = content.len();
            extend_str(&mut v, "✅ [Write Success]: Successfully wrote ");
            let d = decimal_chars(bytes as u64);
            extend(&mut v, &d);
            extend_str(&mut v, " bytes to '");
            extend_str(&mut v, expanded_path);
            extend_str(&mut v, "'.");
        },
    }
    string_of(&v)
}

/// The message for a shell command that ran past its time limit.
pub open spec fn timeout_message(secs: u64) -> Seq<char> {
    "❌ Execution timed out after "@ + decimal(secs as nat) + " seconds. Process terminated."@
}

/// Describes a shell command that was stopped after `timeout_secs` seconds.
pub fn format_timeout(timeout_secs: u64) -> (r: String)
    ensures
        r@ == timeout_message(timeout_secs),
{
    let mut v: Vec<char> = Vec::new();
    extend_str(&mut v, "❌ Execution timed out after ");
    let d = decimal_chars(timeout_secs);
    extend(&mut v, &d);
    extend_str(&mut v, " seconds. Process terminated.");
    string_of(&v)
}

} // verus!
