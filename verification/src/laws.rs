//! Properties of the library as a whole: what holds across calls and for
//! every input, proved over the specifications the functions are held to.
use vstd::prelude::*;
use crate::agent::MAX_TOOL_TURNS;
use crate::arguments::{all_digits, digits_value, is_digit, parse_unsigned, unsigned_digits};
use crate::browser::{select_after_removal, select_down, select_up};
use crate::client::thinking_choice;
use crate::daemon::{level_line, model_entry, level_lines};
use crate::engine::{cleaned_reply, level_at, level_name, lower_ascii_seq, parse_level, strip_blocks, ThinkingLevel, THINKING_LEVEL_COUNT};
use crate::inferences::ModelInfo;
use crate::ipc::HistoryEntrySpec;
use crate::session::{pushed_history, MAX_HISTORY};
use crate::text::{contains, decimal, digit_char, find, find_from, lemma_find_from_first, lemma_trim_idempotent, trim};
use crate::tools::{block_call, edit_markers, lemma_block_end_bounds, reply_tool_call, tool_call_from, ToolCallSpec};
use crate::engine::lower_ascii;
use crate::stream::delta_events;
use crate::ipc::{ends_with_one_done, DaemonEventSpec};
use crate::web::{hits_text, search_summary, RawHitSpec, MAX_SEARCH_RESULTS};
use crate::stream::text_after;
use crate::text::concat;
use crate::text::{concat_each_with, lines, lines_scan, strip_cr};
use crate::tools::{count_from, count_matches, edit_not_found, edit_plan, llm_report, read_report, replace_first, CommandOutput, MAX_READ_LINES};
use crate::queries::{history_context_entry, prompt_with_history};

verus! {

broadcast use vstd::string::group_string_axioms;

/// The terminal history never holds more than ten entries, and the newest
/// entry is the one just recorded, after the ones kept before it.
pub proof fn law_history_bounded(es: Seq<HistoryEntrySpec>, e: HistoryEntrySpec)
    requires
        es.len() <= MAX_HISTORY,
    ensures
        pushed_history(es, e).len() <= MAX_HISTORY,
        pushed_history(es, e).last() == e,
        pushed_history(es, e).drop_last() == if es.len() == MAX_HISTORY {
            es.drop_first()
        } else {
            es
        },
{
    assert(pushed_history(es, e).drop_last() =~= if es.len() == MAX_HISTORY {
        es.drop_first()
    } else {
        es
    });
}

proof fn lemma_lower_keeps(s: Seq<char>)
    requires
        forall|i: int| 0 <= i < s.len() ==> !('A' <= #[trigger] s[i] && s[i] <= 'Z'),
    ensures
        lower_ascii_seq(s) == s,
{
    assert(lower_ascii_seq(s) =~= s);
}

/// Every thinking level is read back from its canonical name.
pub proof fn law_level_name_round_trip(l: ThinkingLevel)
    ensures
        parse_level(level_name(l)) == Some(l),
{
    reveal_strlit("off");
    reveal_strlit("minimal");
    reveal_strlit("min");
    reveal_strlit("low");
    reveal_strlit("medium");
    reveal_strlit("med");
    reveal_strlit("high");
    reveal_strlit("xhigh");
    reveal_strlit("max");
    let n = level_name(l);
    assert forall|i: int| 0 <= i < n.len() implies !('A' <= #[trigger] n[i] && n[i] <= 'Z') by {
        if i == 0 {
        } else if i == 1 {
        } else if i == 2 {
        } else if i == 3 {
        } else if i == 4 {
        } else if i == 5 {
        } else {
        }
    }
    lemma_lower_keeps(n);
    assert(lower_ascii_seq(n) == n);
    match l {
        ThinkingLevel::Off => assert(crate::engine::level_named("off"@) == Some(ThinkingLevel::Off)),
        ThinkingLevel::Minimal => {
            assert("minimal"@ != "off"@);
        },
        ThinkingLevel::Low => {
            assert("low"@[0] != "off"@[0]);
            assert("low"@[0] != "min"@[0]);
        },
        ThinkingLevel::Medium => {
            assert("medium"@ != "off"@);
            assert("medium"@ != "minimal"@);
        },
        ThinkingLevel::High => {
            assert("high"@ != "off"@ && "high"@ != "min"@ && "high"@ != "low"@ && "high"@ != "med"@);
        },
        ThinkingLevel::XHigh => {
            assert("xhigh"@ != "off"@ && "xhigh"@ != "min"@ && "xhigh"@ != "low"@ && "xhigh"@ != "med"@
                && "xhigh"@ != "high"@ && "xhigh"@ != "medium"@ && "xhigh"@ != "minimal"@);
        },
        ThinkingLevel::Max => {
            assert("max"@[0] != "off"@[0] && "max"@[1] != "min"@[1] && "max"@[0] != "low"@[0]
                && "max"@[1] != "med"@[1]);
            assert("max"@ != "high"@ && "max"@ != "medium"@ && "max"@ != "minimal"@ && "max"@ != "xhigh"@);
        },
    }
}

proof fn lemma_digit_char_value(d: int)
    requires
        0 <= d < 10,
    ensures
        (digit_char(d) as u32) as int == 48 + d,
        is_digit(digit_char(d)),
{
}

/// The decimal text of a number is read back as that number.
pub proof fn lemma_decimal_parses(n: nat)
    ensures
        decimal(n).len() > 0,
        all_digits(decimal(n)),
        digits_value(decimal(n)) == n,
        decimal(n)[0] != '+',
    decreases n,
{
    if n < 10 {
        lemma_digit_char_value(n as int);
        let d = decimal(n);
        assert(d == seq![digit_char(n as int)]);
        assert(d.drop_last() =~= Seq::<char>::empty());
        assert(digits_value(d.drop_last()) == 0);
        assert(d.last() == digit_char(n as int));
        assert(is_digit(d[0]));
    } else {
        lemma_digit_char_value((n % 10) as int);
        lemma_decimal_parses(n / 10);
        let d = decimal(n);
        let p = decimal(n / 10);
        assert(d.drop_last() =~= p);
        assert(d[0] == p[0]);
        assert forall|i: int| 0 <= i < d.len() implies is_digit(#[trigger] d[i]) by {
            if i < p.len() {
                assert(d[i] == p[i]);
            }
        }
        assert((n / 10) * 10 + n % 10 == n);
    }
}

/// The decimal text of a number parses back to it.
pub proof fn law_decimal_parse_round_trip(n: nat, max: nat)
    requires
        n <= max,
    ensures
        parse_unsigned(decimal(n), max) == Some(n),
{
    lemma_decimal_parses(n);
    assert(unsigned_digits(decimal(n)) == decimal(n));
}

/// `mobius -t <i>` stores the level that the listing shows as `[i]`.
pub proof fn law_thinking_number_selects_listed_level(i: nat, current: Seq<char>)
    requires
        i < THINKING_LEVEL_COUNT,
    ensures
        thinking_choice(decimal(i)) == level_name(level_at(i as int)),
        parse_level(thinking_choice(decimal(i))) == Some(level_at(i as int)),
        level_line(i as int, current) == "  "@ + crate::daemon::marker(level_name(level_at(i as int)) == current)
            + " ["@ + decimal(i) + "] "@ + level_name(level_at(i as int)) + "\n"@,
{
    law_decimal_parse_round_trip(i, usize::MAX as nat);
    law_level_name_round_trip(level_at(i as int));
}

/// `mobius -m <n>` picks the model the listing shows as `[n]`: the number
/// in the entry's label reads back as `n`, and the entry names the model the
/// selection stores.
pub proof fn law_model_number_selects_listed_entry(ms: Seq<ModelInfo>, i: int, current: Option<Seq<char>>)
    requires
        0 <= i < ms.len(),
    ensures
        ({
            let n = (i + 1) as nat;
            &&& parse_unsigned(decimal(n), usize::MAX as nat) == Some(n) || n > usize::MAX
            &&& model_entry(ms, i, current).display_name == "["@ + decimal(n) + "] "@ + ms[n - 1].display_name@
            &&& model_entry(ms, i, current).model_name == ms[n - 1].model_name@
        }),
{
    if i + 1 <= usize::MAX {
        law_decimal_parse_round_trip((i + 1) as nat, usize::MAX as nat);
    }
}

/// A reply without thinking tags is kept as it is, only trimmed.
pub proof fn law_plain_reply_only_trimmed(s: Seq<char>)
    requires
        !contains(s, "<think>"@),
        !contains(s, "<thinking>"@),
    ensures
        cleaned_reply(s) == trim(s),
{
    assert(strip_blocks(s, "<think>"@, "</think>"@) == s);
    assert(strip_blocks(s, "<thinking>"@, "</thinking>"@) == s);
}

proof fn lemma_strip_blocks_removes_open(s: Seq<char>, open: Seq<char>, close: Seq<char>)
    requires
        open.len() > 0,
        close.len() > 0,
    ensures
        !contains(strip_blocks(s, open, close), open),
    decreases s.len(),
{
    match find(s, open) {
        None => {},
        Some(st) => {
            lemma_find_from_first(s, open, 0, st);
            match find_from(s, close, st) {
                None => {
                    let t = s.subrange(0, st);
                    if let Some(k) = find(t, open) {
                        lemma_find_from_first(t, open, 0, k);
                        assert(t.subrange(k, k + open.len()) =~= s.subrange(k, k + open.len()));
                        assert(crate::text::match_at(s, open, k));
                        assert(false);
                    }
                },
                Some(k) => {
                    lemma_find_from_first(s, close, st, k);
                    lemma_strip_blocks_removes_open(
                        s.subrange(0, st) + s.subrange(k + close.len(), s.len() as int),
                        open,
                        close,
                    );
                },
            }
        },
    }
}

/// No `<thinking>` tag is left in a cleaned reply (removing a `<think>`
/// block may, in contrived text, join two halves of a `<think>` tag).
pub proof fn law_cleaned_reply_has_no_thinking_tag(s: Seq<char>)
    ensures
        !contains(cleaned_reply(s), "<thinking>"@),
{
    let a = strip_blocks(s, "<think>"@, "</think>"@);
    let b = strip_blocks(a, "<thinking>"@, "</thinking>"@);
    reveal_strlit("</thinking>");
    reveal_strlit("<thinking>");
    lemma_strip_blocks_removes_open(a, "<thinking>"@, "</thinking>"@);
    crate::text::lemma_trim_keeps_absent(b, "<thinking>"@);
}

/// The selection of the session browser stays inside a non-empty list:
/// moving down or up gives a listed entry, and after a removal the
/// selection points into what is left (none once the list is empty).
pub proof fn law_selection_stays_in_list(selected: Option<usize>, len: nat, i: usize)
    requires
        len > 0,
        selected matches Some(s) ==> s < len,
        i < len,
    ensures
        select_down(selected, len) < len,
        select_up(selected, len) < len,
        match select_after_removal(i, (len - 1) as nat) {
            Some(j) => j < len - 1,
            None => len - 1 == 0,
        },
{
}

proof fn lemma_hits_count(hs: Seq<RawHitSpec>)
    ensures
        hits_text(hs).1 <= hs.len(),
    decreases hs.len(),
{
    if hs.len() > 0 {
        lemma_hits_count(hs.drop_last());
    }
}

/// A search summary lists at most five results.
pub proof fn law_search_lists_at_most_five(hs: Seq<RawHitSpec>)
    ensures
        hits_text(if hs.len() > MAX_SEARCH_RESULTS {
            hs.subrange(0, MAX_SEARCH_RESULTS as int)
        } else {
            hs
        }).1 <= MAX_SEARCH_RESULTS,
{
    let first = if hs.len() > MAX_SEARCH_RESULTS {
        hs.subrange(0, MAX_SEARCH_RESULTS as int)
    } else {
        hs
    };
    lemma_hits_count(first);
}

/// The tool rounds left after `k` tool results fed back in one turn.
pub open spec fn rounds_left(k: nat) -> nat
    decreases k,
{
    if k == 0 {
        MAX_TOOL_TURNS as nat
    } else if rounds_left((k - 1) as nat) > 0 {
        (rounds_left((k - 1) as nat) - 1) as nat
    } else {
        0
    }
}

/// One prompt runs at most five tools: the model is asked again after the
/// `k`-th tool result only while `k` is below five.
pub proof fn law_tool_rounds_bounded(k: nat)
    ensures
        rounds_left(k) > 0 <==> k < MAX_TOOL_TURNS,
        k <= MAX_TOOL_TURNS ==> rounds_left(k) == MAX_TOOL_TURNS - k,
    decreases k,
{
    if k > 0 {
        law_tool_rounds_bounded((k - 1) as nat);
    }
}

/// The text a reply keeps after a run of deltas: each delta's content, if
/// any, appended in order.
pub open spec fn text_after_all(t: Seq<char>, contents: Seq<Option<Seq<char>>>) -> Seq<char>
    decreases contents.len(),
{
    if contents.len() == 0 {
        t
    } else {
        text_after(text_after_all(t, contents.drop_last()), contents.last())
    }
}

/// The pieces of content that arrived.
pub open spec fn present(contents: Seq<Option<Seq<char>>>) -> Seq<Seq<char>>
    decreases contents.len(),
{
    if contents.len() == 0 {
        Seq::empty()
    } else {
        match contents.last() {
            Some(c) => present(contents.drop_last()).push(c),
            None => present(contents.drop_last()),
        }
    }
}

/// A streamed reply keeps exactly the content it received, in order: after
/// any run of deltas from a fresh state the kept text is the concatenation
/// of their contents (thinking included; it is removed only when the reply
/// is taken).
pub proof fn law_reply_keeps_all_content(contents: Seq<Option<Seq<char>>>)
    ensures
        text_after_all(Seq::empty(), contents) == concat(present(contents)),
    decreases contents.len(),
{
    if contents.len() > 0 {
        law_reply_keeps_all_content(contents.drop_last());
        match contents.last() {
            Some(c) => {
                assert(present(contents).drop_last() =~= present(contents.drop_last()));
            },
            None => {},
        }
    }
}

/// What every tool call taken from a reply satisfies: a command, query or
/// written file path is non-empty and has no surrounding white space, a read
/// path or address is non-empty, and an edit has a non-empty search text.
pub open spec fn call_well_formed(c: ToolCallSpec) -> bool {
    match c {
        ToolCallSpec::Shell(cmd) => cmd.len() > 0 && trim(cmd) == cmd,
        ToolCallSpec::Read { path } => path.len() > 0,
        ToolCallSpec::Write { path, .. } => path.len() > 0 && trim(path) == path,
        ToolCallSpec::Edit { old_text, .. } => old_text.len() > 0,
        ToolCallSpec::WebSearch { query } => query.len() > 0 && trim(query) == query,
        ToolCallSpec::ReadWebPage { url } => url.len() > 0,
    }
}

proof fn lemma_block_call_well_formed(h: Seq<char>, body: Seq<Seq<char>>)
    ensures
        block_call(h, body) matches Some(c) ==> call_well_formed(c),
{
    match block_call(h, body) {
        Some(ToolCallSpec::Shell(cmd)) => {
            lemma_trim_idempotent(crate::text::concat_each_with(body, "\n"@));
        },
        Some(ToolCallSpec::Write { path, .. }) => {
            lemma_trim_idempotent(body[0]);
        },
        Some(ToolCallSpec::WebSearch { query }) => {
            lemma_trim_idempotent(crate::text::concat_each_with(crate::tools::map_trim(body), " "@));
        },
        _ => {},
    }
}

proof fn lemma_tool_call_from_well_formed(ls: Seq<Seq<char>>, i: int)
    ensures
        tool_call_from(ls, i) matches Some(c) ==> call_well_formed(c),
    decreases ls.len() + 1 - i,
{
    if 0 <= i < ls.len() {
        if crate::tools::is_fence(ls[i]) && crate::tools::known_header(crate::tools::fence_header(ls[i])) {
            lemma_block_end_bounds(ls, i + 1);
            let e = crate::tools::block_end(ls, i + 1);
            lemma_block_call_well_formed(crate::tools::fence_header(ls[i]), ls.subrange(i + 1, e));
            lemma_tool_call_from_well_formed(ls, e + 1);
        } else {
            lemma_tool_call_from_well_formed(ls, i + 1);
        }
    }
}

/// Every tool call read from a reply is well formed (`call_well_formed`).
pub proof fn law_tool_call_well_formed(text: Seq<char>)
    ensures
        reply_tool_call(text) matches Some(c) ==> call_well_formed(c),
{
    lemma_tool_call_from_well_formed(crate::text::lines(text), 0);
}

proof fn lemma_strip_blocks_shorter(s: Seq<char>, open: Seq<char>, close: Seq<char>)
    ensures
        strip_blocks(s, open, close).len() <= s.len(),
    decreases s.len(),
{
    match find(s, open) {
        None => {},
        Some(st) => {
            lemma_find_from_first(s, open, 0, st);
            match find_from(s, close, st) {
                None => {},
                Some(k) => {
                    if close.len() > 0 {
                        lemma_find_from_first(s, close, st, k);
                        lemma_strip_blocks_shorter(
                            s.subrange(0, st) + s.subrange(k + close.len(), s.len() as int),
                            open,
                            close,
                        );
                    }
                },
            }
        },
    }
}

/// A cleaned reply is trimmed and never longer than the reply.
pub proof fn law_cleaned_reply_trimmed_and_shorter(s: Seq<char>)
    ensures
        trim(cleaned_reply(s)) == cleaned_reply(s),
        cleaned_reply(s).len() <= s.len(),
{
    let a = strip_blocks(s, "<think>"@, "</think>"@);
    let b = strip_blocks(a, "<thinking>"@, "</thinking>"@);
    lemma_strip_blocks_shorter(s, "<think>"@, "</think>"@);
    lemma_strip_blocks_shorter(a, "<thinking>"@, "</thinking>"@);
    lemma_trim_idempotent(b);
}

/// The names a thinking level is known by, in lower case.
pub open spec fn is_level_name(t: Seq<char>) -> bool {
    ||| t == "off"@
    ||| t == "minimal"@
    ||| t == "min"@
    ||| t == "low"@
    ||| t == "medium"@
    ||| t == "med"@
    ||| t == "high"@
    ||| t == "xhigh"@
    ||| t == "max"@
}

/// A text names a thinking level exactly when its lowered form is one of the
/// known names, and lowering it first changes nothing.
pub proof fn law_level_names(s: Seq<char>)
    ensures
        parse_level(s) is Some <==> is_level_name(lower_ascii_seq(s)),
        parse_level(lower_ascii_seq(s)) == parse_level(s),
{
    assert forall|i: int| 0 <= i < s.len() implies #[trigger] lower_ascii(lower_ascii(s[i])) == lower_ascii(s[i]) by {
        let c = s[i];
        if 'A' <= c && c <= 'Z' {
            assert('a' <= lower_ascii(c) && lower_ascii(c) <= 'z');
        }
    }
    assert(lower_ascii_seq(lower_ascii_seq(s)) =~= lower_ascii_seq(s));
}

/// A streamed reply never ends a request: the events one delta gives hold no
/// end marker (the daemon sends it once the turn is over).
pub proof fn law_reply_events_hold_no_done(in_block: bool, reasoning: Option<Seq<char>>, content: Option<Seq<char>>)
    ensures
        forall|i: int| 0 <= i < delta_events(in_block, reasoning, content).len() ==> !(#[trigger] delta_events(in_block, reasoning, content)[i] is Done),
{
}

/// The events of several batches, in order.
pub open spec fn flatten(bs: Seq<Seq<DaemonEventSpec>>) -> Seq<DaemonEventSpec>
    decreases bs.len(),
{
    if bs.len() == 0 {
        Seq::empty()
    } else {
        flatten(bs.drop_last()) + bs.last()
    }
}

/// Whether a batch of events holds no end marker.
pub open spec fn holds_no_done(b: Seq<DaemonEventSpec>) -> bool {
    forall|i: int| 0 <= i < b.len() ==> !(#[trigger] b[i] is Done)
}

proof fn lemma_flatten_no_done(bs: Seq<Seq<DaemonEventSpec>>)
    requires
        forall|k: int| 0 <= k < bs.len() ==> holds_no_done(#[trigger] bs[k]),
    ensures
        holds_no_done(flatten(bs)),
    decreases bs.len(),
{
    if bs.len() > 0 {
        lemma_flatten_no_done(bs.drop_last());
        let a = flatten(bs.drop_last());
        let b = bs.last();
        assert(holds_no_done(b));
        assert forall|i: int| 0 <= i < flatten(bs).len() implies !(#[trigger] flatten(bs)[i] is Done) by {
            if i < a.len() {
                assert(flatten(bs)[i] == a[i]);
            } else {
                assert(flatten(bs)[i] == b[i - a.len()]);
            }
        }
    }
}

/// A request's reply ends with exactly one end marker when it is sent as
/// batches without one (a streamed reply, the usage figures, a tool's start
/// and result) followed by a closing list that ends with exactly one (as
/// every list the daemon builds, and `turn_end_events`, does).
pub proof fn law_turn_ends_with_one_done(bs: Seq<Seq<DaemonEventSpec>>, last: Seq<DaemonEventSpec>)
    requires
        forall|k: int| 0 <= k < bs.len() ==> holds_no_done(#[trigger] bs[k]),
        ends_with_one_done(last),
    ensures
        ends_with_one_done(flatten(bs) + last),
{
    lemma_flatten_no_done(bs);
    let a = flatten(bs);
    let all = a + last;
    assert(all.last() == last.last());
    assert forall|i: int| 0 <= i < all.len() - 1 implies !(#[trigger] all[i] is Done) by {
        if i < a.len() {
            assert(all[i] == a[i]);
        } else {
            assert(all[i] == last[i - a.len()]);
        }
    }
}

/// A write block names its file on the first line (trimmed) and writes the
/// block's other lines exactly as they stand, each followed by a newline:
/// indentation and trailing spaces are kept.
pub proof fn law_write_block_keeps_lines(body: Seq<Seq<char>>)
    requires
        body.len() > 0,
        trim(body[0]).len() > 0,
    ensures
        block_call("write"@, body) == Some(
            ToolCallSpec::Write { path: trim(body[0]), content: concat_each_with(body.drop_first(), "\n"@) },
        ),
{
    reveal_strlit("write");
    reveal_strlit("bash");
    reveal_strlit("sh");
    reveal_strlit("read");
    assert("write"@.len() == 5 && "bash"@.len() == 4 && "sh"@.len() == 2 && "read"@.len() == 4);
    assert("write"@ != "bash"@ && "write"@ != "sh"@ && "write"@ != "read"@);
}

/// An edit of a text that holds the search text replaces its first
/// occurrence: the text before it is kept, the replacement follows, then the
/// text after the occurrence; the length changes by the difference of the
/// two texts; at least one occurrence is counted; and replacing the search
/// text by itself leaves the content as it was. A text without the search
/// text is refused.
pub proof fn law_edit_replaces_first(path: Seq<char>, s: Seq<char>, p: Seq<char>, q: Seq<char>)
    ensures
        contains(s, p) ==> ({
            let k = find(s, p)->0;
            &&& 0 <= k && k + p.len() <= s.len()
            &&& edit_plan(path, s, p, q) matches Ok((u, n)) && n >= 1
                && u.len() == s.len() - p.len() + q.len()
                && u.subrange(0, k) == s.subrange(0, k)
                && u.subrange(k, k + q.len()) == q
                && u.subrange(k + q.len(), u.len() as int) == s.subrange(k + p.len(), s.len() as int)
            &&& edit_plan(path, s, p, p) == Ok::<(Seq<char>, nat), Seq<char>>((s, count_matches(s, p)))
        }),
        !contains(s, p) ==> edit_plan(path, s, p, q) == Err::<(Seq<char>, nat), Seq<char>>(edit_not_found(path)),
{
    if contains(s, p) {
        let k = find(s, p)->0;
        lemma_find_from_first(s, p, 0, k);
        let u = replace_first(s, p, q);
        assert(u.subrange(0, k) =~= s.subrange(0, k));
        assert(u.subrange(k, k + q.len()) =~= q);
        assert(u.subrange(k + q.len(), u.len() as int) =~= s.subrange(k + p.len(), s.len() as int));
        assert(s.subrange(k, k + p.len()) == p);
        assert(replace_first(s, p, p) =~= s);
        assert(count_from(s, p, 0) >= 1);
    }
}

/// The standard error section of a command report appears exactly when the
/// error stream holds more than white space, whatever the output stream
/// holds: the report is the report without it, followed by that section.
pub proof fn law_stderr_section(out: &CommandOutput, quiet: &CommandOutput)
    requires
        quiet.stdout@ == out.stdout@,
        quiet.success == out.success,
        quiet.exit_code == out.exit_code,
        trim(quiet.stderr@).len() == 0,
    ensures
        llm_report(out) == llm_report(quiet) + if trim(out.stderr@).len() > 0 {
            "--- STDERR ---\n"@ + out.stderr@ + "\n"@
        } else {
            Seq::empty()
        },
{
    if trim(out.stderr@).len() > 0 {
        assert(llm_report(out) =~= llm_report(quiet) + ("--- STDERR ---\n"@ + out.stderr@ + "\n"@));
    } else {
        assert(llm_report(out) =~= llm_report(quiet) + Seq::<char>::empty());
    }
}

/// Every recorded entry handed in reaches the prompt, in order: with one
/// entry the prompt gets the heading and that entry; each further entry is
/// appended after the ones before it. Without entries the prompt is kept.
pub proof fn law_history_entries_all_attached(p: Seq<char>, n: usize, es: Seq<HistoryEntrySpec>, e: HistoryEntrySpec)
    ensures
        prompt_with_history(p, n, Seq::empty()) == p,
        prompt_with_history(p, n, seq![e]) == p + "\n\n[Context: Last "@ + decimal(n as nat)
            + " Terminal Commands]\n"@ + "$ "@ + e.command + "\n"@ + e.output + "\n"@,
        es.len() > 0 ==> prompt_with_history(p, n, es.push(e)) == prompt_with_history(p, n, es) + "$ "@
            + e.command + "\n"@ + e.output + "\n"@,
{
    assert(seq![e].drop_last() =~= Seq::<HistoryEntrySpec>::empty());
    assert(seq![e].last() == e);
    assert(crate::queries::history_context_entries(Seq::<HistoryEntrySpec>::empty()) == Seq::<char>::empty());
    assert(crate::queries::history_context_entries(seq![e]) =~= history_context_entry(e));
    assert(es.push(e).drop_last() =~= es);
    assert(prompt_with_history(p, n, seq![e]) =~= p + "\n\n[Context: Last "@ + decimal(n as nat)
        + " Terminal Commands]\n"@ + "$ "@ + e.command + "\n"@ + e.output + "\n"@);
    if es.len() > 0 {
        assert(prompt_with_history(p, n, es.push(e)) =~= prompt_with_history(p, n, es) + ("$ "@
            + e.command + "\n"@ + e.output + "\n"@));
    }
}

proof fn lemma_concat_each_front(a: Seq<char>, rest: Seq<Seq<char>>, sep: Seq<char>)
    ensures
        concat_each_with(seq![a] + rest, sep) == a + sep + concat_each_with(rest, sep),
    decreases rest.len(),
{
    if rest.len() == 0 {
        assert(seq![a] + rest =~= seq![a]);
        assert(seq![a].drop_last() =~= Seq::<Seq<char>>::empty());
        assert(seq![a].last() == a);
        assert(concat_each_with(Seq::<Seq<char>>::empty(), sep) == Seq::<char>::empty());
        assert(concat_each_with(seq![a], sep) =~= a + sep);
        assert(a + sep + concat_each_with(rest, sep) =~= a + sep);
    } else {
        lemma_concat_each_front(a, rest.drop_last(), sep);
        assert((seq![a] + rest).drop_last() =~= seq![a] + rest.drop_last());
        assert((seq![a] + rest).last() == rest.last());
        assert(concat_each_with(seq![a] + rest, sep) =~= a + sep + concat_each_with(rest, sep));
    }
}

/// The line break a text's lines are given back with when it lacks one at the end.
pub open spec fn final_break(t: Seq<char>) -> Seq<char> {
    if t.len() > 0 && t.last() != '\n' {
        "\n"@
    } else {
        Seq::empty()
    }
}

proof fn lemma_lines_scan_rejoined(s: Seq<char>, start: int, q: int)
    requires
        0 <= start <= q <= s.len(),
        forall|i: int| 0 <= i < s.len() ==> s[i] != '\r',
        forall|i: int| start <= i < q ==> s[i] != '\n',
    ensures
        concat_each_with(lines_scan(s, start, q), "\n"@) == s.subrange(start, s.len() as int)
            + final_break(s.subrange(start, s.len() as int)),
    decreases s.len() - q,
{
    let tail = s.subrange(start, s.len() as int);
    if q >= s.len() {
        if start < s.len() {
            assert(tail.last() == s[s.len() - 1]);
            assert(s[s.len() - 1] != '\n');
            assert(final_break(tail) == "\n"@);
            lemma_concat_each_front(tail, Seq::<Seq<char>>::empty(), "\n"@);
            assert(seq![tail] + Seq::<Seq<char>>::empty() =~= seq![tail]);
            assert(concat_each_with(Seq::<Seq<char>>::empty(), "\n"@) == Seq::<char>::empty());
            assert(concat_each_with(seq![tail], "\n"@) =~= tail + final_break(tail));
        } else {
            assert(tail =~= Seq::<char>::empty());
            assert(tail + final_break(tail) =~= Seq::<char>::empty());
        }
    } else if s[q] == '\n' {
        let line = s.subrange(start, q);
        if line.len() > 0 {
            assert(line.last() == s[q - 1]);
        }
        assert(strip_cr(line) == line);
        lemma_lines_scan_rejoined(s, q + 1, q + 1);
        let rest = lines_scan(s, q + 1, q + 1);
        lemma_concat_each_front(line, rest, "\n"@);
        let tail2 = s.subrange(q + 1, s.len() as int);
        assert(tail =~= line + "\n"@ + tail2) by {
            reveal_strlit("\n");
        }
        reveal_strlit("\n");
        if tail2.len() > 0 {
            assert(tail.last() == tail2.last());
        } else {
            assert(tail.last() == '\n');
        }
        assert(final_break(tail) == final_break(tail2));
        assert(line + "\n"@ + (tail2 + final_break(tail2)) =~= tail + final_break(tail));
    } else {
        lemma_lines_scan_rejoined(s, start, q + 1);
    }
}

/// A text without carriage returns is given back by its lines, each followed
/// by a newline: the text itself, with a newline added when it does not end
/// with one.
pub proof fn law_lines_rejoin(s: Seq<char>)
    requires
        forall|i: int| 0 <= i < s.len() ==> s[i] != '\r',
    ensures
        concat_each_with(lines(s), "\n"@) == s + final_break(s),
{
    lemma_lines_scan_rejoined(s, 0, 0);
    assert(s.subrange(0, s.len() as int) =~= s);
}

/// The read tool shows every line of a file of at most 500 lines, in order,
/// each followed by a newline; for a file without carriage returns that is
/// the file's text itself under the header (a newline added if the text
/// does not end with one).
pub proof fn law_read_shows_whole_file(path: Seq<char>, c: Seq<char>)
    requires
        0 < lines(c).len() <= MAX_READ_LINES,
    ensures
        read_report(path, c) == "[Contents of "@ + path + "]\n"@ + concat_each_with(lines(c), "\n"@),
        (forall|i: int| 0 <= i < c.len() ==> c[i] != '\r') ==> read_report(path, c) == "[Contents of "@
            + path + "]\n"@ + c + final_break(c),
{
    assert(lines(c).subrange(0, lines(c).len() as int) =~= lines(c));
    if forall|i: int| 0 <= i < c.len() ==> c[i] != '\r' {
        law_lines_rejoin(c);
    }
}

} // verus!
