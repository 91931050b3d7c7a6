//! The web tools: a search whose result page is summarised for the model,
//! and a page read through a readability pass and turned into Markdown.
//! Fetching is the caller's part; the outcome of each fetch is handed in.
use vstd::prelude::*;
use crate::ipc::opt_text;
use crate::text::{chars_of, decimal, decimal_chars, extend, extend_str, string_of, trim, trimmed};

verus! {

broadcast use vstd::string::group_string_axioms;

/// The UTF-8 bytes of a character.
pub open spec fn utf8_bytes(c: char) -> Seq<int> {
    let u = c as int;
    if u < 0x80 {
        seq![u]
    } else if u < 0x800 {
        seq![0xC0 + u / 64, 0x80 + u % 64]
    } else if u < 0x10000 {
        seq![0xE0 + u / 4096, 0x80 + (u / 64) % 64, 0x80 + u % 64]
    } else {
        seq![0xF0 + u / 262144, 0x80 + (u / 4096) % 64, 0x80 + (u / 64) % 64, 0x80 + u % 64]
    }
}

/// Bytes left as they are: ASCII letters, digits and `-`, `.`, `_`, `~`.
pub open spec fn unreserved(b: int) -> bool {
    ||| (0x30 <= b <= 0x39)
    ||| (0x41 <= b <= 0x5A)
    ||| (0x61 <= b <= 0x7A)
    ||| b == 0x2D
    ||| b == 0x2E
    ||| b == 0x5F
    ||| b == 0x7E
}

/// An upper-case hexadecimal digit.
pub open spec fn hex_digit(d: int) -> char {
    if d < 10 {
        (0x30 + d) as char
    } else {
        (0x41 + d - 10) as char
    }
}

/// A byte as it appears in encoded text.
pub open spec fn encoded_byte(b: int) -> Seq<char> {
    if unreserved(b) {
        seq![b as char]
    } else {
        seq!['%', hex_digit(b / 16), hex_digit(b % 16)]
    }
}

pub open spec fn encoded_bytes(bs: Seq<int>) -> Seq<char>
    decreases bs.len(),
{
    if bs.len() == 0 {
        Seq::empty()
    } else {
        encoded_bytes(bs.drop_last()) + encoded_byte(bs.last())
    }
}

/// `urlencoding::encode`: every UTF-8 byte of the text percent-encoded
/// (upper-case hexadecimal) except ASCII letters, digits and `-`, `.`, `_`,
/// `~`, which stay as they are.
pub open spec fn url_encoded(s: Seq<char>) -> Seq<char>
    decreases s.len(),
{
    if s.len() == 0 {
        Seq::empty()
    } else {
        url_encoded(s.drop_last()) + encoded_bytes(utf8_bytes(s.last()))
    }
}

/// `urlencoding::encode`.
#[verifier::external_body]
fn encode_query(s: &str) -> (r: String)
    ensures
        r@ == url_encoded(s@),
{
    urlencoding::encode(s).into_owned()
}

/// The search page the web search reads.
pub fn search_url(query: &str) -> (r: String)
    ensures
        r@ == "https://html.duckduckgo.com/html/?q="@ + url_encoded(query@),
{
    let mut v: Vec<char> = Vec::new();
    extend_str(&mut v, "https://html.duckduckgo.com/html/?q=");
    let e = encode_query(query);
    extend_str(&mut v, e.as_str());
    string_of(&v)
}

/// The texts a search result holds, each present when its element is: the
/// title, the snippet and the shown address.
#[derive(Debug)]
pub struct RawHit {
    pub title: Option<String>,
    pub snippet: Option<String>,
    pub url: Option<String>,
}

pub struct RawHitSpec {
    pub title: Option<Seq<char>>,
    pub snippet: Option<Seq<char>>,
    pub url: Option<Seq<char>>,
}

impl View for RawHit {
    type V = RawHitSpec;

    open spec fn view(&self) -> RawHitSpec {
        RawHitSpec { title: opt_text(self.title), snippet: opt_text(self.snippet), url: opt_text(self.url) }
    }
}

pub open spec fn hit_views(v: Seq<RawHit>) -> Seq<RawHitSpec> {
    Seq::new(v.len(), |i: int| v[i]@)
}

/// What `scraper` finds in a page: for each element matching `outer`, in
/// the order of the parsed tree's nodes (the order the parser created them),
/// the text (all text nodes joined) of the first descendant
/// matching each of the three inner selectors. A selector that does not
/// parse finds nothing.
pub uninterp spec fn scraped_hits(html: Seq<char>, outer: Seq<char>, inner: (Seq<char>, Seq<char>, Seq<char>)) -> Seq<RawHitSpec>;

/// Parses the page with `scraper::Html::parse_document` and collects, for
/// each element matching `outer`, the joined text of the first descendant
/// matching each inner selector.
#[verifier::external_body]
fn select_hits(html: &str, outer: &str, inner: (&str, &str, &str)) -> (r: Vec<RawHit>)
    ensures
        hit_views(r@) == scraped_hits(html@, outer@, (inner.0@, inner.1@, inner.2@)),
{
    let doc = scraper::Html::parse_document(html);
    let sel = |s: &str| scraper::Selector::parse(s).ok();
    let (Some(all), t, s, u) = (sel(outer), sel(inner.0), sel(inner.1), sel(inner.2)) else { return Vec::new() };
    let first = |el: scraper::ElementRef, q: &Option<scraper::Selector>| {
        q.as_ref().and_then(|q| el.select(q).next()).map(|e| e.text().collect::<String>())
    };
    doc.select(&all).map(|el| RawHit { title: first(el, &t), snippet: first(el, &s), url: first(el, &u) }).collect()
}

/// How many results a search summary looks at.
pub const MAX_SEARCH_RESULTS: usize = 5;

/// A present text trimmed, or a stand-in.
pub open spec fn text_or(t: Option<Seq<char>>, d: Seq<char>) -> Seq<char> {
    match t {
        Some(s) => trim(s),
        None => d,
    }
}

/// The summary line of a result numbered `k`.
pub open spec fn hit_line(k: nat, title: Seq<char>, h: RawHitSpec) -> Seq<char> {
    decimal(k) + ". "@ + title + "\n   URL: "@ + text_or(h.url, ""@) + "\n   Snippet: "@ + text_or(
        h.snippet,
        "No Snippet"@,
    ) + "\n\n"@
}

/// The summary lines of the results with a non-empty title, numbered from
/// 1, and how many there are.
pub open spec fn hits_text(hs: Seq<RawHitSpec>) -> (Seq<char>, nat)
    decreases hs.len(),
{
    if hs.len() == 0 {
        (Seq::empty(), 0)
    } else {
        let before = hits_text(hs.drop_last());
        let title = text_or(hs.last().title, "No Title"@);
        if title.len() == 0 {
            before
        } else {
            (before.0 + hit_line(before.1 + 1, title, hs.last()), before.1 + 1)
        }
    }
}

/// The summary of a result page: the first five results, those with a title
/// listed under a heading, or a failure when none has one.
pub open spec fn search_summary(query: Seq<char>, hs: Seq<RawHitSpec>) -> Seq<char> {
    let first = if hs.len() > MAX_SEARCH_RESULTS {
        hs.subrange(0, MAX_SEARCH_RESULTS as int)
    } else {
        hs
    };
    let (body, count) = hits_text(first);
    if count == 0 {
        "❌ [WebSearch Error]: No search results found for query '"@ + query + "'"@
    } else {
        "[Search Results for '"@ + query + "']\n\n"@ + body
    }
}

fn text_or_exec(t: &Option<String>, d: &str) -> (r: Vec<char>)
    ensures
        r@ == text_or(opt_text(*t), d@),
{
    match t {
        Some(s) => {
            let v = chars_of(s.as_str());
            trimmed(&v)
        },
        None => chars_of(d),
    }
}

/// Summarises a search result page for the model.
pub fn summarize_hits(query: &str, hits: &Vec<RawHit>) -> (r: String)
    ensures
        r@ == search_summary(query@, hit_views(hits@)),
{
    let n = if hits.len() > MAX_SEARCH_RESULTS {
        MAX_SEARCH_RESULTS
    } else {
        hits.len()
    };
    let ghost hs = hit_views(hits@);
    let ghost first = if hs.len() > MAX_SEARCH_RESULTS {
        hs.subrange(0, MAX_SEARCH_RESULTS as int)
    } else {
        hs
    };
    let mut body: Vec<char> = Vec::new();
    let mut count: usize = 0;
    let mut i: usize = 0;
    while i < n
        invariant
            n <= hits.len(),
            n <= MAX_SEARCH_RESULTS,
            hs == hit_views(hits@),
            first == hs.subrange(0, n as int),
            i <= n,
            count <= i,
            (body@, count as nat) == hits_text(first.subrange(0, i as int)),
        decreases n - i,
    {
        let h = &hits[i];
        let ghost before = body@;
        proof {
            assert(first.subrange(0, i + 1).drop_last() =~= first.subrange(0, i as int));
            assert(first.subrange(0, i + 1).last() == h@);
        }
        let title = text_or_exec(&h.title, "No Title");
        if title.len() > 0 {
            count = count + 1;
            let k = decimal_chars(count as u64);
            extend(&mut body, &k);
            extend_str(&mut body, ". ");
            extend(&mut body, &title);
            extend_str(&mut body, "\n   URL: ");
            let u = text_or_exec(&h.url, "");
            extend(&mut body, &u);
            extend_str(&mut body, "\n   Snippet: ");
            let s = text_or_exec(&h.snippet, "No Snippet");
            extend(&mut body, &s);
            extend_str(&mut body, "\n\n");
            assert(body@ =~= before + hit_line(count as nat, title@, h@));
        }
        i += 1;
    }
    assert(first.subrange(0, n as int) =~= first);
    let mut v: Vec<char> = Vec::new();
    if count == 0 {
        extend_str(&mut v, "❌ [WebSearch Error]: No search results found for query '");
        extend_str(&mut v, query);
        extend_str(&mut v, "'");
    } else {
        extend_str(&mut v, "[Search Results for '");
        extend_str(&mut v, query);
        extend_str(&mut v, "']\n\n");
        extend(&mut v, &body);
    }
    string_of(&v)
}

/// How fetching the search page went.
#[derive(Debug)]
pub enum SearchFetch {
    /// The HTTP client could not be built.
    ClientFailed(String),
    /// The request failed.
    RequestFailed(String),
    /// The response body could not be read.
    BodyFailed(String),
    /// The page.
    Fetched(String),
}

/// The selectors of a result, its title, its snippet and its address on the
/// search page.
pub open spec fn result_selectors() -> (Seq<char>, (Seq<char>, Seq<char>, Seq<char>)) {
    (".result"@, (".result__title"@, ".result__snippet"@, ".result__url"@))
}

/// The outcome of a web search for the model.
pub fn web_search_report(query: &str, fetch: SearchFetch) -> (r: String)
    ensures
        r@ == match fetch {
            SearchFetch::ClientFailed(e) => "❌ [WebSearch Error]: Failed to build HTTP client: "@ + e@,
            SearchFetch::RequestFailed(e) => "❌ [WebSearch Error]: Request failed: "@ + e@,
            SearchFetch::BodyFailed(e) => "❌ [WebSearch Error]: Failed to read response body: "@ + e@,
            SearchFetch::Fetched(html) => search_summary(
                query@,
                scraped_hits(html@, result_selectors().0, result_selectors().1),
            ),
        },
{
    let mut v: Vec<char> = Vec::new();
    match fetch {
        SearchFetch::ClientFailed(e) => {
            extend_str(&mut v, "❌ [WebSearch Error]: Failed to build HTTP client: ");
            extend_str(&mut v, e.as_str());
            string_of(&v)
        },
        SearchFetch::RequestFailed(e) => {
            extend_str(&mut v, "❌ [WebSearch Error]: Request failed: ");
            extend_str(&mut v, e.as_str());
            string_of(&v)
        },
        SearchFetch::BodyFailed(e) => {
            extend_str(&mut v, "❌ [WebSearch Error]: Failed to read response body: ");
            extend_str(&mut v, e.as_str());
            string_of(&v)
        },
        SearchFetch::Fetched(html) => {
            let hits = select_hits(
                html.as_str(),
                ".result",
                (".result__title", ".result__snippet", ".result__url"),
            );
            summarize_hits(query, &hits)
        },
    }
}

/// The address of a page to read, without surrounding white space.
pub fn clean_url(url: &str) -> (r: String)
    ensures
        r@ == trim(url@),
{
    let v = chars_of(url);
    let t = trimmed(&v);
    string_of(&t)
}

/// How fetching a page went.
#[derive(Debug)]
pub enum PageFetch {
    /// The page could not be reached.
    Unreachable(String),
    /// Its text could not be read.
    Unreadable(String),
    /// The page's HTML.
    Fetched(String),
}

/// How the two passes over a fetched page went.
#[derive(Debug)]
pub enum PagePasses {
    /// The readability pass could not start (the reason).
    SetupFailed(String),
    /// The readability pass found no article content.
    NoArticle,
    /// The Markdown conversion failed (the reason).
    ConversionFailed(String),
    /// The conversion gave no text.
    NoMarkdown,
    /// The article as Markdown.
    Markdown(String),
}

pub enum PagePassesSpec {
    SetupFailed(Seq<char>),
    NoArticle,
    ConversionFailed(Seq<char>),
    NoMarkdown,
    Markdown(Seq<char>),
}

impl View for PagePasses {
    type V = PagePassesSpec;

    open spec fn view(&self) -> PagePassesSpec {
        match self {
            PagePasses::SetupFailed(e) => PagePassesSpec::SetupFailed(e@),
            PagePasses::NoArticle => PagePassesSpec::NoArticle,
            PagePasses::ConversionFailed(e) => PagePassesSpec::ConversionFailed(e@),
            PagePasses::NoMarkdown => PagePassesSpec::NoMarkdown,
            PagePasses::Markdown(m) => PagePassesSpec::Markdown(m@),
        }
    }
}

/// What the model is told about a page, given how the passes went.
pub open spec fn page_text(url: Seq<char>, p: PagePassesSpec) -> Seq<char> {
    match p {
        PagePassesSpec::SetupFailed(e) => "❌ [ReadPage Error]: Readability initialization failed: "@ + e,
        PagePassesSpec::ConversionFailed(e) => "❌ [ReadPage Error]: Markdown conversion failed: "@ + e,
        PagePassesSpec::Markdown(m) => "---[Page Content for "@ + url + "]---\n\n"@ + m,
        _ => "❌ [ReadPage Error]: Could not identify or extract main content block from this page."@,
    }
}

/// The report on a page from how its passes went.
pub fn page_report(url: &str, passes: &PagePasses) -> (r: String)
    ensures
        r@ == page_text(url@, passes@),
{
    let mut v: Vec<char> = Vec::new();
    match passes {
        PagePasses::SetupFailed(e) => {
            extend_str(&mut v, "❌ [ReadPage Error]: Readability initialization failed: ");
            extend_str(&mut v, e.as_str());
        },
        PagePasses::ConversionFailed(e) => {
            extend_str(&mut v, "❌ [ReadPage Error]: Markdown conversion failed: ");
            extend_str(&mut v, e.as_str());
        },
        PagePasses::Markdown(m) => {
            extend_str(&mut v, "---[Page Content for ");
            extend_str(&mut v, url);
            extend_str(&mut v, "]---\n\n");
            extend_str(&mut v, m.as_str());
        },
        _ => {
            extend_str(
                &mut v,
                "❌ [ReadPage Error]: Could not identify or extract main content block from this page.",
            );
        },
    }
    string_of(&v)
}

/// `readabilityrs::Readability`, a page prepared for the readability pass.
#[verifier::external_type_specification]
#[verifier::external_body]
pub struct ExReadability(readabilityrs::Readability);

/// Whether `url::Url::parse` accepts a text as an absolute URL.
pub uninterp spec fn parses_as_url(url: Seq<char>) -> bool;

/// `Readability::new` with the page's address and the default options. The
/// page itself is parsed leniently and never fails; the call fails exactly
/// when `url::Url::parse` refuses the address, with the message
/// `Invalid URL: <address>`.
#[verifier::external_body]
fn readability_setup(html: &str, url: &str) -> (r: Result<readabilityrs::Readability, String>)
    ensures
        match r {
            Ok(_) => parses_as_url(url@),
            Err(e) => !parses_as_url(url@) && e@ == "Invalid URL: "@ + url@,
        },
{
    readabilityrs::Readability::new(html, Some(url), Some(readabilityrs::ReadabilityOptions::default()))
        .map_err(|e| e.to_string())
}

/// `Readability::parse`, keeping the article's content HTML. Which element
/// it picks as the article depends, among equal scores, on the order a hash
/// map is walked, so nothing is stated of the result.
#[verifier::external_body]
fn readability_content(r: readabilityrs::Readability) -> (c: Option<String>) {
    r.parse().and_then(|a| a.content)
}

/// What `html_to_markdown_rs::convert` gives for an HTML text with the
/// default options: the Markdown text, if any, or the error's message.
pub uninterp spec fn markdown_conversion(html: Seq<char>) -> Result<Option<Seq<char>>, Seq<char>>;

/// `html_to_markdown_rs::convert` with the default options: the Markdown
/// text, if the conversion gives one, or the error's message.
#[verifier::external_body]
fn markdown_of(html: &str) -> (r: Result<Option<String>, String>)
    ensures
        match r {
            Ok(Some(m)) => markdown_conversion(html@) == Ok::<Option<Seq<char>>, Seq<char>>(Some(m@)),
            Ok(None) => markdown_conversion(html@) == Ok::<Option<Seq<char>>, Seq<char>>(None),
            Err(e) => markdown_conversion(html@) == Err::<Option<Seq<char>>, Seq<char>>(e@),
        },
{
    html_to_markdown_rs::convert(html, None).map(|c| c.content).map_err(|e| e.to_string())
}

/// The outcomes the two passes can have for an address: the setup fails
/// exactly for an address that is not a URL, with `Invalid URL: <address>`;
/// otherwise readability finds no article, or the Markdown conversion of
/// some article HTML gives the failure, no text, or the text.
pub open spec fn possible_passes(url: Seq<char>, p: PagePassesSpec) -> bool {
    match p {
        PagePassesSpec::SetupFailed(e) => !parses_as_url(url) && e == "Invalid URL: "@ + url,
        PagePassesSpec::NoArticle => parses_as_url(url),
        PagePassesSpec::ConversionFailed(e) => parses_as_url(url) && exists|c: Seq<char>|
            #[trigger] markdown_conversion(c) == Err::<Option<Seq<char>>, Seq<char>>(e),
        PagePassesSpec::NoMarkdown => parses_as_url(url) && exists|c: Seq<char>|
            #[trigger] markdown_conversion(c) == Ok::<Option<Seq<char>>, Seq<char>>(None),
        PagePassesSpec::Markdown(m) => parses_as_url(url) && exists|c: Seq<char>|
            #[trigger] markdown_conversion(c) == Ok::<Option<Seq<char>>, Seq<char>>(Some(m)),
    }
}

/// What the passes found once readability has run: no article, or the
/// Markdown conversion of the article's HTML (its failure, no text, or the
/// text).
pub open spec fn article_outcome(content: Option<Seq<char>>) -> PagePassesSpec {
    match content {
        None => PagePassesSpec::NoArticle,
        Some(c) => match markdown_conversion(c) {
            Err(e) => PagePassesSpec::ConversionFailed(e),
            Ok(None) => PagePassesSpec::NoMarkdown,
            Ok(Some(m)) => PagePassesSpec::Markdown(m),
        },
    }
}

/// Converts the article readability picked (if any) to Markdown and sorts
/// the outcome.
pub fn article_passes(content: Option<String>) -> (r: PagePasses)
    ensures
        r@ == article_outcome(opt_text(content)),
{
    match content {
        None => PagePasses::NoArticle,
        Some(c) => match markdown_of(c.as_str()) {
            Err(e) => PagePasses::ConversionFailed(e),
            Ok(None) => PagePasses::NoMarkdown,
            Ok(Some(m)) => PagePasses::Markdown(m),
        },
    }
}

/// Runs the readability pass and the Markdown conversion over a page. The
/// readability pass fails to start exactly when the address is not a URL,
/// and then says so; a Markdown result is the conversion of the article
/// HTML readability picked (which article that is, is not stated).
pub fn page_passes(html: &str, url: &str) -> (r: PagePasses)
    ensures
        (r is SetupFailed) <==> !parses_as_url(url@),
        r matches PagePasses::SetupFailed(e) ==> e@ == "Invalid URL: "@ + url@,
        !(r is SetupFailed) ==> exists|c: Option<Seq<char>>| r@ == article_outcome(c),
        possible_passes(url@, r@),
{
    match readability_setup(html, url) {
        Err(e) => PagePasses::SetupFailed(e),
        Ok(r) => {
            let content = readability_content(r);
            let passes = article_passes(content);
            assert(passes@ == article_outcome(opt_text(content)));
            passes
        },
    }
}

/// What reading a page tells the model: the fetch failure with its reason,
/// or the report on the fetched page (one of the texts `page_text` gives,
/// whatever the passes found).
pub fn read_webpage_report(url: &str, fetch: PageFetch) -> (r: String)
    ensures
        match fetch {
            PageFetch::Unreachable(e) => r@ == "❌ [ReadPage Error]: Failed to reach "@ + url@ + ". Reason: "@ + e@,
            PageFetch::Unreadable(e) => r@ == "❌ [ReadPage Error]: Failed to read text from "@ + url@
                + ". Reason: "@ + e@,
            PageFetch::Fetched(_) => {
                &&& exists|p: PagePassesSpec| possible_passes(url@, p) && r@ == page_text(url@, p)
                &&& !parses_as_url(url@) ==> r@ == page_text(
                    url@,
                    PagePassesSpec::SetupFailed("Invalid URL: "@ + url@),
                )
            },
        },
{
    let mut v: Vec<char> = Vec::new();
    match fetch {
        PageFetch::Unreachable(e) => {
            extend_str(&mut v, "❌ [ReadPage Error]: Failed to reach ");
            extend_str(&mut v, url);
            extend_str(&mut v, ". Reason: ");
            extend_str(&mut v, e.as_str());
            string_of(&v)
        },
        PageFetch::Unreadable(e) => {
            extend_str(&mut v, "❌ [ReadPage Error]: Failed to read text from ");
            extend_str(&mut v, url);
            extend_str(&mut v, ". Reason: ");
            extend_str(&mut v, e.as_str());
            string_of(&v)
        },
        PageFetch::Fetched(html) => {
            let passes = page_passes(html.as_str(), url);
            let r = page_report(url, &passes);
            assert(r@ == page_text(url@, passes@));
            r
        },
    }
}

} // verus!
