use mobius::cli::CliArgs;
use mobius::ipc::HistoryEntry;
use mobius::queries::{
    history_listing_text, plan_queries, running_models, set_provider, set_thinking_level, thinking_query_output,
    token_counts, with_history, Query,
};
use mobius::inferences::{model_info, InferenceEngine};
use mobius::session::Session;
use mobius::web::{
    clean_url, page_report, read_webpage_report, search_url, summarize_hits, web_search_report, PageFetch, PagePasses,
    RawHit, SearchFetch,
};

fn hit(t: Option<&str>, s: Option<&str>, u: Option<&str>) -> RawHit {
    RawHit { title: t.map(String::from), snippet: s.map(String::from), url: u.map(String::from) }
}

#[test]
fn search_address_is_encoded() {
    assert_eq!(search_url("rust verus"), "https://html.duckduckgo.com/html/?q=rust%20verus");
    assert_eq!(search_url("a&b=c"), "https://html.duckduckgo.com/html/?q=a%26b%3Dc");
}

#[test]
fn summary_skips_untitled_and_stops_at_five() {
    let hits = vec![
        hit(Some(" One "), Some(" first "), Some(" a.com ")),
        hit(Some("  "), Some("x"), None),
        hit(None, None, None),
        hit(Some("Three"), None, None),
        hit(Some("Four"), Some("f"), Some("d.com")),
        hit(Some("Five"), Some("g"), Some("e.com")),
        hit(Some("Six"), Some("h"), Some("f.com")),
    ];
    let s = summarize_hits("q", &hits);
    assert_eq!(
        s,
        "[Search Results for 'q']\n\n1. One\n   URL: a.com\n   Snippet: first\n\n2. No Title\n   URL: \n   Snippet: No Snippet\n\n3. Three\n   URL: \n   Snippet: No Snippet\n\n4. Four\n   URL: d.com\n   Snippet: f\n\n"
    );
    assert_eq!(
        summarize_hits("q", &vec![hit(Some(" "), None, None)]),
        "❌ [WebSearch Error]: No search results found for query 'q'"
    );
}

#[test]
fn search_page_is_scraped() {
    let html = r#"<html><body>
        <div class="result"><h2 class="result__title"> <a>Rust</a> lang </h2>
        <a class="result__snippet">Systems <b>language</b></a><span class="result__url"> rust-lang.org </span></div>
        <div class="result"><span class="result__url">x.org</span></div>
        </body></html>"#;
    let s = web_search_report("rust", SearchFetch::Fetched(html.to_string()));
    assert_eq!(
        s,
        "[Search Results for 'rust']\n\n1. Rust lang\n   URL: rust-lang.org\n   Snippet: Systems language\n\n2. No Title\n   URL: x.org\n   Snippet: No Snippet\n\n"
    );
    assert_eq!(
        web_search_report("rust", SearchFetch::RequestFailed("timeout".to_string())),
        "❌ [WebSearch Error]: Request failed: timeout"
    );
}

#[test]
fn page_reports() {
    assert_eq!(clean_url("  https://a.b/c \n"), "https://a.b/c");
    assert_eq!(
        read_webpage_report("https://a.b", PageFetch::Unreachable("dns".to_string())),
        "❌ [ReadPage Error]: Failed to reach https://a.b. Reason: dns"
    );
    assert_eq!(
        page_report("https://a.b", &PagePasses::Markdown("# T".to_string())),
        "---[Page Content for https://a.b]---\n\n# T"
    );
    assert_eq!(
        page_report("https://a.b", &PagePasses::NoArticle),
        "❌ [ReadPage Error]: Could not identify or extract main content block from this page."
    );
    let bad = read_webpage_report("not a url", PageFetch::Fetched("<p>x</p>".to_string()));
    assert_eq!(bad, "❌ [ReadPage Error]: Readability initialization failed: Invalid URL: not a url");
}

fn local(list: &[&str]) -> CliArgs {
    CliArgs::parse(pico_args::Arguments::from_vec(list.iter().map(|s| s.to_string().into()).collect())).unwrap()
}

#[test]
fn query_plan_order() {
    let (archive, q) = plan_queries(&local(&["-n"]));
    assert!(archive);
    assert!(matches!(q, Query::Nothing));
    assert!(matches!(plan_queries(&local(&["-t"])).1, Query::ThinkingQuery));
    assert!(matches!(plan_queries(&local(&["-m", "Ollama"])).1, Query::ModelSet(ref v) if v == "Ollama"));
    assert!(matches!(plan_queries(&local(&["-l", "2"])).1, Query::History(2)));
    assert!(matches!(plan_queries(&local(&["--tokens"])).1, Query::Tokens));
}

#[test]
fn local_settings() {
    let mut s = Session::default();
    assert_eq!(
        thinking_query_output(&s),
        "Thinking Level (-t / --thinking): [QUERY MODE]\n  💡 Current Level: off\n  💡 Available Options: off, min/minimal, low, med/medium, high, xhigh, max\n"
    );
    assert_eq!(
        set_thinking_level(&mut s, "Med", 7).unwrap(),
        "✅ Thinking level set to 'Med' for current session (PID 7).\n"
    );
    assert!(set_thinking_level(&mut s, "zzz", 7).is_err());
    assert_eq!(s.thinking_level, Some("Med".to_string()));
    set_provider(&mut s, "OLLAMA", 7);
    assert_eq!(s.model_provider, Some("ollama".to_string()));
    s.last_prompt_tokens = 100;
    s.last_completion_tokens = 20;
    assert_eq!(token_counts(&s), (120, 8192));
}

#[test]
fn running_model_lines() {
    let ms = vec![model_info(InferenceEngine::Ollama, "Ollama", "llama3")];
    assert_eq!(running_models(&ms, "ollama"), "  🟢 [1] Ollama: llama3 \x1B[32m[Active]\x1B[0m\n");
    assert_eq!(running_models(&ms, "llama"), "  🟢 [1] Ollama: llama3\n");
}

#[test]
fn history_in_prompt_and_listing() {
    let es = vec![HistoryEntry { command: "ls".to_string(), output: " a \n".to_string() }];
    assert_eq!(with_history("why?", 1, &es), "why?\n\n[Context: Last 1 Terminal Commands]\n$ ls\n a \n\n");
    assert_eq!(with_history("why?", 3, &Vec::new()), "why?");
    assert_eq!(history_listing_text(9, &es), "Terminal History (-l / --last): [PID 9]\n\n--- [1] $ ls ---\na\n");
    assert_eq!(
        history_listing_text(9, &Vec::new()),
        "Terminal History (-l / --last): [PID 9]\n  ⚠️ No history recorded yet.\n"
    );
}

#[test]
fn multibyte_text_is_percent_encoded() {
    assert_eq!(search_url("é~x"), "https://html.duckduckgo.com/html/?q=%C3%A9~x");
}

#[test]
fn valid_address_passes_setup() {
    let p = mobius::web::page_passes("<html><body><p>short</p></body></html>", "https://example.com/");
    assert!(!matches!(p, PagePasses::SetupFailed(_)));
}

#[test]
fn article_outcomes() {
    assert!(matches!(mobius::web::article_passes(None), PagePasses::NoArticle));
    match mobius::web::article_passes(Some("<h1>Title</h1><p>Body text</p>".to_string())) {
        PagePasses::Markdown(m) => assert!(m.contains("Title") && m.contains("Body text")),
        other => panic!("unexpected {:?}", other),
    }
    assert!(mobius::inferences::InferenceEngine::LlamaCpp.reports_context_in_meta());
    assert!(!mobius::inferences::InferenceEngine::GenericOpenAI.reports_context_in_meta());
}
