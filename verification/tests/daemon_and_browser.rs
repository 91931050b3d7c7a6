use mobius::browser::{preview_lines, session_file_name, session_label, session_preview, BrowserAction, BrowserKey, SessionBrowser, SessionFile, Speaker};
use mobius::client::{autostart_error, connect_error, EventPrinter, Shown};
use mobius::daemon::{
    conversation_model, delete_session_events, get_socket_path, llm_status_events, load_session_events,
    may_delete_session, model_list_events, model_query_events, new_session_events, route, route_rest, select_model,
    shutdown_events, Rest, Route,
};
use mobius::inferences::{model_info, InferenceEngine, ModelInfo};
use mobius::ipc::{DaemonEvent, IpcRequest, SessionMetadata};
use mobius::session::{Message, Session};

fn request() -> IpcRequest {
    IpcRequest {
        ppid: 42,
        prompt: String::new(),
        thinking_level_override: None,
        model_override: None,
        model_number: None,
        new_session: false,
        query_tokens: false,
        query_model: false,
        query_model_list: false,
        query_thinking: false,
        query_llm_status: false,
        llm_provider: None,
        shutdown: false,
        record_history: None,
        list_sessions: false,
        load_session: None,
        delete_session: None,
    }
}

fn models() -> Vec<ModelInfo> {
    vec![
        model_info(InferenceEngine::LlamaCpp, "llama.cpp", "qwen"),
        model_info(InferenceEngine::Ollama, "Ollama", "llama3"),
    ]
}

fn info_text(ev: &[DaemonEvent]) -> String {
    match &ev[0] {
        DaemonEvent::Info(t) => t.clone(),
        DaemonEvent::Error(t) => t.clone(),
        other => panic!("unexpected {:?}", other),
    }
}

#[test]
fn shutdown_comes_first() {
    let mut r = request();
    r.shutdown = true;
    r.list_sessions = true;
    assert!(matches!(route(&r), Route::Shutdown));
    let ev = shutdown_events();
    assert_eq!(info_text(&ev), "Mobius daemon shutting down...\n");
    assert!(matches!(ev[1], DaemonEvent::Done));
}

#[test]
fn routes_in_order() {
    let mut r = request();
    r.load_session = Some("/x/1.json".to_string());
    r.new_session = true;
    assert!(matches!(route(&r), Route::LoadSession(ref p) if p == "/x/1.json"));
    let mut r = request();
    r.new_session = true;
    r.model_number = Some(2);
    assert!(matches!(route(&r), Route::NewSession));
    let mut r = request();
    r.model_number = Some(2);
    assert!(matches!(route(&r), Route::SelectModel(2)));
    assert!(matches!(route(&request()), Route::Continue));
}

#[test]
fn session_replies() {
    assert!(matches!(&load_session_events(Some("[]".to_string()))[0], DaemonEvent::TextChunk(t) if t == "[]"));
    assert_eq!(info_text(&load_session_events(None)), "Failed to load session");
    assert_eq!(info_text(&new_session_events()), "✨ Started fresh session for this terminal.\n");
}

#[test]
fn current_session_cannot_be_deleted() {
    assert!(!may_delete_session("/s/42.json", 42));
    assert!(may_delete_session("/s/43.json", 42));
    assert!(may_delete_session("/s/..", 42));
    assert_eq!(info_text(&delete_session_events(false, None)), "Cannot delete the currently active session");
    assert_eq!(
        info_text(&delete_session_events(true, Some("gone".to_string()))),
        "Failed to delete session: gone"
    );
    let ok = delete_session_events(true, None);
    assert_eq!(ok.len(), 1);
    assert!(matches!(ok[0], DaemonEvent::Done));
}

#[test]
fn model_selection_by_number() {
    let mut s = Session::default();
    let ms = models();
    let msg = select_model(&mut s, 2, &ms).unwrap();
    assert_eq!(msg, "🔄 Switched to [2] Ollama: llama3\n");
    assert_eq!(s.model_provider, Some("ollama".to_string()));
    assert_eq!(s.model_name, Some("llama3".to_string()));
    let mut t = Session::default();
    let err = select_model(&mut t, 3, &ms).unwrap_err();
    assert_eq!(err, "Invalid model selection: [3]. Use `mobius -m` to list available models.\n");
    assert_eq!(t.model_name, None);
}

#[test]
fn rest_of_request() {
    let mut s = Session::default();
    let r = request();
    assert!(matches!(route_rest(&r, &mut s, Some("switched\n".to_string())), Rest::Reply(ref ev) if info_text(ev) == "switched\n"));
    assert!(matches!(route_rest(&r, &mut s, None), Rest::Reply(ref ev) if ev.len() == 1));
    let mut q = request();
    q.prompt = "hello".to_string();
    assert!(matches!(route_rest(&q, &mut s, None), Rest::Converse));
    let mut t = request();
    t.thinking_level_override = Some("nope".to_string());
    match route_rest(&t, &mut s, None) {
        Rest::Reply(ev) => assert_eq!(
            info_text(&ev),
            "Invalid thinking level: 'nope'. Use `mobius -t` to list available levels.\n"
        ),
        _ => panic!("expected a refusal"),
    }
    t.thinking_level_override = Some("high".to_string());
    match route_rest(&t, &mut s, None) {
        Rest::SaveAndReply(ev) => assert_eq!(info_text(&ev), "🧠 Thinking level set to: high\n"),
        _ => panic!("expected a change"),
    }
    assert_eq!(s.thinking_level, Some("high".to_string()));
    let mut st = request();
    st.query_llm_status = true;
    assert!(matches!(route_rest(&st, &mut s, None), Rest::LlmStatus(ref p) if p == "llama"));
}

#[test]
fn thinking_listing_marks_current() {
    let mut s = Session::default();
    s.thinking_level = Some("low".to_string());
    let mut r = request();
    r.query_thinking = true;
    match route_rest(&r, &mut s, None) {
        Rest::Reply(ev) => assert_eq!(
            info_text(&ev),
            "🧠 Current Thinking Level: low\n\nAvailable Levels:\n     [0] off\n     [1] minimal\n  ➡ [2] low\n     [3] medium\n     [4] high\n     [5] xhigh\n     [6] max\n"
        ),
        _ => panic!("expected the listing"),
    }
}

#[test]
fn model_listings() {
    let mut s = Session::default();
    s.model_name = Some("llama3".to_string());
    let text = info_text(&model_query_events(&s, &models()));
    assert_eq!(
        text,
        "🤖 Active Provider: llama\n   Current Model:   llama3\n\nAvailable Models:\n     [1] llama: qwen\n  ➡ [2] ollama: llama3\n\nSelect by number, e.g. `mobius -m 2`.\n"
    );
    let none = info_text(&model_query_events(&Session::default(), &Vec::new()));
    assert!(none.ends_with("\n⚠️ No local models detected. Start llama.cpp (8080), Ollama (11434), or LM Studio (1234).\n"));
    match &model_list_events(&s, &models())[0] {
        DaemonEvent::ModelList(l) => {
            assert_eq!(l.len(), 2);
            assert_eq!(l[0].display_name, "[1] llama.cpp: qwen");
            assert!(!l[0].selected);
            assert!(l[1].selected);
            assert_eq!(l[1].provider, "ollama");
        }
        other => panic!("unexpected {:?}", other),
    }
}

#[test]
fn status_and_conversation_model() {
    let s = Session::default();
    match &llm_status_events("ollama", &s, &models())[0] {
        DaemonEvent::LlmStatus { connected, provider, model_name } => {
            assert!(*connected);
            assert_eq!(provider, "ollama");
            assert_eq!(model_name.as_deref(), Some("llama3"));
        }
        other => panic!("unexpected {:?}", other),
    }
    match &llm_status_events("lmstudio", &s, &models())[0] {
        DaemonEvent::LlmStatus { connected, .. } => assert!(!*connected),
        other => panic!("unexpected {:?}", other),
    }
    assert_eq!(conversation_model(&s, &models()), "qwen");
    assert_eq!(conversation_model(&s, &Vec::new()), "default");
}

#[test]
fn socket_path() {
    assert_eq!(get_socket_path("/home/u"), "/home/u/.local/state/mobius/mobius.sock");
}

fn file(name: &str, active: bool) -> SessionFile {
    SessionFile {
        filename: name.to_string(),
        path: format!("/s/{}", name),
        preview: "hi".to_string(),
        is_active: active,
    }
}

#[test]
fn browser_wraps_and_scrolls() {
    let mut b = SessionBrowser::new(vec![file("1.json", true), file("2.json", false)]);
    assert_eq!(b.selected, Some(0));
    b.on_key(BrowserKey::Up);
    assert_eq!(b.selected, Some(1));
    b.on_key(BrowserKey::Down);
    assert_eq!(b.selected, Some(0));
    b.on_key(BrowserKey::PageUp);
    assert_eq!(b.scroll, 0);
    b.on_key(BrowserKey::PageDown);
    b.on_key(BrowserKey::WheelDown);
    assert_eq!(b.scroll, 8);
    b.scroll = u16::MAX - 1;
    b.on_key(BrowserKey::WheelDown);
    assert_eq!(b.scroll, u16::MAX);
    b.on_key(BrowserKey::Down);
    assert_eq!(b.scroll, 0);
}

#[test]
fn browser_keeps_active_session() {
    let mut b = SessionBrowser::new(vec![file("1.json", true), file("2.json", false)]);
    assert!(matches!(b.on_key(BrowserKey::Delete), BrowserAction::Stay));
    assert_eq!(b.sessions.len(), 2);
    b.on_key(BrowserKey::Down);
    assert!(matches!(b.on_key(BrowserKey::Delete), BrowserAction::Remove(ref p) if p == "/s/2.json"));
    assert_eq!(b.sessions.len(), 1);
    assert_eq!(b.selected, Some(0));
    assert!(matches!(b.on_key(BrowserKey::Open), BrowserAction::Open(ref p) if p == "/s/1.json"));
    assert!(matches!(b.on_key(BrowserKey::Quit), BrowserAction::Quit));
}

#[test]
fn browser_labels_and_preview() {
    assert_eq!(session_label(&file("12.json", true)), "● 12 | hi");
    assert_eq!(session_label(&file("a.json.json", false)), "○ a | hi");
    let msgs = vec![
        Message { role: "user".to_string(), content: "q".to_string() },
        Message { role: "system".to_string(), content: "s".to_string() },
        Message { role: "assistant".to_string(), content: "a".to_string() },
    ];
    let p = preview_lines(&msgs);
    assert_eq!(p.len(), 5);
    assert_eq!(p[0].speaker, Speaker::User);
    assert_eq!(p[0].text, "q");
    assert_eq!(p[1].speaker, Speaker::Blank);
    assert_eq!(p[2].speaker, Speaker::Blank);
    assert_eq!(p[3].speaker, Speaker::Mobius);
}

#[test]
fn printer_shows_events() {
    let mut p = EventPrinter::new();
    assert!(matches!(p.show(&DaemonEvent::TextChunk("Hi".to_string())), Shown::Out(ref t) if t == "\x1b[1;32mMobius: \x1b[0mHi"));
    assert!(matches!(p.show(&DaemonEvent::TextChunk("!".to_string())), Shown::Out(ref t) if t == "!"));
    assert!(matches!(p.show(&DaemonEvent::ThinkingChunk("t".to_string())), Shown::Out(ref t) if t == "\x1b[90mt\x1b[0m"));
    assert!(matches!(p.show(&DaemonEvent::Error("bad".to_string())), Shown::ErrOut(ref t) if t == "\n\x1b[31m[Daemon Error]: bad\x1b[0m\n"));
    assert!(matches!(p.show(&DaemonEvent::TokenUsage { prompt: 5, completion: 1, context_window: 10 }), Shown::Usage { prompt: 5, context_window: 10 }));
    assert!(matches!(p.show(&DaemonEvent::Done), Shown::Finish(ref t) if t == "\n"));
    let list = DaemonEvent::SessionList(vec![SessionMetadata {
        filename: "1.json".to_string(),
        path: "/s/1.json".to_string(),
        preview: "hello".to_string(),
        is_active: true,
        message_count: 3,
    }]);
    assert!(matches!(p.show(&list), Shown::Out(ref t) if t == "● 1.json\n   hello\n   3 messages\n"));
}

#[test]
fn client_error_messages() {
    assert_eq!(connect_error("refused"), "❌ Failed to connect to Mobius Daemon. Is it running? (refused)");
    assert!(autostart_error("x").starts_with("❌ Mobius daemon is not running. Failed to auto-start it: x. You can"));
}

#[test]
fn session_files_and_previews() {
    assert!(session_file_name("42.json"));
    assert!(!session_file_name("42_history.json"));
    assert!(!session_file_name("notes.txt"));
    let msgs = vec![
        Message { role: "assistant".to_string(), content: "x".to_string() },
        Message { role: "user".to_string(), content: "first line\nsecond".to_string() },
    ];
    assert_eq!(session_preview(&msgs), "first line");
    let long = vec![Message { role: "user".to_string(), content: "a".repeat(70) }];
    assert_eq!(session_preview(&long), "a".repeat(60));
    assert_eq!(session_preview(&Vec::new()), "(empty)");
    assert_eq!(InferenceEngine::GenericOpenAI.models_url(), "http://localhost:1234/v1/models");
}

#[test]
fn turn_ends_with_done() {
    let ok = mobius::daemon::turn_end_events(None);
    assert_eq!(ok.len(), 1);
    assert!(matches!(ok[0], DaemonEvent::Done));
    let failed = mobius::daemon::turn_end_events(Some("engine down".to_string()));
    assert!(matches!(&failed[0], DaemonEvent::Error(e) if e == "engine down"));
    assert!(matches!(failed[1], DaemonEvent::Done));
}
