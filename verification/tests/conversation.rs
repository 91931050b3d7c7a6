use mobius::agent::{Conversation, Step, MAX_TOOL_TURNS};
use mobius::engine::{ThinkingLevel, TokenUsage};
use mobius::session::{Session, TerminalHistory, SYSTEM_PROMPT};
use mobius::stream::{classify_line, status_error, ReplyState, SseBuffer, SseLine, StreamDelta};
use mobius::ipc::DaemonEvent;
use mobius::tools::ToolCall;

fn usage(p: usize, c: usize) -> TokenUsage {
    TokenUsage { prompt_tokens: p, completion_tokens: c, total_tokens: p + c }
}

#[test]
fn start_appends_prompt_and_resolves_level() {
    let mut s = Session::default();
    s.thinking_level = Some("HIGH".to_string());
    let c = Conversation::start(s, "hi", None);
    assert_eq!(c.thinking_level, ThinkingLevel::High);
    assert_eq!(c.session.messages.len(), 1);
    assert_eq!(c.session.messages[0].role, "user");
    assert_eq!(c.turns_left, MAX_TOOL_TURNS);
    let d = Conversation::start(Session::default(), "x", Some("bogus".to_string()));
    assert_eq!(d.thinking_level, ThinkingLevel::Off);
    assert_eq!(d.session.thinking_level, Some("bogus".to_string()));
}

#[test]
fn reply_with_tool_runs_it() {
    let mut c = Conversation::start(Session::default(), "list", None);
    let step = c.on_reply("```bash\nls\n```", usage(10, 2), 4096);
    assert!(matches!(step, Step::RunTool(ToolCall::Shell(ref s)) if s == "ls"));
    assert_eq!(c.session.last_prompt_tokens, 10);
    assert_eq!(c.session.context_window, 4096);
    assert_eq!(c.session.messages.last().unwrap().role, "assistant");
}

#[test]
fn at_most_five_tool_rounds() {
    let mut c = Conversation::start(Session::default(), "go", None);
    let call = ToolCall::Shell("true".to_string());
    let mut asked_again = 0;
    for _ in 0..5 {
        match c.on_tool_output(&call, "ok") {
            Step::AskModel => asked_again += 1,
            _ => break,
        }
    }
    assert_eq!(asked_again, 4);
    assert_eq!(c.turns_left, 0);
    let last = c.session.messages.last().unwrap();
    assert_eq!(
        last.content,
        "[Tool Output for `true`]:\nok\n\nPlease provide the final response to the user based on this output."
    );
}

#[test]
fn api_messages_start_with_system_prompt() {
    let mut s = Session::default();
    s.add_message("user", "hello");
    let m = s.get_api_messages();
    assert_eq!(m.len(), 2);
    assert_eq!(m[0].role, "system");
    assert_eq!(m[0].content, SYSTEM_PROMPT);
    assert_eq!(m[1].content, "hello");
}

#[test]
fn history_keeps_ten_newest() {
    let mut h = TerminalHistory::default();
    for i in 0..12 {
        h.push_entry(format!("cmd{}", i), String::new());
    }
    assert_eq!(h.entries.len(), 10);
    assert_eq!(h.entries.front().unwrap().command, "cmd2");
    let last = h.get_last_n(3);
    let names: Vec<&str> = last.iter().map(|e| e.command.as_str()).collect();
    assert_eq!(names, vec!["cmd9", "cmd10", "cmd11"]);
    assert_eq!(h.get_last_n(50).len(), 10);
}

#[test]
fn session_paths() {
    assert_eq!(Session::get_file_path("/tmp/s", 42), "/tmp/s/42.json");
    assert_eq!(TerminalHistory::get_history_file("/tmp/s/", 42), "/tmp/s/42_history.json");
    assert_eq!(Session::get_session_dir("/home/u"), "/home/u/.local/state/mobius/sessions");
}

#[test]
fn event_stream_is_cut_into_lines() {
    let mut b = SseBuffer::new();
    b.push_chunk("data: {\"a\":1}\n\nda");
    assert_eq!(b.next_line(), Some("data: {\"a\":1}".to_string()));
    assert_eq!(b.next_line(), Some(String::new()));
    assert_eq!(b.next_line(), None);
    b.push_chunk("ta: [DONE]  \r\n");
    let line = b.next_line().unwrap();
    assert!(matches!(classify_line(&line), SseLine::End));
    assert!(matches!(classify_line("data: x"), SseLine::Data(ref d) if d == "x"));
    assert!(matches!(classify_line(": ping"), SseLine::Other));
}

fn delta(reasoning: Option<&str>, content: Option<&str>) -> StreamDelta {
    StreamDelta {
        prompt_tokens: None,
        completion_tokens: None,
        total_tokens: None,
        reasoning: reasoning.map(|s| s.to_string()),
        content: content.map(|s| s.to_string()),
    }
}

#[test]
fn deltas_become_events() {
    let mut r = ReplyState::new();
    let ev = r.on_delta(&delta(Some("plan"), Some("<think>a")));
    assert_eq!(ev.len(), 2);
    assert!(matches!(&ev[0], DaemonEvent::ThinkingChunk(s) if s == "plan"));
    assert!(matches!(&ev[1], DaemonEvent::ThinkingChunk(s) if s == "<think>a"));
    let ev = r.on_delta(&delta(Some(""), Some("b</think>")));
    assert_eq!(ev.len(), 1);
    assert!(matches!(&ev[0], DaemonEvent::ThinkingChunk(s) if s == "b</think>"));
    let ev = r.on_delta(&delta(None, Some(" Answer")));
    assert!(matches!(&ev[0], DaemonEvent::TextChunk(s) if s == " Answer"));
    assert_eq!(r.reply_text(), "Answer");
}

#[test]
fn usage_figures_are_taken_over() {
    let mut r = ReplyState::new();
    let mut d = delta(None, None);
    d.prompt_tokens = Some(120);
    d.total_tokens = Some(130);
    let ev = r.on_delta(&d);
    assert!(ev.is_empty());
    assert_eq!(r.usage.prompt_tokens, 120);
    assert_eq!(r.usage.completion_tokens, 0);
    assert_eq!(r.usage.total_tokens, 130);
}

#[test]
fn terminal_rendering_prefixes_answer_once() {
    let mut r = ReplyState::new();
    assert_eq!(r.render_delta(&delta(Some("hmm"), None)), "\x1B[90mhmm\x1B[0m");
    assert_eq!(r.render_delta(&delta(None, Some("Hi"))), "\n\x1B[32mMobius:\x1B[0m Hi");
    assert_eq!(r.render_delta(&delta(None, Some(" there"))), " there");
}

#[test]
fn refused_reply_message() {
    assert_eq!(status_error("404 Not Found", "nope"), "Server HTTP Status Error (404 Not Found): nope");
}

#[test]
fn data_lines_are_read_as_deltas() {
    let mut r = ReplyState::new();
    assert!(r.on_data_line("not json").is_empty());
    assert!(r.full_text.is_empty());
    let ev = r.on_data_line(
        r#"{"choices":[{"delta":{"reasoning_content":"hm","content":"Hi"}}],"usage":{"prompt_tokens":7,"completion_tokens":"x"}}"#,
    );
    assert_eq!(ev.len(), 2);
    assert!(matches!(&ev[0], DaemonEvent::ThinkingChunk(s) if s == "hm"));
    assert!(matches!(&ev[1], DaemonEvent::TextChunk(s) if s == "Hi"));
    assert_eq!(r.usage.prompt_tokens, 7);
    assert_eq!(r.usage.completion_tokens, 0);
    assert!(r.on_data_line(r#"{"choices":[]}"#).is_empty());
    let mut t = ReplyState::new();
    assert_eq!(t.render_data_line(r#"{"choices":[{"delta":{"content":"Yo"}}]}"#), "\x1B[32mMobius:\x1B[0m Yo");
    assert_eq!(t.render_data_line("{"), "");
}
