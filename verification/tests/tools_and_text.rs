use mobius::engine::{clean_thinking_blocks, ThinkingLevel};
use mobius::tools::{parse_edit_markers, parse_tool_call, CommandOutput, ToolCall};

#[test]
fn bash_block_becomes_shell_call() {
    let r = parse_tool_call("Sure.\n```bash\nls -la\n```\nDone");
    assert_eq!(r, Some(ToolCall::Shell("ls -la".to_string())));
}

#[test]
fn sh_block_joins_lines() {
    let r = parse_tool_call("```sh\ncd /tmp\n  pwd  \n```");
    assert_eq!(r, Some(ToolCall::Shell("cd /tmp\n  pwd".to_string())));
}

#[test]
fn read_block_trims_path() {
    let r = parse_tool_call("```read\n  src/main.rs  \n```");
    assert_eq!(r, Some(ToolCall::Read { path: "src/main.rs".to_string() }));
}

#[test]
fn write_block_first_line_is_path() {
    let r = parse_tool_call("```write\nnotes.txt\nhello\nworld\n```");
    assert_eq!(
        r,
        Some(ToolCall::Write { path: "notes.txt".to_string(), content: "hello\nworld\n".to_string() })
    );
}

#[test]
fn edit_block_with_markers() {
    let text = "```edit\na.rs\n<<<<<<< SEARCH\nlet x = 1;\n=======\nlet x = 2;\n>>>>>>> REPLACE\n```";
    let r = parse_tool_call(text);
    assert_eq!(
        r,
        Some(ToolCall::Edit {
            path: "a.rs".to_string(),
            old_text: "let x = 1;".to_string(),
            new_text: "let x = 2;".to_string(),
        })
    );
}

#[test]
fn edit_block_without_markers_is_skipped() {
    let text = "```edit\na.rs\nno markers\n```";
    assert_eq!(parse_tool_call(text), None);
}

#[test]
fn web_search_lines_join_with_spaces() {
    let r = parse_tool_call("```web_search\nrust\n  verus  \n```");
    assert_eq!(r, Some(ToolCall::WebSearch { query: "rust verus".to_string() }));
}

#[test]
fn read_webpage_block() {
    let r = parse_tool_call("```read_webpage\nhttps://example.com\n```");
    assert_eq!(r, Some(ToolCall::ReadWebPage { url: "https://example.com".to_string() }));
}

#[test]
fn no_block_gives_none() {
    assert_eq!(parse_tool_call("just an answer"), None);
    assert_eq!(parse_tool_call("```python\nprint(1)\n```"), None);
}

#[test]
fn empty_bash_block_is_passed_over() {
    let r = parse_tool_call("```bash\n   \n```\n```read\nx.txt\n```");
    assert_eq!(r, Some(ToolCall::Read { path: "x.txt".to_string() }));
}

#[test]
fn edit_markers_are_found() {
    let r = parse_edit_markers("<<<<<<< SEARCH\nold\n=======\nnew\n>>>>>>> REPLACE\n");
    assert_eq!(r, Some(("old".to_string(), "new".to_string())));
}

#[test]
fn edit_markers_out_of_order_fail() {
    assert_eq!(parse_edit_markers("=======\n<<<<<<< SEARCH\nx\n>>>>>>> REPLACE"), None);
    assert_eq!(parse_edit_markers("<<<<<<< SEARCH\n\n=======\nnew\n>>>>>>> REPLACE"), None);
}

#[test]
fn thinking_blocks_are_stripped() {
    assert_eq!(clean_thinking_blocks("<think>hmm</think> Hello "), "Hello");
    assert_eq!(clean_thinking_blocks("A<thinking>x</thinking>B"), "AB");
    assert_eq!(clean_thinking_blocks("Hi <think>rest of it"), "Hi");
    assert_eq!(clean_thinking_blocks("plain"), "plain");
}

#[test]
fn thinking_level_names() {
    assert_eq!(ThinkingLevel::from_str("MED"), Some(ThinkingLevel::Medium));
    assert_eq!(ThinkingLevel::from_str("min"), Some(ThinkingLevel::Minimal));
    assert_eq!(ThinkingLevel::from_str("XHigh"), Some(ThinkingLevel::XHigh));
    assert_eq!(ThinkingLevel::from_str("foo"), None);
    assert_eq!(ThinkingLevel::Off.to_params(), (false, "none"));
    assert_eq!(ThinkingLevel::Max.to_params(), (true, "max"));
    assert_eq!(ThinkingLevel::Medium.as_str(), "medium");
}

#[test]
fn command_report_lists_streams() {
    let out = CommandOutput {
        stdout: "hi".to_string(),
        stderr: "  ".to_string(),
        success: true,
        exit_code: Some(0),
    };
    assert_eq!(out.to_llm_string(), "[Command Execution: SUCCESS (Exit Code: 0)]\n--- STDOUT ---\nhi\n");
    let failed = CommandOutput {
        stdout: String::new(),
        stderr: "boom".to_string(),
        success: false,
        exit_code: None,
    };
    assert_eq!(
        failed.to_llm_string(),
        "[Command Execution: FAILED (Exit Code: Unknown)]\n--- STDERR ---\nboom\n"
    );
}

#[test]
fn every_level_reads_back_from_its_name() {
    let all = ThinkingLevel::all();
    assert_eq!(all.len(), 7);
    for (i, level) in all.iter().enumerate() {
        assert_eq!(ThinkingLevel::from_str(level.as_str()), Some(*level));
        assert_eq!(ThinkingLevel::from_str(&level.as_str().to_uppercase()), Some(*level));
        if i == 0 {
            assert_eq!(*level, ThinkingLevel::Off);
        }
    }
    assert_eq!(all[6], ThinkingLevel::Max);
}

#[test]
fn no_thinking_tag_survives_cleaning() {
    let cleaned = clean_thinking_blocks("a<thinking>x</thinking>b<thinking>open");
    assert_eq!(cleaned, "ab");
    assert!(!cleaned.contains("<thinking>"));
    assert_eq!(clean_thinking_blocks("  just text \n"), "just text");
}
