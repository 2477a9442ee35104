use llama_runtime::proxy::{
    after_chat_completions, chat_completion_result, chat_completions_url, combined_prompt,
    completion_url, generate_result, max_tokens_or, require_port, ChatStep, CompletionReply,
    DEFAULT_CHAT_MAX_TOKENS, DEFAULT_GENERATE_MAX_TOKENS,
};

#[test]
fn endpoints_of_a_port() {
    assert_eq!(completion_url(11435), "http://127.0.0.1:11435/completion");
    assert_eq!(chat_completions_url(8080), "http://127.0.0.1:8080/v1/chat/completions");
    assert_eq!(completion_url(0), "http://127.0.0.1:0/completion");
    assert_eq!(completion_url(65535), "http://127.0.0.1:65535/completion");
}

#[test]
fn requests_need_a_started_runtime() {
    assert_eq!(require_port(Some(11435), false), Ok(11435));
    assert_eq!(
        require_port(None, false),
        Err("Runtime not started. Start the runtime with a GGUF model first.".to_string())
    );
    assert_eq!(
        require_port(None, true),
        Err("Runtime not started. Start the runtime with a GGUF model first.\nEndpoint: n/a (runtime not started)".to_string())
    );
}

#[test]
fn token_limits_fall_back_to_defaults() {
    assert_eq!(max_tokens_or(0, DEFAULT_GENERATE_MAX_TOKENS), 2048);
    assert_eq!(max_tokens_or(-5, DEFAULT_CHAT_MAX_TOKENS), 512);
    assert_eq!(max_tokens_or(64, DEFAULT_CHAT_MAX_TOKENS), 64);
}

#[test]
fn chat_prompt_for_the_completion_endpoint() {
    assert_eq!(combined_prompt("  You are terse. ", "\nHi\n"), "You are terse.\n\nHi");
}

#[test]
fn chat_content_wins_without_fallback() {
    match after_chat_completions(Some("  answer \n".to_string())) {
        ChatStep::Finished(Ok(t)) => assert_eq!(t, "answer"),
        _ => panic!("expected the chat answer"),
    }
}

#[test]
fn chat_endpoint_failure_then_completion_success() {
    // HTTP 500 from the chat endpoint gives no content.
    assert!(matches!(after_chat_completions(None), ChatStep::TryCompletion));
    let r = chat_completion_result(11435, CompletionReply::Content(Some(" fine ".to_string())));
    assert_eq!(r, Ok("fine".to_string()));
    let r = chat_completion_result(11435, CompletionReply::Content(None));
    assert_eq!(r, Ok(String::new()));
}

#[test]
fn both_endpoints_failing_reports_the_completion_endpoint() {
    let r = chat_completion_result(
        11435,
        CompletionReply::HttpError("500 Internal Server Error".to_string(), "boom".to_string()),
    );
    assert_eq!(
        r,
        Err("llama-server error 500 Internal Server Error: boom\nEndpoint: http://127.0.0.1:11435/completion HTTP 500 Internal Server Error".to_string())
    );
    let r = chat_completion_result(11435, CompletionReply::NoResponse("refused".to_string()));
    assert_eq!(
        r,
        Err("Request failed: refused\nEndpoint: http://127.0.0.1:11435/completion (no response)".to_string())
    );
    let r = chat_completion_result(11435, CompletionReply::Unreadable("eof".to_string()));
    assert_eq!(r, Err("Parse error: eof".to_string()));
}

#[test]
fn generation_results() {
    assert_eq!(generate_result(CompletionReply::Content(Some(" x ".to_string()))), Ok(" x ".to_string()));
    assert_eq!(generate_result(CompletionReply::Content(None)), Ok(String::new()));
    assert_eq!(
        generate_result(CompletionReply::HttpError("404 Not Found".to_string(), "nope".to_string())),
        Err("Server error 404 Not Found: nope".to_string())
    );
    assert_eq!(
        generate_result(CompletionReply::NoResponse("timeout".to_string())),
        Err("Request failed: timeout".to_string())
    );
}
