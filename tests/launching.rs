use llama_runtime::launch::{
    checked_model_path, get_app_config, model_not_found_error, no_free_port_error,
    patch_timeout_seconds, readiness_timeout_error, readiness_timeout_seconds, server_args,
    spawn_failed_error,
};
use llama_runtime::log_buffer::{RuntimeLogState, RUNTIME_LOG_MAX_LINES};
use llama_runtime::text::{decimal_string, parse_unsigned, same_text, trim};
use llama_runtime::toolroot::{
    exe_candidates, exe_not_found_error, resolve_tool_root, server_exe_candidates,
    to_forward_slashes, tool_root_from_ui,
};

#[test]
fn server_arguments() {
    assert_eq!(
        server_args("model.gguf", 11435, 0),
        vec!["--model", "model.gguf", "--host", "127.0.0.1", "--port", "11435"]
    );
    assert_eq!(
        server_args("/m/a b.gguf", 8080, 4096),
        vec!["--model", "/m/a b.gguf", "--host", "127.0.0.1", "--port", "8080", "--ctx-size", "4096"]
    );
    assert_eq!(server_args("m", 1, -3).len(), 6);
}

#[test]
fn readiness_failure_message() {
    let args = server_args("m.gguf", 11435, 0);
    let msg = readiness_timeout_error(180, 11435, "m.gguf", &args, &vec![]);
    assert_eq!(
        msg,
        "llama-server did not become ready within 180 seconds. port=11435 model_path=m.gguf launch_args=[--model m.gguf --host 127.0.0.1 --port 11435]"
    );
    let log = vec!["loading".to_string(), "oom".to_string()];
    let msg = readiness_timeout_error(5, 1, "m", &vec![], &log);
    assert_eq!(
        msg,
        "llama-server did not become ready within 5 seconds. port=1 model_path=m launch_args=[]\n\nLast llama-server output:\nloading\noom"
    );
}

#[test]
fn readiness_failure_message_keeps_the_end_of_long_output() {
    let log: Vec<String> = (0..300).map(|i| format!("line {:04} of output", i)).collect();
    let msg = readiness_timeout_error(1, 2, "m", &vec![], &log);
    let marker = "\n\nLast llama-server output:\n...";
    let at = msg.find(marker).unwrap();
    let excerpt = &msg[at + marker.len()..];
    assert_eq!(excerpt.chars().count(), 2000);
    assert!(excerpt.ends_with("line 0299 of output"));
    assert!(log.join("\n").ends_with(excerpt));
}

#[test]
fn model_path_checks() {
    assert_eq!(checked_model_path("  /m/x.gguf "), Ok("/m/x.gguf".to_string()));
    assert_eq!(checked_model_path("   "), Err("GGUF model path is required.".to_string()));
    assert_eq!(model_not_found_error("x.gguf"), "Model file not found: x.gguf");
    assert_eq!(spawn_failed_error("denied"), "Failed to start llama-server: denied");
    assert_eq!(no_free_port_error(), "No free port in 11435..11550.");
}

#[test]
fn settings_from_text() {
    assert_eq!(readiness_timeout_seconds(None), 180);
    assert_eq!(readiness_timeout_seconds(Some(" 30 ")), 30);
    assert_eq!(readiness_timeout_seconds(Some("+7")), 7);
    assert_eq!(readiness_timeout_seconds(Some("abc")), 180);
    assert_eq!(readiness_timeout_seconds(Some("")), 180);
    assert_eq!(readiness_timeout_seconds(Some("-1")), 180);
    assert_eq!(readiness_timeout_seconds(Some("18446744073709551615")), u64::MAX);
    assert_eq!(readiness_timeout_seconds(Some("18446744073709551616")), 180);
    assert_eq!(patch_timeout_seconds(None), 240);
    assert_eq!(patch_timeout_seconds(Some("60")), 60);
    assert_eq!(get_app_config(None).patch_timeout_seconds, 240);
    assert_eq!(get_app_config(Some("9")).patch_timeout_seconds, 9);
}

#[test]
fn text_helpers() {
    assert_eq!(trim("\u{a0} a b \u{3000}\t"), "a b");
    assert_eq!(trim("   "), "");
    assert_eq!(decimal_string(0), "0");
    assert_eq!(decimal_string(1234567890), "1234567890");
    assert_eq!(decimal_string(u64::MAX), "18446744073709551615");
    assert_eq!(parse_unsigned("65535", 65535), Some(65535));
    assert_eq!(parse_unsigned("65536", 65535), None);
    assert_eq!(parse_unsigned("+", 10), None);
    assert_eq!(parse_unsigned("1 2", 100), None);
    assert!(same_text("abc", "abc"));
    assert!(!same_text("abc", "abd"));
    assert!(!same_text("ab", "abc"));
}

#[test]
fn log_buffer_keeps_the_last_lines() {
    let mut log = RuntimeLogState::new();
    for i in 0..(RUNTIME_LOG_MAX_LINES + 5) {
        log.push(format!("l{}", i));
    }
    let lines = log.lines();
    assert_eq!(lines.len(), 200);
    assert_eq!(lines[0], "l5");
    assert_eq!(lines[199], "l204");
    log.clear();
    assert!(log.lines().is_empty());
    let fresh = RuntimeLogState::default();
    assert!(fresh.lines().is_empty());
}

#[test]
fn tool_root_paths() {
    assert_eq!(to_forward_slashes("C:\\tools\\x"), "C:/tools/x");
    assert_eq!(tool_root_from_ui(Some("  C:\\t  ")), Some("C:/t".to_string()));
    assert_eq!(tool_root_from_ui(Some("   ")), None);
    assert_eq!(tool_root_from_ui(None), None);
    assert_eq!(
        exe_candidates("/opt/tools", false),
        vec!["/opt/tools/runtime/llama/llama-server", "/opt/tools/runtime/llama/llama-server.exe"]
    );
    assert_eq!(
        server_exe_candidates("/opt/tools/"),
        vec!["/opt/tools/runtime/llama/llama-server.exe", "/opt/tools/runtime/llama/llama-server"]
    );
    assert_eq!(
        exe_not_found_error("/t"),
        "Could not find runtime/llama/llama-server.exe or runtime/llama/llama-server under toolRoot. toolRoot=/t"
    );
}

#[test]
fn tool_root_resolution() {
    assert_eq!(
        resolve_tool_root(Some(" /ui "), true, Ok("/g".to_string()), true, false),
        Ok("/ui".to_string())
    );
    assert_eq!(
        resolve_tool_root(Some("/ui"), false, Ok("/g".to_string()), true, false),
        Ok("/g".to_string())
    );
    assert_eq!(
        resolve_tool_root(Some("/ui"), false, Ok("/g".to_string()), false, false),
        Err("llama-server not found. Checked: /ui/runtime/llama/llama-server; /g/runtime/llama/llama-server".to_string())
    );
    assert_eq!(
        resolve_tool_root(Some("C:\\ui"), false, Ok("C:/g".to_string()), false, true),
        Err("llama-server not found. Checked: C:/ui/runtime/llama/llama-server.exe; C:/ui/runtime/llama/llama-server; C:/g/runtime/llama/llama-server.exe; C:/g/runtime/llama/llama-server".to_string())
    );
    assert_eq!(
        resolve_tool_root(None, false, Err("HOME not set".to_string()), false, false),
        Err("Global tool root unavailable: HOME not set. Paths checked: ".to_string())
    );
}
