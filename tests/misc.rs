use flowguard::api::{greet, ApiResponse, IndexationStatus};
use flowguard::automation::{
    connect_mcp, execute_scenario, monitor_label, parse_visual_tree, screen_state, simulate_input,
    start_watcher,
};
use flowguard::settings::{AppConfig, AppSettings};
use flowguard::text::{contains_str, decimal_string, join_strings, lines_of, trim_str};

#[test]
fn envelopes() {
    let ok: ApiResponse<u32> = ApiResponse::success(7);
    assert!(ok.ok);
    assert_eq!(ok.data, Some(7));
    assert!(ok.error.is_none());
    let err: ApiResponse<u32> = ApiResponse::error("validation_error", "bad".to_string());
    assert!(!err.ok && err.data.is_none());
    let e = err.error.unwrap();
    assert_eq!(e.error_type, "validation_error");
    assert_eq!(e.message, "bad");
    assert_eq!(greet("Ann"), "Hello, Ann! You've been greeted from Rust!");
}

#[test]
fn settings_and_config_defaults() {
    let s = AppSettings::default();
    assert_eq!(s.ollama_model, "mistral-small");
    assert_eq!(s.cortex_top_k, 20);
    assert_eq!(s.chat_model(None), "mistral-small");
    assert_eq!(s.chat_model(Some("llama".to_string())), "llama");
    assert_eq!(s.query_options(None, None), (20, "local".to_string()));
    assert_eq!(s.query_options(Some(5), Some("global".to_string())), (5, "global".to_string()));
    let c = AppConfig::from_values(None, Some("http://c".to_string()), None);
    assert_eq!(c.ollama_base_url, "http://127.0.0.1:11434");
    assert_eq!(c.cortex_base_url, "http://c");
    assert_eq!(c.cortex_api_key, "sesa-secure-core-v1");
    let idle = IndexationStatus::idle();
    assert_eq!(idle.state, "idle");
    assert!(!idle.is_running());
}

#[test]
fn automation_surface() {
    assert_eq!(monitor_label(0, 1920, 1080), "Monitor 0 (1920x1080)");
    let s = screen_state("t".to_string(), &vec![(800, 600), (1024, 768)]);
    assert_eq!(s.screens_available, 2);
    assert_eq!(s.active_monitors[1], "Monitor 1 (1024x768)");
    assert_eq!(execute_scenario("x"), Err("Not implemented".to_string()));
    assert_eq!(simulate_input("x"), Err("Not implemented".to_string()));
    assert_eq!(connect_mcp(), Err("Not implemented".to_string()));
    assert_eq!(start_watcher("/logs"), Err("Use start_log_watcher".to_string()));
    assert_eq!(parse_visual_tree(), Ok("{\"placeholder\": true}".to_string()));
}

#[test]
fn text_helpers() {
    assert_eq!(decimal_string(0), "0");
    assert_eq!(decimal_string(18_446_744_073_709_551_615), "18446744073709551615");
    assert_eq!(join_strings(&vec!["a".to_string(), "b".to_string(), "c".to_string()], ", "), "a, b, c");
    assert_eq!(join_strings(&Vec::new(), ", "), "");
    assert_eq!(trim_str("\u{3000} x y\t\r\n"), "x y");
    assert_eq!(trim_str("   "), "");
    assert_eq!(lines_of("a\r\n\nb\n\r\nc"), vec!["a".to_string(), "b".to_string(), "c".to_string()]);
    assert!(lines_of("").is_empty());
    assert!(contains_str("fatal: unknown revision x", "unknown revision"));
    assert!(!contains_str("unknown", "unknown revision"));
    assert!(contains_str("abc", ""));
}
