use chathub_desktop::history::{dedupe_history, remove_history, trim_non_empty, upsert_history, HISTORY_LIMIT};
use chathub_desktop::models::{infer_model_from_url, Model, normalize_model_id, ModelUrls, GEMINI_URL, GROK_URL, QWEN_URL};
use chathub_desktop::proxy::{
    check_proxy_candidate, normalize_proxy, ParsedUrl, INVALID_PROXY_MESSAGE, MISSING_HOST_OR_PORT_MESSAGE,
};
use chathub_desktop::settings::{
    apply_legacy_settings, apply_legacy_urls, migrate_settings, normalize_legacy_proxy, AppSettings,
    LegacyAppSettings, LegacyModelUrls,
};

fn strings(values: &[&str]) -> Vec<String> {
    values.iter().map(|s| s.to_string()).collect()
}

#[test]
fn normalize_model_id_maps_spellings() {
    assert_eq!(normalize_model_id("DeepSeek"), "deepseek");
    assert_eq!(normalize_model_id("GROK"), "grok");
    assert_eq!(normalize_model_id("gemini"), "gemini");
    assert_eq!(normalize_model_id("Qwen"), "qwen");
    assert_eq!(normalize_model_id("doubao"), "doubao");
    assert_eq!(normalize_model_id("chatgpt.com"), "chatgpt");
    assert_eq!(normalize_model_id("chatgpt_url"), "chatgpt");
    assert_eq!(normalize_model_id("something else"), "chatgpt");
    assert_eq!(normalize_model_id(""), "chatgpt");
}

#[test]
fn normalize_model_id_is_idempotent() {
    for raw in ["DeepSeek", "GROK", "x", "Gemini", "QWEN", "Doubao"] {
        let once = normalize_model_id(raw);
        assert_eq!(normalize_model_id(once), once);
    }
}

#[test]
fn infer_model_from_url_uses_domains() {
    assert_eq!(infer_model_from_url("https://chat.DeepSeek.com/a/chat/s/1"), "deepseek");
    assert_eq!(infer_model_from_url("https://grok.com/c/1"), "grok");
    assert_eq!(infer_model_from_url("https://gemini.google.com/app/abc"), "gemini");
    assert_eq!(infer_model_from_url("https://www.qianwen.com/chat"), "qwen");
    assert_eq!(infer_model_from_url("https://www.doubao.com/chat/"), "doubao");
    assert_eq!(infer_model_from_url("https://chatgpt.com/c/1"), "chatgpt");
    assert_eq!(infer_model_from_url("https://example.com"), "chatgpt");
    assert_eq!(infer_model_from_url(""), "chatgpt");
}

#[test]
fn model_urls_get_and_set() {
    let mut urls = ModelUrls::default();
    assert_eq!(urls.get("gemini"), GEMINI_URL);
    assert_eq!(urls.get("unknown"), "https://chatgpt.com");
    urls.set("Qwen", "https://www.qianwen.com/chat/42".to_string());
    assert_eq!(urls.get("qwen"), "https://www.qianwen.com/chat/42");
    assert_eq!(urls.get("grok"), GROK_URL);
    urls.set("nonsense", "https://chatgpt.com/c/9".to_string());
    assert_eq!(urls.chatgpt, "https://chatgpt.com/c/9");
    assert_eq!(urls.get("QWEN"), "https://www.qianwen.com/chat/42");
}

#[test]
fn app_settings_default_values() {
    let s = AppSettings::default();
    assert_eq!(s.model, "chatgpt");
    assert_eq!(s.current_url(), "https://chatgpt.com");
    assert_eq!(s.toggle_shortcut, "CommandOrControl+G");
    assert_eq!(s.menu_language, "zh");
    assert!(!s.auto_launch_on_startup);
    assert!(!s.always_on_top);
    assert_eq!(s.proxy, None);
    assert!(s.proxy_history.is_empty());
    assert!(s.shortcut_history.is_empty());
}

#[test]
fn model_page_is_remembered_per_model() {
    let mut s = AppSettings::default();
    s.set_model("Gemini");
    assert_eq!(s.model, "gemini");
    s.set_current_url("https://gemini.google.com/app/abc".to_string());
    s.set_model("grok");
    assert_eq!(s.current_url(), GROK_URL);
    s.set_current_url("https://grok.com/c/7".to_string());
    s.set_model("gemini");
    assert_eq!(s.current_url(), "https://gemini.google.com/app/abc");
    s.set_model("GROK");
    assert_eq!(s.current_url(), "https://grok.com/c/7");
}

#[test]
fn reset_urls_restores_defaults() {
    let mut s = AppSettings::default();
    s.set_model("qwen");
    s.set_current_url("https://www.qianwen.com/chat/1".to_string());
    s.reset_urls();
    assert_eq!(s.current_url(), QWEN_URL);
    assert_eq!(s.model, "qwen");
}

#[test]
fn upsert_history_moves_value_to_front() {
    let mut h = strings(&["a", "b", "c"]);
    upsert_history(&mut h, "b");
    assert_eq!(h, strings(&["b", "a", "c"]));
    upsert_history(&mut h, "d");
    assert_eq!(h, strings(&["d", "b", "a", "c"]));
}

#[test]
fn upsert_history_ignores_empty_value() {
    let mut h = strings(&["a", "b"]);
    upsert_history(&mut h, "");
    assert_eq!(h, strings(&["a", "b"]));
}

#[test]
fn upsert_history_is_bounded() {
    let mut h: Vec<String> = (0..10).map(|i| format!("v{}", i)).collect();
    upsert_history(&mut h, "new");
    assert_eq!(h.len(), HISTORY_LIMIT);
    assert_eq!(h[0], "new");
    assert_eq!(h[9], "v8");
}

#[test]
fn remove_history_removes_every_copy() {
    let mut h = strings(&["a", "b", "a", "c"]);
    remove_history(&mut h, "a");
    assert_eq!(h, strings(&["b", "c"]));
    remove_history(&mut h, "zzz");
    assert_eq!(h, strings(&["b", "c"]));
}

#[test]
fn trim_non_empty_trims_unicode_space() {
    assert_eq!(trim_non_empty("  x  "), Some("x".to_string()));
    assert_eq!(trim_non_empty("\u{3000}a b\t\n"), Some("a b".to_string()));
    assert_eq!(trim_non_empty("   "), None);
    assert_eq!(trim_non_empty(""), None);
}

#[test]
fn dedupe_history_trims_and_dedupes() {
    let d = dedupe_history(strings(&[" a ", "", "a", "b", "  ", "b ", "c"]));
    assert_eq!(d, strings(&["a", "b", "c"]));
}

#[test]
fn dedupe_history_keeps_first_ten() {
    let values: Vec<String> = (0..15).map(|i| format!("p{}", i)).collect();
    let d = dedupe_history(values);
    assert_eq!(d.len(), 10);
    assert_eq!(d[0], "p0");
    assert_eq!(d[9], "p9");
}

#[test]
fn normalize_proxy_blank_is_none() {
    assert_eq!(normalize_proxy(""), Ok(None));
    assert_eq!(normalize_proxy("   "), Ok(None));
}

#[test]
fn normalize_proxy_adds_http_scheme() {
    assert_eq!(normalize_proxy(" 127.0.0.1:7897 "), Ok(Some("http://127.0.0.1:7897".to_string())));
}

#[test]
fn normalize_proxy_keeps_given_scheme() {
    assert_eq!(normalize_proxy("socks5://127.0.0.1:7897"), Ok(Some("socks5://127.0.0.1:7897".to_string())));
}

#[test]
fn normalize_proxy_needs_port() {
    assert_eq!(normalize_proxy("http://example.com"), Err(MISSING_HOST_OR_PORT_MESSAGE.to_string()));
    assert_eq!(normalize_proxy("example.com"), Err(MISSING_HOST_OR_PORT_MESSAGE.to_string()));
}

#[test]
fn normalize_proxy_rejects_unparsable() {
    assert_eq!(normalize_proxy("http://exa mple.com:80"), Err(INVALID_PROXY_MESSAGE.to_string()));
}

#[test]
fn normalize_proxy_is_idempotent() {
    for raw in ["127.0.0.1:7897", "socks5://127.0.0.1:7897", " localhost:8080"] {
        if let Ok(Some(c)) = normalize_proxy(raw) {
            assert_eq!(normalize_proxy(&c), Ok(Some(c.clone())));
        } else {
            panic!("expected a proxy for {}", raw);
        }
    }
}

#[test]
fn check_proxy_candidate_verdicts() {
    let c = "http://h:1".to_string();
    assert_eq!(check_proxy_candidate(c.clone(), None), Err(INVALID_PROXY_MESSAGE.to_string()));
    assert_eq!(
        check_proxy_candidate(c.clone(), Some(ParsedUrl { has_host: false, port: Some(1) })),
        Err(MISSING_HOST_OR_PORT_MESSAGE.to_string())
    );
    assert_eq!(
        check_proxy_candidate(c.clone(), Some(ParsedUrl { has_host: true, port: None })),
        Err(MISSING_HOST_OR_PORT_MESSAGE.to_string())
    );
    assert_eq!(check_proxy_candidate(c.clone(), Some(ParsedUrl { has_host: true, port: Some(1) })), Ok(Some(c)));
}

#[test]
fn normalize_legacy_proxy_falls_back_to_trimmed_text() {
    assert_eq!(normalize_legacy_proxy(" 127.0.0.1:1080 "), Some("http://127.0.0.1:1080".to_string()));
    assert_eq!(normalize_legacy_proxy("  bad proxy  "), Some("bad proxy".to_string()));
    assert_eq!(normalize_legacy_proxy("   "), None);
}

#[test]
fn apply_legacy_urls_overrides_non_blank() {
    let mut s = AppSettings::default();
    let urls = LegacyModelUrls {
        chatgpt: Some("  ".to_string()),
        deepseek: Some(" https://chat.deepseek.com/a/1 ".to_string()),
        grok: None,
        gemini: None,
        qwen: None,
        doubao: Some("https://www.doubao.com/chat/9".to_string()),
    };
    apply_legacy_urls(&mut s, urls);
    assert_eq!(s.urls.chatgpt, "https://chatgpt.com");
    assert_eq!(s.urls.deepseek, "https://chat.deepseek.com/a/1");
    assert_eq!(s.urls.grok, GROK_URL);
    assert_eq!(s.urls.doubao, "https://www.doubao.com/chat/9");
}

#[test]
fn apply_legacy_settings_carries_fields_over() {
    let mut s = AppSettings::default();
    let legacy = LegacyAppSettings {
        model: Some("Grok".to_string()),
        last_visited_url: Some(" https://gemini.google.com/app/x ".to_string()),
        urls: None,
        toggle_shortcut: Some(" Alt+K ".to_string()),
        auto_launch_on_startup: Some(true),
        always_on_top: None,
        menu_language: Some("EN".to_string()),
        proxy: Some("127.0.0.1:7897".to_string()),
        proxy_history: Some(strings(&["a", " a", "b"])),
        shortcut_history: None,
    };
    apply_legacy_settings(&mut s, legacy);
    assert_eq!(s.model, "gemini");
    assert_eq!(s.current_url(), "https://gemini.google.com/app/x");
    assert_eq!(s.toggle_shortcut, "Alt+K");
    assert!(s.auto_launch_on_startup);
    assert!(!s.always_on_top);
    assert_eq!(s.menu_language, "en");
    assert_eq!(s.proxy, Some("http://127.0.0.1:7897".to_string()));
    assert_eq!(s.proxy_history, strings(&["a", "b"]));
    assert!(s.shortcut_history.is_empty());
}

#[test]
fn apply_legacy_settings_other_language_is_chinese() {
    let mut s = AppSettings::default();
    let legacy = LegacyAppSettings { menu_language: Some("fr".to_string()), model: Some("deepseek".to_string()), ..Default::default() };
    apply_legacy_settings(&mut s, legacy);
    assert_eq!(s.menu_language, "zh");
    assert_eq!(s.model, "deepseek");
}

#[test]
fn migrate_settings_opens_last_page() {
    let s = migrate_settings(
        None,
        Some("en".to_string()),
        Some("Ctrl+J".to_string()),
        Some("socks5://1.2.3.4:5".to_string()),
        Some("https://grok.com/c/1".to_string()),
    );
    assert_eq!(s.model, "grok");
    assert_eq!(s.current_url(), "https://grok.com/c/1");
    assert_eq!(s.menu_language, "en");
    assert_eq!(s.toggle_shortcut, "Ctrl+J");
    assert_eq!(s.proxy, Some("socks5://1.2.3.4:5".to_string()));
}

#[test]
fn migrate_settings_of_nothing_is_default() {
    let s = migrate_settings(None, None, None, None, None);
    let d = AppSettings::default();
    assert_eq!(s.model, d.model);
    assert_eq!(s.current_url(), d.current_url());
    assert_eq!(s.menu_language, d.menu_language);
    assert_eq!(s.toggle_shortcut, d.toggle_shortcut);
}

#[test]
fn select_model_opens_remembered_page() {
    let mut s = AppSettings::default();
    s.remember_visit("https://chat.deepseek.com/a/chat/s/5");
    assert_eq!(s.model, "deepseek");
    assert_eq!(s.select_model(Model::Grok), GROK_URL);
    assert_eq!(s.model, "grok");
    assert_eq!(s.select_model(Model::DeepSeek), "https://chat.deepseek.com/a/chat/s/5");
    assert_eq!(s.model, "deepseek");
}

#[test]
fn remember_visit_ignores_other_sites() {
    let mut s = AppSettings::default();
    s.set_model("gemini");
    s.remember_visit("https://accounts.youtube.com/x");
    assert_eq!(s.model, "gemini");
    assert_eq!(s.current_url(), GEMINI_URL);
    s.remember_visit("https://CHATGPT.com/c/3");
    assert_eq!(s.model, "chatgpt");
    assert_eq!(s.current_url(), "https://CHATGPT.com/c/3");
}

#[test]
fn toggle_always_on_top_flips() {
    let mut s = AppSettings::default();
    assert!(s.toggle_always_on_top());
    assert!(s.always_on_top);
    assert!(!s.toggle_always_on_top());
    assert!(!s.always_on_top);
}
