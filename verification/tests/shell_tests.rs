use chathub_desktop::models::Model;
use chathub_desktop::shell::{
    google_oauth_url, is_oauth_callback, last_model_url, menu_action, menu_is_english,
    navigation_decision, proxy_window, releases_page, shortcut_window, startup_shortcut, toggle_action, tray_menu_model,
    value_or_default, MenuAction, Navigation, WindowToggle,
};
use chathub_desktop::models::{CHATGPT_URL, GROK_URL};
use chathub_desktop::settings::DEFAULT_SHORTCUT;

#[test]
fn tray_menu_defaults_to_chinese_and_chatgpt() {
    let m = tray_menu_model(None, None, false);
    assert!(!m.english);
    assert_eq!(m.quit, "退出");
    assert_eq!(m.google_login, "登录 Google");
    assert!(m.chatgpt_checked);
    assert!(!m.deepseek_checked && !m.grok_checked && !m.gemini_checked);
    assert!(!m.qwen_checked && !m.doubao_checked);
    assert_eq!(m.always_on_top, "窗口置顶");
    assert_eq!(m.check_update, "检查更新");
    assert!(!m.always_on_top_checked);
}

#[test]
fn tray_menu_in_english_checks_grok() {
    let m = tray_menu_model(Some("en".to_string()), Some(GROK_URL.to_string()), true);
    assert!(m.english);
    assert_eq!(m.quit, "Quit");
    assert_eq!(m.always_on_top, "Always on Top");
    assert_eq!(m.check_update, "Check for Updates");
    assert!(m.always_on_top_checked);
    assert_eq!(m.proxy, "Proxy Settings");
    assert!(m.grok_checked);
    assert!(!m.chatgpt_checked);
}

#[test]
fn tray_menu_checks_nothing_for_other_pages() {
    let m = tray_menu_model(Some("EN".to_string()), Some("https://grok.com/c/1".to_string()), false);
    assert!(!m.english);
    assert!(!m.chatgpt_checked && !m.deepseek_checked && !m.grok_checked && !m.gemini_checked);
    assert!(!m.qwen_checked && !m.doubao_checked);
}

#[test]
fn tray_menu_checks_qwen_and_doubao_pages() {
    let m = tray_menu_model(None, Some("https://www.qianwen.com/chat".to_string()), false);
    assert!(m.qwen_checked);
    assert!(!m.chatgpt_checked && !m.deepseek_checked && !m.grok_checked && !m.gemini_checked && !m.doubao_checked);
    let m = tray_menu_model(None, Some("https://www.doubao.com/chat/".to_string()), false);
    assert!(m.doubao_checked && !m.qwen_checked);
}

#[test]
fn menu_language_is_exact() {
    assert!(menu_is_english(Some("en".to_string())));
    assert!(!menu_is_english(Some("En".to_string())));
    assert!(!menu_is_english(None));
}

#[test]
fn toggle_hides_visible_window() {
    assert_eq!(toggle_action(true), WindowToggle::Hide);
    assert_eq!(toggle_action(false), WindowToggle::ShowAndFocus);
}

#[test]
fn last_model_url_defaults_to_chatgpt() {
    assert_eq!(last_model_url(None), CHATGPT_URL);
    assert_eq!(last_model_url(Some("https://grok.com/".to_string())), "https://grok.com/");
    assert_eq!(value_or_default(None, "zh"), "zh");
}

#[test]
fn navigation_policy() {
    assert_eq!(navigation_decision("tauri://localhost/index.html"), Navigation::Allow);
    assert_eq!(navigation_decision("http://localhost:1420/"), Navigation::Allow);
    assert_eq!(navigation_decision("https://accounts.google.com/signin"), Navigation::OpenExternally);
    assert_eq!(navigation_decision("https://chatgpt.com/c/1"), Navigation::Allow);
    assert_eq!(navigation_decision("https://auth.openai.com/log-in"), Navigation::Allow);
    assert_eq!(navigation_decision("https://challenges.cloudflare.com/x"), Navigation::Allow);
    assert_eq!(navigation_decision("https://example.com/"), Navigation::OpenExternally);
    assert_eq!(navigation_decision("https://www.qianwen.com/chat"), Navigation::Allow);
    assert_eq!(navigation_decision("https://www.doubao.com/chat/"), Navigation::Allow);
}

#[test]
fn menu_actions_by_id() {
    assert_eq!(menu_action("quit"), MenuAction::Quit);
    assert_eq!(menu_action("reload"), MenuAction::Reload);
    assert_eq!(menu_action("open_browser"), MenuAction::OpenBrowser);
    assert_eq!(menu_action("google_login"), MenuAction::GoogleLogin);
    assert_eq!(menu_action("autostart"), MenuAction::ToggleAutostart);
    assert_eq!(menu_action("always_on_top"), MenuAction::ToggleAlwaysOnTop);
    assert_eq!(menu_action("check_update"), MenuAction::CheckForUpdates);
    assert_eq!(menu_action("deepseek"), MenuAction::SwitchModel(Model::DeepSeek));
    assert_eq!(menu_action("gemini"), MenuAction::SwitchModel(Model::Gemini));
    assert_eq!(menu_action("lang_en"), MenuAction::SetLanguageEn);
    assert_eq!(menu_action("lang_zh"), MenuAction::SetLanguageZh);
    assert_eq!(menu_action("shortcut"), MenuAction::OpenShortcutSettings);
    assert_eq!(menu_action("proxy"), MenuAction::OpenProxySettings);
    assert_eq!(menu_action("qwen"), MenuAction::SwitchModel(Model::Qwen));
    assert_eq!(menu_action("doubao"), MenuAction::SwitchModel(Model::Doubao));
    assert_eq!(menu_action("unknown"), MenuAction::Ignore);
    assert_eq!(menu_action("Quit"), MenuAction::Ignore);
}

#[test]
fn google_oauth_url_is_built() {
    assert_eq!(
        google_oauth_url(),
        "https://accounts.google.com/o/oauth2/v2/auth?client_id=908764850104-29trlc7ocji1g7q5gmgrs38b86icf8g4.apps.googleusercontent.com&redirect_uri=chathub://oauth/callback&response_type=code&scope=openid%20email%20profile&access_type=offline"
    );
}

#[test]
fn oauth_callback_prefix() {
    assert!(is_oauth_callback("chathub://oauth/callback?code=abc"));
    assert!(!is_oauth_callback("chathub://other"));
}

#[test]
fn startup_shortcut_choice() {
    assert_eq!(startup_shortcut(None), Some(DEFAULT_SHORTCUT.to_string()));
    assert_eq!(startup_shortcut(Some("Alt+K".to_string())), Some("Alt+K".to_string()));
    assert_eq!(startup_shortcut(Some(String::new())), None);
}

#[test]
fn shortcut_window_in_chinese() {
    let w = shortcut_window(None, None);
    assert_eq!(w.label, "shortcut");
    assert_eq!(w.title, "快捷键设置");
    assert_eq!(
        w.page,
        "shortcut.html?title=%E5%BF%AB%E6%8D%B7%E9%94%AE%E8%AE%BE%E7%BD%AE&hint=%E6%8C%89%E4%B8%8B%E6%8C%89%E9%94%AE%E7%BB%84%E5%90%88%E4%BB%A5%E8%AE%BE%E7%BD%AE%E5%BF%AB%E6%8D%B7%E9%94%AE&current=CommandOrControl%2BG&cancelText=%E5%8F%96%E6%B6%88&okText=%E4%BF%9D%E5%AD%98"
    );
}

#[test]
fn shortcut_window_in_english() {
    let w = shortcut_window(Some("en".to_string()), Some("Alt+K".to_string()));
    assert_eq!(w.title, "Shortcut Settings");
    assert_eq!(
        w.page,
        "shortcut.html?title=Shortcut%20Settings&hint=Press%20keys%20to%20set%20new%20shortcut&current=Alt%2BK&cancelText=Cancel&okText=Save"
    );
}

#[test]
fn proxy_window_in_english() {
    let w = proxy_window(Some("en".to_string()), Some("socks5://127.0.0.1:7897".to_string()));
    assert_eq!(w.label, "proxy");
    assert_eq!(w.title, "Proxy Settings");
    assert_eq!(
        w.page,
        "proxy.html?hint=Enter%20proxy%20address%20%28e.g.%20socks5%3A%2F%2F127.0.0.1%3A7897%29&current=socks5%3A%2F%2F127.0.0.1%3A7897&placeholder=Leave%20empty%20to%20disable%20proxy&cancelText=Cancel&okText=Save"
    );
}

#[test]
fn proxy_window_in_chinese_without_proxy() {
    let w = proxy_window(None, None);
    assert_eq!(w.title, "代理设置");
    assert_eq!(
        w.page,
        "proxy.html?hint=%E8%BE%93%E5%85%A5%E4%BB%A3%E7%90%86%E5%9C%B0%E5%9D%80%EF%BC%88%E5%A6%82%20socks5%3A%2F%2F127.0.0.1%3A7897%EF%BC%89&current=&placeholder=%E7%95%99%E7%A9%BA%E5%88%99%E7%A6%81%E7%94%A8%E4%BB%A3%E7%90%86&cancelText=%E5%8F%96%E6%B6%88&okText=%E4%BF%9D%E5%AD%98"
    );
}

#[test]
fn releases_page_of_repository() {
    assert_eq!(
        releases_page("https://github.com/example/chathub-desktop"),
        Some("https://github.com/example/chathub-desktop/releases/latest".to_string())
    );
    assert_eq!(releases_page(""), None);
}
