//! Decisions of the desktop shell: tray menu, window toggling, navigation
//! policy, menu commands and the settings windows it opens.

use vstd::prelude::*;
use vstd::utf8::encode_utf8;
use crate::models::{default_url, model_id_text, Model, CHATGPT_URL, DEEPSEEK_URL, DOUBAO_URL, GEMINI_URL, GROK_URL, QWEN_URL};
use crate::settings::DEFAULT_SHORTCUT;
use crate::text::{begins_with, contains_str, has_substring, lemma_absent, lemma_occurs, starts_with_str, str_equals};

verus! {

pub const USER_AGENT: &'static str = "Mozilla/5.0 (Macintosh; Intel Mac OS X 10_15_7) AppleWebKit/537.36 (KHTML, like Gecko) Chrome/131.0.0.0 Safari/537.36";
pub const GOOGLE_OAUTH_CLIENT_ID: &'static str = "908764850104-29trlc7ocji1g7q5gmgrs38b86icf8g4.apps.googleusercontent.com";
pub const GOOGLE_OAUTH_SCOPES: &'static str = "openid%20email%20profile";
pub const GOOGLE_OAUTH_REDIRECT_URI: &'static str = "chathub://oauth/callback";

/// A stored string, or `default` when none is stored.
pub open spec fn stored_or(stored: Option<String>, default: Seq<char>) -> Seq<char> {
    match stored {
        Some(s) => s@,
        None => default,
    }
}

/// A stored string, or `default` when none is stored.
pub fn value_or_default(stored: Option<String>, default: &str) -> (r: String)
    ensures
        r@ == stored_or(stored, default@),
{
    match stored {
        Some(s) => s,
        None => default.to_string(),
    }
}

/// Whether the stored menu language (Chinese when none is stored) is English.
pub open spec fn is_english(language: Option<String>) -> bool {
    stored_or(language, "zh"@) == "en"@
}

/// Whether the stored menu language is English; only the exact text `en` is.
pub fn menu_is_english(language: Option<String>) -> (r: bool)
    ensures
        r == is_english(language),
{
    let lang = value_or_default(language, "zh");
    str_equals(lang.as_str(), "en")
}

/// `english` when the menu is in English, else `chinese`.
pub open spec fn in_language(english: bool, en: Seq<char>, zh: Seq<char>) -> Seq<char> {
    if english {
        en
    } else {
        zh
    }
}

/// What the tray menu shows: its labels, which model entry is checked, and
/// whether the always-on-top entry is checked.
pub struct TrayMenuModel {
    pub english: bool,
    pub quit: &'static str,
    pub reload: &'static str,
    pub open_browser: &'static str,
    pub autostart: &'static str,
    pub always_on_top: &'static str,
    pub check_update: &'static str,
    pub models: &'static str,
    pub language: &'static str,
    pub proxy: &'static str,
    pub shortcut: &'static str,
    pub google_login: &'static str,
    pub chatgpt_checked: bool,
    pub deepseek_checked: bool,
    pub grok_checked: bool,
    pub gemini_checked: bool,
    pub qwen_checked: bool,
    pub doubao_checked: bool,
    pub always_on_top_checked: bool,
}

/// The tray menu for the stored language, last page and always-on-top
/// setting: English labels when the language is `en`, Chinese otherwise; a
/// model entry is checked when the last page (ChatGPT's default page when none
/// is stored) is exactly that model's default page.
pub fn tray_menu_model(language: Option<String>, last_url: Option<String>, always_on_top: bool) -> (r: TrayMenuModel)
    ensures
        r.english == is_english(language),
        r.quit@ == in_language(r.english, "Quit"@, "退出"@),
        r.reload@ == in_language(r.english, "Reload"@, "重新加载"@),
        r.open_browser@ == in_language(r.english, "Open in Browser"@, "在浏览器打开"@),
        r.autostart@ == in_language(r.english, "Launch at Login"@, "开机自启"@),
        r.always_on_top@ == in_language(r.english, "Always on Top"@, "窗口置顶"@),
        r.check_update@ == in_language(r.english, "Check for Updates"@, "检查更新"@),
        r.models@ == in_language(r.english, "Models"@, "模型"@),
        r.language@ == in_language(r.english, "Language"@, "语言"@),
        r.proxy@ == in_language(r.english, "Proxy Settings"@, "代理设置"@),
        r.shortcut@ == in_language(r.english, "Shortcut Settings"@, "快捷键设置"@),
        r.google_login@ == in_language(r.english, "Login with Google"@, "登录 Google"@),
        r.chatgpt_checked == (stored_or(last_url, CHATGPT_URL@) == CHATGPT_URL@),
        r.deepseek_checked == (stored_or(last_url, CHATGPT_URL@) == DEEPSEEK_URL@),
        r.grok_checked == (stored_or(last_url, CHATGPT_URL@) == GROK_URL@),
        r.gemini_checked == (stored_or(last_url, CHATGPT_URL@) == GEMINI_URL@),
        r.qwen_checked == (stored_or(last_url, CHATGPT_URL@) == QWEN_URL@),
        r.doubao_checked == (stored_or(last_url, CHATGPT_URL@) == DOUBAO_URL@),
        r.always_on_top_checked == always_on_top,
{
    let english = menu_is_english(language);
    let current_url = value_or_default(last_url, CHATGPT_URL);
    let url = current_url.as_str();
    TrayMenuModel {
        english,
        quit: pick(english, "Quit", "退出"),
        reload: pick(english, "Reload", "重新加载"),
        open_browser: pick(english, "Open in Browser", "在浏览器打开"),
        autostart: pick(english, "Launch at Login", "开机自启"),
        always_on_top: pick(english, "Always on Top", "窗口置顶"),
        check_update: pick(english, "Check for Updates", "检查更新"),
        models: pick(english, "Models", "模型"),
        language: pick(english, "Language", "语言"),
        proxy: pick(english, "Proxy Settings", "代理设置"),
        shortcut: pick(english, "Shortcut Settings", "快捷键设置"),
        google_login: pick(english, "Login with Google", "登录 Google"),
        chatgpt_checked: str_equals(url, CHATGPT_URL),
        deepseek_checked: str_equals(url, DEEPSEEK_URL),
        grok_checked: str_equals(url, GROK_URL),
        gemini_checked: str_equals(url, GEMINI_URL),
        qwen_checked: str_equals(url, QWEN_URL),
        doubao_checked: str_equals(url, DOUBAO_URL),
        always_on_top_checked: always_on_top,
    }
}

/// What toggling the main window does.
#[derive(Debug, Clone, Copy, PartialEq, Eq, Structural)]
pub enum WindowToggle {
    Hide,
    ShowAndFocus,
}

/// A visible window is hidden; a hidden one is shown and focused.
pub fn toggle_action(is_visible: bool) -> (r: WindowToggle)
    ensures
        r == (if is_visible { WindowToggle::Hide } else { WindowToggle::ShowAndFocus }),
{
    if is_visible {
        WindowToggle::Hide
    } else {
        WindowToggle::ShowAndFocus
    }
}

/// The page to reopen: the stored last page, or ChatGPT's when none is stored.
pub fn last_model_url(stored: Option<String>) -> (r: String)
    ensures
        r@ == stored_or(stored, CHATGPT_URL@),
{
    value_or_default(stored, CHATGPT_URL)
}

/// What the main window does with a page it is about to open.
#[derive(Debug, Clone, Copy, PartialEq, Eq, Structural)]
pub enum Navigation {
    /// Open the page inside the window.
    Allow,
    /// Refuse it in the window and open it in the default browser.
    OpenExternally,
}

/// The sites kept inside the window.
pub open spec fn in_allowed_site(url: Seq<char>) -> bool {
    ||| has_substring(url, "chatgpt.com"@)
    ||| has_substring(url, "openai.com"@)
    ||| has_substring(url, "deepseek.com"@)
    ||| has_substring(url, "grok.com"@)
    ||| has_substring(url, "gemini.google.com"@)
    ||| has_substring(url, "qianwen.com"@)
    ||| has_substring(url, "doubao.com"@)
    ||| has_substring(url, "googleusercontent.com"@)
    ||| has_substring(url, "gstatic.com"@)
    ||| has_substring(url, "challenges.cloudflare.com"@)
    ||| has_substring(url, "accounts.youtube.com"@)
}

/// Local and internal pages stay; Google sign-in pages go to the browser; the
/// allowed sites stay; everything else goes to the browser.
pub open spec fn navigation_of(url: Seq<char>) -> Navigation {
    if begins_with(url, "tauri://"@) || begins_with(url, "http://localhost"@) {
        Navigation::Allow
    } else if has_substring(url, "accounts.google.com"@) {
        Navigation::OpenExternally
    } else if in_allowed_site(url) {
        Navigation::Allow
    } else {
        Navigation::OpenExternally
    }
}

/// Whether `url` belongs to one of the sites kept inside the window.
fn is_allowed_site(url: &str) -> (r: bool)
    ensures
        r == in_allowed_site(url@),
{
    contains_str(url, "chatgpt.com") || contains_str(url, "openai.com") || contains_str(url, "deepseek.com")
        || contains_str(url, "grok.com") || contains_str(url, "gemini.google.com") || contains_str(url, "qianwen.com")
        || contains_str(url, "doubao.com") || contains_str(
        url,
        "googleusercontent.com",
    ) || contains_str(url, "gstatic.com") || contains_str(url, "challenges.cloudflare.com")
        || contains_str(url, "accounts.youtube.com")
}

/// Decides whether the main window opens `url` itself or hands it to the browser.
pub fn navigation_decision(url: &str) -> (r: Navigation)
    ensures
        r == navigation_of(url@),
{
    if starts_with_str(url, "tauri://") || starts_with_str(url, "http://localhost") {
        Navigation::Allow
    } else if contains_str(url, "accounts.google.com") {
        Navigation::OpenExternally
    } else if is_allowed_site(url) {
        Navigation::Allow
    } else {
        Navigation::OpenExternally
    }
}

/// What a tray menu entry does.
#[derive(Debug, Clone, Copy, PartialEq, Eq, Structural)]
pub enum MenuAction {
    Quit,
    Reload,
    OpenBrowser,
    GoogleLogin,
    ToggleAutostart,
    ToggleAlwaysOnTop,
    CheckForUpdates,
    SwitchModel(Model),
    SetLanguageZh,
    SetLanguageEn,
    OpenShortcutSettings,
    OpenProxySettings,
    Ignore,
}

/// The action of the menu entry with identifier `id`; unknown ids do nothing.
pub open spec fn menu_action_of(id: Seq<char>) -> MenuAction {
    if id == "quit"@ {
        MenuAction::Quit
    } else if id == "reload"@ {
        MenuAction::Reload
    } else if id == "open_browser"@ {
        MenuAction::OpenBrowser
    } else if id == "google_login"@ {
        MenuAction::GoogleLogin
    } else if id == "autostart"@ {
        MenuAction::ToggleAutostart
    } else if id == "always_on_top"@ {
        MenuAction::ToggleAlwaysOnTop
    } else if id == "check_update"@ {
        MenuAction::CheckForUpdates
    } else if id == "chatgpt"@ {
        MenuAction::SwitchModel(Model::ChatGpt)
    } else if id == "deepseek"@ {
        MenuAction::SwitchModel(Model::DeepSeek)
    } else if id == "grok"@ {
        MenuAction::SwitchModel(Model::Grok)
    } else if id == "gemini"@ {
        MenuAction::SwitchModel(Model::Gemini)
    } else if id == "qwen"@ {
        MenuAction::SwitchModel(Model::Qwen)
    } else if id == "doubao"@ {
        MenuAction::SwitchModel(Model::Doubao)
    } else if id == "lang_zh"@ {
        MenuAction::SetLanguageZh
    } else if id == "lang_en"@ {
        MenuAction::SetLanguageEn
    } else if id == "shortcut"@ {
        MenuAction::OpenShortcutSettings
    } else if id == "proxy"@ {
        MenuAction::OpenProxySettings
    } else {
        MenuAction::Ignore
    }
}

/// The action of the menu entry with identifier `id`.
pub fn menu_action(id: &str) -> (r: MenuAction)
    ensures
        r == menu_action_of(id@),
{
    if str_equals(id, "quit") {
        MenuAction::Quit
    } else if str_equals(id, "reload") {
        MenuAction::Reload
    } else if str_equals(id, "open_browser") {
        MenuAction::OpenBrowser
    } else if str_equals(id, "google_login") {
        MenuAction::GoogleLogin
    } else if str_equals(id, "autostart") {
        MenuAction::ToggleAutostart
    } else if str_equals(id, "always_on_top") {
        MenuAction::ToggleAlwaysOnTop
    } else if str_equals(id, "check_update") {
        MenuAction::CheckForUpdates
    } else if str_equals(id, "chatgpt") {
        MenuAction::SwitchModel(Model::ChatGpt)
    } else if str_equals(id, "deepseek") {
        MenuAction::SwitchModel(Model::DeepSeek)
    } else if str_equals(id, "grok") {
        MenuAction::SwitchModel(Model::Grok)
    } else if str_equals(id, "gemini") {
        MenuAction::SwitchModel(Model::Gemini)
    } else if str_equals(id, "qwen") {
        MenuAction::SwitchModel(Model::Qwen)
    } else if str_equals(id, "doubao") {
        MenuAction::SwitchModel(Model::Doubao)
    } else if str_equals(id, "lang_zh") {
        MenuAction::SetLanguageZh
    } else if str_equals(id, "lang_en") {
        MenuAction::SetLanguageEn
    } else if str_equals(id, "shortcut") {
        MenuAction::OpenShortcutSettings
    } else if str_equals(id, "proxy") {
        MenuAction::OpenProxySettings
    } else {
        MenuAction::Ignore
    }
}

/// The Google authorization page that the sign-in entry opens.
pub open spec fn google_oauth_url_text() -> Seq<char> {
    "https://accounts.google.com/o/oauth2/v2/auth?client_id="@ + GOOGLE_OAUTH_CLIENT_ID@ + "&redirect_uri="@
        + GOOGLE_OAUTH_REDIRECT_URI@ + "&response_type=code&scope="@ + GOOGLE_OAUTH_SCOPES@
        + "&access_type=offline"@
}

/// Builds the Google authorization page address.
pub fn google_oauth_url() -> (r: String)
    ensures
        r@ == google_oauth_url_text(),
{
    let mut r = "https://accounts.google.com/o/oauth2/v2/auth?client_id=".to_string();
    r.append(GOOGLE_OAUTH_CLIENT_ID);
    r.append("&redirect_uri=");
    r.append(GOOGLE_OAUTH_REDIRECT_URI);
    r.append("&response_type=code&scope=");
    r.append(GOOGLE_OAUTH_SCOPES);
    r.append("&access_type=offline");
    r
}

/// The GitHub Releases page that the update entry opens, given the project's
/// repository address; none when no repository address is known.
pub fn releases_page(repository: &str) -> (r: Option<String>)
    ensures
        match r {
            Some(page) => repository@.len() > 0 && page@ == repository@ + "/releases/latest"@,
            None => repository@.len() == 0,
        },
{
    if repository.is_empty() {
        None
    } else {
        let mut page = repository.to_string();
        page.append("/releases/latest");
        Some(page)
    }
}

/// Whether an opened deep link is the sign-in callback.
pub fn is_oauth_callback(url: &str) -> (r: bool)
    ensures
        r == begins_with(url@, GOOGLE_OAUTH_REDIRECT_URI@),
{
    starts_with_str(url, GOOGLE_OAUTH_REDIRECT_URI)
}

/// The shortcut registered at start-up: the stored one, or the default when
/// none is stored; an empty stored shortcut registers nothing.
pub fn startup_shortcut(stored: Option<String>) -> (r: Option<String>)
    ensures
        match r {
            Some(s) => s@ == stored_or(stored, DEFAULT_SHORTCUT@) && s@.len() > 0,
            None => stored_or(stored, DEFAULT_SHORTCUT@).len() == 0,
        },
{
    let shortcut = value_or_default(stored, DEFAULT_SHORTCUT);
    if shortcut.as_str().is_empty() {
        None
    } else {
        Some(shortcut)
    }
}

/// The bytes that `urlencoding` leaves as they are.
pub open spec fn is_unreserved(b: u8) -> bool {
    ||| 48 <= b <= 57
    ||| 65 <= b <= 90
    ||| 97 <= b <= 122
    ||| b == 45
    ||| b == 46
    ||| b == 95
    ||| b == 126
}

/// An upper-case hexadecimal digit.
pub open spec fn hex_digit(d: u8) -> char {
    if d < 10 {
        (48 + d) as char
    } else {
        (55 + d) as char
    }
}

/// Percent-encoding of bytes: unreserved bytes stay, each other byte becomes
/// `%` and two upper-case hexadecimal digits.
pub open spec fn percent_encoded(bytes: Seq<u8>) -> Seq<char>
    decreases bytes.len(),
{
    if bytes.len() == 0 {
        seq![]
    } else {
        let b = bytes[0];
        let head = if is_unreserved(b) {
            seq![b as char]
        } else {
            seq!['%', hex_digit(b / 16), hex_digit(b % 16)]
        };
        head + percent_encoded(bytes.drop_first())
    }
}

/// Percent-encoding of a string's UTF-8 bytes.
pub open spec fn url_encoded(s: Seq<char>) -> Seq<char> {
    percent_encoded(encode_utf8(s))
}

/// `urlencoding::encode`: its documentation and source encode every byte of
/// the UTF-8 text except ASCII letters, digits and `-._~` as `%XX` with
/// upper-case hexadecimal digits, which `url_encoded` states.
#[verifier::external_body]
fn url_encode(s: &str) -> (r: String)
    ensures
        r@ == url_encoded(s@),
{
    urlencoding::encode(s).into_owned()
}

/// A settings window to open: its title and the page with its query string.
pub struct SettingsWindow {
    pub label: &'static str,
    pub title: &'static str,
    pub page: String,
}

/// The query string of the shortcut settings window.
pub open spec fn shortcut_query(english: bool, current: Seq<char>) -> Seq<char> {
    "?title="@ + url_encoded(in_language(english, "Shortcut Settings"@, "快捷键设置"@)) + "&hint="@
        + url_encoded(in_language(english, "Press keys to set new shortcut"@, "按下按键组合以设置快捷键"@))
        + "&current="@ + url_encoded(current) + "&cancelText="@ + url_encoded(
        in_language(english, "Cancel"@, "取消"@),
    ) + "&okText="@ + url_encoded(in_language(english, "Save"@, "保存"@))
}

/// The query string of the proxy settings window.
pub open spec fn proxy_query(english: bool, current: Seq<char>) -> Seq<char> {
    "?hint="@ + url_encoded(
        in_language(english, "Enter proxy address (e.g. socks5://127.0.0.1:7897)"@, "输入代理地址（如 socks5://127.0.0.1:7897）"@),
    ) + "&current="@ + url_encoded(current) + "&placeholder="@ + url_encoded(
        in_language(english, "Leave empty to disable proxy"@, "留空则禁用代理"@),
    ) + "&cancelText="@ + url_encoded(in_language(english, "Cancel"@, "取消"@)) + "&okText="@
        + url_encoded(in_language(english, "Save"@, "保存"@))
}

/// `en` when `english`, else `zh`.
fn pick(english: bool, en: &'static str, zh: &'static str) -> (r: &'static str)
    ensures
        r@ == in_language(english, en@, zh@),
{
    if english {
        en
    } else {
        zh
    }
}

/// Appends `key` and the encoded `value` to `out`.
fn push_param(out: &mut String, key: &str, value: &str)
    ensures
        final(out)@ == old(out)@ + key@ + url_encoded(value@),
{
    out.append(key);
    let encoded = url_encode(value);
    out.append(encoded.as_str());
}

/// The shortcut settings window for the stored language and shortcut (the
/// default shortcut when none is stored).
pub fn shortcut_window(language: Option<String>, shortcut: Option<String>) -> (r: SettingsWindow)
    ensures
        r.label@ == "shortcut"@,
        r.title@ == in_language(is_english(language), "Shortcut Settings"@, "快捷键设置"@),
        r.page@ == "shortcut.html"@ + shortcut_query(is_english(language), stored_or(shortcut, DEFAULT_SHORTCUT@)),
{
    let english = menu_is_english(language);
    let current = value_or_default(shortcut, DEFAULT_SHORTCUT);
    let title = pick(english, "Shortcut Settings", "快捷键设置");
    let mut page = "shortcut.html".to_string();
    push_param(&mut page, "?title=", title);
    push_param(&mut page, "&hint=", pick(english, "Press keys to set new shortcut", "按下按键组合以设置快捷键"));
    push_param(&mut page, "&current=", current.as_str());
    push_param(&mut page, "&cancelText=", pick(english, "Cancel", "取消"));
    push_param(&mut page, "&okText=", pick(english, "Save", "保存"));
    SettingsWindow { label: "shortcut", title, page }
}

/// The proxy settings window for the stored language and proxy (empty when
/// none is stored).
#[verifier::rlimit(50)]
pub fn proxy_window(language: Option<String>, proxy: Option<String>) -> (r: SettingsWindow)
    ensures
        r.label@ == "proxy"@,
        r.title@ == in_language(is_english(language), "Proxy Settings"@, "代理设置"@),
        r.page@ == "proxy.html"@ + proxy_query(is_english(language), stored_or(proxy, ""@)),
{
    let english = menu_is_english(language);
    let current = value_or_default(proxy, "");
    let title = pick(english, "Proxy Settings", "代理设置");
    let mut page = "proxy.html".to_string();
    push_param(
        &mut page,
        "?hint=",
        pick(english, "Enter proxy address (e.g. socks5://127.0.0.1:7897)", "输入代理地址（如 socks5://127.0.0.1:7897）"),
    );
    push_param(&mut page, "&current=", current.as_str());
    push_param(&mut page, "&placeholder=", pick(english, "Leave empty to disable proxy", "留空则禁用代理"));
    push_param(&mut page, "&cancelText=", pick(english, "Cancel", "取消"));
    push_param(&mut page, "&okText=", pick(english, "Save", "保存"));
    SettingsWindow { label: "proxy", title, page }
}


/// A page that is neither local nor internal nor a Google sign-in page opens
/// inside the window exactly when it contains one of the kept domains, and
/// goes to the default browser otherwise.
pub proof fn lemma_kept_domains_stay_in_window(url: Seq<char>)
    requires
        !begins_with(url, "tauri://"@),
        !begins_with(url, "http://localhost"@),
        !has_substring(url, "accounts.google.com"@),
    ensures
        (navigation_of(url) == Navigation::Allow) <==> (
            has_substring(url, "chatgpt.com"@)
            || has_substring(url, "openai.com"@)
            || has_substring(url, "deepseek.com"@)
            || has_substring(url, "grok.com"@)
            || has_substring(url, "gemini.google.com"@)
            || has_substring(url, "qianwen.com"@)
            || has_substring(url, "doubao.com"@)
            || has_substring(url, "googleusercontent.com"@)
            || has_substring(url, "gstatic.com"@)
            || has_substring(url, "challenges.cloudflare.com"@)
            || has_substring(url, "accounts.youtube.com"@)),
{
}

/// Local and internal pages always open inside the window.
pub proof fn lemma_local_pages_stay_in_window(url: Seq<char>)
    requires
        begins_with(url, "tauri://"@) || begins_with(url, "http://localhost"@),
    ensures
        navigation_of(url) == Navigation::Allow,
{
}

/// Each model's tray entry, whose id is the model's canonical id, switches to
/// that model.
pub proof fn lemma_model_entries_switch_model(m: Model)
    ensures
        menu_action_of(model_id_text(m)) == MenuAction::SwitchModel(m),
{
    reveal_strlit("quit");
    reveal_strlit("reload");
    reveal_strlit("open_browser");
    reveal_strlit("google_login");
    reveal_strlit("autostart");
    reveal_strlit("always_on_top");
    reveal_strlit("check_update");
    reveal_strlit("chatgpt");
    reveal_strlit("deepseek");
    reveal_strlit("grok");
    reveal_strlit("gemini");
    reveal_strlit("qwen");
    reveal_strlit("doubao");
    let id = model_id_text(m);
    assert(id.len() != 9 && id.len() != 12 && id.len() != 13);
    match m {
        Model::Grok => {
            assert(id[0] != "quit"@[0]);
        },
        Model::Qwen => {
            assert(id[1] != "quit"@[1]);
            assert(id[0] != "grok"@[0]);
        },
        Model::Gemini => {
            assert(id[0] != "reload"@[0]);
        },
        Model::Doubao => {
            assert(id[0] != "reload"@[0]);
            assert(id[0] != "gemini"@[0]);
        },
        _ => {},
    }
}

/// Google sign-in pages never open inside the window (unless they are local or
/// internal pages): they go to the default browser.
pub proof fn lemma_google_sign_in_opens_in_browser(url: Seq<char>)
    requires
        has_substring(url, "accounts.google.com"@),
        !begins_with(url, "tauri://"@),
        !begins_with(url, "http://localhost"@),
    ensures
        navigation_of(url) == Navigation::OpenExternally,
{
}

/// The tray never checks two model entries at once: the default pages differ.
pub proof fn lemma_at_most_one_model_checked(url: Seq<char>)
    ensures
        (url == CHATGPT_URL@) as int + (url == DEEPSEEK_URL@) as int + (url == GROK_URL@) as int
            + (url == GEMINI_URL@) as int + (url == QWEN_URL@) as int + (url == DOUBAO_URL@) as int <= 1,
{
    reveal_strlit("https://chatgpt.com");
    reveal_strlit("https://chat.deepseek.com/");
    reveal_strlit("https://grok.com/");
    reveal_strlit("https://gemini.google.com/app");
    reveal_strlit("https://www.qianwen.com/chat");
    reveal_strlit("https://www.doubao.com/chat/");
    assert(CHATGPT_URL@.len() == 19 && DEEPSEEK_URL@.len() == 26 && GROK_URL@.len() == 17);
    assert(GEMINI_URL@.len() == 29 && QWEN_URL@.len() == 28 && DOUBAO_URL@.len() == 28);
    assert(QWEN_URL@[12] != DOUBAO_URL@[12]);
}

/// Every model's default page opens inside the window.
pub proof fn lemma_model_pages_stay_in_window(m: Model)
    ensures
        navigation_of(default_url(m)) == Navigation::Allow,
{
    let u = default_url(m);
    reveal_strlit("https://chatgpt.com");
    reveal_strlit("https://chat.deepseek.com/");
    reveal_strlit("https://grok.com/");
    reveal_strlit("https://gemini.google.com/app");
    reveal_strlit("https://www.qianwen.com/chat");
    reveal_strlit("https://www.doubao.com/chat/");
    reveal_strlit("chatgpt.com");
    reveal_strlit("deepseek.com");
    reveal_strlit("grok.com");
    reveal_strlit("gemini.google.com");
    reveal_strlit("qianwen.com");
    reveal_strlit("doubao.com");
    reveal_strlit("tauri://");
    reveal_strlit("http://localhost");
    assert(!begins_with(u, "tauri://"@)) by {
        if begins_with(u, "tauri://"@) {
            assert(u.subrange(0, 8)[0] == u[0]);
        }
    }
    assert(!begins_with(u, "http://localhost"@)) by {
        if begins_with(u, "http://localhost"@) {
            assert(u.subrange(0, 16)[4] == u[4]);
        }
    }
    reveal_strlit("accounts.google.com");
    lemma_absent(u, "accounts.google.com"@);
    match m {
        Model::ChatGpt => lemma_occurs(u, "chatgpt.com"@, 8),
        Model::DeepSeek => lemma_occurs(u, "deepseek.com"@, 13),
        Model::Grok => lemma_occurs(u, "grok.com"@, 8),
        Model::Gemini => lemma_occurs(u, "gemini.google.com"@, 8),
        Model::Qwen => lemma_occurs(u, "qianwen.com"@, 12),
        Model::Doubao => lemma_occurs(u, "doubao.com"@, 12),
    }
}

} // verus!
