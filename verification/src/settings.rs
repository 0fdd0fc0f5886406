//! The persisted application settings, and how older settings carry over.

use vstd::prelude::*;
use crate::history::{dedupe_history, deduped, texts, trim_non_empty};
use crate::models::{
    default_url, default_urls, infer_model_from_url, lemma_ids_name_their_model, lemma_normalize_model_id_idempotent,
    model_from_url, model_id_str, model_id_text, model_named, model_of_url, normalize_model_id, normalized_model_id, Model, ModelUrls,
    CHATGPT_MODEL_ID,
};
use crate::proxy::{normalize_proxy, normalized_proxy};
use crate::text::{has_substring, lower, lower_contains, lower_equals, trim};

verus! {

pub const SETTINGS_FILENAME: &'static str = "settings.json";
pub const APP_SETTINGS_KEY: &'static str = "app_settings";
pub const DEFAULT_SHORTCUT: &'static str = "CommandOrControl+G";

/// The settings the application keeps between runs.
#[derive(Debug, Clone)]
pub struct AppSettings {
    pub model: String,
    pub urls: ModelUrls,
    pub toggle_shortcut: String,
    pub auto_launch_on_startup: bool,
    pub always_on_top: bool,
    pub menu_language: String,
    pub proxy: Option<String>,
    pub proxy_history: Vec<String>,
    pub shortcut_history: Vec<String>,
}

/// The text an optional string holds.
pub open spec fn opt_text(o: Option<String>) -> Option<Seq<char>> {
    match o {
        Some(s) => Some(s@),
        None => None,
    }
}

/// The settings as values.
pub struct SettingsView {
    pub model: Seq<char>,
    pub urls: Map<Model, Seq<char>>,
    pub toggle_shortcut: Seq<char>,
    pub auto_launch_on_startup: bool,
    pub always_on_top: bool,
    pub menu_language: Seq<char>,
    pub proxy: Option<Seq<char>>,
    pub proxy_history: Seq<Seq<char>>,
    pub shortcut_history: Seq<Seq<char>>,
}

impl View for AppSettings {
    type V = SettingsView;

    open spec fn view(&self) -> SettingsView {
        SettingsView {
            model: self.model@,
            urls: self.urls@,
            toggle_shortcut: self.toggle_shortcut@,
            auto_launch_on_startup: self.auto_launch_on_startup,
            always_on_top: self.always_on_top,
            menu_language: self.menu_language@,
            proxy: opt_text(self.proxy),
            proxy_history: texts(self.proxy_history@),
            shortcut_history: texts(self.shortcut_history@),
        }
    }
}

/// The settings of a first run.
pub open spec fn default_settings() -> SettingsView {
    SettingsView {
        model: CHATGPT_MODEL_ID@,
        urls: default_urls(),
        toggle_shortcut: DEFAULT_SHORTCUT@,
        auto_launch_on_startup: false,
        always_on_top: false,
        menu_language: "zh"@,
        proxy: None,
        proxy_history: seq![],
        shortcut_history: seq![],
    }
}

impl SettingsView {
    /// The page of the selected model.
    pub open spec fn current_url(self) -> Seq<char> {
        self.urls[model_named(self.model)]
    }

    /// The settings with the model that `raw` names selected.
    pub open spec fn with_model(self, raw: Seq<char>) -> SettingsView {
        SettingsView { model: normalized_model_id(raw), ..self }
    }

    /// The settings with `url` remembered for the selected model.
    pub open spec fn with_current_url(self, url: Seq<char>) -> SettingsView {
        SettingsView { urls: self.urls.insert(model_named(self.model), url), ..self }
    }

    /// The settings with every model back on its default page.
    pub open spec fn with_default_urls(self) -> SettingsView {
        self.with_urls(default_urls())
    }

    /// The settings with always-on-top set to `on`.
    pub open spec fn with_always_on_top(self, on: bool) -> SettingsView {
        SettingsView { always_on_top: on, ..self }
    }

    /// The settings with the per-model pages `urls`.
    pub open spec fn with_urls(self, urls: Map<Model, Seq<char>>) -> SettingsView {
        SettingsView { urls: urls, ..self }
    }
}

impl Default for AppSettings {
    fn default() -> (r: Self)
        ensures
            r@ == default_settings(),
    {
        let r = AppSettings {
            model: CHATGPT_MODEL_ID.to_string(),
            urls: ModelUrls::default(),
            toggle_shortcut: DEFAULT_SHORTCUT.to_string(),
            auto_launch_on_startup: false,
            always_on_top: false,
            menu_language: "zh".to_string(),
            proxy: None,
            proxy_history: Vec::new(),
            shortcut_history: Vec::new(),
        };
        assert(texts(r.proxy_history@) =~= seq![]);
        assert(texts(r.shortcut_history@) =~= seq![]);
        r
    }
}

impl AppSettings {
    /// The page of the selected model.
    pub fn current_url(&self) -> (r: String)
        ensures
            r@ == self@.current_url(),
    {
        self.urls.get(self.model.as_str()).to_string()
    }

    /// Selects the model that `model` names (its canonical id is stored).
    pub fn set_model(&mut self, model: &str)
        ensures
            final(self)@ == old(self)@.with_model(model@),
    {
        self.model = normalize_model_id(model).to_string();
    }

    /// Remembers `url` as the page of the selected model.
    pub fn set_current_url(&mut self, url: String)
        ensures
            final(self)@ == old(self)@.with_current_url(url@),
    {
        let current_model = self.model.clone();
        self.urls.set(current_model.as_str(), url);
    }

    /// Selects model `m` and gives the page remembered for it, which is the
    /// page to open.
    pub fn select_model(&mut self, m: Model) -> (r: String)
        ensures
            final(self)@ == old(self)@.with_model(model_id_text(m)),
            r@ == old(self)@.urls[m],
            r@ == final(self)@.current_url(),
    {
        proof {
            lemma_ids_name_their_model(m);
        }
        let id = model_id_str(m);
        self.set_model(id);
        self.current_url()
    }

    /// Flips the always-on-top setting and gives its new value.
    pub fn toggle_always_on_top(&mut self) -> (r: bool)
        ensures
            final(self)@ == old(self)@.with_always_on_top(!old(self).always_on_top),
            r == final(self).always_on_top,
    {
        self.always_on_top = !self.always_on_top;
        self.always_on_top
    }

    /// Records a page the window opened: a page of a model's site is
    /// remembered for that model, which becomes the selected model; any other
    /// page changes nothing.
    pub fn remember_visit(&mut self, url: &str)
        ensures
            final(self)@ == (if is_model_site(url@) {
                with_visited_url(old(self)@, url@)
            } else {
                old(self)@
            }),
    {
        if is_model_page(url) {
            apply_visited_url(self, url.to_string());
        }
    }

    /// Puts every model back on its default page.
    pub fn reset_urls(&mut self)
        ensures
            final(self)@ == old(self)@.with_default_urls(),
            forall|m: Model| #[trigger] final(self)@.urls[m] == default_url(m),
    {
        self.urls = ModelUrls::default();
    }
}

/// Switching away from a model and back restores the page remembered for it.
pub proof fn lemma_model_page_is_remembered(s: SettingsView, url: Seq<char>, other: Seq<char>)
    ensures
        s.with_current_url(url).with_model(other).with_model(s.model).current_url() == url,
{
    lemma_normalize_model_id_idempotent(s.model);
}

/// A page visited in the window and then returned to through the model
/// switch opens again: selecting its model gives the remembered page.
pub proof fn lemma_visited_page_is_restored(s: SettingsView, url: Seq<char>, other: Seq<char>)
    requires
        is_model_site(url),
    ensures
        with_visited_url(s, url).with_model(other).with_model(model_id_text(model_of_url(url))).current_url() == url,
{
    lemma_ids_name_their_model(model_of_url(url));
}

/// After the pages are reset, the selected model is on its default page.
pub proof fn lemma_reset_urls_opens_default_page(s: SettingsView)
    ensures
        s.with_default_urls().current_url() == default_url(model_named(s.model)),
{
}

/// Remembering a page for the selected model leaves every other model's page as it was.
pub proof fn lemma_other_pages_kept(s: SettingsView, url: Seq<char>, m: Model)
    requires
        m != model_named(s.model),
    ensures
        s.with_current_url(url).urls[m] == s.urls[m],
{
}

/// Selecting a model stores its canonical id, and selecting it again changes nothing.
pub proof fn lemma_set_model_canonical(s: SettingsView, raw: Seq<char>)
    ensures
        s.with_model(raw).model == model_id_text(model_named(raw)),
        s.with_model(raw).with_model(s.with_model(raw).model) == s.with_model(raw),
{
    lemma_normalize_model_id_idempotent(raw);
}


/// Per-model pages as an older release stored them; any may be missing.
#[derive(Debug, Clone, Default)]
pub struct LegacyModelUrls {
    pub chatgpt: Option<String>,
    pub deepseek: Option<String>,
    pub grok: Option<String>,
    pub gemini: Option<String>,
    pub qwen: Option<String>,
    pub doubao: Option<String>,
}

/// Settings as an older release stored them; any field may be missing.
#[derive(Debug, Clone, Default)]
pub struct LegacyAppSettings {
    pub model: Option<String>,
    pub last_visited_url: Option<String>,
    pub urls: Option<LegacyModelUrls>,
    pub toggle_shortcut: Option<String>,
    pub auto_launch_on_startup: Option<bool>,
    pub always_on_top: Option<bool>,
    pub menu_language: Option<String>,
    pub proxy: Option<String>,
    pub proxy_history: Option<Vec<String>>,
    pub shortcut_history: Option<Vec<String>>,
}

/// The trimmed text of an optional value when that is not empty.
pub open spec fn trimmed_text(o: Option<String>) -> Option<Seq<char>> {
    match o {
        Some(s) => if trim(s@).len() > 0 {
            Some(trim(s@))
        } else {
            None
        },
        None => None,
    }
}

/// `current` replaced by the trimmed text of `o` when that is not empty.
pub open spec fn override_trimmed(current: Seq<char>, o: Option<String>) -> Seq<char> {
    match trimmed_text(o) {
        Some(t) => t,
        None => current,
    }
}

impl LegacyModelUrls {
    /// The stored page of model `m`.
    pub open spec fn url_of(&self, m: Model) -> Option<String> {
        match m {
            Model::ChatGpt => self.chatgpt,
            Model::DeepSeek => self.deepseek,
            Model::Grok => self.grok,
            Model::Gemini => self.gemini,
            Model::Qwen => self.qwen,
            Model::Doubao => self.doubao,
        }
    }
}

/// `urls` with each model's page replaced by its stored trimmed page, where
/// that exists and is not blank.
pub open spec fn with_legacy_urls(urls: Map<Model, Seq<char>>, legacy: LegacyModelUrls) -> Map<Model, Seq<char>> {
    Map::new(|m: Model| true, |m: Model| override_trimmed(urls[m], legacy.url_of(m)))
}

/// The proxy an older release stored, as carried over: its normalised form,
/// none for blank text, and the trimmed text when it does not normalise.
pub open spec fn legacy_proxy(proxy: Seq<char>) -> Option<Seq<char>> {
    match normalized_proxy(proxy) {
        Ok(Some(v)) => Some(v),
        Ok(None) => None,
        Err(_) => if trim(proxy).len() > 0 {
            Some(trim(proxy))
        } else {
            None
        },
    }
}

/// The menu language a stored language selects: English for any ASCII-case
/// spelling of `en`, Chinese otherwise.
pub open spec fn menu_language_of(raw: Seq<char>) -> Seq<char> {
    if lower(raw) == "en"@ {
        "en"@
    } else {
        "zh"@
    }
}

/// `s` with the selected model inferred from `url` and `url` remembered as its page.
pub open spec fn with_visited_url(s: SettingsView, url: Seq<char>) -> SettingsView {
    SettingsView {
        model: model_id_text(model_of_url(url)),
        urls: s.urls.insert(model_of_url(url), url),
        ..s
    }
}

/// `s` with what an older release stored carried over, field by field; a
/// missing field leaves the setting as it is.
pub open spec fn with_legacy(s: SettingsView, l: LegacyAppSettings) -> SettingsView {
    let s1 = SettingsView {
        model: match l.model {
            Some(m) => normalized_model_id(m@),
            None => s.model,
        },
        urls: match l.urls {
            Some(u) => with_legacy_urls(s.urls, u),
            None => s.urls,
        },
        toggle_shortcut: override_trimmed(s.toggle_shortcut, l.toggle_shortcut),
        auto_launch_on_startup: match l.auto_launch_on_startup {
            Some(b) => b,
            None => s.auto_launch_on_startup,
        },
        always_on_top: match l.always_on_top {
            Some(b) => b,
            None => s.always_on_top,
        },
        menu_language: match l.menu_language {
            Some(lang) => menu_language_of(lang@),
            None => s.menu_language,
        },
        proxy: match l.proxy {
            Some(p) => match legacy_proxy(p@) {
                Some(q) => Some(q),
                None => s.proxy,
            },
            None => s.proxy,
        },
        proxy_history: match l.proxy_history {
            Some(h) => deduped(texts(h@)),
            None => s.proxy_history,
        },
        shortcut_history: match l.shortcut_history {
            Some(h) => deduped(texts(h@)),
            None => s.shortcut_history,
        },
    };
    match trimmed_text(l.last_visited_url) {
        Some(u) => with_visited_url(s1, u),
        None => s1,
    }
}

/// Whether a page belongs to one of the models' sites (ASCII case ignored).
pub open spec fn is_model_site(url: Seq<char>) -> bool {
    has_substring(lower(url), "chatgpt.com"@) || model_of_url(url) != Model::ChatGpt
}

/// Whether a page belongs to one of the models' sites.
pub fn is_model_page(url: &str) -> (r: bool)
    ensures
        r == is_model_site(url@),
{
    lower_contains(url, "chatgpt.com") || model_from_url(url) != Model::ChatGpt
}

/// Carries a stored proxy over: its normalised form when it normalises, the
/// trimmed text when it does not, and nothing for blank text.
pub fn normalize_legacy_proxy(proxy: &str) -> (r: Option<String>)
    ensures
        opt_text(r) == legacy_proxy(proxy@),
{
    match normalize_proxy(proxy) {
        Ok(Some(value)) => Some(value),
        Ok(None) => None,
        Err(_) => trim_non_empty(proxy),
    }
}

/// Replaces `target` by the trimmed stored value when that is not blank.
fn override_with_trimmed(target: &mut String, stored: Option<String>)
    ensures
        final(target)@ == override_trimmed(old(target)@, stored),
{
    if let Some(value) = stored {
        if let Some(url) = trim_non_empty(value.as_str()) {
            *target = url;
        }
    }
}

/// Carries over the per-model pages an older release stored.
pub fn apply_legacy_urls(settings: &mut AppSettings, urls: LegacyModelUrls)
    ensures
        final(settings)@ == old(settings)@.with_urls(with_legacy_urls(old(settings)@.urls, urls)),
{
    override_with_trimmed(&mut settings.urls.chatgpt, urls.chatgpt);
    override_with_trimmed(&mut settings.urls.deepseek, urls.deepseek);
    override_with_trimmed(&mut settings.urls.grok, urls.grok);
    override_with_trimmed(&mut settings.urls.gemini, urls.gemini);
    override_with_trimmed(&mut settings.urls.qwen, urls.qwen);
    override_with_trimmed(&mut settings.urls.doubao, urls.doubao);
    assert(settings.urls@ =~= with_legacy_urls(old(settings)@.urls, urls));
}

/// Selects the model a visited page belongs to and remembers the page for it.
fn apply_visited_url(settings: &mut AppSettings, url: String)
    ensures
        final(settings)@ == with_visited_url(old(settings)@, url@),
{
    let model = infer_model_from_url(url.as_str());
    proof {
        lemma_ids_name_their_model(model_of_url(url@));
    }
    settings.model = model.to_string();
    settings.urls.set(model, url);
}

/// Carries over the settings an older release stored.
pub fn apply_legacy_settings(settings: &mut AppSettings, legacy: LegacyAppSettings)
    ensures
        final(settings)@ == with_legacy(old(settings)@, legacy),
        final(settings).always_on_top == match legacy.always_on_top {
            Some(b) => b,
            None => old(settings).always_on_top,
        },
        final(settings).auto_launch_on_startup == match legacy.auto_launch_on_startup {
            Some(b) => b,
            None => old(settings).auto_launch_on_startup,
        },
{
    if let Some(urls) = legacy.urls {
        apply_legacy_urls(settings, urls);
    }
    if let Some(model) = legacy.model {
        settings.model = normalize_model_id(model.as_str()).to_string();
    }
    override_with_trimmed(&mut settings.toggle_shortcut, legacy.toggle_shortcut);
    if let Some(auto_launch_on_startup) = legacy.auto_launch_on_startup {
        settings.auto_launch_on_startup = auto_launch_on_startup;
    }
    if let Some(always_on_top) = legacy.always_on_top {
        settings.always_on_top = always_on_top;
    }
    if let Some(menu_language) = legacy.menu_language {
        settings.menu_language = if lower_equals(menu_language.as_str(), "en") {
            "en".to_string()
        } else {
            "zh".to_string()
        };
    }
    if let Some(proxy) = legacy.proxy {
        if let Some(proxy) = normalize_legacy_proxy(proxy.as_str()) {
            settings.proxy = Some(proxy);
        }
    }
    if let Some(proxy_history) = legacy.proxy_history {
        settings.proxy_history = dedupe_history(proxy_history);
    }
    if let Some(shortcut_history) = legacy.shortcut_history {
        settings.shortcut_history = dedupe_history(shortcut_history);
    }
    if let Some(last_visited_url) = legacy.last_visited_url {
        if let Some(url) = trim_non_empty(last_visited_url.as_str()) {
            apply_visited_url(settings, url);
        }
    }
}


/// The settings built when no current settings record exists: the defaults,
/// then what an older release stored, then the loose values that earlier
/// builds kept under their own keys (language, shortcut, proxy and last page,
/// each taken as stored).
pub open spec fn migrated_settings(
    legacy: Option<LegacyAppSettings>,
    language: Option<String>,
    shortcut: Option<String>,
    proxy: Option<String>,
    last_url: Option<String>,
) -> SettingsView {
    let s0 = match legacy {
        Some(l) => with_legacy(default_settings(), l),
        None => default_settings(),
    };
    let s1 = match language {
        Some(x) => SettingsView { menu_language: x@, ..s0 },
        None => s0,
    };
    let s2 = match shortcut {
        Some(x) => SettingsView { toggle_shortcut: x@, ..s1 },
        None => s1,
    };
    let s3 = match proxy {
        Some(x) => SettingsView { proxy: Some(x@), ..s2 },
        None => s2,
    };
    match last_url {
        Some(u) => with_visited_url(s3, u@),
        None => s3,
    }
}

/// Builds the settings when no current settings record exists, from what an
/// older release stored and from the loose values earlier builds kept.
pub fn migrate_settings(
    legacy: Option<LegacyAppSettings>,
    language: Option<String>,
    shortcut: Option<String>,
    proxy: Option<String>,
    last_url: Option<String>,
) -> (r: AppSettings)
    ensures
        r@ == migrated_settings(legacy, language, shortcut, proxy, last_url),
{
    let mut settings = AppSettings::default();
    if let Some(legacy_settings) = legacy {
        apply_legacy_settings(&mut settings, legacy_settings);
    }
    if let Some(language) = language {
        settings.menu_language = language;
    }
    if let Some(shortcut) = shortcut {
        settings.toggle_shortcut = shortcut;
    }
    if let Some(proxy) = proxy {
        settings.proxy = Some(proxy);
    }
    if let Some(last_url) = last_url {
        apply_visited_url(&mut settings, last_url);
    }
    settings
}

/// After a visited page is carried over, it is the page of the selected model.
pub proof fn lemma_visited_url_is_current(s: SettingsView, url: Seq<char>)
    ensures
        with_visited_url(s, url).current_url() == url,
        model_named(with_visited_url(s, url).model) == model_of_url(url),
{
    lemma_ids_name_their_model(model_of_url(url));
}

/// Migration opens on the last page an earlier build visited, when one was kept.
pub proof fn lemma_migration_opens_last_page(
    legacy: Option<LegacyAppSettings>,
    language: Option<String>,
    shortcut: Option<String>,
    proxy: Option<String>,
    last_url: String,
)
    ensures
        migrated_settings(legacy, language, shortcut, proxy, Some(last_url)).current_url() == last_url@,
{
    let s0 = match legacy {
        Some(l) => with_legacy(default_settings(), l),
        None => default_settings(),
    };
    let s1 = match language {
        Some(x) => SettingsView { menu_language: x@, ..s0 },
        None => s0,
    };
    let s2 = match shortcut {
        Some(x) => SettingsView { toggle_shortcut: x@, ..s1 },
        None => s1,
    };
    let s3 = match proxy {
        Some(x) => SettingsView { proxy: Some(x@), ..s2 },
        None => s2,
    };
    lemma_visited_url_is_current(s3, last_url@);
}

/// With nothing stored anywhere, migration yields the first-run settings.
pub proof fn lemma_migration_of_nothing()
    ensures
        migrated_settings(None, None, None, None, None) == default_settings(),
{
}

/// After the pages are reset, every model (not only the selected one) is on
/// its default page, and nothing but the pages changes.
pub proof fn lemma_reset_urls_all_models(s: SettingsView, m: Model)
    ensures
        s.with_default_urls().urls[m] == default_url(m),
        s.with_default_urls().model == s.model,
        s.with_default_urls().current_url() == default_url(model_named(s.model)),
{
}

/// Carrying older settings over takes each stored flag when one is stored and
/// keeps the current one otherwise; a stored model is selected (by its
/// canonical id) unless a last visited page is stored, whose model is then
/// selected with that page as its current page; a stored non-blank page of a
/// model replaces that model's page unless the last visited page belongs to
/// the same model.
pub proof fn lemma_legacy_fields_carried(s: SettingsView, l: LegacyAppSettings)
    ensures
        with_legacy(s, l).always_on_top == match l.always_on_top {
            Some(b) => b,
            None => s.always_on_top,
        },
        with_legacy(s, l).auto_launch_on_startup == match l.auto_launch_on_startup {
            Some(b) => b,
            None => s.auto_launch_on_startup,
        },
        l.last_visited_url is None ==> with_legacy(s, l).model == match l.model {
            Some(m) => normalized_model_id(m@),
            None => s.model,
        },
        l.last_visited_url matches Some(u) ==> (trim(u@).len() > 0 ==> with_legacy(s, l).current_url() == trim(u@)
            && with_legacy(s, l).model == model_id_text(model_of_url(trim(u@)))),
        l.urls matches Some(lu) ==> forall|m: Model|
            (#[trigger] lu.url_of(m) matches Some(x) ==> (trim(x@).len() > 0 ==> (l.last_visited_url is None
                ==> with_legacy(s, l).urls[m] == trim(x@)))),
        l.urls is None && l.last_visited_url is None ==> with_legacy(s, l).urls == s.urls,
{
    if let Some(u) = l.last_visited_url {
        if trim(u@).len() > 0 {
            lemma_visited_url_is_current(with_legacy(s, LegacyAppSettings { last_visited_url: None, ..l }), trim(u@));
        }
    }
}

/// Carrying over older settings of which nothing was stored changes nothing.
pub proof fn lemma_legacy_of_nothing(s: SettingsView, l: LegacyAppSettings)
    requires
        l.model is None,
        l.last_visited_url is None,
        l.urls is None,
        l.toggle_shortcut is None,
        l.auto_launch_on_startup is None,
        l.always_on_top is None,
        l.menu_language is None,
        l.proxy is None,
        l.proxy_history is None,
        l.shortcut_history is None,
    ensures
        with_legacy(s, l) == s,
{
}

/// Carrying older settings over leaves a menu language of `en` or `zh` when one
/// was stored, a trimmed non-blank shortcut, and histories without repeats of
/// at most `HISTORY_LIMIT` entries.
pub proof fn lemma_legacy_settings_are_clean(s: SettingsView, l: LegacyAppSettings)
    ensures
        l.menu_language is Some ==> (with_legacy(s, l).menu_language == "en"@ || with_legacy(s, l).menu_language == "zh"@),
        trimmed_text(l.toggle_shortcut) matches Some(t) ==> with_legacy(s, l).toggle_shortcut == t,
        l.proxy_history matches Some(h) ==> with_legacy(s, l).proxy_history.no_duplicates()
            && with_legacy(s, l).proxy_history.len() <= crate::history::HISTORY_LIMIT,
        l.shortcut_history matches Some(h) ==> with_legacy(s, l).shortcut_history.no_duplicates()
            && with_legacy(s, l).shortcut_history.len() <= crate::history::HISTORY_LIMIT,
{
    if let Some(h) = l.proxy_history {
        crate::history::lemma_dedupe_history(texts(h@));
    }
    if let Some(h) = l.shortcut_history {
        crate::history::lemma_dedupe_history(texts(h@));
    }
}

} // verus!
