//! Model identifiers, their default pages, and the per-model page memory.

use vstd::prelude::*;
use crate::text::{has_substring, lemma_absent, lemma_occurs, lower, lower_contains, lower_equals};

verus! {

pub const CHATGPT_MODEL_ID: &'static str = "chatgpt";
pub const DEEPSEEK_MODEL_ID: &'static str = "deepseek";
pub const GROK_MODEL_ID: &'static str = "grok";
pub const GEMINI_MODEL_ID: &'static str = "gemini";
pub const QWEN_MODEL_ID: &'static str = "qwen";
pub const DOUBAO_MODEL_ID: &'static str = "doubao";

pub const CHATGPT_URL: &'static str = "https://chatgpt.com";
pub const DEEPSEEK_URL: &'static str = "https://chat.deepseek.com/";
pub const GROK_URL: &'static str = "https://grok.com/";
pub const GEMINI_URL: &'static str = "https://gemini.google.com/app";
pub const QWEN_URL: &'static str = "https://www.qianwen.com/chat";
pub const DOUBAO_URL: &'static str = "https://www.doubao.com/chat/";

/// The chat services the client knows.
#[derive(Debug, Clone, Copy, PartialEq, Eq, Structural)]
pub enum Model {
    ChatGpt,
    DeepSeek,
    Grok,
    Gemini,
    Qwen,
    Doubao,
}

/// The canonical identifier of a model.
pub open spec fn model_id_text(m: Model) -> Seq<char> {
    match m {
        Model::ChatGpt => CHATGPT_MODEL_ID@,
        Model::DeepSeek => DEEPSEEK_MODEL_ID@,
        Model::Grok => GROK_MODEL_ID@,
        Model::Gemini => GEMINI_MODEL_ID@,
        Model::Qwen => QWEN_MODEL_ID@,
        Model::Doubao => DOUBAO_MODEL_ID@,
    }
}

/// The page a model opens on before anything was remembered for it.
pub open spec fn default_url(m: Model) -> Seq<char> {
    match m {
        Model::ChatGpt => CHATGPT_URL@,
        Model::DeepSeek => DEEPSEEK_URL@,
        Model::Grok => GROK_URL@,
        Model::Gemini => GEMINI_URL@,
        Model::Qwen => QWEN_URL@,
        Model::Doubao => DOUBAO_URL@,
    }
}

/// The model that a model id names, ignoring ASCII case; an unknown id names ChatGPT.
pub open spec fn model_named(raw: Seq<char>) -> Model {
    let l = lower(raw);
    if l == DEEPSEEK_MODEL_ID@ {
        Model::DeepSeek
    } else if l == GROK_MODEL_ID@ {
        Model::Grok
    } else if l == GEMINI_MODEL_ID@ {
        Model::Gemini
    } else if l == QWEN_MODEL_ID@ {
        Model::Qwen
    } else if l == DOUBAO_MODEL_ID@ {
        Model::Doubao
    } else {
        Model::ChatGpt
    }
}

/// The canonical id of the model that `raw` names.
pub open spec fn normalized_model_id(raw: Seq<char>) -> Seq<char> {
    model_id_text(model_named(raw))
}

/// The model whose site a page address belongs to, by the first domain (in this
/// order) that the ASCII lower-cased address contains; ChatGPT when none does.
pub open spec fn model_of_url(url: Seq<char>) -> Model {
    let l = lower(url);
    if has_substring(l, "deepseek.com"@) {
        Model::DeepSeek
    } else if has_substring(l, "grok.com"@) {
        Model::Grok
    } else if has_substring(l, "gemini.google.com"@) {
        Model::Gemini
    } else if has_substring(l, "qianwen.com"@) {
        Model::Qwen
    } else if has_substring(l, "doubao.com"@) {
        Model::Doubao
    } else {
        Model::ChatGpt
    }
}

/// The model that a model id names.
pub fn model_from_id(raw: &str) -> (m: Model)
    ensures
        m == model_named(raw@),
{
    if lower_equals(raw, DEEPSEEK_MODEL_ID) {
        Model::DeepSeek
    } else if lower_equals(raw, GROK_MODEL_ID) {
        Model::Grok
    } else if lower_equals(raw, GEMINI_MODEL_ID) {
        Model::Gemini
    } else if lower_equals(raw, QWEN_MODEL_ID) {
        Model::Qwen
    } else if lower_equals(raw, DOUBAO_MODEL_ID) {
        Model::Doubao
    } else {
        Model::ChatGpt
    }
}

/// The canonical identifier of a model.
pub fn model_id_str(m: Model) -> (r: &'static str)
    ensures
        r@ == model_id_text(m),
{
    match m {
        Model::ChatGpt => CHATGPT_MODEL_ID,
        Model::DeepSeek => DEEPSEEK_MODEL_ID,
        Model::Grok => GROK_MODEL_ID,
        Model::Gemini => GEMINI_MODEL_ID,
        Model::Qwen => QWEN_MODEL_ID,
        Model::Doubao => DOUBAO_MODEL_ID,
    }
}

/// Maps any spelling of a model id (ASCII case ignored) to its canonical id;
/// unknown ids map to ChatGPT's.
pub fn normalize_model_id(raw: &str) -> (r: &'static str)
    ensures
        r@ == normalized_model_id(raw@),
{
    model_id_str(model_from_id(raw))
}

/// The model whose site a page address belongs to.
pub fn model_from_url(url: &str) -> (m: Model)
    ensures
        m == model_of_url(url@),
{
    if lower_contains(url, "deepseek.com") {
        Model::DeepSeek
    } else if lower_contains(url, "grok.com") {
        Model::Grok
    } else if lower_contains(url, "gemini.google.com") {
        Model::Gemini
    } else if lower_contains(url, "qianwen.com") {
        Model::Qwen
    } else if lower_contains(url, "doubao.com") {
        Model::Doubao
    } else {
        Model::ChatGpt
    }
}

/// The canonical id of the model whose site a page address belongs to.
pub fn infer_model_from_url(url: &str) -> (r: &'static str)
    ensures
        r@ == model_id_text(model_of_url(url@)),
{
    model_id_str(model_from_url(url))
}

/// The page remembered for each model.
#[derive(Debug, Clone)]
pub struct ModelUrls {
    pub chatgpt: String,
    pub deepseek: String,
    pub grok: String,
    pub gemini: String,
    pub qwen: String,
    pub doubao: String,
}

/// The page every model opens on when nothing was remembered.
pub open spec fn default_urls() -> Map<Model, Seq<char>> {
    Map::new(|m: Model| true, |m: Model| default_url(m))
}

impl View for ModelUrls {
    type V = Map<Model, Seq<char>>;

    /// The page remembered for each model.
    open spec fn view(&self) -> Map<Model, Seq<char>> {
        Map::new(|m: Model| true, |m: Model| self.url_of(m))
    }
}

impl ModelUrls {
    /// The page remembered for model `m`.
    pub open spec fn url_of(&self, m: Model) -> Seq<char> {
        match m {
            Model::ChatGpt => self.chatgpt@,
            Model::DeepSeek => self.deepseek@,
            Model::Grok => self.grok@,
            Model::Gemini => self.gemini@,
            Model::Qwen => self.qwen@,
            Model::Doubao => self.doubao@,
        }
    }

    /// The page remembered for the model that `model` names.
    pub fn get(&self, model: &str) -> (r: &str)
        ensures
            r@ == self@[model_named(model@)],
    {
        match model_from_id(model) {
            Model::DeepSeek => self.deepseek.as_str(),
            Model::Grok => self.grok.as_str(),
            Model::Gemini => self.gemini.as_str(),
            Model::Qwen => self.qwen.as_str(),
            Model::Doubao => self.doubao.as_str(),
            Model::ChatGpt => self.chatgpt.as_str(),
        }
    }

    /// Remembers `url` for the model that `model` names; the other models keep theirs.
    pub fn set(&mut self, model: &str, url: String)
        ensures
            final(self)@ == old(self)@.insert(model_named(model@), url@),
    {
        match model_from_id(model) {
            Model::DeepSeek => self.deepseek = url,
            Model::Grok => self.grok = url,
            Model::Gemini => self.gemini = url,
            Model::Qwen => self.qwen = url,
            Model::Doubao => self.doubao = url,
            Model::ChatGpt => self.chatgpt = url,
        }
        assert(self@ =~= old(self)@.insert(model_named(model@), url@));
    }
}

impl Default for ModelUrls {
    fn default() -> (r: Self)
        ensures
            r@ == default_urls(),
    {
        let r = ModelUrls {
            chatgpt: CHATGPT_URL.to_string(),
            deepseek: DEEPSEEK_URL.to_string(),
            grok: GROK_URL.to_string(),
            gemini: GEMINI_URL.to_string(),
            qwen: QWEN_URL.to_string(),
            doubao: DOUBAO_URL.to_string(),
        };
        assert(r@ =~= default_urls());
        r
    }
}

/// Reading a model's page after remembering one: the page just remembered when
/// both ids name the same model, else the page remembered before.
pub proof fn lemma_get_after_set(urls: Map<Model, Seq<char>>, model: Seq<char>, url: Seq<char>, other: Seq<char>)
    ensures
        urls.insert(model_named(model), url)[model_named(other)] == if model_named(other) == model_named(model) {
            url
        } else {
            urls[model_named(other)]
        },
{
}

/// Model ids ignore ASCII case: ids that lower-case alike name the same model.
pub proof fn lemma_model_id_ignores_case(a: Seq<char>, b: Seq<char>)
    requires
        lower(a) == lower(b),
    ensures
        model_named(a) == model_named(b),
        normalized_model_id(a) == normalized_model_id(b),
{
}

/// Page addresses ignore ASCII case when their model is inferred.
pub proof fn lemma_url_model_ignores_case(a: Seq<char>, b: Seq<char>)
    requires
        lower(a) == lower(b),
    ensures
        model_of_url(a) == model_of_url(b),
{
}

/// Each canonical model id names its own model.
pub proof fn lemma_ids_name_their_model(m: Model)
    ensures
        model_named(model_id_text(m)) == m,
{
    reveal_strlit("chatgpt");
    reveal_strlit("deepseek");
    reveal_strlit("grok");
    reveal_strlit("gemini");
    reveal_strlit("qwen");
    reveal_strlit("doubao");
    assert(lower(model_id_text(m)) =~= model_id_text(m));
    assert(model_id_text(Model::Qwen)[0] != model_id_text(Model::Grok)[0]);
    assert(model_id_text(Model::Doubao)[0] != model_id_text(Model::Gemini)[0]);
}

/// Normalising a model id twice gives what normalising once gives, and the
/// normalised id names the same model as the raw one.
pub proof fn lemma_normalize_model_id_idempotent(raw: Seq<char>)
    ensures
        model_named(normalized_model_id(raw)) == model_named(raw),
        normalized_model_id(normalized_model_id(raw)) == normalized_model_id(raw),
{
    lemma_ids_name_their_model(model_named(raw));
}

/// The id inferred from a page address is already a canonical model id.
pub proof fn lemma_inferred_id_is_canonical(url: Seq<char>)
    ensures
        normalized_model_id(model_id_text(model_of_url(url))) == model_id_text(model_of_url(url)),
{
    lemma_ids_name_their_model(model_of_url(url));
}

/// Each model's default page is recognised as that model's page.
pub proof fn lemma_default_page_names_its_model(m: Model)
    ensures
        model_of_url(default_url(m)) == m,
{
    let u = default_url(m);
    reveal_strlit("https://chatgpt.com");
    reveal_strlit("https://chat.deepseek.com/");
    reveal_strlit("https://grok.com/");
    reveal_strlit("https://gemini.google.com/app");
    reveal_strlit("https://www.qianwen.com/chat");
    reveal_strlit("https://www.doubao.com/chat/");
    reveal_strlit("deepseek.com");
    reveal_strlit("grok.com");
    reveal_strlit("gemini.google.com");
    reveal_strlit("qianwen.com");
    reveal_strlit("doubao.com");
    assert(lower(u) =~= u);
    match m {
        Model::ChatGpt => {
            lemma_absent(u, "deepseek.com"@);
            lemma_absent(u, "grok.com"@);
            lemma_absent(u, "gemini.google.com"@);
            lemma_absent(u, "qianwen.com"@);
            lemma_absent(u, "doubao.com"@);
        },
        Model::DeepSeek => lemma_occurs(u, "deepseek.com"@, 13),
        Model::Grok => {
            lemma_absent(u, "deepseek.com"@);
            lemma_occurs(u, "grok.com"@, 8);
        },
        Model::Gemini => {
            lemma_absent(u, "deepseek.com"@);
            lemma_absent(u, "grok.com"@);
            lemma_occurs(u, "gemini.google.com"@, 8);
        },
        Model::Qwen => {
            lemma_absent(u, "deepseek.com"@);
            lemma_absent(u, "grok.com"@);
            lemma_absent(u, "gemini.google.com"@);
            lemma_occurs(u, "qianwen.com"@, 12);
        },
        Model::Doubao => {
            lemma_absent(u, "deepseek.com"@);
            lemma_absent(u, "grok.com"@);
            lemma_absent(u, "gemini.google.com"@);
            lemma_absent(u, "qianwen.com"@);
            lemma_occurs(u, "doubao.com"@, 12);
        },
    }
}

} // verus!
