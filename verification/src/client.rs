//! What is sent to the provider: the prompt and the endpoints.

use vstd::prelude::*;
use vstd::string::StringExecFns;
use crate::config::OutputMode;

verus! {

/// Where the provider's models live.
pub const API_BASE_URL: &'static str = "https://generativelanguage.googleapis.com/v1beta/models";

/// Instructions of the detailed mode; the text to translate follows them.
pub const DETAILED_PROMPT: &'static str =
    "以下のテキストを分析し、以下の形式で回答してください:\n\n【言語判定】\n検出言語: [言語名]\n\n【翻訳】\n[日本語の場合は英語へ、それ以外は日本語へ翻訳]\n\n【スラング・特殊表現】\n[該当する表現があれば解説、なければ「なし」]\n\n【要約】\n[テキストの要点を1-2文で]\n\n---\nテキスト:\n";

/// Instructions of the concise mode; the text to translate follows them.
pub const CONCISE_PROMPT: &'static str =
    "以下のテキストを翻訳してください。\n- 日本語なら英語へ、それ以外なら日本語へ\n- 5行以内で要点のみ\n- 余計な説明不要、翻訳結果だけ出力\n\nテキスト:\n";

/// The prompt for `text` in `mode`: the mode's instructions, then the text
/// as it is.
pub open spec fn prompt_text(mode: OutputMode, text: Seq<char>) -> Seq<char> {
    match mode {
        OutputMode::Detailed => DETAILED_PROMPT@ + text,
        OutputMode::Concise => CONCISE_PROMPT@ + text,
    }
}

/// The address that generates content with `model` for the holder of
/// `api_key`.
pub open spec fn generate_url(model: Seq<char>, api_key: Seq<char>) -> Seq<char> {
    API_BASE_URL@ + "/"@ + model + ":generateContent?key="@ + api_key
}

/// The address that lists the models for the holder of `api_key`.
pub open spec fn models_url(api_key: Seq<char>) -> Seq<char> {
    API_BASE_URL@ + "?key="@ + api_key + "&pageSize=100"@
}

/// The address that lists the models for the holder of `api_key`.
pub fn models_endpoint(api_key: &str) -> (url: String)
    ensures
        url@ == models_url(api_key@),
{
    let mut url = String::from_str(API_BASE_URL);
    url.append("?key=");
    url.append(api_key);
    url.append("&pageSize=100");
    url
}

/// The settings of the calls to the provider.
#[derive(Clone, Debug, PartialEq, Eq)]
pub struct GeminiClient {
    api_key: String,
    model: String,
    output_mode: OutputMode,
}

/// The mathematical value of a [`GeminiClient`].
pub struct GeminiClientView {
    pub api_key: Seq<char>,
    pub model: Seq<char>,
    pub output_mode: OutputMode,
}

impl View for GeminiClient {
    type V = GeminiClientView;

    closed spec fn view(&self) -> GeminiClientView {
        GeminiClientView {
            api_key: self.api_key@,
            model: self.model@,
            output_mode: self.output_mode,
        }
    }
}

impl GeminiClient {
    /// A client for `model` in `output_mode`, with the caller's key.
    pub fn new(api_key: String, model: String, output_mode: OutputMode) -> (client: Self)
        ensures
            client@ == (GeminiClientView { api_key: api_key@, model: model@, output_mode }),
    {
        GeminiClient { api_key, model, output_mode }
    }

    /// The prompt that asks for a translation of `text`.
    pub fn build_prompt(&self, text: &str) -> (prompt: String)
        ensures
            prompt@ == prompt_text(self@.output_mode, text@),
    {
        let instructions = match self.output_mode {
            OutputMode::Detailed => DETAILED_PROMPT,
            OutputMode::Concise => CONCISE_PROMPT,
        };
        String::from_str(instructions).concat(text)
    }

    /// The address to which the prompt is posted.
    pub fn endpoint(&self) -> (url: String)
        ensures
            url@ == generate_url(self@.model, self@.api_key),
    {
        let mut url = String::from_str(API_BASE_URL);
        url.append("/");
        url.append(self.model.as_str());
        url.append(":generateContent?key=");
        url.append(self.api_key.as_str());
        url
    }
}

} // verus!
