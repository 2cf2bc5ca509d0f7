use clipboard_translator::client::{
    models_endpoint, GeminiClient, API_BASE_URL, CONCISE_PROMPT, DETAILED_PROMPT,
};
use clipboard_translator::config::OutputMode;

fn client(mode: OutputMode) -> GeminiClient {
    GeminiClient::new("SECRET-REDACTED".to_string(), "gemini-2.0-flash".to_string(), mode)
}

#[test]
fn detailed_prompt_ends_with_the_text() {
    let prompt = client(OutputMode::Detailed).build_prompt("Hello, world");
    assert_eq!(prompt, format!("{}Hello, world", DETAILED_PROMPT));
    assert!(prompt.starts_with("以下のテキストを分析し、以下の形式で回答してください:\n\n【言語判定】\n検出言語: [言語名]\n\n【翻訳】\n"));
    assert!(prompt.ends_with("【要約】\n[テキストの要点を1-2文で]\n\n---\nテキスト:\nHello, world"));
}

#[test]
fn concise_prompt_ends_with_the_text() {
    let prompt = client(OutputMode::Concise).build_prompt("  spaced\ntext ");
    assert_eq!(
        prompt,
        "以下のテキストを翻訳してください。\n- 日本語なら英語へ、それ以外なら日本語へ\n- 5行以内で要点のみ\n- 余計な説明不要、翻訳結果だけ出力\n\nテキスト:\n  spaced\ntext "
    );
    assert_eq!(client(OutputMode::Concise).build_prompt(""), CONCISE_PROMPT);
}

#[test]
fn endpoint_names_model_and_key() {
    assert_eq!(
        client(OutputMode::Detailed).endpoint(),
        "https://generativelanguage.googleapis.com/v1beta/models/gemini-2.0-flash:generateContent?key=SECRET-REDACTED"
    );
}

#[test]
fn models_endpoint_asks_for_a_hundred() {
    assert_eq!(
        models_endpoint("SECRET-REDACTED"),
        "https://generativelanguage.googleapis.com/v1beta/models?key=SECRET-REDACTED&pageSize=100"
    );
    assert_eq!(models_endpoint(""), format!("{}?key=&pageSize=100", API_BASE_URL));
}
