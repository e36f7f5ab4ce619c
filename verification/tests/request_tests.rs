use quick_translate::request::{
    authorization_header, chat_completions_url, desktop_prompt, popup_prompt, popup_request,
    popup_target_name, source_instruction, target_name, translate_request, GroqRequest,
    DESKTOP_MAX_TOKENS, POPUP_MAX_TOKENS, TEMPERATURE_TENTHS,
};

fn check_messages(r: &GroqRequest, system: &str, user: &str) {
    assert_eq!(r.messages.len(), 2);
    assert_eq!(r.messages[0].role, "system");
    assert_eq!(r.messages[0].content, system);
    assert_eq!(r.messages[1].role, "user");
    assert_eq!(r.messages[1].content, user);
}

#[test]
fn popup_names_known_codes_in_english() {
    assert_eq!(popup_target_name("it"), "Italian");
    assert_eq!(popup_target_name("en"), "English");
    assert_eq!(popup_target_name("ja"), "Japanese");
    assert_eq!(popup_target_name("ko"), "Korean");
    assert_eq!(popup_target_name("nl"), "Dutch");
    assert_eq!(popup_target_name("pl"), "Polish");
    assert_eq!(popup_target_name("sv"), "Swedish");
    assert_eq!(popup_target_name("ar"), "Arabic");
    assert_eq!(popup_target_name("tr"), "Turkish");
    assert_eq!(popup_target_name("xx"), "Italian");
    assert_eq!(popup_target_name(""), "Italian");
}

#[test]
fn popup_request_asks_default_model() {
    let r = popup_request("Good morning", "de");
    assert_eq!(r.model, "openai/gpt-oss-20b");
    assert_eq!(r.max_tokens, 2000);
    assert_eq!(r.max_tokens, POPUP_MAX_TOKENS);
    assert_eq!(r.temperature_tenths, TEMPERATURE_TENTHS);
    assert_eq!(r.temperature_tenths, 3);
    check_messages(
        &r,
        "You are a professional translator. Detect the source language. If the text is already in German, translate it to English. Otherwise translate it to German. Provide ONLY the translation, nothing else. Maintain the original formatting and tone.",
        "Good morning",
    );
}

#[test]
fn popup_translates_into_every_listed_language() {
    let r = popup_request("Buongiorno", "tr");
    assert_eq!(
        r.messages[0].content,
        "You are a professional translator. Detect the source language. If the text is already in Turkish, translate it to English. Otherwise translate it to Turkish. Provide ONLY the translation, nothing else. Maintain the original formatting and tone."
    );
}

#[test]
fn popup_prompt_names_target_twice() {
    let p = popup_prompt("Italian");
    assert_eq!(p.matches("Italian").count(), 2);
}

#[test]
fn source_instruction_cases() {
    assert_eq!(source_instruction("auto"), "Detect the source language automatically.");
    assert_eq!(source_instruction("fr"), "The source language is Français.");
    assert_eq!(source_instruction("xx"), "The source language is xx.");
}

#[test]
fn target_name_cases() {
    assert_eq!(target_name("en"), "English");
    assert_eq!(target_name("ar"), "العربية");
    assert_eq!(target_name("auto"), "Italian");
    assert_eq!(target_name("xx"), "Italian");
}

#[test]
fn desktop_request_carries_model_and_prompt() {
    let r = translate_request("llama-3.3-70b-versatile", "Ciao a tutti", "it", "en");
    assert_eq!(r.model, "llama-3.3-70b-versatile");
    assert_eq!(r.max_tokens, DESKTOP_MAX_TOKENS);
    assert_eq!(r.max_tokens, 4000);
    assert_eq!(r.temperature_tenths, 3);
    check_messages(
        &r,
        "You are a professional translator. The source language is Italiano. Translate the following text to English. Provide ONLY the translation, nothing else. Maintain the original formatting and tone.",
        "Ciao a tutti",
    );
    assert_eq!(
        desktop_prompt("auto", "zz"),
        "You are a professional translator. Detect the source language automatically. Translate the following text to Italian. Provide ONLY the translation, nothing else. Maintain the original formatting and tone."
    );
}

#[test]
fn endpoint_and_header() {
    assert_eq!(chat_completions_url(), "https://api.groq.com/openai/v1/chat/completions");
    assert_eq!(authorization_header("gsk_abc"), "Bearer gsk_abc");
}
