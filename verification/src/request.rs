//! The chat-completion request that asks a model for a translation, with the
//! instructions for the popup and for the desktop window.
use vstd::prelude::*;
use vstd::string::StringExecFns;

use crate::catalog::{
    default_model, default_model_spec, find_first, index_of, language_code_table, language_codes,
    language_name, language_names, lemma_language_lookup, lemma_target_lookup,
    lemma_targets_follow_sources, target_language_code_table, target_language_codes,
    target_language_name, target_language_names, views, LANGUAGE_COUNT, TARGET_LANGUAGE_COUNT,
};
use crate::text::str_equal;

verus! {

broadcast use vstd::string::group_string_axioms;

/// One message of a chat: who speaks, and what.
pub struct GroqMessage {
    pub role: String,
    pub content: String,
}

/// A chat-completion request. The sampling temperature is kept in tenths.
pub struct GroqRequest {
    pub model: String,
    pub messages: Vec<GroqMessage>,
    pub temperature_tenths: u32,
    pub max_tokens: u32,
}

/// The sampling temperature of every request, in tenths.
pub const TEMPERATURE_TENTHS: u32 = 3;

/// The token limit of a popup translation.
pub const POPUP_MAX_TOKENS: u32 = 2000;

/// The token limit of a desktop translation.
pub const DESKTOP_MAX_TOKENS: u32 = 4000;

/// The address of the chat-completion service.
pub fn chat_completions_url() -> (r: &'static str)
    ensures
        r@ == "https://api.groq.com/openai/v1/chat/completions"@,
{
    "https://api.groq.com/openai/v1/chat/completions"
}

/// The value of the `Authorization` header for `api_key`.
pub fn authorization_header(api_key: &str) -> (r: String)
    ensures
        r@ == "Bearer "@ + api_key@,
{
    let mut r = "Bearer ".to_owned();
    r.append(api_key);
    r
}

/// The language codes the popup knows by their English names.
pub open spec fn popup_language_codes() -> Seq<Seq<char>> {
    seq![
        "it"@,
        "en"@,
        "es"@,
        "fr"@,
        "de"@,
        "pt"@,
        "ru"@,
        "zh"@,
        "ja"@,
        "ko"@,
        "nl"@,
        "pl"@,
        "sv"@,
        "ar"@,
        "tr"@,
    ]
}

/// The English names of the popup's languages, position by position with
/// `popup_language_codes`.
pub open spec fn popup_language_names() -> Seq<Seq<char>> {
    seq![
        "Italian"@,
        "English"@,
        "Spanish"@,
        "French"@,
        "German"@,
        "Portuguese"@,
        "Russian"@,
        "Chinese"@,
        "Japanese"@,
        "Korean"@,
        "Dutch"@,
        "Polish"@,
        "Swedish"@,
        "Arabic"@,
        "Turkish"@,
    ]
}

/// The popup knows every language the desktop window translates to, under
/// the same codes in the same order.
pub proof fn lemma_popup_knows_every_target_language()
    ensures
        popup_language_codes() == target_language_codes(),
{
    assert(popup_language_codes() =~= target_language_codes());
}

/// The English name the popup gives the language `code`: Italian for a code
/// it does not know.
pub open spec fn popup_target_name_spec(code: Seq<char>) -> Seq<char> {
    match find_first(popup_language_codes(), code) {
        Some(i) => popup_language_names()[i],
        None => "Italian"@,
    }
}

/// The English name of the language `code`, for the popup's instructions.
pub fn popup_target_name(code: &str) -> (r: &'static str)
    ensures
        r@ == popup_target_name_spec(code@),
        forall|i: int|
            0 <= i < popup_language_codes().len() && code@ == popup_language_codes()[i] ==> r@
                == popup_language_names()[i],
        (forall|i: int| 0 <= i < popup_language_codes().len() ==> code@ != popup_language_codes()[i])
            ==> r@ == "Italian"@,
{
    proof {
        lemma_popup_names(code@);
    }
    let codes = vec![
        "it",
        "en",
        "es",
        "fr",
        "de",
        "pt",
        "ru",
        "zh",
        "ja",
        "ko",
        "nl",
        "pl",
        "sv",
        "ar",
        "tr",
    ];
    let names = vec![
        "Italian",
        "English",
        "Spanish",
        "French",
        "German",
        "Portuguese",
        "Russian",
        "Chinese",
        "Japanese",
        "Korean",
        "Dutch",
        "Polish",
        "Swedish",
        "Arabic",
        "Turkish",
    ];
    assert(views(codes@) =~= popup_language_codes());
    assert(views(names@) =~= popup_language_names());
    match index_of(&codes, code) {
        Some(i) => names[i],
        None => "Italian",
    }
}

/// The popup's instructions to the model, for a target language named `target`.
pub open spec fn popup_prompt_spec(target: Seq<char>) -> Seq<char> {
    "You are a professional translator. Detect the source language. If the text is already in "@
        + target + ", translate it to English. Otherwise translate it to "@ + target
        + ". Provide ONLY the translation, nothing else. Maintain the original formatting and tone."@
}

/// The popup's instructions to the model.
pub fn popup_prompt(target: &str) -> (r: String)
    ensures
        r@ == popup_prompt_spec(target@),
{
    let mut r =
        "You are a professional translator. Detect the source language. If the text is already in "
        .to_owned();
    r.append(target);
    r.append(", translate it to English. Otherwise translate it to ");
    r.append(target);
    r.append(
        ". Provide ONLY the translation, nothing else. Maintain the original formatting and tone.",
    );
    r
}

/// A request of two messages: the instructions, then the text.
pub open spec fn is_chat_request(
    r: GroqRequest,
    model: Seq<char>,
    instructions: Seq<char>,
    text: Seq<char>,
    max_tokens: u32,
) -> bool {
    &&& r.model@ == model
    &&& r.messages@.len() == 2
    &&& r.messages@[0].role@ == "system"@
    &&& r.messages@[0].content@ == instructions
    &&& r.messages@[1].role@ == "user"@
    &&& r.messages@[1].content@ == text
    &&& r.temperature_tenths == TEMPERATURE_TENTHS
    &&& r.max_tokens == max_tokens
}

fn chat_request(model: &str, instructions: String, text: &str, max_tokens: u32) -> (r: GroqRequest)
    ensures
        is_chat_request(r, model@, instructions@, text@, max_tokens),
{
    let system = GroqMessage { role: "system".to_owned(), content: instructions };
    let user = GroqMessage { role: "user".to_owned(), content: text.to_owned() };
    let mut messages: Vec<GroqMessage> = Vec::new();
    messages.push(system);
    messages.push(user);
    GroqRequest {
        model: model.to_owned(),
        messages,
        temperature_tenths: TEMPERATURE_TENTHS,
        max_tokens,
    }
}

/// The popup's request: the default model is asked to translate `text` to the
/// language `target_lang`, or to English where it is already in that language.
pub fn popup_request(text: &str, target_lang: &str) -> (r: GroqRequest)
    ensures
        is_chat_request(
            r,
            default_model_spec(),
            popup_prompt_spec(popup_target_name_spec(target_lang@)),
            text@,
            POPUP_MAX_TOKENS,
        ),
{
    let name = popup_target_name(target_lang);
    chat_request(default_model(), popup_prompt(name), text, POPUP_MAX_TOKENS)
}

/// What the desktop window says of the source language `source`: to detect it
/// for `auto`, else its name, or the code itself where no language has it.
pub open spec fn source_instruction_spec(source: Seq<char>) -> Seq<char> {
    if source == "auto"@ {
        "Detect the source language automatically."@
    } else {
        let name = match find_first(language_codes(), source) {
            Some(i) => language_names()[i],
            None => source,
        };
        "The source language is "@ + name + "."@
    }
}

/// The desktop window's sentence on the source language.
pub fn source_instruction(source: &str) -> (r: String)
    ensures
        r@ == source_instruction_spec(source@),
        source@ == "auto"@ ==> r@ == "Detect the source language automatically."@,
        forall|i: int|
            1 <= i < LANGUAGE_COUNT && source@ == language_codes()[i] ==> r@
                == "The source language is "@ + language_names()[i] + "."@,
        (forall|i: int| 0 <= i < LANGUAGE_COUNT ==> source@ != language_codes()[i]) ==> r@
            == "The source language is "@ + source@ + "."@,
{
    proof {
        lemma_source_instructions(source@);
    }
    if str_equal(source, "auto") {
        return "Detect the source language automatically.".to_owned();
    }
    let mut r = "The source language is ".to_owned();
    match index_of(&language_code_table(), source) {
        Some(i) => r.append(language_name(i)),
        None => r.append(source),
    }
    r.append(".");
    r
}

/// The name the desktop window gives the target language `target`: Italian
/// where no target language has that code.
pub open spec fn target_name_spec(target: Seq<char>) -> Seq<char> {
    match find_first(target_language_codes(), target) {
        Some(i) => target_language_names()[i],
        None => "Italian"@,
    }
}

/// The name of the target language `target`.
pub fn target_name(target: &str) -> (r: &'static str)
    ensures
        r@ == target_name_spec(target@),
        forall|i: int|
            0 <= i < TARGET_LANGUAGE_COUNT && target@ == target_language_codes()[i] ==> r@
                == target_language_names()[i],
        (forall|i: int| 0 <= i < TARGET_LANGUAGE_COUNT ==> target@ != target_language_codes()[i])
            ==> r@ == "Italian"@,
{
    proof {
        lemma_target_names(target@);
    }
    match index_of(&target_language_code_table(), target) {
        Some(i) => target_language_name(i),
        None => "Italian",
    }
}

/// The desktop window's instructions to the model.
pub open spec fn desktop_prompt_spec(source: Seq<char>, target: Seq<char>) -> Seq<char> {
    "You are a professional translator. "@ + source_instruction_spec(source)
        + " Translate the following text to "@ + target_name_spec(target)
        + ". Provide ONLY the translation, nothing else. Maintain the original formatting and tone."@
}

/// The desktop window's instructions for the language pair `source`, `target`.
pub fn desktop_prompt(source: &str, target: &str) -> (r: String)
    ensures
        r@ == desktop_prompt_spec(source@, target@),
{
    let mut r = "You are a professional translator. ".to_owned();
    let instruction = source_instruction(source);
    r.append(instruction.as_str());
    r.append(" Translate the following text to ");
    r.append(target_name(target));
    r.append(
        ". Provide ONLY the translation, nothing else. Maintain the original formatting and tone.",
    );
    r
}

/// The desktop window's request: `model` is asked to translate `text` from
/// `source_lang` to `target_lang`.
pub fn translate_request(model: &str, text: &str, source_lang: &str, target_lang: &str) -> (r:
    GroqRequest)
    ensures
        is_chat_request(
            r,
            model@,
            desktop_prompt_spec(source_lang@, target_lang@),
            text@,
            DESKTOP_MAX_TOKENS,
        ),
{
    chat_request(model, desktop_prompt(source_lang, target_lang), text, DESKTOP_MAX_TOKENS)
}

/// The popup names each language it knows by that language's own English
/// name, and Italian any code it does not know.
pub proof fn lemma_popup_names(code: Seq<char>)
    ensures
        forall|i: int|
            0 <= i < popup_language_codes().len() ==> #[trigger] popup_target_name_spec(
                popup_language_codes()[i],
            ) == popup_language_names()[i],
        forall|i: int|
            0 <= i < popup_language_codes().len() && code == popup_language_codes()[i] ==> popup_target_name_spec(code) == popup_language_names()[i],
        (forall|i: int| 0 <= i < popup_language_codes().len() ==> code != popup_language_codes()[i])
            ==> popup_target_name_spec(code) == "Italian"@,
{
    lemma_popup_knows_every_target_language();
    lemma_target_lookup(code);
    assert forall|i: int| 0 <= i < popup_language_codes().len() implies #[trigger] popup_target_name_spec(
        popup_language_codes()[i],
    ) == popup_language_names()[i] by {
        assert(find_first(target_language_codes(), target_language_codes()[i]) == Some(i));
    }
}

/// The desktop window names each target language by its own entry, and
/// Italian any code that no target language has.
pub proof fn lemma_target_names(target: Seq<char>)
    ensures
        forall|i: int|
            0 <= i < TARGET_LANGUAGE_COUNT ==> #[trigger] target_name_spec(
                target_language_codes()[i],
            ) == target_language_names()[i],
        forall|i: int|
            0 <= i < TARGET_LANGUAGE_COUNT && target == target_language_codes()[i] ==> target_name_spec(target) == target_language_names()[i],
        (forall|i: int| 0 <= i < TARGET_LANGUAGE_COUNT ==> target != target_language_codes()[i])
            ==> target_name_spec(target) == "Italian"@,
{
    lemma_target_lookup(target);
    assert forall|i: int| 0 <= i < TARGET_LANGUAGE_COUNT implies #[trigger] target_name_spec(
        target_language_codes()[i],
    ) == target_language_names()[i] by {
        assert(find_first(target_language_codes(), target_language_codes()[i]) == Some(i));
    }
}

/// The desktop window's sentence on the source language: detection for the
/// detecting entry, each listed language by its own name, and any other code
/// by the code itself.
pub proof fn lemma_source_instructions(source: Seq<char>)
    ensures
        source_instruction_spec("auto"@) == "Detect the source language automatically."@,
        forall|i: int|
            1 <= i < LANGUAGE_COUNT ==> #[trigger] source_instruction_spec(language_codes()[i])
                == "The source language is "@ + language_names()[i] + "."@,
        source == "auto"@ ==> source_instruction_spec(source)
            == "Detect the source language automatically."@,
        forall|i: int|
            1 <= i < LANGUAGE_COUNT && source == language_codes()[i] ==> source_instruction_spec(source)
                == "The source language is "@ + language_names()[i] + "."@,
        (forall|i: int| 0 <= i < LANGUAGE_COUNT ==> source != language_codes()[i])
            ==> source_instruction_spec(source) == "The source language is "@ + source + "."@,
{
    lemma_language_lookup(source);
    assert(language_codes()[0] == "auto"@);
    assert forall|i: int| 1 <= i < LANGUAGE_COUNT implies #[trigger] source_instruction_spec(
        language_codes()[i],
    ) == "The source language is "@ + language_names()[i] + "."@ by {
        assert(find_first(language_codes(), language_codes()[i]) == Some(i));
        assert(language_codes()[i] != language_codes()[0]);
    }
}

/// The desktop window's instructions for a pair of listed languages name the
/// source language and the target language by their entries, in that order.
pub proof fn lemma_desktop_prompt_names_languages(source_index: int, target_index: int)
    requires
        1 <= source_index < LANGUAGE_COUNT,
        0 <= target_index < TARGET_LANGUAGE_COUNT,
    ensures
        desktop_prompt_spec(
            language_codes()[source_index],
            target_language_codes()[target_index],
        ) == "You are a professional translator. The source language is "@
            + language_names()[source_index] + ". Translate the following text to "@
            + target_language_names()[target_index]
            + ". Provide ONLY the translation, nothing else. Maintain the original formatting and tone."@,
        desktop_prompt_spec("auto"@, target_language_codes()[target_index])
            == "You are a professional translator. Detect the source language automatically. Translate the following text to "@
            + target_language_names()[target_index]
            + ". Provide ONLY the translation, nothing else. Maintain the original formatting and tone."@,
{
    lemma_source_instructions(language_codes()[source_index]);
    lemma_target_names(target_language_codes()[target_index]);
    reveal_strlit("You are a professional translator. ");
    reveal_strlit("The source language is ");
    reveal_strlit(".");
    reveal_strlit(" Translate the following text to ");
    reveal_strlit("You are a professional translator. The source language is ");
    reveal_strlit(". Translate the following text to ");
    reveal_strlit("Detect the source language automatically.");
    reveal_strlit("You are a professional translator. Detect the source language automatically. Translate the following text to ");
    assert(desktop_prompt_spec(language_codes()[source_index], target_language_codes()[target_index])
        =~= "You are a professional translator. The source language is "@
            + language_names()[source_index] + ". Translate the following text to "@
            + target_language_names()[target_index]
            + ". Provide ONLY the translation, nothing else. Maintain the original formatting and tone."@);
    assert(desktop_prompt_spec("auto"@, target_language_codes()[target_index])
        =~= "You are a professional translator. Detect the source language automatically. Translate the following text to "@
            + target_language_names()[target_index]
            + ". Provide ONLY the translation, nothing else. Maintain the original formatting and tone."@);
}

/// The popup's instructions for a language it knows name that language, by
/// its English name, both as the language a text may already be in and as
/// the language to translate to.
pub proof fn lemma_popup_prompt_names_language(i: int)
    requires
        0 <= i < popup_language_codes().len(),
    ensures
        popup_prompt_spec(popup_target_name_spec(popup_language_codes()[i]))
            == "You are a professional translator. Detect the source language. If the text is already in "@
            + popup_language_names()[i] + ", translate it to English. Otherwise translate it to "@
            + popup_language_names()[i]
            + ". Provide ONLY the translation, nothing else. Maintain the original formatting and tone."@,
{
    lemma_popup_names(popup_language_codes()[i]);
}

} // verus!
