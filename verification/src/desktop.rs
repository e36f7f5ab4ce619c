//! The decisions of the desktop window: the model and key settings, the
//! language swap, the character count, and starting and finishing a
//! translation.
use vstd::prelude::*;
use vstd::string::StringExecFns;

use crate::catalog::{
    find_first, language_code, language_codes, language_names, lemma_first_match_is_find_first,
    lemma_model_lookup_finds_model, lemma_targets_follow_sources, model_id, model_ids,
    model_index, model_name, model_names, position_of, target_language_code,
    target_language_codes, target_language_names, LANGUAGE_COUNT, MODEL_COUNT, TARGET_LANGUAGE_COUNT,
};
use crate::config::{config_file_content, config_file_content_spec};
use crate::text::{decimal_chars, decimal_string, is_blank, trim_chars};

verus! {

broadcast use vstd::string::group_string_axioms;

/// The name shown for the model `model_id`: its display name, or the
/// identifier itself for a model the catalog does not list.
pub open spec fn shown_model_name(model_id: Seq<char>) -> Seq<char> {
    match find_first(model_ids(), model_id) {
        Some(i) => model_names()[i],
        None => model_id,
    }
}

/// The subtitle under the window's title for a given model name.
pub open spec fn subtitle_spec(name: Seq<char>) -> Seq<char> {
    "Groq API  ·  "@ + name
}

/// The subtitle for the model `model_id`.
pub fn subtitle_text(model_id: &str) -> (r: String)
    ensures
        r@ == subtitle_spec(shown_model_name(model_id@)),
{
    let mut r = "Groq API  ·  ".to_owned();
    match model_index(model_id) {
        Some(i) => r.append(model_name(i)),
        None => r.append(model_id),
    }
    r
}

/// The position the model list starts at: the configured model's, or the
/// first where the catalog does not list it.
pub fn initial_model_index(model_id: &str) -> (r: usize)
    ensures
        r < MODEL_COUNT,
        r == match find_first(model_ids(), model_id@) {
            Some(i) => i,
            None => 0,
        },
{
    match model_index(model_id) {
        Some(i) => i,
        None => 0,
    }
}

/// A change of model from the settings list.
pub struct ModelChange {
    /// The identifier that later requests use.
    pub model_id: String,
    pub subtitle: String,
    pub status: String,
}

/// The change that choosing position `index` of the model list makes; none
/// for a position past the list.
pub fn select_model(index: usize) -> (r: Option<ModelChange>)
    ensures
        (r is Some) == (index < MODEL_COUNT),
        r matches Some(c) ==> c.model_id@ == model_ids()[index as int] && c.subtitle@
            == subtitle_spec(model_names()[index as int]) && c.status@ == "Modello cambiato: "@
            + model_names()[index as int],
{
    if index >= MODEL_COUNT {
        return None;
    }
    let name = model_name(index);
    let mut subtitle = "Groq API  ·  ".to_owned();
    subtitle.append(name);
    let mut status = "Modello cambiato: ".to_owned();
    status.append(name);
    Some(ModelChange { model_id: model_id(index).to_owned(), subtitle, status })
}

/// A model chosen from the list is shown under its own name whichever way
/// the subtitle is made: when the window opens with it configured, and when it
/// is chosen; and the window opens with the list at its position.
pub proof fn lemma_chosen_model_shown_alike(index: int)
    requires
        0 <= index < MODEL_COUNT,
    ensures
        find_first(model_ids(), model_ids()[index]) == Some(index),
        shown_model_name(model_ids()[index]) == model_names()[index],
{
    lemma_model_lookup_finds_model(index);
    lemma_first_match_is_find_first(model_ids(), model_ids()[index], Some(index as usize));
    assert(position_of(Some(index as usize)) == Some(index));
}

/// What pressing the save button does.
pub enum SaveOutcome {
    /// Nothing is saved; the status line says why.
    Rejected { status: String },
    /// The key is taken and the settings file is rewritten with `config`.
    Saved { api_key: String, config: String, status: String },
}

/// Saves the key typed in the settings, with the current model and the
/// configured target language; an empty key is refused.
pub fn save_settings(new_key: &str, model: &str, target_language: &str) -> (r: SaveOutcome)
    ensures
        match r {
            SaveOutcome::Rejected { status } => new_key@.len() == 0 && status@
                == "Errore: API key non può essere vuota"@,
            SaveOutcome::Saved { api_key, config, status } => new_key@.len() > 0 && api_key@
                == new_key@ && config@ == config_file_content_spec(
                new_key@,
                target_language@,
                model@,
            ) && status@ == "Impostazioni salvate!"@,
        },
{
    if new_key.is_empty() {
        return SaveOutcome::Rejected { status: "Errore: API key non può essere vuota".to_owned() };
    }
    SaveOutcome::Saved {
        api_key: new_key.to_owned(),
        config: config_file_content(new_key, target_language, model),
        status: "Impostazioni salvate!".to_owned(),
    }
}

/// Showing or hiding the typed key: the new visibility and the button's new
/// label.
pub fn toggle_key_visibility(visible: bool) -> (r: (bool, &'static str))
    ensures
        r.0 == !visible,
        visible ==> r.1@ == "Mostra"@,
        !visible ==> r.1@ == "Nascondi"@,
{
    if visible {
        (false, "Mostra")
    } else {
        (true, "Nascondi")
    }
}

/// The two panes after a swap: the source list's new position, the target
/// list's new position where it changes, and the two texts, exchanged.
pub struct LanguageSwap {
    pub source_selected: u32,
    pub target_selected: Option<u32>,
    pub source_text: String,
    pub target_text: String,
}

/// The positions after a swap: the source takes the position of the old
/// target (one further down, past the detecting entry), and the target takes
/// that of the old source unless the source was the detecting entry.
pub open spec fn swap_spec(source_selected: u32, target_selected: u32) -> (u32, u32) {
    (
        (target_selected + 1) as u32,
        if source_selected > 0 {
            (source_selected - 1) as u32
        } else {
            target_selected
        },
    )
}

/// Swaps the source and target languages, and the source and target texts.
pub fn swap_languages(
    source_selected: u32,
    target_selected: u32,
    source_text: String,
    target_text: String,
) -> (r: LanguageSwap)
    requires
        target_selected < u32::MAX,
    ensures
        r.source_selected == swap_spec(source_selected, target_selected).0,
        (r.target_selected is Some) == (source_selected > 0),
        r.target_selected matches Some(t) ==> t == swap_spec(source_selected, target_selected).1,
        r.source_text == target_text,
        r.target_text == source_text,
        r.source_selected == target_selected + 1,
        r.target_selected matches Some(t) ==> t + 1 == source_selected,
{
    proof {
        lemma_swap_positions(source_selected, target_selected);
    }
    let target = if source_selected > 0 {
        Some(source_selected - 1)
    } else {
        None
    };
    LanguageSwap {
        source_selected: target_selected + 1,
        target_selected: target,
        source_text: target_text,
        target_text: source_text,
    }
}

/// Where a swap puts the lists, over all positions: the source list always
/// moves to the old target's entry, one position further down past the
/// detecting entry, the detecting entry included; the target list moves to
/// the old source's entry, and stays where it was when the source was the
/// detecting entry.
pub proof fn lemma_swap_positions(source_selected: u32, target_selected: u32)
    requires
        target_selected < u32::MAX,
    ensures
        swap_spec(source_selected, target_selected).0 == target_selected + 1,
        source_selected > 0 ==> swap_spec(source_selected, target_selected).1 + 1
            == source_selected,
        source_selected == 0 ==> swap_spec(source_selected, target_selected).1 == target_selected,
{
}

/// The old target language always becomes the source language, whatever the
/// source was, the detecting entry included.
pub proof fn lemma_swap_moves_target_to_source(source_selected: u32, target_selected: u32)
    requires
        source_selected < LANGUAGE_COUNT,
        target_selected < TARGET_LANGUAGE_COUNT,
    ensures
        swap_spec(source_selected, target_selected).0 < LANGUAGE_COUNT,
        language_codes()[swap_spec(source_selected, target_selected).0 as int]
            == target_language_codes()[target_selected as int],
        language_names()[swap_spec(source_selected, target_selected).0 as int]
            == target_language_names()[target_selected as int],
{
    lemma_targets_follow_sources();
    assert(language_codes()[target_selected + 1] == target_language_codes()[target_selected as int]);
}

/// Swapping twice restores both languages, where the source is not the
/// detecting entry.
pub proof fn lemma_swap_twice(source_selected: u32, target_selected: u32)
    requires
        source_selected > 0,
        target_selected < u32::MAX,
    ensures
        swap_spec(source_selected, target_selected).1 < u32::MAX,
        ({
            let (s, t) = swap_spec(source_selected, target_selected);
            swap_spec(s, t) == (source_selected, target_selected)
        }),
{
}

/// A swap exchanges the languages: the new source is the old target language
/// and the new target the old source language.
pub proof fn lemma_swap_exchanges_languages(source_selected: u32, target_selected: u32)
    requires
        0 < source_selected < LANGUAGE_COUNT,
        target_selected < TARGET_LANGUAGE_COUNT,
    ensures
        ({
            let (s, t) = swap_spec(source_selected, target_selected);
            &&& s < LANGUAGE_COUNT && t < TARGET_LANGUAGE_COUNT
            &&& language_codes()[s as int] == target_language_codes()[target_selected as int]
            &&& target_language_codes()[t as int] == language_codes()[source_selected as int]
        }),
{
    lemma_targets_follow_sources();
    assert(language_codes()[target_selected + 1] == target_language_codes()[target_selected as int]);
    assert(language_codes()[(source_selected - 1) + 1] == target_language_codes()[source_selected
        - 1]);
}

/// The character count under the source text: its length in UTF-8 bytes.
pub fn char_count_label(text: &str) -> (r: String)
    ensures
        r@ == decimal_chars(text.len() as nat) + " caratteri"@,
{
    let mut r = decimal_string(text.len());
    r.append(" caratteri");
    r
}

/// A translation to run: the text and the codes of its languages.
pub struct TranslationJob {
    pub text: String,
    pub source_code: String,
    pub target_code: String,
    /// The status line while the translation runs.
    pub status: String,
    /// The translate button's label while the translation runs.
    pub button_label: String,
}

/// What pressing the translate button starts: nothing for a text of white
/// space only (the status line asks for text), else a translation between the
/// languages at the chosen positions.
pub fn start_translation(text: &str, source_index: usize, target_index: usize) -> (r: Result<
    TranslationJob,
    String,
>)
    requires
        trim_chars(text@).len() == 0 || (source_index < LANGUAGE_COUNT && target_index
            < TARGET_LANGUAGE_COUNT),
    ensures
        (r is Err) == (trim_chars(text@).len() == 0),
        r matches Err(status) ==> status@ == "Inserisci del testo da tradurre"@,
        r matches Ok(job) ==> job.text@ == text@ && job.source_code@
            == language_codes()[source_index as int] && job.target_code@
            == target_language_codes()[target_index as int] && job.status@
            == "Traduzione in corso..."@ && job.button_label@ == "..."@,
{
    if is_blank(text) {
        return Err("Inserisci del testo da tradurre".to_owned());
    }
    Ok(
        TranslationJob {
            text: text.to_owned(),
            source_code: language_code(source_index).to_owned(),
            target_code: target_language_code(target_index).to_owned(),
            status: "Traduzione in corso...".to_owned(),
            button_label: "...".to_owned(),
        },
    )
}

/// What a look at the running translation finds.
pub enum PollEvent {
    /// The translation, or the text of its error.
    Finished(Result<String, String>),
    /// Nothing yet.
    Pending,
    /// The translation was lost.
    Disconnected,
}

/// What the window does after a look at the running translation.
pub struct PollOutcome {
    /// A translation to show and to copy to the clipboard.
    pub translation: Option<String>,
    /// A new status line.
    pub status: Option<String>,
    /// Whether the translate button is enabled again and labelled "Traduci".
    pub restore_button: bool,
    /// Whether to look again later.
    pub keep_polling: bool,
}

/// The translate button's label when idle.
pub fn translate_button_label() -> (r: &'static str)
    ensures
        r@ == "Traduci"@,
{
    "Traduci"
}

/// Handles one look at the running translation: it is shown and copied when it
/// comes, its error or the loss is reported, and the window keeps looking only
/// while nothing has come.
pub fn on_translation_poll(event: PollEvent) -> (r: PollOutcome)
    ensures
        r.keep_polling == (event is Pending),
        r.restore_button == !(event is Pending),
        match event {
            PollEvent::Finished(Ok(t)) => r.translation == Some(t) && (r.status matches Some(s)
                && s@ == "Traduzione completata  ·  Copiata nella clipboard"@),
            PollEvent::Finished(Err(e)) => r.translation is None && (r.status matches Some(s)
                && s@ == "Errore: "@ + e@),
            PollEvent::Pending => r.translation is None && r.status is None,
            PollEvent::Disconnected => r.translation is None && (r.status matches Some(s)
                && s@ == "Errore: connessione persa"@),
        },
{
    match event {
        PollEvent::Finished(Ok(t)) => PollOutcome {
            translation: Some(t),
            status: Some("Traduzione completata  ·  Copiata nella clipboard".to_owned()),
            restore_button: true,
            keep_polling: false,
        },
        PollEvent::Finished(Err(e)) => {
            let mut s = "Errore: ".to_owned();
            s.append(e.as_str());
            PollOutcome { translation: None, status: Some(s), restore_button: true, keep_polling: false }
        },
        PollEvent::Pending => PollOutcome {
            translation: None,
            status: None,
            restore_button: false,
            keep_polling: true,
        },
        PollEvent::Disconnected => PollOutcome {
            translation: None,
            status: Some("Errore: connessione persa".to_owned()),
            restore_button: true,
            keep_polling: false,
        },
    }
}

} // verus!
