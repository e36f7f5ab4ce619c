use quick_translate::catalog::{language_code, model_id, model_name, target_language_code, MODEL_COUNT};
use quick_translate::keys::{desktop_key_action, popup_key_action, KeyAction, KeyPress};
use quick_translate::desktop::{
    char_count_label, initial_model_index, on_translation_poll, save_settings, select_model,
    start_translation, subtitle_text, swap_languages, toggle_key_visibility,
    translate_button_label, PollEvent, SaveOutcome,
};
use quick_translate::window::{
    initial_window_state, on_activate, on_close_request, on_tray_message, tray_click_action,
    CloseDecision, TrayAction, WindowEffect, WindowState,
};

#[test]
fn subtitle_names_known_model_or_shows_id() {
    assert_eq!(subtitle_text("gemma2-9b-it"), "Groq API  ·  Gemma 2 9B");
    assert_eq!(subtitle_text("custom-model"), "Groq API  ·  custom-model");
}

#[test]
fn initial_model_position() {
    assert_eq!(initial_model_index("mixtral-8x7b-32768"), 4);
    assert_eq!(initial_model_index("unknown"), 0);
}

#[test]
fn choosing_a_model() {
    let c = select_model(1).unwrap();
    assert_eq!(c.model_id, "llama-3.3-70b-versatile");
    assert_eq!(c.subtitle, "Groq API  ·  Llama 3.3 70B");
    assert_eq!(c.status, "Modello cambiato: Llama 3.3 70B");
    assert!(select_model(6).is_none());
    assert!(select_model(usize::MAX).is_none());
}

#[test]
fn saving_settings() {
    match save_settings("", "m", "it") {
        SaveOutcome::Rejected { status } => {
            assert_eq!(status, "Errore: API key non può essere vuota")
        }
        _ => panic!("an empty key is refused"),
    }
    match save_settings("gsk_x", "llama-3.1-8b-instant", "en") {
        SaveOutcome::Saved { api_key, config, status } => {
            assert_eq!(api_key, "gsk_x");
            assert_eq!(config, "GROQ_API_KEY=gsk_x\nTARGET_LANGUAGE=en\nMODEL=llama-3.1-8b-instant\n");
            assert_eq!(status, "Impostazioni salvate!");
        }
        _ => panic!("a key is saved"),
    }
}

#[test]
fn key_visibility_button() {
    assert_eq!(toggle_key_visibility(true), (false, "Mostra"));
    assert_eq!(toggle_key_visibility(false), (true, "Nascondi"));
}

#[test]
fn swapping_languages() {
    let s = swap_languages(3, 0, "Hola".to_string(), "Ciao".to_string());
    assert_eq!(s.source_selected, 1);
    assert_eq!(s.target_selected, Some(2));
    assert_eq!(s.source_text, "Ciao");
    assert_eq!(s.target_text, "Hola");
    let back = swap_languages(s.source_selected, s.target_selected.unwrap(), s.source_text, s.target_text);
    assert_eq!(back.source_selected, 3);
    assert_eq!(back.target_selected, Some(0));
    assert_eq!(back.source_text, "Hola");
    assert_eq!(back.target_text, "Ciao");
    let from_auto = swap_languages(0, 4, String::new(), "x".to_string());
    assert_eq!(from_auto.source_text, "x");
    assert_eq!(from_auto.target_text, "");
    assert_eq!(from_auto.source_selected, 5);
    assert_eq!(from_auto.target_selected, None);
}

#[test]
fn character_count_is_in_bytes() {
    assert_eq!(char_count_label(""), "0 caratteri");
    assert_eq!(char_count_label("ciao"), "4 caratteri");
    assert_eq!(char_count_label("perché"), "7 caratteri");
    assert_eq!(char_count_label("中文"), "6 caratteri");
}

#[test]
fn starting_a_translation() {
    assert_eq!(start_translation("  \n", 0, 0).err().unwrap(), "Inserisci del testo da tradurre");
    let job = start_translation("Hello", 0, 3).ok().unwrap();
    assert_eq!(job.text, "Hello");
    assert_eq!(job.source_code, "auto");
    assert_eq!(job.target_code, "fr");
    assert_eq!(job.status, "Traduzione in corso...");
    assert_eq!(job.button_label, "...");
    let job = start_translation("Hallo", 5, 0).ok().unwrap();
    assert_eq!(job.source_code, "de");
    assert_eq!(job.target_code, "it");
}

#[test]
fn polling_the_translation() {
    let o = on_translation_poll(PollEvent::Pending);
    assert!(o.keep_polling && !o.restore_button && o.translation.is_none() && o.status.is_none());
    let o = on_translation_poll(PollEvent::Finished(Ok("Hi".to_string())));
    assert!(!o.keep_polling && o.restore_button);
    assert_eq!(o.translation.as_deref(), Some("Hi"));
    assert_eq!(o.status.as_deref(), Some("Traduzione completata  ·  Copiata nella clipboard"));
    let o = on_translation_poll(PollEvent::Finished(Err("timeout".to_string())));
    assert!(!o.keep_polling && o.restore_button && o.translation.is_none());
    assert_eq!(o.status.as_deref(), Some("Errore: timeout"));
    let o = on_translation_poll(PollEvent::Disconnected);
    assert!(!o.keep_polling && o.restore_button && o.translation.is_none());
    assert_eq!(o.status.as_deref(), Some("Errore: connessione persa"));
    assert_eq!(translate_button_label(), "Traduci");
}

#[test]
fn tray_toggles_and_quits() {
    let s0 = initial_window_state();
    assert!(!s0.visible && !s0.quit_requested);
    assert!(tray_click_action() == TrayAction::ToggleWindow);
    let a = on_tray_message(s0, Some(TrayAction::ToggleWindow));
    assert!(a.state.visible && a.effect == WindowEffect::ShowAndPresent && a.keep_listening);
    let b = on_tray_message(a.state, Some(TrayAction::ToggleWindow));
    assert!(b.state == s0 && b.effect == WindowEffect::Hide && b.keep_listening);
    let idle = on_tray_message(a.state, None);
    assert!(idle.state == a.state && idle.effect == WindowEffect::Nothing && idle.keep_listening);
    let q = on_tray_message(a.state, Some(TrayAction::Quit));
    assert!(q.state.quit_requested && q.effect == WindowEffect::QuitApplication && !q.keep_listening);
}

#[test]
fn closing_hides_until_quit() {
    let shown = WindowState { visible: true, quit_requested: false };
    let (after, decision) = on_close_request(shown);
    assert!(decision == CloseDecision::HideInTray && !after.visible);
    let quitting = WindowState { visible: true, quit_requested: true };
    let (after, decision) = on_close_request(quitting);
    assert!(decision == CloseDecision::Close && after == quitting);
    let (after, effect) = on_activate(WindowState { visible: false, quit_requested: false });
    assert!(after.visible && effect == WindowEffect::ShowAndPresent);
}

#[test]
fn chosen_model_is_shown_alike() {
    for i in 0..MODEL_COUNT {
        let change = select_model(i).unwrap();
        assert_eq!(subtitle_text(model_id(i)), change.subtitle);
        assert_eq!(initial_model_index(model_id(i)), i);
        assert!(change.subtitle.ends_with(model_name(i)));
    }
}

#[test]
fn swap_exchanges_language_codes() {
    for s in 1u32..16 {
        for t in 0u32..15 {
            let r = swap_languages(s, t, String::new(), String::new());
            assert_eq!(language_code(r.source_selected as usize), target_language_code(t as usize));
            assert_eq!(
                target_language_code(r.target_selected.unwrap() as usize),
                language_code(s as usize)
            );
            let back = swap_languages(r.source_selected, r.target_selected.unwrap(), String::new(), String::new());
            assert_eq!((back.source_selected, back.target_selected), (s, Some(t)));
        }
    }
}

#[test]
fn shortcuts() {
    assert!(popup_key_action(KeyPress::Escape) == KeyAction::ClosePopup);
    assert!(popup_key_action(KeyPress::Return { control: true }) == KeyAction::Pass);
    assert!(popup_key_action(KeyPress::Other) == KeyAction::Pass);
    assert!(desktop_key_action(KeyPress::Return { control: true }) == KeyAction::Translate);
    assert!(desktop_key_action(KeyPress::Return { control: false }) == KeyAction::Pass);
    assert!(desktop_key_action(KeyPress::Escape) == KeyAction::Pass);
}
