use quick_translate::clipboard::{clipboard_for_translation, clipboard_text, ClipboardError};
use quick_translate::config::{
    config_file_content, config_file_relative_path, env_source, model_or_default,
    popup_settings, target_language_or_default, EnvSource,
};
use quick_translate::icon::{icon_pixmap, ICON_SIZE};
use quick_translate::popup::popup_close_seconds;

#[test]
fn failed_paste_is_empty_text() {
    let r = clipboard_text(false, b"ignored".to_vec());
    assert!(matches!(r, Ok(ref t) if t.is_empty()));
}

#[test]
fn paste_output_is_decoded() {
    let r = clipboard_text(true, "perché".as_bytes().to_vec());
    assert!(matches!(r, Ok(ref t) if t == "perché"));
    let r = clipboard_text(true, vec![0x66, 0xff, 0x66]);
    assert!(matches!(r, Err(ClipboardError::NotUtf8)));
    let r = clipboard_text(true, vec![0xed, 0xa0, 0x80]);
    assert!(matches!(r, Err(ClipboardError::NotUtf8)));
}

#[test]
fn blank_clipboard_is_not_translated() {
    assert_eq!(clipboard_for_translation(None), None);
    assert_eq!(clipboard_for_translation(Some(" \n\t".to_string())), None);
    assert_eq!(clipboard_for_translation(Some(String::new())), None);
    assert_eq!(clipboard_for_translation(Some(" hi ".to_string())), Some(" hi ".to_string()));
}

#[test]
fn config_file_has_three_lines() {
    assert_eq!(
        config_file_content("gsk_1", "en", "gemma2-9b-it"),
        "GROQ_API_KEY=gsk_1\nTARGET_LANGUAGE=en\nMODEL=gemma2-9b-it\n"
    );
    assert_eq!(config_file_relative_path(), ".config/quick-translate/.env");
}

#[test]
fn defaults_from_environment() {
    assert_eq!(target_language_or_default(None), "it");
    assert_eq!(target_language_or_default(Some("fr".to_string())), "fr");
    assert_eq!(model_or_default(None), "openai/gpt-oss-20b");
    assert_eq!(model_or_default(Some("m".to_string())), "m");
    assert!(matches!(env_source(Some(true)), EnvSource::ConfigFile));
    assert!(matches!(env_source(Some(false)), EnvSource::WorkingDirectory));
    assert!(matches!(env_source(None), EnvSource::WorkingDirectory));
}

#[test]
fn popup_needs_an_api_key() {
    assert!(popup_settings(None, Some("en".to_string())).is_none());
    let s = popup_settings(Some("k".to_string()), None).unwrap();
    assert_eq!(s.api_key, "k");
    assert_eq!(s.target_language, "it");
    let s = popup_settings(Some("k".to_string()), Some("ja".to_string())).unwrap();
    assert_eq!(s.target_language, "ja");
}

#[test]
fn icon_matches_float_drawing() {
    let data = icon_pixmap();
    let size = ICON_SIZE as i32;
    assert_eq!(data.len(), 22 * 22 * 4);
    let mut expected: Vec<u8> = Vec::new();
    for y in 0..size {
        for x in 0..size {
            let cx = (x as f32 - size as f32 / 2.0).abs() / (size as f32 / 2.0);
            let cy = (y as f32 - size as f32 / 2.0).abs() / (size as f32 / 2.0);
            if cx * cx + cy * cy <= 1.0 {
                expected.extend_from_slice(&[255, 53, 132, 209]);
            } else {
                expected.extend_from_slice(&[0, 0, 0, 0]);
            }
        }
    }
    assert_eq!(data, expected);
    assert_eq!(&data[0..4], &[0, 0, 0, 0]);
    assert_eq!(&data[(11 * 22 + 11) * 4..(11 * 22 + 11) * 4 + 4], &[255, 53, 132, 209]);
}

#[test]
fn popup_stays_at_least_five_seconds() {
    assert_eq!(popup_close_seconds(""), 5);
    assert_eq!(popup_close_seconds("una frase breve"), 5);
    let long = "parola ".repeat(30);
    assert_eq!(popup_close_seconds(&long), 10);
    let longer = "w ".repeat(100);
    assert_eq!(popup_close_seconds(&longer), 33);
    assert_eq!(popup_close_seconds(&"x ".repeat(17)), 5);
    assert_eq!(popup_close_seconds(&"x ".repeat(18)), 6);
}
