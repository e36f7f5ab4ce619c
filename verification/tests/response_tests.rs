use quick_translate::response::{
    first_translation, translation_from_reply, GroqChoice, GroqMessageResponse, GroqResponse,
    Reply, TranslateError,
};

fn response(contents: &[&str]) -> GroqResponse {
    GroqResponse {
        choices: contents
            .iter()
            .map(|c| GroqChoice { message: GroqMessageResponse { content: c.to_string() } })
            .collect(),
    }
}

#[test]
fn first_choice_is_the_translation() {
    let r = first_translation(&response(&["Buongiorno", "Salve"]));
    assert!(matches!(r, Ok(ref t) if t == "Buongiorno"));
}

#[test]
fn no_choice_is_no_translation() {
    match first_translation(&response(&[])) {
        Err(e) => {
            assert!(matches!(e, TranslateError::NoTranslation));
            assert_eq!(e.message(), "Nessuna traduzione ricevuta");
        }
        Ok(_) => panic!("expected an error"),
    }
}

#[test]
fn refused_reply_reports_body() {
    match translation_from_reply(Reply::Refused("invalid api key".to_string())) {
        Err(e) => {
            assert!(matches!(e, TranslateError::Api(ref b) if b == "invalid api key"));
            assert_eq!(e.message(), "API Error: invalid api key");
        }
        Ok(_) => panic!("expected an error"),
    }
}

#[test]
fn completed_reply_gives_first_choice() {
    let r = translation_from_reply(Reply::Completed(response(&["Hello"])));
    assert!(matches!(r, Ok(ref t) if t == "Hello"));
    let r = translation_from_reply(Reply::Completed(response(&[])));
    assert!(matches!(r, Err(TranslateError::NoTranslation)));
}
