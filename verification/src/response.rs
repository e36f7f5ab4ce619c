//! What the chat-completion service answers, and the translation or the error
//! that the answer gives.
use vstd::prelude::*;
use vstd::string::StringExecFns;

verus! {

broadcast use vstd::string::group_string_axioms;

/// The message of one choice.
pub struct GroqMessageResponse {
    pub content: String,
}

/// One choice of a completion.
pub struct GroqChoice {
    pub message: GroqMessageResponse,
}

/// A completion: the choices the model offers.
pub struct GroqResponse {
    pub choices: Vec<GroqChoice>,
}

/// The service's reply: refused, with the body of the refusal, or a
/// completion.
pub enum Reply {
    Refused(String),
    Completed(GroqResponse),
}

/// Why no translation came.
pub enum TranslateError {
    /// The service refused the request; the body of its answer.
    Api(String),
    /// The completion offered no choice.
    NoTranslation,
}

/// The text that reports an error.
pub open spec fn error_message_spec(e: TranslateError) -> Seq<char> {
    match e {
        TranslateError::Api(body) => "API Error: "@ + body@,
        TranslateError::NoTranslation => "Nessuna traduzione ricevuta"@,
    }
}

impl TranslateError {
    /// The text that reports this error.
    pub fn message(&self) -> (r: String)
        ensures
            r@ == error_message_spec(*self),
    {
        match self {
            TranslateError::Api(body) => {
                let mut r = "API Error: ".to_owned();
                r.append(body.as_str());
                r
            },
            TranslateError::NoTranslation => "Nessuna traduzione ricevuta".to_owned(),
        }
    }
}

/// The translation a completion gives: the content of its first choice.
pub open spec fn first_translation_spec(resp: GroqResponse) -> Result<Seq<char>, TranslateError> {
    if resp.choices@.len() > 0 {
        Ok(resp.choices@[0].message.content@)
    } else {
        Err(TranslateError::NoTranslation)
    }
}

/// The content of the first choice of `resp`.
pub fn first_translation(resp: &GroqResponse) -> (r: Result<String, TranslateError>)
    ensures
        match (r, first_translation_spec(*resp)) {
            (Ok(t), Ok(u)) => t@ == u,
            (Err(e), Err(f)) => e == f,
            _ => false,
        },
        resp.choices@.len() > 0 ==> (r matches Ok(t) && t@ == resp.choices@[0].message.content@),
        resp.choices@.len() == 0 ==> r matches Err(TranslateError::NoTranslation),
{
    if resp.choices.len() > 0 {
        Ok(resp.choices[0].message.content.clone())
    } else {
        Err(TranslateError::NoTranslation)
    }
}

/// The translation a reply gives, or the error it reports.
pub fn translation_from_reply(reply: Reply) -> (r: Result<String, TranslateError>)
    ensures
        match reply {
            Reply::Refused(body) => r matches Err(TranslateError::Api(b)) && b@ == body@,
            Reply::Completed(resp) => match (r, first_translation_spec(resp)) {
                (Ok(t), Ok(u)) => t@ == u,
                (Err(e), Err(f)) => e == f,
                _ => false,
            },
        },
        reply matches Reply::Completed(resp) ==> (resp.choices@.len() > 0 <==> r is Ok),
        reply matches Reply::Completed(resp) ==> (r matches Ok(t) ==> t@
            == resp.choices@[0].message.content@),
{
    match reply {
        Reply::Refused(body) => Err(TranslateError::Api(body)),
        Reply::Completed(resp) => first_translation(&resp),
    }
}

} // verus!
