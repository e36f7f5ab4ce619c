//! The settings file and the values taken from the environment.
use vstd::prelude::*;
use vstd::string::StringExecFns;

use crate::catalog::{default_model, default_model_spec};

verus! {

broadcast use vstd::string::group_string_axioms;

/// Where the environment file is read from.
pub enum EnvSource {
    /// The settings file in the user's configuration directory.
    ConfigFile,
    /// A `.env` file in the working directory or one of its parents.
    WorkingDirectory,
}

/// The file to load: the settings file where the home directory is known and
/// the file exists there, else the working directory's.
pub fn env_source(config_file_exists: Option<bool>) -> (r: EnvSource)
    ensures
        (r is ConfigFile) == (config_file_exists == Some(true)),
{
    match config_file_exists {
        Some(true) => EnvSource::ConfigFile,
        _ => EnvSource::WorkingDirectory,
    }
}

/// The path of the settings file below the home directory.
pub fn config_file_relative_path() -> (r: &'static str)
    ensures
        r@ == ".config/quick-translate/.env"@,
{
    ".config/quick-translate/.env"
}

/// The text of the settings file.
pub open spec fn config_file_content_spec(
    api_key: Seq<char>,
    target_language: Seq<char>,
    model: Seq<char>,
) -> Seq<char> {
    "GROQ_API_KEY="@ + api_key + "\nTARGET_LANGUAGE="@ + target_language + "\nMODEL="@ + model
        + "\n"@
}

/// The text of the settings file that records `api_key`, `target_language`
/// and `model`, one `KEY=value` line each.
pub fn config_file_content(api_key: &str, target_language: &str, model: &str) -> (r: String)
    ensures
        r@ == config_file_content_spec(api_key@, target_language@, model@),
{
    let mut r = "GROQ_API_KEY=".to_owned();
    r.append(api_key);
    r.append("\nTARGET_LANGUAGE=");
    r.append(target_language);
    r.append("\nMODEL=");
    r.append(model);
    r.append("\n");
    r
}

/// The configured target language, Italian where none is configured.
pub fn target_language_or_default(configured: Option<String>) -> (r: String)
    ensures
        match configured {
            Some(t) => r == t,
            None => r@ == "it"@,
        },
{
    match configured {
        Some(t) => t,
        None => "it".to_owned(),
    }
}

/// The configured model, the default model where none is configured.
pub fn model_or_default(configured: Option<String>) -> (r: String)
    ensures
        match configured {
            Some(m) => r == m,
            None => r@ == default_model_spec(),
        },
{
    match configured {
        Some(m) => m,
        None => default_model().to_owned(),
    }
}

/// What the popup needs from the environment.
pub struct PopupSettings {
    pub api_key: String,
    pub target_language: String,
}

/// The popup's settings: the API key is required, the target language
/// defaults to Italian.
pub fn popup_settings(api_key: Option<String>, target_language: Option<String>) -> (r: Option<
    PopupSettings,
>)
    ensures
        (r is Some) == (api_key is Some),
        r matches Some(s) ==> (Some(s.api_key) == api_key && match target_language {
            Some(t) => s.target_language == t,
            None => s.target_language@ == "it"@,
        }),
{
    match api_key {
        Some(key) => Some(
            PopupSettings {
                api_key: key,
                target_language: target_language_or_default(target_language),
            },
        ),
        None => None,
    }
}

} // verus!
