//! The settings of the transcription service and where they are taken from.

use vstd::prelude::*;
use crate::text::option_text;
use crate::text::trim_text;
use crate::text::trimmed;

verus! {

/// The settings of the transcription service.
#[derive(Debug, Clone, PartialEq, Eq)]
pub struct Config {
    pub openai_api_key: String,
    pub openai_model: String,
}

/// The key that is used: the stored one before the one of the environment.
pub open spec fn chosen_key(stored: Option<Seq<char>>, environment: Option<Seq<char>>) -> Option<
    Seq<char>,
> {
    match stored {
        Some(key) => Some(key),
        None => environment,
    }
}

/// The stored key: the contents of the key file without the white space
/// around them.
pub open spec fn stored_key(contents: Option<Seq<char>>) -> Option<Seq<char>> {
    match contents {
        Some(text) => Some(trimmed(text)),
        None => None,
    }
}

/// The model that is used: the one of the environment, or `whisper-1`.
pub open spec fn chosen_model(environment: Option<Seq<char>>) -> Seq<char> {
    match environment {
        Some(model) => model,
        None => "whisper-1"@,
    }
}

impl Config {
    /// Settles the settings from what was found: the contents of the stored
    /// key file, the key of the environment, and the model of the
    /// environment. Without any key there are no settings.
    pub fn resolve(
        key_file: Option<String>,
        environment_key: Option<String>,
        environment_model: Option<String>,
    ) -> (r: Result<Config, String>)
        ensures
            r is Ok <==> chosen_key(stored_key(option_text(key_file)), option_text(environment_key))
                is Some,
            r matches Ok(config) ==> Some(config.openai_api_key@) == chosen_key(
                stored_key(option_text(key_file)),
                option_text(environment_key),
            ) && config.openai_model@ == chosen_model(option_text(environment_model)),
            r matches Err(message) ==> message@
                == "OPENAI_API_KEY not found. Please set it in Settings or add it to your .env file."@,
    {
        let stored = match key_file {
            Some(text) => Some(trim_text(text.as_str())),
            None => None,
        };
        Config::settle(stored, environment_key, environment_model)
    }

    /// Settles the settings from the stored key, the key of the environment,
    /// and the model of the environment. The stored key comes first; without
    /// any key there are no settings.
    pub fn settle(
        stored_key: Option<String>,
        environment_key: Option<String>,
        environment_model: Option<String>,
    ) -> (r: Result<Config, String>)
        ensures
            r is Ok <==> chosen_key(option_text(stored_key), option_text(environment_key)) is Some,
            r matches Ok(config) ==> Some(config.openai_api_key@) == chosen_key(
                option_text(stored_key),
                option_text(environment_key),
            ) && config.openai_model@ == chosen_model(option_text(environment_model)),
            r matches Err(message) ==> message@
                == "OPENAI_API_KEY not found. Please set it in Settings or add it to your .env file."@,
    {
        let key = match stored_key {
            Some(key) => key,
            None => match environment_key {
                Some(key) => key,
                None => {
                    return Err(
                        String::from_str(
                            "OPENAI_API_KEY not found. Please set it in Settings or add it to your .env file.",
                        ),
                    );
                },
            },
        };
        let model = match environment_model {
            Some(model) => model,
            None => String::from_str("whisper-1"),
        };
        Ok(Config { openai_api_key: key, openai_model: model })
    }
}

} // verus!
