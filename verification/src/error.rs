//! Errors that are found in the caller's input, before anything is asked of
//! the transcription service.

use vstd::prelude::*;
use vstd::string::*;

verus! {

/// An input that no job can be submitted for.
#[derive(Debug)]
pub enum InputError {
    /// The language code is not one of the supported locale tags.
    UnsupportedLanguage { code: String },
    /// The media was recognised, as something that cannot be transcribed.
    UnsupportedMediaFormat { mime_type: String },
    /// The media was not recognised, and its file extension does not help.
    UndeterminedMediaFormat,
}

/// The mathematical value of an [`InputError`].
pub enum InputErrorModel {
    UnsupportedLanguage { code: Seq<char> },
    UnsupportedMediaFormat { mime_type: Seq<char> },
    UndeterminedMediaFormat,
}

impl View for InputError {
    type V = InputErrorModel;

    open spec fn view(&self) -> InputErrorModel {
        match self {
            InputError::UnsupportedLanguage { code } => InputErrorModel::UnsupportedLanguage {
                code: code@,
            },
            InputError::UnsupportedMediaFormat {
                mime_type,
            } => InputErrorModel::UnsupportedMediaFormat { mime_type: mime_type@ },
            InputError::UndeterminedMediaFormat => InputErrorModel::UndeterminedMediaFormat,
        }
    }
}

impl InputErrorModel {
    /// The text of the message for this error.
    pub open spec fn message_text(self) -> Seq<char> {
        match self {
            InputErrorModel::UnsupportedLanguage { code } => "Unsupported language code: "@ + code,
            InputErrorModel::UnsupportedMediaFormat { mime_type } => "Unsupported media format: "@
                + mime_type,
            InputErrorModel::UndeterminedMediaFormat =>
                "Unable to determine media format from file extension"@,
        }
    }
}

impl InputError {
    /// A message that names the input at fault.
    pub fn message(&self) -> (text: String)
        ensures
            text@ == self@.message_text(),
    {
        match self {
            InputError::UnsupportedLanguage { code } => {
                let mut text = "Unsupported language code: ".to_owned();
                text.append(code.as_str());
                text
            },
            InputError::UnsupportedMediaFormat { mime_type } => {
                let mut text = "Unsupported media format: ".to_owned();
                text.append(mime_type.as_str());
                text
            },
            InputError::UndeterminedMediaFormat => {
                "Unable to determine media format from file extension".to_owned()
            },
        }
    }
}

} // verus!
