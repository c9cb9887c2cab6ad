//! The data that the rest of the library works on: a translated phrase and
//! the application's named settings.

use vstd::prelude::*;

verus! {

/// A Chinese phrase with its romanization and its English translation.
#[derive(Debug, PartialEq, Eq)]
pub struct Phrase {
    pub original: String,
    pub pinyin: String,
    pub translation: String,
}

/// What a [`Phrase`] holds, as sequences of characters.
pub struct PhraseView {
    pub original: Seq<char>,
    pub pinyin: Seq<char>,
    pub translation: Seq<char>,
}

impl View for Phrase {
    type V = PhraseView;

    open spec fn view(&self) -> PhraseView {
        PhraseView {
            original: self.original@,
            pinyin: self.pinyin@,
            translation: self.translation@,
        }
    }
}

impl Clone for Phrase {
    fn clone(&self) -> (copy: Self)
        ensures
            copy == *self,
    {
        Phrase {
            original: self.original.clone(),
            pinyin: self.pinyin.clone(),
            translation: self.translation.clone(),
        }
    }
}

impl Default for Phrase {
    fn default() -> (phrase: Self)
        ensures
            phrase@.original.len() == 0,
            phrase@.pinyin.len() == 0,
            phrase@.translation.len() == 0,
    {
        Phrase { original: String::new(), pinyin: String::new(), translation: String::new() }
    }
}

impl Phrase {
    /// A phrase made of the three given texts.
    pub fn new(original: &str, pinyin: &str, translation: &str) -> (phrase: Self)
        ensures
            phrase@.original == original@,
            phrase@.pinyin == pinyin@,
            phrase@.translation == translation@,
    {
        Phrase {
            original: original.to_owned(),
            pinyin: pinyin.to_owned(),
            translation: translation.to_owned(),
        }
    }
}

/// Why a setting could not be had.
#[derive(Debug, PartialEq, Eq)]
pub enum SettingError {
    /// No setting has this name.
    Unknown(String),
    /// The stored value could not be read.
    Load(String),
    /// The store itself is not in a usable state.
    What(String),
}

/// What a [`SettingError`] holds, as sequences of characters.
pub enum SettingErrorView {
    Unknown(Seq<char>),
    Load(Seq<char>),
    What(Seq<char>),
}

impl View for SettingError {
    type V = SettingErrorView;

    open spec fn view(&self) -> SettingErrorView {
        match self {
            SettingError::Unknown(name) => SettingErrorView::Unknown(name@),
            SettingError::Load(message) => SettingErrorView::Load(message@),
            SettingError::What(message) => SettingErrorView::What(message@),
        }
    }
}

impl SettingError {
    /// The text shown for this error.
    pub open spec fn spec_message(self) -> Seq<char> {
        match self {
            SettingError::Unknown(name) => "Unknown setting: "@ + name@,
            SettingError::Load(message) => "Failed to load setting: "@ + message@,
            SettingError::What(message) => "What??? "@ + message@,
        }
    }

    /// The text shown for this error.
    pub fn to_string(&self) -> (text: String)
        ensures
            text@ == self.spec_message(),
    {
        match self {
            SettingError::Unknown(name) => "Unknown setting: ".to_owned().concat(name.as_str()),
            SettingError::Load(message) => "Failed to load setting: ".to_owned().concat(
                message.as_str(),
            ),
            SettingError::What(message) => "What??? ".to_owned().concat(message.as_str()),
        }
    }
}

/// The settings that the application knows.
#[derive(Clone, Copy, Debug, PartialEq, Eq, Structural)]
pub enum SettingName {
    /// The name of the language model that translates.
    LlmModel,
}

/// A setting with its value.
#[derive(Debug, PartialEq, Eq)]
pub struct Setting {
    pub name: SettingName,
    pub value: String,
}

impl SettingName {
    /// The name under which the setting is stored.
    pub open spec fn spec_key(self) -> Seq<char> {
        match self {
            SettingName::LlmModel => "llm_model"@,
        }
    }

    /// The name under which the setting is stored.
    pub fn to_string(&self) -> (key: String)
        ensures
            key@ == self.spec_key(),
    {
        match self {
            SettingName::LlmModel => "llm_model".to_owned(),
        }
    }

    /// The setting stored under the name `s`; `Unknown`, with `s`, where there
    /// is none.
    pub fn from_str(s: &str) -> (parsed: Result<SettingName, SettingError>)
        ensures
            s@ == SettingName::LlmModel.spec_key() ==> parsed == Ok::<
                SettingName,
                SettingError,
            >(SettingName::LlmModel),
            s@ != SettingName::LlmModel.spec_key() ==> parsed is Err && parsed->Err_0@
                == SettingErrorView::Unknown(s@),
    {
        if s.to_owned() == "llm_model".to_owned() {
            Ok(SettingName::LlmModel)
        } else {
            Err(SettingError::Unknown(s.to_owned()))
        }
    }
}

} // verus!
