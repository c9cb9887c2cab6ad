//! The phrase book as a whole: saving a phrase under its language, and
//! searching the phrases.

use crate::model::{Phrase, PhraseView};
use crate::persistence::languages::{
    has_code, language_rows, languages_ok, lemma_resolved, resolved_id, resolved_rows, Language,
    LanguageResolver, LanguageView,
};
use crate::persistence::phrases::{
    has_original, lemma_upserted, matching, phrase_rows, phrase_views, phrases_of, phrases_ok,
    place_of_original, upserted, PhraseRecord, PhraseRecordView, PhraseStore,
};
use crate::persistence::settings::{
    setting_rows, settings_ok, SettingRecord, SettingRecordView, SettingStore,
};
use crate::persistence::{PersistenceError, PersistenceErrorView};
use crate::transform::phrases_from;
use vstd::prelude::*;

verus! {

/// The phrase book: the three tables together.
#[derive(Debug)]
pub struct PhraseBook {
    pub languages: LanguageResolver,
    pub phrases: PhraseStore,
    pub settings: SettingStore,
}

/// What a [`PhraseBook`] holds.
pub struct PhraseBookView {
    pub languages: Seq<LanguageView>,
    pub phrases: Seq<PhraseRecordView>,
    pub settings: Seq<SettingRecordView>,
}

impl View for PhraseBook {
    type V = PhraseBookView;

    open spec fn view(&self) -> PhraseBookView {
        PhraseBookView {
            languages: self.languages@,
            phrases: self.phrases@,
            settings: self.settings@,
        }
    }
}

impl PhraseBookView {
    /// The three tables are well-formed.
    pub open spec fn ok(self) -> bool {
        &&& languages_ok(self.languages)
        &&& phrases_ok(self.phrases)
        &&& settings_ok(self.settings)
    }

    /// A language with this code can be had: it is there, or there is room
    /// for it.
    pub open spec fn can_resolve(self, code: Seq<char>) -> bool {
        has_code(self.languages, code) || self.languages.len() < i32::MAX
    }

    /// A phrase with this original text can be kept: it is there, or there
    /// is room for it.
    pub open spec fn can_keep(self, original: Seq<char>) -> bool {
        has_original(self.phrases, original) || self.phrases.len() < i32::MAX
    }

    /// The book after `phrase` has been saved as a phrase of the language
    /// with the given code and name. The language is resolved first; where
    /// that fails nothing changes. Where the phrase cannot be kept after
    /// that, the language stays.
    pub open spec fn saved(self, phrase: PhraseView, name: Seq<char>, code: Seq<char>) -> PhraseBookView {
        if !self.can_resolve(code) {
            self
        } else if !self.can_keep(phrase.original) {
            PhraseBookView { languages: resolved_rows(self.languages, code, name), ..self }
        } else {
            PhraseBookView {
                languages: resolved_rows(self.languages, code, name),
                phrases: upserted(
                    self.phrases,
                    resolved_id(self.languages, code) as i32,
                    phrase.original,
                    phrase.pinyin,
                    phrase.translation,
                ),
                ..self
            }
        }
    }

    /// The row that a save adds to the languages: none where a row holds
    /// the code already.
    pub open spec fn planned_language(self, name: Seq<char>, code: Seq<char>) -> Option<LanguageView> {
        if has_code(self.languages, code) {
            None
        } else {
            Some(LanguageView { id: (self.languages.len() + 1) as i32, name, code })
        }
    }

    /// The row that a save leaves for the phrase: under the id of the row
    /// that holds the original text, or under the next id where none does,
    /// and with the id that the code resolves to.
    pub open spec fn planned_phrase(self, phrase: PhraseView, code: Seq<char>) -> PhraseRecordView {
        PhraseRecordView {
            id: if has_original(self.phrases, phrase.original) {
                self.phrases[place_of_original(self.phrases, phrase.original)].id
            } else {
                (self.phrases.len() + 1) as i32
            },
            language_id: resolved_id(self.languages, code) as i32,
            original: phrase.original,
            pinyin: phrase.pinyin,
            translation: phrase.translation,
        }
    }

    /// Why saving a phrase fails, where it does: no room for the language,
    /// or no room for the phrase.
    pub open spec fn save_failure(self, phrase: PhraseView, code: Seq<char>) -> Option<
        PersistenceErrorView,
    > {
        if !self.can_resolve(code) {
            Some(PersistenceErrorView::Insert("languages"@))
        } else if !self.can_keep(phrase.original) {
            Some(PersistenceErrorView::Insert("phrases"@))
        } else {
            None
        }
    }
}

/// The rows that a save writes: the language where it is new, and the
/// phrase.
#[derive(Debug, PartialEq, Eq)]
pub struct SavePlan {
    pub language: Option<Language>,
    pub phrase: PhraseRecord,
}

/// What a [`SavePlan`] holds, as sequences of characters.
pub struct SavePlanView {
    pub language: Option<LanguageView>,
    pub phrase: PhraseRecordView,
}

impl View for SavePlan {
    type V = SavePlanView;

    open spec fn view(&self) -> SavePlanView {
        SavePlanView {
            language: match self.language {
                Some(language) => Some(language@),
                None => None,
            },
            phrase: self.phrase@,
        }
    }
}

/// The error of a result without a value, as sequences of characters.
pub open spec fn failure_view(outcome: Result<(), PersistenceError>) -> Option<PersistenceErrorView> {
    match outcome {
        Ok(_) => None,
        Err(error) => Some(error@),
    }
}

impl PhraseBook {
    /// An empty book.
    pub fn new() -> (book: Self)
        ensures
            book@.languages.len() == 0,
            book@.phrases.len() == 0,
            book@.settings.len() == 0,
            book@.ok(),
    {
        PhraseBook {
            languages: LanguageResolver::new(),
            phrases: PhraseStore::new(),
            settings: SettingStore::new(),
        }
    }

    /// The book that holds the given rows, as they are. The rows of each
    /// table have to be numbered from 1 in their order and may not repeat
    /// what the table keeps apart. Fails with `Insert`, for the first table
    /// in the order languages, phrases, settings whose rows are not so.
    pub fn from_rows(
        languages: Vec<Language>,
        phrases: Vec<PhraseRecord>,
        settings: Vec<SettingRecord>,
    ) -> (book: Result<Self, PersistenceError>)
        ensures
            match book {
                Ok(b) => {
                    &&& b@.ok()
                    &&& b@.languages == language_rows(languages@)
                    &&& b@.phrases == phrase_rows(phrases@)
                    &&& b@.settings == setting_rows(settings@)
                },
                Err(error) => error@ == PersistenceErrorView::Insert(
                    if !languages_ok(language_rows(languages@)) {
                        "languages"@
                    } else if !phrases_ok(phrase_rows(phrases@)) {
                        "phrases"@
                    } else {
                        "settings"@
                    },
                ) && !(languages_ok(language_rows(languages@)) && phrases_ok(phrase_rows(phrases@))
                    && settings_ok(setting_rows(settings@))),
            },
    {
        let languages = match LanguageResolver::from_rows(languages) {
            Ok(table) => table,
            Err(error) => {
                return Err(error);
            },
        };
        let phrases = match PhraseStore::from_rows(phrases) {
            Ok(table) => table,
            Err(error) => {
                return Err(error);
            },
        };
        let settings = match SettingStore::from_rows(settings) {
            Ok(table) => table,
            Err(error) => {
                return Err(error);
            },
        };
        Ok(PhraseBook { languages, phrases, settings })
    }

    /// The rows that saving `phrase` would write, without writing them: the
    /// row of the language where the code is new, and the row of the phrase.
    /// Fails where the save would fail, with the same error.
    pub fn plan_save(&self, phrase: &Phrase, language_name: &str, language_code: &str) -> (plan:
        Result<SavePlan, PersistenceError>)
        ensures
            self@.ok(),
            match plan {
                Ok(p) => {
                    &&& self@.save_failure(phrase@, language_code@) is None
                    &&& p@.language == self@.planned_language(language_name@, language_code@)
                    &&& p@.phrase == self@.planned_phrase(phrase@, language_code@)
                },
                Err(error) => self@.save_failure(phrase@, language_code@) == Some(error@),
            },
    {
        // Asked for what they state of their tables, which holds of every table.
        let _ = self.settings.len();
        let _ = self.phrases.len();
        let (language_id, language) = match self.languages.get_language_id(language_code) {
            Ok(id) => (id, None),
            Err(_) => {
                if self.languages.len() >= i32::MAX as usize {
                    return Err(PersistenceError::Insert("languages".to_owned()));
                }
                let id = (self.languages.len() + 1) as i32;
                let row = Language {
                    id,
                    name: language_name.to_owned(),
                    code: language_code.to_owned(),
                };
                (id, Some(row))
            },
        };
        let id = match self.phrases.id_of(phrase.original.as_str()) {
            Some(id) => id,
            None => {
                if self.phrases.len() >= i32::MAX as usize {
                    return Err(PersistenceError::Insert("phrases".to_owned()));
                }
                (self.phrases.len() + 1) as i32
            },
        };
        Ok(
            SavePlan {
                language,
                phrase: PhraseRecord {
                    id,
                    language_id,
                    original: phrase.original.clone(),
                    pinyin: phrase.pinyin.clone(),
                    translation: phrase.translation.clone(),
                },
            },
        )
    }

    /// Saves `phrase` as a phrase of the language with the given code, which
    /// is added to the languages, under the given name, where it is new.
    ///
    /// The language is resolved first. Where that fails nothing has changed.
    /// Where saving the phrase fails after that, the language stays.
    pub fn save_phrase(&mut self, phrase: &Phrase, language_name: &str, language_code: &str) -> (saved:
        Result<(), PersistenceError>)
        ensures
            old(self)@.ok(),
            final(self)@.ok(),
            final(self)@ == old(self)@.saved(phrase@, language_name@, language_code@),
            failure_view(saved) == old(self)@.save_failure(phrase@, language_code@),
    {
        // Asked for what they state of their tables, which holds of every table.
        let _ = self.settings.len();
        let _ = self.phrases.len();
        let language_id = match self.languages.resolve_or_create(language_code, language_name) {
            Ok(id) => id,
            Err(error) => {
                return Err(error);
            },
        };
        match self.phrases.save(
            phrase.original.as_str(),
            phrase.pinyin.as_str(),
            phrase.translation.as_str(),
            language_id,
        ) {
            Ok(_) => Ok(()),
            Err(error) => Err(error),
        }
    }

    /// The phrases that mention `term` in their original, their translation
    /// or their romanization: all of them and no others, in the order in
    /// which they were first saved. None is a result like any other.
    pub fn search_phrases(&self, term: &str) -> (found: Vec<Phrase>)
        ensures
            phrase_views(found@) == phrases_of(matching(self@.phrases, term@)),
    {
        phrases_from(self.phrases.search(term))
    }
}

/// A save writes what was planned: after it the languages hold the planned
/// row at their end, where one was planned, and are unchanged otherwise; and
/// the one row of the phrases that holds the original text is the planned
/// row.
pub proof fn lemma_plan_is_saved(
    book: PhraseBookView,
    phrase: PhraseView,
    name: Seq<char>,
    code: Seq<char>,
)
    requires
        book.ok(),
        book.save_failure(phrase, code) is None,
    ensures
        ({
            let after = book.saved(phrase, name, code);
            &&& after.ok()
            &&& after.languages == match book.planned_language(name, code) {
                Some(row) => book.languages.push(row),
                None => book.languages,
            }
            &&& has_original(after.phrases, phrase.original)
            &&& after.phrases[place_of_original(after.phrases, phrase.original)]
                == book.planned_phrase(phrase, code)
        }),
{
    lemma_resolved(book.languages, code, name);
    let language_id = resolved_id(book.languages, code) as i32;
    lemma_upserted(book.phrases, language_id, phrase.original, phrase.pinyin, phrase.translation);
    let after = book.saved(phrase, name, code);
    let at = place_of_original(after.phrases, phrase.original);
    if has_original(book.phrases, phrase.original) {
        let old_at = place_of_original(book.phrases, phrase.original);
        assert(after.phrases[old_at].original == phrase.original);
        assert(at == old_at);
    } else {
        let last = book.phrases.len() as int;
        assert(after.phrases[last].original == phrase.original);
        assert(at == last);
    }
}

} // verus!
