//! The phrase book: the tables of languages, phrases and settings, with the
//! rules that keep them consistent. A phrase is stored once under its
//! original text, a language once under its code, a setting once under its
//! name; rows are never removed, and the rows of a table are numbered from 1
//! in the order in which they came.

pub mod book;
pub mod languages;
pub mod phrases;
pub mod settings;

pub use book::{
    failure_view, lemma_plan_is_saved, PhraseBook, PhraseBookView, SavePlan, SavePlanView,
};
pub use languages::{
    has_code, language_rows, languages_ok, lemma_resolve_twice, lemma_resolved, place_of_code,
    resolved_id, resolved_rows, with_language, Language, LanguageResolver, LanguageView,
};
pub use phrases::{
    has_original, lemma_save_twice, lemma_search_all_and_only, lemma_search_nothing,
    lemma_upserted, matching, phrase_rows, phrase_views, phrases_of, phrases_ok,
    place_of_original, row_mentions, upserted, PhraseRecord, PhraseRecordView, PhraseStore,
};
pub use settings::{
    has_setting, lemma_setting_upserted, place_of_setting, setting_rows, setting_upserted,
    settings_ok, SettingRecord, SettingRecordView, SettingStore,
};
use vstd::prelude::*;

verus! {

/// Why an operation on the phrase book failed.
#[derive(Debug, PartialEq, Eq)]
pub enum PersistenceError {
    /// The book could not be opened.
    Connection(String),
    /// The book could not be brought up to date.
    Migration(String),
    /// A statement failed.
    Execution(String),
    /// No row could be added to the table of this name.
    Insert(String),
    /// There is no such row.
    NotFound,
}

/// What a [`PersistenceError`] holds, as sequences of characters.
pub enum PersistenceErrorView {
    Connection(Seq<char>),
    Migration(Seq<char>),
    Execution(Seq<char>),
    Insert(Seq<char>),
    NotFound,
}

impl View for PersistenceError {
    type V = PersistenceErrorView;

    open spec fn view(&self) -> PersistenceErrorView {
        match self {
            PersistenceError::Connection(m) => PersistenceErrorView::Connection(m@),
            PersistenceError::Migration(m) => PersistenceErrorView::Migration(m@),
            PersistenceError::Execution(m) => PersistenceErrorView::Execution(m@),
            PersistenceError::Insert(table) => PersistenceErrorView::Insert(table@),
            PersistenceError::NotFound => PersistenceErrorView::NotFound,
        }
    }
}

impl PersistenceErrorView {
    /// The text shown for this error.
    pub open spec fn message(self) -> Seq<char> {
        match self {
            PersistenceErrorView::Connection(_) => "Connecting to database failed"@,
            PersistenceErrorView::Migration(m) => "Database migration failed: "@ + m,
            PersistenceErrorView::Execution(_) => "Executing statement failed"@,
            PersistenceErrorView::Insert(table) => "Insert into "@ + table + " failed"@,
            PersistenceErrorView::NotFound => "Not found"@,
        }
    }
}

impl PersistenceError {
    /// The text shown for this error.
    pub fn to_string(&self) -> (text: String)
        ensures
            text@ == self@.message(),
    {
        match self {
            PersistenceError::Connection(_) => "Connecting to database failed".to_owned(),
            PersistenceError::Migration(m) => "Database migration failed: ".to_owned().concat(
                m.as_str(),
            ),
            PersistenceError::Execution(_) => "Executing statement failed".to_owned(),
            PersistenceError::Insert(table) => "Insert into ".to_owned().concat(
                table.as_str(),
            ).concat(" failed"),
            PersistenceError::NotFound => "Not found".to_owned(),
        }
    }
}

} // verus!
