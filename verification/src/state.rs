//! What the user works on: the text that was typed, the phrase that is on
//! display, the edit in progress, the open dialogs and the running request.
//! Each action of the user is a function from this state to the next one,
//! with the message to show, if any.

use crate::llm::{clone_names, is_selection, names_of, prompt_for, LLMError, LLMErrorView};
use crate::model::{Phrase, PhraseView};
use crate::persistence::{matching, phrase_views, phrases_of, PersistenceError, PhraseBook};
use crate::query::{
    poll_outcome, report_view, state_after_submit, Completion, Outcome, OutcomeView,
    QueryOrchestrator, QueryState, Submission,
};
use vstd::prelude::*;

verus! {

/// The name under which saved phrases are filed.
pub const LANGUAGE_NAME: &'static str = "Chinese";

/// The code under which saved phrases are filed.
pub const LANGUAGE_CODE: &'static str = "zh";

/// A message for the user.
#[derive(Debug, PartialEq, Eq)]
pub enum Notice {
    Info(String),
    Error(String),
}

/// What a [`Notice`] holds, as sequences of characters.
pub enum NoticeView {
    Info(Seq<char>),
    Error(Seq<char>),
}

impl View for Notice {
    type V = NoticeView;

    open spec fn view(&self) -> NoticeView {
        match self {
            Notice::Info(text) => NoticeView::Info(text@),
            Notice::Error(text) => NoticeView::Error(text@),
        }
    }
}

/// The view of an optional notice.
pub open spec fn notice_view(notice: Option<Notice>) -> Option<NoticeView> {
    match notice {
        Some(n) => Some(n@),
        None => None,
    }
}

/// The view of an optional phrase.
pub open spec fn shown_view(phrase: Option<Phrase>) -> Option<PhraseView> {
    match phrase {
        Some(p) => Some(p@),
        None => None,
    }
}

/// What a look at the running request came to.
#[derive(Debug, PartialEq, Eq)]
pub enum Tick {
    /// There is no outcome: no request is under way, or it is not back yet.
    NoOutcome,
    /// The request has ended, with this message for the user, if any.
    Finished(Option<Notice>),
}

/// What a [`Tick`] holds, as sequences of characters.
pub enum TickView {
    NoOutcome,
    Finished(Option<NoticeView>),
}

impl View for Tick {
    type V = TickView;

    open spec fn view(&self) -> TickView {
        match self {
            Tick::NoOutcome => TickView::NoOutcome,
            Tick::Finished(notice) => TickView::Finished(notice_view(*notice)),
        }
    }
}

/// The state of the application.
#[derive(Debug)]
pub struct AppState {
    pub phrase_input: String,
    pub translation_input: String,
    pub pinyin_input: String,
    pub query: QueryOrchestrator,
    pub phrase: Option<Phrase>,
    pub phrases: Vec<Phrase>,
    pub local_llm_models: Vec<String>,
    pub selected_llm_model: String,
    pub open_settings: bool,
    pub open_about: bool,
    pub open_help: bool,
    pub edit_result: bool,
}

/// What an [`AppState`] holds.
pub struct AppStateView {
    pub phrase_input: Seq<char>,
    pub translation_input: Seq<char>,
    pub pinyin_input: Seq<char>,
    pub query: QueryState,
    pub phrase: Option<PhraseView>,
    pub phrases: Seq<PhraseView>,
    pub local_llm_models: Seq<Seq<char>>,
    pub selected_llm_model: Seq<char>,
    pub open_settings: bool,
    pub open_about: bool,
    pub open_help: bool,
    pub edit_result: bool,
}

impl View for AppState {
    type V = AppStateView;

    open spec fn view(&self) -> AppStateView {
        AppStateView {
            phrase_input: self.phrase_input@,
            translation_input: self.translation_input@,
            pinyin_input: self.pinyin_input@,
            query: self.query.state,
            phrase: shown_view(self.phrase),
            phrases: phrase_views(self.phrases@),
            local_llm_models: names_of(self.local_llm_models@),
            selected_llm_model: self.selected_llm_model@,
            open_settings: self.open_settings,
            open_about: self.open_about,
            open_help: self.open_help,
            edit_result: self.edit_result,
        }
    }
}

impl AppStateView {
    /// The state after the edit of the translation has been switched: a
    /// running edit ends and its two texts are emptied; otherwise an edit
    /// starts on the phrase on display, with its texts; with no phrase on
    /// display nothing happens.
    pub open spec fn edited(self) -> AppStateView {
        if self.edit_result {
            AppStateView {
                edit_result: false,
                translation_input: Seq::empty(),
                pinyin_input: Seq::empty(),
                ..self
            }
        } else {
            match self.phrase {
                Some(p) => AppStateView {
                    edit_result: true,
                    translation_input: p.translation,
                    pinyin_input: p.pinyin,
                    ..self
                },
                None => self,
            }
        }
    }

    /// The state after escape: no request is tracked, no dialog is open, and
    /// a running edit has ended.
    pub open spec fn escaped(self) -> AppStateView {
        let closed = AppStateView {
            query: QueryState::Idle,
            open_about: false,
            open_help: false,
            open_settings: false,
            ..self
        };
        if closed.edit_result {
            closed.edited()
        } else {
            closed
        }
    }

    /// The phrase that is saved: the one on display, with the two texts of
    /// the edit in place of its own where an edit is running.
    pub open spec fn phrase_to_save(self) -> Option<PhraseView> {
        match self.phrase {
            Some(p) => if self.edit_result {
                Some(
                    PhraseView {
                        original: p.original,
                        pinyin: self.pinyin_input,
                        translation: self.translation_input,
                    },
                )
            } else {
                Some(p)
            },
            None => None,
        }
    }

    /// The state after the results of a search have been put on display: a
    /// single result becomes the phrase on display; several become the list;
    /// none leaves everything as it was.
    pub open spec fn showing(self, found: Seq<PhraseView>) -> AppStateView {
        if found.len() == 0 {
            self
        } else if found.len() == 1 {
            AppStateView { phrase: Some(found[0]), phrases: Seq::empty(), ..self }
        } else {
            AppStateView { phrase: None, phrases: found, ..self }
        }
    }

    /// The state after a request has ended: `Idle`, and with the phrase of a
    /// request that succeeded on display and its original text in the input.
    pub open spec fn concluded(self, outcome: OutcomeView) -> AppStateView {
        match outcome {
            OutcomeView::Succeeded(p) => AppStateView {
                query: QueryState::Idle,
                phrase_input: p.original,
                phrase: Some(p),
                ..self
            },
            _ => AppStateView { query: QueryState::Idle, ..self },
        }
    }
}

/// The message for the user when a request has ended.
pub open spec fn outcome_notice(outcome: OutcomeView) -> Option<NoticeView> {
    match outcome {
        OutcomeView::Succeeded(_) => None,
        OutcomeView::Failed(error) => Some(
            NoticeView::Error("Querying LLM failed: "@ + error.cause()),
        ),
        OutcomeView::TimedOut => Some(NoticeView::Error("LLM query timed out"@)),
        OutcomeView::Cancelled => None,
    }
}

/// The message for the results of a search.
pub open spec fn search_notice(found: Seq<PhraseView>) -> Option<NoticeView> {
    if found.len() == 0 {
        Some(NoticeView::Info("Nothing found"@))
    } else {
        None
    }
}

impl AppState {
    /// The state at the start: a sample phrase in the inputs, nothing on
    /// display, no dialog open, no request under way.
    pub fn new(local_llm_models: Vec<String>, selected_llm_model: String) -> (state: Self)
        ensures
            state@ == (AppStateView {
                phrase_input: "学习汉语很有趣！"@,
                translation_input: "Learning Chinese is fun!"@,
                pinyin_input: "Xuéxí Hànyǔ Hěn Yòuqù!"@,
                query: QueryState::Idle,
                phrase: None,
                phrases: Seq::empty(),
                local_llm_models: names_of(local_llm_models@),
                selected_llm_model: selected_llm_model@,
                open_settings: false,
                open_about: false,
                open_help: false,
                edit_result: false,
            }),
    {
        let state = AppState {
            phrase_input: "学习汉语很有趣！".to_owned(),
            translation_input: "Learning Chinese is fun!".to_owned(),
            pinyin_input: "Xuéxí Hànyǔ Hěn Yòuqù!".to_owned(),
            query: QueryOrchestrator::new(),
            phrase: None,
            phrases: Vec::new(),
            local_llm_models,
            selected_llm_model,
            open_settings: false,
            open_about: false,
            open_help: false,
            edit_result: false,
        };
        assert(state@.phrases =~= Seq::empty());
        state
    }

    /// Starts or ends the edit of the translation on display.
    pub fn edit(&mut self)
        ensures
            final(self)@ == old(self)@.edited(),
    {
        if self.edit_result {
            self.edit_result = false;
            self.translation_input = String::new();
            self.pinyin_input = String::new();
            assert(self@.translation_input =~= Seq::empty());
            assert(self@.pinyin_input =~= Seq::empty());
        } else {
            match &self.phrase {
                Some(p) => {
                    let translation = p.translation.clone();
                    let pinyin = p.pinyin.clone();
                    self.edit_result = true;
                    self.translation_input = translation;
                    self.pinyin_input = pinyin;
                },
                None => {},
            }
        }
    }

    /// Escape: gives up the running request, closes the dialogs and ends a
    /// running edit. Reports `Cancelled` where a request was given up, so
    /// that the caller drops it.
    pub fn handle_escape(&mut self) -> (report: Option<Outcome>)
        ensures
            final(self)@ == old(self)@.escaped(),
            old(self)@.query is Pending ==> report_view(report) == Some(
                OutcomeView::Cancelled,
            ),
            old(self)@.query is Idle ==> report is None,
    {
        let report = self.query.cancel();
        self.open_about = false;
        self.open_help = false;
        self.open_settings = false;
        if self.edit_result {
            self.edit();
        }
        report
    }

    /// A reminder of what is to come.
    pub fn learn(&self) -> (notice: Notice)
        ensures
            notice@ == NoticeView::Info("This is where the learning mask will open"@),
    {
        Notice::Info("This is where the learning mask will open".to_owned())
    }

    /// The phrase that a save would write: the one on display, with the two
    /// texts of the edit in place of its own where an edit is running.
    pub fn phrase_to_save(&self) -> (phrase: Option<Phrase>)
        ensures
            shown_view(phrase) == self@.phrase_to_save(),
    {
        match &self.phrase {
            Some(shown) => {
                if self.edit_result {
                    Some(
                        Phrase {
                            original: shown.original.clone(),
                            pinyin: self.pinyin_input.clone(),
                            translation: self.translation_input.clone(),
                        },
                    )
                } else {
                    Some(shown.clone())
                }
            },
            None => None,
        }
    }

    /// Puts the phrase that a save would write on display.
    fn apply_edit(&mut self)
        ensures
            final(self)@ == (AppStateView { phrase: old(self)@.phrase_to_save(), ..old(self)@ }),
    {
        let phrase = self.phrase_to_save();
        self.phrase = phrase;
    }

    /// Saves the phrase on display in `book`, with the two texts of the edit
    /// in place of its own where an edit is running; the phrase on display
    /// is then the one that was saved. With nothing on display nothing
    /// happens but the message.
    pub fn save_phrase(&mut self, book: &mut PhraseBook) -> (notice: Notice)
        ensures
            match old(self)@.phrase_to_save() {
                Some(p) => {
                    &&& final(self)@ == (AppStateView { phrase: Some(p), ..old(self)@ })
                    &&& final(book)@ == old(book)@.saved(p, LANGUAGE_NAME@, LANGUAGE_CODE@)
                    &&& notice@ == match old(book)@.save_failure(p, LANGUAGE_CODE@) {
                        None => NoticeView::Info("Phrase saved successfully"@),
                        Some(_) => NoticeView::Error("Phrase could not be saved"@),
                    }
                },
                None => {
                    &&& final(self)@ == old(self)@
                    &&& final(book)@ == old(book)@
                    &&& notice@ == NoticeView::Error("Nothing to save"@)
                },
            },
    {
        self.apply_edit();
        match &self.phrase {
            Some(phrase) => {
                match book.save_phrase(phrase, LANGUAGE_NAME, LANGUAGE_CODE) {
                    Ok(_) => Notice::Info("Phrase saved successfully".to_owned()),
                    Err(_) => Notice::Error("Phrase could not be saved".to_owned()),
                }
            },
            None => Notice::Error("Nothing to save".to_owned()),
        }
    }

    /// Takes in how the writing of the phrase to save went, where it is
    /// written somewhere else before it is saved in `book`. After a write
    /// that failed, `book` stays as it is and the message says that the
    /// phrase could not be saved; after one that went well, the phrase is
    /// saved in `book` as [`AppState::save_phrase`] does it. Either way the
    /// phrase on display is the one that was to be saved.
    pub fn finish_save(&mut self, book: &mut PhraseBook, written: Result<usize, PersistenceError>) -> (notice:
        Notice)
        ensures
            match old(self)@.phrase_to_save() {
                Some(p) => {
                    &&& final(self)@ == (AppStateView { phrase: Some(p), ..old(self)@ })
                    &&& final(book)@ == if written is Ok {
                        old(book)@.saved(p, LANGUAGE_NAME@, LANGUAGE_CODE@)
                    } else {
                        old(book)@
                    }
                    &&& notice@ == if written is Ok && old(book)@.save_failure(p, LANGUAGE_CODE@)
                        is None {
                        NoticeView::Info("Phrase saved successfully"@)
                    } else {
                        NoticeView::Error("Phrase could not be saved"@)
                    }
                },
                None => {
                    &&& final(self)@ == old(self)@
                    &&& final(book)@ == old(book)@
                    &&& notice@ == NoticeView::Error("Nothing to save"@)
                },
            },
    {
        match written {
            Ok(_) => self.save_phrase(book),
            Err(_) => {
                self.apply_edit();
                if self.phrase.is_some() {
                    Notice::Error("Phrase could not be saved".to_owned())
                } else {
                    Notice::Error("Nothing to save".to_owned())
                }
            },
        }
    }

    /// Puts the results of a search on display.
    pub fn show_results(&mut self, found: Vec<Phrase>) -> (notice: Option<Notice>)
        ensures
            final(self)@ == old(self)@.showing(phrase_views(found@)),
            notice_view(notice) == search_notice(phrase_views(found@)),
    {
        if found.len() == 0 {
            Some(Notice::Info("Nothing found".to_owned()))
        } else if found.len() == 1 {
            self.phrase = Some(found[0].clone());
            self.phrases = Vec::new();
            assert(self@.phrases =~= Seq::empty());
            None
        } else {
            self.phrase = None;
            self.phrases = found;
            None
        }
    }

    /// Takes in how a search went: what was found goes on display as
    /// [`AppState::show_results`] does it; after a search that failed
    /// everything stays as it was and the message says so.
    pub fn show_search(&mut self, searched: Result<Vec<Phrase>, PersistenceError>) -> (notice: Option<
        Notice,
    >)
        ensures
            match searched {
                Ok(found) => {
                    &&& final(self)@ == old(self)@.showing(phrase_views(found@))
                    &&& notice_view(notice) == search_notice(phrase_views(found@))
                },
                Err(_) => {
                    &&& final(self)@ == old(self)@
                    &&& notice_view(notice) == Some(NoticeView::Info("Failed to load phrases"@))
                },
            },
    {
        match searched {
            Ok(found) => self.show_results(found),
            Err(_) => Some(Notice::Info("Failed to load phrases".to_owned())),
        }
    }

    /// Looks up the text in the input in `book` and puts what was found on
    /// display.
    pub fn read_phrases(&mut self, book: &PhraseBook) -> (notice: Option<Notice>)
        ensures
            final(self)@ == old(self)@.showing(
                phrases_of(matching(book@.phrases, old(self)@.phrase_input)),
            ),
            notice_view(notice) == search_notice(
                phrases_of(matching(book@.phrases, old(self)@.phrase_input)),
            ),
    {
        let found = book.search_phrases(self.phrase_input.as_str());
        self.show_results(found)
    }

    /// Asks for the translation of the text in the input, at `now`.
    ///
    /// While a request is under way nothing changes. With no model installed
    /// the submission fails and nothing changes. Otherwise the phrase on
    /// display is taken down and the request is under way.
    pub fn query_llm(&mut self, now: u64) -> (submission: Result<Submission, LLMError>)
        ensures
            final(self)@ == (AppStateView {
                query: state_after_submit(
                    old(self)@.query,
                    old(self)@.local_llm_models.len() > 0,
                    now,
                ),
                phrase: if old(self)@.query is Idle && old(self)@.local_llm_models.len() > 0 {
                    None
                } else {
                    old(self)@.phrase
                },
                ..old(self)@
            }),
            old(self)@.query is Pending ==> submission == Ok::<Submission, LLMError>(
                Submission::Ignored,
            ),
            old(self)@.query is Idle && old(self)@.local_llm_models.len() == 0 ==> submission is Err
                && submission->Err_0@ == LLMErrorView::LocalModelNotFound,
            old(self)@.query is Idle && old(self)@.local_llm_models.len() > 0 ==> (
            submission matches Ok(Submission::Started { model, prompt }) && prompt@ == prompt_for(
                old(self)@.phrase_input,
            ) && is_selection(
                old(self)@.local_llm_models,
                Some(old(self)@.selected_llm_model),
                model@,
            )),
    {
        let available = clone_names(&self.local_llm_models);
        let submission = self.query.submit(
            self.phrase_input.as_str(),
            available,
            Some(self.selected_llm_model.as_str()),
            now,
        );
        match &submission {
            Ok(Submission::Started { .. }) => {
                self.phrase = None;
            },
            _ => {},
        }
        submission
    }

    /// Takes in how a request ended: a phrase goes on display, with its
    /// original text in the input; a failure becomes a message.
    pub fn conclude(&mut self, outcome: Outcome) -> (notice: Option<Notice>)
        ensures
            final(self)@ == old(self)@.concluded(outcome@),
            notice_view(notice) == outcome_notice(outcome@),
    {
        self.query.state = QueryState::Idle;
        match outcome {
            Outcome::Succeeded(phrase) => {
                self.phrase_input = phrase.original.clone();
                self.phrase = Some(phrase);
                None
            },
            Outcome::Failed(error) => {
                let cause = error.cause();
                Some(Notice::Error("Querying LLM failed: ".to_owned().concat(cause.as_str())))
            },
            Outcome::TimedOut => Some(Notice::Error("LLM query timed out".to_owned())),
            Outcome::Cancelled => None,
        }
    }

    /// Looks at the running request at `now`, given what the caller found,
    /// and takes in its outcome where there is one.
    pub fn poll(&mut self, completion: Completion, now: u64) -> (tick: Tick)
        ensures
            match poll_outcome(old(self)@.query, completion@, now) {
                Some(outcome) => {
                    &&& final(self)@ == old(self)@.concluded(outcome)
                    &&& tick@ == TickView::Finished(outcome_notice(outcome))
                },
                None => final(self)@ == old(self)@ && tick@ == TickView::NoOutcome,
            },
    {
        match self.query.poll(completion, now) {
            Some(outcome) => Tick::Finished(self.conclude(outcome)),
            None => Tick::NoOutcome,
        }
    }
}

} // verus!
