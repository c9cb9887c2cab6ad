//! The lifecycle of one translation request. The request itself runs
//! elsewhere; here stand the decisions: whether a request may start, which
//! model and prompt it gets, and what a finished, failed, overdue or
//! cancelled request amounts to. At most one request is under way at a time.

use crate::llm::{
    get_prompt, installed_models, is_selection, names_of, outcome_view, prompt_for, read_response,
    response_outcome, select_model, wish_view, LLMError, LLMErrorView, OllamaFailure,
    OllamaFailureView,
};
use crate::model::{Phrase, PhraseView};
use vstd::prelude::*;

verus! {

/// A request that has been under way for more than this many seconds is
/// given up.
pub const TIMEOUT_SECONDS: u64 = 60;

/// Whether a request is under way, and since when (in seconds of the
/// caller's clock).
#[derive(Clone, Copy, Debug, PartialEq, Eq, Structural)]
pub enum QueryState {
    Idle,
    Pending { started_at: u64 },
}

/// What the caller found when it looked at the running request.
#[derive(Debug, PartialEq, Eq)]
pub enum Completion {
    /// The request has not come back yet.
    Waiting,
    /// The model answered with this text.
    Answer(String),
    /// The call of the model failed.
    Failure(OllamaFailure),
}

/// What a [`Completion`] holds, as sequences of characters.
pub enum CompletionView {
    Waiting,
    Answer(Seq<char>),
    Failure(OllamaFailureView),
}

impl View for Completion {
    type V = CompletionView;

    open spec fn view(&self) -> CompletionView {
        match self {
            Completion::Waiting => CompletionView::Waiting,
            Completion::Answer(raw) => CompletionView::Answer(raw@),
            Completion::Failure(failure) => CompletionView::Failure(failure@),
        }
    }
}

/// How a request ended.
#[derive(Debug, PartialEq, Eq)]
pub enum Outcome {
    Succeeded(Phrase),
    Failed(LLMError),
    TimedOut,
    Cancelled,
}

/// What an [`Outcome`] holds, as sequences of characters.
pub enum OutcomeView {
    Succeeded(PhraseView),
    Failed(LLMErrorView),
    TimedOut,
    Cancelled,
}

impl View for Outcome {
    type V = OutcomeView;

    open spec fn view(&self) -> OutcomeView {
        match self {
            Outcome::Succeeded(phrase) => OutcomeView::Succeeded(phrase@),
            Outcome::Failed(error) => OutcomeView::Failed(error@),
            Outcome::TimedOut => OutcomeView::TimedOut,
            Outcome::Cancelled => OutcomeView::Cancelled,
        }
    }
}

/// What became of a submission.
#[derive(Debug, PartialEq, Eq)]
pub enum Submission {
    /// A request is to be sent: this prompt, to this model.
    Started { model: String, prompt: String },
    /// A request was under way already; nothing is to be sent.
    Ignored,
}

/// The seconds that have passed between `started_at` and `now`; none where
/// the clock reads less than at the start.
pub open spec fn elapsed(started_at: u64, now: u64) -> int {
    if now >= started_at {
        now - started_at
    } else {
        0
    }
}

/// The state after a submission at `now`, given whether any model is
/// installed: a request starts only from `Idle`, and only with a model.
pub open spec fn state_after_submit(state: QueryState, any_model: bool, now: u64) -> QueryState {
    match state {
        QueryState::Idle => if any_model {
            QueryState::Pending { started_at: now }
        } else {
            QueryState::Idle
        },
        QueryState::Pending { .. } => state,
    }
}

/// What a finished request amounts to.
pub open spec fn settled(outcome: Result<PhraseView, LLMErrorView>) -> OutcomeView {
    match outcome {
        Ok(phrase) => OutcomeView::Succeeded(phrase),
        Err(error) => OutcomeView::Failed(error),
    }
}

/// What a look at the request at `now` yields: nothing while no request is
/// under way; the phrase or the failure once the request is back; `TimedOut`
/// where it is not back and more than [`TIMEOUT_SECONDS`] have passed;
/// nothing yet otherwise.
pub open spec fn poll_outcome(state: QueryState, completion: CompletionView, now: u64) -> Option<
    OutcomeView,
> {
    match state {
        QueryState::Idle => None,
        QueryState::Pending { started_at } => match completion {
            CompletionView::Answer(raw) => Some(settled(response_outcome(raw))),
            CompletionView::Failure(failure) => Some(
                OutcomeView::Failed(LLMErrorView::LLMQuery(failure)),
            ),
            CompletionView::Waiting => if elapsed(started_at, now) > TIMEOUT_SECONDS {
                Some(OutcomeView::TimedOut)
            } else {
                None
            },
        },
    }
}

/// The state after a look at the request: `Idle` as soon as there is an
/// outcome, unchanged until then.
pub open spec fn state_after_poll(state: QueryState, completion: CompletionView, now: u64) -> QueryState {
    if poll_outcome(state, completion, now) is Some {
        QueryState::Idle
    } else {
        state
    }
}

/// The view of an optional outcome.
pub open spec fn report_view(report: Option<Outcome>) -> Option<OutcomeView> {
    match report {
        Some(outcome) => Some(outcome@),
        None => None,
    }
}

/// Turns the result of reading an answer into the outcome of the request.
pub fn settle(outcome: Result<Phrase, LLMError>) -> (settled_as: Outcome)
    ensures
        settled_as@ == settled(outcome_view(outcome)),
{
    match outcome {
        Ok(phrase) => Outcome::Succeeded(phrase),
        Err(error) => Outcome::Failed(error),
    }
}

/// Keeps track of the one translation request that may be under way.
#[derive(Debug)]
pub struct QueryOrchestrator {
    pub state: QueryState,
}

impl QueryOrchestrator {
    /// An orchestrator with no request under way.
    pub fn new() -> (fresh: Self)
        ensures
            fresh.state == QueryState::Idle,
    {
        QueryOrchestrator { state: QueryState::Idle }
    }

    /// Whether a request is under way.
    pub fn is_pending(&self) -> (pending: bool)
        ensures
            pending == (self.state is Pending),
    {
        match self.state {
            QueryState::Pending { .. } => true,
            QueryState::Idle => false,
        }
    }

    /// Asks for the translation of `text` at `now`, with the models that the
    /// server listed and the name that is configured, if any.
    ///
    /// While a request is under way nothing changes and nothing is to be
    /// sent. Otherwise, with no model listed, the submission fails with
    /// `LocalModelNotFound`; with one, the request is under way from `now`,
    /// with the prompt for `text` and the model that the selection rule picks.
    pub fn submit(
        &mut self,
        text: &str,
        available: Vec<String>,
        configured: Option<&str>,
        now: u64,
    ) -> (submission: Result<Submission, LLMError>)
        ensures
            final(self).state == state_after_submit(old(self).state, available@.len() > 0, now),
            old(self).state is Pending ==> submission == Ok::<Submission, LLMError>(
                Submission::Ignored,
            ),
            old(self).state is Idle && available@.len() == 0 ==> submission is Err
                && submission->Err_0@ == LLMErrorView::LocalModelNotFound,
            old(self).state is Idle && available@.len() > 0 ==> (submission matches Ok(
                Submission::Started { model, prompt },
            ) && prompt@ == prompt_for(text@) && is_selection(
                names_of(available@),
                wish_view(configured),
                model@,
            )),
    {
        if self.is_pending() {
            return Ok(Submission::Ignored);
        }
        let models = match installed_models(available) {
            Ok(models) => models,
            Err(error) => {
                return Err(error);
            },
        };
        match select_model(&models, configured) {
            Some(model) => {
                let prompt = get_prompt(text);
                self.state = QueryState::Pending { started_at: now };
                Ok(Submission::Started { model, prompt })
            },
            None => Err(LLMError::LocalModelNotFound),
        }
    }

    /// Looks at the running request at `now`, given what the caller found.
    ///
    /// An outcome ends the request: the state is `Idle` afterwards, and the
    /// caller drops the request where it was still waiting for it.
    pub fn poll(&mut self, completion: Completion, now: u64) -> (report: Option<Outcome>)
        ensures
            report_view(report) == poll_outcome(old(self).state, completion@, now),
            final(self).state == state_after_poll(old(self).state, completion@, now),
    {
        match self.state {
            QueryState::Idle => None,
            QueryState::Pending { started_at } => match completion {
                Completion::Answer(raw) => {
                    self.state = QueryState::Idle;
                    Some(settle(read_response(raw.as_str())))
                },
                Completion::Failure(failure) => {
                    self.state = QueryState::Idle;
                    Some(Outcome::Failed(LLMError::LLMQuery(failure)))
                },
                Completion::Waiting => {
                    if now >= started_at && now - started_at > TIMEOUT_SECONDS {
                        self.state = QueryState::Idle;
                        Some(Outcome::TimedOut)
                    } else {
                        None
                    }
                },
            },
        }
    }

    /// Gives up the running request: it is no longer tracked, whatever it
    /// still delivers. With no request under way nothing happens.
    pub fn cancel(&mut self) -> (report: Option<Outcome>)
        ensures
            final(self).state == QueryState::Idle,
            old(self).state is Pending ==> report_view(report) == Some(OutcomeView::Cancelled),
            old(self).state is Idle ==> report is None,
    {
        if self.is_pending() {
            self.state = QueryState::Idle;
            Some(Outcome::Cancelled)
        } else {
            None
        }
    }
}

/// While a request is under way, a submission starts nothing: the state
/// stays as it is, whatever is asked for and whenever.
pub proof fn lemma_submit_while_pending(state: QueryState, any_model: bool, now: u64)
    requires
        state is Pending,
    ensures
        state_after_submit(state, any_model, now) == state,
{
}

/// After a submission that started a request, every further submission
/// leaves the request that is under way as it is: there is never a second
/// one.
pub proof fn lemma_one_request_at_a_time(
    state: QueryState,
    now: u64,
    any_model_later: bool,
    later: u64,
)
    requires
        state is Idle,
    ensures
        ({
            let started = state_after_submit(state, true, now);
            &&& started == QueryState::Pending { started_at: now }
            &&& state_after_submit(started, any_model_later, later) == started
        }),
{
}

/// A request that is not back when more than [`TIMEOUT_SECONDS`] have passed
/// since it started ends as `TimedOut`, and no request is under way after
/// that; up to that moment a request that is not back stays under way.
pub proof fn lemma_timeout(started_at: u64, now: u64)
    ensures
        ({
            let state = QueryState::Pending { started_at };
            &&& now - started_at > TIMEOUT_SECONDS ==> {
                &&& poll_outcome(state, CompletionView::Waiting, now) == Some(
                    OutcomeView::TimedOut,
                )
                &&& state_after_poll(state, CompletionView::Waiting, now) == QueryState::Idle
            }
            &&& now - started_at <= TIMEOUT_SECONDS ==> {
                &&& poll_outcome(state, CompletionView::Waiting, now) is None
                &&& state_after_poll(state, CompletionView::Waiting, now) == state
            }
        }),
{
}

/// A request has one outcome: once a look at it has yielded one, no request
/// is under way, and a further look yields nothing, whatever it finds.
pub proof fn lemma_one_outcome(
    state: QueryState,
    completion: CompletionView,
    now: u64,
    next_completion: CompletionView,
    later: u64,
)
    requires
        poll_outcome(state, completion, now) is Some,
    ensures
        state is Pending,
        state_after_poll(state, completion, now) == QueryState::Idle,
        poll_outcome(state_after_poll(state, completion, now), next_completion, later) is None,
{
}

} // verus!
