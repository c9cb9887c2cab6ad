//! Talking to the language model: the prompt that asks for a translation,
//! the choice of the model, and the reading of the model's answer.

use crate::json::{self, json_error_text, json_member, json_parse, json_text};
use crate::model::{Phrase, PhraseView};
use crate::nonempty::{self, nevec_items};
use crate::text::{
    chars_of, find_char, has_prefix, is_substring, occurs_at, rfind_char, starts_with,
};
use nonempty_collections::NEVec;
use vstd::prelude::*;

verus! {

/// How a call of the model server failed, with the server's or the
/// transport's own words.
#[derive(Debug, PartialEq, Eq)]
pub enum OllamaFailure {
    /// A tool that the model asked for could not be called.
    ToolCallError(String),
    /// The server's answer was not the JSON that the protocol asks for.
    JsonError(String),
    /// The request did not get through.
    ReqwestError(String),
    /// The server reported a failure of its own.
    InternalError(String),
    /// The server refused the request.
    Other(String),
}

/// What an [`OllamaFailure`] holds, as sequences of characters.
pub enum OllamaFailureView {
    ToolCallError(Seq<char>),
    JsonError(Seq<char>),
    ReqwestError(Seq<char>),
    InternalError(Seq<char>),
    Other(Seq<char>),
}

impl View for OllamaFailure {
    type V = OllamaFailureView;

    open spec fn view(&self) -> OllamaFailureView {
        match self {
            OllamaFailure::ToolCallError(m) => OllamaFailureView::ToolCallError(m@),
            OllamaFailure::JsonError(m) => OllamaFailureView::JsonError(m@),
            OllamaFailure::ReqwestError(m) => OllamaFailureView::ReqwestError(m@),
            OllamaFailure::InternalError(m) => OllamaFailureView::InternalError(m@),
            OllamaFailure::Other(m) => OllamaFailureView::Other(m@),
        }
    }
}

impl OllamaFailureView {
    /// The words that came with the failure.
    pub open spec fn message(self) -> Seq<char> {
        match self {
            OllamaFailureView::ToolCallError(m) => m,
            OllamaFailureView::JsonError(m) => m,
            OllamaFailureView::ReqwestError(m) => m,
            OllamaFailureView::InternalError(m) => m,
            OllamaFailureView::Other(m) => m,
        }
    }
}

/// Why a translation could not be had from the model.
#[derive(Debug, PartialEq, Eq)]
pub enum LLMError {
    /// The call of the model server failed.
    LLMQuery(OllamaFailure),
    /// The model's answer held a JSON span that is no phrase.
    LLMResponse(String),
    /// The model's answer held no JSON span; the answer is kept.
    InvalidJson(String),
    /// No model is installed.
    LocalModelNotFound,
}

/// What an [`LLMError`] holds, as sequences of characters.
pub enum LLMErrorView {
    LLMQuery(OllamaFailureView),
    LLMResponse(Seq<char>),
    InvalidJson(Seq<char>),
    LocalModelNotFound,
}

impl View for LLMError {
    type V = LLMErrorView;

    open spec fn view(&self) -> LLMErrorView {
        match self {
            LLMError::LLMQuery(failure) => LLMErrorView::LLMQuery(failure@),
            LLMError::LLMResponse(message) => LLMErrorView::LLMResponse(message@),
            LLMError::InvalidJson(text) => LLMErrorView::InvalidJson(text@),
            LLMError::LocalModelNotFound => LLMErrorView::LocalModelNotFound,
        }
    }
}

/// The kinds of failure that a caller tells apart.
#[derive(Clone, Copy, Debug, PartialEq, Eq, Structural)]
pub enum ErrorKind {
    /// No model is installed.
    ModelNotFound,
    /// The call failed on the way to the server or back.
    Transport,
    /// The server reported a failure of its own.
    ModelInternal,
    /// The answer held no JSON span.
    Extraction,
    /// The JSON span is no phrase.
    Decode,
}

impl LLMErrorView {
    /// The kind of this error.
    pub open spec fn kind(self) -> ErrorKind {
        match self {
            LLMErrorView::LLMQuery(OllamaFailureView::ReqwestError(_)) => ErrorKind::Transport,
            LLMErrorView::LLMQuery(OllamaFailureView::JsonError(_)) => ErrorKind::Transport,
            LLMErrorView::LLMQuery(_) => ErrorKind::ModelInternal,
            LLMErrorView::LLMResponse(_) => ErrorKind::Decode,
            LLMErrorView::InvalidJson(_) => ErrorKind::Extraction,
            LLMErrorView::LocalModelNotFound => ErrorKind::ModelNotFound,
        }
    }

    /// What lies behind this error, in words.
    pub open spec fn cause(self) -> Seq<char> {
        match self {
            LLMErrorView::LLMQuery(failure) => failure.message(),
            LLMErrorView::LLMResponse(message) => message,
            LLMErrorView::InvalidJson(text) => text,
            LLMErrorView::LocalModelNotFound => "Local LLM model not found"@,
        }
    }

    /// The text shown for this error.
    pub open spec fn message(self) -> Seq<char> {
        match self {
            LLMErrorView::LLMQuery(_) => "LLM query failed"@,
            LLMErrorView::LLMResponse(_) => "LLM response processing failed"@,
            LLMErrorView::InvalidJson(text) => "Invalid JSON cound not be extracted: "@ + text,
            LLMErrorView::LocalModelNotFound => "Local LLM models not found"@,
        }
    }
}

impl LLMError {
    /// The kind of this error: a failed request counts as a transport
    /// failure where it did not get through or the server's answer broke the
    /// protocol, and as a failure of the server otherwise.
    pub fn kind(&self) -> (kind: ErrorKind)
        ensures
            kind == self@.kind(),
    {
        match self {
            LLMError::LLMQuery(OllamaFailure::ReqwestError(_)) => ErrorKind::Transport,
            LLMError::LLMQuery(OllamaFailure::JsonError(_)) => ErrorKind::Transport,
            LLMError::LLMQuery(_) => ErrorKind::ModelInternal,
            LLMError::LLMResponse(_) => ErrorKind::Decode,
            LLMError::InvalidJson(_) => ErrorKind::Extraction,
            LLMError::LocalModelNotFound => ErrorKind::ModelNotFound,
        }
    }

    /// What lies behind this error: the words of the server or of the
    /// decoder, unchanged, or the text in which no JSON was found.
    pub fn cause(&self) -> (words: String)
        ensures
            words@ == self@.cause(),
    {
        match self {
            LLMError::LLMQuery(failure) => match failure {
                OllamaFailure::ToolCallError(message) => message.clone(),
                OllamaFailure::JsonError(message) => message.clone(),
                OllamaFailure::ReqwestError(message) => message.clone(),
                OllamaFailure::InternalError(message) => message.clone(),
                OllamaFailure::Other(message) => message.clone(),
            },
            LLMError::LLMResponse(message) => message.clone(),
            LLMError::InvalidJson(text) => text.clone(),
            LLMError::LocalModelNotFound => "Local LLM model not found".to_owned(),
        }
    }

    /// The text shown for this error.
    pub fn to_string(&self) -> (text: String)
        ensures
            text@ == self@.message(),
    {
        match self {
            LLMError::LLMQuery(_) => "LLM query failed".to_owned(),
            LLMError::LLMResponse(_) => "LLM response processing failed".to_owned(),
            LLMError::InvalidJson(text) => "Invalid JSON cound not be extracted: ".to_owned().concat(
                text.as_str(),
            ),
            LLMError::LocalModelNotFound => "Local LLM models not found".to_owned(),
        }
    }
}

/// The outcome of reading an answer, as sequences of characters.
pub open spec fn outcome_view(outcome: Result<Phrase, LLMError>) -> Result<
    PhraseView,
    LLMErrorView,
> {
    match outcome {
        Ok(phrase) => Ok(phrase@),
        Err(error) => Err(error@),
    }
}

/// The instruction that every prompt begins with.
pub const PROMPT_INSTRUCTION: &'static str =
    "\nTranslate the following Chinese phrase into English and return the result as JSON containing the original text as 'original', it's Pinyin as 'pinyin', and the translation as 'translation'.\n\nChinese phrase: ";

/// The prompt that asks the model for the translation of `request`: the
/// instruction, then `request` as it is.
pub open spec fn prompt_for(request: Seq<char>) -> Seq<char> {
    PROMPT_INSTRUCTION@ + request
}

/// The prompt for `request`. It ends with `request`, unchanged.
pub fn get_prompt(request: &str) -> (prompt: String)
    ensures
        prompt@ == prompt_for(request@),
        occurs_at(prompt@, request@, PROMPT_INSTRUCTION@.len() as int),
        is_substring(request@, prompt@),
{
    proof {
        lemma_prompt_holds_request(request@);
    }
    PROMPT_INSTRUCTION.to_owned().concat(request)
}

/// Every prompt holds the text that it asks about, unchanged, after the
/// instruction.
pub proof fn lemma_prompt_holds_request(request: Seq<char>)
    ensures
        occurs_at(prompt_for(request), request, PROMPT_INSTRUCTION@.len() as int),
        is_substring(request, prompt_for(request)),
{
    let at = PROMPT_INSTRUCTION@.len() as int;
    assert(prompt_for(request).subrange(at, at + request.len()) =~= request);
    assert(occurs_at(prompt_for(request), request, at));
}

/// The JSON span of `text`: what stands from the first `{` to the last `}`,
/// both included, where `text` holds both and the first `{` comes before the
/// last `}`.
pub open spec fn json_span(text: Seq<char>) -> Option<Seq<char>> {
    match (text.index_of_first('{'), text.index_of_last('}')) {
        (Some(start), Some(end)) => if start < end {
            Some(text.subrange(start, end + 1))
        } else {
            None
        },
        _ => None,
    }
}

/// The JSON span of a text, said without `index_of_first` and
/// `index_of_last`: where `{` stands at `start` and nowhere before, and `}`
/// stands at `end` and nowhere after, the span is what stands from `start` to
/// `end`, or none if `end` comes first; a text that lacks `{` or `}` has no
/// span.
pub proof fn lemma_json_span(text: Seq<char>, start: int, end: int)
    ensures
        !text.contains('{') || !text.contains('}') ==> json_span(text) is None,
        ({
            &&& 0 <= start < text.len()
            &&& text[start] == '{'
            &&& forall|k: int| 0 <= k < start ==> text[k] != '{'
            &&& 0 <= end < text.len()
            &&& text[end] == '}'
            &&& forall|k: int| end < k < text.len() ==> text[k] != '}'
        }) ==> json_span(text) == (if start < end {
            Some(text.subrange(start, end + 1))
        } else {
            None
        }),
{
    text.index_of_first_ensures('{');
    text.index_of_last_ensures('}');
}

/// The JSON span of `s`, or `InvalidJson` with `s` where it has none.
pub fn extract_json_string(s: &str) -> (extracted: Result<&str, LLMError>)
    ensures
        match extracted {
            Ok(json) => json_span(s@) == Some(json@),
            Err(error) => json_span(s@) is None && error@ == LLMErrorView::InvalidJson(s@),
        },
{
    let chars = chars_of(s);
    let start = find_char(&chars, '{');
    let end = rfind_char(&chars, '}');
    proof {
        s@.index_of_first_ensures('{');
        s@.index_of_last_ensures('}');
    }
    match (start, end) {
        (Some(start), Some(end)) => {
            if start < end {
                Ok(s.substring_char(start, end + 1))
            } else {
                Err(LLMError::InvalidJson(s.to_owned()))
            }
        },
        _ => Err(LLMError::InvalidJson(s.to_owned())),
    }
}

/// What a JSON document holds under one of the names of a phrase.
#[derive(Debug, PartialEq, Eq)]
pub enum Field {
    /// The document is no object, or has no member of that name.
    Absent,
    /// The member is there, but is no string.
    NotText,
    /// The member is this string.
    Text(String),
}

/// What a [`Field`] holds, as a sequence of characters.
pub enum FieldView {
    Absent,
    NotText,
    Text(Seq<char>),
}

impl View for Field {
    type V = FieldView;

    open spec fn view(&self) -> FieldView {
        match self {
            Field::Absent => FieldView::Absent,
            Field::NotText => FieldView::NotText,
            Field::Text(text) => FieldView::Text(text@),
        }
    }
}

/// The message for a member that is `Absent` or `NotText`.
pub open spec fn field_complaint(field: FieldView, name: Seq<char>) -> Seq<char> {
    match field {
        FieldView::NotText => "invalid type for field `"@ + name + "`, expected a string"@,
        _ => "missing field `"@ + name + "`"@,
    }
}

/// The phrase made of three members, or the complaint about the first of them,
/// in the order original, pinyin, translation, that is no string.
pub open spec fn assembled(original: FieldView, pinyin: FieldView, translation: FieldView) -> Result<
    PhraseView,
    LLMErrorView,
> {
    match (original, pinyin, translation) {
        (FieldView::Text(o), FieldView::Text(p), FieldView::Text(t)) => Ok(
            PhraseView { original: o, pinyin: p, translation: t },
        ),
        (FieldView::Text(_), FieldView::Text(_), _) => Err(
            LLMErrorView::LLMResponse(field_complaint(translation, "translation"@)),
        ),
        (FieldView::Text(_), _, _) => Err(
            LLMErrorView::LLMResponse(field_complaint(pinyin, "pinyin"@)),
        ),
        _ => Err(LLMErrorView::LLMResponse(field_complaint(original, "original"@))),
    }
}

/// The member of `document` under `name`, as far as a phrase cares.
pub open spec fn field_of(document: serde_json::Value, name: Seq<char>) -> FieldView {
    match json_member(document, name) {
        None => FieldView::Absent,
        Some(member) => match json_text(member) {
            None => FieldView::NotText,
            Some(text) => FieldView::Text(text),
        },
    }
}

/// The phrase that `document` holds: its members `original`, `pinyin` and
/// `translation`, each of which has to be a string. Only an object has
/// members, so a list of three strings is no phrase. Members under other
/// names do not count.
pub open spec fn phrase_of(document: serde_json::Value) -> Result<PhraseView, LLMErrorView> {
    assembled(
        field_of(document, "original"@),
        field_of(document, "pinyin"@),
        field_of(document, "translation"@),
    )
}

/// The phrase that the JSON text `json` stands for, or `LLMResponse` with the
/// parser's message where `json` is no JSON, and with a complaint about the
/// member where the document is no phrase.
pub open spec fn decoded(json: Seq<char>) -> Result<PhraseView, LLMErrorView> {
    match json_parse(json) {
        Ok(document) => phrase_of(document),
        Err(error) => Err(LLMErrorView::LLMResponse(json_error_text(error))),
    }
}

/// What the model's answer `raw` amounts to: the phrase in its JSON span, or
/// the reason why there is none.
pub open spec fn response_outcome(raw: Seq<char>) -> Result<PhraseView, LLMErrorView> {
    match json_span(raw) {
        Some(json) => decoded(json),
        None => Err(LLMErrorView::InvalidJson(raw)),
    }
}

fn complaint(field: &Field, name: &str) -> (error: LLMError)
    ensures
        error@ == LLMErrorView::LLMResponse(field_complaint(field@, name@)),
{
    match field {
        Field::NotText => LLMError::LLMResponse(
            "invalid type for field `".to_owned().concat(name).concat("`, expected a string"),
        ),
        _ => LLMError::LLMResponse("missing field `".to_owned().concat(name).concat("`")),
    }
}

/// Makes a phrase of the three members of a document. All three have to be
/// strings; the error names the first that is not.
pub fn assemble_phrase(original: Field, pinyin: Field, translation: Field) -> (outcome: Result<
    Phrase,
    LLMError,
>)
    ensures
        outcome_view(outcome) == assembled(original@, pinyin@, translation@),
{
    match (original, pinyin, translation) {
        (Field::Text(o), Field::Text(p), Field::Text(t)) => Ok(
            Phrase { original: o, pinyin: p, translation: t },
        ),
        (Field::Text(_), Field::Text(_), translation) => Err(
            complaint(&translation, "translation"),
        ),
        (Field::Text(_), pinyin, _) => Err(complaint(&pinyin, "pinyin")),
        (original, _, _) => Err(complaint(&original, "original")),
    }
}

/// Looks up the member `name` of `document`.
pub fn read_field(document: &serde_json::Value, name: &str) -> (field: Field)
    ensures
        field@ == field_of(*document, name@),
{
    match json::member(document, name) {
        None => Field::Absent,
        Some(member) => match json::text(member) {
            None => Field::NotText,
            Some(text) => Field::Text(text.to_owned()),
        },
    }
}

/// Decodes the JSON text `json` into a phrase.
///
/// The text is parsed into a document first, and the three members are read
/// from the document. So a name that the text gives more than once counts
/// with the value that it gives last, and members under other names are
/// passed over. Where the text is no JSON the error carries the parser's
/// message, with line and column; where a member is missing or no string it
/// carries this library's own words, which name the member and no place.
pub fn decode_phrase(json: &str) -> (outcome: Result<Phrase, LLMError>)
    ensures
        outcome_view(outcome) == decoded(json@),
{
    match json::parse(json) {
        Ok(document) => {
            let original = read_field(&document, "original");
            let pinyin = read_field(&document, "pinyin");
            let translation = read_field(&document, "translation");
            assemble_phrase(original, pinyin, translation)
        },
        Err(error) => Err(LLMError::LLMResponse(json::error_text(&error))),
    }
}

/// Reads the model's answer: finds its JSON span and decodes it.
pub fn read_response(raw: &str) -> (outcome: Result<Phrase, LLMError>)
    ensures
        outcome_view(outcome) == response_outcome(raw@),
{
    match extract_json_string(raw) {
        Ok(json) => decode_phrase(json),
        Err(error) => Err(error),
    }
}

/// The texts of a list of names.
pub open spec fn names_of(names: Seq<String>) -> Seq<Seq<char>> {
    names.map_values(|s: String| s@)
}

/// A copy of a list of names.
pub fn clone_names(names: &Vec<String>) -> (copy: Vec<String>)
    ensures
        names_of(copy@) == names_of(names@),
{
    let mut copy: Vec<String> = Vec::new();
    let mut i: usize = 0;
    while i < names.len()
        invariant
            i <= names.len(),
            copy@.len() == i,
            forall|j: int| 0 <= j < i ==> (#[trigger] copy@[j])@ == names@[j]@,
        decreases names.len() - i,
    {
        copy.push(names[i].clone());
        i += 1;
    }
    assert(names_of(copy@) =~= names_of(names@));
    copy
}

/// The family of models that is taken where nothing else is asked for.
pub const DEFAULT_MODEL_FAMILY: &'static str = "mistral";

/// `i` is the place of the first name in `models` that begins with `family`.
pub open spec fn is_first_of_family(models: Seq<Seq<char>>, family: Seq<char>, i: int) -> bool {
    &&& 0 <= i < models.len()
    &&& has_prefix(models[i], family)
    &&& forall|j: int| 0 <= j < i ==> !has_prefix(#[trigger] models[j], family)
}

/// Some name in `models` begins with `family`.
pub open spec fn has_family(models: Seq<Seq<char>>, family: Seq<char>) -> bool {
    exists|i: int| 0 <= i < models.len() && has_prefix(#[trigger] models[i], family)
}

/// `chosen` is the model to use: the configured one where it is installed;
/// else the first installed model of the default family; else the first
/// installed model.
pub open spec fn is_selection(
    models: Seq<Seq<char>>,
    configured: Option<Seq<char>>,
    chosen: Seq<char>,
) -> bool {
    if configured is Some && models.contains(configured->0) {
        chosen == configured->0
    } else if has_family(models, DEFAULT_MODEL_FAMILY@) {
        exists|i: int|
            is_first_of_family(models, DEFAULT_MODEL_FAMILY@, i) && chosen == #[trigger] models[i]
    } else {
        chosen == models[0]
    }
}

/// The text of an optional name.
pub open spec fn wish_view(configured: Option<&str>) -> Option<Seq<char>> {
    match configured {
        Some(name) => Some(name@),
        None => None,
    }
}

/// The installed models, given the names that the server listed: the same
/// names in the same order, or `LocalModelNotFound` where it listed none.
pub fn installed_models(names: Vec<String>) -> (models: Result<NEVec<String>, LLMError>)
    ensures
        match models {
            Ok(list) => names@.len() > 0 && nevec_items(list) == names_of(names@),
            Err(error) => names@.len() == 0 && error@ == LLMErrorView::LocalModelNotFound,
        },
{
    match nonempty::try_from_vec(names) {
        Some(list) => Ok(list),
        None => Err(LLMError::LocalModelNotFound),
    }
}

/// The place in `names` of the model that is preferred: that of `configured`
/// where it is among them, else that of the first name of the default family.
/// `None` where neither is there.
pub fn preferred_position(names: &Vec<String>, configured: Option<&str>) -> (place: Option<usize>)
    ensures
        match place {
            Some(i) => {
                &&& i < names@.len()
                &&& is_selection(names_of(names@), wish_view(configured), names@[i as int]@)
                &&& wish_view(configured) is Some && names_of(names@).contains(
                    wish_view(configured)->0,
                ) || has_family(names_of(names@), DEFAULT_MODEL_FAMILY@)
            },
            None => {
                &&& !(wish_view(configured) is Some && names_of(names@).contains(
                    wish_view(configured)->0,
                ))
                &&& !has_family(names_of(names@), DEFAULT_MODEL_FAMILY@)
            },
        },
{
    let ghost models = names_of(names@);
    if let Some(wanted) = configured {
        let wanted = wanted.to_owned();
        let mut i: usize = 0;
        while i < names.len()
            invariant
                i <= names.len(),
                models == names_of(names@),
                wish_view(configured) == Some(wanted@),
                forall|j: int| 0 <= j < i ==> models[j] != wanted@,
            decreases names.len() - i,
        {
            if names[i] == wanted {
                assert(models[i as int] == wanted@);
                assert(models.contains(wanted@));
                return Some(i);
            }
            i += 1;
        }
    }
    let mut i: usize = 0;
    while i < names.len()
        invariant
            i <= names.len(),
            models == names_of(names@),
            !(wish_view(configured) is Some && models.contains(wish_view(configured)->0)),
            forall|j: int| 0 <= j < i ==> !has_prefix(#[trigger] models[j], DEFAULT_MODEL_FAMILY@),
        decreases names.len() - i,
    {
        if starts_with(names[i].as_str(), DEFAULT_MODEL_FAMILY) {
            assert(is_first_of_family(models, DEFAULT_MODEL_FAMILY@, i as int));
            return Some(i);
        }
        i += 1;
    }
    None
}

/// The model to use among the installed `models`, given the name that is
/// configured, if any. There is none only where the list holds no model,
/// which a list from [`installed_models`] never does.
pub fn select_model(models: &NEVec<String>, configured: Option<&str>) -> (chosen: Option<String>)
    ensures
        chosen is Some <==> nevec_items(*models).len() > 0,
        chosen matches Some(model) ==> is_selection(
            nevec_items(*models),
            wish_view(configured),
            model@,
        ),
{
    let names = nonempty::as_vec(models);
    if names.len() == 0 {
        return None;
    }
    match preferred_position(names, configured) {
        Some(i) => Some(names[i].clone()),
        None => Some(nonempty::first(models).clone()),
    }
}

} // verus!
