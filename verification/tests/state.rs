use hanzi::llm::{get_prompt, LLMError, OllamaFailure};
use hanzi::model::Phrase;
use hanzi::persistence::{PersistenceError, PhraseBook};
use hanzi::query::{Completion, Outcome, QueryState, Submission};
use hanzi::state::{AppState, Notice, Tick, LANGUAGE_CODE, LANGUAGE_NAME};

fn fresh() -> AppState {
    AppState::new(vec!["llama3".to_string(), "mistral:7b".to_string()], "llama3".to_string())
}

fn hello() -> Phrase {
    Phrase::new("你好", "Nǐ hǎo", "Hello")
}

#[test]
fn state_starts_with_a_sample_and_nothing_on_display() {
    let state = fresh();
    assert_eq!(state.phrase_input, "学习汉语很有趣！");
    assert_eq!(state.translation_input, "Learning Chinese is fun!");
    assert_eq!(state.pinyin_input, "Xuéxí Hànyǔ Hěn Yòuqù!");
    assert_eq!(state.phrase, None);
    assert_eq!(state.phrases, Vec::new());
    assert_eq!(state.query.state, QueryState::Idle);
    assert_eq!(state.selected_llm_model, "llama3");
    assert_eq!(state.local_llm_models.len(), 2);
    assert!(!state.open_settings && !state.open_about && !state.open_help && !state.edit_result);
}

#[test]
fn edit_starts_on_the_phrase_on_display_and_ends_with_empty_texts() {
    let mut state = fresh();
    state.edit();
    assert!(!state.edit_result);
    assert_eq!(state.translation_input, "Learning Chinese is fun!");

    state.phrase = Some(hello());
    state.edit();
    assert!(state.edit_result);
    assert_eq!(state.translation_input, "Hello");
    assert_eq!(state.pinyin_input, "Nǐ hǎo");

    state.edit();
    assert!(!state.edit_result);
    assert_eq!(state.translation_input, "");
    assert_eq!(state.pinyin_input, "");
    assert_eq!(state.phrase, Some(hello()));
}

#[test]
fn escape_closes_everything() {
    let mut state = fresh();
    state.phrase = Some(hello());
    state.edit();
    state.open_about = true;
    state.open_help = true;
    state.open_settings = true;
    state.query_llm(5).unwrap();
    assert_eq!(state.handle_escape(), Some(Outcome::Cancelled));
    assert_eq!(state.query.state, QueryState::Idle);
    assert!(!state.open_settings && !state.open_about && !state.open_help && !state.edit_result);
    assert_eq!(state.translation_input, "");
    assert_eq!(state.handle_escape(), None);
}

#[test]
fn save_without_a_phrase_saves_nothing() {
    let mut state = fresh();
    let mut book = PhraseBook::new();
    assert_eq!(state.save_phrase(&mut book), Notice::Error("Nothing to save".to_string()));
    assert_eq!(book.phrases.len(), 0);
    assert_eq!(book.languages.len(), 0);
}

#[test]
fn save_files_the_phrase_on_display() {
    let mut state = fresh();
    let mut book = PhraseBook::new();
    state.phrase = Some(hello());
    assert_eq!(
        state.save_phrase(&mut book),
        Notice::Info("Phrase saved successfully".to_string())
    );
    assert_eq!(state.phrase, Some(hello()));
    assert_eq!(book.search_phrases("Hello"), vec![hello()]);
    assert_eq!(book.languages.get_language_id(LANGUAGE_CODE), Ok(1));
    assert_eq!(book.languages.get(0).unwrap().name, LANGUAGE_NAME);
}

#[test]
fn save_during_an_edit_takes_the_edited_texts() {
    let mut state = fresh();
    let mut book = PhraseBook::new();
    state.phrase = Some(hello());
    state.edit();
    state.translation_input = "Hi".to_string();
    state.pinyin_input = "Ni hao".to_string();
    assert_eq!(
        state.save_phrase(&mut book),
        Notice::Info("Phrase saved successfully".to_string())
    );
    assert_eq!(state.phrase, Some(Phrase::new("你好", "Ni hao", "Hi")));
    assert_eq!(book.search_phrases("你好"), vec![Phrase::new("你好", "Ni hao", "Hi")]);
    assert!(state.edit_result);
}

#[test]
fn learn_is_announced() {
    assert_eq!(
        fresh().learn(),
        Notice::Info("This is where the learning mask will open".to_string())
    );
}

#[test]
fn results_go_on_display_by_their_number() {
    let mut state = fresh();
    state.phrase = Some(hello());
    assert_eq!(state.show_results(Vec::new()), Some(Notice::Info("Nothing found".to_string())));
    assert_eq!(state.phrase, Some(hello()));

    let bye = Phrase::new("再见", "Zàijiàn", "Goodbye");
    assert_eq!(state.show_results(vec![hello(), bye.clone()]), None);
    assert_eq!(state.phrase, None);
    assert_eq!(state.phrases, vec![hello(), bye.clone()]);

    assert_eq!(state.show_results(vec![bye.clone()]), None);
    assert_eq!(state.phrase, Some(bye));
    assert_eq!(state.phrases, Vec::new());
}

#[test]
fn input_is_looked_up_in_the_book() {
    let mut state = fresh();
    let mut book = PhraseBook::new();
    book.save_phrase(&hello(), "Chinese", "zh").unwrap();
    book.save_phrase(&Phrase::new("你好吗", "Nǐ hǎo ma", "How are you"), "Chinese", "zh").unwrap();

    state.phrase_input = "吗".to_string();
    assert_eq!(state.read_phrases(&book), None);
    assert_eq!(state.phrase, Some(Phrase::new("你好吗", "Nǐ hǎo ma", "How are you")));

    state.phrase_input = "你好".to_string();
    assert_eq!(state.read_phrases(&book), None);
    assert_eq!(state.phrase, None);
    assert_eq!(state.phrases.len(), 2);

    state.phrase_input = "谢谢".to_string();
    assert_eq!(state.read_phrases(&book), Some(Notice::Info("Nothing found".to_string())));
    assert_eq!(state.phrases.len(), 2);
}

#[test]
fn query_takes_the_phrase_down_and_starts_a_request() {
    let mut state = fresh();
    state.phrase = Some(hello());
    state.phrase_input = "再见".to_string();
    assert_eq!(
        state.query_llm(42),
        Ok(Submission::Started { model: "llama3".to_string(), prompt: get_prompt("再见") })
    );
    assert_eq!(state.phrase, None);
    assert_eq!(state.query.state, QueryState::Pending { started_at: 42 });
}

#[test]
fn query_while_pending_changes_nothing() {
    let mut state = fresh();
    state.query_llm(42).unwrap();
    state.phrase = Some(hello());
    assert_eq!(state.query_llm(50), Ok(Submission::Ignored));
    assert_eq!(state.phrase, Some(hello()));
    assert_eq!(state.query.state, QueryState::Pending { started_at: 42 });
}

#[test]
fn query_without_models_fails() {
    let mut state = AppState::new(Vec::new(), "llama3".to_string());
    state.phrase = Some(hello());
    assert_eq!(state.query_llm(42), Err(LLMError::LocalModelNotFound));
    assert_eq!(state.phrase, Some(hello()));
    assert_eq!(state.query.state, QueryState::Idle);
}

#[test]
fn answer_goes_on_display() {
    let mut state = fresh();
    state.phrase_input = "你 好".to_string();
    state.query_llm(0).unwrap();
    assert_eq!(state.poll(Completion::Waiting, 1), Tick::NoOutcome);
    let raw = "{\"original\":\"你好\",\"pinyin\":\"Nǐ hǎo\",\"translation\":\"Hello\"}";
    assert_eq!(state.poll(Completion::Answer(raw.to_string()), 2), Tick::Finished(None));
    assert_eq!(state.phrase, Some(hello()));
    assert_eq!(state.phrase_input, "你好");
    assert_eq!(state.query.state, QueryState::Idle);
    assert_eq!(state.poll(Completion::Waiting, 3), Tick::NoOutcome);
}

#[test]
fn failure_and_timeout_become_messages() {
    let mut state = fresh();
    state.query_llm(0).unwrap();
    let failure = OllamaFailure::InternalError("model crashed".to_string());
    assert_eq!(
        state.poll(Completion::Failure(failure), 2),
        Tick::Finished(Some(Notice::Error("Querying LLM failed: model crashed".to_string())))
    );
    state.query_llm(10).unwrap();
    assert_eq!(state.poll(Completion::Waiting, 70), Tick::NoOutcome);
    assert_eq!(
        state.poll(Completion::Waiting, 71),
        Tick::Finished(Some(Notice::Error("LLM query timed out".to_string())))
    );
    assert_eq!(state.query.state, QueryState::Idle);
    assert_eq!(state.phrase, None);
}

#[test]
fn outcome_is_taken_in() {
    let mut state = fresh();
    assert_eq!(state.conclude(Outcome::Cancelled), None);
    assert_eq!(state.conclude(Outcome::Succeeded(hello())), None);
    assert_eq!(state.phrase, Some(hello()));
    assert_eq!(
        state.conclude(Outcome::Failed(LLMError::InvalidJson("hm".to_string()))),
        Some(Notice::Error("Querying LLM failed: hm".to_string()))
    );
    assert_eq!(state.phrase, Some(hello()));
}

#[test]
fn search_that_failed_leaves_everything_and_says_so() {
    let mut state = fresh();
    state.phrase = Some(hello());
    state.phrases = vec![hello()];
    let failed = Err(PersistenceError::Connection("no file".to_string()));
    assert_eq!(
        state.show_search(failed),
        Some(Notice::Info("Failed to load phrases".to_string()))
    );
    assert_eq!(state.phrase, Some(hello()));
    assert_eq!(state.phrases, vec![hello()]);
}

#[test]
fn search_that_found_nothing_says_something_else_than_one_that_failed() {
    let mut state = fresh();
    state.phrase = Some(hello());
    let nothing = state.show_search(Ok(Vec::new()));
    let failed = state.show_search(Err(PersistenceError::Execution("locked".to_string())));
    assert_eq!(nothing, Some(Notice::Info("Nothing found".to_string())));
    assert_ne!(nothing, failed);
    assert_eq!(state.phrase, Some(hello()));
}

#[test]
fn search_that_went_well_goes_on_display() {
    let mut state = fresh();
    assert_eq!(state.show_search(Ok(vec![hello()])), None);
    assert_eq!(state.phrase, Some(hello()));
}

#[test]
fn phrase_to_save_takes_the_texts_of_a_running_edit() {
    let mut state = fresh();
    assert_eq!(state.phrase_to_save(), None);
    state.phrase = Some(hello());
    assert_eq!(state.phrase_to_save(), Some(hello()));
    state.edit();
    state.translation_input = "Hi".to_string();
    state.pinyin_input = "Ni hao".to_string();
    assert_eq!(state.phrase_to_save(), Some(Phrase::new("你好", "Ni hao", "Hi")));
    assert_eq!(state.phrase, Some(hello()));
}

#[test]
fn write_that_failed_keeps_the_phrase_out_of_the_book() {
    let mut state = fresh();
    let mut book = PhraseBook::new();
    state.phrase = Some(hello());
    state.edit();
    state.translation_input = "Hi".to_string();
    let failed = Err(PersistenceError::Execution("disk full".to_string()));
    assert_eq!(
        state.finish_save(&mut book, failed),
        Notice::Error("Phrase could not be saved".to_string())
    );
    assert_eq!(book.phrases.len(), 0);
    assert_eq!(book.languages.len(), 0);
    assert_eq!(book.search_phrases("你好"), Vec::new());
    assert_eq!(state.phrase, Some(Phrase::new("你好", "Nǐ hǎo", "Hi")));
}

#[test]
fn write_that_went_well_puts_the_phrase_in_the_book() {
    let mut state = fresh();
    let mut book = PhraseBook::new();
    state.phrase = Some(hello());
    assert_eq!(
        state.finish_save(&mut book, Ok(1)),
        Notice::Info("Phrase saved successfully".to_string())
    );
    assert_eq!(book.search_phrases("你好"), vec![hello()]);
}

#[test]
fn nothing_on_display_is_nothing_to_save_however_the_write_went() {
    let mut state = fresh();
    let mut book = PhraseBook::new();
    assert_eq!(state.finish_save(&mut book, Ok(1)), Notice::Error("Nothing to save".to_string()));
    let failed = Err(PersistenceError::NotFound);
    assert_eq!(state.finish_save(&mut book, failed), Notice::Error("Nothing to save".to_string()));
    assert_eq!(book.phrases.len(), 0);
}
