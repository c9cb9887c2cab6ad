use hanzi::model::{Phrase, Setting, SettingError, SettingName};
use hanzi::persistence::{PersistenceError, SettingRecord, SettingStore};
use hanzi::screensize::{display_size, get_primary_screen_size, ScreenSize};
use hanzi::settings::{load_setting, setting_error, setting_value};
use hanzi::shortcuts::{about, edit, exercise, find, modifiers, save, settings, Key, KeyboardShortcut, Modifier};
use hanzi::text::{chars_of, contains, find_char, rfind_char, starts_with};
use hanzi::transform::phrases_from;

#[test]
fn setting_name_has_a_key() {
    assert_eq!(SettingName::LlmModel.to_string(), "llm_model");
    assert_eq!(SettingName::from_str("llm_model"), Ok(SettingName::LlmModel));
    assert_eq!(
        SettingName::from_str("colour"),
        Err(SettingError::Unknown("colour".to_string()))
    );
    assert_eq!(SettingName::from_str(""), Err(SettingError::Unknown(String::new())));
    let setting = Setting { name: SettingName::LlmModel, value: "llama3".to_string() };
    assert_eq!(setting.name.to_string(), "llm_model");
}

#[test]
fn setting_errors_have_a_text() {
    assert_eq!(SettingError::Unknown("x".to_string()).to_string(), "Unknown setting: x");
    assert_eq!(SettingError::Load("y".to_string()).to_string(), "Failed to load setting: y");
    assert_eq!(SettingError::What("z".to_string()).to_string(), "What??? z");
}

#[test]
fn failures_of_the_book_are_named_for_settings() {
    assert_eq!(
        setting_error(PersistenceError::Migration("bad step".to_string())),
        SettingError::What("bad step".to_string())
    );
    assert_eq!(
        setting_error(PersistenceError::Connection("no file".to_string())),
        SettingError::Load("No connection to database: no file".to_string())
    );
    assert_eq!(
        setting_error(PersistenceError::Execution("locked".to_string())),
        SettingError::Load("Failed to load: locked".to_string())
    );
    assert_eq!(
        setting_error(PersistenceError::NotFound),
        SettingError::Load("Failed to load: Not found".to_string())
    );
    assert_eq!(
        setting_error(PersistenceError::Insert("settings".to_string())),
        SettingError::Load("Failed to load: Insert into settings failed".to_string())
    );
}

#[test]
fn value_of_a_loaded_row_is_passed_on() {
    let row = SettingRecord { id: 1, name: "llm_model".to_string(), value: "llama3".to_string() };
    assert_eq!(setting_value(Ok(row)), Ok("llama3".to_string()));
    assert_eq!(
        setting_value(Err(PersistenceError::Connection("no file".to_string()))),
        Err(SettingError::Load("No connection to database: no file".to_string()))
    );
}

#[test]
fn setting_is_loaded_from_the_table() {
    let mut store = SettingStore::new();
    assert_eq!(
        load_setting(&store, SettingName::LlmModel),
        Err(SettingError::Load("Failed to load: Not found".to_string()))
    );
    store.save("llm_model", "mistral:7b").unwrap();
    assert_eq!(load_setting(&store, SettingName::LlmModel), Ok("mistral:7b".to_string()));
}

#[test]
fn screen_size_falls_back_to_a_fixed_size() {
    assert_eq!(display_size(), ScreenSize { x: 1200, y: 800 });
    assert_eq!(get_primary_screen_size(), ScreenSize { x: 1200, y: 800 });
}

#[test]
fn shortcuts_take_the_modifier_of_the_machine() {
    assert_eq!(modifiers(true), Modifier::MacCmd);
    assert_eq!(modifiers(false), Modifier::Ctrl);
    assert_eq!(edit(true), KeyboardShortcut { modifier: Modifier::MacCmd, key: Key::E });
    assert_eq!(edit(false), KeyboardShortcut { modifier: Modifier::Ctrl, key: Key::E });
    assert_eq!(save(false), KeyboardShortcut { modifier: Modifier::Ctrl, key: Key::S });
    assert_eq!(find(false), KeyboardShortcut { modifier: Modifier::Ctrl, key: Key::F });
    assert_eq!(exercise(true), KeyboardShortcut { modifier: Modifier::MacCmd, key: Key::X });
    assert_eq!(settings(true), KeyboardShortcut { modifier: Modifier::MacCmd, key: Key::Comma });
    assert_eq!(about(false), KeyboardShortcut { modifier: Modifier::Ctrl, key: Key::B });
}

#[test]
fn phrase_has_a_default_and_a_copy() {
    assert_eq!(Phrase::default(), Phrase::new("", "", ""));
    let phrase = Phrase::new("你好", "Nǐ hǎo", "Hello");
    assert_eq!(phrase.clone(), phrase);
    assert_eq!(phrase.original, "你好");
    assert_eq!(phrase.pinyin, "Nǐ hǎo");
    assert_eq!(phrase.translation, "Hello");
}

#[test]
fn rows_become_phrases_in_their_order() {
    let row = |id: i32, original: &str| hanzi::persistence::PhraseRecord {
        id,
        language_id: 1,
        original: original.to_string(),
        pinyin: "p".to_string(),
        translation: "t".to_string(),
    };
    assert_eq!(
        phrases_from(vec![row(1, "a"), row(2, "b"), row(3, "c")]),
        vec![Phrase::new("a", "p", "t"), Phrase::new("b", "p", "t"), Phrase::new("c", "p", "t")]
    );
    assert_eq!(phrases_from(Vec::new()), Vec::new());
}

#[test]
fn characters_are_counted_not_bytes() {
    assert_eq!(chars_of("你好!"), vec!['你', '好', '!']);
    assert_eq!(find_char(&chars_of("你{好{"), '{'), Some(1));
    assert_eq!(rfind_char(&chars_of("你}好}x"), '}'), Some(3));
    assert_eq!(find_char(&chars_of("abc"), '{'), None);
    assert_eq!(rfind_char(&chars_of(""), '}'), None);
}

#[test]
fn substring_search_is_exact() {
    assert!(contains("Hello", "ell"));
    assert!(contains("Hello", "Hello"));
    assert!(contains("Hello", ""));
    assert!(contains("", ""));
    assert!(!contains("Hello", "hello"));
    assert!(!contains("Hello", "Helloo"));
    assert!(!contains("", "a"));
    assert!(contains("aab", "ab"));
    assert!(contains("你好吗", "好吗"));
    assert!(starts_with("mistral:7b", "mistral"));
    assert!(starts_with("mistral", "mistral"));
    assert!(starts_with("x", ""));
    assert!(!starts_with("mis", "mistral"));
    assert!(!starts_with("xmistral", "mistral"));
}
