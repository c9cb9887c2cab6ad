use hanzi::model::Phrase;
use hanzi::persistence::{
    Language, LanguageResolver, PersistenceError, PhraseBook, PhraseRecord, PhraseStore, SavePlan,
    SettingRecord, SettingStore,
};

fn record(id: i32, language_id: i32, original: &str, pinyin: &str, translation: &str) -> PhraseRecord {
    PhraseRecord {
        id,
        language_id,
        original: original.to_string(),
        pinyin: pinyin.to_string(),
        translation: translation.to_string(),
    }
}

fn rows(store: &PhraseStore) -> Vec<PhraseRecord> {
    (0..store.len()).map(|i| store.get(i).unwrap().clone()).collect()
}

#[test]
fn new_tables_are_empty() {
    assert_eq!(PhraseStore::new().len(), 0);
    assert_eq!(LanguageResolver::new().len(), 0);
    assert_eq!(SettingStore::new().len(), 0);
    assert_eq!(PhraseStore::new().get(0), None);
    assert_eq!(LanguageResolver::new().get(0), None);
}

#[test]
fn save_adds_a_row_with_the_next_id() {
    let mut store = PhraseStore::new();
    assert_eq!(store.save("你好", "Nǐ hǎo", "Hello", 1), Ok(1));
    assert_eq!(store.save("再见", "Zàijiàn", "Goodbye", 1), Ok(1));
    assert_eq!(
        rows(&store),
        vec![record(1, 1, "你好", "Nǐ hǎo", "Hello"), record(2, 1, "再见", "Zàijiàn", "Goodbye")]
    );
    assert_eq!(store.find("再见"), Some(1));
    assert_eq!(store.find("谢谢"), None);
}

#[test]
fn save_twice_leaves_one_row_with_the_second_translation() {
    let mut store = PhraseStore::new();
    store.save("再见", "Zàijiàn", "Goodbye", 1).unwrap();
    assert_eq!(store.save("你好", "Nǐ hǎo", "Hello", 1), Ok(1));
    assert_eq!(store.save("你好", "Nǐ hǎo", "Hi", 1), Ok(1));
    assert_eq!(store.len(), 2);
    let held: Vec<PhraseRecord> =
        rows(&store).into_iter().filter(|row| row.original == "你好").collect();
    assert_eq!(held, vec![record(2, 1, "你好", "Nǐ hǎo", "Hi")]);
}

#[test]
fn save_over_a_row_replaces_pinyin_and_language_too() {
    let mut store = PhraseStore::new();
    store.save("你好", "Ni hao", "Hello", 1).unwrap();
    store.save("你好", "Nǐ hǎo", "Hello there", 2).unwrap();
    assert_eq!(rows(&store), vec![record(1, 2, "你好", "Nǐ hǎo", "Hello there")]);
}

#[test]
fn search_finds_all_and_only_the_rows_that_mention_the_term() {
    let mut store = PhraseStore::new();
    store.save("你好", "Nǐ hǎo", "Hello", 1).unwrap();
    store.save("再见", "Zàijiàn", "Goodbye", 1).unwrap();
    store.save("你好吗", "Nǐ hǎo ma", "How are you", 1).unwrap();
    store.save("好", "Hǎo", "Good", 1).unwrap();

    let by_original = store.search("你好");
    assert_eq!(
        by_original,
        vec![record(1, 1, "你好", "Nǐ hǎo", "Hello"), record(3, 1, "你好吗", "Nǐ hǎo ma", "How are you")]
    );
    let by_translation = store.search("Good");
    assert_eq!(
        by_translation,
        vec![record(2, 1, "再见", "Zàijiàn", "Goodbye"), record(4, 1, "好", "Hǎo", "Good")]
    );
    let by_pinyin = store.search("Zài");
    assert_eq!(by_pinyin, vec![record(2, 1, "再见", "Zàijiàn", "Goodbye")]);

    for term in ["你好", "Good", "Zài", "o", "好", ""] {
        let found = store.search(term);
        for row in rows(&store) {
            let mentions = row.original.contains(term)
                || row.translation.contains(term)
                || row.pinyin.contains(term);
            assert_eq!(found.contains(&row), mentions);
        }
    }
}

#[test]
fn search_keeps_upper_and_lower_case_apart() {
    let mut store = PhraseStore::new();
    store.save("你好", "Nǐ hǎo", "Hello", 1).unwrap();
    assert_eq!(store.search("hello"), Vec::new());
    assert_eq!(store.search("Hello").len(), 1);
}

#[test]
fn search_takes_percent_and_underscore_as_they_are() {
    let mut store = PhraseStore::new();
    store.save("你好", "Nǐ hǎo", "Hello", 1).unwrap();
    store.save("百分之百", "Bǎi fēn zhī bǎi", "100%", 1).unwrap();
    assert_eq!(store.search("%").len(), 1);
    assert_eq!(store.search("_"), Vec::new());
}

#[test]
fn search_for_what_nothing_mentions_finds_nothing() {
    let mut store = PhraseStore::new();
    assert_eq!(store.search("你好"), Vec::new());
    store.save("你好", "Nǐ hǎo", "Hello", 1).unwrap();
    assert_eq!(store.search("谢谢"), Vec::new());
}

#[test]
fn empty_term_finds_every_row() {
    let mut store = PhraseStore::new();
    store.save("你好", "Nǐ hǎo", "Hello", 1).unwrap();
    store.save("再见", "Zàijiàn", "Goodbye", 1).unwrap();
    assert_eq!(store.search(""), rows(&store));
}

#[test]
fn language_is_found_by_its_code() {
    let mut languages = LanguageResolver::new();
    assert_eq!(languages.get_language_id("zh"), Err(PersistenceError::NotFound));
    assert_eq!(languages.create_language("Chinese", "zh"), Ok(1));
    assert_eq!(languages.create_language("Japanese", "ja"), Ok(2));
    assert_eq!(languages.get_language_id("zh"), Ok(1));
    assert_eq!(languages.get_language_id("ja"), Ok(2));
    assert_eq!(languages.get_language_id("ZH"), Err(PersistenceError::NotFound));
    assert_eq!(
        languages.get(1),
        Some(&Language { id: 2, name: "Japanese".to_string(), code: "ja".to_string() })
    );
}

#[test]
fn language_with_a_code_that_is_taken_cannot_be_created() {
    let mut languages = LanguageResolver::new();
    languages.create_language("Chinese", "zh").unwrap();
    assert_eq!(
        languages.create_language("Mandarin", "zh"),
        Err(PersistenceError::Insert("languages".to_string()))
    );
    assert_eq!(languages.len(), 1);
}

#[test]
fn resolve_twice_returns_the_same_id_and_leaves_one_row() {
    let mut languages = LanguageResolver::new();
    languages.create_language("Japanese", "ja").unwrap();
    let first = languages.resolve_or_create("zh", "Chinese");
    let second = languages.resolve_or_create("zh", "Mandarin");
    assert_eq!(first, Ok(2));
    assert_eq!(second, Ok(2));
    assert_eq!(languages.len(), 2);
    assert_eq!(
        languages.get(1),
        Some(&Language { id: 2, name: "Chinese".to_string(), code: "zh".to_string() })
    );
    assert_eq!(languages.resolve_or_create("ja", "Japanese"), Ok(1));
    assert_eq!(languages.len(), 2);
}

#[test]
fn setting_is_saved_under_its_name() {
    let mut settings = SettingStore::new();
    assert_eq!(settings.setting("llm_model"), Err(PersistenceError::NotFound));
    assert_eq!(settings.save("llm_model", "llama3"), Ok(1));
    assert_eq!(settings.save("theme", "dark"), Ok(1));
    assert_eq!(settings.save("llm_model", "mistral:7b"), Ok(1));
    assert_eq!(settings.len(), 2);
    assert_eq!(settings.find("theme"), Some(1));
    assert_eq!(
        settings.setting("llm_model"),
        Ok(SettingRecord { id: 1, name: "llm_model".to_string(), value: "mistral:7b".to_string() })
    );
}

#[test]
fn saved_phrase_is_found_again() {
    let mut book = PhraseBook::new();
    let phrase = Phrase::new("你好", "Nǐ hǎo", "Hello");
    assert_eq!(book.save_phrase(&phrase, "Chinese", "zh"), Ok(()));
    assert_eq!(book.search_phrases("Hello"), vec![phrase.clone()]);

    let again = Phrase::new("你好", "Nǐ hǎo", "Hi");
    assert_eq!(book.save_phrase(&again, "Chinese", "zh"), Ok(()));
    let found = book.search_phrases("你好");
    assert_eq!(found.len(), 1);
    assert_eq!(found[0].translation, "Hi");
    assert_eq!(book.search_phrases("Hello"), Vec::new());
}

#[test]
fn saving_a_phrase_files_it_under_its_language() {
    let mut book = PhraseBook::new();
    book.save_phrase(&Phrase::new("こんにちは", "Konnichiwa", "Hello"), "Japanese", "ja").unwrap();
    book.save_phrase(&Phrase::new("你好", "Nǐ hǎo", "Hello"), "Chinese", "zh").unwrap();
    book.save_phrase(&Phrase::new("再见", "Zàijiàn", "Goodbye"), "Chinese", "zh").unwrap();
    assert_eq!(book.languages.len(), 2);
    assert_eq!(book.languages.get_language_id("zh"), Ok(2));
    assert_eq!(book.phrases.get(0).unwrap().language_id, 1);
    assert_eq!(book.phrases.get(1).unwrap().language_id, 2);
    assert_eq!(book.phrases.get(2).unwrap().language_id, 2);
    assert_eq!(book.settings.len(), 0);
}

#[test]
fn errors_have_a_text() {
    assert_eq!(
        PersistenceError::Connection("no file".to_string()).to_string(),
        "Connecting to database failed"
    );
    assert_eq!(
        PersistenceError::Migration("bad step".to_string()).to_string(),
        "Database migration failed: bad step"
    );
    assert_eq!(
        PersistenceError::Execution("locked".to_string()).to_string(),
        "Executing statement failed"
    );
    assert_eq!(
        PersistenceError::Insert("languages".to_string()).to_string(),
        "Insert into languages failed"
    );
    assert_eq!(PersistenceError::NotFound.to_string(), "Not found");
}

#[test]
fn row_gives_its_phrase() {
    let row = record(7, 1, "你好", "Nǐ hǎo", "Hello");
    assert_eq!(row.phrase(), Phrase::new("你好", "Nǐ hǎo", "Hello"));
    assert_eq!(Phrase::from(row), Phrase::new("你好", "Nǐ hǎo", "Hello"));
}

fn language(id: i32, name: &str, code: &str) -> Language {
    Language { id, name: name.to_string(), code: code.to_string() }
}

fn setting(id: i32, name: &str, value: &str) -> SettingRecord {
    SettingRecord { id, name: name.to_string(), value: value.to_string() }
}

#[test]
fn table_is_made_of_rows_that_are_numbered_from_one() {
    let store = PhraseStore::from_rows(vec![
        record(1, 1, "你好", "Nǐ hǎo", "Hello"),
        record(2, 1, "再见", "Zàijiàn", "Goodbye"),
    ])
    .unwrap();
    assert_eq!(
        rows(&store),
        vec![record(1, 1, "你好", "Nǐ hǎo", "Hello"), record(2, 1, "再见", "Zàijiàn", "Goodbye")]
    );
    assert_eq!(store.id_of("再见"), Some(2));
    assert_eq!(store.id_of("谢谢"), None);
    assert_eq!(PhraseStore::from_rows(Vec::new()).unwrap().len(), 0);
}

#[test]
fn rows_with_a_gap_or_a_repeated_key_make_no_table() {
    let insert = |table: &str| Some(PersistenceError::Insert(table.to_string()));
    assert_eq!(
        PhraseStore::from_rows(vec![record(1, 1, "a", "p", "t"), record(3, 1, "b", "p", "t")]).err(),
        insert("phrases")
    );
    assert_eq!(PhraseStore::from_rows(vec![record(0, 1, "a", "p", "t")]).err(), insert("phrases"));
    assert_eq!(
        PhraseStore::from_rows(vec![record(1, 1, "a", "p", "t"), record(2, 1, "a", "q", "u")]).err(),
        insert("phrases")
    );
    assert_eq!(
        LanguageResolver::from_rows(vec![language(1, "Chinese", "zh"), language(2, "Mandarin", "zh")])
            .err(),
        insert("languages")
    );
    assert_eq!(
        LanguageResolver::from_rows(vec![language(2, "Chinese", "zh")]).err(),
        insert("languages")
    );
    assert_eq!(
        SettingStore::from_rows(vec![setting(1, "a", "x"), setting(2, "a", "y")]).err(),
        insert("settings")
    );
    assert_eq!(SettingStore::from_rows(vec![setting(5, "a", "x")]).err(), insert("settings"));
}

#[test]
fn tables_of_languages_and_settings_are_made_of_their_rows() {
    let languages =
        LanguageResolver::from_rows(vec![language(1, "Japanese", "ja"), language(2, "Chinese", "zh")])
            .unwrap();
    assert_eq!(languages.get_language_id("zh"), Ok(2));
    let settings = SettingStore::from_rows(vec![setting(1, "llm_model", "llama3")]).unwrap();
    assert_eq!(settings.setting("llm_model"), Ok(setting(1, "llm_model", "llama3")));
}

#[test]
fn book_is_made_of_the_rows_of_its_tables() {
    let book = PhraseBook::from_rows(
        vec![language(1, "Chinese", "zh")],
        vec![record(1, 1, "你好", "Nǐ hǎo", "Hello")],
        vec![setting(1, "llm_model", "llama3")],
    )
    .unwrap();
    assert_eq!(book.search_phrases("Hello"), vec![Phrase::new("你好", "Nǐ hǎo", "Hello")]);
    assert_eq!(book.languages.get_language_id("zh"), Ok(1));
    assert_eq!(book.settings.len(), 1);

    let broken = |languages, phrases, settings| PhraseBook::from_rows(languages, phrases, settings).err();
    assert_eq!(
        broken(vec![language(2, "Chinese", "zh")], vec![record(2, 1, "a", "p", "t")], Vec::new()),
        Some(PersistenceError::Insert("languages".to_string()))
    );
    assert_eq!(
        broken(Vec::new(), vec![record(2, 1, "a", "p", "t")], vec![setting(2, "a", "x")]),
        Some(PersistenceError::Insert("phrases".to_string()))
    );
    assert_eq!(
        broken(Vec::new(), Vec::new(), vec![setting(2, "a", "x")]),
        Some(PersistenceError::Insert("settings".to_string()))
    );
}

#[test]
fn plan_names_the_rows_that_a_save_writes() {
    let mut book = PhraseBook::new();
    let hello = Phrase::new("你好", "Nǐ hǎo", "Hello");
    assert_eq!(
        book.plan_save(&hello, "Chinese", "zh"),
        Ok(SavePlan {
            language: Some(language(1, "Chinese", "zh")),
            phrase: record(1, 1, "你好", "Nǐ hǎo", "Hello"),
        })
    );
    assert_eq!(book.phrases.len(), 0);
    assert_eq!(book.languages.len(), 0);

    book.save_phrase(&Phrase::new("再见", "Zàijiàn", "Goodbye"), "Chinese", "zh").unwrap();
    book.save_phrase(&hello, "Chinese", "zh").unwrap();
    let plan = book.plan_save(&Phrase::new("你好", "Nǐ hǎo", "Hi"), "Mandarin", "zh").unwrap();
    assert_eq!(plan, SavePlan { language: None, phrase: record(2, 1, "你好", "Nǐ hǎo", "Hi") });

    let other = book.plan_save(&Phrase::new("こんにちは", "Konnichiwa", "Hello"), "Japanese", "ja");
    assert_eq!(
        other,
        Ok(SavePlan {
            language: Some(language(2, "Japanese", "ja")),
            phrase: record(3, 2, "こんにちは", "Konnichiwa", "Hello"),
        })
    );
}

#[test]
fn save_leaves_the_rows_that_were_planned() {
    let mut book = PhraseBook::new();
    book.save_phrase(&Phrase::new("再见", "Zàijiàn", "Goodbye"), "Chinese", "zh").unwrap();
    for (phrase, name, code) in [
        (Phrase::new("你好", "Nǐ hǎo", "Hello"), "Chinese", "zh"),
        (Phrase::new("再见", "Zàijiàn", "Bye"), "Chinese", "zh"),
        (Phrase::new("こんにちは", "Konnichiwa", "Hello"), "Japanese", "ja"),
    ] {
        let plan = book.plan_save(&phrase, name, code).unwrap();
        book.save_phrase(&phrase, name, code).unwrap();
        let at = book.phrases.find(&phrase.original).unwrap();
        assert_eq!(book.phrases.get(at), Some(&plan.phrase));
        if let Some(planned) = plan.language {
            assert_eq!(book.languages.get(book.languages.len() - 1), Some(&planned));
        }
    }
}

#[test]
fn plan_names_the_row_that_saving_a_setting_leaves() {
    let mut settings = SettingStore::new();
    assert_eq!(settings.plan_save("llm_model", "llama3"), Ok(setting(1, "llm_model", "llama3")));
    assert_eq!(settings.len(), 0);
    settings.save("theme", "dark").unwrap();
    settings.save("llm_model", "llama3").unwrap();
    assert_eq!(settings.plan_save("theme", "light"), Ok(setting(1, "theme", "light")));
    assert_eq!(settings.plan_save("font", "big"), Ok(setting(3, "font", "big")));
    assert_eq!(settings.setting("theme"), Ok(setting(1, "theme", "dark")));
}
