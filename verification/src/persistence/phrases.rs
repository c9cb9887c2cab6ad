//! The table of phrases: one row for each original text, saved by
//! insert-or-update and searched by the texts that the rows hold.

use crate::model::{Phrase, PhraseView};
use crate::persistence::{PersistenceError, PersistenceErrorView};
use crate::text::{chars_of, contains_chars, is_substring};
use vstd::prelude::*;

verus! {

/// A row of the table of phrases.
#[derive(Debug, PartialEq, Eq)]
pub struct PhraseRecord {
    pub id: i32,
    pub language_id: i32,
    pub original: String,
    pub pinyin: String,
    pub translation: String,
}

/// What a [`PhraseRecord`] holds, as sequences of characters.
pub struct PhraseRecordView {
    pub id: i32,
    pub language_id: i32,
    pub original: Seq<char>,
    pub pinyin: Seq<char>,
    pub translation: Seq<char>,
}

impl View for PhraseRecord {
    type V = PhraseRecordView;

    open spec fn view(&self) -> PhraseRecordView {
        PhraseRecordView {
            id: self.id,
            language_id: self.language_id,
            original: self.original@,
            pinyin: self.pinyin@,
            translation: self.translation@,
        }
    }
}

impl Clone for PhraseRecord {
    fn clone(&self) -> (copy: Self)
        ensures
            copy == *self,
    {
        PhraseRecord {
            id: self.id,
            language_id: self.language_id,
            original: self.original.clone(),
            pinyin: self.pinyin.clone(),
            translation: self.translation.clone(),
        }
    }
}

impl PhraseRecordView {
    /// The phrase of this row, without what the table added.
    pub open spec fn phrase(self) -> PhraseView {
        PhraseView { original: self.original, pinyin: self.pinyin, translation: self.translation }
    }

    /// `term` is a part of the original, of the translation or of the
    /// romanization of this row.
    pub open spec fn mentions(self, term: Seq<char>) -> bool {
        ||| is_substring(term, self.original)
        ||| is_substring(term, self.translation)
        ||| is_substring(term, self.pinyin)
    }
}

impl PhraseRecord {
    /// The phrase of this row.
    pub fn phrase(&self) -> (phrase: Phrase)
        ensures
            phrase@ == self@.phrase(),
    {
        Phrase {
            original: self.original.clone(),
            pinyin: self.pinyin.clone(),
            translation: self.translation.clone(),
        }
    }
}

/// The views of some rows.
pub open spec fn phrase_rows(rows: Seq<PhraseRecord>) -> Seq<PhraseRecordView> {
    rows.map_values(|row: PhraseRecord| row@)
}

/// The rows are numbered from 1 in their order, the numbers fit the type of
/// an id, and no original text occurs twice.
pub open spec fn phrases_ok(rows: Seq<PhraseRecordView>) -> bool {
    &&& rows.len() <= i32::MAX
    &&& forall|i: int| 0 <= i < rows.len() ==> (#[trigger] rows[i]).id == i + 1
    &&& forall|i: int, j: int|
        0 <= i < j < rows.len() ==> (#[trigger] rows[i]).original != (#[trigger] rows[j]).original
}

/// Some row holds `original`.
pub open spec fn has_original(rows: Seq<PhraseRecordView>, original: Seq<char>) -> bool {
    exists|i: int| 0 <= i < rows.len() && (#[trigger] rows[i]).original == original
}

/// The place of the row that holds `original`, where there is one.
pub open spec fn place_of_original(rows: Seq<PhraseRecordView>, original: Seq<char>) -> int {
    choose|i: int| 0 <= i < rows.len() && (#[trigger] rows[i]).original == original
}

/// The table after a phrase has been saved: the row that held `original`
/// keeps its place and its id and takes the new texts and language; where
/// there was none, a new row stands at the end.
pub open spec fn upserted(
    rows: Seq<PhraseRecordView>,
    language_id: i32,
    original: Seq<char>,
    pinyin: Seq<char>,
    translation: Seq<char>,
) -> Seq<PhraseRecordView> {
    if has_original(rows, original) {
        let at = place_of_original(rows, original);
        rows.update(
            at,
            PhraseRecordView { id: rows[at].id, language_id, original, pinyin, translation },
        )
    } else {
        rows.push(
            PhraseRecordView {
                id: (rows.len() + 1) as i32,
                language_id,
                original,
                pinyin,
                translation,
            },
        )
    }
}

/// The rows that mention `term`, in the order of the table.
pub open spec fn matching(rows: Seq<PhraseRecordView>, term: Seq<char>) -> Seq<PhraseRecordView> {
    rows.filter(|row: PhraseRecordView| row.mentions(term))
}

/// The table of phrases.
#[derive(Debug)]
pub struct PhraseStore {
    rows: Vec<PhraseRecord>,
}

impl View for PhraseStore {
    type V = Seq<PhraseRecordView>;

    closed spec fn view(&self) -> Seq<PhraseRecordView> {
        phrase_rows(self.rows@)
    }
}

impl PhraseStore {
    #[verifier::type_invariant]
    spec fn well_formed(self) -> bool {
        phrases_ok(self@)
    }

    /// The table that holds `rows`, as they are: they have to be numbered
    /// from 1 in their order and no two may hold the same original text. Fails
    /// with `Insert` where they are not.
    pub fn from_rows(rows: Vec<PhraseRecord>) -> (table: Result<Self, PersistenceError>)
        ensures
            match table {
                Ok(t) => phrases_ok(phrase_rows(rows@)) && t@ == phrase_rows(rows@),
                Err(error) => !phrases_ok(phrase_rows(rows@)) && error@ == PersistenceErrorView::Insert(
                    "phrases"@,
                ),
            },
    {
        if Self::rows_fit(&rows) {
            Ok(PhraseStore { rows })
        } else {
            Err(PersistenceError::Insert("phrases".to_owned()))
        }
    }

    /// Whether `rows` can be the rows of a table.
    fn rows_fit(rows: &Vec<PhraseRecord>) -> (fit: bool)
        ensures
            fit == phrases_ok(phrase_rows(rows@)),
    {
        let ghost all = phrase_rows(rows@);
        if rows.len() > i32::MAX as usize {
            return false;
        }
        let mut i: usize = 0;
        while i < rows.len()
            invariant
                i <= rows.len() <= i32::MAX,
                all == phrase_rows(rows@),
                forall|k: int| 0 <= k < i ==> (#[trigger] all[k]).id == k + 1,
                forall|a: int, b: int|
                    0 <= a < b < i ==> (#[trigger] all[a]).original != (#[trigger] all[b]).original,
            decreases rows.len() - i,
        {
            if rows[i].id != (i + 1) as i32 {
                assert(all[i as int].id != i + 1);
                return false;
            }
            let mut j: usize = 0;
            while j < i
                invariant
                    j <= i < rows.len(),
                    all == phrase_rows(rows@),
                    forall|a: int| 0 <= a < j ==> (#[trigger] all[a]).original != all[i as int].original,
                decreases i - j,
            {
                if rows[j].original == rows[i].original {
                    assert(all[j as int].original == all[i as int].original);
                    return false;
                }
                j += 1;
            }
            i += 1;
        }
        true
    }

    /// An empty table.
    pub fn new() -> (store: Self)
        ensures
            store@.len() == 0,
            phrases_ok(store@),
    {
        PhraseStore { rows: Vec::new() }
    }

    /// The number of rows. Every table is well-formed.
    pub fn len(&self) -> (n: usize)
        ensures
            n == self@.len(),
            phrases_ok(self@),
    {
        proof {
            use_type_invariant(self);
        }
        self.rows.len()
    }

    /// The row at place `index`, if the table is that long.
    pub fn get(&self, index: usize) -> (row: Option<&PhraseRecord>)
        ensures
            row is Some <==> index < self@.len(),
            row matches Some(r) ==> r@ == self@[index as int],
    {
        if index < self.rows.len() {
            Some(&self.rows[index])
        } else {
            None
        }
    }

    /// The place of the row that holds `original`.
    pub fn find(&self, original: &str) -> (place: Option<usize>)
        ensures
            place is Some <==> has_original(self@, original@),
            place matches Some(i) ==> i < self@.len() && i == place_of_original(self@, original@),
    {
        proof {
            use_type_invariant(self);
        }
        let key = original.to_owned();
        let mut i: usize = 0;
        while i < self.rows.len()
            invariant
                i <= self.rows.len(),
                key@ == original@,
                phrases_ok(self@),
                forall|j: int| 0 <= j < i ==> (#[trigger] self@[j]).original != original@,
            decreases self.rows.len() - i,
        {
            if self.rows[i].original == key {
                assert(self@[i as int].original == original@);
                return Some(i);
            }
            i += 1;
        }
        None
    }
}

impl PhraseStore {
    /// The id of the row that holds `original`.
    pub fn id_of(&self, original: &str) -> (id: Option<i32>)
        ensures
            phrases_ok(self@),
            id is Some <==> has_original(self@, original@),
            id matches Some(found) ==> found == self@[place_of_original(self@, original@)].id,
    {
        proof {
            use_type_invariant(self);
        }
        match self.find(original) {
            Some(at) => Some(self.rows[at].id),
            None => None,
        }
    }
}

/// Whether `row` mentions `term`.
pub fn row_mentions(row: &PhraseRecord, term: &Vec<char>) -> (yes: bool)
    ensures
        yes == row@.mentions(term@),
{
    let original = chars_of(row.original.as_str());
    if contains_chars(&original, term) {
        return true;
    }
    let translation = chars_of(row.translation.as_str());
    if contains_chars(&translation, term) {
        return true;
    }
    let pinyin = chars_of(row.pinyin.as_str());
    contains_chars(&pinyin, term)
}

impl PhraseStore {
    /// Saves a phrase under its original text: a row that holds `original`
    /// takes the new texts and language and keeps its id; otherwise a new row
    /// is added. Returns the number of rows written, which is 1.
    ///
    /// Fails with `Insert`, and changes nothing, only where a new row is
    /// needed and the ids are used up.
    pub fn save(
        &mut self,
        original: &str,
        pinyin: &str,
        translation: &str,
        language_id: i32,
    ) -> (written: Result<usize, PersistenceError>)
        ensures
            phrases_ok(old(self)@),
            phrases_ok(final(self)@),
            !has_original(old(self)@, original@) && old(self)@.len() == i32::MAX ==> {
                &&& final(self)@ == old(self)@
                &&& written is Err
                &&& written->Err_0@ == PersistenceErrorView::Insert("phrases"@)
            },
            has_original(old(self)@, original@) || old(self)@.len() < i32::MAX ==> {
                &&& final(self)@ == upserted(
                    old(self)@,
                    language_id,
                    original@,
                    pinyin@,
                    translation@,
                )
                &&& written == Ok::<usize, PersistenceError>(1)
            },
    {
        proof {
            use_type_invariant(&*self);
        }
        let found = self.find(original);
        if found.is_none() && self.rows.len() >= i32::MAX as usize {
            return Err(PersistenceError::Insert("phrases".to_owned()));
        }
        proof {
            lemma_upserted(self@, language_id, original@, pinyin@, translation@);
        }
        let ghost after = upserted(self@, language_id, original@, pinyin@, translation@);
        let mut rows: Vec<PhraseRecord> = Vec::new();
        std::mem::swap(&mut self.rows, &mut rows);
        match found {
            Some(at) => {
                let row = PhraseRecord {
                    id: rows[at].id,
                    language_id,
                    original: original.to_owned(),
                    pinyin: pinyin.to_owned(),
                    translation: translation.to_owned(),
                };
                rows.set(at, row);
            },
            None => {
                let row = PhraseRecord {
                    id: (rows.len() + 1) as i32,
                    language_id,
                    original: original.to_owned(),
                    pinyin: pinyin.to_owned(),
                    translation: translation.to_owned(),
                };
                rows.push(row);
            },
        }
        assert(phrase_rows(rows@) =~= after);
        std::mem::swap(&mut self.rows, &mut rows);
        Ok(1)
    }

    /// The rows that mention `term` in their original, their translation or
    /// their romanization: all of them and no others, in the order of the
    /// table. Upper and lower case are kept apart.
    pub fn search(&self, term: &str) -> (found: Vec<PhraseRecord>)
        ensures
            phrase_rows(found@) == matching(self@, term@),
    {
        let needle = chars_of(term);
        let mut found: Vec<PhraseRecord> = Vec::new();
        let mut i: usize = 0;
        while i < self.rows.len()
            invariant
                i <= self.rows.len(),
                needle@ == term@,
                phrase_rows(found@) == matching(self@.take(i as int), term@),
            decreases self.rows.len() - i,
        {
            proof {
                reveal(Seq::filter);
                assert(self@.take(i + 1).drop_last() =~= self@.take(i as int));
                assert(self@.take(i + 1).last() == self.rows@[i as int]@);
            }
            if row_mentions(&self.rows[i], &needle) {
                found.push(self.rows[i].clone());
                assert(phrase_rows(found@) =~= matching(self@.take(i as int), term@).push(
                    self.rows@[i as int]@,
                ));
            }
            i += 1;
        }
        assert(self@.take(i as int) =~= self@);
        found
    }
}

/// The views of some phrases.
pub open spec fn phrase_views(phrases: Seq<Phrase>) -> Seq<PhraseView> {
    phrases.map_values(|phrase: Phrase| phrase@)
}

/// The phrases of some rows.
pub open spec fn phrases_of(rows: Seq<PhraseRecordView>) -> Seq<PhraseView> {
    rows.map_values(|row: PhraseRecordView| row.phrase())
}

/// Saving a phrase keeps the table of phrases well-formed, leaves exactly
/// one row for the original text, and that row holds what was saved. The
/// table grows by one row where the original text is new, and not at all
/// otherwise.
pub proof fn lemma_upserted(
    rows: Seq<PhraseRecordView>,
    language_id: i32,
    original: Seq<char>,
    pinyin: Seq<char>,
    translation: Seq<char>,
)
    requires
        phrases_ok(rows),
        has_original(rows, original) || rows.len() < i32::MAX,
    ensures
        ({
            let after = upserted(rows, language_id, original, pinyin, translation);
            let at = place_of_original(after, original);
            &&& phrases_ok(after)
            &&& has_original(after, original)
            &&& after.len() == if has_original(rows, original) {
                rows.len()
            } else {
                rows.len() + 1
            }
            &&& 0 <= at < after.len()
            &&& after[at].pinyin == pinyin
            &&& after[at].translation == translation
            &&& after[at].language_id == language_id
            &&& forall|i: int|
                0 <= i < after.len() && (#[trigger] after[i]).original == original ==> i == at
            &&& forall|i: int|
                0 <= i < rows.len() && (#[trigger] rows[i]).original != original ==> after[i]
                    == rows[i]
        }),
{
    let after = upserted(rows, language_id, original, pinyin, translation);
    if has_original(rows, original) {
        let old_at = place_of_original(rows, original);
        assert(after[old_at].original == original);
        assert forall|i: int, j: int| 0 <= i < j < after.len() implies (#[trigger] after[i]).original
            != (#[trigger] after[j]).original by {
            assert(after[i].original == rows[i].original);
            assert(after[j].original == rows[j].original);
        }
    } else {
        let last = rows.len() as int;
        assert(after[last].original == original);
        assert forall|i: int, j: int| 0 <= i < j < after.len() implies (#[trigger] after[i]).original
            != (#[trigger] after[j]).original by {
            assert(after[i].original == rows[i].original);
            if j < last {
                assert(after[j].original == rows[j].original);
            }
        }
    }
    let at = place_of_original(after, original);
    assert forall|i: int| 0 <= i < after.len() && (#[trigger] after[i]).original
        == original implies i == at by {
        if i < at {
            assert(after[i].original != after[at].original);
        } else if at < i {
            assert(after[at].original != after[i].original);
        }
    }
}

/// Saving the same original text twice leaves one row for it, which holds
/// what the second call saved; the second call adds no row.
pub proof fn lemma_save_twice(
    rows: Seq<PhraseRecordView>,
    original: Seq<char>,
    first_language: i32,
    first_pinyin: Seq<char>,
    first_translation: Seq<char>,
    second_language: i32,
    second_pinyin: Seq<char>,
    second_translation: Seq<char>,
)
    requires
        phrases_ok(rows),
        has_original(rows, original) || rows.len() < i32::MAX,
    ensures
        ({
            let once = upserted(rows, first_language, original, first_pinyin, first_translation);
            let twice = upserted(
                once,
                second_language,
                original,
                second_pinyin,
                second_translation,
            );
            let at = place_of_original(twice, original);
            &&& phrases_ok(twice)
            &&& twice.len() == once.len()
            &&& 0 <= at < twice.len()
            &&& twice[at].original == original
            &&& twice[at].translation == second_translation
            &&& twice[at].pinyin == second_pinyin
            &&& forall|i: int|
                0 <= i < twice.len() && (#[trigger] twice[i]).original == original ==> i == at
        }),
{
    lemma_upserted(rows, first_language, original, first_pinyin, first_translation);
    let once = upserted(rows, first_language, original, first_pinyin, first_translation);
    lemma_upserted(once, second_language, original, second_pinyin, second_translation);
}

/// A search finds all and only the rows that mention the term: a row is
/// among the results exactly if it is in the table and mentions the term.
pub proof fn lemma_search_all_and_only(
    rows: Seq<PhraseRecordView>,
    term: Seq<char>,
    row: PhraseRecordView,
)
    ensures
        matching(rows, term).contains(row) <==> rows.contains(row) && row.mentions(term),
    decreases rows.len(),
{
    reveal(Seq::filter);
    if rows.len() > 0 {
        let front = rows.drop_last();
        let last = rows.last();
        lemma_search_all_and_only(front, term, row);
        let found = matching(rows, term);
        let found_front = matching(front, term);
        if rows.contains(row) && row.mentions(term) {
            let i = choose|i: int| 0 <= i < rows.len() && rows[i] == row;
            if i < rows.len() - 1 {
                assert(front[i] == row);
                assert(found_front.contains(row));
                let k = choose|k: int| 0 <= k < found_front.len() && found_front[k] == row;
                assert(found[k] == row);
            } else {
                assert(found.last() == row);
            }
        }
        if found.contains(row) {
            let k = choose|k: int| 0 <= k < found.len() && found[k] == row;
            if k < found_front.len() {
                assert(found_front[k] == row);
                assert(found_front.contains(row));
                let i = choose|i: int| 0 <= i < front.len() && front[i] == row;
                assert(rows[i] == row);
            } else {
                assert(row == last);
                assert(rows[rows.len() - 1] == row);
            }
        }
    }
}

/// A search for a term that no row mentions finds nothing.
pub proof fn lemma_search_nothing(rows: Seq<PhraseRecordView>, term: Seq<char>)
    requires
        forall|i: int| 0 <= i < rows.len() ==> !(#[trigger] rows[i]).mentions(term),
    ensures
        matching(rows, term).len() == 0,
{
    let found = matching(rows, term);
    if found.len() > 0 {
        lemma_search_all_and_only(rows, term, found[0]);
        assert(found.contains(found[0]));
    }
}

} // verus!
