//! The table of languages: one row for each code, found by its code and
//! added where the code is new.

use crate::persistence::{PersistenceError, PersistenceErrorView};
use vstd::prelude::*;

verus! {

/// A row of the table of languages.
#[derive(Debug, PartialEq, Eq)]
pub struct Language {
    pub id: i32,
    pub name: String,
    pub code: String,
}

/// What a [`Language`] holds, as sequences of characters.
pub struct LanguageView {
    pub id: i32,
    pub name: Seq<char>,
    pub code: Seq<char>,
}

impl View for Language {
    type V = LanguageView;

    open spec fn view(&self) -> LanguageView {
        LanguageView { id: self.id, name: self.name@, code: self.code@ }
    }
}

impl Clone for Language {
    fn clone(&self) -> (copy: Self)
        ensures
            copy == *self,
    {
        Language { id: self.id, name: self.name.clone(), code: self.code.clone() }
    }
}

/// The views of some rows.
pub open spec fn language_rows(rows: Seq<Language>) -> Seq<LanguageView> {
    rows.map_values(|row: Language| row@)
}

/// The rows are numbered from 1 in their order, the numbers fit the type of
/// an id, and no code occurs twice.
pub open spec fn languages_ok(rows: Seq<LanguageView>) -> bool {
    &&& rows.len() <= i32::MAX
    &&& forall|i: int| 0 <= i < rows.len() ==> (#[trigger] rows[i]).id == i + 1
    &&& forall|i: int, j: int|
        0 <= i < j < rows.len() ==> (#[trigger] rows[i]).code != (#[trigger] rows[j]).code
}

/// Some row holds `code`.
pub open spec fn has_code(rows: Seq<LanguageView>, code: Seq<char>) -> bool {
    exists|i: int| 0 <= i < rows.len() && (#[trigger] rows[i]).code == code
}

/// The place of the row that holds `code`, where there is one.
pub open spec fn place_of_code(rows: Seq<LanguageView>, code: Seq<char>) -> int {
    choose|i: int| 0 <= i < rows.len() && (#[trigger] rows[i]).code == code
}

/// The table with one more language at its end.
pub open spec fn with_language(rows: Seq<LanguageView>, name: Seq<char>, code: Seq<char>) -> Seq<
    LanguageView,
> {
    rows.push(LanguageView { id: (rows.len() + 1) as i32, name, code })
}

/// The table after `code` has been resolved: unchanged where a row holds
/// `code`, with a new row for it otherwise.
pub open spec fn resolved_rows(rows: Seq<LanguageView>, code: Seq<char>, name: Seq<char>) -> Seq<
    LanguageView,
> {
    if has_code(rows, code) {
        rows
    } else {
        with_language(rows, name, code)
    }
}

/// The id that `code` resolves to: that of the row that holds it, or that of
/// the row that is added for it.
pub open spec fn resolved_id(rows: Seq<LanguageView>, code: Seq<char>) -> int {
    if has_code(rows, code) {
        rows[place_of_code(rows, code)].id as int
    } else {
        rows.len() as int + 1
    }
}

/// The table of languages, which finds the id of a language by its code and
/// adds the language where it is new.
#[derive(Debug)]
pub struct LanguageResolver {
    rows: Vec<Language>,
}

impl View for LanguageResolver {
    type V = Seq<LanguageView>;

    closed spec fn view(&self) -> Seq<LanguageView> {
        language_rows(self.rows@)
    }
}

impl LanguageResolver {
    #[verifier::type_invariant]
    spec fn well_formed(self) -> bool {
        languages_ok(self@)
    }

    /// The table that holds `rows`, as they are: they have to be numbered
    /// from 1 in their order and no two may hold the same code. Fails
    /// with `Insert` where they are not.
    pub fn from_rows(rows: Vec<Language>) -> (table: Result<Self, PersistenceError>)
        ensures
            match table {
                Ok(t) => languages_ok(language_rows(rows@)) && t@ == language_rows(rows@),
                Err(error) => !languages_ok(language_rows(rows@)) && error@ == PersistenceErrorView::Insert(
                    "languages"@,
                ),
            },
    {
        if Self::rows_fit(&rows) {
            Ok(LanguageResolver { rows })
        } else {
            Err(PersistenceError::Insert("languages".to_owned()))
        }
    }

    /// Whether `rows` can be the rows of a table.
    fn rows_fit(rows: &Vec<Language>) -> (fit: bool)
        ensures
            fit == languages_ok(language_rows(rows@)),
    {
        let ghost all = language_rows(rows@);
        if rows.len() > i32::MAX as usize {
            return false;
        }
        let mut i: usize = 0;
        while i < rows.len()
            invariant
                i <= rows.len() <= i32::MAX,
                all == language_rows(rows@),
                forall|k: int| 0 <= k < i ==> (#[trigger] all[k]).id == k + 1,
                forall|a: int, b: int|
                    0 <= a < b < i ==> (#[trigger] all[a]).code != (#[trigger] all[b]).code,
            decreases rows.len() - i,
        {
            if rows[i].id != (i + 1) as i32 {
                assert(all[i as int].id != i + 1);
                return false;
            }
            let mut j: usize = 0;
            while j < i
                invariant
                    j <= i < rows.len(),
                    all == language_rows(rows@),
                    forall|a: int| 0 <= a < j ==> (#[trigger] all[a]).code != all[i as int].code,
                decreases i - j,
            {
                if rows[j].code == rows[i].code {
                    assert(all[j as int].code == all[i as int].code);
                    return false;
                }
                j += 1;
            }
            i += 1;
        }
        true
    }

    /// An empty table.
    pub fn new() -> (resolver: Self)
        ensures
            resolver@.len() == 0,
            languages_ok(resolver@),
    {
        LanguageResolver { rows: Vec::new() }
    }

    /// The number of rows. Every table is well-formed.
    pub fn len(&self) -> (n: usize)
        ensures
            n == self@.len(),
            languages_ok(self@),
    {
        proof {
            use_type_invariant(self);
        }
        self.rows.len()
    }

    /// The row at place `index`, if the table is that long.
    pub fn get(&self, index: usize) -> (row: Option<&Language>)
        ensures
            row is Some <==> index < self@.len(),
            row matches Some(r) ==> r@ == self@[index as int],
    {
        if index < self.rows.len() {
            Some(&self.rows[index])
        } else {
            None
        }
    }

    /// The id of the language with this code, or `NotFound`.
    pub fn get_language_id(&self, language_code: &str) -> (id: Result<i32, PersistenceError>)
        ensures
            languages_ok(self@),
            match id {
                Ok(found) => has_code(self@, language_code@) && found == resolved_id(
                    self@,
                    language_code@,
                ),
                Err(error) => !has_code(self@, language_code@) && error@
                    == PersistenceErrorView::NotFound,
            },
    {
        proof {
            use_type_invariant(self);
        }
        let key = language_code.to_owned();
        let mut i: usize = 0;
        while i < self.rows.len()
            invariant
                i <= self.rows.len(),
                key@ == language_code@,
                languages_ok(self@),
                forall|j: int| 0 <= j < i ==> (#[trigger] self@[j]).code != language_code@,
            decreases self.rows.len() - i,
        {
            if self.rows[i].code == key {
                assert(self@[i as int].code == language_code@);
                return Ok(self.rows[i].id);
            }
            i += 1;
        }
        Err(PersistenceError::NotFound)
    }

    /// Adds a language and returns its id. Fails with `Insert`, and changes
    /// nothing, where a row holds the code already or the ids are used up.
    pub fn create_language(&mut self, language_name: &str, language_code: &str) -> (id: Result<
        i32,
        PersistenceError,
    >)
        ensures
            languages_ok(old(self)@),
            languages_ok(final(self)@),
            match id {
                Ok(created) => {
                    &&& !has_code(old(self)@, language_code@)
                    &&& old(self)@.len() < i32::MAX
                    &&& final(self)@ == with_language(old(self)@, language_name@, language_code@)
                    &&& created == old(self)@.len() + 1
                },
                Err(error) => {
                    &&& has_code(old(self)@, language_code@) || old(self)@.len() == i32::MAX
                    &&& final(self)@ == old(self)@
                    &&& error@ == PersistenceErrorView::Insert("languages"@)
                },
            },
    {
        proof {
            use_type_invariant(&*self);
        }
        if self.get_language_id(language_code).is_ok() {
            return Err(PersistenceError::Insert("languages".to_owned()));
        }
        if self.rows.len() >= i32::MAX as usize {
            return Err(PersistenceError::Insert("languages".to_owned()));
        }
        proof {
            lemma_resolved(self@, language_code@, language_name@);
        }
        let ghost after = with_language(self@, language_name@, language_code@);
        let id = (self.rows.len() + 1) as i32;
        let row = Language { id, name: language_name.to_owned(), code: language_code.to_owned() };
        let mut rows: Vec<Language> = Vec::new();
        std::mem::swap(&mut self.rows, &mut rows);
        rows.push(row);
        assert(language_rows(rows@) =~= after);
        std::mem::swap(&mut self.rows, &mut rows);
        Ok(id)
    }

    /// The id of the language with this code; the language is added, under
    /// `name`, where no row holds the code yet. Fails with `Insert`, and
    /// changes nothing, only where a row is needed and the ids are used up.
    pub fn resolve_or_create(&mut self, code: &str, name: &str) -> (id: Result<
        i32,
        PersistenceError,
    >)
        ensures
            languages_ok(old(self)@),
            languages_ok(final(self)@),
            match id {
                Ok(resolved) => {
                    &&& has_code(old(self)@, code@) || old(self)@.len() < i32::MAX
                    &&& final(self)@ == resolved_rows(old(self)@, code@, name@)
                    &&& resolved == resolved_id(old(self)@, code@)
                },
                Err(error) => {
                    &&& !has_code(old(self)@, code@)
                    &&& old(self)@.len() == i32::MAX
                    &&& final(self)@ == old(self)@
                    &&& error@ == PersistenceErrorView::Insert("languages"@)
                },
            },
    {
        match self.get_language_id(code) {
            Ok(id) => Ok(id),
            Err(_) => self.create_language(name, code),
        }
    }
}

/// Resolving a code keeps the table of languages well-formed and leaves
/// exactly one row for the code, whose id is the one that was returned.
pub proof fn lemma_resolved(rows: Seq<LanguageView>, code: Seq<char>, name: Seq<char>)
    requires
        languages_ok(rows),
        has_code(rows, code) || rows.len() < i32::MAX,
    ensures
        ({
            let after = resolved_rows(rows, code, name);
            let at = place_of_code(after, code);
            &&& languages_ok(after)
            &&& has_code(after, code)
            &&& 0 <= at < after.len()
            &&& after[at].id == resolved_id(rows, code)
            &&& forall|i: int| 0 <= i < after.len() && (#[trigger] after[i]).code == code ==> i == at
        }),
{
    let after = resolved_rows(rows, code, name);
    if has_code(rows, code) {
        let old_at = place_of_code(rows, code);
        assert(after[old_at].code == code);
    } else {
        let last = rows.len() as int;
        assert(after[last].code == code);
        assert forall|i: int, j: int| 0 <= i < j < after.len() implies (#[trigger] after[i]).code != (
        #[trigger] after[j]).code by {
            assert(after[i].code == rows[i].code);
            if j < last {
                assert(after[j].code == rows[j].code);
            }
        }
    }
    let at = place_of_code(after, code);
    assert forall|i: int| 0 <= i < after.len() && (#[trigger] after[i]).code == code implies i
        == at by {
        if i < at {
            assert(after[i].code != after[at].code);
        } else if at < i {
            assert(after[at].code != after[i].code);
        }
    }
}

/// Resolving the same code twice, one call after the other, returns the same
/// id both times; the second call changes nothing, so one row holds the code.
pub proof fn lemma_resolve_twice(
    rows: Seq<LanguageView>,
    code: Seq<char>,
    first_name: Seq<char>,
    second_name: Seq<char>,
)
    requires
        languages_ok(rows),
        has_code(rows, code) || rows.len() < i32::MAX,
    ensures
        ({
            let once = resolved_rows(rows, code, first_name);
            let twice = resolved_rows(once, code, second_name);
            &&& twice == once
            &&& resolved_id(once, code) == resolved_id(rows, code)
            &&& forall|i: int, j: int|
                0 <= i < twice.len() && 0 <= j < twice.len() && (#[trigger] twice[i]).code == code
                    && (#[trigger] twice[j]).code == code ==> i == j
        }),
{
    lemma_resolved(rows, code, first_name);
}

} // verus!
