//! The table of settings: one row for each name, saved by insert-or-update.

use crate::persistence::{PersistenceError, PersistenceErrorView};
use vstd::prelude::*;

verus! {

/// A row of the table of settings.
#[derive(Debug, PartialEq, Eq)]
pub struct SettingRecord {
    pub id: i32,
    pub name: String,
    pub value: String,
}

/// What a [`SettingRecord`] holds, as sequences of characters.
pub struct SettingRecordView {
    pub id: i32,
    pub name: Seq<char>,
    pub value: Seq<char>,
}

impl View for SettingRecord {
    type V = SettingRecordView;

    open spec fn view(&self) -> SettingRecordView {
        SettingRecordView { id: self.id, name: self.name@, value: self.value@ }
    }
}

impl Clone for SettingRecord {
    fn clone(&self) -> (copy: Self)
        ensures
            copy == *self,
    {
        SettingRecord { id: self.id, name: self.name.clone(), value: self.value.clone() }
    }
}

/// The views of some rows.
pub open spec fn setting_rows(rows: Seq<SettingRecord>) -> Seq<SettingRecordView> {
    rows.map_values(|row: SettingRecord| row@)
}

/// The rows are numbered from 1 in their order, the numbers fit the type of
/// an id, and no name occurs twice.
pub open spec fn settings_ok(rows: Seq<SettingRecordView>) -> bool {
    &&& rows.len() <= i32::MAX
    &&& forall|i: int| 0 <= i < rows.len() ==> (#[trigger] rows[i]).id == i + 1
    &&& forall|i: int, j: int|
        0 <= i < j < rows.len() ==> (#[trigger] rows[i]).name != (#[trigger] rows[j]).name
}

/// Some row holds `name`.
pub open spec fn has_setting(rows: Seq<SettingRecordView>, name: Seq<char>) -> bool {
    exists|i: int| 0 <= i < rows.len() && (#[trigger] rows[i]).name == name
}

/// The place of the row that holds `name`, where there is one.
pub open spec fn place_of_setting(rows: Seq<SettingRecordView>, name: Seq<char>) -> int {
    choose|i: int| 0 <= i < rows.len() && (#[trigger] rows[i]).name == name
}

/// The table after a setting has been saved: the row that held `name` keeps
/// its place and its id and takes the new value; where there was none, a new
/// row stands at the end.
pub open spec fn setting_upserted(
    rows: Seq<SettingRecordView>,
    name: Seq<char>,
    value: Seq<char>,
) -> Seq<SettingRecordView> {
    if has_setting(rows, name) {
        let at = place_of_setting(rows, name);
        rows.update(at, SettingRecordView { id: rows[at].id, name, value })
    } else {
        rows.push(SettingRecordView { id: (rows.len() + 1) as i32, name, value })
    }
}

/// The table of settings.
#[derive(Debug)]
pub struct SettingStore {
    rows: Vec<SettingRecord>,
}

impl View for SettingStore {
    type V = Seq<SettingRecordView>;

    closed spec fn view(&self) -> Seq<SettingRecordView> {
        setting_rows(self.rows@)
    }
}

impl SettingStore {
    #[verifier::type_invariant]
    spec fn well_formed(self) -> bool {
        settings_ok(self@)
    }

    /// The table that holds `rows`, as they are: they have to be numbered
    /// from 1 in their order and no two may hold the same name. Fails
    /// with `Insert` where they are not.
    pub fn from_rows(rows: Vec<SettingRecord>) -> (table: Result<Self, PersistenceError>)
        ensures
            match table {
                Ok(t) => settings_ok(setting_rows(rows@)) && t@ == setting_rows(rows@),
                Err(error) => !settings_ok(setting_rows(rows@)) && error@ == PersistenceErrorView::Insert(
                    "settings"@,
                ),
            },
    {
        if Self::rows_fit(&rows) {
            Ok(SettingStore { rows })
        } else {
            Err(PersistenceError::Insert("settings".to_owned()))
        }
    }

    /// Whether `rows` can be the rows of a table.
    fn rows_fit(rows: &Vec<SettingRecord>) -> (fit: bool)
        ensures
            fit == settings_ok(setting_rows(rows@)),
    {
        let ghost all = setting_rows(rows@);
        if rows.len() > i32::MAX as usize {
            return false;
        }
        let mut i: usize = 0;
        while i < rows.len()
            invariant
                i <= rows.len() <= i32::MAX,
                all == setting_rows(rows@),
                forall|k: int| 0 <= k < i ==> (#[trigger] all[k]).id == k + 1,
                forall|a: int, b: int|
                    0 <= a < b < i ==> (#[trigger] all[a]).name != (#[trigger] all[b]).name,
            decreases rows.len() - i,
        {
            if rows[i].id != (i + 1) as i32 {
                assert(all[i as int].id != i + 1);
                return false;
            }
            let mut j: usize = 0;
            while j < i
                invariant
                    j <= i < rows.len(),
                    all == setting_rows(rows@),
                    forall|a: int| 0 <= a < j ==> (#[trigger] all[a]).name != all[i as int].name,
                decreases i - j,
            {
                if rows[j].name == rows[i].name {
                    assert(all[j as int].name == all[i as int].name);
                    return false;
                }
                j += 1;
            }
            i += 1;
        }
        true
    }

    /// An empty table.
    pub fn new() -> (store: Self)
        ensures
            store@.len() == 0,
            settings_ok(store@),
    {
        SettingStore { rows: Vec::new() }
    }

    /// The number of rows. Every table is well-formed.
    pub fn len(&self) -> (n: usize)
        ensures
            n == self@.len(),
            settings_ok(self@),
    {
        proof {
            use_type_invariant(self);
        }
        self.rows.len()
    }

    /// The place of the row that holds `name`.
    pub fn find(&self, name: &str) -> (place: Option<usize>)
        ensures
            settings_ok(self@),
            place is Some <==> has_setting(self@, name@),
            place matches Some(i) ==> i < self@.len() && i == place_of_setting(self@, name@),
    {
        proof {
            use_type_invariant(self);
        }
        let key = name.to_owned();
        let mut i: usize = 0;
        while i < self.rows.len()
            invariant
                i <= self.rows.len(),
                key@ == name@,
                settings_ok(self@),
                forall|j: int| 0 <= j < i ==> (#[trigger] self@[j]).name != name@,
            decreases self.rows.len() - i,
        {
            if self.rows[i].name == key {
                assert(self@[i as int].name == name@);
                return Some(i);
            }
            i += 1;
        }
        None
    }

    /// The row stored under `setting_name`, or `NotFound`.
    pub fn setting(&self, setting_name: &str) -> (row: Result<SettingRecord, PersistenceError>)
        ensures
            match row {
                Ok(found) => has_setting(self@, setting_name@) && found@
                    == self@[place_of_setting(self@, setting_name@)],
                Err(error) => !has_setting(self@, setting_name@) && error@
                    == PersistenceErrorView::NotFound,
            },
    {
        match self.find(setting_name) {
            Some(at) => Ok(self.rows[at].clone()),
            None => Err(PersistenceError::NotFound),
        }
    }

    /// The row that saving `setting_value` under `setting_name` would leave,
    /// without saving it: under the id of the row that holds the name, or
    /// under the next id where none does. Fails where the save would fail,
    /// with the same error.
    pub fn plan_save(&self, setting_name: &str, setting_value: &str) -> (row: Result<
        SettingRecord,
        PersistenceError,
    >)
        ensures
            settings_ok(self@),
            match row {
                Ok(planned) => {
                    &&& has_setting(self@, setting_name@) || self@.len() < i32::MAX
                    &&& has_setting(setting_upserted(self@, setting_name@, setting_value@), setting_name@)
                    &&& planned@ == setting_upserted(
                        self@,
                        setting_name@,
                        setting_value@,
                    )[place_of_setting(
                        setting_upserted(self@, setting_name@, setting_value@),
                        setting_name@,
                    )]
                },
                Err(error) => {
                    &&& !has_setting(self@, setting_name@)
                    &&& self@.len() == i32::MAX
                    &&& error@ == PersistenceErrorView::Insert("settings"@)
                },
            },
    {
        let id = match self.find(setting_name) {
            Some(at) => self.rows[at].id,
            None => {
                if self.rows.len() >= i32::MAX as usize {
                    return Err(PersistenceError::Insert("settings".to_owned()));
                }
                (self.rows.len() + 1) as i32
            },
        };
        proof {
            lemma_setting_upserted(self@, setting_name@, setting_value@);
            let after = setting_upserted(self@, setting_name@, setting_value@);
            if has_setting(self@, setting_name@) {
                assert(after[place_of_setting(self@, setting_name@)].name == setting_name@);
            } else {
                assert(after[self@.len() as int].name == setting_name@);
            }
        }
        Ok(SettingRecord { id, name: setting_name.to_owned(), value: setting_value.to_owned() })
    }

    /// Saves a value under a name: a row that holds the name takes the new
    /// value and keeps its id; otherwise a new row is added. Returns the
    /// number of rows written, which is 1.
    ///
    /// Fails with `Insert`, and changes nothing, only where a new row is
    /// needed and the ids are used up.
    pub fn save(&mut self, setting_name: &str, setting_value: &str) -> (written: Result<
        usize,
        PersistenceError,
    >)
        ensures
            settings_ok(old(self)@),
            settings_ok(final(self)@),
            !has_setting(old(self)@, setting_name@) && old(self)@.len() == i32::MAX ==> {
                &&& final(self)@ == old(self)@
                &&& written is Err
                &&& written->Err_0@ == PersistenceErrorView::Insert("settings"@)
            },
            has_setting(old(self)@, setting_name@) || old(self)@.len() < i32::MAX ==> {
                &&& final(self)@ == setting_upserted(old(self)@, setting_name@, setting_value@)
                &&& written == Ok::<usize, PersistenceError>(1)
            },
    {
        let found = self.find(setting_name);
        if found.is_none() && self.rows.len() >= i32::MAX as usize {
            return Err(PersistenceError::Insert("settings".to_owned()));
        }
        proof {
            lemma_setting_upserted(self@, setting_name@, setting_value@);
        }
        let ghost after = setting_upserted(self@, setting_name@, setting_value@);
        let mut rows: Vec<SettingRecord> = Vec::new();
        std::mem::swap(&mut self.rows, &mut rows);
        match found {
            Some(at) => {
                let row = SettingRecord {
                    id: rows[at].id,
                    name: setting_name.to_owned(),
                    value: setting_value.to_owned(),
                };
                rows.set(at, row);
            },
            None => {
                let row = SettingRecord {
                    id: (rows.len() + 1) as i32,
                    name: setting_name.to_owned(),
                    value: setting_value.to_owned(),
                };
                rows.push(row);
            },
        }
        assert(setting_rows(rows@) =~= after);
        std::mem::swap(&mut self.rows, &mut rows);
        Ok(1)
    }
}

/// Saving a setting keeps the table of settings well-formed, leaves exactly
/// one row for the name, and that row holds the value that was saved. The
/// table grows by one row where the name is new, and not at all otherwise.
pub proof fn lemma_setting_upserted(rows: Seq<SettingRecordView>, name: Seq<char>, value: Seq<char>)
    requires
        settings_ok(rows),
        has_setting(rows, name) || rows.len() < i32::MAX,
    ensures
        ({
            let after = setting_upserted(rows, name, value);
            let at = place_of_setting(after, name);
            &&& settings_ok(after)
            &&& has_setting(after, name)
            &&& after.len() == if has_setting(rows, name) {
                rows.len()
            } else {
                rows.len() + 1
            }
            &&& 0 <= at < after.len()
            &&& after[at].value == value
            &&& forall|i: int| 0 <= i < after.len() && (#[trigger] after[i]).name == name ==> i == at
            &&& forall|i: int|
                0 <= i < rows.len() && (#[trigger] rows[i]).name != name ==> after[i] == rows[i]
        }),
{
    let after = setting_upserted(rows, name, value);
    if has_setting(rows, name) {
        let old_at = place_of_setting(rows, name);
        assert(after[old_at].name == name);
        assert forall|i: int, j: int| 0 <= i < j < after.len() implies (#[trigger] after[i]).name != (
        #[trigger] after[j]).name by {
            assert(after[i].name == rows[i].name);
            assert(after[j].name == rows[j].name);
        }
    } else {
        let last = rows.len() as int;
        assert(after[last].name == name);
        assert forall|i: int, j: int| 0 <= i < j < after.len() implies (#[trigger] after[i]).name != (
        #[trigger] after[j]).name by {
            assert(after[i].name == rows[i].name);
            if j < last {
                assert(after[j].name == rows[j].name);
            }
        }
    }
    let at = place_of_setting(after, name);
    assert forall|i: int| 0 <= i < after.len() && (#[trigger] after[i]).name == name implies i
        == at by {
        if i < at {
            assert(after[i].name != after[at].name);
        } else if at < i {
            assert(after[at].name != after[i].name);
        }
    }
}

} // verus!
