//! Reading a setting, and what a failure to read one is called.

use crate::model::{SettingError, SettingErrorView, SettingName};
use crate::persistence::{
    has_setting, place_of_setting, PersistenceError, PersistenceErrorView, SettingRecord,
    SettingStore,
};
use vstd::prelude::*;

verus! {

/// What a failure of the phrase book is called where a setting was asked
/// for: a failed migration is passed on under `What`; everything else is a
/// failure to load, with the reason after a few words on where it arose.
pub open spec fn setting_error_of(error: PersistenceErrorView) -> SettingErrorView {
    match error {
        PersistenceErrorView::Migration(m) => SettingErrorView::What(m),
        PersistenceErrorView::Connection(m) => SettingErrorView::Load(
            "No connection to database: "@ + m,
        ),
        PersistenceErrorView::Execution(m) => SettingErrorView::Load("Failed to load: "@ + m),
        other => SettingErrorView::Load("Failed to load: "@ + other.message()),
    }
}

/// The name for settings of a failure of the phrase book.
pub fn setting_error(error: PersistenceError) -> (named: SettingError)
    ensures
        named@ == setting_error_of(error@),
{
    match error {
        PersistenceError::Migration(m) => SettingError::What(m),
        PersistenceError::Connection(m) => SettingError::Load(
            "No connection to database: ".to_owned().concat(m.as_str()),
        ),
        PersistenceError::Execution(m) => SettingError::Load(
            "Failed to load: ".to_owned().concat(m.as_str()),
        ),
        other => {
            let reason = other.to_string();
            SettingError::Load("Failed to load: ".to_owned().concat(reason.as_str()))
        },
    }
}

/// The value of a setting, given what the table gave for its name.
pub fn setting_value(loaded: Result<SettingRecord, PersistenceError>) -> (value: Result<
    String,
    SettingError,
>)
    ensures
        match value {
            Ok(v) => loaded is Ok && v@ == loaded->Ok_0@.value,
            Err(e) => loaded is Err && e@ == setting_error_of(loaded->Err_0@),
        },
{
    match loaded {
        Ok(row) => Ok(row.value),
        Err(error) => Err(setting_error(error)),
    }
}

/// The value stored for `setting_name`, or `Load` where nothing is stored
/// for it.
pub fn load_setting(store: &SettingStore, setting_name: SettingName) -> (value: Result<
    String,
    SettingError,
>)
    ensures
        match value {
            Ok(v) => has_setting(store@, setting_name.spec_key()) && v@
                == store@[place_of_setting(store@, setting_name.spec_key())].value,
            Err(e) => !has_setting(store@, setting_name.spec_key()) && e@ == setting_error_of(
                PersistenceErrorView::NotFound,
            ),
        },
{
    let key = setting_name.to_string();
    setting_value(store.setting(key.as_str()))
}

} // verus!
