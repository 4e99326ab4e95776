//! Reading a `toml` table.
use vstd::prelude::*;
use toml::value::{Table, Value};

verus! {

/// `toml::map::Map`, taken as it is: nothing of its insides is known here.
#[verifier::external_type_specification]
#[verifier::external_body]
#[verifier::reject_recursive_types(K)]
#[verifier::reject_recursive_types(V)]
pub struct ExMap<K, V>(toml::map::Map<K, V>);

/// `toml::Value`, taken as it is: nothing of its insides is known here.
#[verifier::external_type_specification]
#[verifier::external_body]
pub struct ExValue(Value);

/// One value of a configuration table, as far as decoding tells values apart:
/// a boolean, a string, a nested table, or anything else.
pub enum Setting {
    Flag(bool),
    Text(String),
    Group(Table),
    Other,
}

/// A setting as a value; a nested table is the map of its own settings.
pub enum SettingView {
    Flag(bool),
    Text(Seq<char>),
    Group(Map<Seq<char>, SettingView>),
    Other,
}

/// What a TOML table holds: under each of its keys the value stored there.
pub uninterp spec fn entries(table: Table) -> Map<Seq<char>, SettingView>;

impl View for Setting {
    type V = SettingView;

    open spec fn view(&self) -> SettingView {
        match *self {
            Setting::Flag(flag) => SettingView::Flag(flag),
            Setting::Text(text) => SettingView::Text(text@),
            Setting::Group(group) => SettingView::Group(entries(group)),
            Setting::Other => SettingView::Other,
        }
    }
}

/// The view of an optional setting.
pub open spec fn opt_setting(setting: Option<Setting>) -> Option<SettingView> {
    match setting {
        Some(s) => Some(s@),
        None => None,
    }
}

/// Looks `key` up with `toml::map::Map::get` and copies what is found.
///
/// Trusted, not proved: nothing comes back where the table has no entry under
/// `key`; else the entry's value comes back, a boolean, a string or a table as
/// it is, and an integer, a float, a date or an array as `Other`.
#[verifier::external_body]
pub(crate) fn lookup(table: &Table, key: &str) -> (setting: Option<Setting>)
    ensures
        opt_setting(setting) == entries(*table).get(key@),
{
    table.get(key).map(
        |value|
            match value {
                Value::Boolean(flag) => Setting::Flag(*flag),
                Value::String(text) => Setting::Text(text.clone()),
                Value::Table(group) => Setting::Group(group.clone()),
                Value::Integer(_) => Setting::Other,
                Value::Float(_) => Setting::Other,
                Value::Datetime(_) => Setting::Other,
                Value::Array(_) => Setting::Other,
            },
    )
}

} // verus!
