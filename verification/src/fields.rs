//! Reading single entries of a table, each with the type that its key asks
//! for.
//!
//! A key that is absent is never an error here: the result is `None`, and
//! the caller decides what stands in for it. A key that is present with
//! a value of another type, or with a number out of range, is an error.

use crate::document::{
    items_of, table_entries, table_get, value_as_array, value_as_bool, value_as_integer,
    value_as_str, value_as_table, Entries, Item,
};
use vstd::prelude::*;

verus! {

/// The keys that the cache and the config know.
#[derive(Debug, Clone, Copy, PartialEq, Eq, Structural)]
pub enum Key {
    Window,
    Updates,
    Image,
    Title,
    Bindings,
    Commands,
    Dark,
    WinW,
    WinH,
    WinX,
    WinY,
    LastChecked,
    FitStretches,
    Antialiasing,
    CheckUpdates,
    DisplayedFolders,
    ShowProgramName,
    StartFullscreen,
    StartMaximized,
    ShowBottomBar,
    Theme,
    UseLastWindowArea,
    Input,
    Program,
    Args,
    Envs,
    Name,
    Value,
}

/// What is wrong with the value under a key.
#[derive(Debug, Clone, Copy, PartialEq, Eq, Structural)]
pub enum Problem {
    ExpectedTable,
    ExpectedBoolean,
    ExpectedInteger,
    ExpectedString,
    ExpectedArray,
    /// An integer that the field's type cannot hold.
    OutOfRange,
    /// A string that is not one of the names the field knows.
    UnknownName,
    /// A key that must be there is not.
    Missing,
}

/// A key whose value cannot be used, and why.
#[derive(Debug, Clone, Copy, PartialEq, Eq, Structural)]
pub struct Invalid {
    pub key: Key,
    pub problem: Problem,
}

impl Key {
    /// The key as it is written in a document.
    pub open spec fn spec_name(self) -> Seq<char> {
        match self {
            Key::Window => "window"@,
            Key::Updates => "updates"@,
            Key::Image => "image"@,
            Key::Title => "title"@,
            Key::Bindings => "bindings"@,
            Key::Commands => "commands"@,
            Key::Dark => "dark"@,
            Key::WinW => "win_w"@,
            Key::WinH => "win_h"@,
            Key::WinX => "win_x"@,
            Key::WinY => "win_y"@,
            Key::LastChecked => "last_checked"@,
            Key::FitStretches => "fit_stretches"@,
            Key::Antialiasing => "antialiasing"@,
            Key::CheckUpdates => "check_updates"@,
            Key::DisplayedFolders => "displayed_folders"@,
            Key::ShowProgramName => "show_program_name"@,
            Key::StartFullscreen => "start_fullscreen"@,
            Key::StartMaximized => "start_maximized"@,
            Key::ShowBottomBar => "show_bottom_bar"@,
            Key::Theme => "theme"@,
            Key::UseLastWindowArea => "use_last_window_area"@,
            Key::Input => "input"@,
            Key::Program => "program"@,
            Key::Args => "args"@,
            Key::Envs => "envs"@,
            Key::Name => "name"@,
            Key::Value => "value"@,
        }
    }

    /// The key as it is written in a document.
    pub fn name(self) -> (name: &'static str)
        ensures
            name@ == self.spec_name(),
    {
        match self {
            Key::Window => "window",
            Key::Updates => "updates",
            Key::Image => "image",
            Key::Title => "title",
            Key::Bindings => "bindings",
            Key::Commands => "commands",
            Key::Dark => "dark",
            Key::WinW => "win_w",
            Key::WinH => "win_h",
            Key::WinX => "win_x",
            Key::WinY => "win_y",
            Key::LastChecked => "last_checked",
            Key::FitStretches => "fit_stretches",
            Key::Antialiasing => "antialiasing",
            Key::CheckUpdates => "check_updates",
            Key::DisplayedFolders => "displayed_folders",
            Key::ShowProgramName => "show_program_name",
            Key::StartFullscreen => "start_fullscreen",
            Key::StartMaximized => "start_maximized",
            Key::ShowBottomBar => "show_bottom_bar",
            Key::Theme => "theme",
            Key::UseLastWindowArea => "use_last_window_area",
            Key::Input => "input",
            Key::Program => "program",
            Key::Args => "args",
            Key::Envs => "envs",
            Key::Name => "name",
            Key::Value => "value",
        }
    }

    /// No two keys are written alike.
    pub proof fn lemma_names_differ(self, other: Key)
        ensures
            self != other ==> self.spec_name() != other.spec_name(),
    {
        reveal_strlit("window");
        reveal_strlit("updates");
        reveal_strlit("image");
        reveal_strlit("title");
        reveal_strlit("bindings");
        reveal_strlit("commands");
        reveal_strlit("dark");
        reveal_strlit("win_w");
        reveal_strlit("win_h");
        reveal_strlit("win_x");
        reveal_strlit("win_y");
        reveal_strlit("last_checked");
        reveal_strlit("fit_stretches");
        reveal_strlit("antialiasing");
        reveal_strlit("check_updates");
        reveal_strlit("displayed_folders");
        reveal_strlit("show_program_name");
        reveal_strlit("start_fullscreen");
        reveal_strlit("start_maximized");
        reveal_strlit("show_bottom_bar");
        reveal_strlit("theme");
        reveal_strlit("use_last_window_area");
        reveal_strlit("input");
        reveal_strlit("program");
        reveal_strlit("args");
        reveal_strlit("envs");
        reveal_strlit("name");
        reveal_strlit("value");
        if self != other && self.spec_name() == other.spec_name() {
            // Names of one length differ in their third or in their fifth
            // character.
            let a = self.spec_name();
            let b = other.spec_name();
            assert(a.len() == b.len());
            assert(a[2] == b[2]);
            assert(a.len() > 4 ==> a[4] == b[4]);
        }
    }
}

/// The views of `texts`, in order.
pub open spec fn text_views(texts: Seq<String>) -> Seq<Seq<char>> {
    Seq::new(texts.len(), |i: int| texts[i]@)
}

/// Whether every one of `items` is a string.
pub open spec fn all_text(items: Seq<Item>) -> bool {
    forall|i: int| 0 <= i < items.len() ==> #[trigger] items[i] is Text
}

/// The strings that `items` hold, in order.
pub open spec fn texts_of(items: Seq<Item>) -> Seq<Seq<char>> {
    Seq::new(items.len(), |i: int| items[i]->Text_0)
}

/// The boolean under `key`.
pub open spec fn flag_at(entries: Entries, key: Key) -> Result<Option<bool>, Invalid> {
    if !entries.contains_key(key.spec_name()) {
        Ok(None)
    } else {
        match entries[key.spec_name()] {
            Item::Boolean(flag) => Ok(Some(flag)),
            _ => Err(Invalid { key, problem: Problem::ExpectedBoolean }),
        }
    }
}

/// The integer under `key`, which has to lie between `low` and `high`.
pub open spec fn integer_at(entries: Entries, key: Key, low: int, high: int) -> Result<
    Option<int>,
    Invalid,
> {
    if !entries.contains_key(key.spec_name()) {
        Ok(None)
    } else {
        match entries[key.spec_name()] {
            Item::Integer(number) => if low <= number <= high {
                Ok(Some(number as int))
            } else {
                Err(Invalid { key, problem: Problem::OutOfRange })
            },
            _ => Err(Invalid { key, problem: Problem::ExpectedInteger }),
        }
    }
}

/// The string under `key`.
pub open spec fn text_at(entries: Entries, key: Key) -> Result<Option<Seq<char>>, Invalid> {
    if !entries.contains_key(key.spec_name()) {
        Ok(None)
    } else {
        match entries[key.spec_name()] {
            Item::Text(text) => Ok(Some(text)),
            _ => Err(Invalid { key, problem: Problem::ExpectedString }),
        }
    }
}

/// The entries of the table under `key`.
pub open spec fn section_at(entries: Entries, key: Key) -> Result<Option<Entries>, Invalid> {
    if !entries.contains_key(key.spec_name()) {
        Ok(None)
    } else {
        match entries[key.spec_name()] {
            Item::Table(fields) => Ok(Some(fields)),
            _ => Err(Invalid { key, problem: Problem::ExpectedTable }),
        }
    }
}

/// The items of the array under `key`.
pub open spec fn list_at(entries: Entries, key: Key) -> Result<Option<Seq<Item>>, Invalid> {
    if !entries.contains_key(key.spec_name()) {
        Ok(None)
    } else {
        match entries[key.spec_name()] {
            Item::Array(items) => Ok(Some(items)),
            _ => Err(Invalid { key, problem: Problem::ExpectedArray }),
        }
    }
}

/// The strings of the array under `key`.
pub open spec fn texts_at(entries: Entries, key: Key) -> Result<Option<Seq<Seq<char>>>, Invalid> {
    match list_at(entries, key) {
        Err(invalid) => Err(invalid),
        Ok(None) => Ok(None),
        Ok(Some(items)) => if all_text(items) {
            Ok(Some(texts_of(items)))
        } else {
            Err(Invalid { key, problem: Problem::ExpectedString })
        },
    }
}

/// The value under `key` where the key must be there.
pub open spec fn required<T>(found: Result<Option<T>, Invalid>, key: Key) -> Result<T, Invalid> {
    match found {
        Err(invalid) => Err(invalid),
        Ok(None) => Err(Invalid { key, problem: Problem::Missing }),
        Ok(Some(value)) => Ok(value),
    }
}

/// Reads the boolean under `key`.
pub fn read_flag(table: &toml::Table, key: Key) -> (flag: Result<Option<bool>, Invalid>)
    ensures
        flag == flag_at(table_entries(*table), key),
{
    match table_get(table, key.name()) {
        None => Ok(None),
        Some(value) => match value_as_bool(value) {
            Some(flag) => Ok(Some(flag)),
            None => Err(Invalid { key, problem: Problem::ExpectedBoolean }),
        },
    }
}

/// Reads the integer under `key`, which has to lie between `low` and `high`.
pub fn read_integer(table: &toml::Table, key: Key, low: i64, high: i64) -> (number: Result<
    Option<i64>,
    Invalid,
>)
    ensures
        match integer_at(table_entries(*table), key, low as int, high as int) {
            Err(invalid) => number == Err::<Option<i64>, Invalid>(invalid),
            Ok(None) => number == Ok::<Option<i64>, Invalid>(None),
            Ok(Some(held)) => number == Ok::<Option<i64>, Invalid>(Some(held as i64)) && low
                <= held <= high,
        },
{
    match table_get(table, key.name()) {
        None => Ok(None),
        Some(value) => match value_as_integer(value) {
            Some(number) => if low <= number && number <= high {
                Ok(Some(number))
            } else {
                Err(Invalid { key, problem: Problem::OutOfRange })
            },
            None => Err(Invalid { key, problem: Problem::ExpectedInteger }),
        },
    }
}

/// The unsigned 32-bit number under `key`.
pub open spec fn u32_at(entries: Entries, key: Key) -> Result<Option<u32>, Invalid> {
    match integer_at(entries, key, 0, u32::MAX as int) {
        Err(invalid) => Err(invalid),
        Ok(None) => Ok(None),
        Ok(Some(number)) => Ok(Some(number as u32)),
    }
}

/// The signed 32-bit number under `key`.
pub open spec fn i32_at(entries: Entries, key: Key) -> Result<Option<i32>, Invalid> {
    match integer_at(entries, key, i32::MIN as int, i32::MAX as int) {
        Err(invalid) => Err(invalid),
        Ok(None) => Ok(None),
        Ok(Some(number)) => Ok(Some(number as i32)),
    }
}

/// The unsigned 64-bit number under `key`.
pub open spec fn u64_at(entries: Entries, key: Key) -> Result<Option<u64>, Invalid> {
    match integer_at(entries, key, 0, i64::MAX as int) {
        Err(invalid) => Err(invalid),
        Ok(None) => Ok(None),
        Ok(Some(number)) => Ok(Some(number as u64)),
    }
}

/// Reads the unsigned 32-bit number under `key`.
pub fn read_u32(table: &toml::Table, key: Key) -> (number: Result<Option<u32>, Invalid>)
    ensures
        number == u32_at(table_entries(*table), key),
{
    match read_integer(table, key, 0, 0xffff_ffff) {
        Err(invalid) => Err(invalid),
        Ok(None) => Ok(None),
        Ok(Some(number)) => Ok(Some(number as u32)),
    }
}

/// Reads the signed 32-bit number under `key`.
pub fn read_i32(table: &toml::Table, key: Key) -> (number: Result<Option<i32>, Invalid>)
    ensures
        number == i32_at(table_entries(*table), key),
{
    match read_integer(table, key, -0x8000_0000, 0x7fff_ffff) {
        Err(invalid) => Err(invalid),
        Ok(None) => Ok(None),
        Ok(Some(number)) => Ok(Some(number as i32)),
    }
}

/// Reads the unsigned 64-bit number under `key`.
pub fn read_u64(table: &toml::Table, key: Key) -> (number: Result<Option<u64>, Invalid>)
    ensures
        number == u64_at(table_entries(*table), key),
{
    match read_integer(table, key, 0, 0x7fff_ffff_ffff_ffff) {
        Err(invalid) => Err(invalid),
        Ok(None) => Ok(None),
        Ok(Some(number)) => Ok(Some(number as u64)),
    }
}

/// Reads the string under `key`.
pub fn read_text<'a>(table: &'a toml::Table, key: Key) -> (text: Result<Option<&'a str>, Invalid>)
    ensures
        match text_at(table_entries(*table), key) {
            Err(invalid) => text == Err::<Option<&str>, Invalid>(invalid),
            Ok(None) => text == Ok::<Option<&str>, Invalid>(None),
            Ok(Some(held)) => text matches Ok(Some(read)) && read@ == held,
        },
{
    match table_get(table, key.name()) {
        None => Ok(None),
        Some(value) => match value_as_str(value) {
            Some(text) => Ok(Some(text)),
            None => Err(Invalid { key, problem: Problem::ExpectedString }),
        },
    }
}

/// Reads the table under `key`.
pub fn read_section<'a>(table: &'a toml::Table, key: Key) -> (section: Result<
    Option<&'a toml::Table>,
    Invalid,
>)
    ensures
        match section_at(table_entries(*table), key) {
            Err(invalid) => section == Err::<Option<&toml::Table>, Invalid>(invalid),
            Ok(None) => section == Ok::<Option<&toml::Table>, Invalid>(None),
            Ok(Some(fields)) => section matches Ok(Some(read)) && table_entries(*read) == fields,
        },
{
    match table_get(table, key.name()) {
        None => Ok(None),
        Some(value) => match value_as_table(value) {
            Some(section) => Ok(Some(section)),
            None => Err(Invalid { key, problem: Problem::ExpectedTable }),
        },
    }
}

/// Reads the array under `key`.
pub fn read_list<'a>(table: &'a toml::Table, key: Key) -> (list: Result<
    Option<&'a Vec<toml::Value>>,
    Invalid,
>)
    ensures
        match list_at(table_entries(*table), key) {
            Err(invalid) => list == Err::<Option<&Vec<toml::Value>>, Invalid>(invalid),
            Ok(None) => list == Ok::<Option<&Vec<toml::Value>>, Invalid>(None),
            Ok(Some(items)) => list matches Ok(Some(read)) && items_of(read@) == items,
        },
{
    match table_get(table, key.name()) {
        None => Ok(None),
        Some(value) => match value_as_array(value) {
            Some(list) => Ok(Some(list)),
            None => Err(Invalid { key, problem: Problem::ExpectedArray }),
        },
    }
}

/// Copies the strings out of `values`, or returns `None` where one of the
/// values is no string.
pub fn copy_texts(values: &Vec<toml::Value>) -> (texts: Option<Vec<String>>)
    ensures
        texts is Some <==> all_text(items_of(values@)),
        texts is Some ==> text_views(texts->0@) == texts_of(items_of(values@)),
{
    let mut texts: Vec<String> = Vec::new();
    let mut index: usize = 0;
    while index < values.len()
        invariant
            index <= values.len(),
            texts.len() == index,
            forall|i: int| 0 <= i < index ==> #[trigger] items_of(values@)[i] is Text,
            forall|i: int|
                0 <= i < index ==> (#[trigger] texts[i])@ == items_of(values@)[i]->Text_0,
        decreases values.len() - index,
    {
        match value_as_str(&values[index]) {
            Some(text) => {
                texts.push(text.to_owned());
            },
            None => {
                assert(!(items_of(values@)[index as int] is Text));
                return None;
            },
        }
        index += 1;
    }
    Some(texts)
}

/// Reads the strings of the array under `key`.
pub fn read_texts(table: &toml::Table, key: Key) -> (texts: Result<Option<Vec<String>>, Invalid>)
    ensures
        match texts_at(table_entries(*table), key) {
            Err(invalid) => texts == Err::<Option<Vec<String>>, Invalid>(invalid),
            Ok(None) => texts == Ok::<Option<Vec<String>>, Invalid>(None),
            Ok(Some(held)) => texts matches Ok(Some(read)) && text_views(read@) == held,
        },
{
    match read_list(table, key) {
        Err(invalid) => Err(invalid),
        Ok(None) => Ok(None),
        Ok(Some(values)) => match copy_texts(values) {
            Some(texts) => Ok(Some(texts)),
            None => Err(Invalid { key, problem: Problem::ExpectedString }),
        },
    }
}

} // verus!
