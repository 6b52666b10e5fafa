//! The cache as a document: three sections, `window`, `updates` and
//! `image`.
//!
//! Reading tolerates a document that leaves out sections or fields, and
//! ignores keys that it does not know. Writing always puts down the whole
//! cache.

use crate::cache::{
    Cache, CacheImageSection, CacheUpdateSection, CacheWindowSection, IncompleteCache,
    IncompleteImageSection, IncompleteUpdateSection, IncompleteWindowSection,
};
use crate::document::{
    is_scalar, is_section, is_sectioned, parse_document, parse_error_message, parsed_document,
    print_document, print_error_message, printed_document, table_entries, table_insert, table_new,
    value_from_bool, value_from_integer, value_from_str, value_from_table, Entries, Item,
};
use crate::error::{LoadError, SaveError};
use crate::fields::{
    flag_at, i32_at, read_flag, read_i32, read_section, read_text, read_u32, read_u64, section_at,
    text_at, u32_at, u64_at, Invalid, Key, Problem,
};
use crate::theme::Antialias;
use vstd::prelude::*;

verus! {

/// The antialiasing setting under its key: one of the three names.
pub open spec fn antialias_at(fields: Entries) -> Result<Option<Antialias>, Invalid> {
    match text_at(fields, Key::Antialiasing) {
        Err(invalid) => Err(invalid),
        Ok(None) => Ok(None),
        Ok(Some(name)) => match Antialias::spec_from_name(name) {
            Some(setting) => Ok(Some(setting)),
            None => Err(Invalid { key: Key::Antialiasing, problem: Problem::UnknownName }),
        },
    }
}

/// What the entries of a `window` section store.
pub open spec fn decode_window(fields: Entries) -> Result<IncompleteWindowSection, Invalid> {
    match flag_at(fields, Key::Dark) {
        Err(invalid) => Err(invalid),
        Ok(dark) => match u32_at(fields, Key::WinW) {
            Err(invalid) => Err(invalid),
            Ok(win_w) => match u32_at(fields, Key::WinH) {
                Err(invalid) => Err(invalid),
                Ok(win_h) => match i32_at(fields, Key::WinX) {
                    Err(invalid) => Err(invalid),
                    Ok(win_x) => match i32_at(fields, Key::WinY) {
                        Err(invalid) => Err(invalid),
                        Ok(win_y) => Ok(
                            IncompleteWindowSection { dark, win_w, win_h, win_x, win_y },
                        ),
                    },
                },
            },
        },
    }
}

/// What the entries of an `updates` section store.
pub open spec fn decode_updates(fields: Entries) -> Result<IncompleteUpdateSection, Invalid> {
    match u64_at(fields, Key::LastChecked) {
        Err(invalid) => Err(invalid),
        Ok(last_checked) => Ok(IncompleteUpdateSection { last_checked }),
    }
}

/// What the entries of an `image` section store.
pub open spec fn decode_image(fields: Entries) -> Result<IncompleteImageSection, Invalid> {
    match flag_at(fields, Key::FitStretches) {
        Err(invalid) => Err(invalid),
        Ok(fit_stretches) => match antialias_at(fields) {
            Err(invalid) => Err(invalid),
            Ok(antialiasing) => Ok(IncompleteImageSection { fit_stretches, antialiasing }),
        },
    }
}

/// The `window` section of a document, if it has one.
pub open spec fn window_at(document: Entries) -> Result<Option<IncompleteWindowSection>, Invalid> {
    match section_at(document, Key::Window) {
        Err(invalid) => Err(invalid),
        Ok(None) => Ok(None),
        Ok(Some(fields)) => match decode_window(fields) {
            Err(invalid) => Err(invalid),
            Ok(section) => Ok(Some(section)),
        },
    }
}

/// The `updates` section of a document, if it has one.
pub open spec fn updates_at(document: Entries) -> Result<Option<IncompleteUpdateSection>, Invalid> {
    match section_at(document, Key::Updates) {
        Err(invalid) => Err(invalid),
        Ok(None) => Ok(None),
        Ok(Some(fields)) => match decode_updates(fields) {
            Err(invalid) => Err(invalid),
            Ok(section) => Ok(Some(section)),
        },
    }
}

/// The `image` section of a document, if it has one.
pub open spec fn image_at(document: Entries) -> Result<Option<IncompleteImageSection>, Invalid> {
    match section_at(document, Key::Image) {
        Err(invalid) => Err(invalid),
        Ok(None) => Ok(None),
        Ok(Some(fields)) => match decode_image(fields) {
            Err(invalid) => Err(invalid),
            Ok(section) => Ok(Some(section)),
        },
    }
}

/// What a document stores of a cache. The sections are read in the order
/// `window`, `updates`, `image`, and the first key that cannot be used is
/// the error.
pub open spec fn decode_cache(document: Entries) -> Result<IncompleteCache, Invalid> {
    match window_at(document) {
        Err(invalid) => Err(invalid),
        Ok(window) => match updates_at(document) {
            Err(invalid) => Err(invalid),
            Ok(updates) => match image_at(document) {
                Err(invalid) => Err(invalid),
                Ok(image) => Ok(IncompleteCache { window, updates, image }),
            },
        },
    }
}

/// The entries of the `window` section that is written for `section`.
pub open spec fn window_entries(section: CacheWindowSection) -> Entries {
    Entries::empty().insert(Key::Dark.spec_name(), Item::Boolean(section.dark)).insert(
        Key::WinW.spec_name(),
        Item::Integer(section.win_w as i64),
    ).insert(Key::WinH.spec_name(), Item::Integer(section.win_h as i64)).insert(
        Key::WinX.spec_name(),
        Item::Integer(section.win_x as i64),
    ).insert(Key::WinY.spec_name(), Item::Integer(section.win_y as i64))
}

/// The entries of the `updates` section that is written for `section`.
pub open spec fn updates_entries(section: CacheUpdateSection) -> Entries {
    Entries::empty().insert(
        Key::LastChecked.spec_name(),
        Item::Integer(section.last_checked as i64),
    )
}

/// The entries of the `image` section that is written for `section`.
pub open spec fn image_entries(section: CacheImageSection) -> Entries {
    Entries::empty().insert(
        Key::FitStretches.spec_name(),
        Item::Boolean(section.fit_stretches),
    ).insert(Key::Antialiasing.spec_name(), Item::Text(section.antialiasing.spec_name()))
}

/// The entries of the document that is written for `cache`.
pub open spec fn cache_entries(cache: Cache) -> Entries {
    Entries::empty().insert(
        Key::Window.spec_name(),
        Item::Table(window_entries(cache.window)),
    ).insert(Key::Updates.spec_name(), Item::Table(updates_entries(cache.updates))).insert(
        Key::Image.spec_name(),
        Item::Table(image_entries(cache.image)),
    )
}

/// Whether `cache` can be written: a document holds no integer above the
/// largest signed 64-bit number.
pub open spec fn is_storable(cache: Cache) -> bool {
    cache.updates.last_checked <= i64::MAX
}

impl IncompleteWindowSection {
    /// Reads the fields of a `window` section.
    pub fn from_table(table: &toml::Table) -> (section: Result<IncompleteWindowSection, Invalid>)
        ensures
            section == decode_window(table_entries(*table)),
    {
        let dark = match read_flag(table, Key::Dark) {
            Err(invalid) => { return Err(invalid); },
            Ok(dark) => dark,
        };
        let win_w = match read_u32(table, Key::WinW) {
            Err(invalid) => { return Err(invalid); },
            Ok(win_w) => win_w,
        };
        let win_h = match read_u32(table, Key::WinH) {
            Err(invalid) => { return Err(invalid); },
            Ok(win_h) => win_h,
        };
        let win_x = match read_i32(table, Key::WinX) {
            Err(invalid) => { return Err(invalid); },
            Ok(win_x) => win_x,
        };
        let win_y = match read_i32(table, Key::WinY) {
            Err(invalid) => { return Err(invalid); },
            Ok(win_y) => win_y,
        };
        Ok(IncompleteWindowSection { dark, win_w, win_h, win_x, win_y })
    }
}

impl IncompleteUpdateSection {
    /// Reads the fields of an `updates` section.
    pub fn from_table(table: &toml::Table) -> (section: Result<IncompleteUpdateSection, Invalid>)
        ensures
            section == decode_updates(table_entries(*table)),
    {
        match read_u64(table, Key::LastChecked) {
            Err(invalid) => Err(invalid),
            Ok(last_checked) => Ok(IncompleteUpdateSection { last_checked }),
        }
    }
}

/// Reads the antialiasing setting of an `image` section.
pub fn read_antialias(table: &toml::Table) -> (setting: Result<Option<Antialias>, Invalid>)
    ensures
        setting == antialias_at(table_entries(*table)),
{
    match read_text(table, Key::Antialiasing) {
        Err(invalid) => Err(invalid),
        Ok(None) => Ok(None),
        Ok(Some(name)) => match Antialias::from_name(name) {
            Some(setting) => Ok(Some(setting)),
            None => Err(Invalid { key: Key::Antialiasing, problem: Problem::UnknownName }),
        },
    }
}

impl IncompleteImageSection {
    /// Reads the fields of an `image` section.
    pub fn from_table(table: &toml::Table) -> (section: Result<IncompleteImageSection, Invalid>)
        ensures
            section == decode_image(table_entries(*table)),
    {
        let fit_stretches = match read_flag(table, Key::FitStretches) {
            Err(invalid) => { return Err(invalid); },
            Ok(fit_stretches) => fit_stretches,
        };
        match read_antialias(table) {
            Err(invalid) => Err(invalid),
            Ok(antialiasing) => Ok(IncompleteImageSection { fit_stretches, antialiasing }),
        }
    }
}

impl IncompleteCache {
    /// Reads what a document stores of a cache.
    pub fn from_table(table: &toml::Table) -> (stored: Result<IncompleteCache, Invalid>)
        ensures
            stored == decode_cache(table_entries(*table)),
    {
        let window = match read_section(table, Key::Window) {
            Err(invalid) => { return Err(invalid); },
            Ok(None) => None,
            Ok(Some(fields)) => match IncompleteWindowSection::from_table(fields) {
                Err(invalid) => { return Err(invalid); },
                Ok(section) => Some(section),
            },
        };
        let updates = match read_section(table, Key::Updates) {
            Err(invalid) => { return Err(invalid); },
            Ok(None) => None,
            Ok(Some(fields)) => match IncompleteUpdateSection::from_table(fields) {
                Err(invalid) => { return Err(invalid); },
                Ok(section) => Some(section),
            },
        };
        let image = match read_section(table, Key::Image) {
            Err(invalid) => { return Err(invalid); },
            Ok(None) => None,
            Ok(Some(fields)) => match IncompleteImageSection::from_table(fields) {
                Err(invalid) => { return Err(invalid); },
                Ok(section) => Some(section),
            },
        };
        Ok(IncompleteCache { window, updates, image })
    }
}

impl CacheWindowSection {
    /// Writes the section as a table.
    pub fn to_table(&self) -> (table: toml::Table)
        ensures
            table_entries(table) == window_entries(*self),
    {
        let mut table = table_new();
        table_insert(&mut table, Key::Dark.name(), value_from_bool(self.dark));
        table_insert(&mut table, Key::WinW.name(), value_from_integer(self.win_w as i64));
        table_insert(&mut table, Key::WinH.name(), value_from_integer(self.win_h as i64));
        table_insert(&mut table, Key::WinX.name(), value_from_integer(self.win_x as i64));
        table_insert(&mut table, Key::WinY.name(), value_from_integer(self.win_y as i64));
        table
    }
}

impl CacheUpdateSection {
    /// Writes the section as a table, or returns `None` where the time of
    /// the last check is more than a document can hold.
    pub fn to_table(&self) -> (table: Option<toml::Table>)
        ensures
            table is Some <==> self.last_checked <= i64::MAX,
            table is Some ==> table_entries(table->0) == updates_entries(*self),
    {
        if self.last_checked > 0x7fff_ffff_ffff_ffff {
            return None;
        }
        let mut table = table_new();
        table_insert(
            &mut table,
            Key::LastChecked.name(),
            value_from_integer(self.last_checked as i64),
        );
        Some(table)
    }
}

impl CacheImageSection {
    /// Writes the section as a table.
    pub fn to_table(&self) -> (table: toml::Table)
        ensures
            table_entries(table) == image_entries(*self),
    {
        let mut table = table_new();
        table_insert(&mut table, Key::FitStretches.name(), value_from_bool(self.fit_stretches));
        table_insert(
            &mut table,
            Key::Antialiasing.name(),
            value_from_str(self.antialiasing.name()),
        );
        table
    }
}

/// The document written for a cache is made of sections and of nothing
/// else.
pub proof fn lemma_cache_entries_sectioned(cache: Cache)
    ensures
        is_sectioned(cache_entries(cache)),
{
    let window = window_entries(cache.window);
    let updates = updates_entries(cache.updates);
    let image = image_entries(cache.image);
    assert(is_section(Item::Table(window))) by {
        assert forall|field: Seq<char>| #[trigger] window.contains_key(field) implies is_scalar(
            window[field],
        ) by {}
    }
    assert(is_section(Item::Table(updates))) by {
        assert forall|field: Seq<char>| #[trigger] updates.contains_key(field) implies is_scalar(
            updates[field],
        ) by {}
    }
    assert(is_section(Item::Table(image))) by {
        assert forall|field: Seq<char>| #[trigger] image.contains_key(field) implies is_scalar(
            image[field],
        ) by {}
    }
    let document = cache_entries(cache);
    assert forall|section: Seq<char>| #[trigger] document.contains_key(section) implies is_section(
        document[section],
    ) by {}
}

impl Cache {
    /// The cache that a document with the entries `document` stands for:
    /// what it stores, filled up from the defaults.
    pub open spec fn spec_from_document(document: Entries) -> Result<Cache, Invalid> {
        match decode_cache(document) {
            Err(invalid) => Err(invalid),
            Ok(stored) => Ok(stored.filled()),
        }
    }

    /// Reads a cache from a parsed document. Sections and fields that the
    /// document leaves out take their defaults.
    pub fn from_table(table: &toml::Table) -> (cache: Result<Cache, Invalid>)
        ensures
            cache == Cache::spec_from_document(table_entries(*table)),
    {
        match IncompleteCache::from_table(table) {
            Err(invalid) => Err(invalid),
            Ok(stored) => Ok(Cache::from(stored)),
        }
    }

    /// Reads a cache from the text of a document.
    ///
    /// The result is a syntax error where the text is no document, the first
    /// key that cannot be used where there is one, and otherwise the cache,
    /// filled up from the defaults.
    pub fn from_toml(text: &str) -> (cache: Result<Cache, LoadError>)
        ensures
            match parsed_document(text@) {
                None => cache matches Err(LoadError::Syntax(_)),
                Some(document) => match Cache::spec_from_document(document) {
                    Err(invalid) => cache == Err::<Cache, LoadError>(LoadError::Invalid(invalid)),
                    Ok(read) => cache == Ok::<Cache, LoadError>(read),
                },
            },
    {
        match parse_document(text) {
            Err(error) => Err(LoadError::Syntax(parse_error_message(&error))),
            Ok(table) => match Cache::from_table(&table) {
                Err(invalid) => Err(LoadError::Invalid(invalid)),
                Ok(cache) => Ok(cache),
            },
        }
    }

    /// Writes the whole cache as a document, or returns the field that a
    /// document cannot hold.
    pub fn to_table(&self) -> (table: Result<toml::Table, Invalid>)
        ensures
            match table {
                Ok(table) => is_storable(*self) && table_entries(table) == cache_entries(*self),
                Err(invalid) => !is_storable(*self) && invalid == (Invalid {
                    key: Key::LastChecked,
                    problem: Problem::OutOfRange,
                }),
            },
    {
        let updates = match self.updates.to_table() {
            None => {
                return Err(Invalid { key: Key::LastChecked, problem: Problem::OutOfRange });
            },
            Some(updates) => updates,
        };
        let mut table = table_new();
        table_insert(&mut table, Key::Window.name(), value_from_table(self.window.to_table()));
        table_insert(&mut table, Key::Updates.name(), value_from_table(updates));
        table_insert(&mut table, Key::Image.name(), value_from_table(self.image.to_table()));
        Ok(table)
    }

    /// Writes the whole cache as the text of a document.
    ///
    /// The result is the field that a document cannot hold where there is
    /// one; otherwise it is what the printer makes of the cache's entries,
    /// the text or its error.
    pub fn to_toml(&self) -> (text: Result<String, SaveError>)
        ensures
            !is_storable(*self) ==> text == Err::<String, SaveError>(
                SaveError::Invalid(
                    Invalid { key: Key::LastChecked, problem: Problem::OutOfRange },
                ),
            ),
            is_storable(*self) ==> match printed_document(cache_entries(*self)) {
                Some(printed) => text matches Ok(written) && written@ == printed,
                None => text matches Err(SaveError::Print(_)),
            },
    {
        match self.to_table() {
            Err(invalid) => Err(SaveError::Invalid(invalid)),
            Ok(table) => {
                proof {
                    lemma_cache_entries_sectioned(*self);
                }
                match print_document(&table) {
                    Ok(text) => Ok(text),
                    Err(error) => Err(SaveError::Print(print_error_message(&error))),
                }
            },
        }
    }

    /// Reading back the document that was written for a cache gives the
    /// cache, with nothing missing.
    pub proof fn lemma_written_reads_back(self)
        requires
            is_storable(self),
        ensures
            decode_cache(cache_entries(self)) == Ok::<IncompleteCache, Invalid>(self.as_stored()),
            Cache::spec_from_document(cache_entries(self)) == Ok::<Cache, Invalid>(self),
    {
        assert forall|a: Key, b: Key| a != b implies a.spec_name() != b.spec_name() by {
            a.lemma_names_differ(b);
        }
        self.image.antialiasing.lemma_name_names_it();
        self.lemma_full_fills_to_itself();
    }

    /// A section that the document does not have takes its defaults, whatever
    /// else the document holds.
    pub proof fn lemma_absent_section_defaults(document: Entries)
        requires
            Cache::spec_from_document(document) is Ok,
        ensures
            !document.contains_key(Key::Window.spec_name()) ==> Cache::spec_from_document(
                document,
            )->Ok_0.window == CacheWindowSection::spec_default(),
            !document.contains_key(Key::Updates.spec_name()) ==> Cache::spec_from_document(
                document,
            )->Ok_0.updates == CacheUpdateSection::spec_default(),
            !document.contains_key(Key::Image.spec_name()) ==> Cache::spec_from_document(
                document,
            )->Ok_0.image == CacheImageSection::spec_default(),
    {
    }

    /// A document without any of the three sections reads as the default
    /// cache.
    pub proof fn lemma_no_section_reads_as_default(document: Entries)
        requires
            !document.contains_key(Key::Window.spec_name()),
            !document.contains_key(Key::Updates.spec_name()),
            !document.contains_key(Key::Image.spec_name()),
        ensures
            Cache::spec_from_document(document) == Ok::<Cache, Invalid>(Cache::spec_default()),
    {
    }

    /// An entry under any other name than those of the three sections does
    /// not change what a document reads as.
    pub proof fn lemma_unknown_entry_ignored(document: Entries, name: Seq<char>, item: Item)
        requires
            name != Key::Window.spec_name(),
            name != Key::Updates.spec_name(),
            name != Key::Image.spec_name(),
        ensures
            decode_cache(document.insert(name, item)) == decode_cache(document),
    {
    }

    /// A window section that stores only some fields takes the others from
    /// the defaults.
    pub proof fn lemma_absent_field_defaults(fields: Entries)
        requires
            decode_window(fields) is Ok,
        ensures
            ({
                let filled = decode_window(fields)->Ok_0.filled();
                let default = CacheWindowSection::spec_default();
                &&& !fields.contains_key(Key::Dark.spec_name()) ==> filled.dark == default.dark
                &&& !fields.contains_key(Key::WinW.spec_name()) ==> filled.win_w == default.win_w
                &&& !fields.contains_key(Key::WinH.spec_name()) ==> filled.win_h == default.win_h
                &&& !fields.contains_key(Key::WinX.spec_name()) ==> filled.win_x == default.win_x
                &&& !fields.contains_key(Key::WinY.spec_name()) ==> filled.win_y == default.win_y
            }),
    {
    }
}

} // verus!
