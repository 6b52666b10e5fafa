//! The config as a document: the sections `bindings`, `commands`,
//! `updates`, `title`, `image` and `window`, every one of them optional.
//!
//! There is only a way in. Nothing in this crate turns a configuration back
//! into a document.

use crate::cache::stored_or;
use crate::config::{
    command_views, env_views, BindingMap, Bindings, Command, CommandView, ConfigImageSection,
    ConfigImageSectionView, ConfigUpdateSection, ConfigWindowSection, Configuration,
    ConfigurationView, EnvVar, EnvVarView,
};
use crate::document::{
    items_of, parse_document, parse_error_message, parsed_document, table_entries, table_get,
    table_keys, value_as_array, value_as_table, Entries, Item,
};
use crate::error::LoadError;
use crate::fields::{
    all_text, copy_texts, flag_at, i32_at, list_at, read_flag, read_i32, read_list, read_section,
    read_text, read_texts, read_u32, required, section_at, text_at, texts_at, texts_of, u32_at,
    Invalid, Key, Problem,
};
use crate::theme::Theme;
use crate::title::TitleSection;
use vstd::pervasive::unreached;
use vstd::prelude::*;

verus! {

/// What `items` hold when each is read by `decode`, in order; the error of
/// the first item that cannot be read where there is one.
pub open spec fn decode_each<T>(
    items: Seq<Item>,
    decode: spec_fn(Item) -> Result<T, Invalid>,
) -> Result<Seq<T>, Invalid>
    decreases items.len(),
{
    if items.len() == 0 {
        Ok(Seq::empty())
    } else {
        match decode_each(items.drop_last(), decode) {
            Err(invalid) => Err(invalid),
            Ok(front) => match decode(items.last()) {
                Err(invalid) => Err(invalid),
                Ok(read) => Ok(front.push(read)),
            },
        }
    }
}

/// Reading one item more adds its result to that of the items before it.
pub proof fn lemma_decode_each_next<T>(
    items: Seq<Item>,
    decode: spec_fn(Item) -> Result<T, Invalid>,
    count: int,
)
    requires
        0 <= count < items.len(),
    ensures
        decode_each(items.take(count + 1), decode) == (match decode_each(
            items.take(count),
            decode,
        ) {
            Err(invalid) => Err::<Seq<T>, Invalid>(invalid),
            Ok(front) => match decode(items[count]) {
                Err(invalid) => Err(invalid),
                Ok(read) => Ok(front.push(read)),
            },
        }),
{
    let longer = items.take(count + 1);
    assert(longer.drop_last() =~= items.take(count));
}

/// An error among the first `count` items is the error of the whole.
pub proof fn lemma_decode_each_error<T>(
    items: Seq<Item>,
    decode: spec_fn(Item) -> Result<T, Invalid>,
    count: int,
)
    requires
        0 <= count <= items.len(),
        decode_each(items.take(count), decode) is Err,
    ensures
        decode_each(items, decode) == decode_each(items.take(count), decode),
    decreases items.len() - count,
{
    if count == items.len() {
        assert(items.take(count) =~= items);
    } else {
        lemma_decode_each_next(items, decode, count);
        lemma_decode_each_error(items, decode, count + 1);
    }
}

/// The variable that the entries of one table of `envs` describe. Both the
/// name and the value must be there.
pub open spec fn decode_env(fields: Entries) -> Result<EnvVarView, Invalid> {
    match required(text_at(fields, Key::Name), Key::Name) {
        Err(invalid) => Err(invalid),
        Ok(name) => match required(text_at(fields, Key::Value), Key::Value) {
            Err(invalid) => Err(invalid),
            Ok(value) => Ok(EnvVarView { name, value }),
        },
    }
}

/// The variable that one item of `envs` describes.
pub open spec fn decode_env_item(item: Item) -> Result<EnvVarView, Invalid> {
    match item {
        Item::Table(fields) => decode_env(fields),
        _ => Err(Invalid { key: Key::Envs, problem: Problem::ExpectedTable }),
    }
}

/// How each item of `envs` is read.
pub open spec fn env_decoder() -> spec_fn(Item) -> Result<EnvVarView, Invalid> {
    |item: Item| decode_env_item(item)
}

/// The variables under `envs`, if the key is there.
pub open spec fn envs_at(fields: Entries) -> Result<Option<Seq<EnvVarView>>, Invalid> {
    match list_at(fields, Key::Envs) {
        Err(invalid) => Err(invalid),
        Ok(None) => Ok(None),
        Ok(Some(items)) => match decode_each(items, env_decoder()) {
            Err(invalid) => Err(invalid),
            Ok(envs) => Ok(Some(envs)),
        },
    }
}

/// The command that the entries of one table of `commands` describe. The
/// input and the program must be there.
pub open spec fn decode_command(fields: Entries) -> Result<CommandView, Invalid> {
    match required(texts_at(fields, Key::Input), Key::Input) {
        Err(invalid) => Err(invalid),
        Ok(input) => match required(text_at(fields, Key::Program), Key::Program) {
            Err(invalid) => Err(invalid),
            Ok(program) => match texts_at(fields, Key::Args) {
                Err(invalid) => Err(invalid),
                Ok(args) => match envs_at(fields) {
                    Err(invalid) => Err(invalid),
                    Ok(envs) => Ok(CommandView { input, program, args, envs }),
                },
            },
        },
    }
}

/// The command that one item of `commands` describes.
pub open spec fn decode_command_item(item: Item) -> Result<CommandView, Invalid> {
    match item {
        Item::Table(fields) => decode_command(fields),
        _ => Err(Invalid { key: Key::Commands, problem: Problem::ExpectedTable }),
    }
}

/// How each item of `commands` is read.
pub open spec fn command_decoder() -> spec_fn(Item) -> Result<CommandView, Invalid> {
    |item: Item| decode_command_item(item)
}

/// The commands of a document, if it has any.
pub open spec fn commands_at(document: Entries) -> Result<Option<Seq<CommandView>>, Invalid> {
    match list_at(document, Key::Commands) {
        Err(invalid) => Err(invalid),
        Ok(None) => Ok(None),
        Ok(Some(items)) => match decode_each(items, command_decoder()) {
            Err(invalid) => Err(invalid),
            Ok(commands) => Ok(Some(commands)),
        },
    }
}

/// Whether every entry is an array.
pub open spec fn all_lists(fields: Entries) -> bool {
    forall|action: Seq<char>| #[trigger] fields.contains_key(action) ==> fields[action] is Array
}

/// Whether every entry that is an array holds strings only.
pub open spec fn all_text_lists(fields: Entries) -> bool {
    forall|action: Seq<char>| #[trigger]
        fields.contains_key(action) ==> all_text(fields[action]->Array_0)
}

/// The bindings that the entries of the `bindings` section describe: each
/// key is an action, and its value the array of the action's key
/// combinations.
pub open spec fn decode_bindings(fields: Entries) -> Result<BindingMap, Invalid> {
    if !all_lists(fields) {
        Err(Invalid { key: Key::Bindings, problem: Problem::ExpectedArray })
    } else if !all_text_lists(fields) {
        Err(Invalid { key: Key::Bindings, problem: Problem::ExpectedString })
    } else {
        Ok(
            Map::new(
                |action: Seq<char>| fields.contains_key(action),
                |action: Seq<char>| texts_of(fields[action]->Array_0),
            ),
        )
    }
}

/// The bindings of a document, if it has any.
pub open spec fn bindings_at(document: Entries) -> Result<Option<BindingMap>, Invalid> {
    match section_at(document, Key::Bindings) {
        Err(invalid) => Err(invalid),
        Ok(None) => Ok(None),
        Ok(Some(fields)) => match decode_bindings(fields) {
            Err(invalid) => Err(invalid),
            Ok(bindings) => Ok(Some(bindings)),
        },
    }
}

/// What the entries of the config's `updates` section say. Updates are
/// looked for unless the section says otherwise.
pub open spec fn decode_config_updates(fields: Entries) -> Result<ConfigUpdateSection, Invalid> {
    match flag_at(fields, Key::CheckUpdates) {
        Err(invalid) => Err(invalid),
        Ok(check_updates) => Ok(
            ConfigUpdateSection {
                check_updates: stored_or(
                    check_updates,
                    ConfigUpdateSection::spec_default().check_updates,
                ),
            },
        ),
    }
}

/// The `updates` section of a config document, if it has one.
pub open spec fn config_updates_at(document: Entries) -> Result<
    Option<ConfigUpdateSection>,
    Invalid,
> {
    match section_at(document, Key::Updates) {
        Err(invalid) => Err(invalid),
        Ok(None) => Ok(None),
        Ok(Some(fields)) => match decode_config_updates(fields) {
            Err(invalid) => Err(invalid),
            Ok(section) => Ok(Some(section)),
        },
    }
}

/// What the entries of the `title` section say.
pub open spec fn decode_title(fields: Entries) -> Result<TitleSection, Invalid> {
    match u32_at(fields, Key::DisplayedFolders) {
        Err(invalid) => Err(invalid),
        Ok(displayed_folders) => match flag_at(fields, Key::ShowProgramName) {
            Err(invalid) => Err(invalid),
            Ok(show_program_name) => Ok(TitleSection { displayed_folders, show_program_name }),
        },
    }
}

/// The `title` section of a config document, if it has one.
pub open spec fn title_at(document: Entries) -> Result<Option<TitleSection>, Invalid> {
    match section_at(document, Key::Title) {
        Err(invalid) => Err(invalid),
        Ok(None) => Ok(None),
        Ok(Some(fields)) => match decode_title(fields) {
            Err(invalid) => Err(invalid),
            Ok(section) => Ok(Some(section)),
        },
    }
}

/// What the entries of the config's `image` section say.
pub open spec fn decode_config_image(fields: Entries) -> Result<ConfigImageSectionView, Invalid> {
    match text_at(fields, Key::Antialiasing) {
        Err(invalid) => Err(invalid),
        Ok(antialiasing) => Ok(ConfigImageSectionView { antialiasing }),
    }
}

/// The `image` section of a config document, if it has one.
pub open spec fn config_image_at(document: Entries) -> Result<
    Option<ConfigImageSectionView>,
    Invalid,
> {
    match section_at(document, Key::Image) {
        Err(invalid) => Err(invalid),
        Ok(None) => Ok(None),
        Ok(Some(fields)) => match decode_config_image(fields) {
            Err(invalid) => Err(invalid),
            Ok(section) => Ok(Some(section)),
        },
    }
}

/// The theme under its key: one of the two names.
pub open spec fn theme_at(fields: Entries) -> Result<Option<Theme>, Invalid> {
    match text_at(fields, Key::Theme) {
        Err(invalid) => Err(invalid),
        Ok(None) => Ok(None),
        Ok(Some(name)) => match Theme::spec_from_name(name) {
            Some(theme) => Ok(Some(theme)),
            None => Err(Invalid { key: Key::Theme, problem: Problem::UnknownName }),
        },
    }
}

/// The four numbers that place the window.
pub struct WindowArea {
    pub win_w: Option<u32>,
    pub win_h: Option<u32>,
    pub win_x: Option<i32>,
    pub win_y: Option<i32>,
}

/// The place of the window, as far as the entries give it.
pub open spec fn window_area_at(fields: Entries) -> Result<WindowArea, Invalid> {
    match u32_at(fields, Key::WinW) {
        Err(invalid) => Err(invalid),
        Ok(win_w) => match u32_at(fields, Key::WinH) {
            Err(invalid) => Err(invalid),
            Ok(win_h) => match i32_at(fields, Key::WinX) {
                Err(invalid) => Err(invalid),
                Ok(win_x) => match i32_at(fields, Key::WinY) {
                    Err(invalid) => Err(invalid),
                    Ok(win_y) => Ok(WindowArea { win_w, win_h, win_x, win_y }),
                },
            },
        },
    }
}

/// What the entries of the config's `window` section say.
pub open spec fn decode_config_window(fields: Entries) -> Result<ConfigWindowSection, Invalid> {
    match flag_at(fields, Key::StartFullscreen) {
        Err(invalid) => Err(invalid),
        Ok(start_fullscreen) => match flag_at(fields, Key::StartMaximized) {
            Err(invalid) => Err(invalid),
            Ok(start_maximized) => match flag_at(fields, Key::ShowBottomBar) {
                Err(invalid) => Err(invalid),
                Ok(show_bottom_bar) => match theme_at(fields) {
                    Err(invalid) => Err(invalid),
                    Ok(theme) => match flag_at(fields, Key::UseLastWindowArea) {
                        Err(invalid) => Err(invalid),
                        Ok(use_last_window_area) => match window_area_at(fields) {
                            Err(invalid) => Err(invalid),
                            Ok(area) => Ok(
                                ConfigWindowSection {
                                    start_fullscreen,
                                    start_maximized,
                                    show_bottom_bar,
                                    theme,
                                    use_last_window_area,
                                    win_w: area.win_w,
                                    win_h: area.win_h,
                                    win_x: area.win_x,
                                    win_y: area.win_y,
                                },
                            ),
                        },
                    },
                },
            },
        },
    }
}

/// The `window` section of a config document, if it has one.
pub open spec fn config_window_at(document: Entries) -> Result<
    Option<ConfigWindowSection>,
    Invalid,
> {
    match section_at(document, Key::Window) {
        Err(invalid) => Err(invalid),
        Ok(None) => Ok(None),
        Ok(Some(fields)) => match decode_config_window(fields) {
            Err(invalid) => Err(invalid),
            Ok(section) => Ok(Some(section)),
        },
    }
}

/// What a document says as a config. The sections are read in the order
/// `bindings`, `commands`, `updates`, `title`, `image`, `window`, and the
/// first key that cannot be used is the error. A section that is not there
/// stays `None`.
pub open spec fn decode_config(document: Entries) -> Result<ConfigurationView, Invalid> {
    match bindings_at(document) {
        Err(invalid) => Err(invalid),
        Ok(bindings) => match commands_at(document) {
            Err(invalid) => Err(invalid),
            Ok(commands) => match config_updates_at(document) {
                Err(invalid) => Err(invalid),
                Ok(updates) => match title_at(document) {
                    Err(invalid) => Err(invalid),
                    Ok(title) => match config_image_at(document) {
                        Err(invalid) => Err(invalid),
                        Ok(image) => match config_window_at(document) {
                            Err(invalid) => Err(invalid),
                            Ok(window) => Ok(
                                ConfigurationView {
                                    bindings,
                                    commands,
                                    updates,
                                    title,
                                    image,
                                    window,
                                },
                            ),
                        },
                    },
                },
            },
        },
    }
}

/// Reads a string that must be there.
fn read_required_text(table: &toml::Table, key: Key) -> (text: Result<String, Invalid>)
    ensures
        match required(text_at(table_entries(*table), key), key) {
            Err(invalid) => text == Err::<String, Invalid>(invalid),
            Ok(held) => text matches Ok(read) && read@ == held,
        },
{
    match read_text(table, key) {
        Err(invalid) => Err(invalid),
        Ok(None) => Err(Invalid { key, problem: Problem::Missing }),
        Ok(Some(text)) => Ok(text.to_owned()),
    }
}

impl EnvVar {
    /// Reads one variable from its table.
    pub fn from_table(table: &toml::Table) -> (variable: Result<EnvVar, Invalid>)
        ensures
            match decode_env(table_entries(*table)) {
                Err(invalid) => variable == Err::<EnvVar, Invalid>(invalid),
                Ok(held) => variable matches Ok(read) && read@ == held,
            },
    {
        let name = match read_required_text(table, Key::Name) {
            Err(invalid) => { return Err(invalid); },
            Ok(name) => name,
        };
        let value = match read_required_text(table, Key::Value) {
            Err(invalid) => { return Err(invalid); },
            Ok(value) => value,
        };
        Ok(EnvVar { name, value })
    }
}

/// Reads the variables of one command.
fn read_env_list(values: &Vec<toml::Value>) -> (envs: Result<Vec<EnvVar>, Invalid>)
    ensures
        match decode_each(items_of(values@), env_decoder()) {
            Err(invalid) => envs == Err::<Vec<EnvVar>, Invalid>(invalid),
            Ok(held) => envs matches Ok(read) && env_views(read@) == held,
        },
{
    let ghost items = items_of(values@);
    let mut envs: Vec<EnvVar> = Vec::new();
    let mut index: usize = 0;
    proof {
        assert(env_views(envs@) =~= Seq::<EnvVarView>::empty());
    }
    while index < values.len()
        invariant
            index <= values.len(),
            items == items_of(values@),
            decode_each(items.take(index as int), env_decoder()) == Ok::<
                Seq<EnvVarView>,
                Invalid,
            >(env_views(envs@)),
        decreases values.len() - index,
    {
        proof {
            lemma_decode_each_next(items, env_decoder(), index as int);
        }
        let ghost before = env_views(envs@);
        let read = match value_as_table(&values[index]) {
            None => Err(Invalid { key: Key::Envs, problem: Problem::ExpectedTable }),
            Some(table) => EnvVar::from_table(table),
        };
        match read {
            Err(invalid) => {
                proof {
                    lemma_decode_each_error(items, env_decoder(), index as int + 1);
                }
                return Err(invalid);
            },
            Ok(variable) => {
                envs.push(variable);
                proof {
                    assert(env_views(envs@) =~= before.push(variable@));
                }
            },
        }
        index += 1;
    }
    proof {
        assert(items.take(index as int) =~= items);
    }
    Ok(envs)
}

/// Reads the variables under `envs`, if the key is there.
fn read_envs(table: &toml::Table) -> (envs: Result<Option<Vec<EnvVar>>, Invalid>)
    ensures
        match envs_at(table_entries(*table)) {
            Err(invalid) => envs == Err::<Option<Vec<EnvVar>>, Invalid>(invalid),
            Ok(None) => envs == Ok::<Option<Vec<EnvVar>>, Invalid>(None),
            Ok(Some(held)) => envs matches Ok(Some(read)) && env_views(read@) == held,
        },
{
    match read_list(table, Key::Envs) {
        Err(invalid) => Err(invalid),
        Ok(None) => Ok(None),
        Ok(Some(values)) => match read_env_list(values) {
            Err(invalid) => Err(invalid),
            Ok(envs) => Ok(Some(envs)),
        },
    }
}

impl Command {
    /// Reads one command from its table.
    pub fn from_table(table: &toml::Table) -> (command: Result<Command, Invalid>)
        ensures
            match decode_command(table_entries(*table)) {
                Err(invalid) => command == Err::<Command, Invalid>(invalid),
                Ok(held) => command matches Ok(read) && read@ == held,
            },
    {
        let input = match read_texts(table, Key::Input) {
            Err(invalid) => { return Err(invalid); },
            Ok(None) => {
                return Err(Invalid { key: Key::Input, problem: Problem::Missing });
            },
            Ok(Some(input)) => input,
        };
        let program = match read_required_text(table, Key::Program) {
            Err(invalid) => { return Err(invalid); },
            Ok(program) => program,
        };
        let args = match read_texts(table, Key::Args) {
            Err(invalid) => { return Err(invalid); },
            Ok(args) => args,
        };
        let envs = match read_envs(table) {
            Err(invalid) => { return Err(invalid); },
            Ok(envs) => envs,
        };
        Ok(Command { input, program, args, envs })
    }
}

/// Reads the commands of a config.
fn read_command_list(values: &Vec<toml::Value>) -> (commands: Result<Vec<Command>, Invalid>)
    ensures
        match decode_each(items_of(values@), command_decoder()) {
            Err(invalid) => commands == Err::<Vec<Command>, Invalid>(invalid),
            Ok(held) => commands matches Ok(read) && command_views(read@) == held,
        },
{
    let ghost items = items_of(values@);
    let mut commands: Vec<Command> = Vec::new();
    let mut index: usize = 0;
    proof {
        assert(command_views(commands@) =~= Seq::<CommandView>::empty());
    }
    while index < values.len()
        invariant
            index <= values.len(),
            items == items_of(values@),
            decode_each(items.take(index as int), command_decoder()) == Ok::<
                Seq<CommandView>,
                Invalid,
            >(command_views(commands@)),
        decreases values.len() - index,
    {
        proof {
            lemma_decode_each_next(items, command_decoder(), index as int);
        }
        let ghost before = command_views(commands@);
        let read = match value_as_table(&values[index]) {
            None => Err(Invalid { key: Key::Commands, problem: Problem::ExpectedTable }),
            Some(table) => Command::from_table(table),
        };
        match read {
            Err(invalid) => {
                proof {
                    lemma_decode_each_error(items, command_decoder(), index as int + 1);
                }
                return Err(invalid);
            },
            Ok(command) => {
                commands.push(command);
                proof {
                    assert(command_views(commands@) =~= before.push(command@));
                }
            },
        }
        index += 1;
    }
    proof {
        assert(items.take(index as int) =~= items);
    }
    Ok(commands)
}

/// Reads the commands of a document, if it has any.
fn read_commands(table: &toml::Table) -> (commands: Result<Option<Vec<Command>>, Invalid>)
    ensures
        match commands_at(table_entries(*table)) {
            Err(invalid) => commands == Err::<Option<Vec<Command>>, Invalid>(invalid),
            Ok(None) => commands == Ok::<Option<Vec<Command>>, Invalid>(None),
            Ok(Some(held)) => commands matches Ok(Some(read)) && command_views(read@) == held,
        },
{
    match read_list(table, Key::Commands) {
        Err(invalid) => Err(invalid),
        Ok(None) => Ok(None),
        Ok(Some(values)) => match read_command_list(values) {
            Err(invalid) => Err(invalid),
            Ok(commands) => Ok(Some(commands)),
        },
    }
}

impl Bindings {
    /// Reads the bindings from the table of the `bindings` section.
    pub fn from_table(table: &toml::Table) -> (bindings: Result<Bindings, Invalid>)
        ensures
            match decode_bindings(table_entries(*table)) {
                Err(invalid) => bindings == Err::<Bindings, Invalid>(invalid),
                Ok(held) => bindings matches Ok(read) && read@ == held,
            },
    {
        let ghost fields = table_entries(*table);
        let actions = table_keys(table);
        let mut index: usize = 0;
        while index < actions.len()
            invariant
                index <= actions.len(),
                fields == table_entries(*table),
                forall|i: int|
                    0 <= i < actions.len() ==> fields.contains_key((#[trigger] actions[i])@),
                forall|i: int| 0 <= i < index ==> fields[(#[trigger] actions[i])@] is Array,
            decreases actions.len() - index,
        {
            let is_list = match table_get(table, actions[index].as_str()) {
                None => unreached(),
                Some(value) => value_as_array(value).is_some(),
            };
            if !is_list {
                return Err(Invalid { key: Key::Bindings, problem: Problem::ExpectedArray });
            }
            index += 1;
        }
        let mut bindings = Bindings::new();
        let mut index: usize = 0;
        while index < actions.len()
            invariant
                index <= actions.len(),
                fields == table_entries(*table),
                all_lists(fields),
                forall|i: int|
                    0 <= i < actions.len() ==> fields.contains_key((#[trigger] actions[i])@),
                forall|action: Seq<char>|
                    fields.contains_key(action) ==> exists|i: int|
                        0 <= i < actions.len() && #[trigger] actions[i]@ == action,
                forall|i: int|
                    0 <= i < index ==> all_text(fields[(#[trigger] actions[i])@]->Array_0),
                forall|action: Seq<char>|
                    bindings@.contains_key(action) <==> exists|i: int|
                        0 <= i < index && #[trigger] actions[i]@ == action,
                forall|action: Seq<char>| #[trigger]
                    bindings@.contains_key(action) ==> bindings@[action] == texts_of(
                        fields[action]->Array_0,
                    ),
            decreases actions.len() - index,
        {
            let keys = match table_get(table, actions[index].as_str()) {
                None => unreached(),
                Some(value) => match value_as_array(value) {
                    None => unreached(),
                    Some(values) => copy_texts(values),
                },
            };
            match keys {
                None => {
                    return Err(Invalid { key: Key::Bindings, problem: Problem::ExpectedString });
                },
                Some(keys) => {
                    bindings.insert(actions[index].clone(), keys);
                },
            }
            index += 1;
        }
        Ok(bindings)
    }
}

/// Reads the bindings of a document, if it has any.
fn read_bindings(table: &toml::Table) -> (bindings: Result<Option<Bindings>, Invalid>)
    ensures
        match bindings_at(table_entries(*table)) {
            Err(invalid) => bindings == Err::<Option<Bindings>, Invalid>(invalid),
            Ok(None) => bindings == Ok::<Option<Bindings>, Invalid>(None),
            Ok(Some(held)) => bindings matches Ok(Some(read)) && read@ == held,
        },
{
    match read_section(table, Key::Bindings) {
        Err(invalid) => Err(invalid),
        Ok(None) => Ok(None),
        Ok(Some(fields)) => match Bindings::from_table(fields) {
            Err(invalid) => Err(invalid),
            Ok(bindings) => Ok(Some(bindings)),
        },
    }
}

impl ConfigUpdateSection {
    /// Reads the fields of the config's `updates` section.
    pub fn from_table(table: &toml::Table) -> (section: Result<ConfigUpdateSection, Invalid>)
        ensures
            section == decode_config_updates(table_entries(*table)),
    {
        match read_flag(table, Key::CheckUpdates) {
            Err(invalid) => Err(invalid),
            Ok(check_updates) => {
                let default = ConfigUpdateSection::default();
                Ok(
                    ConfigUpdateSection {
                        check_updates: check_updates.unwrap_or(default.check_updates),
                    },
                )
            },
        }
    }
}

impl TitleSection {
    /// Reads the fields of the `title` section.
    pub fn from_table(table: &toml::Table) -> (section: Result<TitleSection, Invalid>)
        ensures
            section == decode_title(table_entries(*table)),
    {
        let displayed_folders = match read_u32(table, Key::DisplayedFolders) {
            Err(invalid) => { return Err(invalid); },
            Ok(displayed_folders) => displayed_folders,
        };
        match read_flag(table, Key::ShowProgramName) {
            Err(invalid) => Err(invalid),
            Ok(show_program_name) => Ok(TitleSection { displayed_folders, show_program_name }),
        }
    }
}

impl ConfigImageSection {
    /// Reads the fields of the config's `image` section.
    pub fn from_table(table: &toml::Table) -> (section: Result<ConfigImageSection, Invalid>)
        ensures
            match decode_config_image(table_entries(*table)) {
                Err(invalid) => section == Err::<ConfigImageSection, Invalid>(invalid),
                Ok(held) => section matches Ok(read) && read@ == held,
            },
    {
        match read_text(table, Key::Antialiasing) {
            Err(invalid) => Err(invalid),
            Ok(None) => Ok(ConfigImageSection { antialiasing: None }),
            Ok(Some(name)) => Ok(ConfigImageSection { antialiasing: Some(name.to_owned()) }),
        }
    }
}

/// Reads the theme of the config's `window` section.
pub fn read_theme(table: &toml::Table) -> (theme: Result<Option<Theme>, Invalid>)
    ensures
        theme == theme_at(table_entries(*table)),
{
    match read_text(table, Key::Theme) {
        Err(invalid) => Err(invalid),
        Ok(None) => Ok(None),
        Ok(Some(name)) => match Theme::from_name(name) {
            Some(theme) => Ok(Some(theme)),
            None => Err(Invalid { key: Key::Theme, problem: Problem::UnknownName }),
        },
    }
}

/// Reads the four numbers that place the window.
fn read_window_area(table: &toml::Table) -> (area: Result<WindowArea, Invalid>)
    ensures
        area == window_area_at(table_entries(*table)),
{
    let win_w = match read_u32(table, Key::WinW) {
        Err(invalid) => { return Err(invalid); },
        Ok(win_w) => win_w,
    };
    let win_h = match read_u32(table, Key::WinH) {
        Err(invalid) => { return Err(invalid); },
        Ok(win_h) => win_h,
    };
    let win_x = match read_i32(table, Key::WinX) {
        Err(invalid) => { return Err(invalid); },
        Ok(win_x) => win_x,
    };
    match read_i32(table, Key::WinY) {
        Err(invalid) => Err(invalid),
        Ok(win_y) => Ok(WindowArea { win_w, win_h, win_x, win_y }),
    }
}

impl ConfigWindowSection {
    /// Reads the fields of the config's `window` section.
    pub fn from_table(table: &toml::Table) -> (section: Result<ConfigWindowSection, Invalid>)
        ensures
            section == decode_config_window(table_entries(*table)),
    {
        let start_fullscreen = match read_flag(table, Key::StartFullscreen) {
            Err(invalid) => { return Err(invalid); },
            Ok(start_fullscreen) => start_fullscreen,
        };
        let start_maximized = match read_flag(table, Key::StartMaximized) {
            Err(invalid) => { return Err(invalid); },
            Ok(start_maximized) => start_maximized,
        };
        let show_bottom_bar = match read_flag(table, Key::ShowBottomBar) {
            Err(invalid) => { return Err(invalid); },
            Ok(show_bottom_bar) => show_bottom_bar,
        };
        let theme = match read_theme(table) {
            Err(invalid) => { return Err(invalid); },
            Ok(theme) => theme,
        };
        let use_last_window_area = match read_flag(table, Key::UseLastWindowArea) {
            Err(invalid) => { return Err(invalid); },
            Ok(use_last_window_area) => use_last_window_area,
        };
        match read_window_area(table) {
            Err(invalid) => Err(invalid),
            Ok(area) => Ok(
                ConfigWindowSection {
                    start_fullscreen,
                    start_maximized,
                    show_bottom_bar,
                    theme,
                    use_last_window_area,
                    win_w: area.win_w,
                    win_h: area.win_h,
                    win_x: area.win_x,
                    win_y: area.win_y,
                },
            ),
        }
    }
}

impl Configuration {
    /// Reads a config from a parsed document. Nothing is filled in: a section
    /// that the document does not have is `None`, and so is a field.
    pub fn from_table(table: &toml::Table) -> (config: Result<Configuration, Invalid>)
        ensures
            match decode_config(table_entries(*table)) {
                Err(invalid) => config == Err::<Configuration, Invalid>(invalid),
                Ok(held) => config matches Ok(read) && read@ == held,
            },
    {
        let bindings = match read_bindings(table) {
            Err(invalid) => { return Err(invalid); },
            Ok(bindings) => bindings,
        };
        let commands = match read_commands(table) {
            Err(invalid) => { return Err(invalid); },
            Ok(commands) => commands,
        };
        let updates = match read_section(table, Key::Updates) {
            Err(invalid) => { return Err(invalid); },
            Ok(None) => None,
            Ok(Some(fields)) => match ConfigUpdateSection::from_table(fields) {
                Err(invalid) => { return Err(invalid); },
                Ok(section) => Some(section),
            },
        };
        let title = match read_section(table, Key::Title) {
            Err(invalid) => { return Err(invalid); },
            Ok(None) => None,
            Ok(Some(fields)) => match TitleSection::from_table(fields) {
                Err(invalid) => { return Err(invalid); },
                Ok(section) => Some(section),
            },
        };
        let image = match read_section(table, Key::Image) {
            Err(invalid) => { return Err(invalid); },
            Ok(None) => None,
            Ok(Some(fields)) => match ConfigImageSection::from_table(fields) {
                Err(invalid) => { return Err(invalid); },
                Ok(section) => Some(section),
            },
        };
        let window = match read_section(table, Key::Window) {
            Err(invalid) => { return Err(invalid); },
            Ok(None) => None,
            Ok(Some(fields)) => match ConfigWindowSection::from_table(fields) {
                Err(invalid) => { return Err(invalid); },
                Ok(section) => Some(section),
            },
        };
        Ok(Configuration { bindings, commands, updates, title, image, window })
    }

    /// Reads a config from the text of a document.
    ///
    /// The result is a syntax error where the text is no document, the first
    /// key that cannot be used where there is one, and otherwise the config
    /// as the document gives it.
    pub fn from_toml(text: &str) -> (config: Result<Configuration, LoadError>)
        ensures
            match parsed_document(text@) {
                None => config matches Err(LoadError::Syntax(_)),
                Some(document) => match decode_config(document) {
                    Err(invalid) => config == Err::<Configuration, LoadError>(
                        LoadError::Invalid(invalid),
                    ),
                    Ok(held) => config matches Ok(read) && read@ == held,
                },
            },
    {
        match parse_document(text) {
            Err(error) => Err(LoadError::Syntax(parse_error_message(&error))),
            Ok(table) => match Configuration::from_table(&table) {
                Err(invalid) => Err(LoadError::Invalid(invalid)),
                Ok(config) => Ok(config),
            },
        }
    }

    /// A section that the document does not have is `None` in the config,
    /// and no error.
    pub proof fn lemma_absent_section_is_none(document: Entries)
        requires
            decode_config(document) is Ok,
        ensures
            ({
                let config = decode_config(document)->Ok_0;
                &&& !document.contains_key(Key::Bindings.spec_name()) ==> config.bindings is None
                &&& !document.contains_key(Key::Commands.spec_name()) ==> config.commands is None
                &&& !document.contains_key(Key::Updates.spec_name()) ==> config.updates is None
                &&& !document.contains_key(Key::Title.spec_name()) ==> config.title is None
                &&& !document.contains_key(Key::Image.spec_name()) ==> config.image is None
                &&& !document.contains_key(Key::Window.spec_name()) ==> config.window is None
            }),
    {
    }

    /// A document without a `window` section reads with no error from that
    /// section: what the rest of the document gives is the result.
    pub proof fn lemma_window_is_optional(document: Entries)
        requires
            !document.contains_key(Key::Window.spec_name()),
        ensures
            config_window_at(document) == Ok::<Option<ConfigWindowSection>, Invalid>(None),
            decode_config(document) is Ok ==> decode_config(document)->Ok_0.window is None,
    {
    }

    /// A document that has none of the six sections reads as the empty
    /// config.
    pub proof fn lemma_no_section_reads_as_empty(document: Entries)
        requires
            !document.contains_key(Key::Bindings.spec_name()),
            !document.contains_key(Key::Commands.spec_name()),
            !document.contains_key(Key::Updates.spec_name()),
            !document.contains_key(Key::Title.spec_name()),
            !document.contains_key(Key::Image.spec_name()),
            !document.contains_key(Key::Window.spec_name()),
        ensures
            decode_config(document) == Ok::<ConfigurationView, Invalid>(ConfigurationView::empty()),
    {
    }
}

} // verus!
