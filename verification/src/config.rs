//! The config: what the user asks for. The program reads it and never
//! writes it.
//!
//! Nothing here is filled in from defaults. A field that the user left out
//! stays `None`, and whoever uses the field decides what that means.

use crate::fields::text_views;
use crate::text::same_text;
use crate::theme::Theme;
use crate::title::TitleSection;
use vstd::prelude::*;

verus! {

/// One environment variable that a command is started with.
#[derive(Debug, Clone, PartialEq, Eq)]
pub struct EnvVar {
    pub name: String,
    pub value: String,
}

/// What an [`EnvVar`] holds.
pub struct EnvVarView {
    pub name: Seq<char>,
    pub value: Seq<char>,
}

impl View for EnvVar {
    type V = EnvVarView;

    open spec fn view(&self) -> EnvVarView {
        EnvVarView { name: self.name@, value: self.value@ }
    }
}

impl Default for EnvVar {
    fn default() -> (variable: EnvVar)
        ensures
            variable@ == (EnvVarView { name: Seq::empty(), value: Seq::empty() }),
    {
        EnvVar { name: String::new(), value: String::new() }
    }
}

/// What each of `variables` holds, in order.
pub open spec fn env_views(variables: Seq<EnvVar>) -> Seq<EnvVarView> {
    Seq::new(variables.len(), |i: int| variables[i]@)
}

/// An external program that the user has bound to some kinds of input.
#[derive(Debug, Clone, PartialEq, Eq)]
pub struct Command {
    /// What triggers the command.
    pub input: Vec<String>,
    pub program: String,
    pub args: Option<Vec<String>>,
    pub envs: Option<Vec<EnvVar>>,
}

/// What a [`Command`] holds.
pub struct CommandView {
    pub input: Seq<Seq<char>>,
    pub program: Seq<char>,
    pub args: Option<Seq<Seq<char>>>,
    pub envs: Option<Seq<EnvVarView>>,
}

impl View for Command {
    type V = CommandView;

    open spec fn view(&self) -> CommandView {
        CommandView {
            input: text_views(self.input@),
            program: self.program@,
            args: match self.args {
                Some(args) => Some(text_views(args@)),
                None => None,
            },
            envs: match self.envs {
                Some(envs) => Some(env_views(envs@)),
                None => None,
            },
        }
    }
}

impl Default for Command {
    fn default() -> (command: Command)
        ensures
            command@ == (CommandView {
                input: Seq::empty(),
                program: Seq::empty(),
                args: None,
                envs: None,
            }),
    {
        let command = Command {
            input: Vec::new(),
            program: String::new(),
            args: None,
            envs: None,
        };
        assert(text_views(command.input@) =~= Seq::empty());
        command
    }
}

/// What each of `commands` holds, in order.
pub open spec fn command_views(commands: Seq<Command>) -> Seq<CommandView> {
    Seq::new(commands.len(), |i: int| commands[i]@)
}

/// What the `[image]` section of the config holds.
#[derive(Debug, Clone, PartialEq, Eq)]
pub struct ConfigImageSection {
    pub antialiasing: Option<String>,
}

/// What a [`ConfigImageSection`] holds.
pub struct ConfigImageSectionView {
    pub antialiasing: Option<Seq<char>>,
}

impl View for ConfigImageSection {
    type V = ConfigImageSectionView;

    open spec fn view(&self) -> ConfigImageSectionView {
        ConfigImageSectionView {
            antialiasing: match self.antialiasing {
                Some(name) => Some(name@),
                None => None,
            },
        }
    }
}

impl Default for ConfigImageSection {
    fn default() -> (section: ConfigImageSection)
        ensures
            section@ == (ConfigImageSectionView { antialiasing: None }),
    {
        ConfigImageSection { antialiasing: None }
    }
}

/// What the `[window]` section of the config holds.
#[derive(Debug, Clone, PartialEq, Eq, Structural)]
pub struct ConfigWindowSection {
    pub start_fullscreen: Option<bool>,
    pub start_maximized: Option<bool>,
    pub show_bottom_bar: Option<bool>,
    pub theme: Option<Theme>,
    pub use_last_window_area: Option<bool>,
    pub win_w: Option<u32>,
    pub win_h: Option<u32>,
    pub win_x: Option<i32>,
    pub win_y: Option<i32>,
}

/// What the `[updates]` section of the config holds.
#[derive(Debug, Clone, PartialEq, Eq, Structural)]
pub struct ConfigUpdateSection {
    pub check_updates: bool,
}

impl ConfigUpdateSection {
    /// The section of a user who said nothing: updates are looked for.
    pub open spec fn spec_default() -> ConfigUpdateSection {
        ConfigUpdateSection { check_updates: true }
    }
}

impl Default for ConfigUpdateSection {
    fn default() -> (section: ConfigUpdateSection)
        ensures
            section == ConfigUpdateSection::spec_default(),
    {
        ConfigUpdateSection { check_updates: true }
    }
}

/// The key combinations that trigger one action.
#[derive(Debug, Clone, PartialEq, Eq)]
pub struct Binding {
    pub action: String,
    pub keys: Vec<String>,
}

/// What [`Bindings`] hold: the key combinations of each action that has
/// any.
pub type BindingMap = Map<Seq<char>, Seq<Seq<char>>>;

/// The key bindings: for each action that has any, its key combinations.
///
/// No action occurs twice. The order of the actions means nothing; a
/// binding is found by the name of its action.
#[derive(Debug)]
pub struct Bindings {
    entries: Vec<Binding>,
}

impl Bindings {
    /// No action occurs twice.
    #[verifier::type_invariant]
    spec fn no_action_twice(self) -> bool {
        forall|i: int, j: int|
            0 <= i < j < self.entries.len() ==> (#[trigger] self.entries[i]).action@
                != (#[trigger] self.entries[j]).action@
    }

    /// Whether some entry binds `action`.
    pub closed spec fn binds(self, action: Seq<char>) -> bool {
        exists|i: int| 0 <= i < self.entries.len() && (#[trigger] self.entries[i]).action@ == action
    }

    /// The place of the entry that binds `action`.
    spec fn place_of(self, action: Seq<char>) -> int {
        choose|i: int| 0 <= i < self.entries.len() && (#[trigger] self.entries[i]).action@ == action
    }

    /// The actions that the first `count` entries bind.
    spec fn bound_before(self, count: int) -> Set<Seq<char>> {
        Set::new(
            |action: Seq<char>|
                exists|i: int| 0 <= i < count && (#[trigger] self.entries[i]).action@ == action,
        )
    }

    /// The first `count` entries bind `count` actions.
    proof fn lemma_bound_before(self, count: int)
        requires
            self.no_action_twice(),
            0 <= count <= self.entries.len(),
        ensures
            self.bound_before(count).finite(),
            self.bound_before(count).len() == count,
        decreases count,
    {
        if count == 0 {
            assert(self.bound_before(0) =~= Set::<Seq<char>>::empty());
        } else {
            self.lemma_bound_before(count - 1);
            let action = self.entries[count - 1].action@;
            assert(self.bound_before(count) =~= self.bound_before(count - 1).insert(action));
        }
    }

    /// The entries bind as many actions as there are entries.
    proof fn lemma_len(self)
        requires
            self.no_action_twice(),
        ensures
            self@.dom().finite(),
            self@.len() == self.entries.len(),
    {
        self.lemma_bound_before(self.entries.len() as int);
        assert(self@.dom() =~= self.bound_before(self.entries.len() as int));
    }

    /// An empty set of bindings.
    pub fn new() -> (bindings: Bindings)
        ensures
            bindings@ == BindingMap::empty(),
    {
        let bindings = Bindings { entries: Vec::new() };
        bindings
    }

    /// The number of actions that are bound.
    pub fn len(&self) -> (count: usize)
        ensures
            self@.dom().finite(),
            count == self@.len(),
    {
        proof {
            use_type_invariant(self);
            self.lemma_len();
        }
        self.entries.len()
    }

    /// The bindings one by one, each action once, in no order that means
    /// anything.
    pub fn entries(&self) -> (entries: &Vec<Binding>)
        ensures
            entries.len() == self@.len(),
            forall|i: int, j: int|
                0 <= i < j < entries.len() ==> (#[trigger] entries[i]).action@
                    != (#[trigger] entries[j]).action@,
            forall|i: int|
                0 <= i < entries.len() ==> self@.contains_key((#[trigger] entries[i]).action@)
                    && self@[entries[i].action@] == text_views(entries[i].keys@),
            forall|action: Seq<char>|
                self@.contains_key(action) ==> exists|i: int|
                    0 <= i < entries.len() && (#[trigger] entries[i]).action@ == action,
    {
        proof {
            use_type_invariant(self);
            self.lemma_len();
        }
        &self.entries
    }

    /// Where `action` is bound among the entries, if it is.
    fn find(&self, action: &str) -> (place: Option<usize>)
        ensures
            match place {
                Some(place) => place < self.entries.len() && self.entries[place as int].action@
                    == action@ && self.binds(action@) && self.place_of(action@) == place,
                None => !self.binds(action@),
            },
    {
        proof {
            use_type_invariant(self);
        }
        let mut index: usize = 0;
        while index < self.entries.len()
            invariant
                self.no_action_twice(),
                index <= self.entries.len(),
                forall|i: int| 0 <= i < index ==> (#[trigger] self.entries[i]).action@ != action@,
            decreases self.entries.len() - index,
        {
            if same_text(self.entries[index].action.as_str(), action) {
                return Some(index);
            }
            index += 1;
        }
        None
    }

    /// The key combinations of `action`, or `None` where it has none.
    pub fn get(&self, action: &str) -> (keys: Option<&Vec<String>>)
        ensures
            keys is Some <==> self@.contains_key(action@),
            keys is Some ==> text_views(keys->0@) == self@[action@],
    {
        match self.find(action) {
            Some(place) => Some(&self.entries[place].keys),
            None => None,
        }
    }

    /// Binds `action` to `keys`. What the action was bound to before is
    /// forgotten; every other action keeps its keys.
    pub fn insert(&mut self, action: String, keys: Vec<String>)
        ensures
            final(self)@ == old(self)@.insert(action@, text_views(keys@)),
    {
        proof {
            use_type_invariant(&*self);
        }
        let ghost before = *self;
        let place = self.find(action.as_str());
        let mut entries: Vec<Binding> = Vec::new();
        core::mem::swap(&mut entries, &mut self.entries);
        match place {
            Some(place) => {
                let entry = Binding { action, keys };
                entries.set(place, entry);
                core::mem::swap(&mut entries, &mut self.entries);
                proof {
                    assert forall|name: Seq<char>| self.binds(name) == before.binds(name) by {
                        if before.binds(name) {
                            assert(self.entries[before.place_of(name)].action@ == name);
                        }
                    }
                    assert forall|name: Seq<char>| self.binds(name) implies self.place_of(name)
                        == before.place_of(name) by {}
                }
            },
            None => {
                let entry = Binding { action, keys };
                entries.push(entry);
                core::mem::swap(&mut entries, &mut self.entries);
                proof {
                    let last = self.entries.len() - 1;
                    assert forall|name: Seq<char>| self.binds(name) == (before.binds(name) || name
                        == action@) by {
                        if before.binds(name) {
                            assert(self.entries[before.place_of(name)].action@ == name);
                        }
                        if name == action@ {
                            assert(self.entries[last].action@ == name);
                        }
                    }
                    assert forall|name: Seq<char>| before.binds(name) implies self.place_of(name)
                        == before.place_of(name) by {}
                }
            },
        }
    }
}

impl View for Bindings {
    type V = BindingMap;

    closed spec fn view(&self) -> BindingMap {
        Map::new(
            |action: Seq<char>| self.binds(action),
            |action: Seq<char>| text_views(self.entries[self.place_of(action)].keys@),
        )
    }
}

/// Copies `texts`, string by string.
fn copy_of(texts: &Vec<String>) -> (copy: Vec<String>)
    ensures
        copy@ == texts@,
{
    let mut copy: Vec<String> = Vec::new();
    let mut index: usize = 0;
    while index < texts.len()
        invariant
            index <= texts.len(),
            copy@ == texts@.take(index as int),
        decreases texts.len() - index,
    {
        copy.push(texts[index].clone());
        index += 1;
    }
    copy
}

impl Clone for Bindings {
    fn clone(&self) -> (copy: Bindings)
        ensures
            copy@ == self@,
    {
        proof {
            use_type_invariant(self);
        }
        let mut entries: Vec<Binding> = Vec::new();
        let mut index: usize = 0;
        while index < self.entries.len()
            invariant
                index <= self.entries.len(),
                entries.len() == index,
                forall|i: int|
                    0 <= i < index ==> (#[trigger] entries[i]).action@ == self.entries[i].action@
                        && entries[i].keys@ == self.entries[i].keys@,
            decreases self.entries.len() - index,
        {
            let entry = &self.entries[index];
            entries.push(Binding { action: entry.action.clone(), keys: copy_of(&entry.keys) });
            index += 1;
        }
        let copy = Bindings { entries };
        proof {
            assert forall|name: Seq<char>| copy.binds(name) == self.binds(name) by {
                if self.binds(name) {
                    assert(copy.entries[self.place_of(name)].action@ == name);
                }
            }
            assert forall|name: Seq<char>| self.binds(name) implies copy.place_of(name)
                == self.place_of(name) by {}
        }
        copy
    }
}

/// Everything the user can ask for.
#[derive(Debug, Clone)]
pub struct Configuration {
    pub bindings: Option<Bindings>,
    pub commands: Option<Vec<Command>>,
    pub updates: Option<ConfigUpdateSection>,
    pub title: Option<TitleSection>,
    pub image: Option<ConfigImageSection>,
    pub window: Option<ConfigWindowSection>,
}

/// What a [`Configuration`] holds.
pub struct ConfigurationView {
    pub bindings: Option<BindingMap>,
    pub commands: Option<Seq<CommandView>>,
    pub updates: Option<ConfigUpdateSection>,
    pub title: Option<TitleSection>,
    pub image: Option<ConfigImageSectionView>,
    pub window: Option<ConfigWindowSection>,
}

impl ConfigurationView {
    /// The config of a user who wrote nothing.
    pub open spec fn empty() -> ConfigurationView {
        ConfigurationView {
            bindings: None,
            commands: None,
            updates: None,
            title: None,
            image: None,
            window: None,
        }
    }
}

impl View for Configuration {
    type V = ConfigurationView;

    open spec fn view(&self) -> ConfigurationView {
        ConfigurationView {
            bindings: match self.bindings {
                Some(bindings) => Some(bindings@),
                None => None,
            },
            commands: match self.commands {
                Some(commands) => Some(command_views(commands@)),
                None => None,
            },
            updates: self.updates,
            title: self.title,
            image: match self.image {
                Some(image) => Some(image@),
                None => None,
            },
            window: self.window,
        }
    }
}

impl Default for Configuration {
    fn default() -> (config: Configuration)
        ensures
            config@ == ConfigurationView::empty(),
    {
        Configuration {
            bindings: None,
            commands: None,
            updates: None,
            title: None,
            image: None,
            window: None,
        }
    }
}

} // verus!
