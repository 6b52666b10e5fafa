//! How the path of the shown file is shortened for the window title.

use crate::paths::{
    component_kinds, file_name, parent, path_component_kinds, path_file_name, path_parent,
    path_strip_prefix, strip_prefix, ComponentKind,
};
use crate::text::{lemma_without_leading, trim_start_matches, without_leading};
use vstd::pervasive::unreached;
use vstd::prelude::*;

verus! {

/// The marker that some platforms put in front of a long path.
pub const LONG_PATH_PREFIX: &'static str = "\\\\?\\";

/// The suffix that names the program in the window title.
pub const PROGRAM_NAME_SUFFIX: &'static str = " : E M U L S I O N";

/// Which part of a path the title shows.
#[derive(Debug, Clone, Copy, PartialEq, Eq, Structural)]
pub enum TitlePlan {
    /// Only the final component.
    FileName,
    /// The path as it was given, without the long-path marker.
    WholePath,
    /// What is left of the path below the ancestor that is `levels` parents
    /// above it.
    Tail { levels: u64 },
}

/// The position of the last root directory marker among `kinds`, or zero
/// where there is none.
pub open spec fn root_index(kinds: Seq<ComponentKind>) -> nat
    decreases kinds.len(),
{
    if kinds.len() == 0 {
        0
    } else if kinds.last() == ComponentKind::RootDir {
        (kinds.len() - 1) as nat
    } else {
        root_index(kinds.drop_last())
    }
}

/// The number of components from the root marker on; all of them where the
/// path has no root.
pub open spec fn depth_from_root(kinds: Seq<ComponentKind>) -> nat {
    (kinds.len() - root_index(kinds)) as nat
}

/// The part of a path with components `kinds` that is shown when
/// `displayed_folders` ancestor folders are asked for.
pub open spec fn title_plan(displayed_folders: Option<u32>, kinds: Seq<ComponentKind>) -> TitlePlan {
    match displayed_folders {
        None => TitlePlan::FileName,
        Some(folders) => if folders == 0 {
            TitlePlan::FileName
        } else if depth_from_root(kinds) <= folders + 1 {
            TitlePlan::WholePath
        } else {
            TitlePlan::Tail { levels: (folders + 1) as u64 }
        },
    }
}

/// The ancestor that is reached from `path` by going to the parent `levels`
/// times, or the last one that has no parent where the chain is shorter.
pub open spec fn nth_ancestor(path: Seq<char>, levels: nat) -> Seq<char>
    decreases levels,
{
    if levels == 0 {
        path
    } else {
        match path_parent(path) {
            Some(up) => nth_ancestor(up, (levels - 1) as nat),
            None => path,
        }
    }
}

/// The root index never lies past the last component.
pub proof fn lemma_root_index_bound(kinds: Seq<ComponentKind>)
    ensures
        root_index(kinds) <= kinds.len(),
        kinds.len() > 0 ==> root_index(kinds) < kinds.len(),
        root_index(kinds) > 0 ==> kinds[root_index(kinds) as int] == ComponentKind::RootDir,
    decreases kinds.len(),
{
    if kinds.len() > 0 && kinds.last() != ComponentKind::RootDir {
        lemma_root_index_bound(kinds.drop_last());
    }
}

/// A path that has no root marker counts all its components as depth.
pub proof fn lemma_rootless_depth(kinds: Seq<ComponentKind>)
    requires
        forall|i: int| 0 <= i < kinds.len() ==> kinds[i] != ComponentKind::RootDir,
    ensures
        root_index(kinds) == 0,
        depth_from_root(kinds) == kinds.len(),
    decreases kinds.len(),
{
    if kinds.len() > 0 {
        lemma_rootless_depth(kinds.drop_last());
    }
}

/// A path whose only root marker is `at` has that position as root index.
pub proof fn lemma_single_root(kinds: Seq<ComponentKind>, at: int)
    requires
        0 <= at < kinds.len(),
        kinds[at] == ComponentKind::RootDir,
        forall|i: int| at < i < kinds.len() ==> kinds[i] != ComponentKind::RootDir,
    ensures
        root_index(kinds) == at,
        depth_from_root(kinds) == kinds.len() - at,
    decreases kinds.len(),
{
    if kinds.last() != ComponentKind::RootDir {
        lemma_single_root(kinds.drop_last(), at);
    }
}

/// Decides which part of a path with components `kinds` the title shows.
pub fn plan_title(displayed_folders: Option<u32>, kinds: &Vec<ComponentKind>) -> (plan: TitlePlan)
    ensures
        plan == title_plan(displayed_folders, kinds@),
{
    let folders: u32 = match displayed_folders {
        None => 0,
        Some(folders) => folders,
    };
    if folders == 0 {
        return TitlePlan::FileName;
    }
    let mut root: usize = 0;
    let mut index: usize = 0;
    while index < kinds.len()
        invariant
            index <= kinds.len(),
            root <= index,
            root == root_index(kinds@.take(index as int)),
        decreases kinds.len() - index,
    {
        proof {
            let seen = kinds@.take(index as int + 1);
            assert(seen.drop_last() =~= kinds@.take(index as int));
        }
        if kinds[index] == ComponentKind::RootDir {
            root = index;
        }
        index += 1;
    }
    proof {
        assert(kinds@.take(kinds@.len() as int) =~= kinds@);
    }
    let depth: u64 = (kinds.len() - root) as u64;
    let shown: u64 = folders as u64 + 1;
    if depth <= shown {
        TitlePlan::WholePath
    } else {
        TitlePlan::Tail { levels: shown }
    }
}

/// Walks from `path` towards the root, `levels` parents at most.
fn ancestor_at(path: &str, levels: u64) -> (found: String)
    ensures
        found@ == nth_ancestor(path@, levels as nat),
{
    let mut current: String = path.to_owned();
    let mut walked: u64 = 0;
    while walked < levels
        invariant
            walked <= levels,
            nth_ancestor(path@, levels as nat) == nth_ancestor(
                current@,
                (levels - walked) as nat,
            ),
        decreases levels - walked,
    {
        match parent(current.as_str()) {
            Some(up) => {
                current = up;
                walked += 1;
            },
            None => {
                return current;
            },
        }
    }
    current
}

/// What the `[title]` section of the config holds.
#[derive(Debug, Clone, PartialEq, Eq, Structural)]
pub struct TitleSection {
    /// How many ancestor folders the title shows in front of the file name.
    pub displayed_folders: Option<u32>,
    /// Whether the title ends in the program's name.
    pub show_program_name: Option<bool>,
}

impl Default for TitleSection {
    fn default() -> (section: TitleSection)
        ensures
            section == (TitleSection { displayed_folders: None, show_program_name: None }),
    {
        TitleSection { displayed_folders: None, show_program_name: None }
    }
}

impl TitleSection {
    /// The part of the path written as `path` that this section shows.
    pub open spec fn plan_for(&self, path: Seq<char>) -> TitlePlan {
        title_plan(self.displayed_folders, path_component_kinds(path))
    }

    /// Whether the path written as `path` has the part that this section
    /// shows: a file name where only that is shown, and a remainder below the
    /// chosen ancestor where the path is cut.
    pub open spec fn title_defined(&self, path: Seq<char>) -> bool {
        match self.plan_for(path) {
            TitlePlan::FileName => path_file_name(path) is Some,
            TitlePlan::WholePath => true,
            TitlePlan::Tail { levels } => path_strip_prefix(
                path,
                nth_ancestor(path, levels as nat),
            ) is Some,
        }
    }

    /// The text that the title shows for the path written as `path`.
    pub open spec fn spec_format_file_path(&self, path: Seq<char>) -> Seq<char> {
        match self.plan_for(path) {
            TitlePlan::FileName => path_file_name(path)->0,
            TitlePlan::WholePath => without_leading(path, LONG_PATH_PREFIX@),
            TitlePlan::Tail { levels } => path_strip_prefix(
                path,
                nth_ancestor(path, levels as nat),
            )->0,
        }
    }

    /// The suffix that this section puts behind the path.
    pub open spec fn spec_format_program_name(&self) -> Seq<char> {
        if self.show_program_name == Some(false) {
            Seq::empty()
        } else {
            PROGRAM_NAME_SUFFIX@
        }
    }

    /// With no folders asked for, the title is the file name.
    pub proof fn lemma_no_folders_shows_file_name(self, path: Seq<char>)
        requires
            self.displayed_folders is None || self.displayed_folders == Some(0u32),
        ensures
            self.plan_for(path) == TitlePlan::FileName,
            self.title_defined(path) == (path_file_name(path) is Some),
            self.spec_format_file_path(path) == path_file_name(path)->0,
    {
    }

    /// A path that has, from its root on, no more components than the
    /// folders asked for and the file name is shown whole: without the
    /// long-path marker, and unchanged where it has none.
    pub proof fn lemma_shallow_path_shown_whole(self, path: Seq<char>)
        requires
            self.displayed_folders matches Some(folders) && folders >= 1 && depth_from_root(
                path_component_kinds(path),
            ) <= folders + 1,
        ensures
            self.title_defined(path),
            self.spec_format_file_path(path) == without_leading(path, LONG_PATH_PREFIX@),
            self.spec_format_file_path(path).is_suffix_of(path),
            !LONG_PATH_PREFIX@.is_prefix_of(path) ==> self.spec_format_file_path(path) == path,
    {
        reveal_strlit("\\\\?\\");
        lemma_without_leading(path, LONG_PATH_PREFIX@);
    }

    /// A deeper path is cut below the ancestor that lies one level further
    /// up than the folders asked for.
    pub proof fn lemma_deep_path_is_cut(self, path: Seq<char>)
        requires
            self.displayed_folders matches Some(folders) && folders >= 1 && depth_from_root(
                path_component_kinds(path),
            ) > folders + 1,
        ensures
            self.plan_for(path) == (TitlePlan::Tail {
                levels: (self.displayed_folders->0 + 1) as u64,
            }),
            self.spec_format_file_path(path) == path_strip_prefix(
                path,
                nth_ancestor(path, (self.displayed_folders->0 + 1) as nat),
            )->0,
    {
    }

    /// Shortens `file_path` for the title.
    ///
    /// With no folders to show, the result is the file name. Otherwise a path
    /// that is shallow enough is returned whole, without the long-path
    /// marker, and a deeper one is cut so that the file name and the asked
    /// number of folders above it are left.
    pub fn format_file_path(&self, file_path: &str) -> (title: String)
        requires
            self.title_defined(file_path@),
        ensures
            title@ == self.spec_format_file_path(file_path@),
    {
        let kinds = component_kinds(file_path);
        match plan_title(self.displayed_folders, &kinds) {
            TitlePlan::FileName => {
                match file_name(file_path) {
                    Some(name) => name,
                    None => unreached(),
                }
            },
            TitlePlan::WholePath => {
                proof {
                    reveal_strlit("\\\\?\\");
                }
                trim_start_matches(file_path, LONG_PATH_PREFIX)
            },
            TitlePlan::Tail { levels } => {
                let anchor = ancestor_at(file_path, levels);
                match strip_prefix(file_path, anchor.as_str()) {
                    Some(rest) => rest,
                    None => unreached(),
                }
            },
        }
    }

    /// Finds out whether `file_path` has the part that this section shows.
    pub fn has_title(&self, file_path: &str) -> (defined: bool)
        ensures
            defined == self.title_defined(file_path@),
    {
        let kinds = component_kinds(file_path);
        match plan_title(self.displayed_folders, &kinds) {
            TitlePlan::FileName => file_name(file_path).is_some(),
            TitlePlan::WholePath => true,
            TitlePlan::Tail { levels } => {
                let anchor = ancestor_at(file_path, levels);
                strip_prefix(file_path, anchor.as_str()).is_some()
            },
        }
    }

    /// Shortens `file_path` for the title where it has the part to show, and
    /// returns `None` where it has not.
    pub fn try_format_file_path(&self, file_path: &str) -> (title: Option<String>)
        ensures
            title is Some <==> self.title_defined(file_path@),
            title is Some ==> title->0@ == self.spec_format_file_path(file_path@),
    {
        if self.has_title(file_path) {
            Some(self.format_file_path(file_path))
        } else {
            None
        }
    }

    /// The suffix that names the program, or the empty string where the
    /// config switches it off.
    pub fn format_program_name(&self) -> (suffix: &'static str)
        ensures
            suffix@ == self.spec_format_program_name(),
    {
        match self.show_program_name {
            Some(false) => {
                proof {
                    reveal_strlit("");
                }
                ""
            },
            _ => PROGRAM_NAME_SUFFIX,
        }
    }
}

} // verus!
