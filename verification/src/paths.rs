//! What the standard library knows about file paths.
//!
//! The rules by which a path falls into components differ between
//! platforms, so this module does not restate them. Each question that the
//! rest of the crate asks about a path is answered by `std::path`, and the
//! answer is known to the proofs only by name.

use std::path::{Component, Path};
use vstd::prelude::*;

verus! {

/// The kind of one component of a path.
#[derive(Debug, Clone, Copy, PartialEq, Eq, Structural)]
pub enum ComponentKind {
    /// A platform prefix such as a drive letter.
    Prefix,
    /// The root directory marker.
    RootDir,
    /// A reference to the current directory.
    CurDir,
    /// A reference to the parent directory.
    ParentDir,
    /// An ordinary directory or file name.
    Normal,
}

/// The kinds of the components that `Path::components` yields for the path
/// written as `path`, in order, under the path rules of the platform the
/// crate is built for.
pub uninterp spec fn path_component_kinds(path: Seq<char>) -> Seq<ComponentKind>;

/// What `Path::file_name` returns for the path written as `path`.
pub uninterp spec fn path_file_name(path: Seq<char>) -> Option<Seq<char>>;

/// What `Path::parent` returns for the path written as `path`.
pub uninterp spec fn path_parent(path: Seq<char>) -> Option<Seq<char>>;

/// What `Path::strip_prefix` leaves of the path written as `path` once
/// `base` is taken from its front, or `None` where it reports that `base` is
/// no prefix.
pub uninterp spec fn path_strip_prefix(path: Seq<char>, base: Seq<char>) -> Option<Seq<char>>;

/// Calls `Path::components` and reports the kind of each component.
///
/// Trusted: the kinds come out in the order in which the iterator yields the
/// components, one for each, and are the sequence that
/// [`path_component_kinds`] names.
#[verifier::external_body]
pub(crate) fn component_kinds(path: &str) -> (kinds: Vec<ComponentKind>)
    ensures
        kinds@ == path_component_kinds(path@),
{
    let mut kinds = Vec::new();
    for component in Path::new(path).components() {
        kinds.push(match component {
            Component::Prefix(_) => ComponentKind::Prefix,
            Component::RootDir => ComponentKind::RootDir,
            Component::CurDir => ComponentKind::CurDir,
            Component::ParentDir => ComponentKind::ParentDir,
            Component::Normal(_) => ComponentKind::Normal,
        });
    }
    kinds
}

/// Calls `Path::file_name`.
///
/// Trusted: the result is the final component as text, which
/// [`path_file_name`] names; it is `None` where the path has no such
/// component.
#[verifier::external_body]
pub(crate) fn file_name(path: &str) -> (name: Option<String>)
    ensures
        name is Some <==> path_file_name(path@) is Some,
        name is Some ==> name->0@ == path_file_name(path@)->0,
{
    match Path::new(path).file_name() {
        Some(name) => Some(name.to_string_lossy().into_owned()),
        None => None,
    }
}

/// Calls `Path::parent`.
///
/// Trusted: the result is the path without its final component, which
/// [`path_parent`] names; it is `None` where the path ends in a root or a
/// prefix, or is empty.
#[verifier::external_body]
pub(crate) fn parent(path: &str) -> (up: Option<String>)
    ensures
        up is Some <==> path_parent(path@) is Some,
        up is Some ==> up->0@ == path_parent(path@)->0,
{
    match Path::new(path).parent() {
        Some(up) => Some(up.to_string_lossy().into_owned()),
        None => None,
    }
}

/// Calls `Path::strip_prefix`.
///
/// Trusted: the result is what [`path_strip_prefix`] names, `None` standing
/// for the error that `base` is not a prefix of `path`.
#[verifier::external_body]
pub(crate) fn strip_prefix(path: &str, base: &str) -> (rest: Option<String>)
    ensures
        rest is Some <==> path_strip_prefix(path@, base@) is Some,
        rest is Some ==> rest->0@ == path_strip_prefix(path@, base@)->0,
{
    match Path::new(path).strip_prefix(Path::new(base)) {
        Ok(rest) => Some(rest.to_string_lossy().into_owned()),
        Err(_) => None,
    }
}

} // verus!
