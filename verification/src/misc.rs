//! The search for a file in a directory and in the directories above it.

use crate::text::same_text;
use vstd::prelude::*;

verus! {

/// A directory, with the names of the files that were found in it.
#[derive(Debug, PartialEq, Eq)]
pub struct Directory {
    /// The directory's path.
    pub path: String,
    /// The names of the files in the directory.
    pub files: Vec<String>,
}

/// What a `Directory` holds.
pub struct DirectoryView {
    pub path: Seq<char>,
    pub files: Seq<Seq<char>>,
}

impl DeepView for Directory {
    type V = DirectoryView;

    open spec fn deep_view(&self) -> DirectoryView {
        DirectoryView { path: self.path@, files: self.files.deep_view() }
    }
}

/// Whether `names` holds the name `name`.
pub fn holds_name(names: &Vec<String>, name: &str) -> (held: bool)
    ensures
        held == names.deep_view().contains(name@),
{
    let mut i: usize = 0;
    while i < names.len()
        invariant
            i <= names.len(),
            forall|j: int| 0 <= j < i ==> names.deep_view()[j] != name@,
        decreases names.len() - i,
    {
        if same_text(names[i].as_str(), name) {
            assert(names.deep_view()[i as int] == name@);
            return true;
        }
        i += 1;
    }
    false
}

/// Walks up the directory tree to find a file.
///
/// `ancestors` are the directory where the walk begins and the directories
/// above it, from the nearest to the root. The walk stops at the first of
/// them that holds `file`, and returns its place in `ancestors`; it returns
/// nothing where none of them holds the file.
pub fn walk_parent_directories(ancestors: &Vec<Directory>, file: &str) -> (found: Option<usize>)
    ensures
        match found {
            Some(place) => {
                &&& place < ancestors.len()
                &&& ancestors.deep_view()[place as int].files.contains(file@)
                &&& forall|nearer: int|
                    0 <= nearer < place ==> !ancestors.deep_view()[nearer].files.contains(file@)
            },
            None => forall|place: int|
                0 <= place < ancestors.len() ==> !ancestors.deep_view()[place].files.contains(
                    file@,
                ),
        },
{
    let mut next: usize = 0;
    while next < ancestors.len()
        invariant
            next <= ancestors.len(),
            forall|nearer: int|
                0 <= nearer < next ==> !ancestors.deep_view()[nearer].files.contains(file@),
        decreases ancestors.len() - next,
    {
        if holds_name(&ancestors[next].files, file) {
            return Some(next);
        }
        next += 1;
    }
    None
}

} // verus!
