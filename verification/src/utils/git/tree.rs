//! Finding what a path names in a tree.

use crate::utils::error::Error;
use crate::utils::error::ErrorKind;
use crate::utils::git::store;
use crate::utils::git::store_failure;
use crate::utils::git::Repository;
use git2::Blob as GitBlob;
use git2::Object as GitObject;
use git2::Tree as GitTree;
use vstd::prelude::*;

verus! {

/// What a path in a tree can name.
pub enum TreeItem<'repo> {
    /// A directory.
    Tree(GitTree<'repo>),
    /// A file.
    Blob(GitBlob<'repo>),
}

impl Repository {
    /// The file at `path` in `tree`; `None` where nothing is at `path`. It
    /// is an error where what is there cannot be read, or leads to no file.
    pub fn tree_blob(&self, tree: &GitTree<'_>, path: &str) -> (res: Result<
        Option<GitBlob<'_>>,
        Error,
    >)
        ensures
            res matches Err(error) ==> error@.kind == ErrorKind::Store && error@.contexts.len()
                == 0,
    {
        let object = match self.tree_object(tree, path)? {
            Some(object) => object,
            None => {
                return Ok(None);
            },
        };
        match store::peel_to_blob(&object) {
            Ok(blob) => Ok(Some(blob)),
            Err(error) => Err(store_failure(error)),
        }
    }

    /// The object at `path` in `tree`, a path of names separated by slashes;
    /// `None` where one of the names is missing. It is an error where the
    /// entry is there and its object cannot be read.
    pub fn tree_object(&self, tree: &GitTree<'_>, path: &str) -> (res: Result<
        Option<GitObject<'_>>,
        Error,
    >)
        ensures
            res matches Err(error) ==> error@.kind == ErrorKind::Store && error@.contexts.len()
                == 0,
    {
        let entry = match store::tree_entry(tree, path) {
            Ok(entry) => entry,
            Err(_) => {
                return Ok(None);
            },
        };
        match store::entry_object(&entry, &self.inner) {
            Ok(object) => Ok(Some(object)),
            Err(error) => Err(store_failure(error)),
        }
    }

    /// Tells a directory from a file: `object` as a tree where it is one, as
    /// a blob where it is one, and `None` where it is neither.
    pub fn tree_item<'r>(object: GitObject<'r>) -> (res: Option<TreeItem<'r>>)
        ensures
            match store::tree_of(object) {
                Some(tree) => res == Some(TreeItem::Tree(tree)),
                None => match store::blob_of(object) {
                    Some(blob) => res == Some(TreeItem::Blob(blob)),
                    None => res is None,
                },
            },
    {
        match store::into_tree(object) {
            Ok(tree) => Some(TreeItem::Tree(tree)),
            Err(object) => match store::into_blob(object) {
                Ok(blob) => Some(TreeItem::Blob(blob)),
                Err(_) => None,
            },
        }
    }
}

} // verus!
