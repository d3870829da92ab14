//! Filesystem locations named by a command.

use vstd::prelude::*;

verus! {

/// A path to a file.
#[derive(Debug)]
pub struct File(pub String);

impl Clone for File {
    fn clone(&self) -> (copy: File)
        ensures
            copy == *self,
    {
        File(self.0.clone())
    }
}

impl View for File {
    type V = Seq<char>;

    open spec fn view(&self) -> Seq<char> {
        self.0@
    }
}

impl File {
    /// Gives up the wrapper and returns the path text.
    pub fn into_path_buf(self) -> (path: String)
        ensures
            path == self.0,
    {
        self.0
    }
}

/// A path to a directory.
#[derive(Debug)]
pub struct Directory(pub String);

impl Clone for Directory {
    fn clone(&self) -> (copy: Directory)
        ensures
            copy == *self,
    {
        Directory(self.0.clone())
    }
}

impl View for Directory {
    type V = Seq<char>;

    open spec fn view(&self) -> Seq<char> {
        self.0@
    }
}

impl Directory {
    /// Gives up the wrapper and returns the path text.
    pub fn into_path_buf(self) -> (path: String)
        ensures
            path == self.0,
    {
        self.0
    }
}

} // verus!
