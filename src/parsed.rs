//! The result of parsing a path, and the working directories that resolution falls
//! back on.

use vstd::prelude::*;

verus! {

/// The parts of one path: `root` is empty for a relative path, `base` is the last
/// segment, `name` and `ext` split `base` at its last dot.
#[derive(Debug, PartialEq, Eq)]
pub struct ParsedPath {
    pub dir: String,
    pub root: String,
    pub base: String,
    pub name: String,
    pub ext: String,
}

/// The views of the five parts of a parsed path.
pub struct PathParts {
    pub root: Seq<char>,
    pub dir: Seq<char>,
    pub base: Seq<char>,
    pub name: Seq<char>,
    pub ext: Seq<char>,
}

impl ParsedPath {
    pub open spec fn parts(&self) -> PathParts {
        PathParts {
            root: self.root@,
            dir: self.dir@,
            base: self.base@,
            name: self.name@,
            ext: self.ext@,
        }
    }
}

/// The directories that relative paths are resolved against: the process's current
/// directory and, for Windows drive-relative paths, a current directory per drive
/// (pairs of a device such as `C:` and its directory).
#[derive(Debug)]
pub struct WorkingDirs {
    pub cwd: String,
    pub per_drive: Vec<(String, String)>,
}

impl WorkingDirs {
    /// Working directories with only a process-wide current directory.
    pub fn new(cwd: String) -> (r: WorkingDirs)
        ensures
            r.cwd@ == cwd@,
            r.per_drive@.len() == 0,
    {
        WorkingDirs { cwd, per_drive: Vec::new() }
    }
}

} // verus!
