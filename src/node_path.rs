//! One path interface over both syntaxes, and a facade that picks the syntax of the
//! host once, when it is made.

use vstd::prelude::*;
use crate::parsed::{ParsedPath, WorkingDirs};
use crate::posix::{
    posix_is_absolute, posix_normalize, posix_parse, posix_relative, posix_resolve, strs, Posix,
};
use crate::segments::PathStyle;
use crate::windows::{
    pair_views, win_is_absolute, win_normalize, win_parse, win_relative, win_resolve, Windows,
};

verus! {

/// The operations that both path syntaxes offer.
pub trait PathInterface {
    fn sep(&self) -> &'static str;

    fn resolve(&self, paths: &[&str], dirs: &WorkingDirs) -> String;

    fn parse(&self, path: &str) -> ParsedPath;

    fn normalize(&self, path: &str) -> String;

    fn relative(&self, from: &str, to: &str, dirs: &WorkingDirs) -> String;

    fn is_absolute(&self, path: &str) -> bool;
}

impl PathInterface for Posix {
    fn sep(&self) -> &'static str {
        Posix::sep(self)
    }

    fn resolve(&self, paths: &[&str], dirs: &WorkingDirs) -> String {
        Posix::resolve(self, paths, dirs)
    }

    fn parse(&self, path: &str) -> ParsedPath {
        Posix::parse(self, path)
    }

    fn normalize(&self, path: &str) -> String {
        Posix::normalize(self, path)
    }

    fn relative(&self, from: &str, to: &str, dirs: &WorkingDirs) -> String {
        Posix::relative(self, from, to, dirs)
    }

    fn is_absolute(&self, path: &str) -> bool {
        Posix::is_absolute(self, path)
    }
}

impl PathInterface for Windows {
    fn sep(&self) -> &'static str {
        Windows::sep(self)
    }

    fn resolve(&self, paths: &[&str], dirs: &WorkingDirs) -> String {
        Windows::resolve(self, paths, dirs)
    }

    fn parse(&self, path: &str) -> ParsedPath {
        Windows::parse(self, path)
    }

    fn normalize(&self, path: &str) -> String {
        Windows::normalize(self, path)
    }

    fn relative(&self, from: &str, to: &str, dirs: &WorkingDirs) -> String {
        Windows::relative(self, from, to, dirs)
    }

    fn is_absolute(&self, path: &str) -> bool {
        Windows::is_absolute(self, path)
    }
}

/// Both path syntaxes, and the one of the host.
#[derive(Debug, Clone, Copy)]
pub struct NodePath {
    pub win32: Windows,
    pub posix: Posix,
    pub host: PathStyle,
}

impl NodePath {
    /// The facade for a host whose paths have the syntax `host`.
    pub fn new(host: PathStyle) -> (r: NodePath)
        ensures
            r.host == host,
    {
        NodePath { win32: Windows, posix: Posix, host }
    }

    pub open spec fn on_windows(&self) -> bool {
        self.host == PathStyle::Windows
    }

    pub fn resolve(&self, paths: &[&str], dirs: &WorkingDirs) -> (r: String)
        ensures
            r@ == if self.on_windows() {
                win_resolve(strs(paths@), dirs.cwd@, pair_views(dirs.per_drive@))
            } else {
                posix_resolve(strs(paths@), dirs.cwd@)
            },
    {
        match self.host {
            PathStyle::Windows => self.win32.resolve(paths, dirs),
            PathStyle::Posix => self.posix.resolve(paths, dirs),
        }
    }

    pub fn parse(&self, path: &str) -> (r: ParsedPath)
        ensures
            r.parts() == if self.on_windows() {
                win_parse(path@)
            } else {
                posix_parse(path@)
            },
    {
        match self.host {
            PathStyle::Windows => self.win32.parse(path),
            PathStyle::Posix => self.posix.parse(path),
        }
    }

    pub fn normalize(&self, path: &str) -> (r: String)
        ensures
            r@ == if self.on_windows() {
                win_normalize(path@)
            } else {
                posix_normalize(path@)
            },
    {
        match self.host {
            PathStyle::Windows => self.win32.normalize(path),
            PathStyle::Posix => self.posix.normalize(path),
        }
    }

    pub fn relative(&self, from: &str, to: &str, dirs: &WorkingDirs) -> (r: String)
        ensures
            r@ == if self.on_windows() {
                win_relative(from@, to@, dirs.cwd@, pair_views(dirs.per_drive@))
            } else {
                posix_relative(from@, to@, dirs.cwd@)
            },
    {
        match self.host {
            PathStyle::Windows => self.win32.relative(from, to, dirs),
            PathStyle::Posix => self.posix.relative(from, to, dirs),
        }
    }

    pub fn is_absolute(&self, path: &str) -> (r: bool)
        ensures
            r == if self.on_windows() {
                win_is_absolute(path@)
            } else {
                posix_is_absolute(path@)
            },
    {
        match self.host {
            PathStyle::Windows => self.win32.is_absolute(path),
            PathStyle::Posix => self.posix.is_absolute(path),
        }
    }

    pub fn sep(&self) -> (r: &'static str)
        ensures
            r@ == if self.on_windows() {
                seq!['\\']
            } else {
                seq!['/']
            },
    {
        match self.host {
            PathStyle::Windows => self.win32.sep(),
            PathStyle::Posix => self.posix.sep(),
        }
    }
}

/// The facade under the name that picks the host's syntax by default.
pub type DefaultPath = NodePath;

} // verus!
