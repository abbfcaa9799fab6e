//! The records of the file-type table.

use vstd::prelude::*;

verus! {

/// Whether a file type holds text or binary content.
#[derive(Debug, Clone, Copy, PartialEq, Eq, PartialOrd, Ord, Structural)]
pub enum FileTypeFormat {
    Text,
    Binary,
}

/// One file type: its id, the extensions (each starting with `.`) and file names
/// (exact, or globs with `*`) that denote it, and its format.
#[derive(Debug)]
pub struct FileTypeExtensionDefinition {
    pub id: String,
    pub extensions: Vec<String>,
    pub filenames: Option<Vec<String>>,
    pub format: Option<FileTypeFormat>,
    pub description: Option<String>,
    pub comment: Option<String>,
}

/// What the lookups read of a definition.
pub struct DefView {
    pub id: Seq<char>,
    pub extensions: Seq<Seq<char>>,
    pub filenames: Seq<Seq<char>>,
    pub binary: bool,
}

pub open spec fn str_views(v: Seq<String>) -> Seq<Seq<char>> {
    v.map_values(|s: String| s@)
}

impl FileTypeExtensionDefinition {
    pub fn new(
        id: String,
        extensions: Vec<String>,
        filenames: Option<Vec<String>>,
        format: Option<FileTypeFormat>,
        description: Option<String>,
        comment: Option<String>,
    ) -> (r: Self)
        ensures
            r.id == id,
            r.extensions == extensions,
            r.filenames == filenames,
            r.format == format,
            r.description == description,
            r.comment == comment,
    {
        FileTypeExtensionDefinition { id, extensions, filenames, format, description, comment }
    }

    pub open spec fn def_view(&self) -> DefView {
        DefView {
            id: self.id@,
            extensions: str_views(self.extensions@),
            filenames: match self.filenames {
                Some(f) => str_views(f@),
                None => Seq::empty(),
            },
            binary: self.format == Some(FileTypeFormat::Binary),
        }
    }

    /// Every extension is non-empty and starts with `.`.
    pub open spec fn dotted_extensions(&self) -> bool {
        forall|j: int|
            0 <= j < self.extensions@.len() ==> #[trigger] self.extensions@[j]@.len() > 0
                && self.extensions@[j]@[0] == '.'
    }
}

pub type FileTypeDefinition = FileTypeExtensionDefinition;

pub open spec fn def_views(t: Seq<FileTypeDefinition>) -> Seq<DefView> {
    t.map_values(|d: FileTypeDefinition| d.def_view())
}

pub open spec fn all_dotted(t: Seq<FileTypeDefinition>) -> bool {
    forall|i: int| 0 <= i < t.len() ==> (#[trigger] t[i]).dotted_extensions()
}

/// The strings `"." + n` for each `n`.
pub fn dotted(names: Vec<&str>) -> (r: Vec<String>)
    ensures
        r@.len() == names@.len(),
        forall|i: int| 0 <= i < r@.len() ==> (#[trigger] r@[i])@ == seq!['.'] + names@[i]@,
{
    let mut r: Vec<String> = Vec::new();
    let mut i: usize = 0;
    while i < names.len()
        invariant
            i <= names@.len(),
            r@.len() == i,
            forall|k: int| 0 <= k < i ==> (#[trigger] r@[k])@ == seq!['.'] + names@[k]@,
        decreases names@.len() - i,
    {
        let mut s = String::new();
        crate::text::push_char(&mut s, '.');
        s.append(names[i]);
        r.push(s);
        i += 1;
    }
    r
}

/// Owned copies of the strings.
pub fn owned(names: Vec<&str>) -> (r: Vec<String>)
    ensures
        r@.len() == names@.len(),
        forall|i: int| 0 <= i < r@.len() ==> (#[trigger] r@[i])@ == names@[i]@,
{
    let mut r: Vec<String> = Vec::new();
    let mut i: usize = 0;
    while i < names.len()
        invariant
            i <= names@.len(),
            r@.len() == i,
            forall|k: int| 0 <= k < i ==> (#[trigger] r@[k])@ == names@[k]@,
        decreases names@.len() - i,
    {
        r.push(String::from_str(names[i]));
        i += 1;
    }
    r
}

pub open spec fn lit_views(v: Seq<&str>) -> Seq<Seq<char>> {
    v.map_values(|s: &str| s@)
}

/// Each string with a leading `.`.
pub open spec fn with_dots(v: Seq<Seq<char>>) -> Seq<Seq<char>> {
    v.map_values(|s: Seq<char>| seq!['.'] + s)
}

/// A definition as the lookups read it: extensions are given without their dot.
pub open spec fn def_spec(id: &str, exts: Seq<&str>, names: Seq<&str>, binary: bool) -> DefView {
    DefView {
        id: id@,
        extensions: with_dots(lit_views(exts)),
        filenames: lit_views(names),
        binary: binary,
    }
}

pub open spec fn opt_strs(o: Option<Vec<&str>>) -> Seq<&str> {
    match o {
        Some(f) => f@,
        None => Seq::empty(),
    }
}

/// A definition whose extensions are `"." + e` for each `e` of `exts`.
pub fn entry(
    id: &str,
    exts: Vec<&str>,
    filenames: Option<Vec<&str>>,
    format: Option<FileTypeFormat>,
    description: Option<&str>,
) -> (r: FileTypeDefinition)
    ensures
        r.dotted_extensions(),
        r.def_view() == def_spec(
            id,
            exts@,
            opt_strs(filenames),
            format == Some(FileTypeFormat::Binary),
        ),
{
    let ghost ev = exts@;
    let ghost fv = opt_strs(filenames);
    let extensions = dotted(exts);
    let filenames = match filenames {
        Some(f) => Some(owned(f)),
        None => None,
    };
    let description = match description {
        Some(d) => Some(String::from_str(d)),
        None => None,
    };
    let r = FileTypeExtensionDefinition::new(
        String::from_str(id),
        extensions,
        filenames,
        format,
        description,
        None,
    );
    assert forall|j: int| 0 <= j < r.extensions@.len() implies #[trigger] r.extensions@[j]@.len()
        > 0 && r.extensions@[j]@[0] == '.' by {
        assert(r.extensions@[j]@ == seq!['.'] + ev[j]@);
    }
    assert(str_views(r.extensions@) =~= with_dots(lit_views(ev)));
    proof {
        if r.filenames is Some {
            assert(str_views(r.filenames->0@) =~= lit_views(fv));
        } else {
            assert(lit_views(fv) =~= Seq::<Seq<char>>::empty());
        }
    }
    r
}

/// Appends a definition with dotted extensions.
pub fn push_def(defs: &mut Vec<FileTypeDefinition>, d: FileTypeDefinition)
    requires
        all_dotted(old(defs)@),
        d.dotted_extensions(),
    ensures
        all_dotted(final(defs)@),
        def_views(final(defs)@) == def_views(old(defs)@).push(d.def_view()),
{
    let ghost v = d.def_view();
    defs.push(d);
    assert forall|i: int| 0 <= i < defs@.len() implies (#[trigger] defs@[i]).dotted_extensions() by {
        if i < defs@.len() - 1 {
            assert(defs@[i] == old(defs)@[i]);
        }
    }
    assert(def_views(defs@) =~= def_views(old(defs)@).push(v));
}

} // verus!
