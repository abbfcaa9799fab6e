//! Looking up file types by extension and by file name, and classifying them as
//! binary or generated.

use vstd::prelude::*;
use vstd::string::*;
use crate::definitions::{builtin_table, definitions};
use crate::segments::{dot, dotdot, split_all, split_segments, PathStyle};
use crate::filetype_types::{all_dotted, def_views, str_views, DefView, FileTypeDefinition, FileTypeFormat};
use crate::glob::{regex_compiles, regex_finds, regex_search, simple_glob, simple_glob_spec};
use crate::segments::{join_segments, views};
use crate::text::{chars_equal, chars_of, lower_of, string_of, to_lower};

verus! {

pub open spec fn id_set(v: Seq<Seq<char>>) -> Set<Seq<char>>
    decreases v.len(),
{
    if v.len() == 0 {
        Set::empty()
    } else {
        id_set(v.drop_last()).insert(v.last())
    }
}

pub open spec fn has_key(d: DefView, key: Seq<char>) -> bool {
    d.extensions.contains(key) || d.filenames.contains(key)
}

/// The ids of the definitions that list `key` as an extension or a file name.
pub open spec fn key_ids(t: Seq<DefView>, key: Seq<char>) -> Set<Seq<char>>
    decreases t.len(),
{
    if t.len() == 0 {
        Set::empty()
    } else if has_key(t.last(), key) {
        key_ids(t.drop_last(), key).insert(t.last().id)
    } else {
        key_ids(t.drop_last(), key)
    }
}

/// The regular expressions of a definition's glob file names.
pub open spec fn star_patterns(names: Seq<Seq<char>>) -> Seq<Seq<char>>
    decreases names.len(),
{
    if names.len() == 0 {
        Seq::empty()
    } else if names.last().contains('*') {
        star_patterns(names.drop_last()).push(simple_glob_spec(names.last()))
    } else {
        star_patterns(names.drop_last())
    }
}

pub open spec fn def_pattern(d: DefView) -> Seq<char> {
    join_segments(star_patterns(d.filenames), '|')
}

pub open spec fn glob_matches(d: DefView, name: Seq<char>) -> bool {
    star_patterns(d.filenames).len() > 0 && regex_compiles(def_pattern(d)) && regex_finds(
        def_pattern(d),
        name,
    )
}

/// The ids of the definitions whose glob file names match `name`.
pub open spec fn glob_ids(t: Seq<DefView>, name: Seq<char>) -> Set<Seq<char>>
    decreases t.len(),
{
    if t.len() == 0 {
        Set::empty()
    } else if glob_matches(t.last(), name) {
        glob_ids(t.drop_last(), name).insert(t.last().id)
    } else {
        glob_ids(t.drop_last(), name)
    }
}

/// The ids for the first suffix of `name`, starting at a dot at or after `i`, that
/// some definition lists.
pub open spec fn suffix_ids(t: Seq<DefView>, name: Seq<char>, i: int) -> Set<Seq<char>>
    decreases name.len() - i,
{
    if i < 0 || i >= name.len() {
        Set::empty()
    } else if name[i] == '.' && key_ids(t, name.skip(i)) != Set::<Seq<char>>::empty() {
        key_ids(t, name.skip(i))
    } else {
        suffix_ids(t, name, i + 1)
    }
}

/// The ids for a base name: exact entries first, then globs, then dotted suffixes.
pub open spec fn basename_ids(t: Seq<DefView>, name: Seq<char>) -> Set<Seq<char>> {
    if key_ids(t, name) != Set::<Seq<char>>::empty() {
        key_ids(t, name)
    } else if glob_ids(t, name) != Set::<Seq<char>>::empty() {
        glob_ids(t, name)
    } else {
        suffix_ids(t, name, 0)
    }
}

/// The last piece of `pieces` that is neither empty nor `.`.
pub open spec fn last_name(pieces: Seq<Seq<char>>) -> Option<Seq<char>>
    decreases pieces.len(),
{
    if pieces.len() == 0 {
        None
    } else if pieces.last().len() == 0 || pieces.last() == dot() {
        last_name(pieces.drop_last())
    } else {
        Some(pieces.last())
    }
}

/// The file name of `f`: its last `/`-separated component that is neither empty nor
/// `.`; `f` itself when there is none or it is `..`.
pub open spec fn base_of(f: Seq<char>) -> Seq<char> {
    match last_name(split_segments(f, PathStyle::Posix)) {
        Some(n) => if n == dotdot() {
            f
        } else {
            n
        },
        None => f,
    }
}

/// The ids for a file name: those of its base name, else those of the lower-cased
/// base name.
pub open spec fn matching_ids(t: Seq<DefView>, f: Seq<char>) -> Set<Seq<char>> {
    let b = base_of(f);
    if basename_ids(t, b) != Set::<Seq<char>>::empty() {
        basename_ids(t, b)
    } else {
        basename_ids(t, lower_of(b))
    }
}

pub open spec fn with_dot(e: Seq<char>) -> Seq<char> {
    seq!['.'] + e
}

/// The ids for an extension: those listed under it as given, with a dot in front,
/// lower-cased, and lower-cased with a dot in front.
pub open spec fn ext_ids(t: Seq<DefView>, e: Seq<char>) -> Set<Seq<char>> {
    key_ids(t, e) + key_ids(t, with_dot(e)) + key_ids(t, lower_of(e)) + key_ids(
        t,
        with_dot(lower_of(e)),
    )
}

/// The ids of the definitions with the binary format.
pub open spec fn binary_format_ids(t: Seq<DefView>) -> Set<Seq<char>>
    decreases t.len(),
{
    if t.len() == 0 {
        Set::empty()
    } else if t.last().binary {
        binary_format_ids(t.drop_last()).insert(t.last().id)
    } else {
        binary_format_ids(t.drop_last())
    }
}

pub open spec fn binary_ids(t: Seq<DefView>) -> Set<Seq<char>> {
    binary_format_ids(t).insert("binary"@).insert("image"@).insert("video"@).insert("fonts"@)
}

pub open spec fn generated_ids(t: Seq<DefView>) -> Set<Seq<char>> {
    binary_ids(t).insert("map"@).insert("lock"@).insert("pdf"@).insert("cache_files"@).insert(
        "rsa"@,
    ).insert("pem"@).insert("trie"@).insert("log"@)
}

pub open spec fn any_in(ids: Seq<Seq<char>>, s: Set<Seq<char>>) -> bool {
    exists|i: int| 0 <= i < ids.len() && s.contains(#[trigger] ids[i])
}

/// Whether `v` holds the characters of `key`.
fn contains_chars(v: &Vec<String>, key: &Vec<char>) -> (r: bool)
    ensures
        r == str_views(v@).contains(key@),
{
    let mut i: usize = 0;
    while i < v.len()
        invariant
            i <= v@.len(),
            forall|j: int| 0 <= j < i ==> v@[j]@ != key@,
        decreases v@.len() - i,
    {
        let c = chars_of(v[i].as_str());
        if chars_equal(&c, key) {
            assert(str_views(v@)[i as int] == key@);
            return true;
        }
        i += 1;
    }
    proof {
        if str_views(v@).contains(key@) {
            let j = choose|j: int| 0 <= j < str_views(v@).len() && str_views(v@)[j] == key@;
            assert(v@[j]@ == key@);
        }
    }
    false
}

fn def_has_key(d: &FileTypeDefinition, key: &Vec<char>) -> (r: bool)
    ensures
        r == has_key(d.def_view(), key@),
{
    if contains_chars(&d.extensions, key) {
        return true;
    }
    match &d.filenames {
        Some(f) => contains_chars(f, key),
        None => false,
    }
}

/// Appends `id` when it is not there yet; the set of ids gains it.
fn add_id(out: &mut Vec<String>, id: &String)
    ensures
        id_set(views_s(final(out)@)) == id_set(views_s(old(out)@)).insert(id@),
{
    let c = chars_of(id.as_str());
    let ghost before = views_s(out@);
    let s = string_of(&c);
    out.push(s);
    assert(views_s(out@).drop_last() =~= before);
}

pub open spec fn views_s(v: Seq<String>) -> Seq<Seq<char>> {
    v.map_values(|s: String| s@)
}

/// The file types that the table holds and the lookups over them.
pub struct FileTypes {
    pub defs: Vec<FileTypeDefinition>,
}

impl FileTypes {
    pub open spec fn table(&self) -> Seq<DefView> {
        def_views(self.defs@)
    }

    /// The built-in table.
    pub fn new() -> (r: FileTypes)
        ensures
            all_dotted(r.defs@),
            r.table() == builtin_table(),
    {
        FileTypes { defs: definitions() }
    }

    /// The ids of the definitions that list `key` exactly.
    pub fn ids_for_key(&self, key: &Vec<char>) -> (r: Vec<String>)
        ensures
            id_set(views_s(r@)) == key_ids(self.table(), key@),
    {
        let ghost t = self.table();
        let mut out: Vec<String> = Vec::new();
        let mut i: usize = 0;
        proof {
            assert(t.take(0) =~= Seq::<DefView>::empty());
            assert(views_s(out@) =~= Seq::<Seq<char>>::empty());
        }
        while i < self.defs.len()
            invariant
                i <= self.defs@.len(),
                t == self.table(),
                id_set(views_s(out@)) == key_ids(t.take(i as int), key@),
            decreases self.defs@.len() - i,
        {
            assert(t.take(i + 1).drop_last() =~= t.take(i as int));
            assert(t.take(i + 1).last() == self.defs@[i as int].def_view());
            if def_has_key(&self.defs[i], key) {
                add_id(&mut out, &self.defs[i].id);
            }
            i += 1;
        }
        assert(t.take(i as int) =~= t);
        out
    }

    /// The regular expression of a definition's glob file names, if it has any.
    fn pattern_of(d: &FileTypeDefinition) -> (r: Option<String>)
        ensures
            r is Some <==> star_patterns(d.def_view().filenames).len() > 0,
            r is Some ==> r->0@ == def_pattern(d.def_view()),
    {
        let names = match &d.filenames {
            Some(f) => f,
            None => {
                return None;
            },
        };
        let ghost nv = str_views(names@);
        let mut pats: Vec<Vec<char>> = Vec::new();
        let mut i: usize = 0;
        proof {
            assert(nv.take(0) =~= Seq::<Seq<char>>::empty());
            assert(views(pats@) =~= Seq::<Seq<char>>::empty());
        }
        while i < names.len()
            invariant
                i <= names@.len(),
                nv == str_views(names@),
                views(pats@) == star_patterns(nv.take(i as int)),
            decreases names@.len() - i,
        {
            assert(nv.take(i + 1).drop_last() =~= nv.take(i as int));
            assert(nv.take(i + 1).last() == names@[i as int]@);
            let c = chars_of(names[i].as_str());
            let mut has_star = false;
            let mut j: usize = 0;
            while j < c.len()
                invariant
                    j <= c@.len(),
                    has_star == (exists|k: int| 0 <= k < j && c@[k] == '*'),
                decreases c@.len() - j,
            {
                if c[j] == '*' {
                    has_star = true;
                }
                j += 1;
            }
            proof {
                if has_star {
                    let k = choose|k: int| 0 <= k < j && c@[k] == '*';
                    assert(c@.contains('*'));
                }
                if c@.contains('*') {
                    let k = choose|k: int| 0 <= k < c@.len() && c@[k] == '*';
                    assert(has_star);
                }
            }
            if has_star {
                let g = simple_glob(&c);
                let ghost prev = pats@;
                pats.push(g);
                assert(views(pats@) =~= views(prev).push(simple_glob_spec(c@)));
            }
            i += 1;
        }
        assert(nv.take(i as int) =~= nv);
        if pats.len() == 0 {
            return None;
        }
        Some(crate::segments::join_with(&pats, '|'))
    }

    /// The ids of the definitions whose glob file names match `name`.
    pub fn glob_ids_for(&self, name: &str) -> (r: Vec<String>)
        ensures
            id_set(views_s(r@)) == glob_ids(self.table(), name@),
    {
        let ghost t = self.table();
        let mut out: Vec<String> = Vec::new();
        let mut i: usize = 0;
        proof {
            assert(t.take(0) =~= Seq::<DefView>::empty());
            assert(views_s(out@) =~= Seq::<Seq<char>>::empty());
        }
        while i < self.defs.len()
            invariant
                i <= self.defs@.len(),
                t == self.table(),
                id_set(views_s(out@)) == glob_ids(t.take(i as int), name@),
            decreases self.defs@.len() - i,
        {
            assert(t.take(i + 1).drop_last() =~= t.take(i as int));
            assert(t.take(i + 1).last() == self.defs@[i as int].def_view());
            match Self::pattern_of(&self.defs[i]) {
                Some(p) => {
                    if regex_search(p.as_str(), name) == Some(true) {
                        add_id(&mut out, &self.defs[i].id);
                    }
                },
                None => {},
            }
            i += 1;
        }
        assert(t.take(i as int) =~= t);
        out
    }

    /// The ids for a base name, as `basename_ids` says.
    pub fn ids_for_basename(&self, name: &str) -> (r: Vec<String>)
        ensures
            id_set(views_s(r@)) == basename_ids(self.table(), name@),
    {
        let c = chars_of(name);
        let exact = self.ids_for_key(&c);
        if exact.len() > 0 {
            proof { lemma_id_set_nonempty(views_s(exact@)); }
            return exact;
        }
        proof { assert(views_s(exact@) =~= Seq::<Seq<char>>::empty()); }
        let globbed = self.glob_ids_for(name);
        if globbed.len() > 0 {
            proof { lemma_id_set_nonempty(views_s(globbed@)); }
            return globbed;
        }
        proof { assert(views_s(globbed@) =~= Seq::<Seq<char>>::empty()); }
        let mut i: usize = 0;
        while i < c.len()
            invariant
                i <= c@.len(),
                c@ == name@,
                key_ids(self.table(), name@) == Set::<Seq<char>>::empty(),
                glob_ids(self.table(), name@) == Set::<Seq<char>>::empty(),
                suffix_ids(self.table(), name@, i as int) == suffix_ids(self.table(), name@, 0),
            decreases c@.len() - i,
        {
            if c[i] == '.' {
                let mut key: Vec<char> = Vec::new();
                let mut j: usize = i;
                while j < c.len()
                    invariant
                        i <= j <= c@.len(),
                        key@ == c@.subrange(i as int, j as int),
                    decreases c@.len() - j,
                {
                    key.push(c[j]);
                    j += 1;
                    assert(key@ =~= c@.subrange(i as int, j as int));
                }
                assert(key@ =~= name@.skip(i as int));
                let found = self.ids_for_key(&key);
                if found.len() > 0 {
                    proof { lemma_id_set_nonempty(views_s(found@)); }
                    return found;
                }
                proof { assert(views_s(found@) =~= Seq::<Seq<char>>::empty()); }
            }
            i += 1;
        }
        let r: Vec<String> = Vec::new();
        proof { assert(views_s(r@) =~= Seq::<Seq<char>>::empty()); }
        r
    }

    /// The ids for a file name, as `matching_ids` says.
    pub fn find_matching_file_types(&self, filename: &str) -> (r: Vec<String>)
        ensures
            id_set(views_s(r@)) == matching_ids(self.table(), filename@),
            views_s(r@).no_duplicates(),
    {
        let found = self.matching_ids_of(filename);
        unique_ids(&found)
    }

    fn matching_ids_of(&self, filename: &str) -> (r: Vec<String>)
        ensures
            id_set(views_s(r@)) == matching_ids(self.table(), filename@),
    {
        let base = base_name(filename);
        let found = self.ids_for_basename(base.as_str());
        if found.len() > 0 {
            proof { lemma_id_set_nonempty(views_s(found@)); }
            return found;
        }
        proof { assert(views_s(found@) =~= Seq::<Seq<char>>::empty()); }
        let lower = to_lower(base.as_str());
        self.ids_for_basename(lower.as_str())
    }

    /// The ids for an extension, as `ext_ids` says.
    pub fn get_file_types_for_ext(&self, ext: &str) -> (r: Vec<String>)
        ensures
            id_set(views_s(r@)) == ext_ids(self.table(), ext@),
            views_s(r@).no_duplicates(),
    {
        let e = chars_of(ext);
        let dotted_e = with_leading_dot(&e);
        let lower = chars_of(to_lower(ext).as_str());
        let dotted_lower = with_leading_dot(&lower);
        let mut all = self.ids_for_key(&e);
        let more = self.ids_for_key(&dotted_e);
        append_ids(&mut all, &more);
        let more = self.ids_for_key(&lower);
        append_ids(&mut all, &more);
        let more = self.ids_for_key(&dotted_lower);
        append_ids(&mut all, &more);
        unique_ids(&all)
    }

    /// Whether `id` is a binary file type.
    pub fn is_binary_id(&self, id: &String) -> (r: bool)
        ensures
            r == binary_ids(self.table()).contains(id@),
    {
        let c = chars_of(id.as_str());
        if chars_equal(&c, &chars_of("binary")) || chars_equal(&c, &chars_of("image"))
            || chars_equal(&c, &chars_of("video")) || chars_equal(&c, &chars_of("fonts")) {
            return true;
        }
        self.has_binary_format(id)
    }

    /// Whether `id` is a generated file type.
    pub fn is_generated_id(&self, id: &String) -> (r: bool)
        ensures
            r == generated_ids(self.table()).contains(id@),
    {
        let c = chars_of(id.as_str());
        if chars_equal(&c, &chars_of("map")) || chars_equal(&c, &chars_of("lock"))
            || chars_equal(&c, &chars_of("pdf")) || chars_equal(&c, &chars_of("cache_files"))
            || chars_equal(&c, &chars_of("rsa")) || chars_equal(&c, &chars_of("pem"))
            || chars_equal(&c, &chars_of("trie")) || chars_equal(&c, &chars_of("log")) {
            return true;
        }
        self.is_binary_id(id)
    }

    fn has_binary_format(&self, id: &String) -> (r: bool)
        ensures
            r == binary_format_ids(self.table()).contains(id@),
    {
        let ghost t = self.table();
        let c = chars_of(id.as_str());
        let mut found = false;
        let mut i: usize = 0;
        proof {
            assert(t.take(0) =~= Seq::<DefView>::empty());
        }
        while i < self.defs.len()
            invariant
                i <= self.defs@.len(),
                t == self.table(),
                c@ == id@,
                found == binary_format_ids(t.take(i as int)).contains(id@),
            decreases self.defs@.len() - i,
        {
            assert(t.take(i + 1).drop_last() =~= t.take(i as int));
            assert(t.take(i + 1).last() == self.defs@[i as int].def_view());
            let d = &self.defs[i];
            let is_bin = match d.format {
                Some(FileTypeFormat::Binary) => true,
                _ => false,
            };
            if is_bin && chars_equal(&chars_of(d.id.as_str()), &c) {
                found = true;
            }
            i += 1;
        }
        assert(t.take(i as int) =~= t);
        found
    }

    /// Whether any of `ids` is a binary file type.
    pub fn is_binary_file_type(&self, ids: &Vec<String>) -> (r: bool)
        ensures
            r == any_in(views_s(ids@), binary_ids(self.table())),
    {
        let mut i: usize = 0;
        while i < ids.len()
            invariant
                i <= ids@.len(),
                forall|j: int| 0 <= j < i ==> !binary_ids(self.table()).contains(ids@[j]@),
            decreases ids@.len() - i,
        {
            if self.is_binary_id(&ids[i]) {
                assert(views_s(ids@)[i as int] == ids@[i as int]@);
                return true;
            }
            i += 1;
        }
        proof {
            if any_in(views_s(ids@), binary_ids(self.table())) {
                let j = choose|j: int|
                    0 <= j < views_s(ids@).len() && binary_ids(self.table()).contains(
                        #[trigger] views_s(ids@)[j],
                    );
                assert(views_s(ids@)[j] == ids@[j]@);
            }
        }
        false
    }

    /// Whether any of `ids` is a generated file type.
    pub fn is_file_type_generated(&self, ids: &Vec<String>) -> (r: bool)
        ensures
            r == any_in(views_s(ids@), generated_ids(self.table())),
    {
        let mut i: usize = 0;
        while i < ids.len()
            invariant
                i <= ids@.len(),
                forall|j: int| 0 <= j < i ==> !generated_ids(self.table()).contains(ids@[j]@),
            decreases ids@.len() - i,
        {
            if self.is_generated_id(&ids[i]) {
                assert(views_s(ids@)[i as int] == ids@[i as int]@);
                return true;
            }
            i += 1;
        }
        proof {
            if any_in(views_s(ids@), generated_ids(self.table())) {
                let j = choose|j: int|
                    0 <= j < views_s(ids@).len() && generated_ids(self.table()).contains(
                        #[trigger] views_s(ids@)[j],
                    );
                assert(views_s(ids@)[j] == ids@[j]@);
            }
        }
        false
    }
}

/// A non-empty sequence has a non-empty set of ids.
proof fn lemma_id_set_nonempty(v: Seq<Seq<char>>)
    requires
        v.len() > 0,
    ensures
        id_set(v) != Set::<Seq<char>>::empty(),
{
    assert(id_set(v).contains(v.last()));
}


/// The file types for an extension, with or without its dot, in any case, looked up
/// in the built-in table.
pub fn get_file_types_for_ext(ext: &str) -> (r: Vec<String>)
    ensures
        id_set(views_s(r@)) == ext_ids(builtin_table(), ext@),
        views_s(r@).no_duplicates(),
{
    FileTypes::new().get_file_types_for_ext(ext)
}

/// The file types for a file name, looked up in the built-in table.
pub fn find_matching_file_types(filename: &str) -> (r: Vec<String>)
    ensures
        id_set(views_s(r@)) == matching_ids(builtin_table(), filename@),
        views_s(r@).no_duplicates(),
{
    FileTypes::new().find_matching_file_types(filename)
}

/// Whether any of the ids is a binary file type of the built-in table.
pub fn is_binary_file_type(file_type_id: Vec<String>) -> (r: bool)
    ensures
        r == any_in(views_s(file_type_id@), binary_ids(builtin_table())),
{
    FileTypes::new().is_binary_file_type(&file_type_id)
}

/// Whether any of the ids is a generated file type of the built-in table.
pub fn is_file_type_generated(file_type_id: Vec<String>) -> (r: bool)
    ensures
        r == any_in(views_s(file_type_id@), generated_ids(builtin_table())),
{
    FileTypes::new().is_file_type_generated(&file_type_id)
}

/// Whether the extension denotes a binary file type.
pub fn is_binary_ext(ext: &str) -> (r: bool)
    ensures
        r == meets(ext_ids(builtin_table(), ext@), binary_ids(builtin_table())),
{
    let types = FileTypes::new();
    let ids = types.get_file_types_for_ext(ext);
    let r = types.is_binary_file_type(&ids);
    proof { lemma_any_in_set(views_s(ids@), binary_ids(types.table())); }
    r
}

/// Whether the file's name denotes a binary file type.
pub fn is_binary_file(filename: &str) -> (r: bool)
    ensures
        r == meets(matching_ids(builtin_table(), base_of(filename@)), binary_ids(builtin_table())),
{
    let types = FileTypes::new();
    let base = base_name(filename);
    let ids = types.find_matching_file_types(base.as_str());
    let r = types.is_binary_file_type(&ids);
    proof { lemma_any_in_set(views_s(ids@), binary_ids(types.table())); }
    r
}

/// Whether the extension denotes a generated file type.
pub fn is_generated_ext(ext: &str) -> (r: bool)
    ensures
        r == meets(ext_ids(builtin_table(), ext@), generated_ids(builtin_table())),
{
    let types = FileTypes::new();
    let ids = types.get_file_types_for_ext(ext);
    let r = types.is_file_type_generated(&ids);
    proof { lemma_any_in_set(views_s(ids@), generated_ids(types.table())); }
    r
}

/// Whether the file's name denotes a generated file type.
pub fn is_generated_file(filename: &str) -> (r: bool)
    ensures
        r == meets(matching_ids(builtin_table(), filename@), generated_ids(builtin_table())),
{
    let types = FileTypes::new();
    let ids = types.find_matching_file_types(filename);
    let r = types.is_file_type_generated(&ids);
    proof { lemma_any_in_set(views_s(ids@), generated_ids(types.table())); }
    r
}

/// The file name of `filename`, as `base_of` says.
pub fn base_name(filename: &str) -> (r: String)
    ensures
        r@ == base_of(filename@),
{
    let pieces = split_all(filename, PathStyle::Posix);
    let ghost pv = views(pieces@);
    let mut n: usize = pieces.len();
    assert(pv.take(n as int) =~= pv);
    while n > 0 && (pieces[n - 1].len() == 0 || (pieces[n - 1].len() == 1 && pieces[n - 1][0] == '.'))
        invariant
            n <= pieces@.len(),
            pv == views(pieces@),
            last_name(pv.take(n as int)) == last_name(pv),
        decreases n,
    {
        assert(pv.take(n as int).drop_last() =~= pv.take(n - 1));
        assert(pv.take(n as int).last() == pieces@[n - 1]@);
        proof {
            if pieces@[n - 1]@.len() == 1 {
                assert(pieces@[n - 1]@ =~= dot());
            }
        }
        n -= 1;
    }
    if n == 0 {
        assert(pv.take(0) =~= Seq::<Seq<char>>::empty());
        return String::from_str(filename);
    }
    let last = &pieces[n - 1];
    proof {
        assert(pv.take(n as int).last() == last@);
        if last@ == dot() {
            assert(last@.len() == 1 && last@[0] == '.');
        }
    }
    if last.len() == 2 && last[0] == '.' && last[1] == '.' {
        assert(last@ =~= dotdot());
        return String::from_str(filename);
    }
    proof {
        if last@ == dotdot() {
            assert(last@.len() == 2 && last@[0] == '.' && last@[1] == '.');
        }
    }
    string_of(last)
}

fn with_leading_dot(e: &Vec<char>) -> (r: Vec<char>)
    ensures
        r@ == with_dot(e@),
{
    let mut d: Vec<char> = Vec::new();
    d.push('.');
    let mut i: usize = 0;
    while i < e.len()
        invariant
            i <= e@.len(),
            d@ == seq!['.'] + e@.take(i as int),
        decreases e@.len() - i,
    {
        d.push(e[i]);
        i += 1;
        assert(d@ =~= seq!['.'] + e@.take(i as int));
    }
    assert(e@.take(i as int) =~= e@);
    d
}

proof fn lemma_id_set_concat(x: Seq<Seq<char>>, y: Seq<Seq<char>>)
    ensures
        id_set(x + y) == id_set(x) + id_set(y),
    decreases y.len(),
{
    if y.len() == 0 {
        assert(x + y =~= x);
        assert(id_set(x) + id_set(y) =~= id_set(x));
    } else {
        lemma_id_set_concat(x, y.drop_last());
        assert((x + y).drop_last() =~= x + y.drop_last());
        assert((x + y).last() == y.last());
        assert(id_set(x + y) =~= id_set(x) + id_set(y));
    }
}

/// Appends the ids of `more`.
fn append_ids(out: &mut Vec<String>, more: &Vec<String>)
    ensures
        id_set(views_s(final(out)@)) == id_set(views_s(old(out)@)) + id_set(views_s(more@)),
{
    let ghost start = views_s(out@);
    let mut i: usize = 0;
    while i < more.len()
        invariant
            i <= more@.len(),
            views_s(out@) == start + views_s(more@).take(i as int),
        decreases more@.len() - i,
    {
        let c = chars_of(more[i].as_str());
        let ghost before = views_s(out@);
        out.push(string_of(&c));
        assert(views_s(out@) =~= before.push(c@));
        assert(views_s(more@)[i as int] == c@);
        i += 1;
        assert(views_s(out@) =~= start + views_s(more@).take(i as int));
    }
    assert(views_s(more@).take(i as int) =~= views_s(more@));
    proof {
        lemma_id_set_concat(start, views_s(more@));
    }
}

/// The ids of `v`, each once.
fn unique_ids(v: &Vec<String>) -> (r: Vec<String>)
    ensures
        id_set(views_s(r@)) == id_set(views_s(v@)),
        views_s(r@).no_duplicates(),
{
    let ghost vv = views_s(v@);
    let mut out: Vec<String> = Vec::new();
    let mut i: usize = 0;
    assert(views_s(out@) =~= Seq::<Seq<char>>::empty());
    assert(vv.take(0) =~= Seq::<Seq<char>>::empty());
    while i < v.len()
        invariant
            i <= v@.len(),
            vv == views_s(v@),
            id_set(views_s(out@)) == id_set(vv.take(i as int)),
            views_s(out@).no_duplicates(),
        decreases v@.len() - i,
    {
        let c = chars_of(v[i].as_str());
        assert(vv.take(i + 1).drop_last() =~= vv.take(i as int));
        assert(vv.take(i + 1).last() == c@);
        let ghost before = views_s(out@);
        if !contains_chars(&out, &c) {
            out.push(string_of(&c));
            assert(views_s(out@) =~= before.push(c@));
            assert(views_s(out@).drop_last() =~= before);
            assert forall|a: int, b: int| 0 <= a < b < views_s(out@).len() implies views_s(out@)[a]
                != views_s(out@)[b] by {
                if b == views_s(out@).len() - 1 {
                    assert(views_s(out@)[a] == before[a]);
                    if before[a] == c@ {
                        assert(before.contains(c@));
                    }
                } else {
                    assert(views_s(out@)[a] == before[a]);
                    assert(views_s(out@)[b] == before[b]);
                }
            }
        } else {
            proof {
                assert(str_views(out@) == before);
                lemma_id_set_contains(before, c@);
                assert(id_set(before).insert(c@) =~= id_set(before));
            }
        }
        i += 1;
    }
    assert(vv.take(i as int) =~= vv);
    out
}

/// Whether the two sets share an element.
pub open spec fn meets(a: Set<Seq<char>>, b: Set<Seq<char>>) -> bool {
    exists|x: Seq<char>| a.contains(x) && b.contains(x)
}

proof fn lemma_id_set_contains(v: Seq<Seq<char>>, x: Seq<char>)
    ensures
        id_set(v).contains(x) <==> v.contains(x),
    decreases v.len(),
{
    if v.len() > 0 {
        lemma_id_set_contains(v.drop_last(), x);
        if v.drop_last().contains(x) {
            let j = choose|j: int| 0 <= j < v.drop_last().len() && v.drop_last()[j] == x;
            assert(v[j] == x);
        }
        if v.contains(x) && x != v.last() {
            let j = choose|j: int| 0 <= j < v.len() && v[j] == x;
            assert(v.drop_last()[j] == x);
        }
    }
}

proof fn lemma_any_in_set(v: Seq<Seq<char>>, b: Set<Seq<char>>)
    ensures
        any_in(v, b) == meets(id_set(v), b),
{
    if any_in(v, b) {
        let i = choose|i: int| 0 <= i < v.len() && b.contains(#[trigger] v[i]);
        lemma_id_set_contains(v, v[i]);
    }
    if meets(id_set(v), b) {
        let x = choose|x: Seq<char>| id_set(v).contains(x) && b.contains(x);
        lemma_id_set_contains(v, x);
        let i = choose|i: int| 0 <= i < v.len() && v[i] == x;
        assert(b.contains(v[i]));
    }
}
} // verus!
