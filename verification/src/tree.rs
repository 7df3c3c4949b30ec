//! The in-memory project tree and the file collector.
//!
//! The surrounding program reads the project directory once and hands the
//! library a tree of entries; a directory it could not list is handed over
//! with no entries, and a file it could not read as text is handed over with
//! no content. Collection walks the tree in entry order, skips excluded
//! directories, and keeps every file whose name carries the dotted suffix of
//! the requested extension.

use vstd::prelude::*;
use vstd::string::StringExecFns;
use crate::text::{chars_eq, ends_with, str_chars, str_ends_with};

verus! {

/// One discovered file: its name and, when it could be read, its text.
#[derive(Debug, PartialEq, Eq)]
pub struct ProjectFile {
    pub name: String,
    pub content: Option<String>,
}

impl ProjectFile {
    /// A copy whose value equals this one.
    pub fn dup(&self) -> (r: ProjectFile)
        ensures
            r == *self,
    {
        let content = match &self.content {
            Some(c) => Some(c.clone()),
            None => None,
        };
        ProjectFile { name: self.name.clone(), content }
    }
}

/// A directory and what was listed inside it.
#[derive(Debug)]
pub struct Directory {
    pub name: String,
    pub entries: Vec<Entry>,
}

/// One node of the project tree.
#[derive(Debug)]
pub enum Entry {
    File(ProjectFile),
    Dir(Directory),
}

/// A dot-prefixed directory, or the dependency cache, is never entered.
pub open spec fn excluded_dir(name: Seq<char>) -> bool {
    ||| (name.len() > 0 && name[0] == '.')
    ||| name == "node_modules"@
}

/// A file belongs to the population of `ext` when its name ends with the
/// dotted suffix. A plain extension test — the part after the final dot
/// equals `ext` — is subsumed: such a name necessarily ends with `.ext`,
/// while the suffix test also admits compound extensions.
pub open spec fn name_matches(name: Seq<char>, ext: Seq<char>) -> bool {
    ends_with(name, seq!['.'] + ext)
}

/// The files collected from a single entry, in walk order.
pub open spec fn collect_entry(e: Entry, ext: Seq<char>) -> Seq<ProjectFile>
    decreases e,
{
    match e {
        Entry::File(f) => if name_matches(f.name@, ext) {
            seq![f]
        } else {
            Seq::empty()
        },
        Entry::Dir(d) => if excluded_dir(d.name@) {
            Seq::empty()
        } else {
            collect_entries(d.entries@, ext)
        },
    }
}

/// The files collected from a run of entries, in walk order.
pub open spec fn collect_entries(es: Seq<Entry>, ext: Seq<char>) -> Seq<ProjectFile>
    decreases es,
{
    if es.len() == 0 {
        Seq::empty()
    } else {
        collect_entries(es.drop_last(), ext) + collect_entry(es.last(), ext)
    }
}

/// Collection over a prefix grows one entry at a time.
pub proof fn lemma_collect_snoc(s: Seq<Entry>, i: int, ext: Seq<char>)
    requires
        0 <= i < s.len(),
    ensures
        collect_entries(s.subrange(0, i + 1), ext) == collect_entries(s.subrange(0, i), ext)
            + collect_entry(s[i], ext),
{
    let t = s.subrange(0, i + 1);
    assert(t.drop_last() =~= s.subrange(0, i));
    assert(t.last() == s[i]);
}

/// Is this a directory the walk must not enter?
pub fn is_excluded_dir(name: &str) -> (b: bool)
    ensures
        b == excluded_dir(name@),
{
    let nc = str_chars(name);
    if nc.len() > 0 && nc[0] == '.' {
        return true;
    }
    let cache = str_chars("node_modules");
    chars_eq(&nc, &cache)
}

/// Does this file name carry the dotted suffix of `ext`?
pub fn file_name_matches(name: &str, ext: &str) -> (b: bool)
    ensures
        b == name_matches(name@, ext@),
{
    let mut dotted = ".".to_owned();
    dotted.append(ext);
    proof {
        reveal_strlit(".");
        assert(dotted@ =~= seq!['.'] + ext@);
    }
    str_ends_with(name, dotted.as_str())
}

fn collect_into(entries: &Vec<Entry>, ext: &str, out: &mut Vec<ProjectFile>)
    ensures
        final(out)@ == old(out)@ + collect_entries(entries@, ext@),
    decreases entries@,
{
    let n = entries.len();
    let mut i: usize = 0;
    while i < n
        invariant
            n == entries@.len(),
            i <= n,
            out@ == old(out)@ + collect_entries(entries@.subrange(0, i as int), ext@),
        decreases n - i,
    {
        match &entries[i] {
            Entry::File(f) => {
                if file_name_matches(f.name.as_str(), ext) {
                    out.push(f.dup());
                }
            },
            Entry::Dir(d) => {
                if !is_excluded_dir(d.name.as_str()) {
                    proof {
                        assert(decreases_to!(entries@ => entries@[i as int]));
                    }
                    collect_into(&d.entries, ext, out);
                }
            },
        }
        proof {
            lemma_collect_snoc(entries@, i as int, ext@);
            assert(out@ =~= old(out)@ + collect_entries(entries@.subrange(0, i + 1 as int), ext@));
        }
        i = i + 1;
    }
    proof {
        assert(entries@.subrange(0, n as int) =~= entries@);
    }
}

/// Every file under `entries` whose name matches `ext`, in walk order.
pub fn collect_files(entries: &Vec<Entry>, ext: &str) -> (r: Vec<ProjectFile>)
    ensures
        r@ == collect_entries(entries@, ext@),
{
    let mut out: Vec<ProjectFile> = Vec::new();
    collect_into(entries, ext, &mut out);
    proof {
        assert(out@ =~= collect_entries(entries@, ext@));
    }
    out
}

} // verus!
