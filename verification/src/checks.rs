//! Evidence gathered by running content checks across a file population.
//!
//! Presence evidence is per file: a pattern seen twice in one file counts
//! that file once. Occurrence evidence sums regex match counts over the
//! whole population. A file without readable content contributes nothing.

use vstd::prelude::*;
use crate::numfmt::{add_clamped, clamped};
use crate::regexes::{regex_count_matches, regex_match_count, regex_pattern_ok};
use crate::text::{contains_seq, str_contains_pat};
use crate::tree::ProjectFile;

verus! {

/// A readable file whose text shows `pat`.
pub open spec fn file_has(f: ProjectFile, pat: Seq<char>) -> bool {
    f.content matches Some(c) && contains_seq(c@, pat)
}

/// Some file of the population shows `pat`.
pub open spec fn some_file_has(files: Seq<ProjectFile>, pat: Seq<char>) -> bool {
    exists|i: int| 0 <= i < files.len() && file_has(files[i], pat)
}

/// Some file of the population shows both `p` and `q`.
pub open spec fn some_file_has_both(files: Seq<ProjectFile>, p: Seq<char>, q: Seq<char>) -> bool {
    exists|i: int| 0 <= i < files.len() && file_has(files[i], p) && file_has(files[i], q)
}

/// Some file of the population shows `p` together with `q1` or `q2`.
pub open spec fn some_file_has_with_either(
    files: Seq<ProjectFile>,
    p: Seq<char>,
    q1: Seq<char>,
    q2: Seq<char>,
) -> bool {
    exists|i: int|
        0 <= i < files.len() && file_has(files[i], p) && (file_has(files[i], q1) || file_has(
            files[i],
            q2,
        ))
}

/// How many files of the population show `pat`.
pub open spec fn count_matching(files: Seq<ProjectFile>, pat: Seq<char>) -> nat
    decreases files,
{
    if files.len() == 0 {
        0
    } else {
        count_matching(files.drop_last(), pat) + (if file_has(files.last(), pat) {
            1nat
        } else {
            0nat
        })
    }
}

/// How many files of the population show `p1` or `p2`.
pub open spec fn count_matching_either(files: Seq<ProjectFile>, p1: Seq<char>, p2: Seq<char>) -> nat
    decreases files,
{
    if files.len() == 0 {
        0
    } else {
        count_matching_either(files.drop_last(), p1, p2) + (if file_has(files.last(), p1)
            || file_has(files.last(), p2) {
            1nat
        } else {
            0nat
        })
    }
}

/// The regex matches that one file contributes; a pattern the engine
/// rejects, like an unreadable file, contributes no evidence.
pub open spec fn occ_count(f: ProjectFile, pattern: Seq<char>) -> nat {
    match f.content {
        Some(c) => if regex_pattern_ok(pattern) {
            regex_match_count(pattern, c@)
        } else {
            0
        },
        None => 0,
    }
}

/// The regex matches summed over the whole population.
pub open spec fn occ_total(files: Seq<ProjectFile>, pattern: Seq<char>) -> nat
    decreases files,
{
    if files.len() == 0 {
        0
    } else {
        occ_total(files.drop_last(), pattern) + occ_count(files.last(), pattern)
    }
}

/// A per-file count is file-scoped: it never exceeds the population size.
pub proof fn lemma_count_le_len(files: Seq<ProjectFile>, pat: Seq<char>)
    ensures
        count_matching(files, pat) <= files.len(),
    decreases files,
{
    if files.len() > 0 {
        lemma_count_le_len(files.drop_last(), pat);
    }
}

/// Presence counting is file-scoped: two populations whose files agree on
/// whether they show `pat` — however often each file repeats it — agree on
/// the count.
pub proof fn lemma_presence_is_per_file(
    files: Seq<ProjectFile>,
    g: Seq<ProjectFile>,
    pat: Seq<char>,
)
    requires
        files.len() == g.len(),
        forall|i: int| 0 <= i < files.len() ==> #[trigger] file_has(files[i], pat) == file_has(
            g[i],
            pat,
        ),
    ensures
        count_matching(files, pat) == count_matching(g, pat),
    decreases files.len(),
{
    if files.len() > 0 {
        assert(file_has(files[files.len() - 1], pat) == file_has(g[g.len() - 1], pat));
        lemma_presence_is_per_file(files.drop_last(), g.drop_last(), pat);
    }
}

/// As `lemma_count_le_len`, for the two-pattern count.
pub proof fn lemma_count_either_le_len(files: Seq<ProjectFile>, p1: Seq<char>, p2: Seq<char>)
    ensures
        count_matching_either(files, p1, p2) <= files.len(),
    decreases files,
{
    if files.len() > 0 {
        lemma_count_either_le_len(files.drop_last(), p1, p2);
    }
}

proof fn lemma_count_snoc(s: Seq<ProjectFile>, i: int, pat: Seq<char>)
    requires
        0 <= i < s.len(),
    ensures
        count_matching(s.subrange(0, i + 1), pat) == count_matching(s.subrange(0, i), pat) + (
        if file_has(s[i], pat) {
            1nat
        } else {
            0nat
        }),
{
    let t = s.subrange(0, i + 1);
    assert(t.drop_last() =~= s.subrange(0, i));
    assert(t.last() == s[i]);
}

proof fn lemma_count_either_snoc(s: Seq<ProjectFile>, i: int, p1: Seq<char>, p2: Seq<char>)
    requires
        0 <= i < s.len(),
    ensures
        count_matching_either(s.subrange(0, i + 1), p1, p2) == count_matching_either(
            s.subrange(0, i),
            p1,
            p2,
        ) + (if file_has(s[i], p1) || file_has(s[i], p2) {
            1nat
        } else {
            0nat
        }),
{
    let t = s.subrange(0, i + 1);
    assert(t.drop_last() =~= s.subrange(0, i));
    assert(t.last() == s[i]);
}

proof fn lemma_occ_snoc(s: Seq<ProjectFile>, i: int, pattern: Seq<char>)
    requires
        0 <= i < s.len(),
    ensures
        occ_total(s.subrange(0, i + 1), pattern) == occ_total(s.subrange(0, i), pattern)
            + occ_count(s[i], pattern),
{
    let t = s.subrange(0, i + 1);
    assert(t.drop_last() =~= s.subrange(0, i));
    assert(t.last() == s[i]);
}

/// Does this file, if readable, show `pat`?
pub fn exec_file_has(f: &ProjectFile, pat: &str) -> (b: bool)
    ensures
        b == file_has(*f, pat@),
{
    match &f.content {
        Some(c) => str_contains_pat(c.as_str(), pat),
        None => false,
    }
}

/// Does any file of the population show `pat`?
pub fn any_file_with(files: &Vec<ProjectFile>, pat: &str) -> (b: bool)
    ensures
        b == some_file_has(files@, pat@),
{
    let n = files.len();
    let mut i: usize = 0;
    while i < n
        invariant
            n == files@.len(),
            i <= n,
            forall|j: int| 0 <= j < i ==> !file_has(files@[j], pat@),
        decreases n - i,
    {
        if exec_file_has(&files[i], pat) {
            proof {
                assert(file_has(files@[i as int], pat@));
            }
            return true;
        }
        i = i + 1;
    }
    false
}

/// Does any single file show both `p` and `q`?
pub fn any_file_with_both(files: &Vec<ProjectFile>, p: &str, q: &str) -> (b: bool)
    ensures
        b == some_file_has_both(files@, p@, q@),
{
    let n = files.len();
    let mut i: usize = 0;
    while i < n
        invariant
            n == files@.len(),
            i <= n,
            forall|j: int|
                0 <= j < i ==> !(file_has(files@[j], p@) && file_has(files@[j], q@)),
        decreases n - i,
    {
        if exec_file_has(&files[i], p) && exec_file_has(&files[i], q) {
            proof {
                assert(file_has(files@[i as int], p@) && file_has(files@[i as int], q@));
            }
            return true;
        }
        i = i + 1;
    }
    false
}

/// Does any single file show `p` together with `q1` or `q2`?
pub fn any_file_with_either_of(files: &Vec<ProjectFile>, p: &str, q1: &str, q2: &str) -> (b: bool)
    ensures
        b == some_file_has_with_either(files@, p@, q1@, q2@),
{
    let n = files.len();
    let mut i: usize = 0;
    while i < n
        invariant
            n == files@.len(),
            i <= n,
            forall|j: int|
                0 <= j < i ==> !(file_has(files@[j], p@) && (file_has(files@[j], q1@) || file_has(
                    files@[j],
                    q2@,
                ))),
        decreases n - i,
    {
        if exec_file_has(&files[i], p) && (exec_file_has(&files[i], q1) || exec_file_has(
            &files[i],
            q2,
        )) {
            proof {
                assert(file_has(files@[i as int], p@));
            }
            return true;
        }
        i = i + 1;
    }
    false
}

/// How many files of the population show `pat`?
pub fn count_files_with(files: &Vec<ProjectFile>, pat: &str) -> (n: usize)
    ensures
        n as nat == count_matching(files@, pat@),
{
    let total = files.len();
    let mut count: usize = 0;
    let mut i: usize = 0;
    while i < total
        invariant
            total == files@.len(),
            i <= total,
            count as nat == count_matching(files@.subrange(0, i as int), pat@),
            count <= i,
        decreases total - i,
    {
        if exec_file_has(&files[i], pat) {
            count = count + 1;
        }
        proof {
            lemma_count_snoc(files@, i as int, pat@);
        }
        i = i + 1;
    }
    proof {
        assert(files@.subrange(0, total as int) =~= files@);
    }
    count
}

/// How many files of the population show `p1` or `p2`?
pub fn count_files_with_either(files: &Vec<ProjectFile>, p1: &str, p2: &str) -> (n: usize)
    ensures
        n as nat == count_matching_either(files@, p1@, p2@),
{
    let total = files.len();
    let mut count: usize = 0;
    let mut i: usize = 0;
    while i < total
        invariant
            total == files@.len(),
            i <= total,
            count as nat == count_matching_either(files@.subrange(0, i as int), p1@, p2@),
            count <= i,
        decreases total - i,
    {
        if exec_file_has(&files[i], p1) || exec_file_has(&files[i], p2) {
            count = count + 1;
        }
        proof {
            lemma_count_either_snoc(files@, i as int, p1@, p2@);
        }
        i = i + 1;
    }
    proof {
        assert(files@.subrange(0, total as int) =~= files@);
    }
    count
}

/// Sums the regex matches of `pattern` over the population, stopping at the
/// largest machine word.
pub fn count_occurrences(files: &Vec<ProjectFile>, pattern: &str) -> (n: usize)
    ensures
        n as nat == clamped(occ_total(files@, pattern@)),
{
    let total = files.len();
    let mut count: usize = 0;
    let mut i: usize = 0;
    while i < total
        invariant
            total == files@.len(),
            i <= total,
            count as nat == clamped(occ_total(files@.subrange(0, i as int), pattern@)),
        decreases total - i,
    {
        match &files[i].content {
            Some(c) => {
                match regex_count_matches(pattern, c.as_str()) {
                    Some(k) => {
                        count = add_clamped(count, k);
                    },
                    None => {
                    },
                }
            },
            None => {
            },
        }
        proof {
            lemma_occ_snoc(files@, i as int, pattern@);
        }
        i = i + 1;
    }
    proof {
        assert(files@.subrange(0, total as int) =~= files@);
    }
    count
}

} // verus!
