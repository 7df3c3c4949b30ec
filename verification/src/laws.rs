//! Laws of the analysis, stated and proved against the report model.

use vstd::prelude::*;
use crate::analyzer::{danger_warnings, file_danger_warnings, security_report, spec_analyze_all};
use crate::checks::file_has;
use crate::report::ReportView;
use crate::text::ends_with;
use crate::tree::{
    collect_entries, collect_entry, excluded_dir, name_matches, Directory, Entry, ProjectFile,
};

verus! {

/// The canonical category name at position `i` of the report list.
pub open spec fn category_name(i: int) -> Seq<char> {
    if i == 0 {
        "UI screens"@
    } else if i == 1 {
        "Data storage"@
    } else if i == 2 {
        "API"@
    } else if i == 3 {
        "Authentication"@
    } else if i == 4 {
        "Session management"@
    } else if i == 5 {
        "Security"@
    } else if i == 6 {
        "State management"@
    } else if i == 7 {
        "Routing"@
    } else if i == 8 {
        "UI design system"@
    } else if i == 9 {
        "Error handling"@
    } else {
        "Performance"@
    }
}

/// Whatever the project holds, the analysis yields exactly eleven reports,
/// in the canonical category order, each with status "OK" and no errors.
pub proof fn lemma_report_list_shape(root: Seq<Entry>)
    ensures
        spec_analyze_all(root).len() == 11,
        forall|i: int| 0 <= i < 11 ==> #[trigger] spec_analyze_all(root)[i].category
            == category_name(i),
        forall|i: int| 0 <= i < 11 ==> #[trigger] spec_analyze_all(root)[i].status == "OK"@,
        forall|i: int| 0 <= i < 11 ==> #[trigger] spec_analyze_all(root)[i].errors
            == Seq::<Seq<char>>::empty(),
{
    let all = spec_analyze_all(root);
    assert forall|i: int| 0 <= i < 11 implies #[trigger] all[i].category == category_name(i)
        && all[i].status == "OK"@ && all[i].errors == Seq::<Seq<char>>::empty() by {
        if i == 0 {
            assert(all[0].category == category_name(0));
        } else if i == 1 {
            assert(all[1].category == category_name(1));
        } else if i == 2 {
            assert(all[2].category == category_name(2));
        } else if i == 3 {
            assert(all[3].category == category_name(3));
        } else if i == 4 {
            assert(all[4].category == category_name(4));
        } else if i == 5 {
            assert(all[5].category == category_name(5));
        } else if i == 6 {
            assert(all[6].category == category_name(6));
        } else if i == 7 {
            assert(all[7].category == category_name(7));
        } else if i == 8 {
            assert(all[8].category == category_name(8));
        } else if i == 9 {
            assert(all[9].category == category_name(9));
        } else {
            assert(all[10].category == category_name(10));
        }
    }
}

/// No file stands anywhere under this entry.
pub open spec fn entry_has_no_files(e: Entry) -> bool
    decreases e,
{
    match e {
        Entry::File(f) => false,
        Entry::Dir(d) => entries_have_no_files(d.entries@),
    }
}

/// No file stands anywhere under this run of entries.
pub open spec fn entries_have_no_files(es: Seq<Entry>) -> bool
    decreases es,
{
    es.len() == 0 || (entry_has_no_files(es.last()) && entries_have_no_files(es.drop_last()))
}

/// A tree without files yields an empty population for every extension.
pub proof fn lemma_no_files_empty_population(es: Seq<Entry>, ext: Seq<char>)
    requires
        entries_have_no_files(es),
    ensures
        collect_entries(es, ext) == Seq::<ProjectFile>::empty(),
    decreases es,
{
    if es.len() > 0 {
        lemma_no_files_empty_entry(es.last(), ext);
        lemma_no_files_empty_population(es.drop_last(), ext);
        assert(collect_entries(es, ext) =~= Seq::<ProjectFile>::empty());
    }
}

proof fn lemma_no_files_empty_entry(e: Entry, ext: Seq<char>)
    requires
        entry_has_no_files(e),
    ensures
        collect_entry(e, ext) == Seq::<ProjectFile>::empty(),
    decreases e,
{
    match e {
        Entry::File(f) => {
        },
        Entry::Dir(d) => {
            if !excluded_dir(d.name@) {
                lemma_no_files_empty_population(d.entries@, ext);
            }
        },
    }
}

/// On a project without files the analysis equals the analysis of the empty
/// tree — every presence check is absent, every count is zero — and every
/// category that warns on absence carries a warning; only the design-system
/// category, which never warns, stays silent.
pub proof fn lemma_empty_project(root: Seq<Entry>)
    requires
        entries_have_no_files(root),
    ensures
        spec_analyze_all(root) == spec_analyze_all(Seq::<Entry>::empty()),
        forall|i: int| 0 <= i < 11 && i != 8 ==> #[trigger] spec_analyze_all(
            root,
        )[i].warnings.len() > 0,
        spec_analyze_all(root)[8].warnings.len() == 0,
{
    lemma_no_files_empty_population(root, "html"@);
    lemma_no_files_empty_population(root, "component.ts"@);
    lemma_no_files_empty_population(root, "css"@);
    lemma_no_files_empty_population(root, "scss"@);
    lemma_no_files_empty_population(root, "ts"@);
    let nothing = Seq::<ProjectFile>::empty();
    assert(collect_entries(Seq::<Entry>::empty(), "html"@) == nothing);
    assert(collect_entries(Seq::<Entry>::empty(), "component.ts"@) == nothing);
    assert(collect_entries(Seq::<Entry>::empty(), "css"@) == nothing);
    assert(collect_entries(Seq::<Entry>::empty(), "scss"@) == nothing);
    assert(collect_entries(Seq::<Entry>::empty(), "ts"@) == nothing);
    assert(spec_analyze_all(root) =~~= spec_analyze_all(Seq::<Entry>::empty()));
    let all = spec_analyze_all(root);
    assert(danger_warnings(nothing) == Seq::<Seq<char>>::empty());
    assert(all[0].warnings.len() > 0);
    assert(all[1].warnings.len() > 0);
    assert(all[2].warnings.len() > 0);
    assert(all[3].warnings.len() > 0);
    assert(all[4].warnings.len() > 0);
    assert(all[5].warnings =~~= danger_warnings(nothing) + seq![
        "input sanitization is not confirmed"@,
    ]);
    assert(all[5].warnings.len() > 0);
    assert(all[6].warnings.len() > 0);
    assert(all[7].warnings.len() > 0);
    assert(all[8].warnings.len() == 0);
    assert(all[9].warnings.len() > 0);
    assert(all[10].warnings.len() > 0);
    assert forall|i: int| 0 <= i < 11 && i != 8 implies #[trigger] all[i].warnings.len() > 0 by {
        if i == 0 {
            assert(all[0].warnings.len() > 0);
        } else if i == 1 {
            assert(all[1].warnings.len() > 0);
        } else if i == 2 {
            assert(all[2].warnings.len() > 0);
        } else if i == 3 {
            assert(all[3].warnings.len() > 0);
        } else if i == 4 {
            assert(all[4].warnings.len() > 0);
        } else if i == 5 {
            assert(all[5].warnings.len() > 0);
        } else if i == 6 {
            assert(all[6].warnings.len() > 0);
        } else if i == 7 {
            assert(all[7].warnings.len() > 0);
        } else if i == 9 {
            assert(all[9].warnings.len() > 0);
        } else {
            assert(all[10].warnings.len() > 0);
        }
    }
}

/// An excluded directory contributes no file to any population, whatever
/// stands inside it.
pub proof fn lemma_excluded_dir_contributes_nothing(d: Directory, ext: Seq<char>)
    requires
        excluded_dir(d.name@),
    ensures
        collect_entry(Entry::Dir(d), ext) == Seq::<ProjectFile>::empty(),
{
}

/// Collection distributes over concatenation of entry runs.
pub proof fn lemma_collect_concat(s1: Seq<Entry>, s2: Seq<Entry>, ext: Seq<char>)
    ensures
        collect_entries(s1 + s2, ext) == collect_entries(s1, ext) + collect_entries(s2, ext),
    decreases s2.len(),
{
    if s2.len() == 0 {
        assert(s1 + s2 =~= s1);
        assert(collect_entries(s1, ext) + collect_entries(s2, ext) =~= collect_entries(s1, ext));
    } else {
        lemma_collect_concat(s1, s2.drop_last(), ext);
        assert((s1 + s2).drop_last() =~= s1 + s2.drop_last());
        assert((s1 + s2).last() == s2.last());
        assert(collect_entries(s1 + s2, ext) =~= collect_entries(s1, ext) + collect_entries(
            s2,
            ext,
        ));
    }
}

/// Dropping an excluded directory from a run of entries changes no
/// population: files placed under the dependency cache or under a
/// dot-prefixed directory are never counted.
pub proof fn lemma_excluded_dir_ignored(
    before: Seq<Entry>,
    d: Directory,
    after: Seq<Entry>,
    ext: Seq<char>,
)
    requires
        excluded_dir(d.name@),
    ensures
        collect_entries(before + seq![Entry::Dir(d)] + after, ext) == collect_entries(
            before + after,
            ext,
        ),
{
    lemma_collect_concat(before + seq![Entry::Dir(d)], after, ext);
    lemma_collect_concat(before, seq![Entry::Dir(d)], ext);
    lemma_collect_concat(before, after, ext);
    let single = seq![Entry::Dir(d)];
    assert(single.drop_last() =~= Seq::<Entry>::empty());
    assert(single.last() == Entry::Dir(d));
    assert(collect_entries(Seq::<Entry>::empty(), ext) == Seq::<ProjectFile>::empty());
    assert(collect_entries(single, ext) =~= collect_entry(Entry::Dir(d), ext));
    assert(collect_entries(before + single + after, ext) =~= collect_entries(before + after, ext));
}

/// A name in the compound-suffix population is also in the plain
/// population: whatever ends with the component suffix ends with the plain
/// suffix.
pub proof fn lemma_compound_suffix_subsumed(name: Seq<char>)
    ensures
        name_matches(name, "component.ts"@) ==> name_matches(name, "ts"@),
{
    reveal_strlit("component.ts");
    reveal_strlit("ts");
    if name_matches(name, "component.ts"@) {
        let big = seq!['.'] + "component.ts"@;
        let small = seq!['.'] + "ts"@;
        let nl = name.len() as int;
        assert forall|k: int| 0 <= k < small.len() implies name[nl - small.len() + k] == small[k]
            by {
            assert(name[nl - big.len() + (10 + k)] == big[10 + k]);
        }
        assert(ends_with(name, small));
    }
}

/// Two analyses of one unmodified tree are one value: the report list is a
/// function of the tree alone, so a second run yields identical content.
pub proof fn lemma_analysis_deterministic(
    root: Seq<Entry>,
    r1: Seq<ReportView>,
    r2: Seq<ReportView>,
)
    requires
        r1 == spec_analyze_all(root),
        r2 == spec_analyze_all(root),
    ensures
        r1 == r2,
{
}

proof fn lemma_danger_warning_present(ts: Seq<ProjectFile>, i: int)
    requires
        0 <= i < ts.len(),
        file_has(ts[i], "innerHTML"@),
    ensures
        danger_warnings(ts).contains("innerHTML assignment was detected: XSS risk"@),
    decreases ts.len(),
{
    let w = "innerHTML assignment was detected: XSS risk"@;
    if i == ts.len() - 1 {
        assert(file_danger_warnings(ts.last())[0] == w);
        let base = danger_warnings(ts.drop_last());
        assert(danger_warnings(ts)[base.len() as int] == w);
    } else {
        lemma_danger_warning_present(ts.drop_last(), i);
        let base = danger_warnings(ts.drop_last());
        let j = choose|j: int| 0 <= j < base.len() && base[j] == w;
        assert(danger_warnings(ts)[j] == w);
    }
}

/// A file that shows the direct-HTML-assignment primitive puts the specific
/// risk warning in the security report, whatever else the project holds.
pub proof fn lemma_risk_flagged(ts: Seq<ProjectFile>, i: int)
    requires
        0 <= i < ts.len(),
        file_has(ts[i], "innerHTML"@),
    ensures
        security_report(ts).warnings.contains("innerHTML assignment was detected: XSS risk"@),
{
    let w = "innerHTML assignment was detected: XSS risk"@;
    lemma_danger_warning_present(ts, i);
    let base = danger_warnings(ts);
    let j = choose|j: int| 0 <= j < base.len() && base[j] == w;
    assert(security_report(ts).warnings[j] == w);
}

} // verus!
