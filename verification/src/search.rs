//! The search over program names: a query keeps the programs whose name
//! contains it, letter case aside, in the order of the catalog.

use crate::catalog::{Category, CategoryView, ProgramView};
use crate::text::{contains_text, folded, is_substring, lemma_empty_is_substring};
use vstd::prelude::*;

verus! {

/// One search result as plain values: the category's name, the program's
/// name and the program's script.
pub type MatchView = (Seq<char>, Seq<char>, Seq<char>);

/// Whether a program of this name is kept by the query.
pub open spec fn name_matches(name: Seq<char>, query: Seq<char>) -> bool {
    is_substring(folded(query), folded(name))
}

/// The programs of one category as search entries, in their order.
pub open spec fn entries_of(category: CategoryView) -> Seq<MatchView> {
    category.programs.map_values(|p: ProgramView| (category.name, p.name, p.script))
}

/// Every program of the catalog as a search entry, in catalog order.
pub open spec fn all_entries(catalog: Seq<CategoryView>) -> Seq<MatchView> {
    catalog.map_values(|c: CategoryView| entries_of(c)).flatten()
}

/// The entries that a query keeps; their order is that of the catalog.
pub open spec fn search(catalog: Seq<CategoryView>, query: Seq<char>) -> Seq<MatchView> {
    all_entries(catalog).filter(|e: MatchView| name_matches(e.1, query))
}

/// The categories of a slice as plain values.
pub open spec fn categories_view(categories: Seq<Category>) -> Seq<CategoryView> {
    categories.map_values(|c: Category| c@)
}

proof fn lemma_all_entries_push(catalog: Seq<CategoryView>, category: CategoryView)
    ensures
        all_entries(catalog.push(category)) == all_entries(catalog) + entries_of(category),
{
    let f = |c: CategoryView| entries_of(c);
    assert(catalog.push(category).map_values(f) =~= catalog.map_values(f).push(
        entries_of(category),
    ));
    catalog.map_values(f).lemma_flatten_push(entries_of(category));
}

proof fn lemma_search_push(catalog: Seq<CategoryView>, category: CategoryView, query: Seq<char>)
    ensures
        search(catalog.push(category), query) == search(catalog, query) + entries_of(
            category,
        ).filter(|e: MatchView| name_matches(e.1, query)),
{
    lemma_all_entries_push(catalog, category);
    Seq::filter_distributes_over_add(
        all_entries(catalog),
        entries_of(category),
        |e: MatchView| name_matches(e.1, query),
    );
}

/// Whether a program is kept, given its lower-cased name and the lower-cased
/// query.
pub fn keeps(lowered_name: &str, lowered_query: &str) -> (r: bool)
    ensures
        r == is_substring(lowered_query@, lowered_name@),
{
    contains_text(lowered_name, lowered_query)
}

/// Replaces `filtered_programs` by the result of the search: for every
/// program whose lower-cased name contains the lower-cased query, the name
/// of its category, its own name and its script, in catalog order.
pub fn update_filtered_programs(
    categories: &[Category],
    search_query: &str,
    filtered_programs: &mut Vec<(String, String, String)>,
)
    ensures
        final(filtered_programs).deep_view() == search(
            categories_view(categories@),
            search_query@,
        ),
{
    let ghost catalog = categories_view(categories@);
    let ghost keep = |e: MatchView| name_matches(e.1, search_query@);
    let needle = search_query.to_lowercase();
    filtered_programs.clear();
    proof {
        reveal(Seq::filter);
        assert(catalog.take(0).map_values(|c: CategoryView| entries_of(c)) =~= Seq::empty());
        assert(filtered_programs.deep_view() =~= search(catalog.take(0), search_query@));
    }
    let mut i: usize = 0;
    while i < categories.len()
        invariant
            i <= categories.len(),
            catalog == categories_view(categories@),
            keep == |e: MatchView| name_matches(e.1, search_query@),
            needle@ == folded(search_query@),
            filtered_programs.deep_view() == search(catalog.take(i as int), search_query@),
        decreases categories.len() - i,
    {
        let category = &categories[i];
        let ghost before = filtered_programs.deep_view();
        let ghost entries = entries_of(catalog[i as int]);
        proof {
            assert(entries.take(0).filter(keep) =~= Seq::empty()) by {
                reveal(Seq::filter);
            }
            assert(filtered_programs.deep_view() =~= before + entries.take(0).filter(keep));
        }
        let mut j: usize = 0;
        while j < category.programs.len()
            invariant
                j <= category.programs.len(),
                i < categories.len(),
                category == categories[i as int],
                catalog == categories_view(categories@),
                entries == entries_of(catalog[i as int]),
                keep == |e: MatchView| name_matches(e.1, search_query@),
                needle@ == folded(search_query@),
                filtered_programs.deep_view() == before + entries.take(j as int).filter(keep),
            decreases category.programs.len() - j,
        {
            let program = &category.programs[j];
            let lowered = program.name.to_lowercase();
            let ghost shown = filtered_programs.deep_view();
            let ghost entry = entries[j as int];
            proof {
                assert(entry == (category.name@, program.name@, program.script@));
                assert(entries.take(j as int + 1) =~= entries.take(j as int).push(entry));
                entries.take(j as int).lemma_filter_push(entry, keep);
            }
            if keeps(lowered.as_str(), needle.as_str()) {
                filtered_programs.push(
                    (category.name.clone(), program.name.clone(), program.script.clone()),
                );
                assert(filtered_programs.deep_view() =~= shown.push(entry));
            }
            j += 1;
        }
        proof {
            assert(entries.take(j as int) =~= entries);
            assert(catalog.take(i as int + 1) =~= catalog.take(i as int).push(catalog[i as int]));
            lemma_search_push(catalog.take(i as int), catalog[i as int], search_query@);
        }
        i += 1;
    }
    proof {
        assert(catalog.take(i as int) =~= catalog);
    }
}

/// Every program of the catalog has its entry among all entries.
pub proof fn lemma_entry_of_program(catalog: Seq<CategoryView>, c: int, p: int)
    requires
        crate::catalog::has_program(catalog, c, p),
    ensures
        all_entries(catalog).contains(
            (catalog[c].name, catalog[c].programs[p].name, catalog[c].programs[p].script),
        ),
    decreases catalog.len(),
{
    let head = catalog.drop_last();
    let entry = (catalog[c].name, catalog[c].programs[p].name, catalog[c].programs[p].script);
    assert(head.push(catalog.last()) =~= catalog);
    lemma_all_entries_push(head, catalog.last());
    let before = all_entries(head);
    let last = entries_of(catalog.last());
    if c == catalog.len() - 1 {
        assert(last[p] == entry);
        assert((before + last)[before.len() + p] == entry);
    } else {
        lemma_entry_of_program(head, c, p);
        let i = choose|i: int| 0 <= i < before.len() && before[i] == entry;
        assert((before + last)[i] == entry);
    }
}

/// A program is found exactly if it is in the catalog and its name contains
/// the query, letter case aside.
pub proof fn lemma_search_finds(catalog: Seq<CategoryView>, query: Seq<char>, entry: MatchView)
    ensures
        search(catalog, query).contains(entry) <==> all_entries(catalog).contains(entry)
            && name_matches(entry.1, query),
{
    let keep = |e: MatchView| name_matches(e.1, query);
    let all = all_entries(catalog);
    let found = all.filter(keep);
    if found.contains(entry) {
        let k = choose|k: int| 0 <= k < found.len() && found[k] == entry;
        all.lemma_filter_pred(keep, k);
        all.lemma_filter_contains_rev(keep, entry);
    }
    if all.contains(entry) && name_matches(entry.1, query) {
        let i = choose|i: int| 0 <= i < all.len() && all[i] == entry;
        all.lemma_filter_contains(keep, i);
    }
}

/// The empty query keeps every program of the catalog.
pub proof fn lemma_search_empty_query(catalog: Seq<CategoryView>)
    ensures
        search(catalog, Seq::<char>::empty()) == all_entries(catalog),
{
    let keep = |e: MatchView| name_matches(e.1, Seq::<char>::empty());
    let all = all_entries(catalog);
    assert forall|i: int| 0 <= i < all.len() implies keep(#[trigger] all[i]) by {
        lemma_empty_is_substring(folded(all[i].1));
    }
    lemma_filter_keeps_all(all, keep);
}

proof fn lemma_filter_keeps_all<A>(s: Seq<A>, keep: spec_fn(A) -> bool)
    requires
        forall|i: int| 0 <= i < s.len() ==> keep(#[trigger] s[i]),
    ensures
        s.filter(keep) == s,
    decreases s.len(),
{
    reveal(Seq::filter);
    if s.len() > 0 {
        lemma_filter_keeps_all(s.drop_last(), keep);
        assert(s.drop_last().push(s.last()) =~= s);
    }
}

} // verus!
