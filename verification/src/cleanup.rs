//! Which entries of the tool's root directory are stale.

use vstd::prelude::*;
use vstd::string::*;

verus! {

/// The names of a listing, each by its view.
pub open spec fn names_view(names: Seq<String>) -> Seq<Seq<char>> {
    Seq::new(names.len(), |i: int| names[i]@)
}

/// The entries to remove: every listed name but that of the installed
/// version, in the order of the listing.
pub open spec fn stale_entries_spec(names: Seq<Seq<char>>, version: Seq<char>) -> Seq<Seq<char>> {
    names.filter(is_stale(version))
}

/// The test that tells a stale entry from the installed version's directory.
pub open spec fn is_stale(version: Seq<char>) -> spec_fn(Seq<char>) -> bool {
    |n: Seq<char>| n != version
}

/// Picks the stale entries out of a listing of the tool's root.
pub fn stale_entries(names: &Vec<String>, version: &str) -> (stale: Vec<String>)
    ensures
        names_view(stale@) == stale_entries_spec(names_view(names@), version@),
{
    let ghost keep = is_stale(version@);
    let target = String::from_str(version);
    let ghost all = names_view(names@);
    let mut stale: Vec<String> = Vec::new();
    let mut i: usize = 0;
    proof {
        reveal(Seq::filter);
        assert(names_view(stale@) =~= all.take(0).filter(keep));
    }
    while i < names.len()
        invariant
            i <= names.len(),
            all == names_view(names@),
            keep == is_stale(version@),
            target@ == version@,
            names_view(stale@) == all.take(i as int).filter(keep),
        decreases names.len() - i,
    {
        let ghost before = names_view(stale@);
        proof {
            reveal(Seq::filter);
            assert(all.take(i + 1).drop_last() =~= all.take(i as int));
        }
        if !(names[i] == target) {
            stale.push(names[i].clone());
            assert(names_view(stale@) =~= before.push(names@[i as int]@));
        }
        i += 1;
    }
    proof {
        assert(all.take(names.len() as int) =~= all);
    }
    stale
}

/// After cleanup a name is gone exactly if it was listed and is not the
/// installed version: the version's directory is never among the stale
/// entries, and every other listed entry is.
pub proof fn lemma_stale_entries(names: Seq<Seq<char>>, version: Seq<char>, n: Seq<char>)
    ensures
        stale_entries_spec(names, version).contains(n) <==> (names.contains(n) && n != version),
        !stale_entries_spec(names, version).contains(version),
{
    let keep = is_stale(version);
    let out = names.filter(keep);
    if out.contains(n) {
        names.lemma_filter_contains_rev(keep, n);
        let i = choose|i: int| 0 <= i < out.len() && out[i] == n;
        names.lemma_filter_pred(keep, i);
    }
    if names.contains(n) && n != version {
        let i = choose|i: int| 0 <= i < names.len() && names[i] == n;
        names.lemma_filter_contains(keep, i);
    }
    if out.contains(version) {
        let i = choose|i: int| 0 <= i < out.len() && out[i] == version;
        names.lemma_filter_pred(keep, i);
    }
}

} // verus!
