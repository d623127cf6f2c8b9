//! Natural sorter: orders entries by their base file names the way a human
//! would, with embedded digit runs compared by numeric value. The comparison
//! itself comes from the `alphanumeric-sort` crate; the sort around it is a
//! stable insertion sort, stated exactly at the specification level.

use vstd::prelude::*;
use vstd::seq_lib::*;
use crate::entry::{EntryV, FileEntry, views_of};

verus! {

/// What `alphanumeric_sort::compare_str` decides of two names: true when the
/// first compares less than or equal to the second in natural order. The
/// comparison walks the characters of its two arguments and nothing else, so
/// it is a function of the two character sequences alone.
pub uninterp spec fn natural_le(a: Seq<char>, b: Seq<char>) -> bool;

/// Relies on alphanumeric_sort::compare_str: the ordering it returns depends
/// on the characters of the two names alone.
#[verifier::external_body]
fn natural_le_exec(a: &str, b: &str) -> (r: bool)
    ensures
        r == natural_le(a@, b@),
{
    match alphanumeric_sort::compare_str(a, b) {
        core::cmp::Ordering::Less => true,
        core::cmp::Ordering::Equal => true,
        core::cmp::Ordering::Greater => false,
    }
}

/// Inserts an entry into a sorted sequence, behind every entry whose name is
/// less than or equal to its own; among equal names the new entry comes
/// last, which keeps the sort stable.
pub open spec fn insert_by_name(s: Seq<EntryV>, e: EntryV) -> Seq<EntryV>
    decreases s.len(),
{
    if s.len() == 0 {
        seq![e]
    } else if natural_le(s.last().name, e.name) {
        s.push(e)
    } else {
        insert_by_name(s.drop_last(), e).push(s.last())
    }
}

/// The stable sort of a sequence of entries by natural order of their names:
/// each entry in turn is inserted into the sorted prefix before it.
pub open spec fn sort_by_name(s: Seq<EntryV>) -> Seq<EntryV>
    decreases s.len(),
{
    if s.len() == 0 {
        s
    } else {
        insert_by_name(sort_by_name(s.drop_last()), s.last())
    }
}

/// Law: inserting adds exactly the one entry; nothing else appears or goes
/// away.
pub proof fn lemma_insert_multiset(s: Seq<EntryV>, e: EntryV)
    ensures
        insert_by_name(s, e).to_multiset() == s.to_multiset().insert(e),
    decreases s.len(),
{
    if s.len() == 0 {
        let empty = Seq::<EntryV>::empty();
        empty.to_multiset_ensures();
        assert(insert_by_name(s, e) =~= empty.push(e));
        assert(s =~= empty);
        assert(insert_by_name(s, e).to_multiset() =~= s.to_multiset().insert(e));
    } else if natural_le(s.last().name, e.name) {
        s.to_multiset_ensures();
        assert(s.push(e).to_multiset() =~= s.to_multiset().insert(e));
    } else {
        let dl = s.drop_last();
        let rec = insert_by_name(dl, e);
        lemma_insert_multiset(dl, e);
        rec.to_multiset_ensures();
        dl.to_multiset_ensures();
        assert(dl.push(s.last()) =~= s);
        assert(rec.push(s.last()).to_multiset() =~= rec.to_multiset().insert(s.last()));
        assert(dl.push(s.last()).to_multiset() =~= dl.to_multiset().insert(s.last()));
        assert(dl.to_multiset().insert(e).insert(s.last()) =~= dl.to_multiset().insert(
            s.last(),
        ).insert(e));
    }
}

/// Law: the sort is a permutation; the same entries come out that went in,
/// each as often as it went in.
pub proof fn lemma_sort_multiset(s: Seq<EntryV>)
    ensures
        sort_by_name(s).to_multiset() == s.to_multiset(),
    decreases s.len(),
{
    if s.len() == 0 {
    } else {
        let dl = s.drop_last();
        lemma_sort_multiset(dl);
        lemma_insert_multiset(sort_by_name(dl), s.last());
        dl.to_multiset_ensures();
        assert(dl.push(s.last()) =~= s);
        assert(dl.push(s.last()).to_multiset() =~= dl.to_multiset().insert(s.last()));
    }
}

fn insert_entry(v: Vec<FileEntry>, e: FileEntry) -> (r: Vec<FileEntry>)
    ensures
        views_of(r@) == insert_by_name(views_of(v@), e@),
    decreases v.len(),
{
    let ghost v0 = views_of(v@);
    let mut v = v;
    if v.len() == 0 {
        v.push(e);
        proof {
            assert(views_of(v@) =~= seq![e@]);
        }
        v
    } else {
        let le = natural_le_exec(v[v.len() - 1].name.as_str(), e.name.as_str());
        if le {
            v.push(e);
            proof {
                assert(views_of(v@) =~= v0.push(e@));
            }
            v
        } else {
            let last = v.pop().unwrap();
            proof {
                assert(views_of(v@) =~= v0.drop_last());
                assert(last@ == v0.last());
            }
            let mut r = insert_entry(v, e);
            let ghost r0 = views_of(r@);
            r.push(last);
            proof {
                assert(views_of(r@) =~= r0.push(last@));
            }
            r
        }
    }
}

/// Sorts the entries by natural order of their base file names; the sort is
/// stable, so entries with equal names keep their relative order.
pub fn sort_entries(entries: Vec<FileEntry>) -> (r: Vec<FileEntry>)
    ensures
        views_of(r@) == sort_by_name(views_of(entries@)),
    decreases entries.len(),
{
    let ghost v0 = views_of(entries@);
    let mut v = entries;
    match v.pop() {
        None => {
            proof {
                assert(views_of(v@) =~= v0);
            }
            v
        },
        Some(e) => {
            proof {
                assert(views_of(v@) =~= v0.drop_last());
                assert(e@ == v0.last());
            }
            let s = sort_entries(v);
            insert_entry(s, e)
        },
    }
}

} // verus!
