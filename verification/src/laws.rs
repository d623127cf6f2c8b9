//! Laws of the merge, stated and proved over the same specification
//! functions that the executable functions' contracts use.

use vstd::prelude::*;
use vstd::seq_lib::*;
use vstd::utf8::valid_utf8;
use crate::classify::is_sql_name;
use crate::entry::EntryV;
use crate::merge::{candidates, concat_contents, first_invalid, merge_outcome};
use crate::natural::{lemma_sort_multiset, sort_by_name};

verus! {

proof fn lemma_candidates_id(s: Seq<EntryV>)
    requires
        forall|i: int| 0 <= i < s.len() ==> is_sql_name(#[trigger] s[i].name),
    ensures
        candidates(s) == s,
    decreases s.len(),
{
    if s.len() == 0 {
        assert(candidates(s) =~= s);
    } else {
        lemma_candidates_id(s.drop_last());
        assert(candidates(s) == candidates(s.drop_last()).push(s.last()));
        assert(s.drop_last().push(s.last()) =~= s);
    }
}

proof fn lemma_first_invalid_none_of_valid(s: Seq<EntryV>)
    requires
        forall|i: int|
            0 <= i < s.len() && is_sql_name(#[trigger] s[i].name) ==> valid_utf8(s[i].content),
    ensures
        first_invalid(s) is None,
    decreases s.len(),
{
    if s.len() == 0 {
    } else {
        assert(s.first() == s[0]);
        assert forall|i: int|
            0 <= i < s.drop_first().len() && is_sql_name(
                #[trigger] s.drop_first()[i].name,
            ) implies valid_utf8(s.drop_first()[i].content) by {
            assert(s.drop_first()[i] == s[i + 1]);
        }
        lemma_first_invalid_none_of_valid(s.drop_first());
    }
}

proof fn lemma_first_invalid_none_all_valid(s: Seq<EntryV>)
    requires
        first_invalid(s) is None,
    ensures
        forall|i: int|
            0 <= i < s.len() && is_sql_name(#[trigger] s[i].name) ==> valid_utf8(s[i].content),
    decreases s.len(),
{
    if s.len() == 0 {
    } else {
        lemma_first_invalid_none_all_valid(s.drop_first());
        assert forall|i: int|
            0 <= i < s.len() && is_sql_name(#[trigger] s[i].name) implies valid_utf8(
            s[i].content,
        ) by {
            if i == 0 {
                assert(s.first() == s[0]);
            } else {
                assert(s.drop_first()[i - 1] == s[i]);
            }
        }
    }
}

proof fn lemma_first_invalid_some_props(s: Seq<EntryV>)
    requires
        first_invalid(s) is Some,
    ensures
        ({
            let v = first_invalid(s).unwrap();
            s.contains(v) && is_sql_name(v.name) && !valid_utf8(v.content)
        }),
    decreases s.len(),
{
    if is_sql_name(s.first().name) && !valid_utf8(s.first().content) {
        assert(s[0] == s.first());
        assert(s.contains(s.first()));
    } else {
        lemma_first_invalid_some_props(s.drop_first());
        let v = first_invalid(s).unwrap();
        let k = choose|k: int| 0 <= k < s.drop_first().len() && s.drop_first()[k] == v;
        assert(s[k + 1] == v);
        assert(s.contains(v));
    }
}

/// Law: for a directory of nothing but valid-UTF-8 SQL files, none prefixed
/// `exec`, the merge succeeds, and the output is the header followed by each
/// file's text in natural order of the names, each preceded by a newline.
pub proof fn lemma_merge_all_valid(s: Seq<EntryV>, header: Seq<char>)
    requires
        forall|i: int|
            0 <= i < s.len() ==> is_sql_name(#[trigger] s[i].name) && valid_utf8(s[i].content),
    ensures
        merge_outcome(s, header) == Ok::<Seq<char>, Seq<char>>(
            header + concat_contents(sort_by_name(s)),
        ),
{
    let sorted = sort_by_name(s);
    lemma_sort_multiset(s);
    s.to_multiset_ensures();
    sorted.to_multiset_ensures();
    assert forall|i: int|
        0 <= i < sorted.len() implies is_sql_name(#[trigger] sorted[i].name) && valid_utf8(
        sorted[i].content,
    ) by {
        let x = sorted[i];
        assert(sorted.contains(x));
        assert(s.to_multiset().count(x) > 0);
        assert(s.contains(x));
        let j = choose|j: int| 0 <= j < s.len() && s[j] == x;
        assert(is_sql_name(s[j].name) && valid_utf8(s[j].content));
    }
    lemma_candidates_id(sorted);
    lemma_first_invalid_none_of_valid(sorted);
}

/// Law: the outcome of a merge is a function of the entries' values and of
/// the header line alone, so merging the same directory twice with the same
/// injected timestamp yields identical output.
pub proof fn lemma_merge_deterministic(a: Seq<EntryV>, b: Seq<EntryV>, h1: Seq<char>, h2: Seq<char>)
    requires
        a == b,
        h1 == h2,
    ensures
        merge_outcome(a, h1) == merge_outcome(b, h2),
{
}

/// Law: only names the classifier accepts stand among the candidates, so a
/// file whose name starts with `exec`, or whose extension is not `sql`, is
/// never part of the concatenation, whatever its content or its position.
pub proof fn lemma_candidates_classified(s: Seq<EntryV>)
    ensures
        forall|i: int| 0 <= i < candidates(s).len() ==> is_sql_name(
            #[trigger] candidates(s)[i].name,
        ),
    decreases s.len(),
{
    if s.len() == 0 {
    } else {
        lemma_candidates_classified(s.drop_last());
        if is_sql_name(s.last().name) {
            assert forall|i: int| 0 <= i < candidates(s).len() implies is_sql_name(
                #[trigger] candidates(s)[i].name,
            ) by {
                if i < candidates(s).len() - 1 {
                    assert(candidates(s)[i] == candidates(s.drop_last())[i]);
                } else {
                    assert(candidates(s)[i] == s.last());
                }
            }
        }
    }
}

/// Law: when some accepted file's content is not valid UTF-8, the merge
/// fails outright — no text is produced — and the error names the path of a
/// file that is an invalid candidate.
pub proof fn lemma_invalid_candidate_fails(s: Seq<EntryV>, header: Seq<char>, i: int)
    requires
        0 <= i < s.len(),
        is_sql_name(s[i].name),
        !valid_utf8(s[i].content),
    ensures
        merge_outcome(s, header) is Err,
        merge_outcome(s, header) matches Err(p) ==> exists|j: int|
            0 <= j < s.len() && #[trigger] s[j].path == p && is_sql_name(s[j].name)
                && !valid_utf8(s[j].content),
{
    let sorted = sort_by_name(s);
    lemma_sort_multiset(s);
    s.to_multiset_ensures();
    sorted.to_multiset_ensures();
    assert(s.contains(s[i]));
    assert(sorted.to_multiset().count(s[i]) > 0);
    assert(sorted.contains(s[i]));
    if first_invalid(sorted) is None {
        lemma_first_invalid_none_all_valid(sorted);
        let k = choose|k: int| 0 <= k < sorted.len() && sorted[k] == s[i];
        assert(is_sql_name(sorted[k].name));
        assert(false);
    }
    lemma_first_invalid_some_props(sorted);
    let v = first_invalid(sorted).unwrap();
    assert(sorted.to_multiset().count(v) > 0);
    assert(s.contains(v));
    let j = choose|j: int| 0 <= j < s.len() && s[j] == v;
    assert(s[j].path == v.path && is_sql_name(s[j].name) && !valid_utf8(s[j].content));
}

} // verus!
