//! Merge engine: orders the entries by natural name order, keeps the merge
//! candidates, requires each candidate to be valid UTF-8, and concatenates
//! their texts after the timestamp header, each preceded by a newline. The
//! whole merge fails on the first candidate that is not valid UTF-8, and the
//! error names that file's path; no partial result is returned.

use vstd::prelude::*;
use vstd::string::StringExecFns;
use vstd::utf8::{decode_utf8, valid_utf8};
use crate::classify::{is_sql_file, is_sql_name};
use crate::encoding::decode_text;
use crate::entry::{EntryV, FileEntry, views_of};
use crate::natural::{sort_by_name, sort_entries};
use crate::timestamp::{format_header, header_chars, Timestamp};

verus! {

/// Why a merge failed.
#[derive(Debug, Clone, PartialEq)]
pub enum MergeError {
    /// A merge candidate's byte content is not valid UTF-8; carries the
    /// offending file's path.
    NotUtf8 { path: String },
}

/// The entries that the classifier accepts, in the order given.
pub open spec fn candidates(s: Seq<EntryV>) -> Seq<EntryV>
    decreases s.len(),
{
    if s.len() == 0 {
        s
    } else if is_sql_name(s.last().name) {
        candidates(s.drop_last()).push(s.last())
    } else {
        candidates(s.drop_last())
    }
}

/// The first entry, in the order given, that the classifier accepts but
/// whose content is not valid UTF-8; `None` when every candidate is valid.
pub open spec fn first_invalid(s: Seq<EntryV>) -> Option<EntryV>
    decreases s.len(),
{
    if s.len() == 0 {
        None
    } else if is_sql_name(s.first().name) && !valid_utf8(s.first().content) {
        Some(s.first())
    } else {
        first_invalid(s.drop_first())
    }
}

/// The concatenation of the entries' decoded texts, each preceded by one
/// newline.
pub open spec fn concat_contents(s: Seq<EntryV>) -> Seq<char>
    decreases s.len(),
{
    if s.len() == 0 {
        Seq::empty()
    } else {
        concat_contents(s.drop_last()) + seq!['\n'] + decode_utf8(s.last().content)
    }
}

/// What a merge of the given entries under the given header line comes to:
/// the header followed by the candidates' texts in natural name order, or
/// the path of the first candidate in that order whose content is not valid
/// UTF-8.
pub open spec fn merge_outcome(s: Seq<EntryV>, header: Seq<char>) -> Result<Seq<char>, Seq<char>> {
    let sorted = sort_by_name(s);
    match first_invalid(sorted) {
        Some(e) => Err(e.path),
        None => Ok(header + concat_contents(candidates(sorted))),
    }
}

proof fn lemma_first_invalid_step(s: Seq<EntryV>, i: int)
    requires
        0 <= i < s.len(),
        first_invalid(s.take(i)) is None,
        !(is_sql_name(s[i].name) && !valid_utf8(s[i].content)),
    ensures
        first_invalid(s.take(i + 1)) is None,
    decreases i,
{
    if i == 0 {
        assert(s.take(1).drop_first() =~= s.take(0));
    } else {
        assert(s.take(i).first() == s[0]);
        assert(s.take(i).drop_first() =~= s.drop_first().take(i - 1));
        lemma_first_invalid_step(s.drop_first(), i - 1);
        assert(s.take(i + 1).first() == s[0]);
        assert(s.take(i + 1).drop_first() =~= s.drop_first().take(i));
    }
}

proof fn lemma_first_invalid_found(s: Seq<EntryV>, i: int)
    requires
        0 <= i < s.len(),
        first_invalid(s.take(i)) is None,
        is_sql_name(s[i].name),
        !valid_utf8(s[i].content),
    ensures
        first_invalid(s) == Some(s[i]),
    decreases i,
{
    if i == 0 {
        assert(s.first() == s[0]);
    } else {
        assert(s.take(i).first() == s[0]);
        assert(s.take(i).drop_first() =~= s.drop_first().take(i - 1));
        lemma_first_invalid_found(s.drop_first(), i - 1);
        assert(s.first() == s[0]);
        assert(s.drop_first()[i - 1] == s[i]);
    }
}

/// Merges the given directory entries into one text document under the
/// given timestamp: the header line, then, for each accepted file in
/// natural order of the base names, a newline and the file's text. Fails,
/// returning no text at all, exactly when some accepted file's content is
/// not valid UTF-8, and then names the first such file's path.
pub fn merge_sql_files(entries: Vec<FileEntry>, ts: &Timestamp) -> (r: Result<String, MergeError>)
    requires
        ts.wf(),
    ensures
        ({
            let outcome = merge_outcome(views_of(entries@), header_chars(*ts));
            match r {
                Ok(out) => outcome == Ok::<Seq<char>, Seq<char>>(out@),
                Err(e) => e matches MergeError::NotUtf8 { path } && outcome == Err::<
                    Seq<char>,
                    Seq<char>,
                >(path@),
            }
        }),
{
    let ghost sv = sort_by_name(views_of(entries@));
    let mut merged = format_header(ts);
    let sorted = sort_entries(entries);
    let n = sorted.len();
    let mut i: usize = 0;
    proof {
        assert(sv.take(0) =~= Seq::<EntryV>::empty());
        assert(candidates(sv.take(0)) =~= Seq::<EntryV>::empty());
        assert(merged@ =~= header_chars(*ts) + concat_contents(candidates(sv.take(0))));
    }
    #[verifier::loop_isolation(false)]
    while i < n
        invariant
            n == sorted.len(),
            views_of(sorted@) == sv,
            sv.len() == n,
            i <= n,
            first_invalid(sv.take(i as int)) is None,
            merged@ == header_chars(*ts) + concat_contents(candidates(sv.take(i as int))),
        decreases n - i,
    {
        let e = &sorted[i];
        proof {
            assert(sv[i as int] == sorted@[i as int]@);
        }
        if is_sql_file(e.name.as_str()) {
            match decode_text(e.content.as_slice()) {
                Some(text) => {
                    merged.append("\n");
                    merged.append(text.as_str());
                    proof {
                        reveal_strlit("\n");
                        assert("\n"@ =~= seq!['\n']);
                        let t0 = sv.take(i as int);
                        let t1 = sv.take(i as int + 1);
                        assert(t1.drop_last() =~= t0);
                        assert(t1.last() == sv[i as int]);
                        assert(candidates(t1) == candidates(t0).push(sv[i as int]));
                        assert(candidates(t0).push(sv[i as int]).drop_last() =~= candidates(t0));
                        assert(concat_contents(candidates(t1)) == concat_contents(candidates(t0))
                            + seq!['\n'] + decode_utf8(sv[i as int].content));
                        assert(merged@ =~= header_chars(*ts) + concat_contents(candidates(t1)));
                        lemma_first_invalid_step(sv, i as int);
                    }
                },
                None => {
                    proof {
                        lemma_first_invalid_found(sv, i as int);
                    }
                    return Err(MergeError::NotUtf8 { path: e.path.clone() });
                },
            }
        } else {
            proof {
                let t0 = sv.take(i as int);
                let t1 = sv.take(i as int + 1);
                assert(t1.drop_last() =~= t0);
                assert(t1.last() == sv[i as int]);
                assert(candidates(t1) == candidates(t0));
                lemma_first_invalid_step(sv, i as int);
            }
        }
        i = i + 1;
    }
    proof {
        assert(sv.take(n as int) =~= sv);
    }
    Ok(merged)
}

} // verus!
