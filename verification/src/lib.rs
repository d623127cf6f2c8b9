//! Merge the SQL scripts found directly inside a directory into one text
//! document: entries are ordered by natural comparison of their file names,
//! only files with the `sql` extension and without the `exec` name prefix are
//! taken, every taken file must be valid UTF-8, and the result is prefixed
//! with a fixed-width timestamp header line.

mod classify;
mod encoding;
mod entry;
mod laws;
mod merge;
mod natural;
mod timestamp;

pub use classify::{has_sql_extension, is_sql_file, is_sql_name, starts_with_exec};
pub use encoding::{decode_text, is_valid_utf8};
pub use entry::{EntryV, FileEntry, views_of};
pub use laws::{
    lemma_candidates_classified, lemma_invalid_candidate_fails, lemma_merge_all_valid,
    lemma_merge_deterministic,
};
pub use merge::{candidates, concat_contents, first_invalid, merge_outcome, merge_sql_files, MergeError};
pub use natural::{
    insert_by_name, lemma_insert_multiset, lemma_sort_multiset, natural_le, sort_by_name,
    sort_entries,
};
pub use timestamp::{digit_char, format_header, four_digits, header_chars, two_digits, Timestamp};
