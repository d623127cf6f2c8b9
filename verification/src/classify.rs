//! File classifier: decides whether a directory entry, by its base file name,
//! qualifies as an input SQL file.

use vstd::prelude::*;
use vstd::string::StrSliceExecFns;

verus! {

/// True when the name begins with the literal prefix `exec`. Such files are
/// kept out of the merge even when their extension is `sql`, so that
/// maintenance scripts can sit in the same directory.
pub open spec fn starts_with_exec(name: Seq<char>) -> bool {
    &&& name.len() >= 4
    &&& name[0] == 'e'
    &&& name[1] == 'x'
    &&& name[2] == 'e'
    &&& name[3] == 'c'
}

/// True when the name's extension is exactly `sql`: the name ends in `.sql`
/// and the dot is not the first character (a name such as `.sql` has no
/// extension, only a stem).
pub open spec fn has_sql_extension(name: Seq<char>) -> bool {
    &&& name.len() >= 5
    &&& name[name.len() as int - 4] == '.'
    &&& name[name.len() as int - 3] == 's'
    &&& name[name.len() as int - 2] == 'q'
    &&& name[name.len() as int - 1] == 'l'
}

/// A merge candidate: extension `sql` (case-sensitive), name not prefixed
/// with `exec`.
pub open spec fn is_sql_name(name: Seq<char>) -> bool {
    has_sql_extension(name) && !starts_with_exec(name)
}

/// Decides whether a file with the given base name qualifies for the merge.
pub fn is_sql_file(name: &str) -> (r: bool)
    ensures
        r == is_sql_name(name@),
{
    let n = name.unicode_len();
    if n < 5 {
        return false;
    }
    let has_ext = name.get_char(n - 4) == '.' && name.get_char(n - 3) == 's' && name.get_char(
        n - 2,
    ) == 'q' && name.get_char(n - 1) == 'l';
    if !has_ext {
        return false;
    }
    let is_exec = name.get_char(0) == 'e' && name.get_char(1) == 'x' && name.get_char(2) == 'e'
        && name.get_char(3) == 'c';
    !is_exec
}

} // verus!
