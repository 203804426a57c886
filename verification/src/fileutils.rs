//! Pure path logic underneath the filesystem primitives: the backup-path
//! naming convention and the strict symlink-value check. The primitives that
//! actually touch the filesystem live with the caller; they hand this module
//! plain path strings and stored link values.

use vstd::prelude::*;

verus! {

/// The index of the last `/` in `p`, or `-1` if there is none.
pub open spec fn last_slash(p: Seq<char>) -> int
    decreases p.len(),
{
    if p.len() == 0 {
        -1
    } else if p[p.len() - 1] == '/' {
        p.len() - 1
    } else {
        last_slash(p.drop_last())
    }
}

/// The file name of `p`: everything after the last `/`.
pub open spec fn file_name_of(p: Seq<char>) -> Seq<char> {
    p.subrange(last_slash(p) + 1, p.len() as int)
}

/// A well-formed absolute path with a non-empty file name: starts with `/`,
/// does not end with `/`, and its final component is a real name, not `.`
/// or `..`.
pub open spec fn wf_target_path(p: Seq<char>) -> bool {
    &&& p.len() >= 2
    &&& p[0] == '/'
    &&& p[p.len() - 1] != '/'
    &&& file_name_of(p) != "."@
    &&& file_name_of(p) != ".."@
}

/// The backup naming convention, a persisted-state contract shared with any
/// restore tooling: a sibling of `p` whose file name carries a `backup-`
/// prefix.
pub open spec fn backup_path_of(p: Seq<char>) -> Seq<char> {
    p.subrange(0, last_slash(p) + 1) + "backup-"@ + file_name_of(p)
}

/// An index that holds a `/` with none after it is the last slash.
proof fn lemma_last_slash_at(p: Seq<char>, k: int)
    requires
        0 <= k < p.len(),
        p[k] == '/',
        forall|j: int| k < j < p.len() ==> p[j] != '/',
    ensures
        last_slash(p) == k,
    decreases p.len(),
{
    if k < p.len() - 1 {
        lemma_last_slash_at(p.drop_last(), k);
    }
}

/// Derives the sibling backup path of `path`: `<parent>/backup-<file name>`.
pub fn build_backup_path(path: &str) -> (r: String)
    requires
        wf_target_path(path@),
    ensures
        r@ == backup_path_of(path@),
{
    let n = path.unicode_len();
    let mut i: usize = n - 1;
    while path.get_char(i) != '/'
        invariant
            wf_target_path(path@),
            n == path@.len(),
            0 <= i < n,
            forall|j: int| i < j < n ==> path@[j] != '/',
        decreases i,
    {
        i = i - 1;
    }
    proof {
        lemma_last_slash_at(path@, i as int);
    }
    let mut r = String::from_str(path.substring_char(0, i + 1));
    r.append("backup-");
    r.append(path.substring_char(i + 1, n));
    r
}

/// Whether a stored link value satisfies the goal: the link could be read
/// and its literal value equals the wanted destination exactly — no
/// canonicalization, no relative-path resolution.
pub open spec fn symlink_matches(link_value: Option<String>, valid_dest: Seq<char>) -> bool {
    match link_value {
        Some(l) => l@ == valid_dest,
        None => false,
    }
}

/// Checks a stored link value against the wanted destination. `link_value`
/// is what reading the link gave, `None` where the target is no symlink or
/// the read failed; the comparison is literal path equality, a deliberate
/// strictness: a link differing in trailing separators or relative form does
/// not count as valid.
pub fn check_symlink(link_value: &Option<String>, valid_dest: &String) -> (r: bool)
    ensures
        r == symlink_matches(*link_value, valid_dest@),
{
    match link_value {
        Some(l) => l.eq(valid_dest),
        None => false,
    }
}

} // verus!
