//! The archive inventory: which files found on disk are backup archives,
//! what their names say about mode and encryption, and their order, newest
//! first. The mode and the encrypted flag are read from the file name only,
//! so a misnamed file is misclassified.
use vstd::prelude::*;
use vstd::seq_lib::{to_multiset_insert, to_multiset_remove};
use crate::security::{lowercase_text, to_lowercase};
use crate::text::{contains_chars, owned, push_str, seq_contains, string_of, to_chars};
use crate::types::{ArchiveInfo, BackupMode};

verus! {

broadcast use vstd::seq_lib::group_to_multiset_ensures, vstd::multiset::group_multiset_axioms;

/// The UTC time `secs` seconds after the Unix epoch as `YYYY-MM-DD HH:MM`,
/// or nothing when chrono cannot represent that time.
pub uninterp spec fn minute_text(secs: i64) -> Seq<char>;

/// Relies on chrono's `DateTime::<Utc>::from_timestamp` and `format("%Y-%m-%d %H:%M")`:
/// the text depends on the number of seconds alone.
#[verifier::external_body]
fn format_minute(secs: i64) -> (r: String)
    ensures
        r@ == minute_text(secs),
{
    match chrono::DateTime::from_timestamp(secs, 0) {
        Some(t) => t.format("%Y-%m-%d %H:%M").to_string(),
        None => String::new(),
    }
}

/// A file that a directory walk found: where it is, its name, its size in
/// bytes, and when it was created, in seconds since the Unix epoch.
pub struct ArchiveEntry {
    pub path: String,
    pub file_name: String,
    pub size: u64,
    pub created: i64,
}

/// Position of the last `c` in `s[..end]`, or -1.
pub open spec fn last_index_before(s: Seq<char>, c: char, end: int) -> int
    decreases end,
{
    if end <= 0 || end > s.len() {
        -1
    } else if s[end - 1] == c {
        end - 1
    } else {
        last_index_before(s, c, end - 1)
    }
}

/// The extension of a file name: what follows its last dot, unless that
/// dot is its first character.
pub open spec fn extension(name: Seq<char>) -> Option<Seq<char>> {
    let k = last_index_before(name, '.', name.len() as int);
    if k <= 0 {
        None
    } else {
        Some(name.subrange(k + 1, name.len() as int))
    }
}

/// Archives end in `gz`, `xz` or `tar`, in any case.
pub open spec fn is_archive_name(name: Seq<char>) -> bool {
    match extension(name) {
        Some(e) => {
            let l = lowercase_text(e);
            l == "gz"@ || l == "xz"@ || l == "tar"@
        },
        None => false,
    }
}

/// The mode a name suggests: `secure` in it means secure, anything else complete.
pub open spec fn mode_from_name(name: Seq<char>) -> BackupMode {
    if seq_contains(name, "secure"@) {
        BackupMode::Secure
    } else {
        BackupMode::Complete
    }
}

/// Names holding `encrypted` or `complete` are taken as encrypted.
pub open spec fn encrypted_from_name(name: Seq<char>) -> bool {
    seq_contains(name, "encrypted"@) || seq_contains(name, "complete"@)
}

/// `a` is the archive record made from the file `e`.
pub open spec fn archive_from(a: ArchiveInfo, e: ArchiveEntry) -> bool {
    &&& a.path@ == e.path@
    &&& a.name@ == e.file_name@
    &&& a.created == e.created
    &&& a.size == e.size
    &&& a.mode == mode_from_name(e.file_name@)
    &&& a.encrypted == encrypted_from_name(e.file_name@)
    &&& a.description@ == "Backup archive from "@ + minute_text(e.created)
    &&& a.items@.len() == 0
}

/// `c` holds, in order, the records of the files of `entries` that are archives.
pub open spec fn classified(entries: Seq<ArchiveEntry>, c: Seq<ArchiveInfo>) -> bool
    decreases entries.len(),
{
    if entries.len() == 0 {
        c.len() == 0
    } else if is_archive_name(entries.last().file_name@) {
        c.len() > 0 && archive_from(c.last(), entries.last()) && classified(
            entries.drop_last(),
            c.drop_last(),
        )
    } else {
        classified(entries.drop_last(), c)
    }
}

/// Newest first.
pub open spec fn newest_first(s: Seq<ArchiveInfo>) -> bool {
    forall|i: int, j: int| 0 <= i < j < s.len() ==> s[i].created >= s[j].created
}

/// Position of the last dot in `v`, if there is one.
fn last_dot(v: &Vec<char>) -> (r: Option<usize>)
    ensures
        match r {
            Some(k) => k as int == last_index_before(v@, '.', v@.len() as int) && k < v@.len(),
            None => last_index_before(v@, '.', v@.len() as int) == -1,
        },
{
    let mut end: usize = v.len();
    while end > 0
        invariant
            end <= v@.len(),
            last_index_before(v@, '.', end as int) == last_index_before(v@, '.', v@.len() as int),
        decreases end,
    {
        if v[end - 1] == '.' {
            return Some(end - 1);
        }
        end = end - 1;
    }
    None
}

/// Whether two character sequences are equal.
fn same_chars(a: &Vec<char>, b: &Vec<char>) -> (r: bool)
    ensures
        r == (a@ == b@),
{
    if a.len() != b.len() {
        return false;
    }
    let mut i: usize = 0;
    while i < a.len()
        invariant
            a@.len() == b@.len(),
            i <= a@.len(),
            forall|j: int| 0 <= j < i ==> a@[j] == b@[j],
        decreases a.len() - i,
    {
        if a[i] != b[i] {
            return false;
        }
        i = i + 1;
    }
    assert(a@ =~= b@);
    true
}

/// Whether a file name ends in an archive extension.
pub fn archive_name_ok(name: &str) -> (r: bool)
    ensures
        r == is_archive_name(name@),
{
    let chars = to_chars(name);
    let n = chars.len();
    let k = match last_dot(&chars) {
        Some(k) => k,
        None => {
            return false;
        },
    };
    if k == 0 {
        return false;
    }
    let ext = string_of(&chars, k + 1, chars.len());
    let lowered = to_lowercase(ext.as_str());
    let l = to_chars(lowered.as_str());
    same_chars(&l, &to_chars("gz")) || same_chars(&l, &to_chars("xz")) || same_chars(&l, &to_chars("tar"))
}

/// The archive record of a file, if its name has an archive extension.
pub fn classify_archive(entry: &ArchiveEntry) -> (r: Option<ArchiveInfo>)
    ensures
        is_archive_name(entry.file_name@) <==> r is Some,
        r is Some ==> archive_from(r->0, *entry),
{
    if !archive_name_ok(entry.file_name.as_str()) {
        return None;
    }
    let name = to_chars(entry.file_name.as_str());
    let encrypted = contains_chars(&name, &to_chars("encrypted")) || contains_chars(&name, &to_chars("complete"));
    let mode = if contains_chars(&name, &to_chars("secure")) {
        BackupMode::Secure
    } else {
        BackupMode::Complete
    };
    let mut description = owned("Backup archive from ");
    let when = format_minute(entry.created);
    push_str(&mut description, when.as_str());
    Some(
        ArchiveInfo {
            path: entry.path.clone(),
            name: entry.file_name.clone(),
            created: entry.created,
            size: entry.size,
            mode,
            encrypted,
            description,
            items: Vec::new(),
        },
    )
}

/// Orders the records newest first; records created at the same second keep
/// their order. Nothing is added or lost.
pub fn sort_newest_first(v: Vec<ArchiveInfo>) -> (r: Vec<ArchiveInfo>)
    ensures
        newest_first(r@),
        r@.to_multiset() == v@.to_multiset(),
{
    let ghost orig = v@;
    let mut rest = v;
    let mut out: Vec<ArchiveInfo> = Vec::new();
    proof {
        vstd::multiset::lemma_multiset_empty_len(out@.to_multiset());
        assert(out@.to_multiset().add(rest@.to_multiset()) =~= orig.to_multiset());
    }
    while rest.len() > 0
        invariant
            newest_first(out@),
            out@.to_multiset().add(rest@.to_multiset()) == orig.to_multiset(),
        decreases rest.len(),
    {
        let ghost rest_before = rest@;
        proof {
            to_multiset_remove(rest@, 0);
        }
        let x = rest.remove(0);
        assert(rest@.to_multiset() == rest_before.to_multiset().remove(x));
        assert(rest_before.to_multiset().count(x) > 0) by {
            assert(rest_before.contains(x)) by { assert(rest_before[0] == x); }
        }
        let k = x.created;
        let mut p: usize = 0;
        while p < out.len() && out[p].created >= k
            invariant
                p <= out@.len(),
                forall|j: int| 0 <= j < p ==> out@[j].created >= k,
            decreases out.len() - p,
        {
            p = p + 1;
        }
        let ghost before = out@;
        proof {
            to_multiset_insert(before, p as int, x);
        }
        out.insert(p, x);
        assert(out@.to_multiset().add(rest@.to_multiset()) =~= orig.to_multiset());
        assert(newest_first(out@)) by {
            assert forall|i: int, j: int| 0 <= i < j < out@.len() implies out@[i].created >= out@[j].created by {
                if j < p {
                } else if j == p {
                } else if i < p {
                    if p < before.len() {
                        assert(before[p as int].created < k);
                        assert(before[i].created >= before[j - 1].created);
                    }
                } else if i == p {
                    assert(before[p as int].created < k);
                    if p < j - 1 {
                        assert(before[p as int].created >= before[j - 1].created);
                    }
                } else {
                    assert(before[i - 1].created >= before[j - 1].created);
                }
            }
        }
    }
    proof {
        vstd::multiset::lemma_multiset_empty_len(rest@.to_multiset());
    }
    assert(out@.to_multiset() =~= out@.to_multiset().add(rest@.to_multiset()));
    out
}

/// The inventory of the files found: the archives among them, newest first.
pub fn build_archive_list(entries: &Vec<ArchiveEntry>) -> (r: Vec<ArchiveInfo>)
    ensures
        newest_first(r@),
        exists|c: Seq<ArchiveInfo>| classified(entries@, c) && #[trigger] c.to_multiset() == r@.to_multiset(),
{
    let mut found: Vec<ArchiveInfo> = Vec::new();
    let mut i: usize = 0;
    while i < entries.len()
        invariant
            i <= entries@.len(),
            classified(entries@.subrange(0, i as int), found@),
        decreases entries.len() - i,
    {
        let ghost before = found@;
        assert(entries@.subrange(0, i + 1).drop_last() =~= entries@.subrange(0, i as int));
        match classify_archive(&entries[i]) {
            Some(a) => {
                found.push(a);
                assert(found@.drop_last() =~= before);
            },
            None => {},
        }
        i = i + 1;
    }
    assert(entries@.subrange(0, i as int) =~= entries@);
    let ghost c = found@;
    let r = sort_newest_first(found);
    assert(classified(entries@, c) && c.to_multiset() == r@.to_multiset());
    r
}

} // verus!
