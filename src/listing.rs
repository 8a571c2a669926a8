//! The archive-listing text protocol: one `name|size|original-path` record
//! per line. Lines with fewer than three fields are skipped; a size that does
//! not parse counts as 0.
use vstd::prelude::*;
use crate::security::is_digit_char;
use crate::text::string_of;
use crate::types::RestoreItem;

verus! {

/// Position of the first `c` in `s` at or after `from`, or `s.len()` if there is none.
pub open spec fn index_of_from(s: Seq<char>, c: char, from: int) -> int
    decreases s.len() - from,
{
    if from < 0 || from >= s.len() {
        s.len() as int
    } else if s[from] == c {
        from
    } else {
        index_of_from(s, c, from + 1)
    }
}

/// A line without the carriage return that ended it.
pub open spec fn strip_cr(l: Seq<char>) -> Seq<char> {
    if l.len() > 0 && l.last() == '\r' {
        l.drop_last()
    } else {
        l
    }
}

/// Value of a run of ASCII digits.
pub open spec fn digits_value(d: Seq<char>) -> nat
    decreases d.len(),
{
    if d.len() == 0 {
        0
    } else {
        digits_value(d.drop_last()) * 10 + ((d.last() as u32 - '0' as u32) as nat)
    }
}

pub open spec fn all_digits(d: Seq<char>) -> bool {
    forall|i: int| 0 <= i < d.len() ==> #[trigger] is_digit_char(d[i])
}

/// An unsigned decimal number as `u64`'s `FromStr` reads it: an optional
/// `+`, then one or more ASCII digits, with a value that fits.
pub open spec fn parse_u64(t: Seq<char>) -> Option<u64> {
    let d = if t.len() > 0 && t[0] == '+' {
        t.subrange(1, t.len() as int)
    } else {
        t
    };
    if d.len() > 0 && all_digits(d) && digits_value(d) <= u64::MAX {
        Some(digits_value(d) as u64)
    } else {
        None
    }
}

/// The size field: its value, or 0 when it does not parse.
pub open spec fn size_value(t: Seq<char>) -> u64 {
    match parse_u64(t) {
        Some(v) => v,
        None => 0,
    }
}

/// Name, size and original path of a listing line, or `None` when the line
/// has fewer than three `|`-separated fields. Fields after the third are ignored.
pub open spec fn line_fields(line: Seq<char>) -> Option<(Seq<char>, u64, Seq<char>)> {
    let first_bar = index_of_from(line, '|', 0);
    let second_bar = index_of_from(line, '|', first_bar + 1);
    let field_end = index_of_from(line, '|', second_bar + 1);
    if first_bar >= line.len() || second_bar >= line.len() {
        None
    } else {
        Some((line.subrange(0, first_bar), size_value(line.subrange(first_bar + 1, second_bar)), line.subrange(second_bar + 1, field_end)))
    }
}

/// Where an entry is restored: an absolute original path as it is, a
/// relative one joined onto `home`.
pub open spec fn restore_target(original: Seq<char>, home: Seq<char>) -> Seq<char> {
    if original.len() > 0 && original[0] == '/' {
        original
    } else if home.len() > 0 && home.last() != '/' {
        home + seq!['/'] + original
    } else {
        home + original
    }
}

/// The records of a listing, line by line. A line ends at `\n`; a `\r`
/// before the `\n` is dropped; no empty line follows a final `\n`.
pub open spec fn listing_records(s: Seq<char>) -> Seq<(Seq<char>, u64, Seq<char>)>
    decreases s.len(),
{
    if s.len() == 0 {
        seq![]
    } else {
        let e = index_of_from(s, '\n', 0);
        let line = if 0 <= e < s.len() { strip_cr(s.subrange(0, e)) } else { s };
        let here = match line_fields(line) {
            Some(r) => seq![r],
            None => seq![],
        };
        if 0 <= e < s.len() {
            here + listing_records(s.subrange(e + 1, s.len() as int))
        } else {
            here
        }
    }
}

/// `item` is the restore candidate made from record `rec`, not yet selected
/// and with no conflict recorded.
pub open spec fn item_from_record(
    item: RestoreItem,
    rec: (Seq<char>, u64, Seq<char>),
    home: Seq<char>,
) -> bool {
    &&& item.name@ == rec.0
    &&& item.size == rec.1
    &&& item.original_path@ == rec.2
    &&& item.restore_path@ == restore_target(rec.2, home)
    &&& !item.selected
    &&& !item.conflicts
}

pub open spec fn items_from_records(
    items: Seq<RestoreItem>,
    recs: Seq<(Seq<char>, u64, Seq<char>)>,
    home: Seq<char>,
) -> bool {
    &&& items.len() == recs.len()
    &&& forall|i: int| 0 <= i < items.len() ==> item_from_record(#[trigger] items[i], recs[i], home)
}

proof fn lemma_index_skip(s: Seq<char>, c: char, from: int, i: int)
    requires
        0 <= from <= i,
        forall|j: int| from <= j < i && j < s.len() ==> s[j] != c,
    ensures
        index_of_from(s, c, from) == index_of_from(s, c, i),
    decreases i - from,
{
    if from < i && from < s.len() {
        lemma_index_skip(s, c, from + 1, i);
    }
}

proof fn lemma_index_bounds(s: Seq<char>, c: char, from: int)
    requires
        0 <= from,
    ensures
        from <= index_of_from(s, c, from) || (from > s.len() && index_of_from(s, c, from) == s.len()),
        index_of_from(s, c, from) <= s.len(),
        index_of_from(s, c, from) < s.len() ==> s[index_of_from(s, c, from)] == c,
    decreases s.len() - from,
{
    if from < s.len() && s[from] != c {
        lemma_index_bounds(s, c, from + 1);
    }
}

proof fn lemma_index_suffix(s: Seq<char>, c: char, pos: int, k: int)
    requires
        0 <= pos <= s.len(),
        0 <= k,
    ensures
        index_of_from(s.subrange(pos, s.len() as int), c, k) == index_of_from(s, c, pos + k) - pos,
    decreases s.len() - (pos + k),
{
    let t = s.subrange(pos, s.len() as int);
    if pos + k < s.len() {
        assert(t[k] == s[pos + k]);
        if s[pos + k] != c {
            lemma_index_suffix(s, c, pos, k + 1);
        }
    }
}

/// Position of the first `c` in `v` at or after `from`, or `v.len()`.
pub fn find_char(v: &Vec<char>, c: char, from: usize) -> (r: usize)
    ensures
        r == index_of_from(v@, c, from as int),
{
    let n = v.len();
    if from >= n {
        return n;
    }
    let mut i: usize = from;
    while i < n
        invariant
            n == v@.len(),
            from <= i <= n,
            forall|j: int| from <= j < i ==> v@[j] != c,
        decreases n - i,
    {
        if v[i] == c {
            proof {
                lemma_index_skip(v@, c, from as int, i as int);
            }
            return i;
        }
        i = i + 1;
    }
    proof {
        lemma_index_skip(v@, c, from as int, i as int);
    }
    n
}

proof fn lemma_digits_prefix_grows(d: Seq<char>, j: int)
    requires
        0 <= j <= d.len(),
    ensures
        digits_value(d.subrange(0, j)) <= digits_value(d),
    decreases d.len() - j,
{
    if j < d.len() {
        lemma_digits_prefix_grows(d.drop_last(), j);
        assert(d.drop_last().subrange(0, j) =~= d.subrange(0, j));
    } else {
        assert(d.subrange(0, j) =~= d);
    }
}

/// The value of the field `v[lo..hi]` read as `u64`'s `FromStr` reads it.
pub fn parse_size(v: &Vec<char>, lo: usize, hi: usize) -> (r: Option<u64>)
    requires
        lo <= hi <= v@.len(),
    ensures
        r == parse_u64(v@.subrange(lo as int, hi as int)),
{
    let ghost t = v@.subrange(lo as int, hi as int);
    let mut start = lo;
    if lo < hi && v[lo] == '+' {
        start = lo + 1;
    }
    let ghost d = v@.subrange(start as int, hi as int);
    assert(d =~= (if t.len() > 0 && t[0] == '+' { t.subrange(1, t.len() as int) } else { t }));
    if start == hi {
        return None;
    }
    let mut acc: u64 = 0;
    let mut i: usize = start;
    while i < hi
        invariant
            lo <= start <= i <= hi <= v@.len(),
            d == v@.subrange(start as int, hi as int),
            t == v@.subrange(lo as int, hi as int),
            d == (if t.len() > 0 && t[0] == '+' { t.subrange(1, t.len() as int) } else { t }),
            all_digits(v@.subrange(start as int, i as int)),
            acc as nat == digits_value(v@.subrange(start as int, i as int)),
        decreases hi - i,
    {
        let c = v[i];
        let ghost prefix = v@.subrange(start as int, i + 1);
        assert(prefix.drop_last() =~= v@.subrange(start as int, i as int));
        assert(d[i - start] == v@[i as int]);
        if !('0' <= c && c <= '9') {
            assert(!is_digit_char(d[i - start]));
            assert(!all_digits(d));
            return None;
        }
        let digit = (c as u32 - '0' as u32) as u64;
        match acc.checked_mul(10) {
            Some(m) => match m.checked_add(digit) {
                Some(next) => {
                    acc = next;
                },
                None => {
                    proof {
                        assert(prefix =~= d.subrange(0, i + 1 - start));
                        lemma_digits_prefix_grows(d, i + 1 - start);
                        assert(prefix.last() == c);
                        assert(digits_value(prefix) == digits_value(prefix.drop_last()) * 10 + digit);
                        assert(digits_value(prefix) > u64::MAX);
                    }
                    return None;
                },
            },
            None => {
                proof {
                    assert(prefix =~= d.subrange(0, i + 1 - start));
                    lemma_digits_prefix_grows(d, i + 1 - start);
                    assert(prefix.last() == c);
                    assert(digits_value(prefix) == digits_value(prefix.drop_last()) * 10 + digit);
                    assert(digits_value(prefix) >= acc * 10) by (nonlinear_arith)
                        requires digits_value(prefix) == acc * 10 + digit, digit >= 0;
                    assert(digits_value(prefix) > u64::MAX);
                }
                return None;
            },
        }
        i = i + 1;
    }
    assert(v@.subrange(start as int, i as int) =~= d);
    Some(acc)
}

/// The characters `v[lo..hi]` as a new vector.
fn slice_chars(v: &Vec<char>, lo: usize, hi: usize) -> (r: Vec<char>)
    requires
        lo <= hi <= v@.len(),
    ensures
        r@ == v@.subrange(lo as int, hi as int),
{
    let mut out: Vec<char> = Vec::new();
    let mut i: usize = lo;
    while i < hi
        invariant
            lo <= i <= hi <= v@.len(),
            out@ == v@.subrange(lo as int, i as int),
        decreases hi - i,
    {
        out.push(v[i]);
        assert(out@ =~= v@.subrange(lo as int, i + 1));
        i = i + 1;
    }
    out
}

/// Joins `original` onto `home` unless it is absolute.
pub fn restore_path_for(original: &Vec<char>, home: &Vec<char>) -> (r: String)
    ensures
        r@ == restore_target(original@, home@),
{
    if original.len() > 0 && original[0] == '/' {
        return string_of(original, 0, original.len());
    }
    let mut s = string_of(home, 0, home.len());
    assert(home@.subrange(0, home@.len() as int) =~= home@);
    if home.len() > 0 && home[home.len() - 1] != '/' {
        crate::text::push_char(&mut s, '/');
    }
    let ghost before = s@;
    let mut i: usize = 0;
    while i < original.len()
        invariant
            i <= original@.len(),
            s@ == before + original@.subrange(0, i as int),
        decreases original.len() - i,
    {
        crate::text::push_char(&mut s, original[i]);
        assert(original@.subrange(0, i + 1) =~= original@.subrange(0, i as int).push(original@[i as int]));
        i = i + 1;
    }
    assert(original@.subrange(0, i as int) =~= original@);
    s
}

/// The restore candidate described by one line, if the line has three fields.
pub fn parse_line(line: &Vec<char>, home: &Vec<char>) -> (r: Option<RestoreItem>)
    ensures
        match line_fields(line@) {
            Some(rec) => r is Some && item_from_record(r->0, rec, home@),
            None => r is None,
        },
{
    let n = line.len();
    let first_bar = find_char(line, '|', 0);
    if first_bar >= n {
        return None;
    }
    let second_bar = find_char(line, '|', first_bar + 1);
    if second_bar >= n {
        return None;
    }
    let field_end = find_char(line, '|', second_bar + 1);
    proof {
        lemma_index_bounds(line@, '|', 0);
        lemma_index_bounds(line@, '|', first_bar + 1);
        lemma_index_bounds(line@, '|', second_bar + 1);
    }
    let size = match parse_size(line, first_bar + 1, second_bar) {
        Some(v) => v,
        None => 0,
    };
    let original = slice_chars(line, second_bar + 1, field_end);
    Some(
        RestoreItem {
            name: string_of(line, 0, first_bar),
            restore_path: restore_path_for(&original, home),
            original_path: string_of(line, second_bar + 1, field_end),
            size,
            selected: false,
            conflicts: false,
        },
    )
}

/// Parses a whole listing against the home directory `home`. Lines with
/// fewer than three fields are skipped and parsing goes on with the next line.
pub fn parse_archive_listing(contents: &Vec<char>, home: &Vec<char>) -> (r: Vec<RestoreItem>)
    ensures
        items_from_records(r@, listing_records(contents@), home@),
{
    let n = contents.len();
    let mut out: Vec<RestoreItem> = Vec::new();
    let mut pos: usize = 0;
    proof {
        let empty = Seq::<(Seq<char>, u64, Seq<char>)>::empty();
        assert(items_from_records(out@, empty, home@));
        assert(contents@.subrange(0, n as int) =~= contents@);
        assert(empty + listing_records(contents@) =~= listing_records(contents@));
    }
    while pos < n
        invariant
            n == contents@.len(),
            pos <= n,
            exists|done: Seq<(Seq<char>, u64, Seq<char>)>|
                #![trigger items_from_records(out@, done, home@)]
                items_from_records(out@, done, home@) && done + listing_records(
                    contents@.subrange(pos as int, n as int),
                ) == listing_records(contents@),
        decreases n - pos,
    {
        let ghost rest = contents@.subrange(pos as int, n as int);
        let ghost done = choose|done: Seq<(Seq<char>, u64, Seq<char>)>|
            #![trigger items_from_records(out@, done, home@)]
            items_from_records(out@, done, home@) && done + listing_records(rest) == listing_records(contents@);
        let e = find_char(contents, '\n', pos);
        proof {
            lemma_index_suffix(contents@, '\n', pos as int, 0);
            lemma_index_bounds(contents@, '\n', pos as int);
        }
        let mut end = e;
        if e < n && e > pos && contents[e - 1] == '\r' {
            end = e - 1;
        }
        let line = slice_chars(contents, pos, end);
        let ghost line_spec = if e >= n {
            rest
        } else {
            strip_cr(rest.subrange(0, e - pos))
        };
        assert(line@ =~= line_spec);
        let ghost here = match line_fields(line_spec) {
            Some(r) => seq![r],
            None => seq![],
        };
        let ghost old_out = out@;
        match parse_line(&line, home) {
            Some(item) => {
                out.push(item);
            },
            None => {},
        }
        assert(items_from_records(out@, done + here, home@)) by {
            assert(out@.len() == (done + here).len());
            assert forall|i: int| 0 <= i < out@.len() implies item_from_record(
                #[trigger] out@[i],
                (done + here)[i],
                home@,
            ) by {
                if i < old_out.len() {
                    assert(out@[i] == old_out[i]);
                }
            }
        }
        if e >= n {
            assert(listing_records(rest) == here);
            assert(contents@.subrange(n as int, n as int) =~= Seq::<char>::empty());
            assert((done + here) + listing_records(contents@.subrange(n as int, n as int)) =~= done + here);
            pos = n;
        } else {
            assert(rest.subrange(e - pos + 1, rest.len() as int) =~= contents@.subrange(e + 1, n as int));
            assert(listing_records(rest) == here + listing_records(contents@.subrange(e + 1, n as int)));
            assert((done + here) + listing_records(contents@.subrange(e + 1, n as int)) =~= done + (here + listing_records(contents@.subrange(e + 1, n as int))));
            pos = e + 1;
        }
    }
    let ghost done = choose|done: Seq<(Seq<char>, u64, Seq<char>)>|
        #![trigger items_from_records(out@, done, home@)]
        items_from_records(out@, done, home@) && done + listing_records(contents@.subrange(pos as int, n as int)) == listing_records(contents@);
    assert(contents@.subrange(n as int, n as int) =~= Seq::<char>::empty());
    assert(done + listing_records(contents@.subrange(pos as int, n as int)) =~= done);
    out
}

} // verus!
