//! Human-readable sizes, durations and shortened text for the screens.
use vstd::prelude::*;
use vstd::string::StringSliceAdditionalSpecFns;
use vstd::utf8::{encode_utf8, encode_utf8_valid_utf8, is_char_boundary, is_char_boundary_start_end_of_seq};
use crate::text::{decimal, owned, push_decimal, push_str};

verus! {

pub open spec fn pow1024(k: nat) -> nat
    decreases k,
{
    if k == 0 {
        1
    } else {
        1024 * pow1024((k - 1) as nat)
    }
}

/// The unit a byte count is shown in: the largest power of 1024 (up to the
/// fourth) that it reaches.
pub open spec fn unit_index(b: nat) -> nat {
    if b >= pow1024(4) {
        4
    } else if b >= pow1024(3) {
        3
    } else if b >= pow1024(2) {
        2
    } else if b >= pow1024(1) {
        1
    } else {
        0
    }
}

pub open spec fn unit_name(k: nat) -> Seq<char> {
    if k == 0 {
        "B"@
    } else if k == 1 {
        "KB"@
    } else if k == 2 {
        "MB"@
    } else if k == 3 {
        "GB"@
    } else {
        "TB"@
    }
}

/// `b / d` in tenths, rounded to nearest, ties to even.
pub open spec fn rounded_tenths(b: nat, d: nat) -> nat
    recommends
        d > 0,
{
    let q = (b * 10) / d;
    let r = (b * 10) % d;
    if 2 * r > d || (2 * r == d && q % 2 == 1) {
        q + 1
    } else {
        q
    }
}

/// Bytes below 1024 as a whole number of `B`; larger counts in the largest
/// unit they reach, with one decimal.
pub open spec fn bytes_text(b: nat) -> Seq<char> {
    let k = unit_index(b);
    if k == 0 {
        decimal(b) + " B"@
    } else {
        let t = rounded_tenths(b, pow1024(k));
        decimal(t / 10) + "."@ + decimal(t % 10) + " "@ + unit_name(k)
    }
}

pub fn format_bytes(bytes: u64) -> (r: String)
    ensures
        r@ == bytes_text(bytes as nat),
{
    let b = bytes as u128;
    let mut k: u64 = 0;
    let mut d: u128 = 1;
    proof {
        reveal_with_fuel(pow1024, 5);
        assert(pow1024(1) == 1024);
        assert(pow1024(2) == 1024 * 1024);
        assert(pow1024(3) == 1024 * 1024 * 1024);
        assert(pow1024(4) == 1024 * 1024 * 1024 * 1024);
    }
    if b >= 1024u128 * 1024 * 1024 * 1024 {
        k = 4;
        d = 1024u128 * 1024 * 1024 * 1024;
    } else if b >= 1024u128 * 1024 * 1024 {
        k = 3;
        d = 1024u128 * 1024 * 1024;
    } else if b >= 1024u128 * 1024 {
        k = 2;
        d = 1024u128 * 1024;
    } else if b >= 1024u128 {
        k = 1;
        d = 1024u128;
    }
    assert(k as nat == unit_index(bytes as nat));
    assert(d as nat == pow1024(k as nat));
    if k == 0 {
        let mut s = String::new();
        push_decimal(&mut s, bytes);
        push_str(&mut s, " B");
        return s;
    }
    let q = (b * 10) / d;
    let rem = (b * 10) % d;
    let t = if 2 * rem > d || (2 * rem == d && q % 2 == 1) {
        q + 1
    } else {
        q
    };
    assert(t as nat == rounded_tenths(bytes as nat, d as nat));
    assert(t as int <= b as int * 10 + 1) by (nonlinear_arith)
        requires
            d >= 1,
            q as int == (b as int * 10) / (d as int),
            t as int <= q as int + 1,
    {
    }
    let whole = (t / 10) as u64;
    let tenth = (t % 10) as u64;
    let mut s = String::new();
    push_decimal(&mut s, whole);
    push_str(&mut s, ".");
    push_decimal(&mut s, tenth);
    push_str(&mut s, " ");
    let unit = if k == 1 {
        "KB"
    } else if k == 2 {
        "MB"
    } else if k == 3 {
        "GB"
    } else {
        "TB"
    };
    push_str(&mut s, unit);
    assert(s@ =~= bytes_text(bytes as nat));
    s
}

/// Hours, minutes and seconds of a count of seconds, leaving out leading
/// zero parts: `1h 1m 1s`, `1m 30s`, `30s`.
pub open spec fn duration_text(total: nat) -> Seq<char> {
    let h = total / 3600;
    let m = (total % 3600) / 60;
    let s = total % 60;
    if h > 0 {
        decimal(h) + "h "@ + decimal(m) + "m "@ + decimal(s) + "s"@
    } else if m > 0 {
        decimal(m) + "m "@ + decimal(s) + "s"@
    } else {
        decimal(s) + "s"@
    }
}

pub fn format_duration_secs(total_seconds: u64) -> (r: String)
    ensures
        r@ == duration_text(total_seconds as nat),
{
    let hours = total_seconds / 3600;
    let minutes = (total_seconds % 3600) / 60;
    let seconds = total_seconds % 60;
    let mut s = String::new();
    if hours > 0 {
        push_decimal(&mut s, hours);
        push_str(&mut s, "h ");
        push_decimal(&mut s, minutes);
        push_str(&mut s, "m ");
    } else if minutes > 0 {
        push_decimal(&mut s, minutes);
        push_str(&mut s, "m ");
    }
    push_decimal(&mut s, seconds);
    push_str(&mut s, "s");
    assert(s@ =~= duration_text(total_seconds as nat));
    s
}

/// Relies on Duration::as_secs: the whole seconds of a duration.
#[verifier::external_body]
fn whole_seconds(d: std::time::Duration) -> (r: u64) {
    d.as_secs()
}

/// A duration in hours, minutes and seconds, as `format_duration_secs` writes it.
pub fn format_duration(duration: std::time::Duration) -> (r: String)
    ensures
        exists|secs: u64| r@ == duration_text(secs as nat),
{
    let secs = whole_seconds(duration);
    format_duration_secs(secs)
}

/// The last character boundary of `b` at or before `m`.
pub open spec fn last_boundary(b: Seq<u8>, m: int) -> int
    decreases m,
{
    if m <= 0 {
        0
    } else if is_char_boundary(b, m) {
        m
    } else {
        last_boundary(b, m - 1)
    }
}

/// Text that fits in `max_width` bytes stays as it is; otherwise it is cut
/// and ends in `...`, within `max_width` bytes when that leaves room for any
/// of it. The cut falls on a character boundary.
pub fn truncate_text(text: &str, max_width: usize) -> (r: String)
    ensures
        (text.spec_bytes().len() as usize) <= max_width ==> r@ == text@,
        (text.spec_bytes().len() as usize) > max_width && max_width <= 3 ==> r@ == "..."@,
        (text.spec_bytes().len() as usize) > max_width && max_width > 3 ==> exists|p: Seq<char>|
            encode_utf8(p) == text.spec_bytes().subrange(0, last_boundary(text.spec_bytes(), max_width - 3))
                && r@ == p + "..."@,
{
    if text.len() <= max_width {
        return owned(text);
    }
    if max_width <= 3 {
        return owned("...");
    }
    proof {
        encode_utf8_valid_utf8(text@);
        is_char_boundary_start_end_of_seq(text.spec_bytes());
    }
    let m = max_width - 3;
    let mut k: usize = m;
    while k > 0 && !text.is_char_boundary(k)
        invariant
            k <= m,
            last_boundary(text.spec_bytes(), k as int) == last_boundary(text.spec_bytes(), m as int),
        decreases k,
    {
        k = k - 1;
    }
    proof {
        encode_utf8_valid_utf8(text@);
        is_char_boundary_start_end_of_seq(text.spec_bytes());
    }
    let (head, _tail) = text.split_at(k);
    let mut s = owned(head);
    push_str(&mut s, "...");
    proof {
        encode_utf8_valid_utf8(head@);
        assert(encode_utf8(head@) == head.spec_bytes());
    }
    s
}

} // verus!
