//! The secret container and the advisory password-strength score.
use vstd::prelude::*;
use vstd::utf8::encode_utf8;
use crate::text::{contains_chars, owned, seq_contains, to_chars, push_decimal, push_str, decimal};

verus! {

/// The SHA-256 digest of a byte sequence.
pub uninterp spec fn sha256_digest(data: Seq<u8>) -> Seq<u8>;

/// Relies on sha2::Sha256::digest: the digest depends on the bytes alone and is 32 bytes long.
#[verifier::external_body]
fn sha256(data: &[u8]) -> (r: Vec<u8>)
    ensures
        r@ == sha256_digest(data@),
        r@.len() == 32,
{
    <sha2::Sha256 as sha2::Digest>::digest(data).to_vec()
}

/// Relies on zeroize's `Zeroize` for `Vec<u8>`: the elements and the spare
/// capacity are overwritten with zeros, then the vector is emptied.
#[verifier::external_body]
fn wipe_bytes(v: &mut Vec<u8>)
    ensures
        final(v)@.len() == 0,
    opens_invariants none
    no_unwind
{
    zeroize::Zeroize::zeroize(v)
}

/// Relies on zeroize's `Zeroize` for `String`: the bytes are overwritten with
/// zeros, then the string is emptied.
#[verifier::external_body]
pub(crate) fn wipe_string(s: &mut String)
    ensures
        final(s)@.len() == 0,
    opens_invariants none
    no_unwind
{
    zeroize::Zeroize::zeroize(s)
}

/// Relies on String::into_bytes: the string's UTF-8 bytes, moved without a copy.
#[verifier::external_body]
fn into_utf8_bytes(s: String) -> (r: Vec<u8>)
    ensures
        r@ == encode_utf8(s@),
{
    s.into_bytes()
}

/// The text that `String::from_utf8_lossy` reads from a byte sequence.
pub uninterp spec fn lossy_text(b: Seq<u8>) -> Seq<char>;

/// Relies on String::from_utf8_lossy: the text depends on the bytes alone.
#[verifier::external_body]
pub(crate) fn lossy_string(b: &[u8]) -> (r: String)
    ensures
        r@ == lossy_text(b@),
{
    String::from_utf8_lossy(b).into_owned()
}

/// What `str::to_lowercase` makes of a text.
pub uninterp spec fn lowercase_text(s: Seq<char>) -> Seq<char>;

/// Relies on str::to_lowercase: the result depends on the characters alone.
#[verifier::external_body]
pub(crate) fn to_lowercase(s: &str) -> (r: String)
    ensures
        r@ == lowercase_text(s@),
{
    s.to_lowercase()
}

/// Unicode `Lowercase` property, as `char::is_lowercase` reports it.
pub uninterp spec fn is_lower_char(c: char) -> bool;

/// Unicode `Uppercase` property, as `char::is_uppercase` reports it.
pub uninterp spec fn is_upper_char(c: char) -> bool;

/// Unicode alphabetic or numeric, as `char::is_alphanumeric` reports it.
pub uninterp spec fn is_alnum_char(c: char) -> bool;

/// Relies on char::is_lowercase, a function of the character alone.
#[verifier::external_body]
fn char_is_lowercase(c: char) -> (r: bool)
    ensures
        r == is_lower_char(c),
{
    c.is_lowercase()
}

/// Relies on char::is_uppercase, a function of the character alone.
#[verifier::external_body]
fn char_is_uppercase(c: char) -> (r: bool)
    ensures
        r == is_upper_char(c),
{
    c.is_uppercase()
}

/// Relies on char::is_alphanumeric, a function of the character alone.
#[verifier::external_body]
fn char_is_alphanumeric(c: char) -> (r: bool)
    ensures
        r == is_alnum_char(c),
{
    c.is_alphanumeric()
}

/// Owns the bytes of a secret. They are overwritten with zeros when the
/// container is cleared or dropped; its text form shows the length only.
#[derive(Clone)]
pub struct SecurePassword {
    password: Vec<u8>,
}

impl View for SecurePassword {
    type V = Seq<u8>;

    closed spec fn view(&self) -> Seq<u8> {
        self.password@
    }
}

impl Drop for SecurePassword {
    fn drop(&mut self)
        opens_invariants none
        no_unwind
    {
        wipe_bytes(&mut self.password);
    }
}

impl SecurePassword {
    /// Takes the string's UTF-8 bytes over without copying them.
    pub fn new(password: String) -> (r: Self)
        ensures
            r@ == encode_utf8(password@),
    {
        SecurePassword { password: into_utf8_bytes(password) }
    }

    /// Takes ownership of the bytes; no other copy of them is left behind.
    pub fn from_bytes(password: Vec<u8>) -> (r: Self)
        ensures
            r@ == password@,
    {
        SecurePassword { password }
    }

    pub fn as_bytes(&self) -> (r: &[u8])
        ensures
            r@ == self@,
    {
        self.password.as_slice()
    }

    pub fn len(&self) -> (r: usize)
        ensures
            r == self@.len(),
    {
        self.password.len()
    }

    pub fn is_empty(&self) -> (r: bool)
        ensures
            r == (self@.len() == 0),
    {
        self.password.len() == 0
    }

    /// Overwrites the secret with zeros and leaves the container empty.
    pub fn clear(&mut self)
        ensures
            final(self)@.len() == 0,
    {
        wipe_bytes(&mut self.password);
    }

    /// The SHA-256 digest of the secret, for comparison without the plaintext.
    pub fn hash(&self) -> (r: Vec<u8>)
        ensures
            r@ == sha256_digest(self@),
    {
        sha256(self.password.as_slice())
    }

    /// Whether `hash` is the digest of this secret.
    pub fn verify_hash(&self, hash: &[u8]) -> (r: bool)
        ensures
            r == (sha256_digest(self@) == hash@),
    {
        let computed = self.hash();
        bytes_equal(computed.as_slice(), hash)
    }

    /// The text form of the container: its length, never its content.
    pub fn redacted(&self) -> (r: String)
        ensures
            r@ == "SecurePassword[*** "@ + decimal(self@.len()) + " bytes ***]"@,
    {
        let mut s = owned("SecurePassword[*** ");
        push_decimal(&mut s, self.password.len() as u64);
        push_str(&mut s, " bytes ***]");
        s
    }
}

/// An advisory score from 0 to 100 with feedback, most specific first.
pub struct PasswordStrength {
    pub score: u8,
    pub feedback: Vec<String>,
}

/// The views of a sequence of strings.
pub open spec fn texts(v: Seq<String>) -> Seq<Seq<char>> {
    v.map_values(|s: String| s@)
}

pub open spec fn has_lower(t: Seq<char>) -> bool {
    exists|i: int| 0 <= i < t.len() && is_lower_char(t[i])
}

pub open spec fn has_upper(t: Seq<char>) -> bool {
    exists|i: int| 0 <= i < t.len() && is_upper_char(t[i])
}

pub open spec fn is_digit_char(c: char) -> bool {
    '0' <= c <= '9'
}

pub open spec fn has_digit(t: Seq<char>) -> bool {
    exists|i: int| 0 <= i < t.len() && is_digit_char(t[i])
}

pub open spec fn has_special(t: Seq<char>) -> bool {
    exists|i: int| 0 <= i < t.len() && !is_alnum_char(t[i])
}

pub open spec fn flag(b: bool) -> int {
    if b { 1 } else { 0 }
}

/// How many of the four character classes occur in `t`.
pub open spec fn variety(t: Seq<char>) -> int {
    flag(has_lower(t)) + flag(has_upper(t)) + flag(has_digit(t)) + flag(has_special(t))
}

/// The lowered text holds one of the denied substrings.
pub open spec fn has_common_pattern(lowered: Seq<char>) -> bool {
    seq_contains(lowered, "123"@) || seq_contains(lowered, "abc"@) || seq_contains(
        lowered,
        "password"@,
    ) || seq_contains(lowered, "qwerty"@)
}

/// Some run of three characters occurs again further on.
pub open spec fn repeats_at(t: Seq<char>, i: int) -> bool {
    0 <= i && i + 3 <= t.len() && seq_contains(t.subrange(i + 3, t.len() as int), t.subrange(i, i + 3))
}

/// Some run of three characters occurs again further on.
pub open spec fn has_repetition(t: Seq<char>) -> bool {
    exists|i: int| repeats_at(t, i)
}

pub open spec fn length_points(n: int) -> int {
    if n >= 12 { 30 } else if n >= 8 { 20 } else { 0 }
}

pub open spec fn variety_points(v: int) -> int {
    if v == 4 { 40 } else if v == 3 { 30 } else if v == 2 { 20 } else { 10 }
}

pub open spec fn floor_zero(x: int) -> int {
    if x < 0 { 0 } else { x }
}

/// The score of a text of `n` bytes with the given class count and findings.
pub open spec fn strength_score(n: int, v: int, common: bool, repeated: bool) -> int {
    let base = length_points(n) + variety_points(v);
    let after_common = if common { floor_zero(base - 20) } else { base + 20 };
    if repeated { floor_zero(after_common - 10) } else { after_common + 10 }
}

pub open spec fn length_feedback(n: int) -> Seq<Seq<char>> {
    if n >= 12 {
        seq![]
    } else if n >= 8 {
        seq!["Consider using a longer password (12+ characters)"@]
    } else {
        seq!["Password should be at least 8 characters long"@]
    }
}

pub open spec fn variety_feedback(v: int) -> Seq<Seq<char>> {
    if v == 4 {
        seq![]
    } else if v == 3 {
        seq!["Consider adding more character types"@]
    } else if v == 2 {
        seq!["Use uppercase, lowercase, numbers, and symbols"@]
    } else {
        seq!["Password should include different character types"@]
    }
}

/// The findings before the overall verdict.
pub open spec fn findings(n: int, v: int, common: bool, repeated: bool) -> Seq<Seq<char>> {
    length_feedback(n) + variety_feedback(v) + (if common {
        seq!["Avoid common patterns and dictionary words"@]
    } else {
        seq![]
    }) + (if repeated {
        seq!["Avoid repeating patterns"@]
    } else {
        seq![]
    })
}

pub open spec fn verdict(score: int, no_findings: bool) -> Seq<char> {
    if score >= 80 && no_findings {
        "Strong password!"@
    } else if score >= 60 {
        "Good password strength"@
    } else if score >= 40 {
        "Moderate password strength"@
    } else {
        "Weak password - consider making it stronger"@
    }
}

/// The full feedback: the findings, then the verdict.
pub open spec fn strength_feedback(n: int, v: int, common: bool, repeated: bool) -> Seq<Seq<char>> {
    let f = findings(n, v, common, repeated);
    f.push(verdict(strength_score(n, v, common, repeated), f.len() == 0))
}

/// Whether `t` holds a character for which `class` holds.
fn any_in_class(t: &Vec<char>, class: u8) -> (r: bool)
    requires
        class < 4,
    ensures
        class == 0 ==> r == has_lower(t@),
        class == 1 ==> r == has_upper(t@),
        class == 2 ==> r == has_digit(t@),
        class == 3 ==> r == has_special(t@),
{
    let mut i: usize = 0;
    while i < t.len()
        invariant
            class < 4,
            i <= t@.len(),
            class == 0 ==> forall|j: int| 0 <= j < i ==> !is_lower_char(t@[j]),
            class == 1 ==> forall|j: int| 0 <= j < i ==> !is_upper_char(t@[j]),
            class == 2 ==> forall|j: int| 0 <= j < i ==> !is_digit_char(t@[j]),
            class == 3 ==> forall|j: int| 0 <= j < i ==> is_alnum_char(t@[j]),
        decreases t.len() - i,
    {
        let c = t[i];
        let hit = if class == 0 {
            char_is_lowercase(c)
        } else if class == 1 {
            char_is_uppercase(c)
        } else if class == 2 {
            '0' <= c && c <= '9'
        } else {
            !char_is_alphanumeric(c)
        };
        if hit {
            return true;
        }
        i = i + 1;
    }
    false
}

/// Whether the three characters at `i` occur again from `i + 3` on.
fn repeats_later(t: &Vec<char>, i: usize) -> (r: bool)
    requires
        i + 3 <= t@.len(),
    ensures
        r == seq_contains(t@.subrange(i + 3, t@.len() as int), t@.subrange(i as int, i + 3)),
{
    let n = t.len();
    let ghost needle = t@.subrange(i as int, i + 3);
    let ghost hay = t@.subrange(i + 3, n as int);
    let mut j: usize = i + 3;
    while n - j >= 3
        invariant
            n == t@.len(),
            i + 3 <= j <= n,
            i + 3 <= n,
            needle == t@.subrange(i as int, i + 3),
            hay == t@.subrange(i + 3, n as int),
            forall|k: int| 0 <= k < j - (i + 3) ==> !crate::text::occurs_at(hay, needle, k),
        decreases n - j,
    {
        if t[j] == t[i] && t[j + 1] == t[i + 1] && t[j + 2] == t[i + 2] {
            let ghost k = j - (i + 3);
            assert(hay.subrange(k, k + 3) =~= needle);
            assert(crate::text::occurs_at(hay, needle, k));
            return true;
        }
        proof {
            let k = j - (i + 3);
            if hay.subrange(k, k + 3) == needle {
                assert(hay.subrange(k, k + 3)[0] == needle[0]);
                assert(hay.subrange(k, k + 3)[1] == needle[1]);
                assert(hay.subrange(k, k + 3)[2] == needle[2]);
            }
        }
        j = j + 1;
    }
    assert forall|k: int| #![auto] !crate::text::occurs_at(hay, needle, k) by {
        if 0 <= k && k + 3 <= hay.len() {
            assert(k < j - (i + 3));
        }
    }
    false
}

/// Whether some run of three characters of `t` occurs again further on.
fn has_repetition_exec(t: &Vec<char>) -> (r: bool)
    ensures
        r == has_repetition(t@),
{
    let n = t.len();
    let mut i: usize = 0;
    while n - i >= 3
        invariant
            n == t@.len(),
            i <= n,
            forall|k: int| 0 <= k < i ==> !repeats_at(t@, k),
        decreases n - i,
    {
        if repeats_later(t, i) {
            assert(repeats_at(t@, i as int));
            return true;
        }
        i = i + 1;
    }
    assert forall|k: int| !repeats_at(t@, k) by {
        if 0 <= k && k + 3 <= n {
            assert(k < i);
        }
    }
    false
}

fn common_pattern_exec(lowered: &Vec<char>) -> (r: bool)
    ensures
        r == has_common_pattern(lowered@),
{
    contains_chars(lowered, &to_chars("123")) || contains_chars(lowered, &to_chars("abc"))
        || contains_chars(lowered, &to_chars("password")) || contains_chars(
        lowered,
        &to_chars("qwerty"),
    )
}

#[verifier::rlimit(60)]
/// Scores a text of `byte_len` UTF-8 bytes, given its characters and its lowered form.
pub fn score_text(byte_len: usize, text: &Vec<char>, lowered: &Vec<char>) -> (r: PasswordStrength)
    ensures
        r.score as int == strength_score(
            byte_len as int,
            variety(text@),
            has_common_pattern(lowered@),
            has_repetition(text@),
        ),
        texts(r.feedback@) == strength_feedback(
            byte_len as int,
            variety(text@),
            has_common_pattern(lowered@),
            has_repetition(text@),
        ),
{
    let ghost n = byte_len as int;
    let mut score: u8 = 0;
    let mut feedback: Vec<String> = Vec::new();
    if byte_len >= 12 {
        score = score + 30;
    } else if byte_len >= 8 {
        score = score + 20;
        feedback.push(owned("Consider using a longer password (12+ characters)"));
    } else {
        feedback.push(owned("Password should be at least 8 characters long"));
    }
    assert(texts(feedback@) =~= length_feedback(n));
    let lower = any_in_class(text, 0);
    let upper = any_in_class(text, 1);
    let digit = any_in_class(text, 2);
    let special = any_in_class(text, 3);
    let count: u8 = (if lower { 1u8 } else { 0u8 }) + (if upper { 1u8 } else { 0u8 }) + (if digit {
        1u8
    } else {
        0u8
    }) + (if special { 1u8 } else { 0u8 });
    let ghost v = variety(text@);
    assert(count as int == v);
    let ghost before = texts(feedback@);
    if count == 4 {
        score = score + 40;
    } else if count == 3 {
        score = score + 30;
        feedback.push(owned("Consider adding more character types"));
    } else if count == 2 {
        score = score + 20;
        feedback.push(owned("Use uppercase, lowercase, numbers, and symbols"));
    } else {
        score = score + 10;
        feedback.push(owned("Password should include different character types"));
    }
    assert(texts(feedback@) =~= before + variety_feedback(v));
    let common = common_pattern_exec(lowered);
    let ghost before2 = texts(feedback@);
    if common {
        score = score.saturating_sub(20);
        feedback.push(owned("Avoid common patterns and dictionary words"));
    } else {
        score = score + 20;
    }
    assert(texts(feedback@) =~= before2 + (if common {
        seq!["Avoid common patterns and dictionary words"@]
    } else {
        seq![]
    }));
    let repeated = has_repetition_exec(text);
    let ghost before3 = texts(feedback@);
    if repeated {
        score = score.saturating_sub(10);
        feedback.push(owned("Avoid repeating patterns"));
    } else {
        score = score + 10;
    }
    assert(texts(feedback@) =~= before3 + (if repeated {
        seq!["Avoid repeating patterns"@]
    } else {
        seq![]
    }));
    assert(texts(feedback@) =~= findings(n, v, common, repeated));
    assert(score as int == strength_score(n, v, common, repeated));
    let ghost f = texts(feedback@);
    if score >= 80 && feedback.len() == 0 {
        feedback.push(owned("Strong password!"));
    } else if score >= 60 {
        feedback.push(owned("Good password strength"));
    } else if score >= 40 {
        feedback.push(owned("Moderate password strength"));
    } else {
        feedback.push(owned("Weak password - consider making it stronger"));
    }
    assert(texts(feedback@) =~= f.push(verdict(score as int, f.len() == 0)));
    PasswordStrength { score, feedback }
}

/// Scores a secret by its length in bytes, the classes of characters it
/// uses, the denied substrings in its lowercase form, and repeated runs of
/// three characters. The score is advisory; nothing is refused on it.
pub fn validate_password_strength(password: &SecurePassword) -> (r: PasswordStrength)
    ensures
        r.score as int == strength_score(
            (encode_utf8(lossy_text(password@)).len() as usize) as int,
            variety(lossy_text(password@)),
            has_common_pattern(lowercase_text(lossy_text(password@))),
            has_repetition(lossy_text(password@)),
        ),
        texts(r.feedback@) == strength_feedback(
            (encode_utf8(lossy_text(password@)).len() as usize) as int,
            variety(lossy_text(password@)),
            has_common_pattern(lowercase_text(lossy_text(password@))),
            has_repetition(lossy_text(password@)),
        ),
{
    let text = lossy_string(password.as_bytes());
    let lowered = to_lowercase(text.as_str());
    let byte_len = text.as_str().len();
    score_text(byte_len, &to_chars(text.as_str()), &to_chars(lowered.as_str()))
}

/// Clearing that overwrites the old content with zeros before it lets go of it.
pub trait SecureClear {
    fn secure_clear(&mut self);
}

impl SecureClear for String {
    fn secure_clear(&mut self) {
        wipe_string(self);
    }
}

impl SecureClear for Vec<u8> {
    fn secure_clear(&mut self) {
        wipe_bytes(self);
    }
}

/// Compares two byte sequences.
pub fn bytes_equal(a: &[u8], b: &[u8]) -> (r: bool)
    ensures
        r == (a@ == b@),
{
    if a.len() != b.len() {
        return false;
    }
    let mut i: usize = 0;
    while i < a.len()
        invariant
            a@.len() == b@.len(),
            i <= a@.len(),
            forall|j: int| 0 <= j < i ==> a@[j] == b@[j],
        decreases a.len() - i,
    {
        if a[i] != b[i] {
            return false;
        }
        i = i + 1;
    }
    assert(a@ =~= b@);
    true
}

} // verus!
