//! Derivation of segment, metadata and lock names from logical keys.
//!
//! A logical key is hashed with SHA-224 and hex-encoded; the value segment is
//! named `shmap.<hex digest>`, the metadata sidecar appends `.metadata`, and
//! the lock name is derived from either by stripping any `.metadata` suffixes
//! and appending `.lock` — so a key's value and metadata share one lock.

use vstd::prelude::*;

use crate::errors::ShmapError;

verus! {

/// The SHA-224 digest of a byte sequence, as computed by the outside hash
/// implementation. Stated nowhere; trusted wrappers relate calls to it.
pub uninterp spec fn sha224_of(bytes: Seq<u8>) -> Seq<u8>;

/// Relies on sha2::Sha224 (via the Digest trait): the 28-byte SHA-224 digest
/// of the key's UTF-8 bytes, a function of those bytes alone.
#[verifier::external_body]
fn sha224(key: &str) -> (r: Vec<u8>)
    ensures
        r@ == sha224_of(vstd::utf8::encode_utf8(key@)),
        r@.len() == 28,
{
    let mut hasher = <sha2::Sha224 as sha2::Digest>::new();
    sha2::Digest::update(&mut hasher, key.as_bytes());
    sha2::Digest::finalize(hasher).to_vec()
}

/// The lowercase hex digit for a nibble.
pub open spec fn spec_hex_char(n: u8) -> char {
    if n == 0 {
        '0'
    } else if n == 1 {
        '1'
    } else if n == 2 {
        '2'
    } else if n == 3 {
        '3'
    } else if n == 4 {
        '4'
    } else if n == 5 {
        '5'
    } else if n == 6 {
        '6'
    } else if n == 7 {
        '7'
    } else if n == 8 {
        '8'
    } else if n == 9 {
        '9'
    } else if n == 10 {
        'a'
    } else if n == 11 {
        'b'
    } else if n == 12 {
        'c'
    } else if n == 13 {
        'd'
    } else if n == 14 {
        'e'
    } else {
        'f'
    }
}

pub open spec fn is_hex_char(c: char) -> bool {
    ('0' <= c && c <= '9') || ('a' <= c && c <= 'f')
}

/// Lowercase hex encoding, two digits per byte, high nibble first.
pub open spec fn spec_hex(bytes: Seq<u8>) -> Seq<char>
    decreases bytes.len(),
{
    if bytes.len() == 0 {
        Seq::empty()
    } else {
        seq![
            spec_hex_char(bytes[0] / 16),
            spec_hex_char(bytes[0] % 16),
        ] + spec_hex(bytes.drop_first())
    }
}

/// The sanitized segment name for a logical key: a fixed prefix followed by
/// the hex digest of the key's UTF-8 bytes.
pub open spec fn spec_sanitize(key: Seq<char>) -> Seq<char> {
    "shmap."@ + spec_hex(sha224_of(vstd::utf8::encode_utf8(key)))
}

/// The metadata sidecar's name for a value segment name.
pub open spec fn spec_metadata_name(name: Seq<char>) -> Seq<char> {
    name + ".metadata"@
}

/// `name` with every copy of `suffix` removed from its end; an empty suffix
/// strips nothing.
pub open spec fn spec_trim_suffix(name: Seq<char>, suffix: Seq<char>) -> Seq<char>
    decreases name.len(),
{
    if suffix.len() > 0 && name.len() >= suffix.len() && name.subrange(
        name.len() - suffix.len(),
        name.len() as int,
    ) == suffix {
        spec_trim_suffix(name.subrange(0, name.len() - suffix.len()), suffix)
    } else {
        name
    }
}

/// `name` with every trailing `.metadata` suffix removed.
pub open spec fn spec_strip_metadata(name: Seq<char>) -> Seq<char> {
    spec_trim_suffix(name, ".metadata"@)
}

/// The lock name shared by a key's value and metadata segments.
pub open spec fn spec_lock_name(name: Seq<char>) -> Seq<char> {
    spec_strip_metadata(name) + ".lock"@
}

fn hex_digit(n: u8) -> (r: &'static str)
    requires
        n < 16,
    ensures
        r@ == seq![spec_hex_char(n)],
{
    proof {
        reveal_strlit("0");
        reveal_strlit("1");
        reveal_strlit("2");
        reveal_strlit("3");
        reveal_strlit("4");
        reveal_strlit("5");
        reveal_strlit("6");
        reveal_strlit("7");
        reveal_strlit("8");
        reveal_strlit("9");
        reveal_strlit("a");
        reveal_strlit("b");
        reveal_strlit("c");
        reveal_strlit("d");
        reveal_strlit("e");
        reveal_strlit("f");
    }
    match n {
        0 => "0",
        1 => "1",
        2 => "2",
        3 => "3",
        4 => "4",
        5 => "5",
        6 => "6",
        7 => "7",
        8 => "8",
        9 => "9",
        10 => "a",
        11 => "b",
        12 => "c",
        13 => "d",
        14 => "e",
        _ => "f",
    }
}

proof fn lemma_spec_hex_len(bytes: Seq<u8>)
    ensures
        spec_hex(bytes).len() == 2 * bytes.len(),
    decreases bytes.len(),
{
    if bytes.len() > 0 {
        lemma_spec_hex_len(bytes.drop_first());
    }
}

proof fn lemma_spec_hex_append(bytes: Seq<u8>, x: u8)
    ensures
        spec_hex(bytes + seq![x]) == spec_hex(bytes) + seq![
            spec_hex_char(x / 16),
            spec_hex_char(x % 16),
        ],
    decreases bytes.len(),
{
    let ext = bytes + seq![x];
    if bytes.len() == 0 {
        assert(ext[0] == x);
        assert(ext.drop_first() =~= Seq::<u8>::empty());
        assert(spec_hex(ext.drop_first()) =~= Seq::<char>::empty());
        assert(spec_hex(bytes) =~= Seq::<char>::empty());
        assert(spec_hex(ext) =~= spec_hex(bytes) + seq![
            spec_hex_char(x / 16),
            spec_hex_char(x % 16),
        ]);
    } else {
        assert(ext[0] == bytes[0]);
        assert(ext.drop_first() =~= bytes.drop_first() + seq![x]);
        lemma_spec_hex_append(bytes.drop_first(), x);
        assert(spec_hex(ext) == seq![
            spec_hex_char(bytes[0] / 16),
            spec_hex_char(bytes[0] % 16),
        ] + (spec_hex(bytes.drop_first()) + seq![
            spec_hex_char(x / 16),
            spec_hex_char(x % 16),
        ]));
        assert(spec_hex(ext) =~= spec_hex(bytes) + seq![
            spec_hex_char(x / 16),
            spec_hex_char(x % 16),
        ]);
    }
}

/// Hashes and hex-encodes a logical key into its segment name.
pub fn sanitize_key(key: &str) -> (r: String)
    ensures
        r@ == spec_sanitize(key@),
        spec_valid_segment_name(r@),
        sha224_of(vstd::utf8::encode_utf8(key@)).len() == 28,
{
    let digest = sha224(key);
    proof {
        lemma_sanitized_name_valid(key@);
    }
    let mut s = String::from_str("shmap.");
    let mut i: usize = 0;
    while i < digest.len()
        invariant
            i <= digest.len(),
            digest@.len() == 28,
            s@ == "shmap."@ + spec_hex(digest@.take(i as int)),
        decreases digest.len() - i,
    {
        let b = digest[i];
        proof {
            lemma_spec_hex_append(digest@.take(i as int), b);
            assert(digest@.take(i as int) + seq![b] =~= digest@.take(i + 1));
        }
        s.append(hex_digit(b / 16));
        s.append(hex_digit(b % 16));
        i += 1;
    }
    proof {
        assert(digest@.take(digest@.len() as int) =~= digest@);
    }
    s
}

/// The metadata sidecar's name for a logical key.
pub fn sanitize_metadata_key(key: &str) -> (r: String)
    ensures
        r@ == spec_metadata_name(spec_sanitize(key@)),
        spec_valid_segment_name(r@),
{
    let s = sanitize_key(key);
    proof {
        lemma_sanitized_name_valid(key@);
    }
    s.concat(".metadata")
}

pub open spec fn spec_ends_with(s: Seq<char>, suffix: Seq<char>) -> bool {
    s.len() >= suffix.len() && s.subrange(s.len() - suffix.len(), s.len() as int)
        == suffix
}

pub open spec fn spec_starts_with(s: Seq<char>, prefix: Seq<char>) -> bool {
    s.len() >= prefix.len() && s.subrange(0, prefix.len() as int) == prefix
}

/// Whether `s` ends with `suffix`, by characters.
pub fn str_ends_with(s: &str, suffix: &str) -> (r: bool)
    ensures
        r == spec_ends_with(s@, suffix@),
{
    let n = s.unicode_len();
    let m = suffix.unicode_len();
    if n < m {
        return false;
    }
    let mut i: usize = 0;
    while i < m
        invariant
            m <= n,
            n == s@.len(),
            m == suffix@.len(),
            i <= m,
            forall|j: int| 0 <= j < i ==> s@[n - m + j] == suffix@[j],
        decreases m - i,
    {
        if s.get_char(n - m + i) != suffix.get_char(i) {
            proof {
                assert(s@.subrange(n - m, n as int)[i as int] != suffix@[i as int]);
            }
            return false;
        }
        i += 1;
    }
    proof {
        assert(s@.subrange(n - m, n as int) =~= suffix@);
    }
    true
}

/// Whether `s` starts with `prefix`, by characters.
pub fn str_starts_with(s: &str, prefix: &str) -> (r: bool)
    ensures
        r == spec_starts_with(s@, prefix@),
{
    let n = s.unicode_len();
    let m = prefix.unicode_len();
    if n < m {
        return false;
    }
    let mut i: usize = 0;
    while i < m
        invariant
            m <= n,
            n == s@.len(),
            m == prefix@.len(),
            i <= m,
            forall|j: int| 0 <= j < i ==> s@[j] == prefix@[j],
        decreases m - i,
    {
        if s.get_char(i) != prefix.get_char(i) {
            proof {
                assert(s@.subrange(0, m as int)[i as int] != prefix@[i as int]);
            }
            return false;
        }
        i += 1;
    }
    proof {
        assert(s@.subrange(0, m as int) =~= prefix@);
    }
    true
}

/// Removes every copy of `suffix` from the end of `name`.
pub fn trim_suffix(name: &str, suffix: &str) -> (r: String)
    ensures
        r@ == spec_trim_suffix(name@, suffix@),
{
    let m = suffix.unicode_len();
    let mut cur: String = name.to_owned();
    if m == 0 {
        return cur;
    }
    let mut suffixed = str_ends_with(cur.as_str(), suffix);
    while suffixed
        invariant
            m == suffix@.len(),
            m > 0,
            spec_trim_suffix(cur@, suffix@) == spec_trim_suffix(name@, suffix@),
            suffixed == spec_ends_with(cur@, suffix@),
        decreases cur@.len(),
    {
        let n = cur.as_str().unicode_len();
        let next = cur.as_str().substring_char(0, n - m).to_owned();
        proof {
            assert(spec_trim_suffix(cur@, suffix@) == spec_trim_suffix(
                cur@.subrange(0, cur@.len() - suffix@.len()),
                suffix@,
            ));
        }
        cur = next;
        suffixed = str_ends_with(cur.as_str(), suffix);
    }
    cur
}

/// Derives the lock name for a value or metadata segment name: any trailing
/// `.metadata` suffixes are stripped, then `.lock` is appended, so the two
/// segments of one key agree on their lock.
pub fn lock_name_for(name: &str) -> (r: String)
    ensures
        r@ == spec_lock_name(name@),
{
    let trimmed = trim_suffix(name, ".metadata");
    trimmed.concat(".lock")
}

/// A name the OS shared-memory primitive accepts: non-empty, within the
/// length limit, and free of separators and NUL characters.
pub open spec fn spec_valid_segment_name(name: Seq<char>) -> bool {
    &&& 0 < name.len() <= 254
    &&& forall|i: int| 0 <= i < name.len() ==> name[i] != '/' && name[i] != '\u{0}'
}

proof fn lemma_spec_hex_chars(bytes: Seq<u8>)
    ensures
        forall|i: int| 0 <= i < spec_hex(bytes).len() ==> is_hex_char(
            #[trigger] spec_hex(bytes)[i],
        ),
    decreases bytes.len(),
{
    if bytes.len() > 0 {
        lemma_spec_hex_chars(bytes.drop_first());
        assert(is_hex_char(spec_hex_char(bytes[0] / 16)));
        assert(is_hex_char(spec_hex_char(bytes[0] % 16)));
        assert forall|i: int| 0 <= i < spec_hex(bytes).len() implies is_hex_char(
            spec_hex(bytes)[i],
        ) by {
            if i >= 2 {
                assert(spec_hex(bytes)[i] == spec_hex(bytes.drop_first())[i - 2]);
            }
        }
    }
}

proof fn lemma_spec_hex_injective(b1: Seq<u8>, b2: Seq<u8>)
    requires
        spec_hex(b1) == spec_hex(b2),
    ensures
        b1 == b2,
    decreases b1.len(),
{
    lemma_spec_hex_len(b1);
    lemma_spec_hex_len(b2);
    assert(spec_hex(b1).len() == spec_hex(b2).len());
    assert(b1.len() == b2.len());
    if b1.len() == 0 {
        assert(b1 =~= b2);
    } else {
        let x = b1[0];
        let y = b2[0];
        assert(spec_hex(b1)[0] == spec_hex_char(x / 16));
        assert(spec_hex(b2)[0] == spec_hex_char(y / 16));
        assert(spec_hex(b1)[1] == spec_hex_char(x % 16));
        assert(spec_hex(b2)[1] == spec_hex_char(y % 16));
        assert(x / 16 == y / 16 && x % 16 == y % 16);
        assert(x == y);
        assert(spec_hex(b1.drop_first()) =~= spec_hex(b1).subrange(2, spec_hex(b1).len() as int));
        assert(spec_hex(b2.drop_first()) =~= spec_hex(b2).subrange(2, spec_hex(b2).len() as int));
        lemma_spec_hex_injective(b1.drop_first(), b2.drop_first());
        assert forall|i: int| 0 <= i < b1.len() implies b1[i] == b2[i] by {
            if i > 0 {
                assert(b1[i] == b1.drop_first()[i - 1]);
                assert(b2[i] == b2.drop_first()[i - 1]);
            }
        }
        assert(b1 =~= b2);
    }
}

proof fn lemma_append_cancels_prefix(p: Seq<char>, a: Seq<char>, b: Seq<char>)
    requires
        p + a == p + b,
    ensures
        a == b,
{
    assert(a =~= (p + a).subrange(p.len() as int, (p + a).len() as int));
    assert(b =~= (p + b).subrange(p.len() as int, (p + b).len() as int));
}

proof fn lemma_append_suffix_injective(a: Seq<char>, b: Seq<char>, suffix: Seq<char>)
    requires
        a != b,
    ensures
        a + suffix != b + suffix,
{
    if a + suffix == b + suffix {
        assert(a =~= (a + suffix).subrange(0, a.len() as int));
        assert(b =~= (b + suffix).subrange(0, b.len() as int));
    }
}

/// The sanitized name never carries a `.metadata` suffix, so deriving a lock
/// name from it strips nothing.
pub(crate) proof fn lemma_strip_of_sanitized(key: Seq<char>)
    ensures
        spec_strip_metadata(spec_sanitize(key)) == spec_sanitize(key),
{
    reveal_strlit("shmap.");
    reveal_strlit(".metadata");
    let s = spec_sanitize(key);
    let hex = spec_hex(sha224_of(vstd::utf8::encode_utf8(key)));
    lemma_spec_hex_len(sha224_of(vstd::utf8::encode_utf8(key)));
    lemma_spec_hex_chars(sha224_of(vstd::utf8::encode_utf8(key)));
    if s.len() >= 9 && s.subrange(s.len() - 9, s.len() as int) == ".metadata"@ {
        // The second-to-last character would have to be 't', but every
        // character past the fixed prefix is a hex digit.
        assert(s[s.len() - 2] == ".metadata"@[7]);
        assert(".metadata"@[7] == 't');
        assert(s.len() == 6 + hex.len());
        assert(s.len() - 2 >= 6);
        assert(s[s.len() - 2] == hex[s.len() - 8]);
        assert(is_hex_char(hex[s.len() - 8]));
        assert(false);
    }
}

/// The sanitized name starts with the store's prefix and ends in hex, so it
/// carries neither a metadata nor a lock suffix.
pub(crate) proof fn lemma_sanitize_shape(key: Seq<char>)
    ensures
        spec_sanitize(key).len() >= 6,
        spec_starts_with(spec_sanitize(key), "shmap"@),
        !spec_ends_with(spec_sanitize(key), "metadata"@),
        !spec_ends_with(spec_sanitize(key), "lock"@),
{
    reveal_strlit("shmap.");
    reveal_strlit("shmap");
    reveal_strlit("metadata");
    reveal_strlit("lock");
    let s = spec_sanitize(key);
    let d = sha224_of(vstd::utf8::encode_utf8(key));
    let hex = spec_hex(d);
    lemma_spec_hex_len(d);
    lemma_spec_hex_chars(d);
    assert(s.len() == 6 + hex.len());
    assert(s.subrange(0, 5) =~= "shmap"@);
    if s.len() >= 8 && s.subrange(s.len() - 8, s.len() as int) == "metadata"@ {
        assert(s[s.len() - 2] == "metadata"@[6]);
        assert(s.len() - 2 >= 6);
        assert(s[s.len() - 2] == hex[s.len() - 8]);
        assert(is_hex_char(hex[s.len() - 8]));
        assert(false);
    }
    if s.len() >= 4 && s.subrange(s.len() - 4, s.len() as int) == "lock"@ {
        if hex.len() == 0 {
            assert(s[s.len() - 4] == "lock"@[0]);
            assert(s[2] == 'm');
            assert(false);
        } else {
            assert(s[s.len() - 1] == "lock"@[3]);
            assert(s.len() - 1 >= 6);
            assert(s[s.len() - 1] == hex[s.len() - 7]);
            assert(is_hex_char(hex[s.len() - 7]));
            assert(false);
        }
    }
}

/// Name isolation: logical keys whose digests differ never share a segment
/// name, a metadata name, or a lock name.
pub proof fn lemma_name_isolation(k1: Seq<char>, k2: Seq<char>)
    ensures
        sha224_of(vstd::utf8::encode_utf8(k1)) != sha224_of(vstd::utf8::encode_utf8(k2)) ==> {
            &&& spec_sanitize(k1) != spec_sanitize(k2)
            &&& spec_metadata_name(spec_sanitize(k1)) != spec_metadata_name(spec_sanitize(k2))
            &&& spec_lock_name(spec_sanitize(k1)) != spec_lock_name(spec_sanitize(k2))
        },
{
    let d1 = sha224_of(vstd::utf8::encode_utf8(k1));
    let d2 = sha224_of(vstd::utf8::encode_utf8(k2));
    if d1 != d2 {
        let s1 = spec_sanitize(k1);
        let s2 = spec_sanitize(k2);
        if s1 == s2 {
            lemma_append_cancels_prefix("shmap."@, spec_hex(d1), spec_hex(d2));
            lemma_spec_hex_injective(d1, d2);
        }
        assert(s1 != s2);
        lemma_append_suffix_injective(s1, s2, ".metadata"@);
        lemma_strip_of_sanitized(k1);
        lemma_strip_of_sanitized(k2);
        lemma_append_suffix_injective(s1, s2, ".lock"@);
    }
}

/// One lock per logical key: a value segment name and its metadata sidecar's
/// name always derive the same lock name.
pub proof fn lemma_value_and_metadata_share_one_lock(name: Seq<char>)
    ensures
        spec_lock_name(spec_metadata_name(name)) == spec_lock_name(name),
{
    reveal_strlit(".metadata");
    let ext = spec_metadata_name(name);
    assert(ext.len() == name.len() + 9);
    assert(ext.subrange(ext.len() - 9, ext.len() as int) =~= ".metadata"@);
    assert(ext.subrange(0, ext.len() - 9) =~= name);
    assert(spec_strip_metadata(ext) == spec_strip_metadata(name));
}

/// Sanitized names always satisfy the OS naming constraints.
proof fn lemma_sanitized_name_valid(key: Seq<char>)
    requires
        sha224_of(vstd::utf8::encode_utf8(key)).len() == 28,
    ensures
        spec_valid_segment_name(spec_sanitize(key)),
        spec_valid_segment_name(spec_metadata_name(spec_sanitize(key))),
{
    reveal_strlit("shmap.");
    reveal_strlit(".metadata");
    let d = sha224_of(vstd::utf8::encode_utf8(key));
    let s = spec_sanitize(key);
    lemma_spec_hex_len(d);
    lemma_spec_hex_chars(d);
    assert(s.len() == 62);
    assert(forall|i: int| 0 <= i < s.len() ==> s[i] != '/' && s[i] != '\u{0}') by {
        assert(forall|i: int| 6 <= i < s.len() ==> s[i] == spec_hex(d)[i - 6]
            && is_hex_char(#[trigger] s[i]));
        assert(s[0] == 's' && s[1] == 'h' && s[2] == 'm' && s[3] == 'a' && s[4] == 'p'
            && s[5] == '.');
    }
    let m = spec_metadata_name(s);
    assert(forall|i: int| 0 <= i < m.len() ==> m[i] != '/' && m[i] != '\u{0}') by {
        assert(forall|i: int| 0 <= i < s.len() ==> m[i] == s[i]);
        assert(forall|i: int| s.len() <= i < m.len() ==> m[i] == ".metadata"@[i - s.len()]);
        assert(".metadata"@[0] == '.' && ".metadata"@[1] == 'm' && ".metadata"@[2] == 'e'
            && ".metadata"@[3] == 't' && ".metadata"@[4] == 'a' && ".metadata"@[5] == 'd'
            && ".metadata"@[6] == 'a' && ".metadata"@[7] == 't' && ".metadata"@[8] == 'a');
    }
}

/// Checks a segment name against the OS naming constraints, failing fast with
/// a dedicated error rather than an opaque OS error.
pub fn validate_segment_name(name: &str) -> (r: Result<(), ShmapError>)
    ensures
        r is Ok <==> spec_valid_segment_name(name@),
        r is Err ==> r == Err::<(), ShmapError>(ShmapError::NameInvalid),
{
    let n = name.unicode_len();
    if n == 0 || n > 254 {
        return Err(ShmapError::NameInvalid);
    }
    let mut i: usize = 0;
    while i < n
        invariant
            n == name@.len(),
            0 < n <= 254,
            i <= n,
            forall|j: int| 0 <= j < i ==> name@[j] != '/' && name@[j] != '\u{0}',
        decreases n - i,
    {
        let c = name.get_char(i);
        if c == '/' || c == '\u{0}' {
            return Err(ShmapError::NameInvalid);
        }
        i += 1;
    }
    Ok(())
}

} // verus!
