//! Random resource identifiers.
use vstd::prelude::*;

verus! {

/// Number of characters in a generated identifier.
pub const ID_LEN: usize = 21;

/// The characters an identifier is drawn from: ASCII letters and digits.
pub open spec fn is_id_char(c: char) -> bool {
    ('A' <= c && c <= 'Z') || ('a' <= c && c <= 'z') || ('0' <= c && c <= '9')
}

/// A well-formed generated identifier: `ID_LEN` letters and digits.
pub open spec fn is_generated_id(s: Seq<char>) -> bool {
    s.len() == ID_LEN && forall|i: int| 0 <= i < s.len() ==> is_id_char(#[trigger] s[i])
}

/// Relies on nanoid::format: with the crate's entropy source, it draws random
/// bytes, keeps those that index into `alphabet` and pushes the matching
/// character until the string holds `size` bytes. With a non-empty ASCII
/// alphabet of at most 255 characters and `size > 0` that is `size`
/// characters, each taken from `alphabet`; it panics on a longer alphabet and
/// never returns on an empty one or on `size == 0`.
#[verifier::external_body]
fn nanoid_format(alphabet: &[char], size: usize) -> (r: String)
    requires
        0 < size,
        0 < alphabet@.len() <= 255,
        forall|i: int| 0 <= i < alphabet@.len() ==> (#[trigger] alphabet@[i]) <= '\x7f',
    ensures
        r@.len() == size,
        forall|i: int| 0 <= i < r@.len() ==> alphabet@.contains(#[trigger] r@[i]),
{
    nanoid::format(nanoid::rngs::default, alphabet, size)
}

/// The 62 letters and digits, upper case first.
fn id_alphabet() -> (r: Vec<char>)
    ensures
        r@.len() == 62,
        forall|i: int| 0 <= i < r@.len() ==> is_id_char(#[trigger] r@[i]),
{
    let mut r: Vec<char> = Vec::new();
    let mut c: char = 'A';
    while c <= 'Z'
        invariant
            'A' <= c <= '[',
            r@.len() == c as int - 'A' as int,
            forall|i: int| 0 <= i < r@.len() ==> is_id_char(#[trigger] r@[i]),
        decreases 'Z' as int - c as int + 1,
    {
        r.push(c);
        c = next_char(c);
    }
    let mut c: char = 'a';
    while c <= 'z'
        invariant
            'a' <= c <= '{',
            r@.len() == 26 + (c as int - 'a' as int),
            forall|i: int| 0 <= i < r@.len() ==> is_id_char(#[trigger] r@[i]),
        decreases 'z' as int - c as int + 1,
    {
        r.push(c);
        c = next_char(c);
    }
    let mut c: char = '0';
    while c <= '9'
        invariant
            '0' <= c <= ':',
            r@.len() == 52 + (c as int - '0' as int),
            forall|i: int| 0 <= i < r@.len() ==> is_id_char(#[trigger] r@[i]),
        decreases '9' as int - c as int + 1,
    {
        r.push(c);
        c = next_char(c);
    }
    r
}

/// The ASCII character after `c`.
fn next_char(c: char) -> (r: char)
    requires
        c < '\x7f',
    ensures
        r as int == c as int + 1,
{
    ((c as u8) + 1) as char
}

/// A fresh random identifier of `ID_LEN` letters and digits. Nothing checks
/// it against identifiers already in use.
pub fn random_id() -> (r: String)
    ensures
        is_generated_id(r@),
{
    let alphabet = id_alphabet();
    let r = nanoid_format(alphabet.as_slice(), ID_LEN);
    assert forall|i: int| 0 <= i < r@.len() implies is_id_char(#[trigger] r@[i]) by {
        let j = choose|j: int| 0 <= j < alphabet@.len() && alphabet@[j] == r@[i];
        assert(is_id_char(alphabet@[j]));
    }
    r
}

} // verus!
