//! Byte-level prefix matching and the hex pattern a search looks for.
use vstd::prelude::*;

verus! {

/// `prefix` is a byte-wise prefix of `key` (the empty sequence is a prefix of anything).
pub open spec fn is_byte_prefix(key: Seq<u8>, prefix: Seq<u8>) -> bool {
    &&& prefix.len() <= key.len()
    &&& key.subrange(0, prefix.len() as int) == prefix
}

/// Determines whether a public key starts with the given byte pattern.
pub fn check_prefix_match(public_key_bytes: &[u8], prefix_bytes: &[u8]) -> (r: bool)
    ensures
        r == is_byte_prefix(public_key_bytes@, prefix_bytes@),
        prefix_bytes@.len() > public_key_bytes@.len() ==> !r,
        prefix_bytes@.len() == 0 ==> r,
{
    if prefix_bytes.len() > public_key_bytes.len() {
        return false;
    }
    let mut i: usize = 0;
    while i < prefix_bytes.len()
        invariant
            prefix_bytes.len() <= public_key_bytes.len(),
            i <= prefix_bytes.len(),
            forall|j: int| 0 <= j < i ==> public_key_bytes@[j] == prefix_bytes@[j],
        decreases prefix_bytes.len() - i,
    {
        if public_key_bytes[i] != prefix_bytes[i] {
            return false;
        }
        i = i + 1;
    }
    assert(public_key_bytes@.subrange(0, prefix_bytes@.len() as int) =~= prefix_bytes@);
    true
}

/// Value of one hex digit, in either case; any other character counts as zero.
pub open spec fn hex_nibble(c: char) -> u8 {
    if '0' <= c && c <= '9' {
        (c as u32 - '0' as u32) as u8
    } else if 'a' <= c && c <= 'f' {
        (c as u32 - 'a' as u32 + 10) as u8
    } else if 'A' <= c && c <= 'F' {
        (c as u32 - 'A' as u32 + 10) as u8
    } else {
        0
    }
}

/// The nibble at position `k` of a pattern, reading past its end as a zero nibble.
pub open spec fn nibble_at(s: Seq<char>, k: int) -> u8 {
    if 0 <= k < s.len() {
        hex_nibble(s[k])
    } else {
        0
    }
}

/// The bytes a hex pattern stands for: two nibbles per byte, high nibble first, and an
/// odd-length pattern padded on the right with a zero nibble ("ABC" gives AB C0).
pub open spec fn hex_pattern_bytes(s: Seq<char>) -> Seq<u8> {
    Seq::new(
        ((s.len() + 1) / 2) as nat,
        |i: int| (nibble_at(s, 2 * i) * 16 + nibble_at(s, 2 * i + 1)) as u8,
    )
}

fn nibble_value(c: char) -> (r: u8)
    ensures
        r == hex_nibble(c),
        r < 16,
{
    if '0' <= c && c <= '9' {
        (c as u32 - '0' as u32) as u8
    } else if 'a' <= c && c <= 'f' {
        (c as u32 - 'a' as u32 + 10) as u8
    } else if 'A' <= c && c <= 'F' {
        (c as u32 - 'A' as u32 + 10) as u8
    } else {
        0
    }
}

/// Converts a hex pattern to the bytes it stands for. Odd-length patterns are padded
/// at the end, so the leading nibbles keep their meaning; characters that are not hex
/// digits count as zero instead of failing.
pub fn hex_string_to_bytes(hex: &str) -> (r: Vec<u8>)
    ensures
        r@ == hex_pattern_bytes(hex@),
{
    broadcast use vstd::string::group_string_axioms;

    let mut nibbles: Vec<u8> = Vec::new();
    for c in it: hex.chars()
        invariant
            it.seq() == hex@,
            nibbles@.len() == it.index(),
            forall|k: int| 0 <= k < it.index() ==> nibbles@[k] == hex_nibble(hex@[k]),
            forall|k: int| 0 <= k < it.index() ==> nibbles@[k] < 16,
    {
        nibbles.push(nibble_value(c));
    }
    let n = nibbles.len();
    let mut out: Vec<u8> = Vec::new();
    let mut i: usize = 0;
    while i < n
        invariant
            n == nibbles@.len() == hex@.len(),
            forall|k: int| 0 <= k < n ==> nibbles@[k] == hex_nibble(hex@[k]),
            forall|k: int| 0 <= k < n ==> nibbles@[k] < 16,
            i % 2 == 0 || i == n,
            i <= n,
            out@.len() == (i + 1) / 2,
            forall|j: int| 0 <= j < out@.len() ==> out@[j] == hex_pattern_bytes(hex@)[j],
        decreases n - i,
    {
        let high = nibbles[i];
        if i + 1 < n {
            out.push(high * 16 + nibbles[i + 1]);
            i = i + 2;
        } else {
            out.push(high * 16);
            i = i + 1;
        }
    }
    assert(out@ =~= hex_pattern_bytes(hex@));
    out
}

/// The uppercase hex digit for a value below 16.
pub open spec fn upper_hex_digit(n: u8) -> char {
    if n < 10 {
        (48 + n) as char
    } else {
        (55 + n) as char
    }
}

/// Uppercase hex text of a byte string: two digits per byte, high nibble first.
pub open spec fn upper_hex(bytes: Seq<u8>) -> Seq<char> {
    Seq::new(
        2 * bytes.len(),
        |i: int|
            if i % 2 == 0 {
                upper_hex_digit(bytes[i / 2] / 16)
            } else {
                upper_hex_digit(bytes[i / 2] % 16)
            },
    )
}

/// Relies on hex::encode_upper: each byte becomes two digits from "0123456789ABCDEF",
/// high nibble first.
#[verifier::external_body]
pub(crate) fn encode_upper_hex(bytes: &[u8]) -> (r: String)
    ensures
        r@ == upper_hex(bytes@),
{
    hex::encode_upper(bytes)
}

} // verus!
