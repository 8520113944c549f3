//! Stable identifiers for catalogue entries, derived from a track's path.
use vstd::prelude::*;
use vstd::string::{StrSliceExecFns, StringExecFns, StringSliceAdditionalSpecFns};
use vstd::utf8::encode_utf8;

verus! {

/// The djb2 hash of a byte sequence, with 64-bit wrap-around:
/// start at 5381, and for each byte `h = h * 33 + byte`.
pub open spec fn djb2(bytes: Seq<u8>) -> u64
    decreases bytes.len(),
{
    if bytes.len() == 0 {
        5381
    } else {
        let h = djb2(bytes.drop_last());
        ((h as nat * 33 + bytes.last() as nat) % 0x1_0000_0000_0000_0000) as u64
    }
}

/// Hashes the UTF-8 bytes of `input` with djb2 (see [`djb2`]).
pub fn md5_hash(input: &str) -> (r: u64)
    ensures
        r == djb2(input.spec_bytes()),
{
    let bytes = input.as_bytes();
    let mut hash: u64 = 5381;
    let mut i: usize = 0;
    while i < bytes.len()
        invariant
            i <= bytes@.len(),
            bytes@ == input.spec_bytes(),
            hash == djb2(bytes@.subrange(0, i as int)),
        decreases bytes@.len() - i,
    {
        proof {
            assert(bytes@.subrange(0, i as int + 1).drop_last() =~= bytes@.subrange(0, i as int));
        }
        hash = hash.wrapping_mul(33).wrapping_add(bytes[i] as u64);
        i = i + 1;
    }
    proof {
        assert(bytes@.subrange(0, i as int) =~= bytes@);
    }
    hash
}

/// The lower-case hexadecimal digit for `d < 16`.
pub open spec fn hex_digit(d: nat) -> char {
    if d < 16 {
        seq!['0', '1', '2', '3', '4', '5', '6', '7', '8', '9', 'a', 'b', 'c', 'd', 'e', 'f'][d as int]
    } else {
        '0'
    }
}

/// `n` written in lower-case hexadecimal, without leading zeros.
pub open spec fn lower_hex(n: nat) -> Seq<char>
    decreases n,
{
    if n < 16 {
        seq![hex_digit(n)]
    } else {
        lower_hex(n / 16).push(hex_digit(n % 16))
    }
}

/// The identifier of the entry for the file at `path`: the lower-case
/// hexadecimal djb2 hash of the path's UTF-8 bytes.
pub open spec fn id_of(path: Seq<char>) -> Seq<char> {
    lower_hex(djb2(encode_utf8(path)) as nat)
}

/// Writes `n` in lower-case hexadecimal, without leading zeros.
fn to_lower_hex(n: u64) -> (r: String)
    ensures
        r@ == lower_hex(n as nat),
    decreases n,
{
    let digits = "0123456789abcdef";
    proof {
        reveal_strlit("0123456789abcdef");
    }
    let d = (n % 16) as usize;
    let last = digits.substring_char(d, d + 1);
    assert(last@ =~= seq![hex_digit(d as nat)]);
    if n < 16 {
        last.to_owned()
    } else {
        let mut s = to_lower_hex(n / 16);
        s.append(last);
        s
    }
}

/// The identifier of the catalogue entry for `path`: its djb2 hash in
/// lower-case hexadecimal. The same path always gives the same identifier.
pub fn track_id(path: &str) -> (r: String)
    ensures
        r@ == id_of(path@),
{
    let h = md5_hash(path);
    to_lower_hex(h)
}

} // verus!
