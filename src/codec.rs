//! SCALE encoding of the values carried by the channel, as far as the
//! library relies on it: little-endian `u64` and length-prefixed byte vectors.
use vstd::prelude::*;

verus! {

/// The eight little-endian bytes of `v`.
#[verifier::opaque]
pub open spec fn le_bytes_of_u64(v: u64) -> Seq<u8> {
    seq![
        v as u8,
        (v >> 8u64) as u8,
        (v >> 16u64) as u8,
        (v >> 24u64) as u8,
        (v >> 32u64) as u8,
        (v >> 40u64) as u8,
        (v >> 48u64) as u8,
        (v >> 56u64) as u8,
    ]
}

/// The `u64` whose little-endian bytes are the first eight of `b`.
#[verifier::opaque]
pub open spec fn u64_of_le_bytes(b: Seq<u8>) -> u64
    recommends
        b.len() >= 8,
{
    (b[0] as u64) | ((b[1] as u64) << 8u64) | ((b[2] as u64) << 16u64) | ((b[3] as u64)
        << 24u64) | ((b[4] as u64) << 32u64) | ((b[5] as u64) << 40u64) | ((b[6] as u64)
        << 48u64) | ((b[7] as u64) << 56u64)
}

/// The `k` low-order bytes of `x`, least significant first.
pub open spec fn le_bytes_of_int(x: int, k: nat) -> Seq<u8>
    decreases k,
{
    if k == 0 {
        seq![]
    } else {
        seq![(x % 256) as u8] + le_bytes_of_int(x / 256, (k - 1) as nat)
    }
}

/// The value of the little-endian bytes `b[start..start + k]`.
pub open spec fn int_of_le_bytes(b: Seq<u8>, start: int, k: nat) -> int
    decreases k,
{
    if k == 0 {
        0
    } else {
        b[start] as int + 256 * int_of_le_bytes(b, start + 1, (k - 1) as nat)
    }
}

/// The compact encoding of a collection length `n` (at most `u32::MAX`).
pub open spec fn compact_len_bytes(n: nat) -> Seq<u8> {
    if n < 64 {
        seq![(n * 4) as u8]
    } else if n < 16384 {
        le_bytes_of_int((n * 4 + 1) as int, 2)
    } else if n < 1073741824 {
        le_bytes_of_int((n * 4 + 2) as int, 4)
    } else {
        seq![3u8] + le_bytes_of_int(n as int, 4)
    }
}

/// The encoding of a byte vector: its compact length, then its bytes.
pub open spec fn encoded_bytes(payload: Seq<u8>) -> Seq<u8> {
    compact_len_bytes(payload.len()) + payload
}

/// A compact length read from the front of `s`: the length and how many bytes
/// it took, or `None` where the prefix is short or not in canonical form.
pub open spec fn read_compact_len(s: Seq<u8>) -> Option<(nat, nat)> {
    if s.len() == 0 {
        None
    } else if s[0] % 4 == 0 {
        Some(((s[0] / 4) as nat, 1))
    } else if s[0] % 4 == 1 {
        if s.len() < 2 {
            None
        } else {
            let x = int_of_le_bytes(s, 0, 2) / 4;
            if 64 <= x { Some((x as nat, 2)) } else { None }
        }
    } else if s[0] % 4 == 2 {
        if s.len() < 4 {
            None
        } else {
            let x = int_of_le_bytes(s, 0, 4) / 4;
            if 16384 <= x { Some((x as nat, 4)) } else { None }
        }
    } else if s[0] == 3 && s.len() >= 5 && int_of_le_bytes(s, 1, 4) >= 1073741824 {
        Some((int_of_le_bytes(s, 1, 4) as nat, 5))
    } else {
        None
    }
}

/// The byte vector decoded from the front of `s`, if `s` starts with one.
pub open spec fn decoded_bytes(s: Seq<u8>) -> Option<Seq<u8>> {
    match read_compact_len(s) {
        Some((n, c)) => if c + n <= s.len() {
            Some(s.subrange(c as int, (c + n) as int))
        } else {
            None
        },
        None => None,
    }
}

/// The `u64` decoded from the front of `s`, if `s` holds eight bytes.
pub open spec fn decoded_u64(s: Seq<u8>) -> Option<u64> {
    if s.len() >= 8 {
        Some(u64_of_le_bytes(s))
    } else {
        None
    }
}

/// Reading back the bytes of a `u64` gives the `u64`.
pub proof fn lemma_u64_round_trip(v: u64)
    ensures
        le_bytes_of_u64(v).len() == 8,
        decoded_u64(le_bytes_of_u64(v)) == Some(v),
{
    reveal(le_bytes_of_u64);
    reveal(u64_of_le_bytes);
    assert(((v as u8) as u64) | ((((v >> 8u64) as u8) as u64) << 8u64) | ((((v >> 16u64) as u8)
        as u64) << 16u64) | ((((v >> 24u64) as u8) as u64) << 24u64) | ((((v >> 32u64) as u8)
        as u64) << 32u64) | ((((v >> 40u64) as u8) as u64) << 40u64) | ((((v >> 48u64) as u8)
        as u64) << 48u64) | ((((v >> 56u64) as u8) as u64) << 56u64) == v) by (bit_vector);
}

/// A short byte vector decodes back from its encoding.
pub proof fn lemma_short_bytes_round_trip(payload: Seq<u8>)
    requires
        payload.len() < 64,
    ensures
        decoded_bytes(encoded_bytes(payload)) == Some(payload),
{
    let s = encoded_bytes(payload);
    let n = payload.len();
    assert(s[0] == (n * 4) as u8);
    assert(((n * 4) as u8) % 4 == 0 && ((n * 4) as u8) / 4 == n);
    assert(s.subrange(1, 1 + n as int) =~= payload);
}

/// Relies on the SCALE `Encode` impl of `u64`: its eight little-endian bytes.
#[verifier::external_body]
pub(crate) fn encode_u64(v: u64) -> (r: Vec<u8>)
    ensures
        r@ == le_bytes_of_u64(v),
{
    sp_core::Encode::encode(&v)
}

/// Relies on the SCALE `Decode` impl of `u64`: it reads eight little-endian
/// bytes from the front of the input and fails where fewer are left.
#[verifier::external_body]
pub(crate) fn decode_u64(bytes: &[u8]) -> (r: Option<u64>)
    ensures
        r == decoded_u64(bytes@),
{
    <u64 as sp_core::Decode>::decode(&mut &bytes[..]).ok()
}

} // verus!
