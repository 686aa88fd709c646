//! The binary encoding of payloads and of the counter record.
//!
//! Integers are fixed-width and little-endian. A variable-length collection
//! is its length as four bytes followed by its items in order. The bytes are
//! read and written by `borsh`; this module states what it reads and writes.

use vstd::bytes::*;
use vstd::prelude::*;

verus! {

/// `std::io::Error`, with which borsh reports what it could not read or
/// write. It is passed on and never looked into.
#[verifier::external_type_specification]
#[verifier::external_body]
pub struct ExIoError(std::io::Error);

/// The four bytes that announce a collection of `n` items: `n` to the base
/// 256, least significant digit first.
pub open spec fn length_prefix(n: nat) -> Seq<u8> {
    seq![
        (n % 256) as u8,
        (n / 256 % 256) as u8,
        (n / 256 / 256 % 256) as u8,
        (n / 256 / 256 / 256 % 256) as u8,
    ]
}

/// A byte string on the wire: its length, then its bytes.
pub open spec fn encode_bytes(s: Seq<u8>) -> Seq<u8> {
    length_prefix(s.len()) + s
}

/// The byte strings of a list on the wire, one after the other.
pub open spec fn encode_items(items: Seq<Seq<u8>>) -> Seq<u8>
    decreases items.len(),
{
    if items.len() == 0 {
        Seq::empty()
    } else {
        encode_bytes(items[0]) + encode_items(items.skip(1))
    }
}

/// A list of byte strings on the wire: the number of strings, then each
/// string.
pub open spec fn encode_seed_list(seeds: Seq<Seq<u8>>) -> Seq<u8> {
    length_prefix(seeds.len()) + encode_items(seeds)
}

/// Every length in `seeds` fits the four bytes of a length prefix.
pub open spec fn fits_wire(seeds: Seq<Seq<u8>>) -> bool {
    &&& seeds.len() <= u32::MAX
    &&& forall|i: int| 0 <= i < seeds.len() ==> (#[trigger] seeds[i]).len() <= u32::MAX
}

/// `bytes` is the wire form of `seeds`, with nothing before or after it.
pub open spec fn is_seed_list_encoding(bytes: Seq<u8>, seeds: Seq<Seq<u8>>) -> bool {
    fits_wire(seeds) && encode_seed_list(seeds) == bytes
}

/// The list that `bytes` is the wire form of, if there is one.
pub open spec fn decode_seed_list(bytes: Seq<u8>) -> Option<Seq<Seq<u8>>> {
    if exists|seeds: Seq<Seq<u8>>| is_seed_list_encoding(bytes, seeds) {
        Some(choose|seeds: Seq<Seq<u8>>| is_seed_list_encoding(bytes, seeds))
    } else {
        None
    }
}

/// Calls `u64::try_from_slice` of borsh: the value is decoded from exactly
/// eight bytes, least significant byte first; every other length is an error.
#[verifier::external_body]
pub(crate) fn u64_from_slice(bytes: &[u8]) -> (r: Result<u64, std::io::Error>)
    ensures
        r is Ok <==> bytes@.len() == 8,
        r is Ok ==> r->Ok_0 == spec_u64_from_le_bytes(bytes@),
{
    <u64 as borsh::BorshDeserialize>::try_from_slice(bytes)
}

/// Calls `borsh::to_vec` on a `u64`: writing into a fresh vector cannot fail,
/// and the eight bytes written are the value, least significant byte first.
#[verifier::external_body]
pub(crate) fn u64_to_vec(value: u64) -> (r: Result<Vec<u8>, std::io::Error>)
    ensures
        r is Ok,
        r->Ok_0@ == spec_u64_to_le_bytes(value),
{
    borsh::to_vec(&value)
}

/// Calls `Vec::<Vec<u8>>::try_from_slice` of borsh: it succeeds exactly on the
/// wire form of a list of byte strings, consumed to the last byte, and
/// returns that list.
#[verifier::external_body]
pub(crate) fn seed_list_from_slice(bytes: &[u8]) -> (r: Result<Vec<Vec<u8>>, std::io::Error>)
    ensures
        match r {
            Ok(seeds) => is_seed_list_encoding(bytes@, seeds.deep_view()),
            Err(_) => forall|seeds: Seq<Seq<u8>>| !is_seed_list_encoding(bytes@, seeds),
        },
{
    <Vec<Vec<u8>> as borsh::BorshDeserialize>::try_from_slice(bytes)
}

/// A length prefix is four bytes long and determines the length it announces.
pub proof fn lemma_length_prefix(a: nat, b: nat)
    requires
        a <= u32::MAX,
        b <= u32::MAX,
    ensures
        length_prefix(a).len() == 4,
        length_prefix(a) == length_prefix(b) ==> a == b,
{
    if length_prefix(a) == length_prefix(b) {
        let p = length_prefix(a);
        let q = length_prefix(b);
        assert(p[0] == q[0] && p[1] == q[1] && p[2] == q[2] && p[3] == q[3]);
        lemma_digits(a);
        lemma_digits(b);
    }
}

/// A length that fits four bytes is the sum of its four digits to the base
/// 256.
proof fn lemma_digits(n: nat)
    requires
        n <= u32::MAX,
    ensures
        n == length_prefix(n)[0] + 256 * length_prefix(n)[1] + 65_536 * length_prefix(n)[2]
            + 16_777_216 * length_prefix(n)[3],
{
    let q1 = n / 256;
    let q2 = q1 / 256;
    let q3 = q2 / 256;
    assert(n == 256 * q1 + n % 256);
    assert(q1 == 256 * q2 + q1 % 256);
    assert(q2 == 256 * q3 + q2 % 256);
    assert(q3 < 256);
    assert(q3 % 256 == q3);
}

/// A list whose lengths fit the wire keeps that when its first string is
/// taken off.
pub proof fn lemma_fits_wire_skip(seeds: Seq<Seq<u8>>)
    requires
        fits_wire(seeds),
        seeds.len() > 0,
    ensures
        fits_wire(seeds.skip(1)),
{
    assert forall|i: int| 0 <= i < seeds.skip(1).len() implies (#[trigger] seeds.skip(1)[i]).len()
        <= u32::MAX by {
        assert(seeds.skip(1)[i] == seeds[i + 1]);
    }
}

/// Two lists of equally many byte strings with the same wire form are the
/// same list.
pub proof fn lemma_encode_items_injective(a: Seq<Seq<u8>>, b: Seq<Seq<u8>>)
    requires
        fits_wire(a),
        fits_wire(b),
        a.len() == b.len(),
        encode_items(a) == encode_items(b),
    ensures
        a == b,
    decreases a.len(),
{
    if a.len() == 0 {
        assert(a =~= b);
    } else {
        let ea = encode_items(a);
        let eb = encode_items(b);
        lemma_length_prefix(a[0].len(), b[0].len());
        lemma_length_prefix(b[0].len(), a[0].len());
        assert(ea.subrange(0, 4) =~= length_prefix(a[0].len()));
        assert(eb.subrange(0, 4) =~= length_prefix(b[0].len()));
        let n = a[0].len() as int;
        assert(ea.subrange(4, 4 + n) =~= a[0]);
        assert(eb.subrange(4, 4 + n) =~= b[0]);
        assert(ea.subrange(4 + n, ea.len() as int) =~= encode_items(a.skip(1)));
        assert(eb.subrange(4 + n, eb.len() as int) =~= encode_items(b.skip(1)));
        lemma_fits_wire_skip(a);
        lemma_fits_wire_skip(b);
        lemma_encode_items_injective(a.skip(1), b.skip(1));
        assert forall|i: int| 0 <= i < a.len() implies a[i] == b[i] by {
            if i > 0 {
                assert(a[i] == a.skip(1)[i - 1]);
                assert(b[i] == b.skip(1)[i - 1]);
            }
        }
        assert(a =~= b);
    }
}

/// No two lists of byte strings share a wire form: decoding has one answer.
pub proof fn lemma_seed_list_encoding_injective(bytes: Seq<u8>, a: Seq<Seq<u8>>, b: Seq<Seq<u8>>)
    requires
        is_seed_list_encoding(bytes, a),
        is_seed_list_encoding(bytes, b),
    ensures
        a == b,
{
    lemma_length_prefix(a.len(), b.len());
    lemma_length_prefix(b.len(), a.len());
    assert(bytes.subrange(0, 4) =~= length_prefix(a.len()));
    assert(bytes.subrange(0, 4) =~= length_prefix(b.len()));
    assert(bytes.subrange(4, bytes.len() as int) =~= encode_items(a));
    assert(bytes.subrange(4, bytes.len() as int) =~= encode_items(b));
    lemma_encode_items_injective(a, b);
}

/// Decoding the wire form of a list gives the list back.
pub proof fn lemma_decode_seed_list(bytes: Seq<u8>, seeds: Seq<Seq<u8>>)
    requires
        is_seed_list_encoding(bytes, seeds),
    ensures
        decode_seed_list(bytes) == Some(seeds),
{
    let chosen = choose|s: Seq<Seq<u8>>| is_seed_list_encoding(bytes, s);
    lemma_seed_list_encoding_injective(bytes, chosen, seeds);
}

} // verus!
