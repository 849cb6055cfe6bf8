//! Content addresses: the identifier that a broadcast message gets from what it says.

use crate::decimal::{decimal, decimal_value, lemma_decimal_value, to_decimal};
use std::collections::hash_map::DefaultHasher;
use std::hash::Hasher;
use vstd::bytes::{
    lemma_auto_spec_u32_to_from_le_bytes, lemma_auto_spec_u64_to_from_le_bytes,
    spec_u32_from_le_bytes, spec_u32_to_le_bytes, spec_u64_from_le_bytes, spec_u64_to_le_bytes,
    u32_to_le_bytes, u64_to_le_bytes,
};
use vstd::prelude::*;
use vstd::std_specs::hash::DefaultHasherAdditionalSpecFns;

verus! {

/// The order in which a machine keeps the bytes of an integer.
#[derive(Clone, Copy, Debug, PartialEq, Eq, Structural)]
pub enum ByteOrder {
    /// The byte that weighs least comes first.
    Little,
    /// The byte that weighs most comes first.
    Big,
}

/// The bytes of `n`, as many as a `usize` has, on a machine of the byte order `order`.
pub open spec fn native_bytes(order: ByteOrder, n: usize) -> Seq<u8> {
    let little = if usize::BITS == 64 {
        spec_u64_to_le_bytes(n as u64)
    } else {
        spec_u32_to_le_bytes(n as u32)
    };
    match order {
        ByteOrder::Little => little,
        ByteOrder::Big => little.reverse(),
    }
}

/// The bytes of `n` on a machine of the byte order `order`.
pub fn to_native_bytes(order: ByteOrder, n: usize) -> (bytes: Vec<u8>)
    ensures
        bytes@ == native_bytes(order, n),
{
    let little = if usize::BITS == 64 {
        u64_to_le_bytes(n as u64)
    } else {
        u32_to_le_bytes(n as u32)
    };
    match order {
        ByteOrder::Little => little,
        ByteOrder::Big => {
            let mut big: Vec<u8> = Vec::new();
            let size: usize = little.len();
            for i in 0..size
                invariant
                    size == little@.len(),
                    big@ =~= little@.reverse().take(i as int),
            {
                big.push(little[size - 1 - i]);
            }
            assert(big@ =~= little@.reverse());
            big
        },
    }
}

/// The digest of a message on a machine of the byte order `order`: what the standard hasher makes
/// of the message's length, in the bytes that the machine keeps it in, and of its bytes. A vector of
/// bytes that hashes itself makes the same two writes, as far as the tests compare them. Nothing
/// here proves that, and the standard library does not promise it.
pub open spec fn digest(order: ByteOrder, data: Seq<u8>) -> u64 {
    DefaultHasher::spec_finish(seq![native_bytes(order, data.len() as usize), data])
}

/// The identifier of a message on a machine of the byte order `order`: its digest in decimal.
pub open spec fn content_id(order: ByteOrder, data: Seq<u8>) -> Seq<char> {
    decimal(digest(order, data) as nat)
}

/// The identifier under which a machine of the byte order `order` keeps apart a message with the
/// bytes `data`.
pub fn message_id(order: ByteOrder, data: &Vec<u8>) -> (id: String)
    ensures
        id@ == content_id(order, data@),
{
    let mut hasher = DefaultHasher::new();
    let length = to_native_bytes(order, data.len());
    hasher.write(length.as_slice());
    hasher.write(data.as_slice());
    assert(hasher@ =~= seq![native_bytes(order, data@.len() as usize), data@]);
    to_decimal(hasher.finish())
}

/// Messages are addressed by content: on one machine two messages share an identifier exactly when
/// they share a digest, and so whenever they hold the same bytes. An identifier tells its digest.
pub proof fn lemma_content_addressed(order: ByteOrder, a: Seq<u8>, b: Seq<u8>)
    ensures
        a == b ==> content_id(order, a) == content_id(order, b),
        content_id(order, a) == content_id(order, b) <==> digest(order, a) == digest(order, b),
        decimal_value(content_id(order, a)) == digest(order, a),
{
    lemma_decimal_value(digest(order, a) as nat);
    lemma_decimal_value(digest(order, b) as nat);
}

/// The digest of a message takes in the whole message, and before it the message's length in as
/// many bytes as a `usize` has: bytes that give back the length when they are read in the machine's
/// byte order.
pub proof fn lemma_digest_of_the_whole_message(order: ByteOrder, data: Seq<u8>)
    requires
        data.len() <= usize::MAX,
    ensures
        ({
            let prefix = native_bytes(order, data.len() as usize);
            let little = if order == ByteOrder::Little {
                prefix
            } else {
                prefix.reverse()
            };
            &&& digest(order, data) == DefaultHasher::spec_finish(seq![prefix, data])
            &&& prefix.len() * 8 == usize::BITS
            &&& usize::BITS == 64 ==> spec_u64_from_le_bytes(little) == data.len()
            &&& usize::BITS == 32 ==> spec_u32_from_le_bytes(little) == data.len()
            &&& content_id(order, data) == decimal(digest(order, data) as nat)
        }),
{
    lemma_auto_spec_u64_to_from_le_bytes();
    lemma_auto_spec_u32_to_from_le_bytes();
    let n = data.len() as usize;
    let little = native_bytes(ByteOrder::Little, n);
    assert(little.reverse().reverse() =~= little);
}

} // verus!
