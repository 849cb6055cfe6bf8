//! Peer identifiers: the bytes that identify a peer, and the text that peers write them as.

use crate::base58::base58;
use vstd::prelude::*;

verus! {

/// The multihash code of an identifier that holds the peer's whole public key.
pub const IDENTITY_CODE: u8 = 0x00;

/// The multihash code of an identifier that holds the SHA-256 digest of the public key.
pub const SHA256_CODE: u8 = 0x12;

/// The longest public key, in bytes, that an identifier holds whole.
pub const MAX_INLINE_KEY: u8 = 42;

/// The longest digest, in bytes, that an identifier holds.
pub const MAX_DIGEST: u8 = 64;

/// Whether `id` is a peer identifier: a code, the number of bytes that follow, and that many bytes.
pub open spec fn is_peer_id(id: Seq<u8>) -> bool {
    &&& id.len() >= 2
    &&& id.len() == 2 + id[1]
    &&& (id[0] == SHA256_CODE && id[1] <= MAX_DIGEST) || (id[0] == IDENTITY_CODE && id[1]
        <= MAX_INLINE_KEY)
}

/// Calls `libp2p::PeerId::to_base58` on the identifier that `libp2p::PeerId::from_bytes` reads.
///
/// Trusted: `from_bytes` accepts every byte sequence with `is_peer_id`, and the identifier that it
/// reads is written as the base 58 form of those very bytes.
#[verifier::external_body]
fn peer_id_text(id: &[u8]) -> (text: String)
    requires
        is_peer_id(id@),
    ensures
        text@ == base58(id@),
{
    libp2p::PeerId::from_bytes(id).unwrap().to_base58()
}

/// A peer of the network.
#[derive(Debug)]
pub struct Peer {
    id: Vec<u8>,
}

impl View for Peer {
    type V = Seq<u8>;

    closed spec fn view(&self) -> Seq<u8> {
        self.id@
    }
}

impl Peer {
    #[verifier::type_invariant]
    spec fn well_formed(self) -> bool {
        is_peer_id(self.id@)
    }

    /// The peer that `id` identifies, if `id` is a peer identifier.
    pub fn from_bytes(id: Vec<u8>) -> (peer: Option<Peer>)
        ensures
            match peer {
                Some(p) => is_peer_id(id@) && p@ == id@,
                None => !is_peer_id(id@),
            },
    {
        if id.len() < 2 {
            return None;
        }
        let code: u8 = id[0];
        let size: u8 = id[1];
        if id.len() - 2 != size as usize {
            return None;
        }
        if (code == SHA256_CODE && size <= MAX_DIGEST) || (code == IDENTITY_CODE && size
            <= MAX_INLINE_KEY) {
            Some(Peer { id })
        } else {
            None
        }
    }

    /// The bytes of the peer's identifier.
    pub fn to_bytes(&self) -> (id: Vec<u8>)
        ensures
            id@ == self@,
            is_peer_id(id@),
    {
        proof {
            use_type_invariant(self);
        }
        self.id.clone()
    }

    /// The text that the network writes the peer's identifier as.
    pub fn text(&self) -> (text: String)
        ensures
            text@ == base58(self@),
            is_peer_id(self@),
    {
        proof {
            use_type_invariant(self);
        }
        peer_id_text(self.id.as_slice())
    }

    /// Whether both are the same peer.
    pub fn same(&self, other: &Peer) -> (r: bool)
        ensures
            r == (self@ == other@),
    {
        let same = self.id == other.id;
        assert(same ==> self.id@ =~= other.id@);
        same
    }
}

impl Clone for Peer {
    fn clone(&self) -> (r: Peer)
        ensures
            r@ == self@,
    {
        proof {
            use_type_invariant(self);
        }
        Peer { id: self.id.clone() }
    }
}

/// A peer identifier is a SHA-256 digest of at most 64 bytes or a public key of at most 42, behind
/// its code and its length; no other bytes are one.
pub proof fn lemma_peer_ids(code: u8, size: u8, rest: Seq<u8>)
    ensures
        is_peer_id(seq![code, size] + rest) <==> rest.len() == size && ((code == 0x12 && size <= 64)
            || (code == 0x00 && size <= 42)),
        !is_peer_id(seq![]),
        !is_peer_id(seq![code]),
{
    let id = seq![code, size] + rest;
    assert(id[0] == code);
    assert(id[1] == size);
}

} // verus!
