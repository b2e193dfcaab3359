use vstd::prelude::*;
use vstd::bytes::{spec_u64_to_le_bytes, u64_to_le_bytes};

verus! {

/// A 32-byte public identity: a wallet, an authority, a program, or a
/// derived storage address. It is held as four 64-bit words; word 0 covers
/// the first eight bytes of the identity (little-endian within each word),
/// word 3 the last eight.
#[derive(Clone, Copy, Debug, PartialEq, Eq, Structural)]
pub struct AccountId {
    pub w0: u64,
    pub w1: u64,
    pub w2: u64,
    pub w3: u64,
}

/// The 32 bytes of an identity, in the order they appear as seed material.
pub open spec fn id_bytes(id: AccountId) -> Seq<u8> {
    spec_u64_to_le_bytes(id.w0) + spec_u64_to_le_bytes(id.w1)
        + spec_u64_to_le_bytes(id.w2) + spec_u64_to_le_bytes(id.w3)
}

impl AccountId {
    pub fn new(w0: u64, w1: u64, w2: u64, w3: u64) -> (r: AccountId)
        ensures
            r == (AccountId { w0, w1, w2, w3 }),
    {
        AccountId { w0, w1, w2, w3 }
    }

    /// Renders the identity as its 32 bytes, the form in which it enters
    /// address derivation.
    pub fn to_bytes(&self) -> (r: Vec<u8>)
        ensures
            r@ == id_bytes(*self),
            r@.len() == 32,
    {
        proof {
            vstd::bytes::lemma_auto_spec_u64_to_from_le_bytes();
        }
        let mut out = u64_to_le_bytes(self.w0);
        let mut p1 = u64_to_le_bytes(self.w1);
        let mut p2 = u64_to_le_bytes(self.w2);
        let mut p3 = u64_to_le_bytes(self.w3);
        out.append(&mut p1);
        out.append(&mut p2);
        out.append(&mut p3);
        out
    }
}

/// Two identities are equal exactly when their byte renderings are equal:
/// the rendering loses nothing.
pub proof fn lemma_id_bytes_injective(a: AccountId, b: AccountId)
    ensures
        id_bytes(a) == id_bytes(b) ==> a == b,
{
    if id_bytes(a) == id_bytes(b) {
        vstd::bytes::lemma_auto_spec_u64_to_from_le_bytes();
        assert(spec_u64_to_le_bytes(a.w0) =~= id_bytes(a).subrange(0, 8));
        assert(spec_u64_to_le_bytes(a.w1) =~= id_bytes(a).subrange(8, 16));
        assert(spec_u64_to_le_bytes(a.w2) =~= id_bytes(a).subrange(16, 24));
        assert(spec_u64_to_le_bytes(a.w3) =~= id_bytes(a).subrange(24, 32));
        assert(spec_u64_to_le_bytes(b.w0) =~= id_bytes(b).subrange(0, 8));
        assert(spec_u64_to_le_bytes(b.w1) =~= id_bytes(b).subrange(8, 16));
        assert(spec_u64_to_le_bytes(b.w2) =~= id_bytes(b).subrange(16, 24));
        assert(spec_u64_to_le_bytes(b.w3) =~= id_bytes(b).subrange(24, 32));
        assert(vstd::bytes::spec_u64_from_le_bytes(spec_u64_to_le_bytes(a.w0)) == a.w0);
        assert(vstd::bytes::spec_u64_from_le_bytes(spec_u64_to_le_bytes(b.w0)) == b.w0);
        assert(vstd::bytes::spec_u64_from_le_bytes(spec_u64_to_le_bytes(a.w1)) == a.w1);
        assert(vstd::bytes::spec_u64_from_le_bytes(spec_u64_to_le_bytes(b.w1)) == b.w1);
        assert(vstd::bytes::spec_u64_from_le_bytes(spec_u64_to_le_bytes(a.w2)) == a.w2);
        assert(vstd::bytes::spec_u64_from_le_bytes(spec_u64_to_le_bytes(b.w2)) == b.w2);
        assert(vstd::bytes::spec_u64_from_le_bytes(spec_u64_to_le_bytes(a.w3)) == a.w3);
        assert(vstd::bytes::spec_u64_from_le_bytes(spec_u64_to_le_bytes(b.w3)) == b.w3);
    }
}

} // verus!
