use vstd::bytes::{
    lemma_auto_spec_u64_to_from_le_bytes, spec_u64_from_le_bytes, spec_u64_to_le_bytes,
    u64_from_le_bytes, u64_to_le_bytes,
};
use vstd::prelude::*;
use vstd::slice::slice_subrange;

verus! {

/// A 32-byte on-chain account address, held as four little-endian 64-bit
/// words so that equality is structural and values are `Copy`.
/// Its view is the 32-byte sequence the chain uses.
#[derive(Debug, Clone, Copy, PartialEq, Eq, Structural)]
pub struct Address {
    pub w0: u64,
    pub w1: u64,
    pub w2: u64,
    pub w3: u64,
}

impl View for Address {
    type V = Seq<u8>;

    open spec fn view(&self) -> Seq<u8> {
        spec_u64_to_le_bytes(self.w0) + spec_u64_to_le_bytes(self.w1) + spec_u64_to_le_bytes(
            self.w2,
        ) + spec_u64_to_le_bytes(self.w3)
    }
}

/// The address whose view is the given 32-byte sequence.
pub open spec fn spec_address_from_bytes(s: Seq<u8>) -> Address
    recommends
        s.len() == 32,
{
    Address {
        w0: spec_u64_from_le_bytes(s.subrange(0, 8)),
        w1: spec_u64_from_le_bytes(s.subrange(8, 16)),
        w2: spec_u64_from_le_bytes(s.subrange(16, 24)),
        w3: spec_u64_from_le_bytes(s.subrange(24, 32)),
    }
}

/// Reading an address back from its 32 bytes recovers the bytes.
pub proof fn lemma_address_from_bytes_view(s: Seq<u8>)
    requires
        s.len() == 32,
    ensures
        spec_address_from_bytes(s)@ == s,
{
    lemma_auto_spec_u64_to_from_le_bytes();
    assert(spec_address_from_bytes(s)@ =~= s);
}

impl Address {
    /// Read an address from 32 raw bytes.
    pub fn from_bytes(b: &[u8]) -> (r: Address)
        requires
            b@.len() == 32,
        ensures
            r@ == b@,
            r == spec_address_from_bytes(b@),
    {
        let r = Address {
            w0: u64_from_le_bytes(slice_subrange(b, 0, 8)),
            w1: u64_from_le_bytes(slice_subrange(b, 8, 16)),
            w2: u64_from_le_bytes(slice_subrange(b, 16, 24)),
            w3: u64_from_le_bytes(slice_subrange(b, 24, 32)),
        };
        proof {
            lemma_auto_spec_u64_to_from_le_bytes();
            assert(r@ =~= b@);
        }
        r
    }

    /// The 32 raw bytes of the address.
    pub fn to_bytes(&self) -> (r: Vec<u8>)
        ensures
            r@ == self@,
    {
        let mut r = u64_to_le_bytes(self.w0);
        let mut p1 = u64_to_le_bytes(self.w1);
        let mut p2 = u64_to_le_bytes(self.w2);
        let mut p3 = u64_to_le_bytes(self.w3);
        r.append(&mut p1);
        r.append(&mut p2);
        r.append(&mut p3);
        proof {
            assert(r@ =~= self@);
        }
        r
    }

    /// The view has exactly 32 bytes.
    pub proof fn lemma_view_len(&self)
        ensures
            self@.len() == 32,
    {
        lemma_auto_spec_u64_to_from_le_bytes();
    }
}

/// Two addresses are equal exactly when their byte views are equal:
/// the words are recovered from the bytes, so the view is injective.
pub proof fn lemma_address_view_injective(a: Address, b: Address)
    ensures
        (a@ == b@) <==> (a == b),
{
    lemma_auto_spec_u64_to_from_le_bytes();
    if a@ == b@ {
        assert(a@.subrange(0, 8) =~= spec_u64_to_le_bytes(a.w0));
        assert(a@.subrange(8, 16) =~= spec_u64_to_le_bytes(a.w1));
        assert(a@.subrange(16, 24) =~= spec_u64_to_le_bytes(a.w2));
        assert(a@.subrange(24, 32) =~= spec_u64_to_le_bytes(a.w3));
        assert(b@.subrange(0, 8) =~= spec_u64_to_le_bytes(b.w0));
        assert(b@.subrange(8, 16) =~= spec_u64_to_le_bytes(b.w1));
        assert(b@.subrange(16, 24) =~= spec_u64_to_le_bytes(b.w2));
        assert(b@.subrange(24, 32) =~= spec_u64_to_le_bytes(b.w3));
        assert(a.w0 == spec_u64_from_le_bytes(spec_u64_to_le_bytes(a.w0)));
        assert(a.w1 == spec_u64_from_le_bytes(spec_u64_to_le_bytes(a.w1)));
        assert(a.w2 == spec_u64_from_le_bytes(spec_u64_to_le_bytes(a.w2)));
        assert(a.w3 == spec_u64_from_le_bytes(spec_u64_to_le_bytes(a.w3)));
    }
}

} // verus!
