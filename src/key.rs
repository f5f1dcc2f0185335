//! Ledger addresses: 32 bytes, held as four little-endian 64-bit words so that
//! two keys compare by value.
use vstd::bytes::{spec_u64_from_le_bytes, spec_u64_to_le_bytes, u64_from_le_bytes, u64_to_le_bytes};
use vstd::bytes::lemma_auto_spec_u64_to_from_le_bytes;
use vstd::prelude::*;
use vstd::slice::slice_subrange;

verus! {

/// A 32-byte ledger address.
#[derive(Clone, Copy, Debug, PartialEq, Eq, Structural)]
pub struct Key {
    pub w0: u64,
    pub w1: u64,
    pub w2: u64,
    pub w3: u64,
}

impl Key {
    /// The 32 bytes of the key, in ledger order.
    pub open spec fn bytes(self) -> Seq<u8> {
        spec_u64_to_le_bytes(self.w0) + spec_u64_to_le_bytes(self.w1) + spec_u64_to_le_bytes(
            self.w2,
        ) + spec_u64_to_le_bytes(self.w3)
    }

    /// The key whose bytes are the first 32 of `s`.
    pub open spec fn from_seq(s: Seq<u8>) -> Key {
        Key {
            w0: spec_u64_from_le_bytes(s.subrange(0, 8)),
            w1: spec_u64_from_le_bytes(s.subrange(8, 16)),
            w2: spec_u64_from_le_bytes(s.subrange(16, 24)),
            w3: spec_u64_from_le_bytes(s.subrange(24, 32)),
        }
    }

    /// Reads the key stored at `at .. at + 32` of `s`.
    pub fn read(s: &[u8], at: usize) -> (k: Key)
        requires
            at + 32 <= s@.len(),
        ensures
            k == Key::from_seq(s@.subrange(at as int, at + 32)),
    {
        let n = s.len();
        assert(at + 32 <= n);
        let ghost whole = s@.subrange(at as int, at + 32);
        assert(whole.subrange(0, 8) =~= s@.subrange(at as int, at + 8));
        assert(whole.subrange(8, 16) =~= s@.subrange(at + 8, at + 16));
        assert(whole.subrange(16, 24) =~= s@.subrange(at + 16, at + 24));
        assert(whole.subrange(24, 32) =~= s@.subrange(at + 24, at + 32));
        Key {
            w0: u64_from_le_bytes(slice_subrange(s, at, at + 8)),
            w1: u64_from_le_bytes(slice_subrange(s, at + 8, at + 16)),
            w2: u64_from_le_bytes(slice_subrange(s, at + 16, at + 24)),
            w3: u64_from_le_bytes(slice_subrange(s, at + 24, at + 32)),
        }
    }

    /// Builds a key from its 32 bytes.
    pub fn from_array(a: &[u8; 32]) -> (k: Key)
        ensures
            k == Key::from_seq(a@),
    {
        let k = Key::read(a.as_slice(), 0);
        assert(a@.subrange(0, 32) =~= a@);
        k
    }

    /// Appends the 32 bytes of the key to `out`.
    pub fn write(&self, out: &mut Vec<u8>)
        ensures
            final(out)@ == old(out)@ + self.bytes(),
    {
        let mut b = u64_to_le_bytes(self.w0);
        out.append(&mut b);
        let mut b = u64_to_le_bytes(self.w1);
        out.append(&mut b);
        let mut b = u64_to_le_bytes(self.w2);
        out.append(&mut b);
        let mut b = u64_to_le_bytes(self.w3);
        out.append(&mut b);
        assert(final(out)@ =~= old(out)@ + self.bytes());
    }

    /// The 32 bytes of the key.
    pub fn to_bytes(&self) -> (r: Vec<u8>)
        ensures
            r@ == self.bytes(),
    {
        let mut r: Vec<u8> = Vec::new();
        self.write(&mut r);
        assert(r@ =~= self.bytes());
        r
    }
}

/// A key is 32 bytes long, and reading its bytes gives the key back.
pub proof fn lemma_key_bytes(k: Key)
    ensures
        k.bytes().len() == 32,
        Key::from_seq(k.bytes()) == k,
{
    lemma_auto_spec_u64_to_from_le_bytes();
    let b = k.bytes();
    assert(b.subrange(0, 8) =~= spec_u64_to_le_bytes(k.w0));
    assert(b.subrange(8, 16) =~= spec_u64_to_le_bytes(k.w1));
    assert(b.subrange(16, 24) =~= spec_u64_to_le_bytes(k.w2));
    assert(b.subrange(24, 32) =~= spec_u64_to_le_bytes(k.w3));
}

} // verus!
