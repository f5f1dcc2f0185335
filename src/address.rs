//! Derived authority addresses: addresses that only this program can sign
//! for, computed from a seed phrase, a discriminating value and the program's
//! own identity.
use crate::key::Key;
use solana_program::pubkey::Pubkey;
use vstd::bytes::spec_u64_to_le_bytes;
use vstd::prelude::*;

verus! {

/// The address and nonce that the ledger derives from `seeds` for the program
/// with identity `program_id`, or `None` when no nonce gives one.
pub uninterp spec fn program_address(seeds: Seq<Seq<u8>>, program_id: Seq<u8>) -> Option<(Seq<u8>, u8)>;

/// Relies on solana_program's `Pubkey::try_find_program_address`: the derived
/// address and nonce for the seeds and the program, or `None` when no nonce
/// gives one. The result depends on the arguments alone, and an address is 32
/// bytes.
#[verifier::external_body]
fn try_find_program_address(seeds: &Vec<Vec<u8>>, program_id: &Vec<u8>) -> (r: Option<(Vec<u8>, u8)>)
    requires
        program_id@.len() == 32,
    ensures
        program_address(seeds@.map_values(|v: Vec<u8>| v@), program_id@) == match r {
            Some((a, n)) => Some((a@, n)),
            None => None::<(Seq<u8>, u8)>,
        },
        r matches Some((a, _)) ==> a@.len() == 32,
{
    let parts: Vec<&[u8]> = seeds.iter().map(|s| s.as_slice()).collect();
    let id = Pubkey::new_from_array(program_id.as_slice().try_into().unwrap());
    Pubkey::try_find_program_address(&parts, &id).map(|(a, n)| (a.to_bytes().to_vec(), n))
}

/// Which seed phrase, and which discriminating value, an address is derived from.
#[derive(Clone, Copy, Debug, PartialEq, Eq, Structural)]
pub enum SeedSet {
    /// `"escrow"` alone: the authority over swap holding accounts.
    Escrow,
    /// `"escrow"` and an asset type: the vault record of that asset type.
    EscrowOf(Key),
    /// `"vault"` and an asset type: the vault of that asset type, and its authority.
    VaultOf(Key),
    /// `"logger"` and a sequence number: the audit record of that sequence.
    Logger(u64),
}

pub open spec fn escrow_phrase() -> Seq<u8> {
    seq![101u8, 115, 99, 114, 111, 119]
}

pub open spec fn vault_phrase() -> Seq<u8> {
    seq![118u8, 97, 117, 108, 116]
}

pub open spec fn logger_phrase() -> Seq<u8> {
    seq![108u8, 111, 103, 103, 101, 114]
}

impl SeedSet {
    /// The seeds, byte string by byte string.
    pub open spec fn seeds(self) -> Seq<Seq<u8>> {
        match self {
            SeedSet::Escrow => seq![escrow_phrase()],
            SeedSet::EscrowOf(mint) => seq![escrow_phrase(), mint.bytes()],
            SeedSet::VaultOf(mint) => seq![vault_phrase(), mint.bytes()],
            SeedSet::Logger(sequence) => seq![logger_phrase(), spec_u64_to_le_bytes(sequence)],
        }
    }

    /// The seeds as byte strings, without the nonce.
    pub fn to_seeds(&self) -> (r: Vec<Vec<u8>>)
        ensures
            r@.map_values(|v: Vec<u8>| v@) == self.seeds(),
    {
        let mut r: Vec<Vec<u8>> = Vec::new();
        match self {
            SeedSet::Escrow => {
                r.push(vec![101u8, 115, 99, 114, 111, 119]);
            },
            SeedSet::EscrowOf(mint) => {
                r.push(vec![101u8, 115, 99, 114, 111, 119]);
                r.push(mint.to_bytes());
            },
            SeedSet::VaultOf(mint) => {
                r.push(vec![118u8, 97, 117, 108, 116]);
                r.push(mint.to_bytes());
            },
            SeedSet::Logger(sequence) => {
                r.push(vec![108u8, 111, 103, 103, 101, 114]);
                r.push(vstd::bytes::u64_to_le_bytes(*sequence));
            },
        }
        assert(r@.map_values(|v: Vec<u8>| v@) =~= self.seeds());
        r
    }
}

/// The address and nonce derived from `seeds` for the program `program_id`.
pub open spec fn derived(seeds: SeedSet, program_id: Key) -> Option<(Key, u8)> {
    match program_address(seeds.seeds(), program_id.bytes()) {
        Some((a, n)) => Some((Key::from_seq(a), n)),
        None => None,
    }
}

/// Derives the address and nonce of `seeds` for the program `program_id`.
pub fn derive_address(seeds: SeedSet, program_id: &Key) -> (r: Option<(Key, u8)>)
    ensures
        r == derived(seeds, *program_id),
{
    let s = seeds.to_seeds();
    let id = program_id.to_bytes();
    proof {
        crate::key::lemma_key_bytes(*program_id);
    }
    match try_find_program_address(&s, &id) {
        Some((a, n)) => {
            assert(a@.subrange(0, 32) =~= a@);
            Some((Key::read(a.as_slice(), 0), n))
        },
        None => None,
    }

}

} // verus!
