//! Ledger identities and the addresses derived from them.
use vstd::prelude::*;

use anchor_lang::prelude::Pubkey;

verus! {

/// A 32-byte ledger identity: a wallet, a record or a holding of an asset.
#[derive(Clone, Copy, Debug, PartialEq, Eq)]
pub struct Address {
    pub bytes: [u8; 32],
}

impl Address {
    /// The identity's bytes.
    pub open spec fn view(&self) -> Seq<u8> {
        self.bytes@
    }

    /// Builds an identity from its bytes.
    pub fn new(bytes: [u8; 32]) -> (r: Address)
        ensures
            r.bytes == bytes,
    {
        Address { bytes }
    }

    /// The identity's bytes, in order.
    pub fn to_vec(&self) -> (r: Vec<u8>)
        ensures
            r@ == self@,
    {
        let mut r: Vec<u8> = Vec::new();
        let mut i: usize = 0;
        while i < 32
            invariant
                i <= 32,
                r@ == self@.subrange(0, i as int),
            decreases 32 - i,
        {
            r.push(self.bytes[i]);
            i = i + 1;
            assert(r@ =~= self@.subrange(0, i as int));
        }
        assert(self@.subrange(0, 32) =~= self@);
        r
    }

    /// Whether the two identities are the same, byte for byte.
    pub fn equals(&self, other: &Address) -> (r: bool)
        ensures
            r == (self@ == other@),
    {
        let mut i: usize = 0;
        while i < 32
            invariant
                i <= 32,
                forall|j: int| 0 <= j < i ==> self.bytes[j] == other.bytes[j],
            decreases 32 - i,
        {
            if self.bytes[i] != other.bytes[i] {
                return false;
            }
            i = i + 1;
        }
        proof {
            assert(self@ =~= other@);
        }
        true
    }
}

/// The address and bump seed derived from `seeds` under `program_id`, or
/// `None` where no viable bump seed exists or the seeds are too many or too long.
pub uninterp spec fn program_address(seeds: Seq<Seq<u8>>, program_id: Seq<u8>) -> Option<(Seq<u8>, u8)>;

/// Relies on anchor_lang's `Pubkey::try_find_program_address`, which derives
/// a program address from its seeds and program alone (the first bump seed,
/// counting down, that gives an off-curve point). The seeds stay within its
/// limits: at most 15 of them beside the bump seed, each at most 32 bytes.
#[verifier::external_body]
fn find_program_address(seeds: &Vec<Vec<u8>>, program_id: &Address) -> (r: Option<(Address, u8)>)
    requires
        seeds@.len() <= 15,
        forall|i: int| 0 <= i < seeds@.len() ==> #[trigger] seeds@[i]@.len() <= 32,
    ensures
        r is Some <==> program_address(seeds@.map_values(|s: Vec<u8>| s@), program_id@) is Some,
        r matches Some((a, bump)) ==> program_address(seeds@.map_values(|s: Vec<u8>| s@), program_id@)
            == Some((a@, bump)),
{
    let slices: Vec<&[u8]> = seeds.iter().map(|s| s.as_slice()).collect();
    Pubkey::try_find_program_address(&slices, &Pubkey::new_from_array(program_id.bytes))
        .map(|(a, bump)| (Address { bytes: a.to_bytes() }, bump))
}

/// This marketplace program's own identity,
/// `FSoNXDpgsYZkp3VtPjPWPR2cQ5PMPt16SmLFm75A7FYh` in base58.
pub open spec fn program_id_view() -> Seq<u8> {
    seq![
        214u8, 159, 145, 177, 86, 2, 2, 164, 221, 43, 104, 1, 11, 37, 189, 117,
        132, 231, 134, 106, 37, 107, 179, 16, 250, 33, 133, 115, 68, 137, 191, 166,
    ]
}

/// The token program, which keeps every holding of an asset,
/// `TokenkegQfeZyiNwAJbNbGKPFXCWuBvf9Ss623VQ5DA` in base58.
pub open spec fn token_program_view() -> Seq<u8> {
    seq![
        6u8, 221, 246, 225, 215, 101, 161, 147, 217, 203, 225, 70, 206, 235, 121, 172,
        28, 180, 133, 237, 95, 91, 55, 145, 58, 140, 245, 133, 126, 255, 0, 169,
    ]
}

/// The associated token program, under which custody holdings are derived,
/// `ATokenGPvbdGVxr1b2hvZbsiqW5xWH25efTNsLJA8knL` in base58.
pub open spec fn associated_token_program_view() -> Seq<u8> {
    seq![
        140u8, 151, 37, 143, 78, 36, 137, 241, 187, 61, 16, 41, 20, 142, 13, 131,
        11, 90, 19, 153, 218, 255, 16, 132, 4, 142, 123, 216, 219, 233, 248, 89,
    ]
}

/// The marketplace program's identity.
pub fn program_id() -> (r: Address)
    ensures
        r@ == program_id_view(),
{
    let r = Address {
        bytes: [
            214, 159, 145, 177, 86, 2, 2, 164, 221, 43, 104, 1, 11, 37, 189, 117,
            132, 231, 134, 106, 37, 107, 179, 16, 250, 33, 133, 115, 68, 137, 191, 166,
        ],
    };
    assert(r@ =~= program_id_view());
    r
}

fn token_program_id() -> (r: Address)
    ensures
        r@ == token_program_view(),
{
    let r = Address {
        bytes: [
            6, 221, 246, 225, 215, 101, 161, 147, 217, 203, 225, 70, 206, 235, 121, 172,
            28, 180, 133, 237, 95, 91, 55, 145, 58, 140, 245, 133, 126, 255, 0, 169,
        ],
    };
    assert(r@ =~= token_program_view());
    r
}

fn associated_token_program_id() -> (r: Address)
    ensures
        r@ == associated_token_program_view(),
{
    let r = Address {
        bytes: [
            140, 151, 37, 143, 78, 36, 137, 241, 187, 61, 16, 41, 20, 142, 13, 131,
            11, 90, 19, 153, 218, 255, 16, 132, 4, 142, 123, 216, 219, 233, 248, 89,
        ],
    };
    assert(r@ =~= associated_token_program_view());
    r
}

/// Seed tag of the marketplace's configuration record.
pub open spec fn marketplace_tag() -> Seq<u8> {
    seq![109u8, 97, 114, 107, 101, 116, 112, 108, 97, 99, 101]
}

/// Seed tag of a listing record.
pub open spec fn listing_tag() -> Seq<u8> {
    seq![108u8, 105, 115, 116, 105, 110, 103]
}

/// Where the marketplace's configuration must live, if it can be derived.
pub open spec fn marketplace_address_spec() -> Option<Seq<u8>> {
    match program_address(seq![marketplace_tag()], program_id_view()) {
        Some((a, _)) => Some(a),
        None => None,
    }
}

/// Where the listing of the asset `mint` must live, if it can be derived.
pub open spec fn listing_address_spec(mint: Seq<u8>) -> Option<Seq<u8>> {
    match program_address(seq![listing_tag(), mint], program_id_view()) {
        Some((a, _)) => Some(a),
        None => None,
    }
}

/// Where the associated holding of asset `mint` owned by `owner` must live,
/// if it can be derived: the associated token program's seeds are the owner,
/// the token program and the mint.
pub open spec fn escrow_address_spec(owner: Seq<u8>, mint: Seq<u8>) -> Option<Seq<u8>> {
    match program_address(seq![owner, token_program_view(), mint], associated_token_program_view()) {
        Some((a, _)) => Some(a),
        None => None,
    }
}

/// Derives the address of the marketplace's configuration record.
pub fn marketplace_address() -> (r: Option<Address>)
    ensures
        r is Some <==> marketplace_address_spec() is Some,
        r matches Some(a) ==> marketplace_address_spec() == Some(a@),
{
    let tag: Vec<u8> = vec![109, 97, 114, 107, 101, 116, 112, 108, 97, 99, 101];
    let seeds: Vec<Vec<u8>> = vec![tag];
    proof {
        assert(tag@ =~= marketplace_tag());
        assert(seeds@.map_values(|s: Vec<u8>| s@) =~= seq![marketplace_tag()]);
    }
    match find_program_address(&seeds, &program_id()) {
        Some((a, _)) => Some(a),
        None => None,
    }
}

/// Derives the address of the listing record of the asset `mint`.
pub fn listing_address(mint: &Address) -> (r: Option<Address>)
    ensures
        r is Some <==> listing_address_spec(mint@) is Some,
        r matches Some(a) ==> listing_address_spec(mint@) == Some(a@),
{
    let tag: Vec<u8> = vec![108, 105, 115, 116, 105, 110, 103];
    let key: Vec<u8> = mint.to_vec();
    let seeds: Vec<Vec<u8>> = vec![tag, key];
    proof {
        assert(tag@ =~= listing_tag());
        assert(seeds@.map_values(|s: Vec<u8>| s@) =~= seq![listing_tag(), mint@]);
    }
    match find_program_address(&seeds, &program_id()) {
        Some((a, _)) => Some(a),
        None => None,
    }
}

/// Derives the custody holding of asset `mint` owned by `owner`.
pub fn escrow_address(owner: &Address, mint: &Address) -> (r: Option<Address>)
    ensures
        r is Some <==> escrow_address_spec(owner@, mint@) is Some,
        r matches Some(a) ==> escrow_address_spec(owner@, mint@) == Some(a@),
{
    let seeds: Vec<Vec<u8>> = vec![owner.to_vec(), token_program_id().to_vec(), mint.to_vec()];
    proof {
        assert(seeds@.map_values(|s: Vec<u8>| s@) =~= seq![owner@, token_program_view(), mint@]);
    }
    match find_program_address(&seeds, &associated_token_program_id()) {
        Some((a, _)) => Some(a),
        None => None,
    }
}

} // verus!
