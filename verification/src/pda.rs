use vstd::prelude::*;
use crate::address::Address;

verus! {

/// The host ledger's deterministic address derivation: what
/// `Pubkey::try_find_program_address` returns for the given seed slices and
/// owning program. The result is a pure function of its arguments (a hash
/// search over bump seeds), `None` only in the statistically improbable
/// event that no bump seed yields a valid derived address.
pub uninterp spec fn derived_address(seeds: Seq<Seq<u8>>, program: Seq<u8>) -> Option<Seq<u8>>;

/// The identity of the external metadata program,
/// `metaqbxxUerdq28cj1RbAWkYQm3ybzjb6a8bt518x1s` in base-58.
pub open spec fn metadata_program_id() -> Seq<u8> {
    seq![
        11u8, 112, 101, 177, 227, 209, 124, 69, 56, 157, 82, 127, 107, 4, 195, 205,
        88, 184, 108, 115, 26, 160, 253, 181, 73, 182, 209, 188, 3, 248, 41, 70,
    ]
}

/// The bytes of the seed prefix `"metadata"`.
pub open spec fn metadata_prefix() -> Seq<u8> {
    seq![109u8, 101, 116, 97, 100, 97, 116, 97]
}

/// The bytes of the extra seed `"edition"`.
pub open spec fn edition_suffix() -> Seq<u8> {
    seq![101u8, 100, 105, 116, 105, 111, 110]
}

/// Seed scheme of the metadata record: `["metadata", program id, mint]`.
pub open spec fn metadata_seeds(mint: Seq<u8>) -> Seq<Seq<u8>> {
    seq![metadata_prefix(), metadata_program_id(), mint]
}

/// Seed scheme of the master edition record:
/// `["metadata", program id, mint, "edition"]`.
pub open spec fn master_edition_seeds(mint: Seq<u8>) -> Seq<Seq<u8>> {
    seq![metadata_prefix(), metadata_program_id(), mint, edition_suffix()]
}

/// Relies on `solana_program::pubkey::Pubkey::try_find_program_address`:
/// the returned key is a pure function of the seed slices and the program
/// id, and `None` comes only when no bump seed yields a valid address.
#[verifier::external_body]
fn try_find_pda(seeds: &Vec<Vec<u8>>, program: &Address) -> (r: Option<Address>)
    ensures
        (match r {
            Some(a) => Some(a@),
            None => None,
        }) == derived_address(seeds.deep_view(), program@),
{
    let seed_slices: Vec<&[u8]> = seeds.iter().map(|s| s.as_slice()).collect();
    let program_key = solana_program::pubkey::Pubkey::new_from_array(program.bytes);
    solana_program::pubkey::Pubkey::try_find_program_address(&seed_slices, &program_key)
        .map(|(key, _bump)| Address { bytes: key.to_bytes() })
}

/// Relies on `mpl_token_metadata::ID`, the declared address of the external
/// metadata program (`metaqbxxUerdq28cj1RbAWkYQm3ybzjb6a8bt518x1s`).
#[verifier::external_body]
fn metadata_program_id_raw() -> (r: Address)
    ensures
        r@ == metadata_program_id(),
{
    Address { bytes: mpl_token_metadata::ID.to_bytes() }
}

/// The address of the external metadata program.
pub fn metadata_program_address() -> (r: Address)
    ensures
        r@ == metadata_program_id(),
{
    metadata_program_id_raw()
}

fn metadata_prefix_vec() -> (r: Vec<u8>)
    ensures
        r@ == metadata_prefix(),
{
    let mut v: Vec<u8> = Vec::new();
    v.push(109);
    v.push(101);
    v.push(116);
    v.push(97);
    v.push(100);
    v.push(97);
    v.push(116);
    v.push(97);
    proof {
        assert(v@ =~= metadata_prefix());
    }
    v
}

fn edition_suffix_vec() -> (r: Vec<u8>)
    ensures
        r@ == edition_suffix(),
{
    let mut v: Vec<u8> = Vec::new();
    v.push(101);
    v.push(100);
    v.push(105);
    v.push(116);
    v.push(105);
    v.push(111);
    v.push(110);
    proof {
        assert(v@ =~= edition_suffix());
    }
    v
}

/// Derive the metadata record's address for `mint`, owned by the external
/// metadata program.
pub fn find_metadata_address(mint: &Address) -> (r: Option<Address>)
    ensures
        (match r {
            Some(a) => Some(a@),
            None => None,
        }) == derived_address(metadata_seeds(mint@), metadata_program_id()),
{
    let program = metadata_program_address();
    let mut seeds: Vec<Vec<u8>> = Vec::new();
    seeds.push(metadata_prefix_vec());
    seeds.push(program.to_vec());
    seeds.push(mint.to_vec());
    proof {
        assert(seeds.deep_view() =~~= metadata_seeds(mint@));
    }
    try_find_pda(&seeds, &program)
}

/// Derive the master edition record's address for `mint`, owned by the
/// external metadata program.
pub fn find_master_edition_address(mint: &Address) -> (r: Option<Address>)
    ensures
        (match r {
            Some(a) => Some(a@),
            None => None,
        }) == derived_address(master_edition_seeds(mint@), metadata_program_id()),
{
    let program = metadata_program_address();
    let mut seeds: Vec<Vec<u8>> = Vec::new();
    seeds.push(metadata_prefix_vec());
    seeds.push(program.to_vec());
    seeds.push(mint.to_vec());
    seeds.push(edition_suffix_vec());
    proof {
        assert(seeds.deep_view() =~~= master_edition_seeds(mint@));
    }
    try_find_pda(&seeds, &program)
}

/// Derivation determinism: the two record addresses are pure functions of
/// the mint address, so two independent computations over the same
/// (program id, mint) pair agree.
pub proof fn lemma_derivation_deterministic(mint_a: Seq<u8>, mint_b: Seq<u8>)
    requires
        mint_a == mint_b,
    ensures
        derived_address(metadata_seeds(mint_a), metadata_program_id())
            == derived_address(metadata_seeds(mint_b), metadata_program_id()),
        derived_address(master_edition_seeds(mint_a), metadata_program_id())
            == derived_address(master_edition_seeds(mint_b), metadata_program_id()),
{
}

} // verus!
