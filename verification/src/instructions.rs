use vstd::prelude::*;
use vstd::utf8::encode_utf8;
use crate::address::Address;
use crate::pda::metadata_program_id;
use mpl_token_metadata::instructions::CreateMasterEditionV3Builder;
use mpl_token_metadata::instructions::CreateMetadataAccountV3Builder;
use mpl_token_metadata::types::DataV2;

verus! {

/// One account slot of a cross-program request: which account it names,
/// whether it must sign, and whether it may be written.
#[derive(Clone, Copy, Debug, PartialEq, Eq)]
pub struct AccountSlot {
    pub address: Address,
    pub is_signer: bool,
    pub is_writable: bool,
}

/// A cross-program request, ready to be sent to the host ledger: the
/// program to invoke, its ordered account list, and the instruction bytes.
#[derive(Debug)]
pub struct CpiInstruction {
    pub program: Address,
    pub accounts: Vec<AccountSlot>,
    pub data: Vec<u8>,
}

/// Little-endian bytes of a 16-bit number.
pub open spec fn u16_le_bytes(n: u16) -> Seq<u8> {
    seq![(n & 0xff) as u8, ((n >> 8) & 0xff) as u8]
}

/// Little-endian bytes of a 32-bit number.
pub open spec fn u32_le_bytes(n: u32) -> Seq<u8> {
    seq![
        (n & 0xff) as u8,
        ((n >> 8) & 0xff) as u8,
        ((n >> 16) & 0xff) as u8,
        ((n >> 24) & 0xff) as u8,
    ]
}

/// Little-endian bytes of a 64-bit number.
pub open spec fn u64_le_bytes(n: u64) -> Seq<u8> {
    seq![
        (n & 0xff) as u8,
        ((n >> 8) & 0xff) as u8,
        ((n >> 16) & 0xff) as u8,
        ((n >> 24) & 0xff) as u8,
        ((n >> 32) & 0xff) as u8,
        ((n >> 40) & 0xff) as u8,
        ((n >> 48) & 0xff) as u8,
        ((n >> 56) & 0xff) as u8,
    ]
}

/// A string as the wire format carries it: a 4-byte little-endian byte
/// length, then the bytes themselves.
pub open spec fn wire_str(b: Seq<u8>) -> Seq<u8> {
    u32_le_bytes(b.len() as u32) + b
}

/// A present optional 64-bit number as the wire format carries it: tag
/// byte 1, then 8 little-endian bytes.
pub open spec fn wire_some_u64(n: u64) -> Seq<u8> {
    seq![1u8] + u64_le_bytes(n)
}

/// The byte payload of a create-metadata request: its discriminator, the
/// three strings, the royalty in basis points, an absent creator list,
/// collection and uses (one zero tag byte each), the mutability flag, and
/// absent collection details.
pub open spec fn create_metadata_data(
    name: Seq<u8>,
    symbol: Seq<u8>,
    uri: Seq<u8>,
    seller_fee_basis_points: u16,
    is_mutable: bool,
) -> Seq<u8> {
    seq![33u8] + wire_str(name) + wire_str(symbol) + wire_str(uri) + u16_le_bytes(
        seller_fee_basis_points,
    ) + seq![0u8, 0u8, 0u8] + seq![if is_mutable { 1u8 } else { 0u8 }] + seq![0u8]
}

/// The byte payload of a create-master-edition request: its discriminator,
/// then the maximum supply as a present optional number.
pub open spec fn create_master_edition_data(max_supply: u64) -> Seq<u8> {
    seq![17u8] + wire_some_u64(max_supply)
}

/// The address of the system program: thirty-two zero bytes
/// (`11111111111111111111111111111111` in base-58).
pub open spec fn system_program_id() -> Seq<u8> {
    Seq::new(32, |i: int| 0u8)
}

/// The address of the token program,
/// `TokenkegQfeZyiNwAJbNbGKPFXCWuBvf9Ss623VQ5DA` in base-58.
pub open spec fn token_program_id() -> Seq<u8> {
    seq![
        6u8, 221, 246, 225, 215, 101, 161, 147, 217, 203, 225, 70, 206, 235, 121, 172,
        28, 180, 133, 237, 95, 91, 55, 145, 58, 140, 245, 133, 126, 255, 0, 169,
    ]
}

/// Relies on `CreateMetadataAccountV3Builder` of the `mpl-token-metadata`
/// crate: with the rent account left unset it produces an instruction for
/// the metadata program with exactly six account slots in the order
/// metadata (writable), mint, mint authority (signer), payer (writable
/// signer), update authority, system program, and with the request struct
/// serialized in the wire order stated below. The byte-length bound keeps
/// the serializer from failing on a string length that cannot be written
/// as a 32-bit number.
#[verifier::external_body]
fn build_create_metadata(
    metadata: &Address,
    mint: &Address,
    mint_authority: &Address,
    payer: &Address,
    update_authority: &Address,
    update_authority_is_signer: bool,
    name: &String,
    symbol: &String,
    uri: &String,
    seller_fee_basis_points: u16,
    is_mutable: bool,
) -> (r: CpiInstruction)
    requires
        encode_utf8(name@).len() <= u32::MAX,
        encode_utf8(symbol@).len() <= u32::MAX,
        encode_utf8(uri@).len() <= u32::MAX,
    ensures
        r.program@ == metadata_program_id(),
        r.accounts@.len() == 6,
        r.accounts@[0] == (AccountSlot { address: *metadata, is_signer: false, is_writable: true }),
        r.accounts@[1] == (AccountSlot { address: *mint, is_signer: false, is_writable: false }),
        r.accounts@[2] == (AccountSlot {
            address: *mint_authority,
            is_signer: true,
            is_writable: false,
        }),
        r.accounts@[3] == (AccountSlot { address: *payer, is_signer: true, is_writable: true }),
        r.accounts@[4] == (AccountSlot {
            address: *update_authority,
            is_signer: update_authority_is_signer,
            is_writable: false,
        }),
        r.accounts@[5].address@ == system_program_id(),
        r.accounts@[5].is_signer == false,
        r.accounts@[5].is_writable == false,
        r.data@ == create_metadata_data(
            encode_utf8(name@),
            encode_utf8(symbol@),
            encode_utf8(uri@),
            seller_fee_basis_points,
            is_mutable,
        ),
{
    let ix = CreateMetadataAccountV3Builder::new().metadata(metadata.bytes.into())
        .mint(mint.bytes.into()).mint_authority(mint_authority.bytes.into())
        .update_authority(update_authority.bytes.into(), update_authority_is_signer)
        .payer(payer.bytes.into())
        .data(DataV2 { name: name.clone(), symbol: symbol.clone(), uri: uri.clone(),
            seller_fee_basis_points, creators: None, collection: None, uses: None })
        .is_mutable(is_mutable).instruction();
    let accounts = ix.accounts.iter().map(|m| AccountSlot {
        address: Address::new(m.pubkey.to_bytes()),
        is_signer: m.is_signer, is_writable: m.is_writable }).collect();
    CpiInstruction { program: Address::new(ix.program_id.to_bytes()), accounts, data: ix.data }
}

/// Relies on `CreateMasterEditionV3Builder` of the `mpl-token-metadata`
/// crate: with the token program, system program and rent accounts left
/// unset it produces an instruction for the metadata program with exactly
/// eight account slots in the order edition (writable), mint (writable),
/// update authority (signer), mint authority (signer), payer (writable
/// signer), metadata (writable), token program, system program, and with
/// the maximum supply serialized as stated below.
#[verifier::external_body]
fn build_create_master_edition(
    edition: &Address,
    mint: &Address,
    update_authority: &Address,
    mint_authority: &Address,
    payer: &Address,
    metadata: &Address,
    max_supply: u64,
) -> (r: CpiInstruction)
    ensures
        r.program@ == metadata_program_id(),
        r.accounts@.len() == 8,
        r.accounts@[0] == (AccountSlot { address: *edition, is_signer: false, is_writable: true }),
        r.accounts@[1] == (AccountSlot { address: *mint, is_signer: false, is_writable: true }),
        r.accounts@[2] == (AccountSlot {
            address: *update_authority,
            is_signer: true,
            is_writable: false,
        }),
        r.accounts@[3] == (AccountSlot {
            address: *mint_authority,
            is_signer: true,
            is_writable: false,
        }),
        r.accounts@[4] == (AccountSlot { address: *payer, is_signer: true, is_writable: true }),
        r.accounts@[5] == (AccountSlot {
            address: *metadata,
            is_signer: false,
            is_writable: true,
        }),
        r.accounts@[6].address@ == token_program_id(),
        r.accounts@[6].is_signer == false,
        r.accounts@[6].is_writable == false,
        r.accounts@[7].address@ == system_program_id(),
        r.accounts@[7].is_signer == false,
        r.accounts@[7].is_writable == false,
        r.data@ == create_master_edition_data(max_supply),
{
    let ix = CreateMasterEditionV3Builder::new().edition(edition.bytes.into())
        .mint(mint.bytes.into()).update_authority(update_authority.bytes.into())
        .mint_authority(mint_authority.bytes.into()).payer(payer.bytes.into())
        .metadata(metadata.bytes.into()).max_supply(max_supply).instruction();
    let accounts = ix.accounts.iter().map(|m| AccountSlot {
        address: Address::new(m.pubkey.to_bytes()),
        is_signer: m.is_signer, is_writable: m.is_writable }).collect();
    CpiInstruction { program: Address::new(ix.program_id.to_bytes()), accounts, data: ix.data }
}

/// The create-metadata request this handler issues: target the metadata
/// record, name the mint, let the payer stand as mint authority, fee payer
/// and update authority (the update authority signing), carry the three
/// caller strings verbatim with no royalty, no creator list, no collection
/// and no uses, and mark the record mutable.
pub open spec fn is_create_metadata_instruction(
    ix: CpiInstruction,
    metadata: Address,
    mint: Address,
    payer: Address,
    name: Seq<char>,
    symbol: Seq<char>,
    uri: Seq<char>,
) -> bool {
    &&& ix.program@ == metadata_program_id()
    &&& ix.accounts@.len() == 6
    &&& ix.accounts@[0] == (AccountSlot { address: metadata, is_signer: false, is_writable: true })
    &&& ix.accounts@[1] == (AccountSlot { address: mint, is_signer: false, is_writable: false })
    &&& ix.accounts@[2] == (AccountSlot { address: payer, is_signer: true, is_writable: false })
    &&& ix.accounts@[3] == (AccountSlot { address: payer, is_signer: true, is_writable: true })
    &&& ix.accounts@[4] == (AccountSlot { address: payer, is_signer: true, is_writable: false })
    &&& ix.accounts@[5].address@ == system_program_id()
    &&& ix.accounts@[5].is_signer == false
    &&& ix.accounts@[5].is_writable == false
    &&& ix.data@ == create_metadata_data(
        encode_utf8(name),
        encode_utf8(symbol),
        encode_utf8(uri),
        0,
        true,
    )
}

/// The create-master-edition request this handler issues: target the
/// edition record, name the mint and the metadata record, let the payer
/// stand as update authority, mint authority and fee payer, and fix the
/// maximum supply at zero, which forbids further copies.
pub open spec fn is_create_master_edition_instruction(
    ix: CpiInstruction,
    edition: Address,
    mint: Address,
    payer: Address,
    metadata: Address,
) -> bool {
    &&& ix.program@ == metadata_program_id()
    &&& ix.accounts@.len() == 8
    &&& ix.accounts@[0] == (AccountSlot { address: edition, is_signer: false, is_writable: true })
    &&& ix.accounts@[1] == (AccountSlot { address: mint, is_signer: false, is_writable: true })
    &&& ix.accounts@[2] == (AccountSlot { address: payer, is_signer: true, is_writable: false })
    &&& ix.accounts@[3] == (AccountSlot { address: payer, is_signer: true, is_writable: false })
    &&& ix.accounts@[4] == (AccountSlot { address: payer, is_signer: true, is_writable: true })
    &&& ix.accounts@[5] == (AccountSlot { address: metadata, is_signer: false, is_writable: true })
    &&& ix.accounts@[6].address@ == token_program_id()
    &&& ix.accounts@[6].is_signer == false
    &&& ix.accounts@[6].is_writable == false
    &&& ix.accounts@[7].address@ == system_program_id()
    &&& ix.accounts@[7].is_signer == false
    &&& ix.accounts@[7].is_writable == false
    &&& ix.data@ == create_master_edition_data(0)
}

/// Whether every string fits the wire format's 32-bit byte-length prefix.
pub open spec fn strings_fit_wire_format(name: Seq<char>, symbol: Seq<char>, uri: Seq<char>) -> bool {
    &&& encode_utf8(name).len() <= u32::MAX
    &&& encode_utf8(symbol).len() <= u32::MAX
    &&& encode_utf8(uri).len() <= u32::MAX
}

/// Build the create-metadata request, or report that a string is too long
/// for the wire format's length prefix.
pub fn create_metadata_instruction(
    metadata: &Address,
    mint: &Address,
    payer: &Address,
    name: &String,
    symbol: &String,
    uri: &String,
) -> (r: Option<CpiInstruction>)
    ensures
        match r {
            Some(ix) => strings_fit_wire_format(name@, symbol@, uri@)
                && is_create_metadata_instruction(
                ix,
                *metadata,
                *mint,
                *payer,
                name@,
                symbol@,
                uri@,
            ),
            None => !strings_fit_wire_format(name@, symbol@, uri@),
        },
{
    if name.as_str().as_bytes().len() > u32::MAX as usize {
        return None;
    }
    if symbol.as_str().as_bytes().len() > u32::MAX as usize {
        return None;
    }
    if uri.as_str().as_bytes().len() > u32::MAX as usize {
        return None;
    }
    Some(build_create_metadata(metadata, mint, payer, payer, payer, true, name, symbol, uri, 0, true))
}

/// Build the create-master-edition request, with the maximum supply fixed
/// at zero.
pub fn create_master_edition_instruction(
    edition: &Address,
    mint: &Address,
    payer: &Address,
    metadata: &Address,
) -> (r: CpiInstruction)
    ensures
        is_create_master_edition_instruction(r, *edition, *mint, *payer, *metadata),
{
    build_create_master_edition(edition, mint, payer, payer, payer, metadata, 0)
}

} // verus!
