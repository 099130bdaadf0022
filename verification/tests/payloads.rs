use mpl_token_metadata::instructions::CreateMasterEditionV3Builder;
use mpl_token_metadata::instructions::CreateMetadataAccountV3Builder;
use mpl_token_metadata::types::DataV2;
use pokemon::address::Address;
use pokemon::instructions::create_master_edition_instruction;
use pokemon::instructions::create_metadata_instruction;
use solana_program::pubkey::Pubkey;

#[test]
fn metadata_payload_field_fidelity() {
    let metadata = Address::new([1u8; 32]);
    let mint = Address::new([2u8; 32]);
    let payer = Address::new([3u8; 32]);
    let ix = create_metadata_instruction(
        &metadata,
        &mint,
        &payer,
        &String::from("Pikachu"),
        &String::from("PIKA"),
        &String::from("https://example/1.json"),
    )
    .unwrap();

    let mut expect: Vec<u8> = vec![33];
    expect.extend_from_slice(&7u32.to_le_bytes());
    expect.extend_from_slice(b"Pikachu");
    expect.extend_from_slice(&4u32.to_le_bytes());
    expect.extend_from_slice(b"PIKA");
    let uri = b"https://example/1.json";
    expect.extend_from_slice(&(uri.len() as u32).to_le_bytes());
    expect.extend_from_slice(uri);
    expect.extend_from_slice(&[0, 0]); // zero royalty basis points
    expect.extend_from_slice(&[0, 0, 0]); // no creators, collection, uses
    expect.push(1); // mutable
    expect.push(0); // no collection details
    assert_eq!(ix.data, expect);
}

#[test]
fn metadata_account_order_and_flags() {
    let metadata = Address::new([1u8; 32]);
    let mint = Address::new([2u8; 32]);
    let payer = Address::new([3u8; 32]);
    let ix = create_metadata_instruction(
        &metadata,
        &mint,
        &payer,
        &String::from("Pikachu"),
        &String::from("PIKA"),
        &String::from("https://example/1.json"),
    )
    .unwrap();

    assert_eq!(ix.program.bytes, mpl_token_metadata::ID.to_bytes());
    assert_eq!(ix.accounts.len(), 6);
    let expect = [
        ([1u8; 32], false, true),  // metadata record, writable
        ([2u8; 32], false, false), // mint
        ([3u8; 32], true, false),  // mint authority signs
        ([3u8; 32], true, true),   // payer signs and is written
        ([3u8; 32], true, false),  // update authority signs
        ([0u8; 32], false, false), // system program
    ];
    for (slot, (bytes, signer, writable)) in ix.accounts.iter().zip(expect.iter()) {
        assert_eq!(slot.address.bytes, *bytes);
        assert_eq!(slot.is_signer, *signer);
        assert_eq!(slot.is_writable, *writable);
    }
}

#[test]
fn metadata_instruction_matches_external_builder() {
    let metadata = Address::new([11u8; 32]);
    let mint = Address::new([12u8; 32]);
    let payer = Address::new([13u8; 32]);
    let title = String::from("Bulbasaur");
    let symbol = String::from("BULB");
    let uri = String::from("https://example/4.json");
    let ours = create_metadata_instruction(&metadata, &mint, &payer, &title, &symbol, &uri)
        .unwrap();

    let theirs = CreateMetadataAccountV3Builder::new()
        .metadata(Pubkey::new_from_array(metadata.bytes))
        .mint(Pubkey::new_from_array(mint.bytes))
        .mint_authority(Pubkey::new_from_array(payer.bytes))
        .update_authority(Pubkey::new_from_array(payer.bytes), true)
        .payer(Pubkey::new_from_array(payer.bytes))
        .data(DataV2 {
            name: title,
            symbol,
            uri,
            seller_fee_basis_points: 0,
            creators: None,
            collection: None,
            uses: None,
        })
        .is_mutable(true)
        .instruction();

    assert_eq!(ours.program.bytes, theirs.program_id.to_bytes());
    assert_eq!(ours.data, theirs.data);
    assert_eq!(ours.accounts.len(), theirs.accounts.len());
    for (a, b) in ours.accounts.iter().zip(theirs.accounts.iter()) {
        assert_eq!(a.address.bytes, b.pubkey.to_bytes());
        assert_eq!(a.is_signer, b.is_signer);
        assert_eq!(a.is_writable, b.is_writable);
    }
}

#[test]
fn master_edition_payload_max_supply_zero() {
    let edition = Address::new([4u8; 32]);
    let mint = Address::new([2u8; 32]);
    let payer = Address::new([3u8; 32]);
    let metadata = Address::new([1u8; 32]);
    let ix = create_master_edition_instruction(&edition, &mint, &payer, &metadata);
    assert_eq!(ix.data, vec![17, 1, 0, 0, 0, 0, 0, 0, 0, 0]);
}

#[test]
fn master_edition_account_order_and_flags() {
    let edition = Address::new([4u8; 32]);
    let mint = Address::new([2u8; 32]);
    let payer = Address::new([3u8; 32]);
    let metadata = Address::new([1u8; 32]);
    let ix = create_master_edition_instruction(&edition, &mint, &payer, &metadata);

    assert_eq!(ix.program.bytes, mpl_token_metadata::ID.to_bytes());
    assert_eq!(ix.accounts.len(), 8);
    let token_program = anchor_spl::token::ID.to_bytes();
    let expect = [
        ([4u8; 32], false, true),   // edition record, writable
        ([2u8; 32], false, true),   // mint, written by the external program
        ([3u8; 32], true, false),   // update authority signs
        ([3u8; 32], true, false),   // mint authority signs
        ([3u8; 32], true, true),    // payer signs and is written
        ([1u8; 32], false, true),   // metadata record, writable
        (token_program, false, false),
        ([0u8; 32], false, false), // system program
    ];
    for (slot, (bytes, signer, writable)) in ix.accounts.iter().zip(expect.iter()) {
        assert_eq!(slot.address.bytes, *bytes);
        assert_eq!(slot.is_signer, *signer);
        assert_eq!(slot.is_writable, *writable);
    }
}

#[test]
fn master_edition_instruction_matches_external_builder() {
    let edition = Address::new([24u8; 32]);
    let mint = Address::new([22u8; 32]);
    let payer = Address::new([23u8; 32]);
    let metadata = Address::new([21u8; 32]);
    let ours = create_master_edition_instruction(&edition, &mint, &payer, &metadata);

    let theirs = CreateMasterEditionV3Builder::new()
        .edition(Pubkey::new_from_array(edition.bytes))
        .mint(Pubkey::new_from_array(mint.bytes))
        .update_authority(Pubkey::new_from_array(payer.bytes))
        .mint_authority(Pubkey::new_from_array(payer.bytes))
        .payer(Pubkey::new_from_array(payer.bytes))
        .metadata(Pubkey::new_from_array(metadata.bytes))
        .max_supply(0)
        .instruction();

    assert_eq!(ours.program.bytes, theirs.program_id.to_bytes());
    assert_eq!(ours.data, theirs.data);
    assert_eq!(ours.accounts.len(), theirs.accounts.len());
    for (a, b) in ours.accounts.iter().zip(theirs.accounts.iter()) {
        assert_eq!(a.address.bytes, b.pubkey.to_bytes());
        assert_eq!(a.is_signer, b.is_signer);
        assert_eq!(a.is_writable, b.is_writable);
    }
}

#[test]
fn empty_strings_are_carried_verbatim() {
    let metadata = Address::new([1u8; 32]);
    let mint = Address::new([2u8; 32]);
    let payer = Address::new([3u8; 32]);
    let ix = create_metadata_instruction(
        &metadata,
        &mint,
        &payer,
        &String::new(),
        &String::new(),
        &String::new(),
    )
    .unwrap();
    let mut expect: Vec<u8> = vec![33];
    expect.extend_from_slice(&0u32.to_le_bytes());
    expect.extend_from_slice(&0u32.to_le_bytes());
    expect.extend_from_slice(&0u32.to_le_bytes());
    expect.extend_from_slice(&[0, 0, 0, 0, 0, 1, 0]);
    assert_eq!(ix.data, expect);
}
