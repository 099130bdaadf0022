use pokemon::address::Address;
use pokemon::handler::mint;
use pokemon::handler::CpiOutcome;
use pokemon::handler::MintMachine;
use pokemon::handler::MintPlan;
use pokemon::handler::MintStage;
use pokemon::pda::find_master_edition_address;
use pokemon::pda::find_metadata_address;

fn sample_plan() -> MintPlan {
    mint(
        &Address::new([3u8; 32]),
        &Address::new([2u8; 32]),
        &String::from("Pikachu"),
        &String::from("PIKA"),
        &String::from("https://example/1.json"),
        &String::from("Pikachu"),
    )
    .unwrap()
}

#[test]
fn plan_reflects_inputs_and_derivations() {
    let plan = sample_plan();
    assert_eq!(plan.payer.bytes, [3u8; 32]);
    assert_eq!(plan.mint.bytes, [2u8; 32]);
    let metadata = find_metadata_address(&Address::new([2u8; 32])).unwrap();
    let edition = find_master_edition_address(&Address::new([2u8; 32])).unwrap();
    assert_eq!(plan.metadata_address.bytes, metadata.bytes);
    assert_eq!(plan.master_edition_address.bytes, edition.bytes);
    // the first request targets the metadata record, the second the edition
    assert_eq!(plan.create_metadata.accounts[0].address.bytes, metadata.bytes);
    assert_eq!(
        plan.create_master_edition.accounts[0].address.bytes,
        edition.bytes
    );
    // the second request references the metadata record by address
    assert_eq!(
        plan.create_master_edition.accounts[5].address.bytes,
        metadata.bytes
    );
}

#[test]
fn multibyte_title_is_carried_verbatim() {
    let plan = mint(
        &Address::new([3u8; 32]),
        &Address::new([2u8; 32]),
        &String::from("Pok\u{e9}mon"),
        &String::from("PKMN"),
        &String::from("https://example/2.json"),
        &String::from("Pok\u{e9}mon"),
    )
    .unwrap();
    let name_bytes = "Pok\u{e9}mon".as_bytes();
    assert_eq!(name_bytes.len(), 8);
    assert_eq!(&plan.create_metadata.data[1..5], &8u32.to_le_bytes());
    assert_eq!(&plan.create_metadata.data[5..13], name_bytes);
}

#[test]
fn successful_run_issues_both_requests_in_order() {
    let mut machine = MintMachine::new(sample_plan());
    assert!(machine.pending_request().is_none());
    machine.start();
    assert_eq!(machine.stage, MintStage::MetadataPending);
    let first = machine.pending_request().unwrap();
    assert_eq!(first.data[0], 33); // create-metadata goes out first
    machine.record_outcome(CpiOutcome::Succeeded);
    assert_eq!(machine.stage, MintStage::MetadataCreated);
    machine.send_edition_request();
    let second = machine.pending_request().unwrap();
    assert_eq!(second.data[0], 17); // create-master-edition second
    machine.record_outcome(CpiOutcome::Succeeded);
    assert_eq!(machine.stage, MintStage::Done);
    assert!(machine.pending_request().is_none());
}

#[test]
fn duplicate_creation_rejection_aborts() {
    // A second invocation against the same mint: the external program
    // rejects the first request because the metadata record exists.
    let mut machine = MintMachine::new(sample_plan());
    machine.start();
    machine.record_outcome(CpiOutcome::Rejected(6));
    assert_eq!(machine.stage, MintStage::Aborted);
    assert!(machine.pending_request().is_none());
}

#[test]
fn edition_rejection_aborts_whole_instruction() {
    // A failure of the second request ends the whole instruction; the host
    // discards the metadata record committed by the first.
    let mut machine = MintMachine::new(sample_plan());
    machine.start();
    machine.record_outcome(CpiOutcome::Succeeded);
    machine.send_edition_request();
    machine.record_outcome(CpiOutcome::Rejected(9));
    assert_eq!(machine.stage, MintStage::Aborted);
    assert!(machine.pending_request().is_none());
}
