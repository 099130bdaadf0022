use vstd::prelude::*;
use vstd::utf8::encode_utf8;
use crate::handler::MintPlan;
use crate::handler::plan_wf;
use crate::pda::derived_address;
use crate::pda::master_edition_seeds;
use crate::pda::metadata_program_id;
use crate::pda::metadata_seeds;

verus! {

/// What one committed record of the external metadata program holds, as far
/// as this handler's requests determine it.
pub enum LedgerRecord {
    /// The metadata record: the mint it describes, its update authority,
    /// the three strings, the royalty, whether a creator list, collection
    /// or uses are present, and the mutability flag.
    Metadata {
        mint: Seq<u8>,
        update_authority: Seq<u8>,
        name: Seq<u8>,
        symbol: Seq<u8>,
        uri: Seq<u8>,
        seller_fee_basis_points: u16,
        has_creators: bool,
        has_collection: bool,
        has_uses: bool,
        is_mutable: bool,
    },
    /// The master edition record: its mint and the maximum further supply.
    MasterEdition { mint: Seq<u8>, max_supply: u64 },
}

/// The ledger as this model sees it: which record is committed at which
/// address. The host gives per-instruction atomicity: a failed instruction
/// leaves the caller's ledger value untouched.
pub type LedgerModel = Map<Seq<u8>, LedgerRecord>;

/// The metadata record's derived address for `mint`, where one exists.
pub open spec fn metadata_address_of(mint: Seq<u8>) -> Option<Seq<u8>> {
    derived_address(metadata_seeds(mint), metadata_program_id())
}

/// The master edition record's derived address for `mint`, where one
/// exists.
pub open spec fn master_edition_address_of(mint: Seq<u8>) -> Option<Seq<u8>> {
    derived_address(master_edition_seeds(mint), metadata_program_id())
}

/// The external program's create-metadata step: it rejects a target that
/// already exists — the duplicate-creation signal — and otherwise commits
/// the record at the target address.
pub open spec fn apply_create_metadata(
    ledger: LedgerModel,
    target: Seq<u8>,
    record: LedgerRecord,
) -> Option<LedgerModel> {
    if ledger.dom().contains(target) {
        None
    } else {
        Some(ledger.insert(target, record))
    }
}

/// The external program's create-master-edition step: it rejects a target
/// that already exists, and a metadata address at which nothing is
/// committed — the edition references the metadata record by address.
pub open spec fn apply_create_master_edition(
    ledger: LedgerModel,
    target: Seq<u8>,
    metadata_address: Seq<u8>,
    record: LedgerRecord,
) -> Option<LedgerModel> {
    if ledger.dom().contains(target) {
        None
    } else if !ledger.dom().contains(metadata_address) {
        None
    } else {
        Some(ledger.insert(target, record))
    }
}

/// The metadata record this handler's request commits: the three strings
/// verbatim, no royalty, no creator list, no collection, no uses, mutable,
/// with the payer as update authority.
pub open spec fn minted_metadata_record(
    mint: Seq<u8>,
    payer: Seq<u8>,
    name: Seq<u8>,
    symbol: Seq<u8>,
    uri: Seq<u8>,
) -> LedgerRecord {
    LedgerRecord::Metadata {
        mint,
        update_authority: payer,
        name,
        symbol,
        uri,
        seller_fee_basis_points: 0,
        has_creators: false,
        has_collection: false,
        has_uses: false,
        is_mutable: true,
    }
}

/// The master edition record this handler's request commits: a maximum
/// further supply of zero, the defining property of a non-fungible edition.
pub open spec fn minted_edition_record(mint: Seq<u8>) -> LedgerRecord {
    LedgerRecord::MasterEdition { mint, max_supply: 0 }
}

/// One whole invocation of the instruction against a ledger: derive the two
/// addresses, create the metadata record, then the master edition. `None`
/// means some step was rejected; the host then discards every effect, so
/// the caller's ledger stands unchanged — both records commit, or neither.
pub open spec fn run_mint(
    ledger: LedgerModel,
    mint: Seq<u8>,
    payer: Seq<u8>,
    name: Seq<u8>,
    symbol: Seq<u8>,
    uri: Seq<u8>,
) -> Option<LedgerModel> {
    match (metadata_address_of(mint), master_edition_address_of(mint)) {
        (Some(metadata_address), Some(edition_address)) => {
            match apply_create_metadata(
                ledger,
                metadata_address,
                minted_metadata_record(mint, payer, name, symbol, uri),
            ) {
                Some(mid) => apply_create_master_edition(
                    mid,
                    edition_address,
                    metadata_address,
                    minted_edition_record(mint),
                ),
                None => None,
            }
        },
        _ => None,
    }
}

/// Against a fresh mint — neither derived address occupied — one invocation
/// succeeds and commits the metadata record and the master edition record
/// at the two derived addresses, and touches no other account. The two
/// derived addresses of a real mint are distinct; the derivation model
/// leaves that open, so it stands in the premises.
pub proof fn lemma_first_mint_commits_both(
    ledger: LedgerModel,
    mint: Seq<u8>,
    payer: Seq<u8>,
    name: Seq<u8>,
    symbol: Seq<u8>,
    uri: Seq<u8>,
    metadata_address: Seq<u8>,
    edition_address: Seq<u8>,
)
    requires
        metadata_address_of(mint) == Some(metadata_address),
        master_edition_address_of(mint) == Some(edition_address),
        metadata_address != edition_address,
        !ledger.dom().contains(metadata_address),
        !ledger.dom().contains(edition_address),
    ensures
        run_mint(ledger, mint, payer, name, symbol, uri) == Some(
            ledger.insert(
                metadata_address,
                minted_metadata_record(mint, payer, name, symbol, uri),
            ).insert(edition_address, minted_edition_record(mint)),
        ),
{
}

/// Whatever ledger an invocation succeeded against, it committed exactly
/// the two records at the two derived addresses — both or neither, never
/// one — and only against a ledger where neither address was occupied.
pub proof fn lemma_all_or_nothing(
    ledger: LedgerModel,
    after: LedgerModel,
    mint: Seq<u8>,
    payer: Seq<u8>,
    name: Seq<u8>,
    symbol: Seq<u8>,
    uri: Seq<u8>,
    metadata_address: Seq<u8>,
    edition_address: Seq<u8>,
)
    requires
        metadata_address_of(mint) == Some(metadata_address),
        master_edition_address_of(mint) == Some(edition_address),
        run_mint(ledger, mint, payer, name, symbol, uri) == Some(after),
    ensures
        metadata_address != edition_address,
        !ledger.dom().contains(metadata_address),
        !ledger.dom().contains(edition_address),
        after.dom() =~= ledger.dom().insert(metadata_address).insert(edition_address),
        after[metadata_address] == minted_metadata_record(mint, payer, name, symbol, uri),
        after[edition_address] == minted_edition_record(mint),
{
}

/// Idempotence by rejection: a second invocation against the same mint
/// fails with the duplicate-creation rejection, and the first invocation's
/// records stand unchanged in the ledger it runs against.
pub proof fn lemma_second_mint_rejected(
    ledger: LedgerModel,
    after: LedgerModel,
    mint: Seq<u8>,
    payer: Seq<u8>,
    name: Seq<u8>,
    symbol: Seq<u8>,
    uri: Seq<u8>,
    payer_again: Seq<u8>,
    name_again: Seq<u8>,
    symbol_again: Seq<u8>,
    uri_again: Seq<u8>,
    metadata_address: Seq<u8>,
    edition_address: Seq<u8>,
)
    requires
        metadata_address_of(mint) == Some(metadata_address),
        master_edition_address_of(mint) == Some(edition_address),
        run_mint(ledger, mint, payer, name, symbol, uri) == Some(after),
    ensures
        run_mint(after, mint, payer_again, name_again, symbol_again, uri_again) is None,
        after[metadata_address] == minted_metadata_record(mint, payer, name, symbol, uri),
        after[edition_address] == minted_edition_record(mint),
{
    lemma_all_or_nothing(
        ledger,
        after,
        mint,
        payer,
        name,
        symbol,
        uri,
        metadata_address,
        edition_address,
    );
    assert(after.dom().contains(metadata_address));
}

/// Ordering dependency, first half: the master-edition step attempted with
/// a metadata address at which nothing was committed is rejected.
pub proof fn lemma_edition_step_needs_metadata(
    ledger: LedgerModel,
    target: Seq<u8>,
    metadata_address: Seq<u8>,
    record: LedgerRecord,
)
    requires
        !ledger.dom().contains(metadata_address),
    ensures
        apply_create_master_edition(ledger, target, metadata_address, record) is None,
{
}

/// Ordering dependency, second half: the metadata step never depends on the
/// master edition existing — it decides by its own target address alone.
pub proof fn lemma_metadata_step_ignores_edition(
    ledger_one: LedgerModel,
    ledger_two: LedgerModel,
    target: Seq<u8>,
    record: LedgerRecord,
)
    requires
        ledger_one.dom().contains(target) == ledger_two.dom().contains(target),
    ensures
        (apply_create_metadata(ledger_one, target, record) is Some) == (apply_create_metadata(
            ledger_two,
            target,
            record,
        ) is Some),
{
}

/// The executable plan and the ledger model agree: the invocation a
/// faithful plan drives, run against a fresh ledger, commits the metadata
/// and master-edition records at exactly the plan's two derived addresses,
/// carrying the plan's strings.
pub proof fn lemma_plan_matches_ledger_run(
    plan: MintPlan,
    name: Seq<char>,
    symbol: Seq<char>,
    uri: Seq<char>,
    ledger: LedgerModel,
)
    requires
        plan_wf(plan, name, symbol, uri),
        plan.metadata_address@ != plan.master_edition_address@,
        !ledger.dom().contains(plan.metadata_address@),
        !ledger.dom().contains(plan.master_edition_address@),
    ensures
        run_mint(
            ledger,
            plan.mint@,
            plan.payer@,
            encode_utf8(name),
            encode_utf8(symbol),
            encode_utf8(uri),
        ) == Some(
            ledger.insert(
                plan.metadata_address@,
                minted_metadata_record(
                    plan.mint@,
                    plan.payer@,
                    encode_utf8(name),
                    encode_utf8(symbol),
                    encode_utf8(uri),
                ),
            ).insert(plan.master_edition_address@, minted_edition_record(plan.mint@)),
        ),
{
    lemma_first_mint_commits_both(
        ledger,
        plan.mint@,
        plan.payer@,
        encode_utf8(name),
        encode_utf8(symbol),
        encode_utf8(uri),
        plan.metadata_address@,
        plan.master_edition_address@,
    );
}

/// Atomicity under a forced second failure: where the edition target is
/// already occupied — the way a malformed account surfaces in this model —
/// the whole invocation fails and no metadata record is committed either.
pub proof fn lemma_no_partial_commit(
    ledger: LedgerModel,
    mint: Seq<u8>,
    payer: Seq<u8>,
    name: Seq<u8>,
    symbol: Seq<u8>,
    uri: Seq<u8>,
    metadata_address: Seq<u8>,
    edition_address: Seq<u8>,
)
    requires
        metadata_address_of(mint) == Some(metadata_address),
        master_edition_address_of(mint) == Some(edition_address),
        !ledger.dom().contains(metadata_address),
        ledger.dom().contains(edition_address),
    ensures
        run_mint(ledger, mint, payer, name, symbol, uri) is None,
{
}

} // verus!
