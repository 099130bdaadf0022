use vstd::prelude::*;
use crate::address::Address;
use crate::instructions::CpiInstruction;
use crate::instructions::create_master_edition_instruction;
use crate::instructions::create_metadata_instruction;
use crate::instructions::is_create_master_edition_instruction;
use crate::instructions::is_create_metadata_instruction;
use crate::instructions::strings_fit_wire_format;
use crate::pda::derived_address;
use crate::pda::find_master_edition_address;
use crate::pda::find_metadata_address;
use crate::pda::master_edition_seeds;
use crate::pda::metadata_program_id;
use crate::pda::metadata_seeds;

verus! {

/// Why the handler could not assemble its plan. Every other failure of the
/// instruction is a rejection by the external program or the host, surfaced
/// verbatim as an outcome, never handled locally.
#[derive(Clone, Copy, Debug, PartialEq, Eq)]
pub enum MintError {
    /// No valid derived address exists for one of the two records — a
    /// statistically improbable event of the derivation function.
    DerivationFailed,
    /// A metadata string is longer than the wire format's 32-bit
    /// byte-length prefix can say.
    StringTooLong,
}

/// Everything the handler decides for one invocation: the signer, the mint,
/// the two derived record addresses, and the two requests in issue order.
pub struct MintPlan {
    pub payer: Address,
    pub mint: Address,
    pub metadata_address: Address,
    pub master_edition_address: Address,
    pub create_metadata: CpiInstruction,
    pub create_master_edition: CpiInstruction,
}

/// A faithful plan: both record addresses are the deterministic derivations
/// for the plan's mint, and the two requests are exactly the ones this
/// handler issues for these accounts and strings.
pub open spec fn plan_wf(p: MintPlan, name: Seq<char>, symbol: Seq<char>, uri: Seq<char>) -> bool {
    &&& Some(p.metadata_address@) == derived_address(
        metadata_seeds(p.mint@),
        metadata_program_id(),
    )
    &&& Some(p.master_edition_address@) == derived_address(
        master_edition_seeds(p.mint@),
        metadata_program_id(),
    )
    &&& is_create_metadata_instruction(
        p.create_metadata,
        p.metadata_address,
        p.mint,
        p.payer,
        name,
        symbol,
        uri,
    )
    &&& is_create_master_edition_instruction(
        p.create_master_edition,
        p.master_edition_address,
        p.mint,
        p.payer,
        p.metadata_address,
    )
}

/// The decision part of the mint instruction: derive the metadata and
/// master-edition addresses for the mint and assemble the two requests,
/// both authorized by the payer alone. The display name is carried by the
/// instruction only for human-readable messaging and decides nothing.
pub fn mint(
    payer: &Address,
    mint_account: &Address,
    metadata_title: &String,
    metadata_symbol: &String,
    metadata_uri: &String,
    _display_name: &String,
) -> (r: Result<MintPlan, MintError>)
    ensures
        match r {
            Ok(p) => p.payer == *payer && p.mint == *mint_account && strings_fit_wire_format(
                metadata_title@,
                metadata_symbol@,
                metadata_uri@,
            ) && plan_wf(p, metadata_title@, metadata_symbol@, metadata_uri@),
            Err(e) => match e {
                MintError::DerivationFailed => derived_address(
                    metadata_seeds(mint_account@),
                    metadata_program_id(),
                ) is None || derived_address(
                    master_edition_seeds(mint_account@),
                    metadata_program_id(),
                ) is None,
                MintError::StringTooLong => derived_address(
                    metadata_seeds(mint_account@),
                    metadata_program_id(),
                ) is Some && derived_address(
                    master_edition_seeds(mint_account@),
                    metadata_program_id(),
                ) is Some && !strings_fit_wire_format(
                    metadata_title@,
                    metadata_symbol@,
                    metadata_uri@,
                ),
            },
        },
{
    let metadata_address = match find_metadata_address(mint_account) {
        Some(a) => a,
        None => {
            return Err(MintError::DerivationFailed);
        },
    };
    let master_edition_address = match find_master_edition_address(mint_account) {
        Some(a) => a,
        None => {
            return Err(MintError::DerivationFailed);
        },
    };
    let create_metadata = match create_metadata_instruction(
        &metadata_address,
        mint_account,
        payer,
        metadata_title,
        metadata_symbol,
        metadata_uri,
    ) {
        Some(ix) => ix,
        None => {
            return Err(MintError::StringTooLong);
        },
    };
    let create_master_edition = create_master_edition_instruction(
        &master_edition_address,
        mint_account,
        payer,
        &metadata_address,
    );
    Ok(
        MintPlan {
            payer: *payer,
            mint: *mint_account,
            metadata_address,
            master_edition_address,
            create_metadata,
            create_master_edition,
        },
    )
}

/// The stages of one invocation. Any rejection at an awaiting stage ends in
/// `Aborted`: the host discards every effect of the instruction, so there
/// is nothing to unwind locally.
#[derive(Clone, Copy, Debug, PartialEq, Eq)]
pub enum MintStage {
    NotStarted,
    /// The create-metadata request is out, its outcome not yet known.
    MetadataPending,
    /// The metadata record is committed; the edition request not yet out.
    MetadataCreated,
    /// The create-master-edition request is out, its outcome not yet known.
    EditionPending,
    /// Both records are committed.
    Done,
    /// A request was rejected; the whole instruction fails atomically.
    Aborted,
}

/// What the host reported for one issued request.
#[derive(Clone, Copy, Debug, PartialEq, Eq)]
pub enum CpiOutcome {
    Succeeded,
    /// Rejected, with the external program's error code surfaced verbatim.
    Rejected(u64),
}

/// The stages at which a request is out and an outcome is awaited.
pub open spec fn awaits_outcome(stage: MintStage) -> bool {
    stage == MintStage::MetadataPending || stage == MintStage::EditionPending
}

/// Where one outcome takes each awaiting stage: strictly forward on
/// success, `Aborted` on any rejection.
pub open spec fn next_stage(stage: MintStage, outcome: CpiOutcome) -> MintStage {
    match (stage, outcome) {
        (MintStage::MetadataPending, CpiOutcome::Succeeded) => MintStage::MetadataCreated,
        (MintStage::EditionPending, CpiOutcome::Succeeded) => MintStage::Done,
        _ => MintStage::Aborted,
    }
}

/// The driver of one invocation: it holds the plan and walks the stages in
/// the mandatory order. The caller sends each pending request to the host
/// and reports the outcome; the machine decides what, if anything, goes out
/// next.
pub struct MintMachine {
    pub plan: MintPlan,
    pub stage: MintStage,
}

impl MintMachine {
    pub fn new(plan: MintPlan) -> (r: MintMachine)
        ensures
            r.plan == plan,
            r.stage == MintStage::NotStarted,
    {
        MintMachine { plan, stage: MintStage::NotStarted }
    }

    /// Issue the first request: the metadata record must be created before
    /// the master edition can reference it.
    pub fn start(&mut self)
        requires
            old(self).stage == MintStage::NotStarted,
        ensures
            final(self).stage == MintStage::MetadataPending,
            final(self).plan == old(self).plan,
    {
        self.stage = MintStage::MetadataPending;
    }

    /// The request that is out at the current stage, if any.
    pub fn pending_request(&self) -> (r: Option<&CpiInstruction>)
        ensures
            match self.stage {
                MintStage::MetadataPending => r == Some(&self.plan.create_metadata),
                MintStage::EditionPending => r == Some(&self.plan.create_master_edition),
                _ => r == None::<&CpiInstruction>,
            },
    {
        match self.stage {
            MintStage::MetadataPending => Some(&self.plan.create_metadata),
            MintStage::EditionPending => Some(&self.plan.create_master_edition),
            _ => None,
        }
    }

    /// Record what the host reported for the request that is out.
    pub fn record_outcome(&mut self, outcome: CpiOutcome)
        requires
            awaits_outcome(old(self).stage),
        ensures
            final(self).stage == next_stage(old(self).stage, outcome),
            final(self).plan == old(self).plan,
    {
        let stage = self.stage;
        self.stage = match (stage, outcome) {
            (MintStage::MetadataPending, CpiOutcome::Succeeded) => MintStage::MetadataCreated,
            (MintStage::EditionPending, CpiOutcome::Succeeded) => MintStage::Done,
            _ => MintStage::Aborted,
        };
    }

    /// Issue the second request. It is reachable only once the metadata
    /// record is committed, which the master edition references by address.
    pub fn send_edition_request(&mut self)
        requires
            old(self).stage == MintStage::MetadataCreated,
        ensures
            final(self).stage == MintStage::EditionPending,
            final(self).plan == old(self).plan,
    {
        self.stage = MintStage::EditionPending;
    }
}

/// Ordering dependency, on the machine's side: the only way to reach the
/// stage from which the edition request can go out is a successful
/// metadata request.
pub proof fn lemma_edition_needs_metadata_success(stage: MintStage, outcome: CpiOutcome)
    requires
        next_stage(stage, outcome) == MintStage::MetadataCreated,
    ensures
        stage == MintStage::MetadataPending,
        outcome == CpiOutcome::Succeeded,
{
}

} // verus!
