use crate::base58::base58_encoded;
use crate::create::{
    create_tree_config, create_tree_plan, lemma_create_tree_is_signed_by_payer_and_tree,
};
use crate::error::{Error, IndexerQuery, LedgerCall};
use crate::indexer::{
    get_asset, get_proof, resolved_asset, resolved_proof, AssetState, AssetStateView,
    IndexerReply, ProofPathView,
};
use crate::instruction::{instruction_views, Instruction, InstructionView};
use crate::keypair::{public_half, KeypairWrapper};
use crate::mint::{
    lemma_mint_is_signed_by_payer_alone, metadata_within_limits, mint_plan, mint_v1,
    minted_metadata, wire_creator_entries, wire_metadata, CreatorView,
};
use crate::pubkey::PubkeyWrapper;
use crate::transaction::{
    assemble, assembled, confirm, first_key, fully_signed, keypair_views, message_fits,
    must_sign, referenced_keys, serialize_unsigned, submission_bytes, wire_transaction,
    LedgerReply,
};
use crate::transfer::{
    build_transfer, lemma_transfer_is_signed_by_owner_alone, transfer_of, MAX_PROOF_LENGTH,
};
use crate::tree_size::{compute_tree_size, supported_depth_buffer, tree_account_size};
use vstd::bytes::{
    lemma_auto_spec_u16_to_from_le_bytes, lemma_auto_spec_u32_to_from_le_bytes,
    lemma_auto_spec_u64_to_from_le_bytes,
};
use vstd::prelude::*;

verus! {

/// What becomes of the transaction once it is assembled.
#[derive(Clone, Copy, Debug, PartialEq, Eq)]
pub enum Delivery {
    /// It is sent to the ledger, fully signed, and its confirmation awaited.
    Submit,
    /// It is handed back in its wire format, to be signed and sent elsewhere.
    Return,
}

/// Who pays and signs, and what becomes of the transaction.
pub struct Signing {
    pub fee_payer: PubkeyWrapper,
    pub signers: Vec<KeypairWrapper>,
    pub delivery: Delivery,
}

/// How a call ended well.
#[derive(Clone, Debug, PartialEq, Eq)]
pub enum Outcome {
    /// The ledger executed the transaction. `address` is the base-58 text of
    /// the tree or asset that the call was about.
    Confirmed { receipt: String, address: String },
    /// The transaction was assembled and not sent.
    Prepared { transaction: Vec<u8>, address: String },
}

/// What is to be done next for a call.
#[derive(Debug, PartialEq, Eq)]
pub enum Action {
    /// Ask the ledger for the balance that keeps an account of `size` bytes.
    QueryRent { size: u64 },
    /// Ask the ledger for a recent checkpoint.
    QueryCheckpoint,
    /// Ask the indexer for the state of the asset.
    QueryAsset { asset_id: PubkeyWrapper },
    /// Ask the indexer for the proof path of the asset.
    QueryProof { asset_id: PubkeyWrapper },
    /// Send the transaction to the ledger and wait for its confirmation.
    Submit { transaction: Vec<u8> },
    /// Nothing: the call has ended.
    Finish { outcome: Result<Outcome, Error> },
}

/// What came back for the step that was pending. `None` stands for a ledger
/// that could not be reached.
#[derive(Debug, PartialEq, Eq)]
pub enum Event {
    /// The balance that keeps the account on the ledger.
    Rent(Option<u64>),
    /// A recent checkpoint.
    Checkpoint(Option<[u8; 32]>),
    /// The indexer's answer to the query for the state of the asset.
    Asset(IndexerReply),
    /// The indexer's answer to the query for the proof path of the asset.
    Proof(IndexerReply),
    /// The ledger's reply to the transaction that was sent.
    Ledger(LedgerReply),
}

/// Where a call stands between two steps.
pub enum Flow {
    /// A tree is being created, and the rent for its account was asked for.
    AwaitingRent {
        merkle_tree: PubkeyWrapper,
        max_depth: u32,
        max_buffer_size: u32,
        signing: Signing,
    },
    /// An asset is being transferred, and its state was asked for.
    AwaitingAsset {
        asset_id: PubkeyWrapper,
        owner: PubkeyWrapper,
        receiver: PubkeyWrapper,
        signing: Signing,
    },
    /// An asset is being transferred, and its proof path was asked for.
    AwaitingProof {
        asset_id: PubkeyWrapper,
        owner: PubkeyWrapper,
        receiver: PubkeyWrapper,
        asset: AssetState,
        signing: Signing,
    },
    /// The instructions are built, and a recent checkpoint was asked for.
    AwaitingCheckpoint { instructions: Vec<Instruction>, address: String, signing: Signing },
    /// The transaction was sent.
    AwaitingConfirmation { address: String },
    /// The call has ended.
    Finished,
}

/// The call ends with an error.
pub open spec fn fails_with(next: Flow, action: Action, error: Error) -> bool {
    next is Finished && action == (Action::Finish { outcome: Err(error) })
}

/// The call goes on to ask for a checkpoint, with these instructions built.
pub open spec fn awaits_checkpoint(
    next: Flow,
    action: Action,
    plan: Seq<InstructionView>,
    address: Seq<char>,
    signing: Signing,
) -> bool {
    &&& action is QueryCheckpoint
    &&& next is AwaitingCheckpoint
    &&& instruction_views(next->AwaitingCheckpoint_instructions@) == plan
    &&& next->AwaitingCheckpoint_address@ == address
    &&& next->AwaitingCheckpoint_signing == signing
}

/// The first step of creating a tree: the size of the account is computed
/// before anything is asked of the ledger, and an unsupported pair of depth
/// and buffer size ends the call at once.
pub open spec fn create_tree_begun(
    merkle_tree: PubkeyWrapper,
    max_depth: u32,
    max_buffer_size: u32,
    signing: Signing,
    next: Flow,
    action: Action,
) -> bool {
    if supported_depth_buffer(max_depth, max_buffer_size) {
        &&& action == (Action::QueryRent {
            size: tree_account_size(max_depth as nat, max_buffer_size as nat) as u64,
        })
        &&& next == (Flow::AwaitingRent { merkle_tree, max_depth, max_buffer_size, signing })
    } else {
        fails_with(next, action, Error::UnsupportedDepthBuffer)
    }
}

/// The first step of minting: the instruction is built before anything is
/// asked of the ledger, and metadata beyond the limits ends the call at once.
pub open spec fn mint_begun(
    tree: Seq<u8>,
    owner: Seq<u8>,
    name: Seq<char>,
    symbol: Seq<char>,
    uri: Seq<char>,
    seller_fee_basis_points: u16,
    is_mutable: bool,
    nonce: u64,
    signing: Signing,
    next: Flow,
    action: Action,
) -> bool {
    match mint_plan(
        tree,
        owner,
        signing.fee_payer@,
        name,
        symbol,
        uri,
        seller_fee_basis_points,
        is_mutable,
        nonce,
    ) {
        Ok(plan) => awaits_checkpoint(next, action, seq![plan.0], base58_encoded(plan.1), signing),
        Err(error) => fails_with(next, action, error),
    }
}

/// The first step of a transfer: the state of the asset is asked for.
pub open spec fn transfer_begun(
    asset_id: PubkeyWrapper,
    owner: PubkeyWrapper,
    receiver: PubkeyWrapper,
    signing: Signing,
    next: Flow,
    action: Action,
) -> bool {
    &&& action == (Action::QueryAsset { asset_id })
    &&& next == (Flow::AwaitingAsset { asset_id, owner, receiver, signing })
}

/// The step that follows the answer to the pending question.
///
/// A ledger that cannot be reached ends the call with `LedgerUnavailable`, a
/// query that does not resolve with `AssetResolutionFailed`, an answer to
/// another question with `UnexpectedEvent`. A transaction is sent only when
/// it is assembled for submission and every signature slot is filled.
pub open spec fn advanced(flow: Flow, event: Event, next: Flow, action: Action) -> bool {
    match (flow, event) {
        (
            Flow::AwaitingRent { merkle_tree, max_depth, max_buffer_size, signing },
            Event::Rent(Some(rent)),
        ) => match create_tree_plan(
            signing.fee_payer@,
            merkle_tree@,
            max_depth,
            max_buffer_size,
            rent,
        ) {
            Ok(plan) => awaits_checkpoint(
                next,
                action,
                plan,
                base58_encoded(merkle_tree@),
                signing,
            ),
            Err(error) => fails_with(next, action, error),
        },
        (Flow::AwaitingRent { .. }, Event::Rent(None)) => fails_with(
            next,
            action,
            Error::LedgerUnavailable { call: LedgerCall::RentQuery },
        ),
        (Flow::AwaitingAsset { asset_id, owner, receiver, signing }, Event::Asset(reply)) => {
            match resolved_asset(reply) {
                Ok(state) => {
                    &&& action == (Action::QueryProof { asset_id })
                    &&& next is AwaitingProof
                    &&& next->AwaitingProof_asset_id == asset_id
                    &&& next->AwaitingProof_owner == owner
                    &&& next->AwaitingProof_receiver == receiver
                    &&& next->AwaitingProof_asset@ == state
                    &&& next->AwaitingProof_signing == signing
                },
                Err(cause) => fails_with(
                    next,
                    action,
                    Error::AssetResolutionFailed { query: IndexerQuery::AssetState, cause },
                ),
            }
        },
        (
            Flow::AwaitingProof { asset_id, owner, receiver, asset, signing },
            Event::Proof(reply),
        ) => match resolved_proof(reply) {
            Ok(path) => match transfer_of(asset@, path, owner@, receiver@) {
                Ok(plan) => awaits_checkpoint(
                    next,
                    action,
                    seq![plan],
                    base58_encoded(asset_id@),
                    signing,
                ),
                Err(error) => fails_with(next, action, error),
            },
            Err(cause) => fails_with(
                next,
                action,
                Error::AssetResolutionFailed { query: IndexerQuery::AssetProof, cause },
            ),
        },
        (
            Flow::AwaitingCheckpoint { instructions, address, signing },
            Event::Checkpoint(Some(recent_blockhash)),
        ) => match assembled(
            instruction_views(instructions@),
            signing.fee_payer@,
            keypair_views(signing.signers@),
            recent_blockhash@,
            signing.delivery is Submit,
        ) {
            Ok(transaction) => match signing.delivery {
                Delivery::Return => {
                    &&& next is Finished
                    &&& action is Finish
                    &&& action->outcome is Ok
                    &&& action->outcome->Ok_0 is Prepared
                    &&& action->outcome->Ok_0->Prepared_transaction@ == wire_transaction(
                        transaction,
                    )
                    &&& action->outcome->Ok_0->Prepared_address == address
                },
                Delivery::Submit => if fully_signed(transaction) {
                    &&& next == (Flow::AwaitingConfirmation { address })
                    &&& action is Submit
                    &&& action->transaction@ == wire_transaction(transaction)
                } else {
                    fails_with(next, action, Error::MissingSigner)
                },
            },
            Err(error) => fails_with(next, action, error),
        },
        (Flow::AwaitingCheckpoint { .. }, Event::Checkpoint(None)) => fails_with(
            next,
            action,
            Error::LedgerUnavailable { call: LedgerCall::CheckpointQuery },
        ),
        (Flow::AwaitingConfirmation { address }, Event::Ledger(reply)) => match reply {
            LedgerReply::Confirmed(receipt) => {
                &&& next is Finished
                &&& action == (Action::Finish {
                    outcome: Ok(Outcome::Confirmed { receipt, address }),
                })
            },
            LedgerReply::Rejected(cause) => fails_with(
                next,
                action,
                Error::SubmissionFailed { cause },
            ),
            LedgerReply::Unavailable => fails_with(
                next,
                action,
                Error::LedgerUnavailable { call: LedgerCall::Submission },
            ),
        },
        _ => fails_with(next, action, Error::UnexpectedEvent),
    }
}

fn fail(error: Error) -> (step: (Flow, Action))
    ensures
        fails_with(step.0, step.1, error),
{
    (Flow::Finished, Action::Finish { outcome: Err(error) })
}

/// Begins the creation of a tree at the address `merkle_tree`, paid by the
/// fee payer.
pub fn begin_create_tree(
    merkle_tree: PubkeyWrapper,
    max_depth: u32,
    max_buffer_size: u32,
    signing: Signing,
) -> (step: (Flow, Action))
    ensures
        create_tree_begun(merkle_tree, max_depth, max_buffer_size, signing, step.0, step.1),
{
    match compute_tree_size(max_depth, max_buffer_size) {
        Ok(size) => (
            Flow::AwaitingRent { merkle_tree, max_depth, max_buffer_size, signing },
            Action::QueryRent { size },
        ),
        Err(error) => fail(error),
    }
}

/// Begins the minting of a token into `tree` for `owner`, paid by the fee
/// payer, who also acts for the tree.
pub fn begin_mint(
    tree: &PubkeyWrapper,
    owner: &PubkeyWrapper,
    name: String,
    symbol: String,
    uri: String,
    seller_fee_basis_points: u16,
    is_mutable: bool,
    nonce: u64,
    signing: Signing,
) -> (step: (Flow, Action))
    ensures
        mint_begun(
            tree@,
            owner@,
            name@,
            symbol@,
            uri@,
            seller_fee_basis_points,
            is_mutable,
            nonce,
            signing,
            step.0,
            step.1,
        ),
{
    let minted = mint_v1(
        tree,
        owner,
        &signing.fee_payer,
        name,
        symbol,
        uri,
        seller_fee_basis_points,
        is_mutable,
        nonce,
    );
    match minted {
        Ok((instruction, asset)) => {
            let ghost plan = instruction@;
            let mut instructions: Vec<Instruction> = Vec::new();
            instructions.push(instruction);
            assert(instruction_views(instructions@) =~= seq![plan]);
            (
                Flow::AwaitingCheckpoint { instructions, address: asset.to_base58(), signing },
                Action::QueryCheckpoint,
            )
        },
        Err(error) => fail(error),
    }
}

/// Begins the transfer of an asset from `owner` to `receiver`.
pub fn begin_transfer(
    asset_id: PubkeyWrapper,
    owner: PubkeyWrapper,
    receiver: PubkeyWrapper,
    signing: Signing,
) -> (step: (Flow, Action))
    ensures
        transfer_begun(asset_id, owner, receiver, signing, step.0, step.1),
{
    (Flow::AwaitingAsset { asset_id, owner, receiver, signing }, Action::QueryAsset { asset_id })
}

/// Takes the answer to the pending question and says what is to be done next.
pub fn advance(flow: Flow, event: Event) -> (step: (Flow, Action))
    ensures
        advanced(flow, event, step.0, step.1),
{
    match (flow, event) {
        (
            Flow::AwaitingRent { merkle_tree, max_depth, max_buffer_size, signing },
            Event::Rent(Some(rent)),
        ) => {
            match create_tree_config(
                &signing.fee_payer,
                &merkle_tree,
                max_depth,
                max_buffer_size,
                rent,
            ) {
                Ok(instructions) => (
                    Flow::AwaitingCheckpoint {
                        instructions,
                        address: merkle_tree.to_base58(),
                        signing,
                    },
                    Action::QueryCheckpoint,
                ),
                Err(error) => fail(error),
            }
        },
        (Flow::AwaitingRent { .. }, Event::Rent(None)) => fail(
            Error::LedgerUnavailable { call: LedgerCall::RentQuery },
        ),
        (Flow::AwaitingAsset { asset_id, owner, receiver, signing }, Event::Asset(reply)) => {
            match get_asset(&reply) {
                Ok(asset) => (
                    Flow::AwaitingProof { asset_id, owner, receiver, asset, signing },
                    Action::QueryProof { asset_id },
                ),
                Err(cause) => fail(
                    Error::AssetResolutionFailed { query: IndexerQuery::AssetState, cause },
                ),
            }
        },
        (
            Flow::AwaitingProof { asset_id, owner, receiver, asset, signing },
            Event::Proof(reply),
        ) => {
            match get_proof(&reply) {
                Ok(path) => match build_transfer(&asset, &path, &owner, &receiver) {
                    Ok(instruction) => {
                        let ghost plan = instruction@;
                        let mut instructions: Vec<Instruction> = Vec::new();
                        instructions.push(instruction);
                        assert(instruction_views(instructions@) =~= seq![plan]);
                        (
                            Flow::AwaitingCheckpoint {
                                instructions,
                                address: asset_id.to_base58(),
                                signing,
                            },
                            Action::QueryCheckpoint,
                        )
                    },
                    Err(error) => fail(error),
                },
                Err(cause) => fail(
                    Error::AssetResolutionFailed { query: IndexerQuery::AssetProof, cause },
                ),
            }
        },
        (
            Flow::AwaitingCheckpoint { instructions, address, signing },
            Event::Checkpoint(Some(recent_blockhash)),
        ) => {
            let submit = match signing.delivery {
                Delivery::Submit => true,
                Delivery::Return => false,
            };
            match assemble(
                instructions,
                &signing.fee_payer,
                &signing.signers,
                recent_blockhash,
                submit,
            ) {
                Ok(transaction) => {
                    if submit {
                        match submission_bytes(&transaction) {
                            Ok(bytes) => (
                                Flow::AwaitingConfirmation { address },
                                Action::Submit { transaction: bytes },
                            ),
                            Err(error) => fail(error),
                        }
                    } else {
                        (
                            Flow::Finished,
                            Action::Finish {
                                outcome: Ok(
                                    Outcome::Prepared {
                                        transaction: serialize_unsigned(&transaction),
                                        address,
                                    },
                                ),
                            },
                        )
                    }
                },
                Err(error) => fail(error),
            }
        },
        (Flow::AwaitingCheckpoint { .. }, Event::Checkpoint(None)) => fail(
            Error::LedgerUnavailable { call: LedgerCall::CheckpointQuery },
        ),
        (Flow::AwaitingConfirmation { address }, Event::Ledger(reply)) => {
            match confirm(reply) {
                Ok(receipt) => (
                    Flow::Finished,
                    Action::Finish {
                        outcome: Ok(Outcome::Confirmed { receipt: receipt.id, address }),
                    },
                ),
                Err(error) => fail(error),
            }
        },
        _ => fail(Error::UnexpectedEvent),
    }
}

/// Validation comes before the network: for a pair of depth and buffer size
/// that is not supported, the call ends with its first step and asks nothing
/// of the ledger.
pub proof fn lemma_unsupported_tree_asks_nothing(
    merkle_tree: PubkeyWrapper,
    max_depth: u32,
    max_buffer_size: u32,
    signing: Signing,
    next: Flow,
    action: Action,
)
    requires
        create_tree_begun(merkle_tree, max_depth, max_buffer_size, signing, next, action),
        !supported_depth_buffer(max_depth, max_buffer_size),
    ensures
        next is Finished,
        action == (Action::Finish { outcome: Err(Error::UnsupportedDepthBuffer) }),
{
}

/// Validation comes before the network: for metadata beyond the limits, the
/// call ends with its first step and asks nothing of the ledger.
pub proof fn lemma_invalid_metadata_asks_nothing(
    tree: Seq<u8>,
    owner: Seq<u8>,
    name: Seq<char>,
    symbol: Seq<char>,
    uri: Seq<char>,
    seller_fee_basis_points: u16,
    is_mutable: bool,
    nonce: u64,
    signing: Signing,
    next: Flow,
    action: Action,
)
    requires
        mint_begun(
            tree,
            owner,
            name,
            symbol,
            uri,
            seller_fee_basis_points,
            is_mutable,
            nonce,
            signing,
            next,
            action,
        ),
        !metadata_within_limits(name, symbol, uri),
    ensures
        next is Finished,
        action == (Action::Finish { outcome: Err(Error::InvalidMetadata) }),
{
}

/// A query that does not resolve ends the call with `AssetResolutionFailed`
/// and its cause: nothing is built and nothing is sent.
pub proof fn lemma_unresolved_asset_ends_the_call(
    flow: Flow,
    reply: IndexerReply,
    next: Flow,
    action: Action,
)
    requires
        advanced(flow, Event::Asset(reply), next, action),
        flow is AwaitingAsset,
        resolved_asset(reply) is Err,
    ensures
        next is Finished,
        action == (Action::Finish {
            outcome: Err(Error::AssetResolutionFailed {
                query: IndexerQuery::AssetState,
                cause: resolved_asset(reply)->Err_0,
            }),
        }),
{
}

/// A proof query that does not resolve ends the call in the same way.
pub proof fn lemma_unresolved_proof_ends_the_call(
    flow: Flow,
    reply: IndexerReply,
    next: Flow,
    action: Action,
)
    requires
        advanced(flow, Event::Proof(reply), next, action),
        flow is AwaitingProof,
        resolved_proof(reply) is Err,
    ensures
        next is Finished,
        action == (Action::Finish {
            outcome: Err(Error::AssetResolutionFailed {
                query: IndexerQuery::AssetProof,
                cause: resolved_proof(reply)->Err_0,
            }),
        }),
{
}

/// Nothing is sent before the transaction is assembled and fully signed: a
/// step that sends follows a checkpoint, in a call that delivers by
/// submission, and what it sends is the wire format of a transaction without
/// an empty signature slot.
pub proof fn lemma_only_signed_transactions_are_sent(
    flow: Flow,
    event: Event,
    next: Flow,
    action: Action,
)
    requires
        advanced(flow, event, next, action),
        action is Submit,
    ensures
        flow is AwaitingCheckpoint,
        event is Checkpoint,
        event->Checkpoint_0 is Some,
        flow->AwaitingCheckpoint_signing.delivery is Submit,
        next is AwaitingConfirmation,
        ({
            let transaction = assembled(
                instruction_views(flow->AwaitingCheckpoint_instructions@),
                flow->AwaitingCheckpoint_signing.fee_payer@,
                keypair_views(flow->AwaitingCheckpoint_signing.signers@),
                event->Checkpoint_0->0@,
                true,
            );
            &&& transaction is Ok
            &&& fully_signed(transaction->Ok_0)
            &&& action->transaction@ == wire_transaction(transaction->Ok_0)
        }),
{
}

/// Failures of the ledger are passed on, never retried: an unreachable
/// ledger ends the call with `LedgerUnavailable` and the call that got no
/// answer.
pub proof fn lemma_unreachable_ledger_ends_the_call(
    flow: Flow,
    event: Event,
    next: Flow,
    action: Action,
)
    requires
        advanced(flow, event, next, action),
        (flow is AwaitingRent && event == Event::Rent(None)) || (flow is AwaitingCheckpoint
            && event == Event::Checkpoint(None)) || (flow is AwaitingConfirmation && event
            == Event::Ledger(LedgerReply::Unavailable)),
    ensures
        next is Finished,
        action is Finish,
        action->outcome is Err,
        action->outcome->Err_0 is LedgerUnavailable,
        flow is AwaitingRent ==> action->outcome->Err_0->call == LedgerCall::RentQuery,
        flow is AwaitingCheckpoint ==> action->outcome->Err_0->call
            == LedgerCall::CheckpointQuery,
        flow is AwaitingConfirmation ==> action->outcome->Err_0->call == LedgerCall::Submission,
{
}

/// A rejection by the ledger is passed on word for word.
pub proof fn lemma_rejection_is_passed_on(
    flow: Flow,
    cause: String,
    next: Flow,
    action: Action,
)
    requires
        advanced(flow, Event::Ledger(LedgerReply::Rejected(cause)), next, action),
        flow is AwaitingConfirmation,
    ensures
        next is Finished,
        action == (Action::Finish { outcome: Err(Error::SubmissionFailed { cause }) }),
{
}

/// Every step either ends the call or asks one question: after the end
/// nothing is asked again.
pub proof fn lemma_finished_stays_finished(event: Event, next: Flow, action: Action)
    requires
        advanced(Flow::Finished, event, next, action),
    ensures
        next is Finished,
        action == (Action::Finish { outcome: Err(Error::UnexpectedEvent) }),
{
}

/// The keys of the payer and of the tree are what the creation of a tree
/// needs: with a key pair for each, and none for anybody else, the two
/// instructions are assembled for submission.
pub proof fn lemma_payer_and_tree_sign_the_creation(
    payer: Seq<u8>,
    merkle_tree: Seq<u8>,
    max_depth: u32,
    max_buffer_size: u32,
    rent: u64,
    keypairs: Seq<Seq<u8>>,
    recent_blockhash: Seq<u8>,
)
    requires
        create_tree_plan(payer, merkle_tree, max_depth, max_buffer_size, rent) is Ok,
        first_key(keypairs, payer) is Some,
        first_key(keypairs, merkle_tree) is Some,
        forall|i: int|
            0 <= i < keypairs.len() ==> public_half(#[trigger] keypairs[i]) == payer
                || public_half(keypairs[i]) == merkle_tree,
    ensures
        assembled(
            create_tree_plan(payer, merkle_tree, max_depth, max_buffer_size, rent)->Ok_0,
            payer,
            keypairs,
            recent_blockhash,
            true,
        ) is Ok,
{
    let plan = create_tree_plan(payer, merkle_tree, max_depth, max_buffer_size, rent)->Ok_0;
    assert(message_fits(payer, plan)) by {
        lemma_auto_spec_u64_to_from_le_bytes();
        lemma_auto_spec_u32_to_from_le_bytes();
        reveal_with_fuel(referenced_keys, 3);
        let keys = referenced_keys(payer, plan);
        assert(plan.drop_last().drop_last() =~= Seq::<InstructionView>::empty());
        assert(keys.len() == 12);
        keys.lemma_cardinality_of_set();
    }
    assert forall|address: Seq<u8>| #[trigger]
        must_sign(payer, plan, address) implies first_key(keypairs, address) is Some by {
        lemma_create_tree_is_signed_by_payer_and_tree(
            payer,
            merkle_tree,
            max_depth,
            max_buffer_size,
            rent,
            address,
        );
    }
    assert forall|i: int| 0 <= i < keypairs.len() implies must_sign(
        payer,
        plan,
        public_half(#[trigger] keypairs[i]),
    ) by {
        lemma_create_tree_is_signed_by_payer_and_tree(
            payer,
            merkle_tree,
            max_depth,
            max_buffer_size,
            rent,
            public_half(keypairs[i]),
        );
    }
}

/// The key of the payer is what a mint needs: with a key pair for the payer,
/// and none for anybody else, the instruction is assembled for submission.
pub proof fn lemma_payer_signs_the_mint(
    tree: Seq<u8>,
    owner: Seq<u8>,
    payer: Seq<u8>,
    name: Seq<char>,
    symbol: Seq<char>,
    uri: Seq<char>,
    seller_fee_basis_points: u16,
    is_mutable: bool,
    nonce: u64,
    keypairs: Seq<Seq<u8>>,
    recent_blockhash: Seq<u8>,
)
    requires
        owner.len() == 32,
        mint_plan(tree, owner, payer, name, symbol, uri, seller_fee_basis_points, is_mutable, nonce)
            is Ok,
        first_key(keypairs, payer) is Some,
        forall|i: int| 0 <= i < keypairs.len() ==> public_half(#[trigger] keypairs[i]) == payer,
    ensures
        assembled(
            seq![
                mint_plan(
                    tree,
                    owner,
                    payer,
                    name,
                    symbol,
                    uri,
                    seller_fee_basis_points,
                    is_mutable,
                    nonce,
                )->Ok_0.0,
            ],
            payer,
            keypairs,
            recent_blockhash,
            true,
        ) is Ok,
{
    let instruction = mint_plan(
        tree,
        owner,
        payer,
        name,
        symbol,
        uri,
        seller_fee_basis_points,
        is_mutable,
        nonce,
    )->Ok_0.0;
    let plan = seq![instruction];
    assert(message_fits(payer, plan)) by {
        lemma_auto_spec_u16_to_from_le_bytes();
        lemma_auto_spec_u32_to_from_le_bytes();
        reveal_with_fuel(referenced_keys, 2);
        reveal_with_fuel(wire_creator_entries, 2);
        let keys = referenced_keys(payer, plan);
        assert(plan.drop_last() =~= Seq::<InstructionView>::empty());
        assert(keys.len() == 11);
        keys.lemma_cardinality_of_set();
        let metadata = minted_metadata(
            name,
            symbol,
            uri,
            seller_fee_basis_points,
            is_mutable,
            owner,
        );
        assert(metadata.creators.drop_last() =~= Seq::<CreatorView>::empty());
        assert(wire_creator_entries(metadata.creators).len() == 34);
        assert(wire_metadata(metadata).len() <= 400);
    }
    assert forall|address: Seq<u8>| #[trigger]
        must_sign(payer, plan, address) implies first_key(keypairs, address) is Some by {
        lemma_mint_is_signed_by_payer_alone(
            tree,
            owner,
            payer,
            name,
            symbol,
            uri,
            seller_fee_basis_points,
            is_mutable,
            nonce,
            address,
        );
    }
}

/// The keys of the owner and of the payer are what a transfer needs: with a
/// key pair for each, and none for anybody else, the instruction of a proof
/// no longer than the deepest tree is assembled for submission.
pub proof fn lemma_owner_and_payer_sign_the_transfer(
    asset: AssetStateView,
    path: ProofPathView,
    owner: Seq<u8>,
    receiver: Seq<u8>,
    payer: Seq<u8>,
    keypairs: Seq<Seq<u8>>,
    recent_blockhash: Seq<u8>,
)
    requires
        transfer_of(asset, path, owner, receiver) is Ok,
        path.proof.len() <= MAX_PROOF_LENGTH,
        first_key(keypairs, payer) is Some,
        first_key(keypairs, owner) is Some,
        forall|i: int|
            0 <= i < keypairs.len() ==> public_half(#[trigger] keypairs[i]) == payer
                || public_half(keypairs[i]) == owner,
    ensures
        assembled(
            seq![transfer_of(asset, path, owner, receiver)->Ok_0],
            payer,
            keypairs,
            recent_blockhash,
            true,
        ) is Ok,
{
    let plan = seq![transfer_of(asset, path, owner, receiver)->Ok_0];
    assert(message_fits(payer, plan)) by {
        lemma_auto_spec_u64_to_from_le_bytes();
        lemma_auto_spec_u32_to_from_le_bytes();
        reveal_with_fuel(referenced_keys, 2);
        let keys = referenced_keys(payer, plan);
        assert(plan.drop_last() =~= Seq::<InstructionView>::empty());
        assert(keys.len() == 10 + path.proof.len());
        keys.lemma_cardinality_of_set();
    }
    assert forall|address: Seq<u8>| #[trigger]
        must_sign(payer, plan, address) implies first_key(keypairs, address) is Some by {
        lemma_transfer_is_signed_by_owner_alone(asset, path, owner, receiver, address);
    }
    assert forall|i: int| 0 <= i < keypairs.len() implies must_sign(
        payer,
        plan,
        public_half(#[trigger] keypairs[i]),
    ) by {
        lemma_transfer_is_signed_by_owner_alone(
            asset,
            path,
            owner,
            receiver,
            public_half(keypairs[i]),
        );
    }
}

} // verus!
