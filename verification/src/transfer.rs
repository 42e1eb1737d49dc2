use crate::base58::{decode_32, decoded_32};
use crate::error::{Error, IndexerQuery, ResolutionFault};
use crate::indexer::{
    get_asset, get_proof, resolved_asset, resolved_proof, AssetState, AssetStateView,
    IndexerReply, ProofPath, ProofPathView,
};
use crate::instruction::{
    account_views, asks_signature, readonly, writable, AccountRef, AccountView, Instruction,
    InstructionView,
};
use crate::pda::{derive_tree_config, tree_config_address};
use crate::pubkey::{
    PubkeyWrapper, BUBBLEGUM_PROGRAM_ID, COMPRESSION_PROGRAM_ID, LOG_WRAPPER_PROGRAM_ID,
    SYSTEM_PROGRAM_ID,
};
use mpl_bubblegum::instructions::TransferBuilder;
use vstd::bytes::{spec_u32_to_le_bytes, spec_u64_to_le_bytes};
use vstd::prelude::*;

verus! {

/// The first eight bytes of the payload that transfers a leaf.
pub const TRANSFER_DISCRIMINATOR: [u8; 8] = [163, 52, 200, 231, 140, 3, 69, 186];

/// The number of accounts that a transfer names before the proof accounts.
pub const TRANSFER_FIXED_ACCOUNTS: usize = 8;

/// The length of the longest proof path: the depth of the deepest tree.
pub const MAX_PROOF_LENGTH: usize = 30;

/// The token program's instruction that hands a leaf to a new owner. Only the
/// tree is changed. The accounts of the proof follow the eight fixed ones. The
/// payload is the discriminator, the root, the data hash and the creator
/// hash, the nonce as a little-endian 64-bit number and the leaf index as a
/// little-endian 32-bit number.
pub open spec fn transfer_instruction(
    tree_config: Seq<u8>,
    leaf_owner: Seq<u8>,
    owner_signs: bool,
    leaf_delegate: Seq<u8>,
    delegate_signs: bool,
    new_leaf_owner: Seq<u8>,
    merkle_tree: Seq<u8>,
    root: Seq<u8>,
    data_hash: Seq<u8>,
    creator_hash: Seq<u8>,
    nonce: u64,
    index: u32,
    proof: Seq<AccountView>,
) -> InstructionView {
    InstructionView {
        program_id: BUBBLEGUM_PROGRAM_ID@,
        accounts: seq![
            readonly(tree_config, false),
            readonly(leaf_owner, owner_signs),
            readonly(leaf_delegate, delegate_signs),
            readonly(new_leaf_owner, false),
            writable(merkle_tree, false),
            readonly(LOG_WRAPPER_PROGRAM_ID@, false),
            readonly(COMPRESSION_PROGRAM_ID@, false),
            readonly(SYSTEM_PROGRAM_ID@, false),
        ] + proof,
        data: TRANSFER_DISCRIMINATOR@ + root + data_hash + creator_hash + spec_u64_to_le_bytes(
            nonce,
        ) + spec_u32_to_le_bytes(index),
    }
}

/// `TransferBuilder` of mpl-bubblegum, with the five accounts and the five
/// arguments set, no further account added and everything else left at its
/// default.
/// Trusted: program, accounts and payload are those of `transfer_instruction`
/// without proof accounts.
#[verifier::external_body]
fn bubblegum_transfer(
    tree_config: &PubkeyWrapper,
    leaf_owner: &PubkeyWrapper,
    owner_signs: bool,
    leaf_delegate: &PubkeyWrapper,
    delegate_signs: bool,
    new_leaf_owner: &PubkeyWrapper,
    merkle_tree: &PubkeyWrapper,
    root: [u8; 32],
    data_hash: [u8; 32],
    creator_hash: [u8; 32],
    nonce: u64,
    index: u32,
) -> (instruction: Instruction)
    ensures
        instruction@ == transfer_instruction(
            tree_config@,
            leaf_owner@,
            owner_signs,
            leaf_delegate@,
            delegate_signs,
            new_leaf_owner@,
            merkle_tree@,
            root@,
            data_hash@,
            creator_hash@,
            nonce,
            index,
            Seq::<AccountView>::empty(),
        ),
{
    let ix = TransferBuilder::new()
        .tree_config(tree_config.0.into()).merkle_tree(merkle_tree.0.into())
        .leaf_owner(leaf_owner.0.into(), owner_signs).new_leaf_owner(new_leaf_owner.0.into())
        .leaf_delegate(leaf_delegate.0.into(), delegate_signs)
        .root(root).data_hash(data_hash).creator_hash(creator_hash).nonce(nonce).index(index)
        .instruction();
    Instruction {
        program_id: PubkeyWrapper(ix.program_id.to_bytes()),
        accounts: ix.accounts.iter().map(|m| AccountRef {
            address: PubkeyWrapper(m.pubkey.to_bytes()),
            is_signer: m.is_signer,
            is_writable: m.is_writable,
        }).collect(),
        data: ix.data,
    }
}

/// The accounts that stand for the sibling nodes of a proof: one for each
/// node, in the same order, read-only and not signing. There are none if some
/// node is not the base-58 text of 32 bytes.
pub open spec fn proof_accounts(nodes: Seq<Seq<char>>) -> Option<Seq<AccountView>> {
    if forall|i: int| 0 <= i < nodes.len() ==> decoded_32(#[trigger] nodes[i]) is Some {
        Some(Seq::new(nodes.len(), |i: int| readonly(decoded_32(nodes[i])->0, false)))
    } else {
        None
    }
}

/// The instruction that transfers an asset in the given state along the given
/// proof path, or the reason why there is none.
///
/// The current owner signs as the leaf's owner and is named as its delegate
/// too. The leaf's position is written twice, as nonce and as index.
pub open spec fn transfer_of(
    asset: AssetStateView,
    path: ProofPathView,
    owner: Seq<u8>,
    receiver: Seq<u8>,
) -> Result<InstructionView, Error> {
    if asset.leaf_id > u32::MAX {
        Err(
            Error::AssetResolutionFailed {
                query: IndexerQuery::AssetState,
                cause: ResolutionFault::MalformedResponse,
            },
        )
    } else {
        match decoded_32(asset.tree) {
            None => Err(Error::InvalidAddress),
            Some(tree) => match tree_config_address(tree) {
                None => Err(Error::InvalidAddress),
                Some(tree_config) => match (
                    decoded_32(asset.data_hash),
                    decoded_32(asset.creator_hash),
                    decoded_32(path.root),
                    proof_accounts(path.proof),
                ) {
                    (Some(data_hash), Some(creator_hash), Some(root), Some(proof)) => Ok(
                        transfer_instruction(
                            tree_config,
                            owner,
                            true,
                            owner,
                            false,
                            receiver,
                            tree,
                            root,
                            data_hash,
                            creator_hash,
                            asset.leaf_id,
                            asset.leaf_id as u32,
                            proof,
                        ),
                    ),
                    _ => Err(Error::MalformedHash),
                },
            },
        }
    }
}

/// What a transfer comes to, given what the two queries resolved to: nothing
/// is built unless both did.
pub open spec fn transfer_plan(
    asset: Result<AssetStateView, ResolutionFault>,
    path: Result<ProofPathView, ResolutionFault>,
    owner: Seq<u8>,
    receiver: Seq<u8>,
) -> Result<InstructionView, Error> {
    match asset {
        Err(fault) => Err(
            Error::AssetResolutionFailed { query: IndexerQuery::AssetState, cause: fault },
        ),
        Ok(asset) => match path {
            Err(fault) => Err(
                Error::AssetResolutionFailed { query: IndexerQuery::AssetProof, cause: fault },
            ),
            Ok(path) => transfer_of(asset, path, owner, receiver),
        },
    }
}

/// Turns the sibling nodes of a proof into account references.
fn decode_proof_accounts(nodes: &Vec<String>) -> (accounts: Option<Vec<AccountRef>>)
    ensures
        match proof_accounts(nodes@.map_values(|node: String| node@)) {
            Some(views) => accounts is Some && account_views(accounts->0@) == views,
            None => accounts is None,
        },
{
    let ghost texts = nodes@.map_values(|node: String| node@);
    let mut accounts: Vec<AccountRef> = Vec::new();
    let mut i: usize = 0;
    while i < nodes.len()
        invariant
            i <= nodes.len(),
            accounts@.len() == i,
            texts == nodes@.map_values(|node: String| node@),
            forall|j: int| 0 <= j < i ==> decoded_32(#[trigger] texts[j]) is Some,
            forall|j: int|
                0 <= j < i ==> (#[trigger] accounts@[j])@ == readonly(
                    decoded_32(texts[j])->0,
                    false,
                ),
        decreases nodes.len() - i,
    {
        assert(texts[i as int] == nodes@[i as int]@);
        match decode_32(nodes[i].as_str()) {
            Ok(node) => {
                accounts.push(
                    AccountRef {
                        address: PubkeyWrapper(node),
                        is_signer: false,
                        is_writable: false,
                    },
                );
            },
            Err(_) => {
                assert(decoded_32(texts[i as int]) is None);
                return None;
            },
        }
        i += 1;
    }
    assert(account_views(accounts@) =~= Seq::new(
        texts.len(),
        |i: int| readonly(decoded_32(texts[i])->0, false),
    ));
    Some(accounts)
}

/// Builds the instruction that transfers an asset, from its resolved state
/// and proof path.
///
/// The proof accounts trail the fixed accounts, one for each sibling node, in
/// the order of the proof path, read-only and not signing. Fails with
/// `AssetResolutionFailed` and the cause `MalformedResponse` when the leaf's
/// position is no 32-bit number, with `InvalidAddress` when the tree's address cannot be read
/// or has no configuration address, and with `MalformedHash` when a hash, the
/// root or a sibling node is not the base-58 text of 32 bytes.
pub fn build_transfer(
    asset: &AssetState,
    path: &ProofPath,
    owner: &PubkeyWrapper,
    receiver: &PubkeyWrapper,
) -> (instruction: Result<Instruction, Error>)
    ensures
        match transfer_of(asset@, path@, owner@, receiver@) {
            Ok(view) => instruction is Ok && instruction->Ok_0@ == view,
            Err(error) => instruction == Err::<Instruction, Error>(error),
        },
        instruction is Ok ==> instruction->Ok_0.accounts@.len() == TRANSFER_FIXED_ACCOUNTS
            + path.proof@.len(),
        instruction is Ok ==> forall|i: int|
            0 <= i < path.proof@.len() ==> (#[trigger] instruction->Ok_0.accounts@[
                TRANSFER_FIXED_ACCOUNTS + i
            ])@ == readonly(decoded_32(path.proof@[i]@)->0, false),
{
    if asset.leaf_id > 0xffff_ffff {
        return Err(
            Error::AssetResolutionFailed {
                query: IndexerQuery::AssetState,
                cause: ResolutionFault::MalformedResponse,
            },
        );
    }
    let index: u32 = asset.leaf_id as u32;
    let tree = match PubkeyWrapper::decode(asset.tree.as_str()) {
        Ok(tree) => tree,
        Err(error) => { return Err(error); },
    };
    let tree_config = match derive_tree_config(&tree) {
        Ok(address) => address,
        Err(error) => { return Err(error); },
    };
    let data_hash = decode_32(asset.data_hash.as_str());
    let creator_hash = decode_32(asset.creator_hash.as_str());
    let root = decode_32(path.root.as_str());
    let proof = decode_proof_accounts(&path.proof);
    match (data_hash, creator_hash, root, proof) {
        (Ok(data_hash), Ok(creator_hash), Ok(root), Some(proof)) => {
            let mut proof = proof;
            let mut instruction = bubblegum_transfer(
                &tree_config,
                owner,
                true,
                owner,
                false,
                receiver,
                &tree,
                root,
                data_hash,
                creator_hash,
                asset.leaf_id,
                index,
            );
            let ghost fixed = instruction.accounts@;
            let ghost trailing = proof@;
            instruction.accounts.append(&mut proof);
            assert(account_views(fixed + trailing) =~= account_views(fixed) + account_views(
                trailing,
            ));
            assert(account_views(fixed).len() == TRANSFER_FIXED_ACCOUNTS);
            assert forall|i: int| 0 <= i < path.proof@.len() implies (
            #[trigger] instruction.accounts@[TRANSFER_FIXED_ACCOUNTS + i])@ == readonly(
                decoded_32(path.proof@[i]@)->0,
                false,
            ) by {
                assert(instruction.accounts@[TRANSFER_FIXED_ACCOUNTS + i] == trailing[i]);
                assert(account_views(trailing)[i] == trailing[i]@);
            }
            Ok(instruction)
        },
        _ => Err(Error::MalformedHash),
    }
}

/// Builds the instruction that transfers an asset, from the indexer's answers
/// to the state query and the proof query.
///
/// Fails with `AssetResolutionFailed`, and the fault of the first query that
/// did not resolve, before anything else is looked at; otherwise as
/// `build_transfer` does.
pub fn transfer(
    asset_reply: &IndexerReply,
    proof_reply: &IndexerReply,
    owner: &PubkeyWrapper,
    receiver: &PubkeyWrapper,
) -> (instruction: Result<Instruction, Error>)
    ensures
        match transfer_plan(
            resolved_asset(*asset_reply),
            resolved_proof(*proof_reply),
            owner@,
            receiver@,
        ) {
            Ok(view) => instruction is Ok && instruction->Ok_0@ == view,
            Err(error) => instruction == Err::<Instruction, Error>(error),
        },
        resolved_asset(*asset_reply) is Err || resolved_proof(*proof_reply) is Err
            ==> instruction is Err && instruction->Err_0 is AssetResolutionFailed,
{
    let asset = match get_asset(asset_reply) {
        Ok(asset) => asset,
        Err(cause) => {
            return Err(Error::AssetResolutionFailed { query: IndexerQuery::AssetState, cause });
        },
    };
    let path = match get_proof(proof_reply) {
        Ok(path) => path,
        Err(cause) => {
            return Err(Error::AssetResolutionFailed { query: IndexerQuery::AssetProof, cause });
        },
    };
    build_transfer(&asset, &path, owner, receiver)
}

/// A transfer names the proof accounts behind the eight fixed ones: one for
/// each sibling node, in the order of the proof path, read-only and not
/// signing.
pub proof fn lemma_transfer_trails_the_proof(
    asset: AssetStateView,
    path: ProofPathView,
    owner: Seq<u8>,
    receiver: Seq<u8>,
)
    requires
        transfer_of(asset, path, owner, receiver) is Ok,
    ensures
        transfer_of(asset, path, owner, receiver)->Ok_0.accounts.len() == TRANSFER_FIXED_ACCOUNTS
            + path.proof.len(),
        forall|i: int|
            0 <= i < path.proof.len() ==> #[trigger] transfer_of(
                asset,
                path,
                owner,
                receiver,
            )->Ok_0.accounts[TRANSFER_FIXED_ACCOUNTS + i] == readonly(
                decoded_32(path.proof[i])->0,
                false,
            ),
{
}

/// A transfer asks for the signature of the current owner, and of nobody
/// else.
pub proof fn lemma_transfer_is_signed_by_owner_alone(
    asset: AssetStateView,
    path: ProofPathView,
    owner: Seq<u8>,
    receiver: Seq<u8>,
    address: Seq<u8>,
)
    requires
        transfer_of(asset, path, owner, receiver) is Ok,
    ensures
        asks_signature(seq![transfer_of(asset, path, owner, receiver)->Ok_0], address) <==> address
            == owner,
{
    let plan = seq![transfer_of(asset, path, owner, receiver)->Ok_0];
    assert(plan[0].accounts[1].is_signer && plan[0].accounts[1].address == owner);
    if asks_signature(plan, address) {
        let (i, j) = choose|i: int, j: int|
            0 <= i < plan.len() && 0 <= j < plan[i].accounts.len()
                && #[trigger] plan[i].accounts[j].is_signer && plan[i].accounts[j].address
                == address;
        assert(j == 1);
    }
}

/// Nonce and index of a transfer are the same leaf position: a position that
/// no 32-bit index can express is not transferred.
pub proof fn lemma_transfer_index_is_the_nonce(
    asset: AssetStateView,
    path: ProofPathView,
    owner: Seq<u8>,
    receiver: Seq<u8>,
)
    requires
        transfer_of(asset, path, owner, receiver) is Ok,
    ensures
        asset.leaf_id <= u32::MAX,
        (asset.leaf_id as u32) as u64 == asset.leaf_id,
{
}

} // verus!
