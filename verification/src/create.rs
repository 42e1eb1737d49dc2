use crate::error::Error;
use crate::instruction::{
    asks_signature, instruction_views, readonly, writable, AccountRef, Instruction,
    InstructionView,
};
use crate::pda::{derive_tree_config, tree_config_address};
use crate::pubkey::{
    PubkeyWrapper, BUBBLEGUM_PROGRAM_ID, COMPRESSION_PROGRAM_ID, LOG_WRAPPER_PROGRAM_ID,
    SYSTEM_PROGRAM_ID,
};
use crate::tree_size::{compute_tree_size, supported_depth_buffer, tree_account_size};
use mpl_bubblegum::instructions::CreateTreeConfigBuilder;
use solana_program::system_instruction;
use vstd::bytes::{spec_u32_to_le_bytes, spec_u64_to_le_bytes};
use vstd::prelude::*;

verus! {

/// The first eight bytes of the payload that initializes a tree configuration.
pub const CREATE_TREE_DISCRIMINATOR: [u8; 8] = [165, 83, 136, 142, 89, 202, 47, 220];

/// The system program's instruction that allocates an account: `payer` funds
/// `new_account` with `lamports`, gives it `space` bytes and hands it to
/// `owner`. Both accounts sign and are changed. The payload is the variant
/// number 0 in four bytes, the two amounts as little-endian 64-bit numbers and
/// the owner's address.
pub open spec fn create_account_instruction(
    payer: Seq<u8>,
    new_account: Seq<u8>,
    lamports: u64,
    space: u64,
    owner: Seq<u8>,
) -> InstructionView {
    InstructionView {
        program_id: SYSTEM_PROGRAM_ID@,
        accounts: seq![writable(payer, true), writable(new_account, true)],
        data: seq![0u8, 0u8, 0u8, 0u8] + spec_u64_to_le_bytes(lamports) + spec_u64_to_le_bytes(
            space,
        ) + owner,
    }
}

/// The token program's instruction that binds a configuration account to a
/// tree of the given depth and buffer size. The payload is the discriminator,
/// the two numbers as little-endian 32-bit numbers and one zero byte: no
/// statement on whether the tree is public.
pub open spec fn create_tree_config_instruction(
    tree_config: Seq<u8>,
    merkle_tree: Seq<u8>,
    payer: Seq<u8>,
    tree_creator: Seq<u8>,
    max_depth: u32,
    max_buffer_size: u32,
) -> InstructionView {
    InstructionView {
        program_id: BUBBLEGUM_PROGRAM_ID@,
        accounts: seq![
            writable(tree_config, false),
            writable(merkle_tree, false),
            writable(payer, true),
            readonly(tree_creator, true),
            readonly(LOG_WRAPPER_PROGRAM_ID@, false),
            readonly(COMPRESSION_PROGRAM_ID@, false),
            readonly(SYSTEM_PROGRAM_ID@, false),
        ],
        data: CREATE_TREE_DISCRIMINATOR@ + spec_u32_to_le_bytes(max_depth) + spec_u32_to_le_bytes(
            max_buffer_size,
        ) + seq![0u8],
    }
}

/// The address `spl_account_compression::ID`.
/// Trusted: it is the address held in `COMPRESSION_PROGRAM_ID`.
#[verifier::external_body]
fn compression_program_id() -> (id: PubkeyWrapper)
    ensures
        id@ == COMPRESSION_PROGRAM_ID@,
{
    PubkeyWrapper(spl_account_compression::ID.to_bytes())
}

/// `system_instruction::create_account` of solana-program.
/// Trusted: program, accounts and payload are those of
/// `create_account_instruction`.
#[verifier::external_body]
fn system_create_account(
    payer: &PubkeyWrapper,
    new_account: &PubkeyWrapper,
    lamports: u64,
    space: u64,
    owner: &PubkeyWrapper,
) -> (instruction: Instruction)
    ensures
        instruction@ == create_account_instruction(payer@, new_account@, lamports, space, owner@),
{
    let from = payer.0.into();
    let to = new_account.0.into();
    let ix = system_instruction::create_account(&from, &to, lamports, space, &owner.0.into());
    Instruction {
        program_id: PubkeyWrapper(ix.program_id.to_bytes()),
        accounts: ix.accounts.iter().map(|m| AccountRef {
            address: PubkeyWrapper(m.pubkey.to_bytes()),
            is_signer: m.is_signer,
            is_writable: m.is_writable,
        }).collect(),
        data: ix.data,
    }
}

/// `CreateTreeConfigBuilder` of mpl-bubblegum, with the four accounts and the
/// two numbers set and everything else left at its default.
/// Trusted: program, accounts and payload are those of
/// `create_tree_config_instruction`.
#[verifier::external_body]
fn bubblegum_create_tree_config(
    tree_config: &PubkeyWrapper,
    merkle_tree: &PubkeyWrapper,
    payer: &PubkeyWrapper,
    tree_creator: &PubkeyWrapper,
    max_depth: u32,
    max_buffer_size: u32,
) -> (instruction: Instruction)
    ensures
        instruction@ == create_tree_config_instruction(
            tree_config@,
            merkle_tree@,
            payer@,
            tree_creator@,
            max_depth,
            max_buffer_size,
        ),
{
    let ix = CreateTreeConfigBuilder::new()
        .tree_config(tree_config.0.into()).merkle_tree(merkle_tree.0.into())
        .payer(payer.0.into()).tree_creator(tree_creator.0.into())
        .max_depth(max_depth).max_buffer_size(max_buffer_size)
        .instruction();
    Instruction {
        program_id: PubkeyWrapper(ix.program_id.to_bytes()),
        accounts: ix.accounts.iter().map(|m| AccountRef {
            address: PubkeyWrapper(m.pubkey.to_bytes()),
            is_signer: m.is_signer,
            is_writable: m.is_writable,
        }).collect(),
        data: ix.data,
    }
}

/// The two instructions that create a tree, or the reason why there are none.
///
/// First the account is allocated: the payer funds it with the rent, it gets
/// exactly the size of a tree of this depth and buffer size, and the
/// compression program owns it. Then its configuration is initialized, with
/// the payer as the tree's creator.
pub open spec fn create_tree_plan(
    payer: Seq<u8>,
    merkle_tree: Seq<u8>,
    max_depth: u32,
    max_buffer_size: u32,
    rent: u64,
) -> Result<Seq<InstructionView>, Error> {
    if !supported_depth_buffer(max_depth, max_buffer_size) {
        Err(Error::UnsupportedDepthBuffer)
    } else {
        match tree_config_address(merkle_tree) {
            None => Err(Error::InvalidAddress),
            Some(tree_config) => Ok(
                seq![
                    create_account_instruction(
                        payer,
                        merkle_tree,
                        rent,
                        tree_account_size(max_depth as nat, max_buffer_size as nat) as u64,
                        COMPRESSION_PROGRAM_ID@,
                    ),
                    create_tree_config_instruction(
                        tree_config,
                        merkle_tree,
                        payer,
                        payer,
                        max_depth,
                        max_buffer_size,
                    ),
                ],
            ),
        }
    }
}

/// Builds the instructions that create a tree at a fresh address.
///
/// `rent` is the balance that keeps an account of the tree's size on the
/// ledger. The result holds exactly two instructions, the allocation before
/// the initialization; together they ask for the signatures of the payer and
/// of the tree. Fails with `UnsupportedDepthBuffer` for a pair of depth and
/// buffer size that the compression program does not support, and with
/// `InvalidAddress` where the tree has no configuration address.
pub fn create_tree_config(
    payer: &PubkeyWrapper,
    merkle_tree: &PubkeyWrapper,
    max_depth: u32,
    max_buffer_size: u32,
    rent: u64,
) -> (instructions: Result<Vec<Instruction>, Error>)
    ensures
        match create_tree_plan(payer@, merkle_tree@, max_depth, max_buffer_size, rent) {
            Ok(plan) => instructions is Ok && instruction_views(instructions->Ok_0@) == plan,
            Err(error) => instructions == Err::<Vec<Instruction>, Error>(error),
        },
{
    let size = match compute_tree_size(max_depth, max_buffer_size) {
        Ok(size) => size,
        Err(error) => { return Err(error); },
    };
    let tree_config = match derive_tree_config(merkle_tree) {
        Ok(address) => address,
        Err(error) => { return Err(error); },
    };
    let owner = compression_program_id();
    let allocate = system_create_account(payer, merkle_tree, rent, size, &owner);
    let initialize = bubblegum_create_tree_config(
        &tree_config,
        merkle_tree,
        payer,
        payer,
        max_depth,
        max_buffer_size,
    );
    let ghost plan = seq![allocate@, initialize@];
    let mut instructions: Vec<Instruction> = Vec::new();
    instructions.push(allocate);
    instructions.push(initialize);
    assert(instruction_views(instructions@) =~= plan);
    Ok(instructions)
}

/// The instructions that create a tree ask for the signatures of the payer
/// and of the tree, and of nobody else.
pub proof fn lemma_create_tree_is_signed_by_payer_and_tree(
    payer: Seq<u8>,
    merkle_tree: Seq<u8>,
    max_depth: u32,
    max_buffer_size: u32,
    rent: u64,
    address: Seq<u8>,
)
    requires
        create_tree_plan(payer, merkle_tree, max_depth, max_buffer_size, rent) is Ok,
    ensures
        asks_signature(
            create_tree_plan(payer, merkle_tree, max_depth, max_buffer_size, rent)->Ok_0,
            address,
        ) <==> address == payer || address == merkle_tree,
{
    let plan = create_tree_plan(payer, merkle_tree, max_depth, max_buffer_size, rent)->Ok_0;
    assert(plan[0].accounts[0].is_signer && plan[0].accounts[0].address == payer);
    assert(plan[0].accounts[1].is_signer && plan[0].accounts[1].address == merkle_tree);
}

} // verus!
