use cnft::{create_tree_config, derive_tree_config, AccountRef, Error, PubkeyWrapper};

const PAYER: PubkeyWrapper = PubkeyWrapper([1u8; 32]);
const TREE: PubkeyWrapper = PubkeyWrapper([2u8; 32]);

fn account(address: PubkeyWrapper, is_signer: bool, is_writable: bool) -> AccountRef {
    AccountRef { address, is_signer, is_writable }
}

#[test]
fn create_tree_emits_allocation_then_initialization() {
    let rent = 222_232_320u64;
    let instructions = create_tree_config(&PAYER, &TREE, 14, 64, rent).unwrap();
    assert_eq!(instructions.len(), 2);

    let allocate = &instructions[0];
    assert_eq!(allocate.program_id, PubkeyWrapper([0u8; 32]));
    assert_eq!(allocate.accounts, vec![account(PAYER, true, true), account(TREE, true, true)]);
    let mut data = vec![0u8, 0, 0, 0];
    data.extend_from_slice(&rent.to_le_bytes());
    data.extend_from_slice(&31_800u64.to_le_bytes());
    data.extend_from_slice(&cnft::pubkey::COMPRESSION_PROGRAM_ID);
    assert_eq!(allocate.data, data);

    let initialize = &instructions[1];
    assert_eq!(initialize.program_id, PubkeyWrapper(cnft::pubkey::BUBBLEGUM_PROGRAM_ID));
    let tree_config = derive_tree_config(&TREE).unwrap();
    assert_eq!(
        initialize.accounts,
        vec![
            account(tree_config, false, true),
            account(TREE, false, true),
            account(PAYER, true, true),
            account(PAYER, true, false),
            account(PubkeyWrapper(cnft::pubkey::LOG_WRAPPER_PROGRAM_ID), false, false),
            account(PubkeyWrapper(cnft::pubkey::COMPRESSION_PROGRAM_ID), false, false),
            account(PubkeyWrapper(cnft::pubkey::SYSTEM_PROGRAM_ID), false, false),
        ]
    );
    assert_eq!(
        initialize.data,
        vec![165, 83, 136, 142, 89, 202, 47, 220, 14, 0, 0, 0, 64, 0, 0, 0, 0]
    );
}

#[test]
fn create_tree_asks_for_the_signatures_of_payer_and_tree() {
    let instructions = create_tree_config(&PAYER, &TREE, 14, 64, 1).unwrap();
    let mut signers: Vec<PubkeyWrapper> = Vec::new();
    for instruction in &instructions {
        for account in &instruction.accounts {
            if account.is_signer && !signers.contains(&account.address) {
                signers.push(account.address);
            }
        }
    }
    assert_eq!(signers, vec![PAYER, TREE]);
}

#[test]
fn create_tree_is_what_the_programs_own_builders_emit() {
    let payer = solana_program::pubkey::Pubkey::new_from_array(PAYER.0);
    let tree = solana_program::pubkey::Pubkey::new_from_array(TREE.0);
    let allocate = solana_program::system_instruction::create_account(
        &payer,
        &tree,
        77,
        44_280,
        &spl_account_compression::ID.to_bytes().into(),
    );
    let initialize = mpl_bubblegum::instructions::CreateTreeConfigBuilder::new()
        .merkle_tree(tree)
        .tree_config(mpl_bubblegum::accounts::TreeConfig::find_pda(&tree).0)
        .payer(payer)
        .tree_creator(payer)
        .max_depth(20)
        .max_buffer_size(64)
        .instruction();
    let ours = create_tree_config(&PAYER, &TREE, 20, 64, 77).unwrap();
    for (ours, theirs) in ours.iter().zip([allocate, initialize]) {
        assert_eq!(ours.program_id.0, theirs.program_id.to_bytes());
        assert_eq!(ours.data, theirs.data);
        assert_eq!(ours.accounts.len(), theirs.accounts.len());
        for (ours, theirs) in ours.accounts.iter().zip(theirs.accounts) {
            assert_eq!(ours.address.0, theirs.pubkey.to_bytes());
            assert_eq!(ours.is_signer, theirs.is_signer);
            assert_eq!(ours.is_writable, theirs.is_writable);
        }
    }
}

#[test]
fn create_tree_rejects_unsupported_sizes() {
    assert_eq!(create_tree_config(&PAYER, &TREE, 14, 65, 1), Err(Error::UnsupportedDepthBuffer));
    assert_eq!(create_tree_config(&PAYER, &TREE, 4, 8, 1), Err(Error::UnsupportedDepthBuffer));
    assert_eq!(create_tree_config(&PAYER, &TREE, 0, 0, 0), Err(Error::UnsupportedDepthBuffer));
}

#[test]
fn create_tree_sizes_the_account_for_its_depth_and_buffer() {
    let instructions = create_tree_config(&PAYER, &TREE, 30, 2048, 5).unwrap();
    assert_eq!(instructions[0].data[12..20], 2_049_080u64.to_le_bytes());
    assert_eq!(
        instructions[1].data[8..16],
        [30, 0, 0, 0, 0, 8, 0, 0]
    );
}
