use cnft::{derive_asset_id, derive_tree_config, mint_v1, AccountRef, Error, PubkeyWrapper};
use mpl_bubblegum::types::{Creator, MetadataArgs, TokenProgramVersion, TokenStandard};

const TREE: PubkeyWrapper = PubkeyWrapper([2u8; 32]);
const OWNER: PubkeyWrapper = PubkeyWrapper([3u8; 32]);
const PAYER: PubkeyWrapper = PubkeyWrapper([1u8; 32]);

fn account(address: PubkeyWrapper, is_signer: bool, is_writable: bool) -> AccountRef {
    AccountRef { address, is_signer, is_writable }
}

fn mint(nonce: u64) -> (cnft::Instruction, PubkeyWrapper) {
    mint_v1(
        &TREE,
        &OWNER,
        &PAYER,
        "Token".to_string(),
        "TK".to_string(),
        "https://example.com/1.json".to_string(),
        500,
        true,
        nonce,
    )
    .unwrap()
}

#[test]
fn mint_emits_one_instruction_and_the_asset_id() {
    let (instruction, asset) = mint(5);
    assert_eq!(asset, derive_asset_id(&TREE, 5).unwrap());
    assert_eq!(instruction.program_id, PubkeyWrapper(cnft::pubkey::BUBBLEGUM_PROGRAM_ID));
    let (_, next) = mint(6);
    assert_eq!(next, derive_asset_id(&TREE, 6).unwrap());
    assert_ne!(asset, next);
}

#[test]
fn mint_accounts_are_in_the_programs_order() {
    let (instruction, _) = mint(5);
    assert_eq!(
        instruction.accounts,
        vec![
            account(derive_tree_config(&TREE).unwrap(), false, true),
            account(OWNER, false, false),
            account(OWNER, false, false),
            account(TREE, false, true),
            account(PAYER, true, false),
            account(PAYER, true, false),
            account(PubkeyWrapper(cnft::pubkey::LOG_WRAPPER_PROGRAM_ID), false, false),
            account(PubkeyWrapper(cnft::pubkey::COMPRESSION_PROGRAM_ID), false, false),
            account(PubkeyWrapper(cnft::pubkey::SYSTEM_PROGRAM_ID), false, false),
        ]
    );
}

#[test]
fn mint_payload_has_the_fixed_metadata_shape() {
    let (instruction, _) = mint(5);
    let mut data = vec![145u8, 98, 192, 118, 184, 147, 118, 104];
    data.extend_from_slice(&[5, 0, 0, 0]);
    data.extend_from_slice(b"Token");
    data.extend_from_slice(&[2, 0, 0, 0]);
    data.extend_from_slice(b"TK");
    data.extend_from_slice(&[26, 0, 0, 0]);
    data.extend_from_slice(b"https://example.com/1.json");
    data.extend_from_slice(&[0xf4, 0x01]);
    data.extend_from_slice(&[0, 1, 0, 1, 0, 0, 0, 0]);
    data.extend_from_slice(&[1, 0, 0, 0]);
    data.extend_from_slice(&OWNER.0);
    data.extend_from_slice(&[0, 100]);
    assert_eq!(instruction.data, data);
}

#[test]
fn mint_payload_is_what_the_programs_own_builder_emits() {
    let owner = solana_program::pubkey::Pubkey::new_from_array(OWNER.0);
    let tree = solana_program::pubkey::Pubkey::new_from_array(TREE.0);
    let payer = solana_program::pubkey::Pubkey::new_from_array(PAYER.0);
    for (name, symbol, uri, fee, mutable) in [
        ("", "", "", 0u16, false),
        ("A name of thirty-two bytes, yes!", "TENLETTERS", "u", 10_000, true),
        ("h\u{e9}llo", "\u{20ac}", "ipfs://x", u16::MAX, false),
    ] {
        let args = MetadataArgs {
            name: name.to_string(),
            symbol: symbol.to_string(),
            uri: uri.to_string(),
            seller_fee_basis_points: fee,
            primary_sale_happened: false,
            is_mutable: mutable,
            edition_nonce: None,
            token_standard: Some(TokenStandard::NonFungible),
            collection: None,
            uses: None,
            token_program_version: TokenProgramVersion::Original,
            creators: vec![Creator { address: owner, share: 100, verified: false }],
        };
        let theirs = mpl_bubblegum::instructions::MintV1Builder::new()
            .leaf_delegate(owner)
            .leaf_owner(owner)
            .merkle_tree(tree)
            .payer(payer)
            .tree_config(mpl_bubblegum::accounts::TreeConfig::find_pda(&tree).0)
            .tree_creator_or_delegate(payer)
            .metadata(args)
            .instruction();
        let (ours, _) = mint_v1(
            &TREE,
            &OWNER,
            &PAYER,
            name.to_string(),
            symbol.to_string(),
            uri.to_string(),
            fee,
            mutable,
            9,
        )
        .unwrap();
        assert_eq!(ours.data, theirs.data);
        assert_eq!(ours.program_id.0, theirs.program_id.to_bytes());
        assert_eq!(ours.accounts.len(), theirs.accounts.len());
        for (ours, theirs) in ours.accounts.iter().zip(theirs.accounts) {
            assert_eq!(ours.address.0, theirs.pubkey.to_bytes());
            assert_eq!(ours.is_signer, theirs.is_signer);
            assert_eq!(ours.is_writable, theirs.is_writable);
        }
    }
}

#[test]
fn mint_payload_marks_an_immutable_token() {
    let (instruction, _) = mint_v1(
        &TREE,
        &OWNER,
        &PAYER,
        "n".to_string(),
        "s".to_string(),
        "u".to_string(),
        1,
        false,
        0,
    )
    .unwrap();
    assert_eq!(instruction.data[8..23], [1, 0, 0, 0, b'n', 1, 0, 0, 0, b's', 1, 0, 0, 0, b'u']);
    assert_eq!(instruction.data[23..33], [1, 0, 0, 0, 0, 1, 0, 0, 0, 0]);
}

fn rejected(name: &str, symbol: &str, uri: &str) -> bool {
    let (name, symbol, uri) = (name.to_string(), symbol.to_string(), uri.to_string());
    mint_v1(&TREE, &OWNER, &PAYER, name, symbol, uri, 0, true, 0) == Err(Error::InvalidMetadata)
}

#[test]
fn mint_rejects_metadata_beyond_the_limits() {
    assert!(rejected(&"n".repeat(33), "s", "u"));
    assert!(rejected("n", &"s".repeat(11), "u"));
    assert!(rejected("n", "s", &"u".repeat(201)));
    assert!(rejected(&"n".repeat(1000), &"s".repeat(1000), &"u".repeat(1000)));
}

#[test]
fn mint_accepts_metadata_at_the_limits() {
    assert!(!rejected(&"n".repeat(32), &"s".repeat(10), &"u".repeat(200)));
    assert!(!rejected("", "", ""));
}

#[test]
fn mint_measures_metadata_in_bytes() {
    assert!(!rejected(&"\u{e9}".repeat(16), "s", "u"));
    assert!(rejected(&"\u{e9}".repeat(17), "s", "u"));
    assert!(rejected("n", &"\u{20ac}".repeat(4), "u"));
    assert!(!rejected("n", &"\u{20ac}".repeat(3), "u"));
}

#[test]
fn mint_asks_only_for_the_payers_signature() {
    let (instruction, _) = mint(1);
    for account in &instruction.accounts {
        assert_eq!(account.is_signer, account.address == PAYER);
    }
}
