use cnft::{
    assemble, confirm, create_tree_config, mint_v1, serialize_unsigned, submission_bytes,
    AccountRef, Error, Instruction, KeyEncoding, KeypairWrapper, LedgerReply, PubkeyWrapper,
    Receipt,
};
use solana_sdk::signer::keypair::{keypair_from_seed, Keypair};
use solana_sdk::signer::Signer;
use solana_sdk::transaction::Transaction;

const BLOCKHASH: [u8; 32] = [42u8; 32];

fn pair(seed: u8) -> (Keypair, KeypairWrapper) {
    let theirs = keypair_from_seed(&[seed; 32]).unwrap();
    let ours = KeypairWrapper::decode(&KeyEncoding::Raw(theirs.to_bytes().to_vec())).unwrap();
    (theirs, ours)
}

fn solana(instruction: &Instruction) -> solana_program::instruction::Instruction {
    solana_program::instruction::Instruction {
        program_id: solana_program::pubkey::Pubkey::new_from_array(instruction.program_id.0),
        accounts: instruction
            .accounts
            .iter()
            .map(|account| solana_program::instruction::AccountMeta {
                pubkey: solana_program::pubkey::Pubkey::new_from_array(account.address.0),
                is_signer: account.is_signer,
                is_writable: account.is_writable,
            })
            .collect(),
        data: instruction.data.clone(),
    }
}

fn create_tree(payer: &KeypairWrapper, tree: &KeypairWrapper) -> Vec<Instruction> {
    create_tree_config(&payer.pubkey(), &tree.pubkey(), 14, 64, 222_232_320).unwrap()
}

fn failure(result: Result<cnft::Transaction, Error>) -> Error {
    match result {
        Ok(_) => panic!("a transaction was assembled"),
        Err(error) => error,
    }
}

#[test]
fn assembled_transaction_is_the_ledgers_signed_transaction() {
    let (payer, our_payer) = pair(1);
    let (tree, our_tree) = pair(2);
    let instructions = create_tree(&our_payer, &our_tree);
    let theirs = Transaction::new_signed_with_payer(
        &[solana(&instructions[0]), solana(&instructions[1])],
        Some(&payer.pubkey()),
        &[&payer, &tree],
        solana_program::hash::Hash::new_from_array(BLOCKHASH),
    );
    let ours = assemble(
        instructions,
        &our_payer.pubkey(),
        &vec![our_payer, our_tree],
        BLOCKHASH,
        true,
    )
    .unwrap();
    assert!(ours.is_signed());
    assert_eq!(*ours.message(), theirs.message_data());
    assert_eq!(ours.signatures().len(), theirs.signatures.len());
    for (ours, theirs) in ours.signatures().iter().zip(&theirs.signatures) {
        assert_eq!(ours[..], *theirs.as_ref());
    }
    assert_eq!(serialize_unsigned(&ours), bincode::serialize(&theirs).unwrap());
    assert_eq!(submission_bytes(&ours), Ok(bincode::serialize(&theirs).unwrap()));
    let read: Transaction = bincode::deserialize(&serialize_unsigned(&ours)).unwrap();
    assert!(read.verify().is_ok());
}

#[test]
fn the_order_of_the_signers_does_not_matter() {
    let (_, payer) = pair(1);
    let (_, tree) = pair(2);
    let fee_payer = payer.pubkey();
    let plan = create_tree(&payer, &tree);
    let forward =
        assemble(plan.clone(), &fee_payer, &vec![pair(1).1, pair(2).1], BLOCKHASH, true).unwrap();
    let backward =
        assemble(plan, &fee_payer, &vec![pair(2).1, pair(1).1], BLOCKHASH, true).unwrap();
    assert_eq!(serialize_unsigned(&forward), serialize_unsigned(&backward));
}

#[test]
fn instructions_keep_their_order() {
    let (_, payer) = pair(1);
    let (_, tree) = pair(2);
    let instructions = create_tree(&payer, &tree);
    let transaction = assemble(
        instructions.clone(),
        &payer.pubkey(),
        &vec![pair(1).1, pair(2).1],
        BLOCKHASH,
        true,
    )
    .unwrap();
    assert_eq!(*transaction.instructions(), instructions);
    let mut swapped = instructions.clone();
    swapped.reverse();
    let signers = vec![pair(1).1, pair(2).1];
    let other = assemble(swapped.clone(), &payer.pubkey(), &signers, BLOCKHASH, true).unwrap();
    assert_eq!(*other.instructions(), swapped);
    assert_ne!(transaction.message(), other.message());
}

#[test]
fn transaction_keeps_payer_and_checkpoint() {
    let (_, payer) = pair(1);
    let (_, tree) = pair(2);
    let transaction = assemble(
        create_tree(&payer, &tree),
        &payer.pubkey(),
        &vec![pair(1).1, pair(2).1],
        BLOCKHASH,
        true,
    )
    .unwrap();
    assert_eq!(transaction.fee_payer(), payer.pubkey());
    assert_eq!(transaction.recent_blockhash(), BLOCKHASH);
    assert_eq!(transaction.signer_keys().len(), 2);
    assert_eq!(transaction.signer_keys()[0], payer.pubkey());
    assert_eq!(transaction.signer_keys()[1], tree.pubkey());
}

#[test]
fn self_submission_needs_the_fee_payers_key() {
    let (_, payer) = pair(1);
    let (_, tree) = pair(2);
    let plan = create_tree(&payer, &tree);
    let result = assemble(plan.clone(), &payer.pubkey(), &vec![pair(2).1], BLOCKHASH, true);
    assert_eq!(failure(result), Error::MissingSigner);
    let result = assemble(plan, &payer.pubkey(), &vec![], BLOCKHASH, true);
    assert_eq!(failure(result), Error::MissingSigner);
}

#[test]
fn self_submission_needs_every_other_key_too() {
    let (_, payer) = pair(1);
    let (_, tree) = pair(2);
    let plan = create_tree(&payer, &tree);
    let result = assemble(plan, &payer.pubkey(), &vec![pair(1).1], BLOCKHASH, true);
    assert_eq!(failure(result), Error::MissingSigner);
}

#[test]
fn a_transaction_for_a_signer_elsewhere_keeps_empty_slots() {
    let (payer, our_payer) = pair(1);
    let (tree, our_tree) = pair(2);
    let instructions = create_tree(&our_payer, &our_tree);
    let message = solana_program::message::Message::new_with_blockhash(
        &[solana(&instructions[0]), solana(&instructions[1])],
        Some(&payer.pubkey()),
        &solana_program::hash::Hash::new_from_array(BLOCKHASH),
    );
    let unsigned = Transaction::new_unsigned(message);
    let fee_payer = our_payer.pubkey();
    let ours = assemble(instructions.clone(), &fee_payer, &vec![], BLOCKHASH, false).unwrap();
    assert!(!ours.is_signed());
    assert_eq!(*ours.signatures(), vec![[0u8; 64]; 2]);
    assert_eq!(serialize_unsigned(&ours), bincode::serialize(&unsigned).unwrap());
    assert_eq!(submission_bytes(&ours), Err(Error::MissingSigner));

    let mut partly = unsigned.clone();
    partly.partial_sign(&[&tree], solana_program::hash::Hash::new_from_array(BLOCKHASH));
    let ours = assemble(instructions, &fee_payer, &vec![our_tree], BLOCKHASH, false).unwrap();
    assert!(!ours.is_signed());
    assert_eq!(ours.signatures()[0], [0u8; 64]);
    assert_ne!(ours.signatures()[1], [0u8; 64]);
    assert_eq!(serialize_unsigned(&ours), bincode::serialize(&partly).unwrap());
    assert_eq!(submission_bytes(&ours), Err(Error::MissingSigner));
}

#[test]
fn a_signer_that_signs_for_no_account_is_refused() {
    let (_, payer) = pair(1);
    let (_, tree) = pair(2);
    for self_submit in [true, false] {
        let result = assemble(
            create_tree(&payer, &tree),
            &payer.pubkey(),
            &vec![pair(1).1, pair(2).1, pair(3).1],
            BLOCKHASH,
            self_submit,
        );
        assert_eq!(failure(result), Error::UnexpectedSigner);
    }
}

#[test]
fn a_mint_is_signed_by_the_payer_alone() {
    let (payer, our_payer) = pair(4);
    let tree = PubkeyWrapper([8u8; 32]);
    let owner = PubkeyWrapper([9u8; 32]);
    let (instruction, _) = mint_v1(
        &tree,
        &owner,
        &our_payer.pubkey(),
        "n".to_string(),
        "s".to_string(),
        "u".to_string(),
        100,
        true,
        0,
    )
    .unwrap();
    let theirs = Transaction::new_signed_with_payer(
        &[solana(&instruction)],
        Some(&payer.pubkey()),
        &[&payer],
        solana_program::hash::Hash::new_from_array(BLOCKHASH),
    );
    let fee_payer = our_payer.pubkey();
    let ours = assemble(vec![instruction], &fee_payer, &vec![our_payer], BLOCKHASH, true).unwrap();
    assert_eq!(serialize_unsigned(&ours), bincode::serialize(&theirs).unwrap());
}

fn numbered(i: usize) -> PubkeyWrapper {
    let mut bytes = [77u8; 32];
    bytes[0] = (i % 256) as u8;
    bytes[1] = (i / 256) as u8;
    PubkeyWrapper(bytes)
}

fn wide(accounts: usize, different: usize, data: usize) -> Instruction {
    Instruction {
        program_id: PubkeyWrapper([7u8; 32]),
        accounts: (0..accounts)
            .map(|i| AccountRef {
                address: numbered(i % different),
                is_signer: false,
                is_writable: i % 2 == 0,
            })
            .collect(),
        data: vec![1u8; data],
    }
}

#[test]
fn instructions_that_do_not_fit_one_message_are_refused() {
    let (_, payer) = pair(1);
    let fee_payer = payer.pubkey();
    let signers = vec![payer];
    for instructions in [
        vec![wide(254, 254, 0)],
        vec![wide(1000, 1000, 0)],
        vec![wide(200, 200, 0), wide(300, 300, 0)],
        vec![wide(0, 1, 65_536)],
        vec![wide(1, 1, 1), wide(0, 1, 70_000)],
        vec![wide(65_536, 2, 0)],
        (0..65_536).map(|_| wide(0, 1, 0)).collect(),
    ] {
        let result = assemble(instructions, &fee_payer, &signers, BLOCKHASH, true);
        assert_eq!(failure(result), Error::TransactionTooLarge);
    }
}

#[test]
fn the_largest_message_is_the_ledgers_message() {
    let (payer, our_payer) = pair(1);
    let fee_payer = our_payer.pubkey();
    for instructions in [
        vec![wide(253, 253, 0)],
        vec![wide(1000, 10, 0)],
        vec![wide(65_535, 3, 0)],
        vec![wide(0, 1, 65_535)],
        (0..127).map(|_| wide(1, 1, 3)).collect::<Vec<Instruction>>(),
        (0..300).map(|_| wide(0, 1, 0)).collect::<Vec<Instruction>>(),
        vec![],
    ] {
        let theirs = Transaction::new_signed_with_payer(
            &instructions.iter().map(solana).collect::<Vec<_>>(),
            Some(&payer.pubkey()),
            &[&payer],
            solana_program::hash::Hash::new_from_array(BLOCKHASH),
        );
        let ours = assemble(instructions, &fee_payer, &vec![pair(1).1], BLOCKHASH, true).unwrap();
        assert_eq!(serialize_unsigned(&ours), bincode::serialize(&theirs).unwrap());
    }
}

#[test]
fn the_payer_counts_once_among_the_accounts() {
    let (_, payer) = pair(1);
    let fee_payer = payer.pubkey();
    let mut instruction = wide(253, 253, 0);
    instruction.accounts.push(AccountRef {
        address: fee_payer,
        is_signer: true,
        is_writable: true,
    });
    instruction.accounts.push(AccountRef {
        address: instruction.program_id,
        is_signer: false,
        is_writable: false,
    });
    assert!(assemble(vec![instruction], &fee_payer, &vec![payer], BLOCKHASH, true).is_ok());
}

#[test]
fn many_signature_slots_are_counted_in_two_bytes() {
    let (_, payer) = pair(1);
    let accounts: Vec<AccountRef> = (0..200u8)
        .map(|i| AccountRef {
            address: PubkeyWrapper([i + 20; 32]),
            is_signer: true,
            is_writable: false,
        })
        .collect();
    let instruction =
        Instruction { program_id: PubkeyWrapper([7u8; 32]), accounts, data: vec![] };
    let message = solana_program::message::Message::new_with_blockhash(
        &[solana(&instruction)],
        Some(&solana_program::pubkey::Pubkey::new_from_array(payer.pubkey().0)),
        &solana_program::hash::Hash::new_from_array(BLOCKHASH),
    );
    let theirs = Transaction::new_unsigned(message);
    let ours = assemble(vec![instruction], &payer.pubkey(), &vec![], BLOCKHASH, false).unwrap();
    assert_eq!(ours.signatures().len(), 201);
    let bytes = serialize_unsigned(&ours);
    assert_eq!(bytes[..2], [201, 1]);
    assert_eq!(bytes, bincode::serialize(&theirs).unwrap());
}

#[test]
fn confirm_reads_the_ledgers_reply() {
    assert_eq!(
        confirm(LedgerReply::Confirmed("5VERv8".to_string())),
        Ok(Receipt { id: "5VERv8".to_string() })
    );
    assert_eq!(
        confirm(LedgerReply::Rejected("insufficient funds for rent".to_string())),
        Err(Error::SubmissionFailed { cause: "insufficient funds for rent".to_string() })
    );
    assert_eq!(
        confirm(LedgerReply::Rejected(String::new())),
        Err(Error::SubmissionFailed { cause: String::new() })
    );
    assert_eq!(
        confirm(LedgerReply::Unavailable),
        Err(Error::LedgerUnavailable { call: cnft::LedgerCall::Submission })
    );
}

#[test]
fn signature_slots_are_for_the_payer_and_the_accounts_that_are_asked() {
    let (_, payer) = pair(1);
    let fee_payer = payer.pubkey();
    let reference = |i: usize, is_signer: bool, is_writable: bool| AccountRef {
        address: numbered(i),
        is_signer,
        is_writable,
    };
    let first = Instruction {
        program_id: numbered(100),
        accounts: vec![
            reference(1, false, false),
            reference(2, true, false),
            reference(3, true, true),
            reference(1, false, true),
            AccountRef { address: fee_payer, is_signer: false, is_writable: false },
        ],
        data: vec![1],
    };
    let second = Instruction {
        program_id: numbered(2),
        accounts: vec![
            reference(1, true, false),
            reference(4, false, false),
            reference(3, false, false),
            reference(100, false, false),
        ],
        data: vec![2],
    };
    let transaction =
        assemble(vec![first, second], &fee_payer, &vec![], BLOCKHASH, false).unwrap();
    let mut slots: Vec<PubkeyWrapper> = transaction.signer_keys().clone();
    assert_eq!(slots[0], fee_payer);
    slots.sort_by_key(|key| key.0);
    let mut expected = vec![fee_payer, numbered(1), numbered(2), numbered(3)];
    expected.sort_by_key(|key| key.0);
    assert_eq!(slots, expected);
    assert_eq!(transaction.signatures().len(), 4);

    let asked = vec![pair(1).1];
    let result = assemble(
        vec![Instruction { program_id: numbered(9), accounts: vec![], data: vec![] }],
        &fee_payer,
        &asked,
        BLOCKHASH,
        true,
    );
    assert_eq!(result.unwrap().signer_keys(), &vec![fee_payer]);
}
