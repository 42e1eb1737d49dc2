use crate::error::{Error, LedgerCall};
use crate::instruction::{
    asks_signature, instruction_views, AccountView, Instruction, InstructionView,
};
use crate::keypair::{ed25519_signature, public_half, KeypairWrapper};
use crate::pubkey::PubkeyWrapper;
use solana_program::instruction;
use solana_program::instruction::AccountMeta;
use solana_program::message::Message;
use vstd::prelude::*;

verus! {

/// The most accounts that one message can ask a signature of.
pub const MAX_SIGNERS: usize = 255;

/// The most different accounts, payer and programs included, that one message
/// can name.
pub const MAX_ACCOUNTS: usize = 255;

/// The greatest length that the wire format can express: of the list of
/// instructions, of the accounts of one instruction, and of its payload.
pub const MAX_LENGTH: usize = 65535;

/// The ledger's message for a list of instructions, a fee payer and a recent
/// checkpoint: first the accounts that must sign it, in the order in which
/// their signatures stand in a transaction, then the message in its wire
/// format.
pub uninterp spec fn compiled_message(
    payer: Seq<u8>,
    instructions: Seq<InstructionView>,
    recent_blockhash: Seq<u8>,
) -> (Seq<Seq<u8>>, Seq<u8>);

/// The addresses that an instruction names: its program, then its accounts.
pub open spec fn instruction_keys(instruction: InstructionView) -> Seq<Seq<u8>> {
    seq![instruction.program_id] + instruction.accounts.map_values(
        |account: AccountView| account.address,
    )
}

/// The addresses that a message names, one entry for each mention: the
/// payer, then those of each instruction.
pub open spec fn referenced_keys(payer: Seq<u8>, instructions: Seq<InstructionView>) -> Seq<
    Seq<u8>,
>
    decreases instructions.len(),
{
    if instructions.len() == 0 {
        seq![payer]
    } else {
        referenced_keys(payer, instructions.drop_last()) + instruction_keys(instructions.last())
    }
}

/// Whether a list of instructions is small enough for one message: payer
/// included it names at most 255 different accounts, and neither the list
/// nor any instruction's accounts or payload is longer than 65535.
pub open spec fn message_fits(payer: Seq<u8>, instructions: Seq<InstructionView>) -> bool {
    &&& referenced_keys(payer, instructions).to_set().len() <= MAX_ACCOUNTS
    &&& instructions.len() <= MAX_LENGTH
    &&& forall|i: int|
        0 <= i < instructions.len() ==> (#[trigger] instructions[i]).accounts.len() <= MAX_LENGTH
            && instructions[i].data.len() <= MAX_LENGTH
}

/// Whether an account must sign the message: the payer must, and so must
/// every account of which an instruction asks a signature.
pub open spec fn must_sign(
    payer: Seq<u8>,
    instructions: Seq<InstructionView>,
    key: Seq<u8>,
) -> bool {
    key == payer || asks_signature(instructions, key)
}

/// The addresses that a list of identities holds.
pub open spec fn pubkey_views(keys: Seq<PubkeyWrapper>) -> Seq<Seq<u8>> {
    keys.map_values(|key: PubkeyWrapper| key@)
}

/// `Message::new_with_blockhash` of solana-program on the same instructions,
/// then `Message::signer_keys` and `Message::serialize`. The outside code
/// gives up on a list that does not fit one message, so such a list is not
/// handed to it.
/// Trusted: signers and bytes are what `compiled_message` names; there are
/// at most 255 signers; and the signers are the payer and the accounts of
/// which an instruction asks a signature, no others.
#[verifier::external_body]
fn compile_message(
    payer: &PubkeyWrapper,
    instructions: &Vec<Instruction>,
    recent_blockhash: &[u8; 32],
) -> (compiled: (Vec<PubkeyWrapper>, Vec<u8>))
    requires
        message_fits(payer@, instruction_views(instructions@)),
    ensures
        (pubkey_views(compiled.0@), compiled.1@) == compiled_message(
            payer@,
            instruction_views(instructions@),
            recent_blockhash@,
        ),
        compiled.0@.len() <= MAX_SIGNERS,
        forall|key: Seq<u8>|
            pubkey_views(compiled.0@).contains(key) <==> #[trigger] must_sign(
                payer@,
                instruction_views(instructions@),
                key,
            ),
{
    let list: Vec<_> = instructions.iter().map(|ix| instruction::Instruction {
        program_id: ix.program_id.0.into(),
        accounts: ix.accounts.iter().map(|a| AccountMeta {
            pubkey: a.address.0.into(),
            is_signer: a.is_signer,
            is_writable: a.is_writable,
        }).collect(),
        data: ix.data.clone(),
    }).collect();
    let recent = solana_program::hash::Hash::new_from_array(*recent_blockhash);
    let message = Message::new_with_blockhash(&list, Some(&payer.0.into()), &recent);
    let signers = message.signer_keys().iter().map(|key| PubkeyWrapper(key.to_bytes())).collect();
    (signers, message.serialize())
}

/// The key pairs that a list of signers holds, as bytes.
pub open spec fn keypair_views(signers: Seq<KeypairWrapper>) -> Seq<Seq<u8>> {
    signers.map_values(|signer: KeypairWrapper| signer@)
}

/// The first key pair of the list that signs for an address, if there is one.
pub open spec fn first_key(keypairs: Seq<Seq<u8>>, address: Seq<u8>) -> Option<Seq<u8>>
    decreases keypairs.len(),
{
    if keypairs.len() == 0 {
        None
    } else if public_half(keypairs[0]) == address {
        Some(keypairs[0])
    } else {
        first_key(keypairs.drop_first(), address)
    }
}

/// A signature slot that holds no signature yet: 64 zero bytes.
pub open spec fn empty_signature() -> Seq<u8> {
    Seq::new(64, |i: int| 0u8)
}

/// What stands in the signature slot of an address: the signature of the
/// first key pair that signs for it, or the empty signature.
pub open spec fn slot_signature(keypairs: Seq<Seq<u8>>, address: Seq<u8>, message: Seq<u8>) -> Seq<
    u8,
> {
    match first_key(keypairs, address) {
        Some(keypair) => ed25519_signature(keypair, message),
        None => empty_signature(),
    }
}

/// Whether every key pair signs for an account that must sign.
pub open spec fn every_signer_is_asked(
    keypairs: Seq<Seq<u8>>,
    payer: Seq<u8>,
    instructions: Seq<InstructionView>,
) -> bool {
    forall|i: int|
        0 <= i < keypairs.len() ==> must_sign(
            payer,
            instructions,
            public_half(#[trigger] keypairs[i]),
        )
}

/// Whether every account that must sign has a key pair.
pub open spec fn every_slot_has_key(
    keypairs: Seq<Seq<u8>>,
    payer: Seq<u8>,
    instructions: Seq<InstructionView>,
) -> bool {
    forall|key: Seq<u8>| #[trigger]
        must_sign(payer, instructions, key) ==> first_key(keypairs, key) is Some
}

/// What a transaction says, over sequences.
pub ghost struct TransactionView {
    pub fee_payer: Seq<u8>,
    pub instructions: Seq<InstructionView>,
    pub recent_blockhash: Seq<u8>,
    pub signer_keys: Seq<Seq<u8>>,
    pub signatures: Seq<Seq<u8>>,
    pub message: Seq<u8>,
}

/// The transaction that is assembled from these parts, or the reason why
/// there is none.
///
/// The instructions stay in the order given. Each account that must sign has
/// one signature slot, in the message's order; the slot of an account without
/// a key pair stays empty. A transaction that is to be submitted as it is
/// needs the key pair of the fee payer and of every other account that must
/// sign. Whether there is a transaction depends on the instructions, the fee
/// payer and the key pairs alone.
pub open spec fn assembled(
    instructions: Seq<InstructionView>,
    fee_payer: Seq<u8>,
    keypairs: Seq<Seq<u8>>,
    recent_blockhash: Seq<u8>,
    self_submit: bool,
) -> Result<TransactionView, Error> {
    let compiled = compiled_message(fee_payer, instructions, recent_blockhash);
    if !message_fits(fee_payer, instructions) {
        Err(Error::TransactionTooLarge)
    } else if !every_signer_is_asked(keypairs, fee_payer, instructions) {
        Err(Error::UnexpectedSigner)
    } else if self_submit && !every_slot_has_key(keypairs, fee_payer, instructions) {
        Err(Error::MissingSigner)
    } else {
        Ok(
            TransactionView {
                fee_payer,
                instructions,
                recent_blockhash,
                signer_keys: compiled.0,
                signatures: Seq::new(
                    compiled.0.len(),
                    |j: int| slot_signature(keypairs, compiled.0[j], compiled.1),
                ),
                message: compiled.1,
            },
        )
    }
}

/// An ordered list of instructions with its fee payer, its recent checkpoint,
/// the compiled message and one signature slot for each account that must
/// sign.
pub struct Transaction {
    fee_payer: PubkeyWrapper,
    instructions: Vec<Instruction>,
    recent_blockhash: [u8; 32],
    signer_keys: Vec<PubkeyWrapper>,
    signatures: Vec<[u8; 64]>,
    message: Vec<u8>,
}

/// The byte strings that a list of signatures holds.
pub open spec fn signature_views(signatures: Seq<[u8; 64]>) -> Seq<Seq<u8>> {
    signatures.map_values(|signature: [u8; 64]| signature@)
}

impl View for Transaction {
    type V = TransactionView;

    closed spec fn view(&self) -> TransactionView {
        TransactionView {
            fee_payer: self.fee_payer@,
            instructions: instruction_views(self.instructions@),
            recent_blockhash: self.recent_blockhash@,
            signer_keys: pubkey_views(self.signer_keys@),
            signatures: signature_views(self.signatures@),
            message: self.message@,
        }
    }
}

impl Transaction {
    #[verifier::type_invariant]
    spec fn slots_match_signers(self) -> bool {
        &&& self.signatures@.len() == self.signer_keys@.len()
        &&& self.signer_keys@.len() <= MAX_SIGNERS
    }

    /// The account that pays the fee.
    pub fn fee_payer(&self) -> (key: PubkeyWrapper)
        ensures
            key@ == self@.fee_payer,
    {
        self.fee_payer
    }

    /// The instructions, in the order in which they were given.
    pub fn instructions(&self) -> (instructions: &Vec<Instruction>)
        ensures
            instruction_views(instructions@) == self@.instructions,
    {
        &self.instructions
    }

    /// The recent checkpoint that bounds the time in which the transaction is
    /// valid.
    pub fn recent_blockhash(&self) -> (hash: [u8; 32])
        ensures
            hash@ == self@.recent_blockhash,
    {
        self.recent_blockhash
    }

    /// The accounts that must sign, in the order of their signature slots.
    pub fn signer_keys(&self) -> (keys: &Vec<PubkeyWrapper>)
        ensures
            pubkey_views(keys@) == self@.signer_keys,
            keys@.len() <= MAX_SIGNERS,
    {
        proof {
            use_type_invariant(self);
        }
        &self.signer_keys
    }

    /// The signature slots, one for each account that must sign.
    pub fn signatures(&self) -> (signatures: &Vec<[u8; 64]>)
        ensures
            signature_views(signatures@) == self@.signatures,
            signatures@.len() == self@.signer_keys.len(),
            signatures@.len() <= MAX_SIGNERS,
    {
        proof {
            use_type_invariant(self);
        }
        &self.signatures
    }

    /// The message that the signatures are made over, in its wire format.
    pub fn message(&self) -> (message: &Vec<u8>)
        ensures
            message@ == self@.message,
    {
        &self.message
    }

    /// Whether no signature slot is empty.
    pub fn is_signed(&self) -> (signed: bool)
        ensures
            signed == fully_signed(self@),
    {
        let mut j: usize = 0;
        while j < self.signatures.len()
            invariant
                j <= self.signatures.len(),
                forall|k: int|
                    0 <= k < j ==> (#[trigger] self.signatures@[k])@ != empty_signature(),
            decreases self.signatures.len() - j,
        {
            if is_empty_signature(&self.signatures[j]) {
                assert(self@.signatures[j as int] == self.signatures@[j as int]@);
                return false;
            }
            j += 1;
        }
        assert forall|k: int| 0 <= k < self@.signatures.len() implies #[trigger] self@.signatures[k]
            != empty_signature() by {
            assert(self@.signatures[k] == self.signatures@[k]@);
        }
        true
    }
}

/// Whether no signature slot of a transaction is empty.
pub open spec fn fully_signed(transaction: TransactionView) -> bool {
    forall|j: int|
        0 <= j < transaction.signatures.len() ==> #[trigger] transaction.signatures[j]
            != empty_signature()
}

/// Whether a signature slot is empty.
fn is_empty_signature(signature: &[u8; 64]) -> (empty: bool)
    ensures
        empty == (signature@ == empty_signature()),
{
    let mut i: usize = 0;
    while i < 64
        invariant
            i <= 64,
            forall|k: int| 0 <= k < i ==> signature@[k] == 0,
        decreases 64 - i,
    {
        if signature[i] != 0 {
            assert(empty_signature()[i as int] == 0);
            return false;
        }
        i += 1;
    }
    assert(signature@ =~= empty_signature());
    true
}

/// The addresses that the message names, one entry for each mention.
fn collect_keys(payer: &PubkeyWrapper, instructions: &Vec<Instruction>) -> (keys: Vec<
    PubkeyWrapper,
>)
    ensures
        pubkey_views(keys@) == referenced_keys(payer@, instruction_views(instructions@)),
{
    let ghost views = instruction_views(instructions@);
    let mut keys: Vec<PubkeyWrapper> = Vec::new();
    keys.push(*payer);
    assert(views.take(0) =~= Seq::<InstructionView>::empty());
    assert(pubkey_views(keys@) =~= seq![payer@]);
    let mut i: usize = 0;
    while i < instructions.len()
        invariant
            i <= instructions.len(),
            views == instruction_views(instructions@),
            pubkey_views(keys@) == referenced_keys(payer@, views.take(i as int)),
        decreases instructions.len() - i,
    {
        let instruction = &instructions[i];
        let ghost before = pubkey_views(keys@);
        let ghost addresses = views[i as int].accounts.map_values(
            |account: AccountView| account.address,
        );
        assert(views[i as int] == instruction@);
        keys.push(instruction.program_id);
        assert(pubkey_views(keys@) =~= before + seq![instruction.program_id@]);
        let mut j: usize = 0;
        while j < instruction.accounts.len()
            invariant
                j <= instruction.accounts.len(),
                views[i as int] == instruction@,
                addresses == views[i as int].accounts.map_values(
                    |account: AccountView| account.address,
                ),
                pubkey_views(keys@) == before + seq![instruction.program_id@] + addresses.take(
                    j as int,
                ),
            decreases instruction.accounts.len() - j,
        {
            let ghost so_far = pubkey_views(keys@);
            keys.push(instruction.accounts[j].address);
            assert(addresses[j as int] == instruction.accounts@[j as int].address@);
            assert(pubkey_views(keys@) =~= so_far.push(addresses[j as int]));
            assert(addresses.take(j + 1) =~= addresses.take(j as int).push(addresses[j as int]));
            j += 1;
        }
        assert(addresses.take(j as int) =~= addresses);
        assert(views.take(i + 1).drop_last() =~= views.take(i as int));
        assert(views.take(i + 1).last() == views[i as int]);
        assert(pubkey_views(keys@) =~= before + instruction_keys(views[i as int]));
        i += 1;
    }
    assert(views.take(i as int) =~= views);
    keys
}

/// Whether an address is among those of a list.
fn is_among(keys: &Vec<PubkeyWrapper>, address: &PubkeyWrapper) -> (among: bool)
    ensures
        among == pubkey_views(keys@).contains(address@),
{
    let ghost views = pubkey_views(keys@);
    let mut j: usize = 0;
    while j < keys.len()
        invariant
            j <= keys.len(),
            views == pubkey_views(keys@),
            forall|k: int| 0 <= k < j ==> views[k] != address@,
        decreases keys.len() - j,
    {
        assert(views[j as int] == keys@[j as int]@);
        if keys[j].same_as(address) {
            return true;
        }
        j += 1;
    }
    false
}

/// Whether a list holds at most `limit` different addresses.
fn distinct_within(keys: &Vec<PubkeyWrapper>, limit: usize) -> (within: bool)
    ensures
        within == (pubkey_views(keys@).to_set().len() <= limit),
{
    broadcast use vstd::seq_lib::seq_to_set_is_finite;

    let ghost views = pubkey_views(keys@);
    let mut seen: Vec<PubkeyWrapper> = Vec::new();
    let mut i: usize = 0;
    assert(views.take(0).to_set() =~= pubkey_views(seen@).to_set());
    while i < keys.len()
        invariant
            i <= keys.len(),
            views == pubkey_views(keys@),
            seen@.len() <= limit,
            pubkey_views(seen@).no_duplicates(),
            pubkey_views(seen@).to_set() == views.take(i as int).to_set(),
        decreases keys.len() - i,
    {
        let ghost known = pubkey_views(seen@);
        assert(views[i as int] == keys@[i as int]@);
        assert(views.take(i + 1) =~= views.take(i as int).push(views[i as int]));
        proof {
            views.take(i as int).lemma_push_to_set_commute(views[i as int]);
        }
        if !is_among(&seen, &keys[i]) {
            if seen.len() == limit {
                proof {
                    known.unique_seq_to_set();
                    let more = views.take(i + 1).to_set();
                    assert(more.len() == limit + 1);
                    assert(more.subset_of(views.to_set())) by {
                        assert forall|key: Seq<u8>| more.contains(key) implies views.to_set()
                            .contains(key) by {
                            let prefix = views.take(i + 1);
                            assert(prefix.contains(key));
                            let k = choose|k: int|
                                0 <= k < prefix.len() && #[trigger] prefix[k] == key;
                            assert(views[k] == key);
                        }
                    }
                    vstd::set_lib::lemma_len_subset(more, views.to_set());
                }
                return false;
            }
            seen.push(keys[i]);
            assert(pubkey_views(seen@) =~= known.push(views[i as int]));
            proof {
                known.lemma_push_to_set_commute(views[i as int]);
            }
        } else {
            assert(known.to_set().insert(views[i as int]) =~= known.to_set());
        }
        i += 1;
    }
    assert(views.take(i as int) =~= views);
    proof {
        pubkey_views(seen@).unique_seq_to_set();
    }
    true
}

/// Whether the instructions fit one message.
fn fits_message(payer: &PubkeyWrapper, instructions: &Vec<Instruction>) -> (fits: bool)
    ensures
        fits == message_fits(payer@, instruction_views(instructions@)),
{
    let ghost views = instruction_views(instructions@);
    if instructions.len() > MAX_LENGTH {
        return false;
    }
    let mut i: usize = 0;
    while i < instructions.len()
        invariant
            i <= instructions.len(),
            views == instruction_views(instructions@),
            forall|j: int|
                0 <= j < i ==> (#[trigger] views[j]).accounts.len() <= MAX_LENGTH
                    && views[j].data.len() <= MAX_LENGTH,
        decreases instructions.len() - i,
    {
        assert(views[i as int] == instructions@[i as int]@);
        if instructions[i].accounts.len() > MAX_LENGTH || instructions[i].data.len()
            > MAX_LENGTH {
            return false;
        }
        i += 1;
    }
    let keys = collect_keys(payer, instructions);
    distinct_within(&keys, MAX_ACCOUNTS)
}

/// The position of the first key pair that signs for an address.
fn find_key(signers: &Vec<KeypairWrapper>, address: &PubkeyWrapper) -> (found: Option<usize>)
    ensures
        match first_key(keypair_views(signers@), address@) {
            Some(keypair) => found is Some && found->0 < signers@.len()
                && signers@[found->0 as int]@ == keypair,
            None => found is None,
        },
{
    let ghost keypairs = keypair_views(signers@);
    let mut i: usize = 0;
    assert(keypairs.skip(0) =~= keypairs);
    while i < signers.len()
        invariant
            i <= signers.len(),
            keypairs == keypair_views(signers@),
            first_key(keypairs, address@) == first_key(keypairs.skip(i as int), address@),
        decreases signers.len() - i,
    {
        assert(keypairs.skip(i as int)[0] == signers@[i as int]@);
        let key = signers[i].pubkey();
        if key.same_as(address) {
            return Some(i);
        }
        assert(keypairs.skip(i as int).drop_first() =~= keypairs.skip(i + 1));
        i += 1;
    }
    None
}

/// Whether every signer signs for one of the accounts that must sign.
fn signers_are_asked(
    signers: &Vec<KeypairWrapper>,
    signer_keys: &Vec<PubkeyWrapper>,
    Ghost(payer): Ghost<Seq<u8>>,
    Ghost(instructions): Ghost<Seq<InstructionView>>,
) -> (all: bool)
    requires
        forall|key: Seq<u8>|
            pubkey_views(signer_keys@).contains(key) <==> #[trigger] must_sign(
                payer,
                instructions,
                key,
            ),
    ensures
        all == every_signer_is_asked(keypair_views(signers@), payer, instructions),
{
    let ghost keypairs = keypair_views(signers@);
    let ghost keys = pubkey_views(signer_keys@);
    let mut i: usize = 0;
    while i < signers.len()
        invariant
            i <= signers.len(),
            keypairs == keypair_views(signers@),
            keys == pubkey_views(signer_keys@),
            forall|key: Seq<u8>|
                keys.contains(key) <==> #[trigger] must_sign(payer, instructions, key),
            forall|k: int|
                0 <= k < i ==> must_sign(payer, instructions, public_half(#[trigger] keypairs[k])),
        decreases signers.len() - i,
    {
        assert(keypairs[i as int] == signers@[i as int]@);
        let key = signers[i].pubkey();
        if !is_among(signer_keys, &key) {
            assert(!must_sign(payer, instructions, public_half(keypairs[i as int])));
            return false;
        }
        i += 1;
    }
    true
}

/// Composes instructions, fee payer, signers and a recent checkpoint into a
/// transaction.
///
/// The instructions keep the order in which they are given. With
/// `self_submit` the transaction is meant to be sent as it is: it is then
/// refused with `MissingSigner` unless the fee payer and every other account
/// that must sign has a key pair among the signers. Without it the slots of
/// absent signers stay empty, to be filled elsewhere. Fails with
/// `TransactionTooLarge` when the instructions do not fit one message, and
/// with `UnexpectedSigner` when a signer signs for no account of the message.
pub fn assemble(
    instructions: Vec<Instruction>,
    fee_payer: &PubkeyWrapper,
    signers: &Vec<KeypairWrapper>,
    recent_blockhash: [u8; 32],
    self_submit: bool,
) -> (transaction: Result<Transaction, Error>)
    ensures
        match assembled(
            instruction_views(instructions@),
            fee_payer@,
            keypair_views(signers@),
            recent_blockhash@,
            self_submit,
        ) {
            Ok(view) => transaction is Ok && transaction->Ok_0@ == view,
            Err(error) => transaction == Err::<Transaction, Error>(error),
        },
        transaction is Ok ==> transaction->Ok_0@.instructions == instruction_views(instructions@),
        self_submit && first_key(keypair_views(signers@), fee_payer@) is None
            ==> transaction is Err,
{
    let ghost plan = instruction_views(instructions@);
    if !fits_message(fee_payer, &instructions) {
        return Err(Error::TransactionTooLarge);
    }
    let (signer_keys, message) = compile_message(fee_payer, &instructions, &recent_blockhash);
    if !signers_are_asked(signers, &signer_keys, Ghost(fee_payer@), Ghost(plan)) {
        return Err(Error::UnexpectedSigner);
    }
    let ghost keypairs = keypair_views(signers@);
    let ghost keys = pubkey_views(signer_keys@);
    assert(must_sign(fee_payer@, plan, fee_payer@));
    let mut signatures: Vec<[u8; 64]> = Vec::new();
    let mut j: usize = 0;
    while j < signer_keys.len()
        invariant
            j <= signer_keys.len(),
            signatures@.len() == j,
            keypairs == keypair_views(signers@),
            keys == pubkey_views(signer_keys@),
            plan == instruction_views(instructions@),
            message_fits(fee_payer@, plan),
            every_signer_is_asked(keypairs, fee_payer@, plan),
            (keys, message@) == compiled_message(fee_payer@, plan, recent_blockhash@),
            forall|key: Seq<u8>|
                keys.contains(key) <==> #[trigger] must_sign(fee_payer@, plan, key),
            self_submit ==> forall|k: int|
                0 <= k < j ==> first_key(keypairs, #[trigger] keys[k]) is Some,
            forall|k: int|
                0 <= k < j ==> (#[trigger] signatures@[k])@ == slot_signature(
                    keypairs,
                    keys[k],
                    message@,
                ),
        decreases signer_keys.len() - j,
    {
        assert(keys[j as int] == signer_keys@[j as int]@);
        match find_key(signers, &signer_keys[j]) {
            Some(position) => {
                signatures.push(signers[position].sign(&message));
            },
            None => {
                if self_submit {
                    assert(keys.contains(keys[j as int]));
                    assert(must_sign(fee_payer@, plan, keys[j as int]));
                    return Err(Error::MissingSigner);
                }
                let empty: [u8; 64] = [0u8; 64];
                assert(empty@ =~= empty_signature());
                signatures.push(empty);
            },
        }
        j += 1;
    }
    assert(self_submit ==> every_slot_has_key(keypairs, fee_payer@, plan)) by {
        if self_submit {
            assert forall|key: Seq<u8>| #[trigger]
                must_sign(fee_payer@, plan, key) implies first_key(keypairs, key) is Some by {
                assert(keys.contains(key));
                let k = choose|k: int| 0 <= k < keys.len() && #[trigger] keys[k] == key;
                assert(first_key(keypairs, keys[k]) is Some);
            }
        }
    }
    let transaction = Transaction {
        fee_payer: *fee_payer,
        instructions,
        recent_blockhash,
        signer_keys,
        signatures,
        message,
    };
    assert(transaction@.signatures =~= Seq::new(
        keys.len(),
        |j: int| slot_signature(keypairs, keys[j], message@),
    ));
    Ok(transaction)
}

/// A length in the ledger's compact form: seven bits to a byte, the low bits
/// first, the high bit set on every byte but the last.
pub open spec fn compact_u16(value: nat) -> Seq<u8>
    decreases value,
{
    if value < 128 {
        seq![value as u8]
    } else {
        seq![(value % 128 + 128) as u8] + compact_u16(value / 128)
    }
}

/// Byte strings one after the other.
pub open spec fn joined(parts: Seq<Seq<u8>>) -> Seq<u8>
    decreases parts.len(),
{
    if parts.len() == 0 {
        Seq::<u8>::empty()
    } else {
        joined(parts.drop_last()) + parts.last()
    }
}

/// A transaction in the ledger's wire format: the number of signature slots
/// in compact form, the slots, and the message.
pub open spec fn wire_transaction(transaction: TransactionView) -> Seq<u8> {
    compact_u16(transaction.signatures.len()) + joined(transaction.signatures)
        + transaction.message
}

/// Appends bytes to a buffer.
fn append_bytes(buffer: &mut Vec<u8>, bytes: &[u8])
    ensures
        final(buffer)@ == old(buffer)@ + bytes@,
{
    let mut i: usize = 0;
    while i < bytes.len()
        invariant
            i <= bytes.len(),
            buffer@ == old(buffer)@ + bytes@.take(i as int),
        decreases bytes.len() - i,
    {
        buffer.push(bytes[i]);
        assert(bytes@.take(i + 1) =~= bytes@.take(i as int).push(bytes@[i as int]));
        i += 1;
    }
    assert(bytes@.take(i as int) =~= bytes@);
}

/// Writes a transaction in the wire format in which it travels to the ledger
/// or to a signer elsewhere. Empty signature slots are written as they are:
/// 64 zero bytes each.
pub fn serialize_unsigned(transaction: &Transaction) -> (bytes: Vec<u8>)
    ensures
        bytes@ == wire_transaction(transaction@),
{
    let signatures = transaction.signatures();
    let count: usize = signatures.len();
    let mut bytes: Vec<u8> = Vec::new();
    if count < 128 {
        bytes.push(count as u8);
    } else {
        bytes.push((count % 128 + 128) as u8);
        bytes.push((count / 128) as u8);
        assert(compact_u16((count / 128) as nat) =~= seq![(count / 128) as u8]);
        assert(compact_u16(count as nat) =~= seq![(count % 128 + 128) as u8] + compact_u16(
            (count / 128) as nat,
        ));
    }
    assert(bytes@ =~= compact_u16(count as nat));
    let ghost slots = signature_views(signatures@);
    let mut j: usize = 0;
    assert(slots.take(0) =~= Seq::<Seq<u8>>::empty());
    while j < signatures.len()
        invariant
            j <= signatures.len(),
            count == signatures.len(),
            slots == signature_views(signatures@),
            bytes@ == compact_u16(count as nat) + joined(slots.take(j as int)),
        decreases signatures.len() - j,
    {
        append_bytes(&mut bytes, signatures[j].as_slice());
        assert(slots.take(j + 1).drop_last() =~= slots.take(j as int));
        assert(slots.take(j + 1).last() == signatures@[j as int]@);
        j += 1;
    }
    assert(slots.take(j as int) =~= slots);
    append_bytes(&mut bytes, transaction.message().as_slice());
    bytes
}

/// What the ledger said to a submitted transaction.
#[derive(Clone, Debug, PartialEq, Eq)]
pub enum LedgerReply {
    /// The ledger could not be reached.
    Unavailable,
    /// The ledger refused the transaction, for the reason given.
    Rejected(String),
    /// The ledger executed the transaction; the text identifies it.
    Confirmed(String),
}

/// The confirmation of an executed transaction.
#[derive(Clone, Debug, PartialEq, Eq)]
pub struct Receipt {
    pub id: String,
}

/// The bytes to send for a transaction that is to be executed.
///
/// Fails with `MissingSigner` exactly when a signature slot is still empty:
/// nothing is sent before every signature is there.
pub fn submission_bytes(transaction: &Transaction) -> (bytes: Result<Vec<u8>, Error>)
    ensures
        fully_signed(transaction@) ==> bytes is Ok && bytes->Ok_0@ == wire_transaction(
            transaction@,
        ),
        !fully_signed(transaction@) ==> bytes == Err::<Vec<u8>, Error>(Error::MissingSigner),
{
    if transaction.is_signed() {
        Ok(serialize_unsigned(transaction))
    } else {
        Err(Error::MissingSigner)
    }
}

/// Reads the outcome of a submission from the ledger's reply.
///
/// A rejection fails with `SubmissionFailed` and carries the ledger's reason
/// word for word; an unreachable ledger fails with `LedgerUnavailable`.
pub fn confirm(reply: LedgerReply) -> (receipt: Result<Receipt, Error>)
    ensures
        receipt == match reply {
            LedgerReply::Unavailable => Err::<Receipt, Error>(
                Error::LedgerUnavailable { call: LedgerCall::Submission },
            ),
            LedgerReply::Rejected(cause) => Err(Error::SubmissionFailed { cause }),
            LedgerReply::Confirmed(id) => Ok(Receipt { id }),
        },
{
    match reply {
        LedgerReply::Unavailable => Err(Error::LedgerUnavailable { call: LedgerCall::Submission }),
        LedgerReply::Rejected(cause) => Err(Error::SubmissionFailed { cause }),
        LedgerReply::Confirmed(id) => Ok(Receipt { id }),
    }
}

} // verus!
