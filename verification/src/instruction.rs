use crate::pubkey::PubkeyWrapper;
use vstd::prelude::*;

verus! {

/// A reference to an account in an instruction: which account, whether it
/// must sign the transaction, and whether the instruction may change it.
#[derive(Clone, Copy, Debug, PartialEq, Eq)]
pub struct AccountRef {
    pub address: PubkeyWrapper,
    pub is_signer: bool,
    pub is_writable: bool,
}

/// What an account reference says, with the address as its bytes.
pub ghost struct AccountView {
    pub address: Seq<u8>,
    pub is_signer: bool,
    pub is_writable: bool,
}

impl View for AccountRef {
    type V = AccountView;

    open spec fn view(&self) -> AccountView {
        AccountView {
            address: self.address@,
            is_signer: self.is_signer,
            is_writable: self.is_writable,
        }
    }
}

/// A reference to an account that the instruction may change.
pub open spec fn writable(address: Seq<u8>, is_signer: bool) -> AccountView {
    AccountView { address, is_signer, is_writable: true }
}

/// A reference to an account that the instruction only reads.
pub open spec fn readonly(address: Seq<u8>, is_signer: bool) -> AccountView {
    AccountView { address, is_signer, is_writable: false }
}

/// One unit of execution on the ledger: the program that runs it, the
/// accounts it touches, in the order the program expects them, and its
/// payload.
#[derive(Clone, Debug, PartialEq, Eq)]
pub struct Instruction {
    pub program_id: PubkeyWrapper,
    pub accounts: Vec<AccountRef>,
    pub data: Vec<u8>,
}

/// What an instruction says, over sequences.
pub ghost struct InstructionView {
    pub program_id: Seq<u8>,
    pub accounts: Seq<AccountView>,
    pub data: Seq<u8>,
}

/// What a list of account references says.
pub open spec fn account_views(accounts: Seq<AccountRef>) -> Seq<AccountView> {
    accounts.map_values(|account: AccountRef| account@)
}

impl View for Instruction {
    type V = InstructionView;

    open spec fn view(&self) -> InstructionView {
        InstructionView {
            program_id: self.program_id@,
            accounts: account_views(self.accounts@),
            data: self.data@,
        }
    }
}

/// What a list of instructions says.
pub open spec fn instruction_views(instructions: Seq<Instruction>) -> Seq<InstructionView> {
    instructions.map_values(|instruction: Instruction| instruction@)
}

/// Whether some instruction of the list asks for this account's signature.
pub open spec fn asks_signature(instructions: Seq<InstructionView>, address: Seq<u8>) -> bool {
    exists|i: int, j: int|
        0 <= i < instructions.len() && 0 <= j < instructions[i].accounts.len()
            && #[trigger] instructions[i].accounts[j].is_signer
            && instructions[i].accounts[j].address == address
}

} // verus!
