use crate::base58::{base58_decode, base58_encode, base58_encoded, decoded_32, to_array_32};
use crate::error::Error;
use vstd::prelude::*;

verus! {

/// Address of the compressed-token program.
pub const BUBBLEGUM_PROGRAM_ID: [u8; 32] = [
    152, 139, 128, 235, 121, 53, 40, 105, 178, 36, 116, 95, 89, 221, 191, 138,
    38, 88, 202, 19, 220, 104, 129, 33, 38, 53, 28, 174, 7, 193, 165, 165,
];

/// Address of the account-compression program, which owns every tree account.
pub const COMPRESSION_PROGRAM_ID: [u8; 32] = [
    9, 42, 19, 238, 149, 196, 28, 186, 8, 166, 127, 90, 198, 126, 141, 247,
    225, 218, 17, 98, 94, 29, 100, 19, 127, 143, 79, 35, 131, 3, 127, 20,
];

/// Address of the no-op program that the compression program logs through.
pub const LOG_WRAPPER_PROGRAM_ID: [u8; 32] = [
    11, 188, 15, 192, 187, 71, 202, 47, 116, 196, 17, 46, 148, 171, 19, 207,
    163, 198, 52, 229, 220, 23, 234, 203, 3, 205, 26, 35, 205, 126, 120, 124,
];

/// Address of the system program.
pub const SYSTEM_PROGRAM_ID: [u8; 32] = [
    0, 0, 0, 0, 0, 0, 0, 0, 0, 0, 0, 0, 0, 0, 0, 0,
    0, 0, 0, 0, 0, 0, 0, 0, 0, 0, 0, 0, 0, 0, 0, 0,
];

/// A 32-byte identity of an account or signing authority on the ledger.
/// Two identities are the same when their bytes are.
#[derive(Clone, Copy, Debug, PartialEq, Eq, Hash)]
pub struct PubkeyWrapper(pub [u8; 32]);

impl View for PubkeyWrapper {
    type V = Seq<u8>;

    open spec fn view(&self) -> Seq<u8> {
        self.0@
    }
}

impl PubkeyWrapper {
    /// Reads an identity from its base-58 text.
    ///
    /// Fails with `InvalidAddress` exactly when the text is not the base-58
    /// form of 32 bytes.
    pub fn decode(text: &str) -> (key: Result<PubkeyWrapper, Error>)
        ensures
            match decoded_32(text@) {
                Some(bytes) => key is Ok && key->Ok_0@ == bytes,
                None => key == Err::<PubkeyWrapper, Error>(Error::InvalidAddress),
            },
    {
        match base58_decode(text) {
            Some(bytes) => {
                if bytes.len() == 32 {
                    Ok(PubkeyWrapper(to_array_32(&bytes)))
                } else {
                    Err(Error::InvalidAddress)
                }
            },
            None => Err(Error::InvalidAddress),
        }
    }

    /// The base-58 text of the identity.
    pub fn to_base58(&self) -> (text: String)
        ensures
            text@ == base58_encoded(self@),
    {
        base58_encode(self.0.as_slice())
    }

    /// Whether two identities are the same.
    pub fn same_as(&self, other: &PubkeyWrapper) -> (same: bool)
        ensures
            same == (self@ == other@),
    {
        let mut i: usize = 0;
        while i < 32
            invariant
                i <= 32,
                forall|j: int| 0 <= j < i ==> self.0@[j] == other.0@[j],
            decreases 32 - i,
        {
            if self.0[i] != other.0[i] {
                return false;
            }
            i += 1;
        }
        assert(self.0@ =~= other.0@);
        true
    }
}

/// Two identities with the same bytes are the same value.
pub proof fn lemma_pubkey_extensional(a: PubkeyWrapper, b: PubkeyWrapper)
    requires
        a@ == b@,
    ensures
        a == b,
{
    assert(a.0 =~= b.0);
}

} // verus!
