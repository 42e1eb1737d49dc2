use vstd::prelude::*;

verus! {

/// Why a signing key could not be read from its external encoding.
#[derive(Clone, Copy, Debug, PartialEq, Eq)]
pub enum KeyFault {
    /// The text is not base 58.
    NotBase58,
    /// The key material is not exactly 64 bytes long.
    WrongLength,
    /// The 64 bytes are not a key pair: the public half does not belong to the secret half.
    RejectedKey,
}

/// Why the indexer's answer gave no asset state or proof path.
#[derive(Clone, Copy, Debug, PartialEq, Eq)]
pub enum ResolutionFault {
    /// The indexer knows no compression data for the asset.
    AssetNotFound,
    /// The indexer could not be reached, or did not answer in time.
    IndexerUnavailable,
    /// The answer does not have the expected shape.
    MalformedResponse,
}

/// Which of the two queries to the indexer did not resolve.
#[derive(Clone, Copy, Debug, PartialEq, Eq)]
pub enum IndexerQuery {
    /// The query for the current state of the asset.
    AssetState,
    /// The query for the proof path of the asset.
    AssetProof,
}

/// Which call to the ledger got no answer.
#[derive(Clone, Copy, Debug, PartialEq, Eq)]
pub enum LedgerCall {
    /// The question for the balance that keeps an account on the ledger.
    RentQuery,
    /// The question for a recent checkpoint.
    CheckpointQuery,
    /// The submission of a transaction.
    Submission,
}

/// Every way in which a build or submit call can fail.
#[derive(Clone, Debug, PartialEq, Eq)]
pub enum Error {
    /// A signing key was given in neither of the two accepted encodings.
    InvalidKeyEncoding(KeyFault),
    /// A text is not the base-58 form of a 32-byte address, or no address can be derived.
    InvalidAddress,
    /// A text is not the base-58 form of a 32-byte hash.
    MalformedHash,
    /// The tree program supports no tree of the requested depth and buffer size.
    UnsupportedDepthBuffer,
    /// Name, symbol or URI is longer than the token program allows.
    InvalidMetadata,
    /// The current state or proof of the asset could not be resolved: `query`
    /// says which of the two, `cause` why.
    AssetResolutionFailed { query: IndexerQuery, cause: ResolutionFault },
    /// The ledger could not be reached for `call`.
    LedgerUnavailable { call: LedgerCall },
    /// The ledger rejected the transaction; `cause` is the ledger's own message.
    SubmissionFailed { cause: String },
    /// An account that must sign has no key among the signers.
    MissingSigner,
    /// A key among the signers belongs to no account that must sign.
    UnexpectedSigner,
    /// The instructions name more accounts, or carry more data, than one message can hold.
    TransactionTooLarge,
    /// An answer arrived that the pending step did not ask for.
    UnexpectedEvent,
}

} // verus!
