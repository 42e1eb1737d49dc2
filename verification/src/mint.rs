use crate::error::Error;
use crate::instruction::{
    asks_signature, readonly, writable, AccountRef, Instruction, InstructionView,
};
use crate::pda::{asset_address, derive_asset_id, derive_tree_config, tree_config_address};
use crate::pubkey::{
    PubkeyWrapper, BUBBLEGUM_PROGRAM_ID, COMPRESSION_PROGRAM_ID, LOG_WRAPPER_PROGRAM_ID,
    SYSTEM_PROGRAM_ID,
};
use mpl_bubblegum::instructions::MintV1Builder;
use mpl_bubblegum::types;
use mpl_bubblegum::types::MetadataArgs;
use vstd::bytes::{spec_u16_to_le_bytes, spec_u32_to_le_bytes};
use vstd::prelude::*;
use vstd::utf8::encode_utf8;

verus! {

/// The first eight bytes of the payload that mints a token.
pub const MINT_DISCRIMINATOR: [u8; 8] = [145, 98, 192, 118, 184, 147, 118, 104];

/// The longest name the token program accepts, in bytes.
pub const MAX_NAME_LENGTH: usize = 32;

/// The longest symbol the token program accepts, in bytes.
pub const MAX_SYMBOL_LENGTH: usize = 10;

/// The longest URI the token program accepts, in bytes.
pub const MAX_URI_LENGTH: usize = 200;

/// The share of the royalties that goes to the single creator of a minted
/// token, in percent.
pub const SOLE_CREATOR_SHARE: u8 = 100;

/// The kind of token that a leaf stands for.
#[derive(Clone, Copy, Debug, PartialEq, Eq)]
pub enum TokenStandard {
    NonFungible,
    FungibleAsset,
    Fungible,
    NonFungibleEdition,
}

/// The version of the token program that a leaf would be decompressed to.
#[derive(Clone, Copy, Debug, PartialEq, Eq)]
pub enum TokenProgramVersion {
    Original,
    Token2022,
}

/// One creator of a token, with the percentage of the royalties that is theirs.
#[derive(Clone, Copy, Debug, PartialEq, Eq)]
pub struct Creator {
    pub address: PubkeyWrapper,
    pub verified: bool,
    pub share: u8,
}

/// What a creator entry says, with the address as its bytes.
pub ghost struct CreatorView {
    pub address: Seq<u8>,
    pub verified: bool,
    pub share: u8,
}

impl View for Creator {
    type V = CreatorView;

    open spec fn view(&self) -> CreatorView {
        CreatorView { address: self.address@, verified: self.verified, share: self.share }
    }
}

/// The metadata of a token as it is handed to the token program. A token made
/// here has no edition nonce, no collection and no uses.
#[derive(Clone, Debug, PartialEq, Eq)]
pub struct Metadata {
    pub name: String,
    pub symbol: String,
    pub uri: String,
    pub seller_fee_basis_points: u16,
    pub primary_sale_happened: bool,
    pub is_mutable: bool,
    pub token_standard: Option<TokenStandard>,
    pub token_program_version: TokenProgramVersion,
    pub creators: Vec<Creator>,
}

/// What a metadata value says, over sequences.
pub ghost struct MetadataView {
    pub name: Seq<char>,
    pub symbol: Seq<char>,
    pub uri: Seq<char>,
    pub seller_fee_basis_points: u16,
    pub primary_sale_happened: bool,
    pub is_mutable: bool,
    pub token_standard: Option<TokenStandard>,
    pub token_program_version: TokenProgramVersion,
    pub creators: Seq<CreatorView>,
}

impl View for Metadata {
    type V = MetadataView;

    open spec fn view(&self) -> MetadataView {
        MetadataView {
            name: self.name@,
            symbol: self.symbol@,
            uri: self.uri@,
            seller_fee_basis_points: self.seller_fee_basis_points,
            primary_sale_happened: self.primary_sale_happened,
            is_mutable: self.is_mutable,
            token_standard: self.token_standard,
            token_program_version: self.token_program_version,
            creators: self.creators@.map_values(|creator: Creator| creator@),
        }
    }
}

/// A text in the token program's wire format: the number of its UTF-8 bytes
/// as a little-endian 32-bit number, then the bytes.
pub open spec fn wire_text(text: Seq<char>) -> Seq<u8> {
    spec_u32_to_le_bytes(encode_utf8(text).len() as u32) + encode_utf8(text)
}

/// A truth value in the wire format: one byte, 1 or 0.
pub open spec fn wire_bool(value: bool) -> Seq<u8> {
    seq![if value { 1u8 } else { 0u8 }]
}

/// An optional token standard in the wire format: a zero byte for none, else
/// a one byte and the number of the variant.
pub open spec fn wire_token_standard(standard: Option<TokenStandard>) -> Seq<u8> {
    match standard {
        None => seq![0u8],
        Some(TokenStandard::NonFungible) => seq![1u8, 0u8],
        Some(TokenStandard::FungibleAsset) => seq![1u8, 1u8],
        Some(TokenStandard::Fungible) => seq![1u8, 2u8],
        Some(TokenStandard::NonFungibleEdition) => seq![1u8, 3u8],
    }
}

/// A token program version in the wire format: the number of the variant.
pub open spec fn wire_token_program_version(version: TokenProgramVersion) -> Seq<u8> {
    match version {
        TokenProgramVersion::Original => seq![0u8],
        TokenProgramVersion::Token2022 => seq![1u8],
    }
}

/// A creator in the wire format: the address, the verified flag and the share.
pub open spec fn wire_creator(creator: CreatorView) -> Seq<u8> {
    creator.address + wire_bool(creator.verified) + seq![creator.share]
}

/// The creators of a list in the wire format, one after the other.
pub open spec fn wire_creator_entries(creators: Seq<CreatorView>) -> Seq<u8>
    decreases creators.len(),
{
    if creators.len() == 0 {
        Seq::<u8>::empty()
    } else {
        wire_creator_entries(creators.drop_last()) + wire_creator(creators.last())
    }
}

/// Metadata in the wire format: the three texts, the royalty as a
/// little-endian 16-bit number, the two flags, a zero byte for the absent
/// edition nonce, the token standard, a zero byte each for the absent
/// collection and uses, the token program version, and the creators behind
/// their number as a little-endian 32-bit number.
pub open spec fn wire_metadata(metadata: MetadataView) -> Seq<u8> {
    wire_text(metadata.name) + wire_text(metadata.symbol) + wire_text(metadata.uri)
        + spec_u16_to_le_bytes(metadata.seller_fee_basis_points) + wire_bool(
        metadata.primary_sale_happened,
    ) + wire_bool(metadata.is_mutable) + seq![0u8] + wire_token_standard(metadata.token_standard)
        + seq![0u8, 0u8] + wire_token_program_version(metadata.token_program_version)
        + spec_u32_to_le_bytes(metadata.creators.len() as u32) + wire_creator_entries(
        metadata.creators,
    )
}

/// Whether every length in the metadata can be written as a 32-bit number.
pub open spec fn wire_lengths_fit(metadata: MetadataView) -> bool {
    &&& encode_utf8(metadata.name).len() <= u32::MAX
    &&& encode_utf8(metadata.symbol).len() <= u32::MAX
    &&& encode_utf8(metadata.uri).len() <= u32::MAX
    &&& metadata.creators.len() <= u32::MAX
}

#[verifier::external_type_specification]
#[verifier::external_body]
pub struct ExMetadataArgs(MetadataArgs);

/// The bytes that the token program's own metadata value is serialized to;
/// `None` for one that holds a length which no 32-bit number can express.
pub uninterp spec fn metadata_encoding(args: MetadataArgs) -> Option<Seq<u8>>;

/// Builds the `MetadataArgs` of mpl-bubblegum that holds the same fields,
/// without edition nonce, collection or uses.
/// Trusted: its serialization is the wire format of those fields, where the
/// lengths fit, and fails where one does not.
#[verifier::external_body]
fn bubblegum_metadata(metadata: Metadata) -> (args: MetadataArgs)
    ensures
        metadata_encoding(args) == if wire_lengths_fit(metadata@) {
            Some(wire_metadata(metadata@))
        } else {
            None::<Seq<u8>>
        },
{
    MetadataArgs {
        name: metadata.name, symbol: metadata.symbol, uri: metadata.uri, edition_nonce: None,
        seller_fee_basis_points: metadata.seller_fee_basis_points, collection: None, uses: None,
        primary_sale_happened: metadata.primary_sale_happened, is_mutable: metadata.is_mutable,
        token_standard: metadata.token_standard.map(|standard| match standard {
            TokenStandard::NonFungible => types::TokenStandard::NonFungible,
            TokenStandard::FungibleAsset => types::TokenStandard::FungibleAsset,
            TokenStandard::Fungible => types::TokenStandard::Fungible,
            TokenStandard::NonFungibleEdition => types::TokenStandard::NonFungibleEdition }),
        token_program_version: match metadata.token_program_version {
            TokenProgramVersion::Original => types::TokenProgramVersion::Original,
            TokenProgramVersion::Token2022 => types::TokenProgramVersion::Token2022 },
        creators: metadata.creators.iter().map(|c| types::Creator {
            address: c.address.0.into(), verified: c.verified, share: c.share }).collect(),
    }
}

/// The token program's instruction that mints a leaf into a tree. The payer
/// and the tree's creator or delegate sign. The payload is the discriminator
/// and the metadata in the wire format.
pub open spec fn mint_instruction(
    tree_config: Seq<u8>,
    leaf_owner: Seq<u8>,
    leaf_delegate: Seq<u8>,
    merkle_tree: Seq<u8>,
    payer: Seq<u8>,
    tree_creator_or_delegate: Seq<u8>,
    metadata: Seq<u8>,
) -> InstructionView {
    InstructionView {
        program_id: BUBBLEGUM_PROGRAM_ID@,
        accounts: seq![
            writable(tree_config, false),
            readonly(leaf_owner, false),
            readonly(leaf_delegate, false),
            writable(merkle_tree, false),
            readonly(payer, true),
            readonly(tree_creator_or_delegate, true),
            readonly(LOG_WRAPPER_PROGRAM_ID@, false),
            readonly(COMPRESSION_PROGRAM_ID@, false),
            readonly(SYSTEM_PROGRAM_ID@, false),
        ],
        data: MINT_DISCRIMINATOR@ + metadata,
    }
}

/// `MintV1Builder` of mpl-bubblegum, with the six accounts and the metadata
/// set and everything else left at its default.
/// Trusted: program, accounts and payload are those of `mint_instruction`,
/// the metadata in its serialized form.
#[verifier::external_body]
fn bubblegum_mint(
    tree_config: &PubkeyWrapper,
    leaf_owner: &PubkeyWrapper,
    leaf_delegate: &PubkeyWrapper,
    merkle_tree: &PubkeyWrapper,
    payer: &PubkeyWrapper,
    tree_creator_or_delegate: &PubkeyWrapper,
    args: MetadataArgs,
) -> (instruction: Instruction)
    requires
        metadata_encoding(args) is Some,
    ensures
        instruction@ == mint_instruction(
            tree_config@,
            leaf_owner@,
            leaf_delegate@,
            merkle_tree@,
            payer@,
            tree_creator_or_delegate@,
            metadata_encoding(args)->0,
        ),
{
    let ix = MintV1Builder::new()
        .tree_config(tree_config.0.into()).merkle_tree(merkle_tree.0.into())
        .leaf_owner(leaf_owner.0.into()).leaf_delegate(leaf_delegate.0.into())
        .payer(payer.0.into()).tree_creator_or_delegate(tree_creator_or_delegate.0.into())
        .metadata(args)
        .instruction();
    Instruction {
        program_id: PubkeyWrapper(ix.program_id.to_bytes()),
        accounts: ix.accounts.iter().map(|m| AccountRef {
            address: PubkeyWrapper(m.pubkey.to_bytes()),
            is_signer: m.is_signer,
            is_writable: m.is_writable,
        }).collect(),
        data: ix.data,
    }
}

/// Whether name, symbol and URI are within the token program's limits.
pub open spec fn metadata_within_limits(
    name: Seq<char>,
    symbol: Seq<char>,
    uri: Seq<char>,
) -> bool {
    &&& encode_utf8(name).len() <= MAX_NAME_LENGTH
    &&& encode_utf8(symbol).len() <= MAX_SYMBOL_LENGTH
    &&& encode_utf8(uri).len() <= MAX_URI_LENGTH
}

/// The metadata of every token minted here: the owner is its only creator,
/// unverified and with the whole share; the token is non-fungible, of the
/// first version of the token program, and not yet sold.
pub open spec fn minted_metadata(
    name: Seq<char>,
    symbol: Seq<char>,
    uri: Seq<char>,
    seller_fee_basis_points: u16,
    is_mutable: bool,
    owner: Seq<u8>,
) -> MetadataView {
    MetadataView {
        name,
        symbol,
        uri,
        seller_fee_basis_points,
        primary_sale_happened: false,
        is_mutable,
        token_standard: Some(TokenStandard::NonFungible),
        token_program_version: TokenProgramVersion::Original,
        creators: seq![
            CreatorView { address: owner, verified: false, share: SOLE_CREATOR_SHARE },
        ],
    }
}

/// The instruction that mints a token and the identifier the token will have,
/// or the reason why there is none.
///
/// The owner is also the leaf's delegate, and the payer acts as the tree's
/// creator.
pub open spec fn mint_plan(
    tree: Seq<u8>,
    owner: Seq<u8>,
    payer: Seq<u8>,
    name: Seq<char>,
    symbol: Seq<char>,
    uri: Seq<char>,
    seller_fee_basis_points: u16,
    is_mutable: bool,
    nonce: u64,
) -> Result<(InstructionView, Seq<u8>), Error> {
    if !metadata_within_limits(name, symbol, uri) {
        Err(Error::InvalidMetadata)
    } else {
        match (tree_config_address(tree), asset_address(tree, nonce)) {
            (Some(tree_config), Some(asset)) => Ok(
                (
                    mint_instruction(
                        tree_config,
                        owner,
                        owner,
                        tree,
                        payer,
                        payer,
                        wire_metadata(
                            minted_metadata(
                                name,
                                symbol,
                                uri,
                                seller_fee_basis_points,
                                is_mutable,
                                owner,
                            ),
                        ),
                    ),
                    asset,
                ),
            ),
            _ => Err(Error::InvalidAddress),
        }
    }
}

/// Builds the instruction that mints a token into a tree, and computes the
/// identifier that the token will have at leaf `nonce`.
///
/// The nonce only serves to derive the identifier: whether it is the tree's
/// next leaf is for the token program to check. Fails with `InvalidMetadata`
/// when name, symbol or URI is longer than the token program allows, and with
/// `InvalidAddress` when no configuration address or no identifier can be
/// derived.
pub fn mint_v1(
    tree: &PubkeyWrapper,
    owner: &PubkeyWrapper,
    payer: &PubkeyWrapper,
    name: String,
    symbol: String,
    uri: String,
    seller_fee_basis_points: u16,
    is_mutable: bool,
    nonce: u64,
) -> (minted: Result<(Instruction, PubkeyWrapper), Error>)
    ensures
        match mint_plan(
            tree@,
            owner@,
            payer@,
            name@,
            symbol@,
            uri@,
            seller_fee_basis_points,
            is_mutable,
            nonce,
        ) {
            Ok(plan) => minted is Ok && minted->Ok_0.0@ == plan.0 && minted->Ok_0.1@ == plan.1,
            Err(error) => minted == Err::<(Instruction, PubkeyWrapper), Error>(error),
        },
{
    if name.as_str().as_bytes().len() > MAX_NAME_LENGTH || symbol.as_str().as_bytes().len()
        > MAX_SYMBOL_LENGTH || uri.as_str().as_bytes().len() > MAX_URI_LENGTH {
        return Err(Error::InvalidMetadata);
    }
    let tree_config = match derive_tree_config(tree) {
        Ok(address) => address,
        Err(error) => { return Err(error); },
    };
    let asset = match derive_asset_id(tree, nonce) {
        Ok(address) => address,
        Err(error) => { return Err(error); },
    };
    let mut creators: Vec<Creator> = Vec::new();
    creators.push(Creator { address: *owner, verified: false, share: SOLE_CREATOR_SHARE });
    let metadata = Metadata {
        name,
        symbol,
        uri,
        seller_fee_basis_points,
        primary_sale_happened: false,
        is_mutable,
        token_standard: Some(TokenStandard::NonFungible),
        token_program_version: TokenProgramVersion::Original,
        creators,
    };
    assert(metadata@.creators =~= seq![
        CreatorView { address: owner@, verified: false, share: SOLE_CREATOR_SHARE },
    ]);
    assert(metadata@ == minted_metadata(
        name@,
        symbol@,
        uri@,
        seller_fee_basis_points,
        is_mutable,
        owner@,
    ));
    let args = bubblegum_metadata(metadata);
    let instruction = bubblegum_mint(&tree_config, owner, owner, tree, payer, payer, args);
    Ok((instruction, asset))
}

/// The instruction that mints a token asks for the signature of the payer,
/// and of nobody else.
pub proof fn lemma_mint_is_signed_by_payer_alone(
    tree: Seq<u8>,
    owner: Seq<u8>,
    payer: Seq<u8>,
    name: Seq<char>,
    symbol: Seq<char>,
    uri: Seq<char>,
    seller_fee_basis_points: u16,
    is_mutable: bool,
    nonce: u64,
    address: Seq<u8>,
)
    requires
        mint_plan(tree, owner, payer, name, symbol, uri, seller_fee_basis_points, is_mutable, nonce)
            is Ok,
    ensures
        asks_signature(
            seq![
                mint_plan(
                    tree,
                    owner,
                    payer,
                    name,
                    symbol,
                    uri,
                    seller_fee_basis_points,
                    is_mutable,
                    nonce,
                )->Ok_0.0,
            ],
            address,
        ) <==> address == payer,
{
    let plan = seq![
        mint_plan(
            tree,
            owner,
            payer,
            name,
            symbol,
            uri,
            seller_fee_basis_points,
            is_mutable,
            nonce,
        )->Ok_0.0,
    ];
    assert(plan[0].accounts[4].is_signer && plan[0].accounts[4].address == payer);
}

/// The identifier that a mint reports is the one derived from the tree and
/// the nonce, whatever the metadata.
pub proof fn lemma_mint_reports_the_derived_asset_id(
    tree: Seq<u8>,
    owner: Seq<u8>,
    payer: Seq<u8>,
    name: Seq<char>,
    symbol: Seq<char>,
    uri: Seq<char>,
    seller_fee_basis_points: u16,
    is_mutable: bool,
    nonce: u64,
)
    requires
        mint_plan(tree, owner, payer, name, symbol, uri, seller_fee_basis_points, is_mutable, nonce)
            is Ok,
    ensures
        asset_address(tree, nonce) == Some(
            mint_plan(
                tree,
                owner,
                payer,
                name,
                symbol,
                uri,
                seller_fee_basis_points,
                is_mutable,
                nonce,
            )->Ok_0.1,
        ),
{
}

} // verus!
