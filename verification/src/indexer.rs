use crate::base58::base58_encoded;
use crate::error::ResolutionFault;
use crate::json::{
    as_bool, as_object, as_text, as_texts, as_unsigned, field, get_field, lookup, member,
    JsonMember, JsonValue,
};
use crate::pubkey::PubkeyWrapper;
use vstd::prelude::*;

verus! {

/// What came back from one query to the indexer.
#[derive(Debug, PartialEq, Eq)]
pub enum IndexerReply {
    /// The indexer could not be reached, or did not answer in time.
    Unavailable,
    /// The indexer answered, but not in JSON.
    Unreadable,
    /// The indexer's answer.
    Body(JsonValue),
}

/// The compression state of an asset as the indexer reports it. Hashes and
/// the tree's address are base-58 text.
#[derive(Clone, Debug, PartialEq, Eq)]
pub struct AssetState {
    pub asset_hash: String,
    pub compressed: bool,
    pub creator_hash: String,
    pub data_hash: String,
    pub eligible: bool,
    pub leaf_id: u64,
    pub seq: u64,
    pub tree: String,
}

/// What an asset state says, over sequences.
pub ghost struct AssetStateView {
    pub asset_hash: Seq<char>,
    pub compressed: bool,
    pub creator_hash: Seq<char>,
    pub data_hash: Seq<char>,
    pub eligible: bool,
    pub leaf_id: u64,
    pub seq: u64,
    pub tree: Seq<char>,
}

impl View for AssetState {
    type V = AssetStateView;

    open spec fn view(&self) -> AssetStateView {
        AssetStateView {
            asset_hash: self.asset_hash@,
            compressed: self.compressed,
            creator_hash: self.creator_hash@,
            data_hash: self.data_hash@,
            eligible: self.eligible,
            leaf_id: self.leaf_id,
            seq: self.seq,
            tree: self.tree@,
        }
    }
}

/// The path from a leaf to the root as the indexer reports it: the root it
/// claims, and the sibling nodes in the indexer's order. All are base-58 text.
#[derive(Clone, Debug, PartialEq, Eq)]
pub struct ProofPath {
    pub root: String,
    pub proof: Vec<String>,
}

/// What a proof path says, over sequences.
pub ghost struct ProofPathView {
    pub root: Seq<char>,
    pub proof: Seq<Seq<char>>,
}

impl View for ProofPath {
    type V = ProofPathView;

    open spec fn view(&self) -> ProofPathView {
        ProofPathView { root: self.root@, proof: self.proof@.map_values(|node: String| node@) }
    }
}

/// Whether a value is the query that asks the indexer's `method` about one
/// asset: an object of the members `jsonrpc`, `id`, `method` and `params`, in
/// this order, where `params` holds the asset's identifier under `id`.
pub open spec fn is_asset_query(query: JsonValue, method: Seq<char>, asset_id: Seq<char>) -> bool {
    &&& query is Object
    &&& query->Object_0@.len() == 4
    &&& query->Object_0@[0].key@ == "jsonrpc"@
    &&& as_text(Some(query->Object_0@[0].value)) == Some("2.0"@)
    &&& query->Object_0@[1].key@ == "id"@
    &&& as_text(Some(query->Object_0@[1].value)) == Some("1"@)
    &&& query->Object_0@[2].key@ == "method"@
    &&& as_text(Some(query->Object_0@[2].value)) == Some(method)
    &&& query->Object_0@[3].key@ == "params"@
    &&& query->Object_0@[3].value is Object
    &&& query->Object_0@[3].value->Object_0@.len() == 1
    &&& query->Object_0@[3].value->Object_0@[0].key@ == "id"@
    &&& as_text(Some(query->Object_0@[3].value->Object_0@[0].value)) == Some(asset_id)
}

fn text_member(key: &str, text: String) -> (entry: JsonMember)
    ensures
        entry.key@ == key@,
        as_text(Some(entry.value)) == Some(text@),
{
    JsonMember { key: key.to_owned(), value: JsonValue::Text(text) }
}

/// Builds the query that asks the indexer's `method` about one asset.
pub fn asset_query(method: &str, asset_id: &PubkeyWrapper) -> (query: JsonValue)
    ensures
        is_asset_query(query, method@, base58_encoded(asset_id@)),
{
    let mut params: Vec<JsonMember> = Vec::new();
    params.push(text_member("id", asset_id.to_base58()));
    let mut members: Vec<JsonMember> = Vec::new();
    members.push(text_member("jsonrpc", "2.0".to_owned()));
    members.push(text_member("id", "1".to_owned()));
    members.push(text_member("method", method.to_owned()));
    members.push(JsonMember { key: "params".to_owned(), value: JsonValue::Object(params) });
    JsonValue::Object(members)
}

/// Builds the query for the current state of an asset.
pub fn get_asset_query(asset_id: &PubkeyWrapper) -> (query: JsonValue)
    ensures
        is_asset_query(query, "getAsset"@, base58_encoded(asset_id@)),
{
    asset_query("getAsset", asset_id)
}

/// Builds the query for the proof path of an asset.
pub fn get_proof_query(asset_id: &PubkeyWrapper) -> (query: JsonValue)
    ensures
        is_asset_query(query, "getAssetProof"@, base58_encoded(asset_id@)),
{
    asset_query("getAssetProof", asset_id)
}

/// The asset state that the members of a compression object hold: every one
/// of the eight members must be there, with a value of its type. Members of
/// other names are passed over.
pub open spec fn asset_state_of(members: Seq<JsonMember>) -> Option<AssetStateView> {
    match (
        as_text(member(members, "asset_hash"@)),
        as_bool(member(members, "compressed"@)),
        as_text(member(members, "creator_hash"@)),
        as_text(member(members, "data_hash"@)),
        as_bool(member(members, "eligible"@)),
        as_unsigned(member(members, "leaf_id"@)),
        as_unsigned(member(members, "seq"@)),
        as_text(member(members, "tree"@)),
    ) {
        (
            Some(asset_hash),
            Some(compressed),
            Some(creator_hash),
            Some(data_hash),
            Some(eligible),
            Some(leaf_id),
            Some(seq),
            Some(tree),
        ) => Some(
            AssetStateView {
                asset_hash,
                compressed,
                creator_hash,
                data_hash,
                eligible,
                leaf_id,
                seq,
                tree,
            },
        ),
        _ => None,
    }
}

/// The proof path that the members of a result object hold: the root must be
/// a string and the proof an array of strings.
pub open spec fn proof_path_of(members: Seq<JsonMember>) -> Option<ProofPathView> {
    match (as_text(member(members, "root"@)), as_texts(member(members, "proof"@))) {
        (Some(root), Some(proof)) => Some(ProofPathView { root, proof }),
        _ => None,
    }
}

/// The compression object of an answer: the member `compression` of the
/// member `result`, if it is an object.
pub open spec fn compression_of(body: JsonValue) -> Option<Seq<JsonMember>> {
    match field(body, "result"@) {
        Some(result) => as_object(field(result, "compression"@)),
        None => None,
    }
}

/// What one answer to a state query resolves to.
pub open spec fn resolved_asset(reply: IndexerReply) -> Result<AssetStateView, ResolutionFault> {
    match reply {
        IndexerReply::Unavailable => Err(ResolutionFault::IndexerUnavailable),
        IndexerReply::Unreadable => Err(ResolutionFault::MalformedResponse),
        IndexerReply::Body(body) => match compression_of(body) {
            None => Err(ResolutionFault::AssetNotFound),
            Some(members) => match asset_state_of(members) {
                None => Err(ResolutionFault::MalformedResponse),
                Some(state) => Ok(state),
            },
        },
    }
}

/// What one answer to a proof query resolves to.
pub open spec fn resolved_proof(reply: IndexerReply) -> Result<ProofPathView, ResolutionFault> {
    match reply {
        IndexerReply::Unavailable => Err(ResolutionFault::IndexerUnavailable),
        IndexerReply::Unreadable => Err(ResolutionFault::MalformedResponse),
        IndexerReply::Body(body) => match as_object(field(body, "result"@)) {
            None => Err(ResolutionFault::AssetNotFound),
            Some(members) => match proof_path_of(members) {
                None => Err(ResolutionFault::MalformedResponse),
                Some(path) => Ok(path),
            },
        },
    }
}

/// Whether `state` is what reading the state of an asset from `reply` gives.
pub open spec fn is_asset_read(
    reply: IndexerReply,
    state: Result<AssetState, ResolutionFault>,
) -> bool {
    match resolved_asset(reply) {
        Ok(view) => state is Ok && state->Ok_0@ == view,
        Err(fault) => state == Err::<AssetState, ResolutionFault>(fault),
    }
}

/// Whether `path` is what reading a proof path from `reply` gives.
pub open spec fn is_proof_read(
    reply: IndexerReply,
    path: Result<ProofPath, ResolutionFault>,
) -> bool {
    match resolved_proof(reply) {
        Ok(view) => path is Ok && path->Ok_0@ == view,
        Err(fault) => path == Err::<ProofPath, ResolutionFault>(fault),
    }
}

fn text_of(members: &Vec<JsonMember>, key: &str) -> (text: Option<String>)
    ensures
        match as_text(member(members@, key@)) {
            Some(chars) => text is Some && text->0@ == chars,
            None => text is None,
        },
{
    match lookup(members, key) {
        Some(JsonValue::Text(text)) => Some(text.clone()),
        _ => None,
    }
}

fn bool_of(members: &Vec<JsonMember>, key: &str) -> (flag: Option<bool>)
    ensures
        flag == as_bool(member(members@, key@)),
{
    match lookup(members, key) {
        Some(JsonValue::Bool(flag)) => Some(*flag),
        _ => None,
    }
}

fn unsigned_of(members: &Vec<JsonMember>, key: &str) -> (number: Option<u64>)
    ensures
        number == as_unsigned(member(members@, key@)),
{
    match lookup(members, key) {
        Some(JsonValue::Unsigned(number)) => Some(*number),
        _ => None,
    }
}

fn texts_of(members: &Vec<JsonMember>, key: &str) -> (texts: Option<Vec<String>>)
    ensures
        match as_texts(member(members@, key@)) {
            Some(strings) => texts is Some && texts->0@.map_values(|text: String| text@)
                == strings,
            None => texts is None,
        },
{
    match lookup(members, key) {
        Some(JsonValue::Array(items)) => {
            let mut texts: Vec<String> = Vec::new();
            let mut i: usize = 0;
            while i < items.len()
                invariant
                    i <= items.len(),
                    texts@.len() == i,
                    member(members@, key@) == Some(JsonValue::Array(*items)),
                    forall|j: int| 0 <= j < i ==> #[trigger] items@[j] is Text,
                    forall|j: int| 0 <= j < i ==> #[trigger] texts@[j]@ == items@[j]->Text_0@,
                decreases items.len() - i,
            {
                match &items[i] {
                    JsonValue::Text(text) => {
                        texts.push(text.clone());
                    },
                    _ => {
                        assert(!(items@[i as int] is Text));
                        return None;
                    },
                }
                i += 1;
            }
            assert(texts@.map_values(|text: String| text@) =~= Seq::new(
                items@.len(),
                |i: int| items@[i]->Text_0@,
            ));
            Some(texts)
        },
        _ => None,
    }
}

fn read_asset_state(members: &Vec<JsonMember>) -> (state: Option<AssetState>)
    ensures
        match asset_state_of(members@) {
            Some(view) => state is Some && state->0@ == view,
            None => state is None,
        },
{
    let asset_hash = text_of(members, "asset_hash");
    let compressed = bool_of(members, "compressed");
    let creator_hash = text_of(members, "creator_hash");
    let data_hash = text_of(members, "data_hash");
    let eligible = bool_of(members, "eligible");
    let leaf_id = unsigned_of(members, "leaf_id");
    let seq = unsigned_of(members, "seq");
    let tree = text_of(members, "tree");
    match (asset_hash, compressed, creator_hash, data_hash, eligible, leaf_id, seq, tree) {
        (
            Some(asset_hash),
            Some(compressed),
            Some(creator_hash),
            Some(data_hash),
            Some(eligible),
            Some(leaf_id),
            Some(seq),
            Some(tree),
        ) => Some(
            AssetState {
                asset_hash,
                compressed,
                creator_hash,
                data_hash,
                eligible,
                leaf_id,
                seq,
                tree,
            },
        ),
        _ => None,
    }
}

/// Reads the current state of an asset from the indexer's answer.
///
/// Fails with `IndexerUnavailable` when there was no answer, with
/// `AssetNotFound` when the answer holds no compression object, and with
/// `MalformedResponse` when the answer is not JSON or the compression object
/// lacks a member or holds one of the wrong type.
pub fn get_asset(reply: &IndexerReply) -> (state: Result<AssetState, ResolutionFault>)
    ensures
        is_asset_read(*reply, state),
{
    match reply {
        IndexerReply::Unavailable => Err(ResolutionFault::IndexerUnavailable),
        IndexerReply::Unreadable => Err(ResolutionFault::MalformedResponse),
        IndexerReply::Body(body) => {
            let compression = match get_field(body, "result") {
                Some(result) => get_field(result, "compression"),
                None => None,
            };
            match compression {
                Some(JsonValue::Object(members)) => match read_asset_state(members) {
                    Some(state) => Ok(state),
                    None => Err(ResolutionFault::MalformedResponse),
                },
                _ => Err(ResolutionFault::AssetNotFound),
            }
        },
    }
}

/// Reads the proof path of an asset from the indexer's answer.
///
/// Fails with `IndexerUnavailable` when there was no answer, with
/// `AssetNotFound` when the answer holds no result object, and with
/// `MalformedResponse` when the answer is not JSON, the root is no string or
/// the proof is no array of strings. The sibling nodes keep the indexer's
/// order.
pub fn get_proof(reply: &IndexerReply) -> (path: Result<ProofPath, ResolutionFault>)
    ensures
        is_proof_read(*reply, path),
{
    match reply {
        IndexerReply::Unavailable => Err(ResolutionFault::IndexerUnavailable),
        IndexerReply::Unreadable => Err(ResolutionFault::MalformedResponse),
        IndexerReply::Body(body) => match get_field(body, "result") {
            Some(JsonValue::Object(members)) => {
                let root = text_of(members, "root");
                let proof = texts_of(members, "proof");
                match (root, proof) {
                    (Some(root), Some(proof)) => Ok(ProofPath { root, proof }),
                    _ => Err(ResolutionFault::MalformedResponse),
                }
            },
            _ => Err(ResolutionFault::AssetNotFound),
        },
    }
}

/// Reading is repeatable: two readings of the same answer give the same
/// state, or fail in the same way.
pub proof fn lemma_asset_reads_agree(
    reply: IndexerReply,
    first: Result<AssetState, ResolutionFault>,
    second: Result<AssetState, ResolutionFault>,
)
    requires
        is_asset_read(reply, first),
        is_asset_read(reply, second),
    ensures
        first is Ok <==> second is Ok,
        first is Ok ==> first->Ok_0@ == second->Ok_0@,
        first is Err ==> first == second,
{
}

/// Reading is repeatable: two readings of the same answer give the same
/// proof path, or fail in the same way.
pub proof fn lemma_proof_reads_agree(
    reply: IndexerReply,
    first: Result<ProofPath, ResolutionFault>,
    second: Result<ProofPath, ResolutionFault>,
)
    requires
        is_proof_read(reply, first),
        is_proof_read(reply, second),
    ensures
        first is Ok <==> second is Ok,
        first is Ok ==> first->Ok_0@ == second->Ok_0@,
        first is Err ==> first == second,
{
}

} // verus!
