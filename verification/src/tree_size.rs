use crate::error::Error;
use vstd::prelude::*;

verus! {

/// Depth of the tree that is created when the caller chooses none.
pub const DEFAULT_MAX_DEPTH: u32 = 14;

/// Buffer size of the tree that is created when the caller chooses none.
pub const DEFAULT_MAX_BUFFER_SIZE: u32 = 64;

/// Bytes of the header in front of the tree in a tree account: two bytes of
/// account type and version, and 54 bytes of header data.
pub const TREE_HEADER_SIZE: u64 = 56;

/// Bytes of one 32-byte node.
pub const NODE_SIZE: u64 = 32;

/// The greatest depth of a tree that the compression program can hold.
pub const MAX_TREE_DEPTH: u32 = 30;

/// The greatest buffer size of a tree that the compression program can hold.
pub const MAX_TREE_BUFFER_SIZE: u32 = 2048;

/// The pairs of depth and buffer size for which the compression program can
/// hold a tree.
pub const SUPPORTED_TREES: [(u32, u32); 34] = [
    (3, 8),
    (5, 8),
    (6, 16),
    (7, 16),
    (8, 16),
    (9, 16),
    (10, 32),
    (11, 32),
    (12, 32),
    (13, 32),
    (14, 64),
    (14, 256),
    (14, 1024),
    (14, 2048),
    (15, 64),
    (16, 64),
    (17, 64),
    (18, 64),
    (19, 64),
    (20, 64),
    (20, 256),
    (20, 1024),
    (20, 2048),
    (24, 64),
    (24, 256),
    (24, 512),
    (24, 1024),
    (24, 2048),
    (26, 512),
    (26, 1024),
    (26, 2048),
    (30, 512),
    (30, 1024),
    (30, 2048),
];

/// Whether the pair of depth and buffer size stands in the table of supported
/// trees.
pub open spec fn supported_depth_buffer(depth: u32, buffer_size: u32) -> bool {
    SUPPORTED_TREES@.contains((depth, buffer_size))
}

/// Bytes of one change-log entry of a tree of this depth: the root, one node
/// for each level, the leaf index and four bytes of padding.
pub open spec fn change_log_size(depth: nat) -> nat {
    32 + 32 * depth + 4 + 4
}

/// Bytes of the proof to the rightmost leaf of a tree of this depth: one node
/// for each level, the leaf, its index and four bytes of padding.
pub open spec fn rightmost_proof_size(depth: nat) -> nat {
    32 * depth + 32 + 4 + 4
}

/// Bytes of the tree itself: three 64-bit counters, one change-log entry for
/// each slot of the buffer, and the proof to the rightmost leaf.
pub open spec fn node_structure_size(depth: nat, buffer_size: nat) -> nat {
    24 + buffer_size * change_log_size(depth) + rightmost_proof_size(depth)
}

/// Bytes of a tree account: the header and the tree.
pub open spec fn tree_account_size(depth: nat, buffer_size: nat) -> nat {
    TREE_HEADER_SIZE as nat + node_structure_size(depth, buffer_size)
}

/// Whether the compression program can hold a tree of this depth and buffer
/// size.
pub fn is_supported_depth_buffer(depth: u32, buffer_size: u32) -> (supported: bool)
    ensures
        supported == supported_depth_buffer(depth, buffer_size),
        supported ==> depth <= MAX_TREE_DEPTH && buffer_size <= MAX_TREE_BUFFER_SIZE,
{
    let mut i: usize = 0;
    while i < 34
        invariant
            i <= 34,
            forall|j: int| 0 <= j < i ==> SUPPORTED_TREES@[j] != (depth, buffer_size),
        decreases 34 - i,
    {
        let entry = SUPPORTED_TREES[i];
        if entry.0 == depth && entry.1 == buffer_size {
            return true;
        }
        i += 1;
    }
    false
}

/// The exact size in bytes of the account that holds a tree of the given depth
/// and buffer size.
///
/// Fails with `UnsupportedDepthBuffer` exactly when the pair is not one the
/// compression program supports.
pub fn compute_tree_size(depth: u32, buffer_size: u32) -> (size: Result<u64, Error>)
    ensures
        supported_depth_buffer(depth, buffer_size) ==> size is Ok && size->Ok_0
            == tree_account_size(depth as nat, buffer_size as nat),
        !supported_depth_buffer(depth, buffer_size) ==> size == Err::<u64, Error>(
            Error::UnsupportedDepthBuffer,
        ),
{
    if !is_supported_depth_buffer(depth, buffer_size) {
        return Err(Error::UnsupportedDepthBuffer);
    }
    let levels: u64 = depth as u64;
    let slots: u64 = buffer_size as u64;
    let entry: u64 = NODE_SIZE + NODE_SIZE * levels + 8;
    assert(slots * entry <= 2048 * 1000) by (nonlinear_arith)
        requires
            slots <= 2048,
            entry <= 1000,
    ;
    Ok(TREE_HEADER_SIZE + 24 + slots * entry + entry)
}

/// The size of the account that holds a tree of the default depth and buffer
/// size.
pub fn default_tree_size() -> (size: u64)
    ensures
        size == tree_account_size(DEFAULT_MAX_DEPTH as nat, DEFAULT_MAX_BUFFER_SIZE as nat),
        size == 31800,
{
    match compute_tree_size(DEFAULT_MAX_DEPTH, DEFAULT_MAX_BUFFER_SIZE) {
        Ok(size) => size,
        Err(_) => 31800,
    }
}

/// A deeper tree, or one with a larger buffer, never needs a smaller account.
pub proof fn lemma_tree_size_monotonic(depth: nat, buffer_size: nat, deeper: nat, larger: nat)
    requires
        depth <= deeper,
        buffer_size <= larger,
    ensures
        tree_account_size(depth, buffer_size) <= tree_account_size(deeper, larger),
{
    assert(buffer_size * change_log_size(depth) <= larger * change_log_size(deeper))
        by (nonlinear_arith)
        requires
            buffer_size <= larger,
            change_log_size(depth) <= change_log_size(deeper),
    ;
}

} // verus!
