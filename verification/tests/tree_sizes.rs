use cnft::{compute_tree_size, default_tree_size, is_supported_depth_buffer, Error};
use spl_account_compression::state::CONCURRENT_MERKLE_TREE_HEADER_SIZE_V1;
use spl_account_compression::ConcurrentMerkleTree;
use std::mem::size_of;

fn account_size<const DEPTH: usize, const BUFFER: usize>() -> u64 {
    (CONCURRENT_MERKLE_TREE_HEADER_SIZE_V1 + size_of::<ConcurrentMerkleTree<DEPTH, BUFFER>>())
        as u64
}

#[test]
fn default_tree_takes_31800_bytes() {
    assert_eq!(compute_tree_size(14, 64), Ok(31_800));
    assert_eq!(default_tree_size(), 31_800);
    assert_eq!(cnft::tree_size::DEFAULT_MAX_DEPTH, 14);
    assert_eq!(cnft::tree_size::DEFAULT_MAX_BUFFER_SIZE, 64);
}

#[test]
fn golden_sizes() {
    assert_eq!(compute_tree_size(3, 8), Ok(1_304));
    assert_eq!(compute_tree_size(5, 8), Ok(1_880));
    assert_eq!(compute_tree_size(14, 2048), Ok(999_992));
    assert_eq!(compute_tree_size(20, 64), Ok(44_280));
    assert_eq!(compute_tree_size(24, 64), Ok(52_600));
    assert_eq!(compute_tree_size(30, 2048), Ok(2_049_080));
}

#[test]
fn sizes_match_the_layout_of_the_tree_program_small_trees() {
    assert_eq!(compute_tree_size(3, 8), Ok(account_size::<3, 8>()));
    assert_eq!(compute_tree_size(5, 8), Ok(account_size::<5, 8>()));
    assert_eq!(compute_tree_size(6, 16), Ok(account_size::<6, 16>()));
    assert_eq!(compute_tree_size(7, 16), Ok(account_size::<7, 16>()));
    assert_eq!(compute_tree_size(8, 16), Ok(account_size::<8, 16>()));
    assert_eq!(compute_tree_size(9, 16), Ok(account_size::<9, 16>()));
    assert_eq!(compute_tree_size(10, 32), Ok(account_size::<10, 32>()));
    assert_eq!(compute_tree_size(11, 32), Ok(account_size::<11, 32>()));
    assert_eq!(compute_tree_size(12, 32), Ok(account_size::<12, 32>()));
    assert_eq!(compute_tree_size(13, 32), Ok(account_size::<13, 32>()));
}

#[test]
fn sizes_match_the_layout_of_the_tree_program_depth_14_to_20() {
    assert_eq!(compute_tree_size(14, 64), Ok(account_size::<14, 64>()));
    assert_eq!(compute_tree_size(14, 256), Ok(account_size::<14, 256>()));
    assert_eq!(compute_tree_size(14, 1024), Ok(account_size::<14, 1024>()));
    assert_eq!(compute_tree_size(14, 2048), Ok(account_size::<14, 2048>()));
    assert_eq!(compute_tree_size(15, 64), Ok(account_size::<15, 64>()));
    assert_eq!(compute_tree_size(16, 64), Ok(account_size::<16, 64>()));
    assert_eq!(compute_tree_size(17, 64), Ok(account_size::<17, 64>()));
    assert_eq!(compute_tree_size(18, 64), Ok(account_size::<18, 64>()));
    assert_eq!(compute_tree_size(19, 64), Ok(account_size::<19, 64>()));
    assert_eq!(compute_tree_size(20, 64), Ok(account_size::<20, 64>()));
    assert_eq!(compute_tree_size(20, 256), Ok(account_size::<20, 256>()));
    assert_eq!(compute_tree_size(20, 1024), Ok(account_size::<20, 1024>()));
    assert_eq!(compute_tree_size(20, 2048), Ok(account_size::<20, 2048>()));
}

#[test]
fn sizes_match_the_layout_of_the_tree_program_deep_trees() {
    assert_eq!(compute_tree_size(24, 64), Ok(account_size::<24, 64>()));
    assert_eq!(compute_tree_size(24, 256), Ok(account_size::<24, 256>()));
    assert_eq!(compute_tree_size(24, 512), Ok(account_size::<24, 512>()));
    assert_eq!(compute_tree_size(24, 1024), Ok(account_size::<24, 1024>()));
    assert_eq!(compute_tree_size(24, 2048), Ok(account_size::<24, 2048>()));
    assert_eq!(compute_tree_size(26, 512), Ok(account_size::<26, 512>()));
    assert_eq!(compute_tree_size(26, 1024), Ok(account_size::<26, 1024>()));
    assert_eq!(compute_tree_size(26, 2048), Ok(account_size::<26, 2048>()));
    assert_eq!(compute_tree_size(30, 512), Ok(account_size::<30, 512>()));
    assert_eq!(compute_tree_size(30, 1024), Ok(account_size::<30, 1024>()));
    assert_eq!(compute_tree_size(30, 2048), Ok(account_size::<30, 2048>()));
}

#[test]
fn exactly_thirty_four_pairs_are_supported() {
    let mut supported = 0;
    for depth in 0u32..=40 {
        for buffer in 0u32..=4096 {
            let known = is_supported_depth_buffer(depth, buffer);
            assert_eq!(compute_tree_size(depth, buffer).is_ok(), known);
            if known {
                supported += 1;
            } else {
                assert_eq!(
                    compute_tree_size(depth, buffer),
                    Err(Error::UnsupportedDepthBuffer)
                );
            }
        }
    }
    assert_eq!(supported, 34);
}

#[test]
fn unsupported_pairs_are_rejected() {
    for (depth, buffer) in [
        (0, 0),
        (4, 8),
        (3, 16),
        (14, 512),
        (15, 256),
        (21, 64),
        (26, 64),
        (26, 256),
        (30, 64),
        (30, 4096),
        (31, 2048),
        (u32::MAX, u32::MAX),
    ] {
        assert!(!is_supported_depth_buffer(depth, buffer));
        assert_eq!(compute_tree_size(depth, buffer), Err(Error::UnsupportedDepthBuffer));
    }
}

#[test]
fn size_is_the_same_on_every_call() {
    assert_eq!(compute_tree_size(20, 256), compute_tree_size(20, 256));
}
