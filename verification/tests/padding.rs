use paramant::error::CoreError;
use paramant::padding::{len_suffix_cap, pad, pad_with_cap, unpad, PaddingScheme};

#[test]
fn roundtrips_and_picks_smallest_block() {
    for len in [0usize, 1, 100, 4091, 4092, 4093, 65532, 600_000] {
        let pt: Vec<u8> = (0..len).map(|i| i as u8).collect();
        let (scheme, padded) = pad(&pt).unwrap();
        assert!(padded.len() % scheme.block_size() == 0);
        assert_eq!(unpad(&padded, scheme).unwrap(), pt);
    }
    assert_eq!(PaddingScheme::select_for(0), PaddingScheme::Block4K);
    assert_eq!(PaddingScheme::select_for(4092), PaddingScheme::Block4K);
    assert_eq!(PaddingScheme::select_for(4093), PaddingScheme::Block64K);
}

#[test]
fn rejects_corrupt_suffix_and_misaligned_input() {
    let (scheme, mut padded) = pad(b"paramant").unwrap();
    let n = padded.len();
    padded[n - 4..].copy_from_slice(&u32::MAX.to_le_bytes());
    assert!(unpad(&padded, scheme).is_err());
    assert!(unpad(&padded[..n - 1], scheme).is_err());
    assert!(unpad(&[], PaddingScheme::Block4K).is_err());
}

#[test]
fn pad_rejects_plaintext_beyond_u32_suffix() {
    assert_eq!(len_suffix_cap(), u32::MAX as usize, "default cap is u32::MAX");
    let err = pad_with_cap(&[0u8; 17], 16).unwrap_err();
    assert!(matches!(err, CoreError::Padding(_)), "got {err:?}");
    let (scheme, padded) = pad_with_cap(&[7u8; 16], 16).unwrap();
    assert_eq!(unpad(&padded, scheme).unwrap(), vec![7u8; 16]);
}

#[test]
fn padded_layout_and_block_sizes() {
    let (scheme, padded) = pad(b"abc").unwrap();
    assert_eq!(scheme, PaddingScheme::Block4K);
    assert_eq!(padded.len(), 4096);
    assert_eq!(&padded[..3], b"abc");
    assert_eq!(&padded[4092..], &3u32.to_le_bytes());
    assert_eq!(PaddingScheme::Block64K.block_size(), 65536);
    assert_eq!(PaddingScheme::Block512K.block_size(), 524288);
    assert_eq!(PaddingScheme::Block5M.block_size(), 5242880);
    assert_eq!(PaddingScheme::select_for(65532), PaddingScheme::Block64K);
    assert_eq!(PaddingScheme::select_for(65533), PaddingScheme::Block512K);
    assert_eq!(PaddingScheme::select_for(524285), PaddingScheme::Block5M);
    assert!(matches!(unpad(&padded, PaddingScheme::Block64K), Err(CoreError::Padding(_))));
}

#[test]
fn large_and_multiblock_roundtrip() {
    for len in [524_285usize, 5_242_876, 6_000_000, 10_000_000] {
        let plaintext: Vec<u8> = (0..len).map(|j| (j % 251) as u8).collect();
        let (scheme, padded) = pad(&plaintext).unwrap();
        assert!(padded.len() % scheme.block_size() == 0, "alignment at len {len}");
        assert_eq!(unpad(&padded, scheme).unwrap(), plaintext, "roundtrip at len {len}");
    }
}

#[test]
fn assembled_layout_is_data_filler_length() {
    let out = paramant::padding::assemble_padded(b"abc", &[9u8; 5]);
    assert_eq!(out, vec![b'a', b'b', b'c', 9, 9, 9, 9, 9, 3, 0, 0, 0]);
}
