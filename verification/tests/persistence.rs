use mm_chain::checkpoint::{checkpoint_due, decode_checkpoint, encode_checkpoint, CheckpointImage};
use mm_chain::digest::ImageDigest;
use mm_chain::errors::RunError;

fn digest(seed: u8) -> ImageDigest {
    let bytes: Vec<u8> = (0..32).map(|i| seed.wrapping_mul(7).wrapping_add(i)).collect();
    ImageDigest::new(bytes).expect("32 bytes")
}

#[test]
fn checkpoint_roundtrip_preserves_digest_and_blob() {
    let image = CheckpointImage { blob: vec![9, 8, 7, 6, 5], digest: digest(42) };
    let encoded = encode_checkpoint(&image);
    let restored = decode_checkpoint(&encoded).expect("well-formed checkpoint");
    assert!(restored.digest.matches(&image.digest));
    assert_eq!(restored.blob, image.blob);
}

#[test]
fn checkpoint_roundtrip_with_empty_blob() {
    let image = CheckpointImage { blob: Vec::new(), digest: digest(1) };
    let encoded = encode_checkpoint(&image);
    assert_eq!(encoded.len(), 33);
    let restored = decode_checkpoint(&encoded).expect("well-formed checkpoint");
    assert!(restored.digest.matches(&image.digest));
    assert!(restored.blob.is_empty());
}

#[test]
fn checkpoint_layout_is_length_prefixed() {
    let image = CheckpointImage { blob: vec![0xAA, 0xBB], digest: digest(2) };
    let encoded = encode_checkpoint(&image);
    assert_eq!(encoded[0], 32);
    assert_eq!(&encoded[1..33], image.digest.bytes.as_slice());
    assert_eq!(&encoded[33..], &[0xAA, 0xBB]);
}

#[test]
fn checkpoint_is_due_after_each_nonfinal_batch() {
    assert!(checkpoint_due(true, 1, 3));
    assert!(checkpoint_due(true, 2, 3));
    // Nothing to persist before the first batch produced an image.
    assert!(!checkpoint_due(true, 0, 3));
    // The final batch halts the guest; the run needs no checkpoint.
    assert!(!checkpoint_due(true, 3, 3));
    // Without a resumability request nothing is ever saved.
    assert!(!checkpoint_due(false, 1, 3));
}

#[test]
fn empty_buffer_is_rejected() {
    let buf: Vec<u8> = Vec::new();
    assert!(matches!(decode_checkpoint(&buf), Err(RunError::CheckpointReadError)));
}

#[test]
fn truncated_buffer_is_rejected() {
    let image = CheckpointImage { blob: vec![1, 2, 3], digest: digest(3) };
    let mut encoded = encode_checkpoint(&image);
    encoded.truncate(20);
    assert!(matches!(decode_checkpoint(&encoded), Err(RunError::CheckpointReadError)));
}

#[test]
fn wrong_header_byte_is_rejected() {
    let image = CheckpointImage { blob: vec![1, 2, 3], digest: digest(4) };
    let mut encoded = encode_checkpoint(&image);
    encoded[0] = 16;
    assert!(matches!(decode_checkpoint(&encoded), Err(RunError::CheckpointReadError)));
}
