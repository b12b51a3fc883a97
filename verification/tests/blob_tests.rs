use xraydb::blob::decompress_artifact;
use xraydb::error::XrayDbError;

/// A minimal Zstandard frame holding one raw (uncompressed) block, put
/// together by hand: magic number, a single-segment frame header with
/// a one-byte content size, and a last-block header of type raw.
fn raw_frame(payload: &[u8]) -> Vec<u8> {
    assert!(payload.len() < 256);
    let mut frame: Vec<u8> = vec![0x28, 0xB5, 0x2F, 0xFD];
    // Frame header descriptor: single-segment, one-byte frame content size.
    frame.push(0x20);
    frame.push(payload.len() as u8);
    // Block header: last block, block type raw, block size.
    let header: u32 = 1 | ((payload.len() as u32) << 3);
    frame.push((header & 0xFF) as u8);
    frame.push(((header >> 8) & 0xFF) as u8);
    frame.push(((header >> 16) & 0xFF) as u8);
    frame.extend_from_slice(payload);
    frame
}

#[test]
fn decompress_inflates_a_raw_block_frame() {
    let frame = raw_frame(b"attenuation tables");
    let out = decompress_artifact(&frame).unwrap();
    assert_eq!(out, b"attenuation tables");
    assert_ne!(out, frame);
}

#[test]
fn decompress_rejects_garbage() {
    assert!(matches!(
        decompress_artifact(&[1, 2, 3, 4]),
        Err(XrayDbError::DataError(_))
    ));
    assert!(decompress_artifact(&[]).is_err());
}

#[test]
fn decompress_is_deterministic() {
    let frame = raw_frame(b"xyz");
    let a = decompress_artifact(&frame).unwrap();
    let b = decompress_artifact(&frame).unwrap();
    assert_eq!(a, b);
}
