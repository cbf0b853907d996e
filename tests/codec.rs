use alpaca::codec::compress;
use alpaca::codec::decompress;
use alpaca::error::Error;

#[test]
fn compress_round_trip_text() {
    let data = b"the quick brown fox jumps over the lazy dog".to_vec();
    let packed = compress(&data);
    assert_ne!(packed, data);
    assert_eq!(&packed[..2], &[0x1f, 0x8b]);
    assert_eq!(decompress(&packed).unwrap(), data);
}

#[test]
fn compress_round_trip_empty() {
    let packed = compress(&[]);
    assert!(!packed.is_empty());
    assert_eq!(decompress(&packed).unwrap(), Vec::<u8>::new());
}

#[test]
fn compress_round_trip_all_byte_values() {
    let data: Vec<u8> = (0..=255u8).cycle().take(5000).collect();
    let packed = compress(&data);
    assert_eq!(decompress(&packed).unwrap(), data);
}

#[test]
fn decompress_rejects_garbage() {
    assert_eq!(decompress(b"not a gzip stream"), Err(Error::Codec));
}

#[test]
fn decompress_rejects_truncated_stream() {
    let packed = compress(b"some bytes worth keeping");
    let cut = &packed[..packed.len() - 6];
    assert_eq!(decompress(cut), Err(Error::Codec));
}

#[test]
fn compress_never_fails_on_large_input() {
    let data = vec![7u8; 1 << 20];
    let packed = compress(&data);
    assert!(packed.len() < data.len());
    assert_eq!(decompress(&packed).unwrap(), data);
}
