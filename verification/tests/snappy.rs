use snappy::compress;
use snappy::compress_round_trip;
use snappy::uncompress;
use snappy::Error;

#[test]
fn test_compress() {
    let input = b"Hello world!";
    let compressed = compress(input).unwrap();
    assert_eq!(uncompress(&compressed).unwrap(), input);
}

#[test]
fn empty_input_round_trips() {
    let compressed = compress(b"").unwrap();
    assert_eq!(compressed, vec![0u8]);
    assert_eq!(uncompress(&compressed).unwrap(), Vec::<u8>::new());
}

#[test]
fn garbage_input_is_rejected() {
    let r = uncompress(b"\x00\x01\x02garbage");
    assert!(matches!(r, Err(Error::InvalidInput)));
}

#[test]
fn repetitive_input_compresses_well() {
    let input = vec![b'a'; 1_000_000];
    let compressed = compress(&input).unwrap();
    assert!(compressed.len() < 100_000);
    assert_eq!(uncompress(&compressed).unwrap(), input);
}

#[test]
fn truncated_stream_is_rejected() {
    let compressed = compress(b"Hello world!").unwrap();
    let truncated = &compressed[..compressed.len() - 1];
    assert!(matches!(uncompress(truncated), Err(Error::InvalidInput)));
}

#[test]
fn compressed_length_within_declared_maximum() {
    let input = b"Hello world!";
    let max = snap::raw::max_compress_len(input.len());
    assert_eq!(max, 46);
    let compressed = compress(input).unwrap();
    assert!(compressed.len() <= max);
}

#[test]
fn compress_does_not_echo_input() {
    let input = b"Hello world!";
    let compressed = compress(input).unwrap();
    assert_ne!(compressed.as_slice(), input.as_slice());
}

#[test]
fn round_trip_helper_returns_input() {
    let r = compress_round_trip(b"The quick brown fox").unwrap();
    assert_eq!(r, b"The quick brown fox");
}

#[test]
fn error_message() {
    assert_eq!(Error::InvalidInput.message(), "Invalid input");
}
