use dataverse_heavy_uploader::services::hashing::{sha256_hex, Sha256Stream};

#[test]
fn sha256_of_abc_is_the_known_digest() {
    assert_eq!(
        sha256_hex(b"abc"),
        "ba7816bf8f01cfea414140de5dae2223b00361a396177a9cb410ff61f20015ad"
    );
}

#[test]
fn sha256_of_nothing_is_the_known_digest() {
    assert_eq!(
        sha256_hex(b""),
        "e3b0c44298fc1c149afbf4c8996fb92427ae41e4649b934ca495991b7852b855"
    );
    assert_eq!(Sha256Stream::new().finish_hex(), sha256_hex(b""));
}

#[test]
fn chunked_checksum_equals_whole_checksum() {
    let data: Vec<u8> = (0..200_000_u32).map(|i| (i % 251) as u8).collect();
    let mut stream = Sha256Stream::new();
    for chunk in data.chunks(65_536) {
        stream.update(chunk);
    }
    let chunked = stream.finish_hex();
    assert_eq!(chunked, sha256_hex(&data));
    assert_eq!(chunked.len(), 64);
    assert!(chunked.chars().all(|c| c.is_ascii_hexdigit() && !c.is_ascii_uppercase()));
}
