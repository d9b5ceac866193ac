use pyembed::payload::decompress_payload;

#[test]
fn payload_round_trips_through_zstd() {
    let archive: Vec<u8> = (0..2000u32).map(|i| (i % 251) as u8).collect();
    let packed = zstd::stream::encode_all(&archive[..], 3).unwrap();
    assert_ne!(packed, archive);
    assert_eq!(decompress_payload(&packed), Some(archive));
}

#[test]
fn garbage_payload_is_undecodable() {
    assert_eq!(decompress_payload(b"definitely not zstd"), None);
}
