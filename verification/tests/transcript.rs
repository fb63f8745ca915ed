use verdant_protocol::auth::challenge::Transcript;

#[test]
fn transcript_base64_roundtrip() {
    let data = b"test transcript data".to_vec();
    let t = Transcript::new(data.clone());

    let encoded = t.to_string();
    let decoded: Transcript = encoded.parse().unwrap();

    assert_eq!(t, decoded);
    assert_eq!(decoded.as_bytes(), data.as_slice());
}

#[test]
fn transcript_bincode_roundtrip() {
    let data = vec![1u8, 2, 3, 4, 5, 6];
    let original = Transcript::new(data.clone());

    let encoded =
        bincode::encode_to_vec(original.as_bytes().to_vec(), bincode::config::standard()).unwrap();
    let mut by_the_codec = Vec::new();
    verdant_protocol::codec::put_bytes(&mut by_the_codec, original.as_bytes());
    assert_eq!(encoded, by_the_codec);
    let (decoded, _) = bincode::decode_from_slice::<Vec<u8>, bincode::config::Configuration>(
        &encoded,
        bincode::config::standard(),
    )
    .unwrap();
    let decoded = Transcript::new(decoded);

    assert_eq!(original, decoded);
    assert_eq!(decoded.as_bytes(), data.as_slice());
}
