use apple_music_tui::artwork::{
    artwork_result, decode_hex, hex_digit, media_type_of, Artwork, ArtworkMediaType, ArtworkResult, RawArtwork,
    MAX_ARTWORK_BYTES,
};

fn raw(data: Option<&str>, too_large: bool, encoded: Option<usize>) -> RawArtwork {
    RawArtwork {
        raw_data: data.map(|d| d.to_owned()),
        missing: false,
        too_large,
        encoded_bytes: encoded,
        resolver: Some("current_track".to_owned()),
        attempts: vec!["current_track:matched".to_owned()],
        transient: false,
        reason: None,
    }
}

#[test]
fn artwork_descriptor_is_bounded_decoded_and_typed() {
    assert_eq!(
        artwork_result(Some(raw(Some("FFD8FFD9"), false, Some(4)))),
        ArtworkResult::Ready(Artwork { media_type: ArtworkMediaType::Jpeg, bytes: vec![0xff, 0xd8, 0xff, 0xd9] })
    );
    assert!(matches!(
        artwork_result(Some(raw(None, true, Some(MAX_ARTWORK_BYTES + 1)))),
        ArtworkResult::TooLarge { .. }
    ));
}

#[test]
fn hex_decoding_accepts_both_cases_and_rejects_odd_lengths() {
    assert_eq!(hex_digit(b'a'), Some(10));
    assert_eq!(hex_digit(b'F'), Some(15));
    assert_eq!(hex_digit(b'g'), None);
    assert_eq!(decode_hex(b"00fF"), Some(vec![0x00, 0xff]));
    assert_eq!(decode_hex(b"0g"), None);
    assert!(matches!(artwork_result(Some(raw(Some("abc"), false, Some(2)))), ArtworkResult::Invalid(_)));
    assert_eq!(media_type_of(&vec![0x89, 0x50, 0x4e, 0x47, 0x0d, 0x0a, 0x1a, 0x0a, 0]), ArtworkMediaType::Png);
    assert_eq!(media_type_of(&vec![0x89, 0x50]), ArtworkMediaType::Unknown);
}

#[test]
fn fingerprints_tell_media_types_and_bytes_apart() {
    let a = Artwork { media_type: ArtworkMediaType::Png, bytes: vec![1, 2, 3] };
    let b = Artwork { media_type: ArtworkMediaType::Jpeg, bytes: vec![1, 2, 3] };
    let c = Artwork { media_type: ArtworkMediaType::Png, bytes: vec![1, 2, 4] };
    assert_eq!(a.fingerprint(), a.duplicate().fingerprint());
    assert_ne!(a.fingerprint(), b.fingerprint());
    assert_ne!(a.fingerprint(), c.fingerprint());
}
