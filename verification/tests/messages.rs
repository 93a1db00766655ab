use audio_convert_rs::messages::AudioFormat;

#[test]
fn numbers_round_trip() {
    for format in [
        AudioFormat::Unspecified,
        AudioFormat::Mp3,
        AudioFormat::M4a,
        AudioFormat::Ulaw,
    ] {
        assert_eq!(AudioFormat::from_number(format.number()), Some(format));
    }
    assert_eq!(AudioFormat::from_number(4), None);
    assert_eq!(AudioFormat::from_number(-1), None);
}

#[test]
fn names() {
    assert_eq!(AudioFormat::from_name("MP3"), AudioFormat::Mp3);
    assert_eq!(AudioFormat::from_name("M4A"), AudioFormat::M4a);
    assert_eq!(AudioFormat::from_name("ULAW"), AudioFormat::Ulaw);
    assert_eq!(AudioFormat::from_name("mp3"), AudioFormat::Unspecified);
    assert_eq!(AudioFormat::from_name(""), AudioFormat::Unspecified);
}
