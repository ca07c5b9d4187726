use distill::error::InputError;
use distill::language::{language_table, LanguageCode};
use distill::media::{detect_media_format, resolve_media_format, MediaFormat, SNIFF_LIMIT};

#[test]
fn supported_language_is_accepted() {
    let language = LanguageCode::parse("en-US").unwrap();
    assert_eq!(language.as_str(), "en-US");
    assert_eq!(LanguageCode::parse("ab-GE").unwrap().as_str(), "ab-GE");
    assert_eq!(LanguageCode::parse("zu-ZA").unwrap().as_str(), "zu-ZA");
    assert_eq!(LanguageCode::parse("mhr-RU").unwrap().as_str(), "mhr-RU");
}

#[test]
fn every_tag_of_the_table_is_accepted() {
    let table = language_table();
    assert_eq!(table.len(), 102);
    assert_eq!(table[0], "ab-GE");
    assert_eq!(table[29], "en-US");
    assert_eq!(table[101], "zu-ZA");
    for tag in table.iter() {
        assert_eq!(LanguageCode::parse(tag).unwrap().as_str(), *tag);
    }
    let mut sorted = table.to_vec();
    sorted.sort();
    sorted.dedup();
    assert_eq!(sorted.len(), 102);
}

#[test]
fn unsupported_language_is_rejected() {
    match LanguageCode::parse("xx-YY") {
        Err(InputError::UnsupportedLanguage { code }) => assert_eq!(code, "xx-YY"),
        other => panic!("unexpected outcome {:?}", other),
    }
    assert!(LanguageCode::parse("").is_err());
    assert!(LanguageCode::parse("en-us").is_err());
    assert!(LanguageCode::parse("en_US").is_err());
    assert!(LanguageCode::parse(" en-US").is_err());
    assert!(LanguageCode::parse("en").is_err());
}

#[test]
fn input_error_names_the_input() {
    let error = LanguageCode::parse("xx-YY").unwrap_err();
    assert_eq!(error.message(), "Unsupported language code: xx-YY");
    let error = InputError::UnsupportedMediaFormat { mime_type: "image/png".to_string() };
    assert_eq!(error.message(), "Unsupported media format: image/png");
    assert_eq!(
        InputError::UndeterminedMediaFormat.message(),
        "Unable to determine media format from file extension"
    );
}

#[test]
fn mime_type_settles_the_format() {
    assert_eq!(MediaFormat::from_mime("audio/amr"), Some(MediaFormat::Amr));
    assert_eq!(MediaFormat::from_mime("audio/flac"), Some(MediaFormat::Flac));
    assert_eq!(MediaFormat::from_mime("audio/m4a"), Some(MediaFormat::M4a));
    assert_eq!(MediaFormat::from_mime("audio/mpeg"), Some(MediaFormat::Mp3));
    assert_eq!(MediaFormat::from_mime("audio/mp4"), Some(MediaFormat::Mp4));
    assert_eq!(MediaFormat::from_mime("video/mp4"), Some(MediaFormat::Mp4));
    assert_eq!(MediaFormat::from_mime("audio/ogg"), Some(MediaFormat::Ogg));
    assert_eq!(MediaFormat::from_mime("audio/opus"), Some(MediaFormat::Ogg));
    assert_eq!(MediaFormat::from_mime("audio/wav"), Some(MediaFormat::Wav));
    assert_eq!(MediaFormat::from_mime("audio/webm"), Some(MediaFormat::Webm));
    assert_eq!(MediaFormat::from_mime("image/png"), None);
    assert_eq!(MediaFormat::from_mime("AUDIO/MPEG"), None);
    assert_eq!(MediaFormat::from_mime(""), None);
}

#[test]
fn format_has_the_name_of_the_service() {
    assert_eq!(MediaFormat::Amr.as_str(), "amr");
    assert_eq!(MediaFormat::Flac.as_str(), "flac");
    assert_eq!(MediaFormat::M4a.as_str(), "m4a");
    assert_eq!(MediaFormat::Mp3.as_str(), "mp3");
    assert_eq!(MediaFormat::Mp4.as_str(), "mp4");
    assert_eq!(MediaFormat::Ogg.as_str(), "ogg");
    assert_eq!(MediaFormat::Wav.as_str(), "wav");
    assert_eq!(MediaFormat::Webm.as_str(), "webm");
}

#[test]
fn extension_helps_where_the_mime_type_does_not() {
    assert!(matches!(resolve_media_format(Some("audio/mpeg"), None), Ok(MediaFormat::Mp3)));
    assert!(matches!(resolve_media_format(Some("video/mp4"), Some("mp3")), Ok(MediaFormat::Mp4)));
    assert!(matches!(
        resolve_media_format(Some("application/zip"), Some("mp3")),
        Ok(MediaFormat::Mp3)
    ));
    assert!(matches!(resolve_media_format(None, Some("mp3")), Ok(MediaFormat::Mp3)));
    match resolve_media_format(Some("application/zip"), Some("zip")) {
        Err(InputError::UnsupportedMediaFormat { mime_type }) => {
            assert_eq!(mime_type, "application/zip")
        }
        other => panic!("unexpected outcome {:?}", other),
    }
    assert!(matches!(
        resolve_media_format(Some("application/zip"), None),
        Err(InputError::UnsupportedMediaFormat { .. })
    ));
    assert!(matches!(
        resolve_media_format(None, Some("wav")),
        Err(InputError::UndeterminedMediaFormat)
    ));
    assert!(matches!(
        resolve_media_format(None, Some("MP3")),
        Err(InputError::UndeterminedMediaFormat)
    ));
    assert!(matches!(resolve_media_format(None, None), Err(InputError::UndeterminedMediaFormat)));
}

fn padded(signature: &[u8], length: usize) -> Vec<u8> {
    let mut content = signature.to_vec();
    content.resize(length, 0);
    content
}

#[test]
fn content_is_sniffed_for_its_format() {
    let mp3 = padded(&[0x49, 0x44, 0x33], 64);
    assert!(matches!(detect_media_format(&mp3, None), Ok(MediaFormat::Mp3)));
    let ogg = padded(b"OggS", 64);
    assert!(matches!(detect_media_format(&ogg, None), Ok(MediaFormat::Ogg)));
    let amr = padded(b"#!AMR\n", 64);
    assert!(matches!(detect_media_format(&amr, None), Ok(MediaFormat::Amr)));
    let mut m4a = padded(&[0, 0, 0, 0x20], 64);
    m4a[4..11].copy_from_slice(b"ftypM4A");
    assert!(matches!(detect_media_format(&m4a, None), Ok(MediaFormat::M4a)));
    let png = padded(&[0x89, 0x50, 0x4E, 0x47, 0x0D, 0x0A, 0x1A, 0x0A], 64);
    match detect_media_format(&png, Some("png")) {
        Err(InputError::UnsupportedMediaFormat { mime_type }) => assert_eq!(mime_type, "image/png"),
        other => panic!("unexpected outcome {:?}", other),
    }
    assert!(matches!(detect_media_format(&png, Some("mp3")), Ok(MediaFormat::Mp3)));
    assert!(matches!(detect_media_format(&[], None), Err(InputError::UndeterminedMediaFormat)));
    assert!(matches!(detect_media_format(&[], Some("mp3")), Ok(MediaFormat::Mp3)));
}

#[test]
fn only_the_head_of_the_content_is_sniffed() {
    assert_eq!(SNIFF_LIMIT, 8192);
    let mut long = padded(b"OggS", SNIFF_LIMIT * 3);
    let end = long.len();
    long[end - 4..].copy_from_slice(b"fLaC");
    assert!(matches!(detect_media_format(&long, None), Ok(MediaFormat::Ogg)));
    let mut late = vec![0u8; SNIFF_LIMIT * 2];
    late[SNIFF_LIMIT..SNIFF_LIMIT + 4].copy_from_slice(b"OggS");
    assert!(matches!(detect_media_format(&late, None), Err(InputError::UndeterminedMediaFormat)));
    let exact = padded(b"OggS", SNIFF_LIMIT);
    assert!(matches!(detect_media_format(&exact, None), Ok(MediaFormat::Ogg)));
}

#[test]
fn wave_and_flac_files_are_named_otherwise_by_the_sniffer() {
    let mut wav = padded(b"RIFF", 64);
    wav[8..12].copy_from_slice(b"WAVE");
    match detect_media_format(&wav, Some("wav")) {
        Err(InputError::UnsupportedMediaFormat { mime_type }) => {
            assert_eq!(mime_type, "audio/x-wav")
        }
        other => panic!("unexpected outcome {:?}", other),
    }
    let flac = padded(b"fLaC", 64);
    match detect_media_format(&flac, None) {
        Err(InputError::UnsupportedMediaFormat { mime_type }) => {
            assert_eq!(mime_type, "audio/x-flac")
        }
        other => panic!("unexpected outcome {:?}", other),
    }
}
