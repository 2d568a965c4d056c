use infat::error::InfatError;
use infat::uti::SuperType;

#[test]
fn round_trip_every_supertype() {
    // For every built-in entry, the canonical string looks back up to a
    // supertype with the same canonical string.
    let all = SuperType::all();
    assert_eq!(all.len(), 103);
    for st in all {
        let uti = st.uti_string();
        let back = SuperType::from_uti_string(uti)
            .unwrap_or_else(|| panic!("no supertype for {uti}"));
        assert_eq!(back.uti_string(), uti);
    }
}

#[test]
fn parse_then_canonical_then_back() {
    for name in ["json", "plain-text", "zip", "mp3", "quicktime-movie", "app-bundle"] {
        let st = SuperType::parse(name).unwrap();
        let uti = st.uti_string();
        let back = SuperType::from_uti_string(uti).unwrap();
        assert_eq!(back.uti_string(), uti);
    }
}

#[test]
fn parse_normalizes_case_and_underscores() {
    assert_eq!(SuperType::parse("JSON").unwrap(), SuperType::Json);
    assert_eq!(SuperType::parse("Plain_Text").unwrap(), SuperType::PlainText);
    assert_eq!(SuperType::parse("mp4_audio").unwrap(), SuperType::Mp4Audio);
    assert_eq!(SuperType::parse("unix-executable").unwrap(), SuperType::UnixExecutable);
}

#[test]
fn parse_aliases() {
    assert_eq!(SuperType::parse("comma-separated-text").unwrap(), SuperType::Csv);
    assert_eq!(SuperType::parse("m3u").unwrap(), SuperType::M3uPlaylist);
    assert_eq!(SuperType::parse("mpeg4-movie").unwrap(), SuperType::Mp4Movie);
}

#[test]
fn parse_rejects_unknown_names() {
    match SuperType::parse("not-a-kind") {
        Err(InfatError::UnsupportedSupertype { name }) => assert_eq!(name, "not-a-kind"),
        other => panic!("expected the unsupported-supertype error, got {other:?}"),
    }
}

#[test]
fn parse_rejects_dotted_names() {
    // A dotted identifier is never a vocabulary name; the resolver passes
    // such strings through verbatim instead.
    for name in ["org.xiph.flac", "public.json", "com.example.custom"] {
        assert!(matches!(
            SuperType::parse(name),
            Err(InfatError::UnsupportedSupertype { .. })
        ));
    }
}

#[test]
fn canonical_strings_are_exact() {
    assert_eq!(SuperType::Json.uti_string(), "public.json");
    assert_eq!(SuperType::Flac.uti_string(), "org.xiph.flac");
    assert_eq!(SuperType::Gif.uti_string(), "com.compuserve.gif");
    assert_eq!(SuperType::Html.uti_string(), "public.html");
    assert_eq!(
        SuperType::DefaultAppWebBrowser.uti_string(),
        "com.apple.default-app.web-browser"
    );
}

#[test]
fn canonical_lookup_misses_unknown_strings() {
    assert!(SuperType::from_uti_string("com.example.unheard-of").is_none());
    assert!(SuperType::from_uti_string("").is_none());
}

#[test]
fn display_names_are_lowercase_hyphenated() {
    assert_eq!(SuperType::Json.display_name(), "json");
    assert_eq!(SuperType::PlainText.display_name(), "plain-text");
    assert_eq!(SuperType::ThreeDContent.display_name(), "3d-content");
    assert_eq!(SuperType::X509Certificate.display_name(), "x509-certificate");
    assert_eq!(SuperType::OggAudio.display_name(), "ogg-audio");
    assert_eq!(SuperType::M3uPlaylist.display_name(), "m3u-playlist");
    assert_eq!(SuperType::Mpeg2TransportStream.display_name(), "mpeg2-transport-stream");
    assert_eq!(SuperType::RealAudio.display_name(), "real-audio");
}

#[test]
fn every_display_name_parses_back_to_its_supertype() {
    // The whole enumeration round-trips through the parser, not only the
    // historically tabled names.
    for st in SuperType::all() {
        let name = st.display_name();
        assert_eq!(SuperType::parse(name).unwrap(), st, "display name {name}");
        assert!(
            name.chars().all(|c| c.is_ascii_lowercase() || c.is_ascii_digit() || c == '-'),
            "display name {name}"
        );
    }
}

#[test]
fn names_beyond_the_original_aliases_parse() {
    assert_eq!(SuperType::parse("flac").unwrap(), SuperType::Flac);
    assert_eq!(SuperType::parse("webm").unwrap(), SuperType::Webm);
    assert_eq!(SuperType::parse("bz2").unwrap(), SuperType::Bz2);
    assert_eq!(SuperType::parse("font").unwrap(), SuperType::Font);
    assert_eq!(SuperType::parse("ogg-audio").unwrap(), SuperType::OggAudio);
    assert_eq!(SuperType::parse("default-app-mail-client").unwrap(),
        SuperType::DefaultAppMailClient);
}
