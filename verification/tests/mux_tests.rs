use mixdown::mux::{cuesheet_tag_pairs, embed_metadata, encode_mix, playlist_tag_pairs, RewriteOutcome};
use mixdown::playlist::Playlist;

fn tiny_flac() -> Vec<u8> {
    // Ten quiet samples, mono, 16-bit, 44100 Hz.
    let channels = vec![vec![0i32, 1, -1, 2, -2, 3, -3, 0, 1, 0]];
    encode_mix(&channels, 44100, 16, 1, 10).expect("encoding a valid buffer succeeds")
}

#[test]
fn encode_produces_a_flac_stream() {
    let bytes = tiny_flac();
    assert_eq!(&bytes[..4], b"fLaC");
}

#[test]
fn encode_rejects_mismatched_channels() {
    let channels = vec![vec![0i32; 4]];
    assert!(encode_mix(&channels, 44100, 16, 2, 4).is_err());
}

#[test]
fn playlist_tags_mirror_track_title_and_skip_empty() {
    let mut p = Playlist::default();
    p.Artist = Some("Someone".to_string());
    p.TrackTitle = Some("The Mix".to_string());
    p.Comment = Some("".to_string());
    p.Bpm = Some(128);
    let pairs = playlist_tag_pairs(&p);
    assert_eq!(
        pairs,
        vec![
            ("Artist".to_string(), "Someone".to_string()),
            ("Bpm".to_string(), "128".to_string()),
            ("Title".to_string(), "The Mix".to_string()),
            ("TrackTitle".to_string(), "The Mix".to_string()),
        ]
    );
}

#[test]
fn cuesheet_tags_are_numbered_only_when_split() {
    let one = cuesheet_tag_pairs(&vec!["sheet".to_string()]);
    assert_eq!(one, vec![("cuesheet".to_string(), "sheet".to_string())]);
    let two = cuesheet_tag_pairs(&vec!["a".to_string(), "b".to_string()]);
    assert_eq!(
        two,
        vec![
            ("cuesheet1".to_string(), "a".to_string()),
            ("cuesheet2".to_string(), "b".to_string()),
        ]
    );
}

#[test]
fn embedded_tags_can_be_read_back() {
    let flac = tiny_flac();
    let mut p = Playlist::default();
    p.Artist = Some("Someone".to_string());
    p.TrackTitle = Some("The Mix".to_string());
    let sheets = vec!["REM RATE 44100\nFILE \"The Mix.flac\" WAVE\n".to_string()];
    let out = embed_metadata(flac, &sheets, &p, None).expect("rewrite succeeds");
    let bytes = match out {
        RewriteOutcome::InPlace(b) => b,
        RewriteOutcome::Rebuilt(b) => b,
    };
    let tag = metaflac::Tag::read_from(&mut std::io::Cursor::new(&bytes)).expect("valid FLAC");
    let get = |k: &str| -> Vec<String> {
        tag.get_vorbis(k)
            .map(|it| it.map(|s| s.to_string()).collect())
            .unwrap_or_default()
    };
    assert_eq!(get("Artist"), vec!["Someone".to_string()]);
    assert_eq!(get("Title"), vec!["The Mix".to_string()]);
    assert_eq!(get("TrackTitle"), vec!["The Mix".to_string()]);
    assert_eq!(get("cuesheet"), vec!["REM RATE 44100\nFILE \"The Mix.flac\" WAVE\n".to_string()]);
}

#[test]
fn test_extract_flac_cover_art() {
    // A front-cover picture embedded by the muxer can be extracted again.
    let flac = tiny_flac();
    let p = Playlist::default();
    let sheets = vec!["sheet".to_string()];
    let cover_bytes: Vec<u8> = vec![0xffu8, 0xd8, 0xff, 0xe0, 1, 2, 3, 4];
    let out = embed_metadata(
        flac,
        &sheets,
        &p,
        Some(("image/jpeg".to_string(), cover_bytes.clone())),
    )
    .expect("rewrite succeeds");
    let bytes = match out {
        RewriteOutcome::InPlace(b) => b,
        RewriteOutcome::Rebuilt(b) => b,
    };
    let tag = metaflac::Tag::read_from(&mut std::io::Cursor::new(&bytes)).expect("valid FLAC");
    let picture = tag.pictures().next().expect("an embedded picture");
    assert_eq!(picture.data, cover_bytes);
    assert_eq!(picture.mime_type, "image/jpeg");
}
