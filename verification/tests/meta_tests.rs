use mixdown::files::{collect_audio_stats, is_audio_extension, OutputFileInfo};
use mixdown::metadata::{
    chapters_from_cue_points, chapters_from_tags, cover_image_mime, cuesheet2chapters,
    is_pcm_wave, AudioMetadata, MetaTag, VisualInfo, WaveCuePoint,
};
use mixdown::tagkeys::{metatagstr2stdtagkey, tagkey_name, TagKey};
use mixdown::vis::{decode_base64_media, is_base64_encoded, picture2base64};

#[test]
fn cuesheet_chapters_pair_titles_with_index_one() {
    let sheet = "REM COMMENT junk\nPERFORMER \"X\"\nFILE \"out.flac\" WAVE\n  TRACK 01 AUDIO\n    TITLE \"One\"\n    INDEX 01 00:01:40\n  TRACK 02 AUDIO\n    TITLE \"Two\"\n    INDEX 00 00:02:00\n    INDEX 01 01:02:03\n";
    let chapters = cuesheet2chapters(sheet).expect("chapters found");
    assert_eq!(chapters.len(), 2);
    assert_eq!(chapters[0].title, "One");
    // 1 second plus 40 frames at 75 per second: 1000 + 533 ms.
    assert_eq!(chapters[0].timestamp_ms, 1533);
    assert_eq!(chapters[1].title, "Two");
    // 62 seconds plus 3 frames: 62000 + 40 ms.
    assert_eq!(chapters[1].timestamp_ms, 62040);

    assert!(cuesheet2chapters("no file directive here").is_none());
    assert!(cuesheet2chapters("FILE \"x\" WAVE\nTITLE \"t\"\n").is_none());
}

#[test]
fn tags_with_cuesheet_keys_yield_chapters() {
    let tags = vec![
        MetaTag {
            std_key: None,
            key: "CUESHEET".to_string(),
            value: "FILE \"x\" WAVE\nTITLE \"A\"\nINDEX 01 00:00:00\n".to_string(),
        },
        MetaTag { std_key: None, key: "other".to_string(), value: "x".to_string() },
    ];
    let chapters = chapters_from_tags(&tags).expect("chapters found");
    assert_eq!(chapters.len(), 1);
    assert_eq!(chapters[0].title, "A");
    assert_eq!(chapters[0].timestamp_ms, 0);
    assert!(chapters_from_tags(&vec![]).is_none());
}

#[test]
fn known_tags_fill_structured_fields() {
    let mut m = AudioMetadata::default();
    let tags = vec![
        MetaTag {
            std_key: Some(TagKey::TrackTitle),
            key: "TITLE".to_string(),
            value: "Song".to_string(),
        },
        MetaTag {
            std_key: Some(TagKey::Artist),
            key: "ARTIST".to_string(),
            value: "Band".to_string(),
        },
        MetaTag {
            std_key: Some(TagKey::AlbumArtist),
            key: "ALBUMARTIST".to_string(),
            value: "Various".to_string(),
        },
        MetaTag {
            std_key: Some(TagKey::AlbumArtist),
            key: "ALBUMARTIST".to_string(),
            value: "Various".to_string(),
        },
        MetaTag {
            std_key: Some(TagKey::Genre),
            key: "GENRE".to_string(),
            value: "Ambient".to_string(),
        },
        MetaTag { std_key: None, key: "CUSTOM".to_string(), value: "v".to_string() },
    ];
    m.try_add_known_tags(&tags);
    assert_eq!(m.name, "Song");
    assert_eq!(m.artist.as_deref(), Some("Band"));
    assert_eq!(m.contributors, Some(vec!["Various".to_string()]));
    assert!(m.extras.contains(&("Genre".to_string(), "Ambient".to_string())));
    assert!(m.extras.contains(&("CUSTOM".to_string(), "v".to_string())));
}

#[test]
fn missing_fields_are_backfilled() {
    let mut m = AudioMetadata::default();
    m.name = "stem".to_string();
    m.fill_missing_basic_tags(
        "stem",
        Some("Real Title".to_string()),
        Some("Artist".to_string()),
        Some("AA".to_string()),
        Some("data:image/png;base64,AA==".to_string()),
    );
    assert_eq!(m.name, "Real Title");
    assert_eq!(m.artist.as_deref(), Some("Artist"));
    assert_eq!(m.contributors, Some(vec!["AA".to_string()]));
    assert!(m.thumbnail.is_some());

    // Already-present fields stay.
    let mut m2 = AudioMetadata::default();
    m2.name = "Kept".to_string();
    m2.artist = Some("Kept Artist".to_string());
    m2.fill_missing_basic_tags("stem", Some("New".to_string()), Some("New".to_string()), None, None);
    assert_eq!(m2.name, "Kept");
    assert_eq!(m2.artist.as_deref(), Some("Kept Artist"));
}

#[test]
fn wave_cue_points_become_chapters() {
    let points = vec![
        WaveCuePoint { frame: 44100, label: Some("Intro".to_string()), note: None },
        WaveCuePoint { frame: 88200, label: None, note: Some("n".to_string()) },
        WaveCuePoint { frame: 132300, label: None, note: None },
        WaveCuePoint { frame: 0, label: None, note: None },
        WaveCuePoint { frame: 1, label: None, note: None },
        WaveCuePoint { frame: 2, label: None, note: None },
        WaveCuePoint { frame: 3, label: None, note: None },
        WaveCuePoint { frame: 4, label: None, note: None },
        WaveCuePoint { frame: 5, label: None, note: None },
        WaveCuePoint { frame: 6, label: None, note: None },
    ];
    let chapters = chapters_from_cue_points(&points, 44100);
    assert_eq!(chapters.len(), 10);
    assert_eq!(chapters[0].title, "Intro");
    assert_eq!(chapters[0].timestamp_ms, 1000);
    // Ten cue points pad the default numbering to two digits.
    assert_eq!(chapters[1].title, "Chapter #02");
    assert_eq!(chapters[1].description.as_deref(), Some("n"));
    assert_eq!(chapters[2].timestamp_ms, 3000);
}

#[test]
fn pcm_wave_codec_range() {
    assert!(is_pcm_wave(0x100));
    assert!(is_pcm_wave(0x125));
    assert!(!is_pcm_wave(0xff));
    assert!(!is_pcm_wave(0x126));
}

#[test]
fn thumbnail_prefers_square_then_area() {
    let small_square = VisualInfo {
        media_type: "image/png".to_string(),
        data: vec![1],
        dimensions: Some((100, 100)),
    };
    let big_wide = VisualInfo {
        media_type: "image/jpeg".to_string(),
        data: vec![2],
        dimensions: Some((1000, 500)),
    };
    let big_square = VisualInfo {
        media_type: "image/jpeg".to_string(),
        data: vec![3],
        dimensions: Some((600, 600)),
    };
    let visuals = vec![big_wide.clone(), small_square.clone(), big_square.clone()];
    let uri = mixdown::metadata::extract_thumbnail(&visuals, None).expect("a thumbnail");
    // The big square wins over the wider but non-square picture.
    assert_eq!(uri, picture2base64("image/jpeg", &vec![3]));

    // With no square picture, the highest area wins.
    let visuals2 = vec![small_wide(), big_wide.clone()];
    let uri2 = mixdown::metadata::extract_thumbnail(&visuals2, None).expect("a thumbnail");
    assert_eq!(uri2, picture2base64("image/jpeg", &vec![2]));

    // No pictures: the default is handed back.
    assert_eq!(
        mixdown::metadata::extract_thumbnail(&vec![], Some("d".to_string())),
        Some("d".to_string())
    );
}

fn small_wide() -> VisualInfo {
    VisualInfo { media_type: "image/png".to_string(), data: vec![9], dimensions: Some((10, 5)) }
}

#[test]
fn data_uri_round_trip() {
    let data = vec![0u8, 1, 2, 250, 251, 252];
    let uri = picture2base64("image/png", &data);
    assert!(uri.starts_with("data:image/png;base64,"));
    assert!(is_base64_encoded(&uri));
    assert!(!is_base64_encoded("data:image/png;base64,"));
    assert!(!is_base64_encoded("image/png"));
    let (mime, decoded) = decode_base64_media(&uri).expect("valid data URI");
    assert_eq!(mime, "image/png");
    assert_eq!(decoded, data);
}

#[test]
fn tag_key_names_round_trip() {
    assert_eq!(metatagstr2stdtagkey("Album"), Some(TagKey::Album));
    assert_eq!(metatagstr2stdtagkey("TrackTitle"), Some(TagKey::TrackTitle));
    assert_eq!(metatagstr2stdtagkey("nonsense"), None);
    assert_eq!(tagkey_name(&TagKey::MusicBrainzAlbumId), "MusicBrainzAlbumId");
}

#[test]
fn audio_extension_filter() {
    assert!(is_audio_extension("wav"));
    assert!(is_audio_extension("flac"));
    assert!(is_audio_extension("mp3"));
    assert!(is_audio_extension("ogg"));
    assert!(!is_audio_extension("txt"));
    assert!(!is_audio_extension("WAV"));
}

#[test]
fn directory_scans_are_aggregated_and_deduplicated() {
    let scans = vec![
        ("a".to_string(), vec!["x.wav".to_string(), "y.wav".to_string()]),
        ("b".to_string(), vec!["y.wav".to_string()]),
    ];
    let r = collect_audio_stats(scans);
    assert_eq!(r.stats.len(), 2);
    assert_eq!(r.stats[0].dir, "a");
    assert_eq!(r.stats[0].file_count, 2);
    assert_eq!(r.stats[1].dir, "b");
    assert_eq!(r.stats[1].file_count, 1);
    let mut paths = r.paths.clone();
    paths.sort();
    assert_eq!(paths, vec!["x.wav".to_string(), "y.wav".to_string()]);
}

#[test]
fn output_file_info_reports_what_was_written() {
    let info = OutputFileInfo::new("out.bin".to_string(), 42);
    assert_eq!(info.path(), "out.bin");
    assert_eq!(info.size(), 42);
}

#[test]
fn kill_pid_reports_a_missing_process() {
    match mixdown::procs::kill_pid(u32::MAX - 1) {
        Err(m) => assert_eq!(m, format!("No process found with PID {}", u32::MAX - 1)),
        Ok(()) => panic!("an implausible PID should not be killable"),
    }
}

#[test]
fn mime_parameters_are_stripped_to_the_essence() {
    let uri = "data:image/png;foo=bar;base64,AAECAw==";
    let (mime, data) = decode_base64_media(uri).expect("valid data URI");
    assert_eq!(mime, "image/png");
    assert_eq!(data, vec![0u8, 1, 2, 3]);
}

#[test]
fn cover_file_names_select_a_media_type() {
    assert_eq!(cover_image_mime("cover", "jpg"), Some("image/jpeg"));
    assert_eq!(cover_image_mime("album-folder-art", "png"), Some("image/png"));
    assert_eq!(cover_image_mime("cover", "txt"), None);
    assert_eq!(cover_image_mime("portrait", "jpg"), None);
}
