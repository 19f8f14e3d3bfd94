use mixdown::cues::{format_msf_time, num_cuesheets, sample_to_msf_time};
use mixdown::mix::{extend_all_channels, generate_audio_data, spread_track_channels};
use mixdown::playlist::{ContentItem, Playlist, Track};
use mixdown::quantize::{quantize_channels, quantize_sample};
use mixdown::tracks::{BasicTrackMeta, TrackData, TrackStore, FIXED_ONE};
use rand::SeedableRng;

fn rng() -> rand::rngs::StdRng {
    rand::rngs::StdRng::from_seed([0u8; 32])
}

fn make_track(title: &str, channels: Vec<Vec<i32>>, rate: u32) -> TrackData {
    let n = channels.len();
    TrackData {
        meta: BasicTrackMeta {
            sample_rate: rate,
            channels: n as u32,
            bit_depth: 16,
            title: title.to_string(),
        },
        data: channels,
        nchannels: n,
    }
}

#[test]
fn mono_source_duplicates_into_all_channels() {
    let mut audio: Vec<Vec<i32>> = vec![Vec::new(), Vec::new(), Vec::new()];
    let src = vec![vec![1, 2, 3]];
    spread_track_channels(&mut audio, &src);
    assert_eq!(audio[0], vec![1, 2, 3]);
    assert_eq!(audio[1], audio[0]);
    assert_eq!(audio[2], audio[0]);
}

#[test]
fn stereo_source_alternates_right_then_left() {
    let mut audio: Vec<Vec<i32>> = vec![Vec::new(), Vec::new(), Vec::new(), Vec::new()];
    let left = vec![10, 11];
    let right = vec![20, 21];
    let src = vec![left.clone(), right.clone()];
    spread_track_channels(&mut audio, &src);
    assert_eq!(audio[0], right);
    assert_eq!(audio[1], left);
    assert_eq!(audio[2], right);
    assert_eq!(audio[3], left);
}

#[test]
fn multichannel_source_spreads_round_robin() {
    let mut audio: Vec<Vec<i32>> = vec![Vec::new(); 5];
    let src = vec![vec![0], vec![1], vec![2]];
    spread_track_channels(&mut audio, &src);
    for i in 0..5 {
        assert_eq!(audio[i], src[i % 3], "output channel {}", i);
    }
}

#[test]
fn opposite_samples_downmix_to_zero() {
    let t = make_track("t", vec![vec![FIXED_ONE], vec![-FIXED_ONE]], 44100);
    let mono = t.data_as_mono();
    assert_eq!(mono, vec![0]);
}

#[test]
fn downmix_truncates_to_shortest_channel() {
    let t = make_track("t", vec![vec![2, 4, 6], vec![4, 8]], 44100);
    assert_eq!(t.data_as_mono(), vec![3, 6]);
}

#[test]
fn quantize_full_scale_hits_16_bit_extremes() {
    assert_eq!(quantize_sample(FIXED_ONE, 16), i16::MAX as i32);
    assert_eq!(quantize_sample(-FIXED_ONE, 16), -(i16::MAX as i32));
    // Inputs beyond full scale are clamped before scaling.
    assert_eq!(quantize_sample(2 * FIXED_ONE, 16), i16::MAX as i32);
    assert_eq!(quantize_sample(-2 * FIXED_ONE, 16), -(i16::MAX as i32));
    assert_eq!(quantize_sample(0, 16), 0);
    // Half scale rounds to nearest.
    assert_eq!(quantize_sample(FIXED_ONE / 2, 16), 16384);
    // 24-bit and 32-bit scales.
    assert_eq!(quantize_sample(FIXED_ONE, 24), (1 << 23) - 1);
    assert_eq!(quantize_sample(FIXED_ONE, 32), i32::MAX);
    let q = quantize_channels(&vec![vec![FIXED_ONE, -FIXED_ONE]], 16);
    assert_eq!(q, vec![vec![32767, -32767]]);
}

#[test]
fn msf_time_formats_at_75_frames_per_second() {
    let msf = sample_to_msf_time(44100 * 90, 44100);
    assert_eq!(msf, (1, 30, 0));
    assert_eq!(format_msf_time(msf), "01:30:00");
    // Half a second is 37.5 frames, rounded to 38.
    let msf2 = sample_to_msf_time(22050, 44100);
    assert_eq!(msf2, (0, 0, 38));
}

#[test]
fn cuesheet_part_counting() {
    assert_eq!(num_cuesheets(0), 0);
    assert_eq!(num_cuesheets(99), 1);
    assert_eq!(num_cuesheets(100), 2);
    assert_eq!(num_cuesheets(150), 2);
}

#[test]
fn hundred_fifty_entries_make_two_sheets_with_wrapped_numbers() {
    let mut audio: Vec<Vec<i32>> = vec![Vec::new()];
    let mut r = rng();
    let mut p = Playlist::default();
    let entries: Vec<ContentItem> =
        (0..150).map(|_| ContentItem::Scalar(Some("pause_1ms".to_string()))).collect();
    p.Content = Some(entries);
    let store = TrackStore::new();
    let cue_data = generate_audio_data(&mut audio, &mut r, 44100, &store, &p, "list").unwrap();
    assert_eq!(cue_data.cuesheets.len(), 2);
    assert_eq!(cue_data.cues.len(), 150);
    for (i, c) in cue_data.cues.iter().enumerate() {
        assert_eq!(c.index as usize, i + 1);
    }
    // Displayed numbers wrap to 1 after 99 within a part.
    assert!(cue_data.cuesheets[0].contains("  TRACK 01 AUDIO"));
    assert!(cue_data.cuesheets[0].contains("  TRACK 99 AUDIO"));
    assert!(cue_data.cuesheets[1].contains("  TRACK 01 AUDIO"));
    assert!(cue_data.cuesheets[1].contains("  TRACK 51 AUDIO"));
    assert!(!cue_data.cuesheets[1].contains("  TRACK 99 AUDIO"));
    // Part numbering and totals are prefixed.
    assert!(cue_data.cuesheets[0].starts_with("REM CUESHEETPART 1\n"));
    assert!(cue_data.cuesheets[1].starts_with("REM CUESHEETPART 2\n"));
    assert!(cue_data.cuesheets[0].contains("REM TOTALSAMPLES "));
    assert!(cue_data.cuesheets[0].contains("REM RATE 44100\n"));
}

#[test]
fn end_to_end_second_cue_starts_after_one_second() {
    // One mono 1-second 44100 Hz track aliased A, content [A, pause_500ms].
    let mut p = Playlist::default();
    p.Tracks = Some(vec![Track {
        File: "a.flac".to_string(),
        Title: "Track A".to_string(),
        Alias: Some("A".to_string()),
    }]);
    p.Content = Some(vec![
        ContentItem::Scalar(Some("A".to_string())),
        ContentItem::Scalar(Some("pause_500ms".to_string())),
    ]);
    let existing = vec!["a.flac".to_string()];
    assert!(mixdown::playlist::ensure_tracks(&p, &existing).is_ok());
    let unique = preprocess(&mut p);
    assert_eq!(unique, vec!["a.flac".to_string()]);

    let mut store = TrackStore::new();
    store.insert(
        "a.flac".to_string(),
        make_track("Track A", vec![vec![1000; 44100]], 44100),
    );

    let mut audio: Vec<Vec<i32>> = vec![Vec::new()];
    let mut r = rng();
    let cue_data = generate_audio_data(&mut audio, &mut r, 44100, &store, &p, "list").unwrap();
    assert_eq!(cue_data.cues.len(), 2);
    assert_eq!(cue_data.cues[0].start_sample, 1);
    assert_eq!(cue_data.cues[0].title, "Track A");
    assert_eq!(cue_data.cues[1].start_sample, 44101);
    // 44101 samples at 44100 Hz: 75 cuesheet frames, 1000 ms.
    assert_eq!(cue_data.cues[1].start_frame, 75);
    assert_eq!(cue_data.cues[1].timestamp_ms, 1000);
    assert!(cue_data.cuesheets[0].contains("    INDEX 01 00:01:00\n"));
    assert!(cue_data.cuesheets[0].contains("    REM STARTSAMPLE 44101\n"));
    // Total duration is 1.5 seconds at 44100 Hz.
    assert_eq!(audio[0].len(), 66150);
}

fn preprocess(p: &mut Playlist) -> Vec<String> {
    mixdown::playlist::preprocess_content(p)
}

#[test]
fn empty_content_is_an_error_and_zero_channel_tracks_are_skipped() {
    let mut audio: Vec<Vec<i32>> = vec![Vec::new()];
    let mut r = rng();
    let p = Playlist::default();
    let store = TrackStore::new();
    assert!(generate_audio_data(&mut audio, &mut r, 44100, &store, &p, "x").is_err());

    let mut p2 = Playlist::default();
    p2.Content = Some(vec![ContentItem::Scalar(Some("z.flac".to_string()))]);
    let mut store2 = TrackStore::new();
    store2.insert("z.flac".to_string(), make_track("Z", vec![], 44100));
    let cue_data = generate_audio_data(&mut audio, &mut r, 44100, &store2, &p2, "x").unwrap();
    assert_eq!(cue_data.cues.len(), 0);
    assert_eq!(audio[0].len(), 0);
}

#[test]
fn missing_track_aborts_assembly() {
    let mut audio: Vec<Vec<i32>> = vec![Vec::new()];
    let mut r = rng();
    let mut p = Playlist::default();
    p.Content = Some(vec![ContentItem::Scalar(Some("nowhere.flac".to_string()))]);
    let store = TrackStore::new();
    match generate_audio_data(&mut audio, &mut r, 44100, &store, &p, "x") {
        Err(mixdown::mix::MixError::TrackNotFound(v)) => assert_eq!(v, "nowhere.flac"),
        other => panic!("expected missing track, got {:?}", other),
    }
}

#[test]
fn list_entries_pad_to_longest_channel() {
    let mut audio: Vec<Vec<i32>> = vec![Vec::new(), Vec::new()];
    let mut r = rng();
    let mut p = Playlist::default();
    p.Content = Some(vec![ContentItem::List(vec![
        Some("t.flac".to_string()),
        Some("pause_2ms".to_string()),
    ])]);
    let mut store = TrackStore::new();
    // Mono track of 44 samples of value 8 (1 ms at 44100 would be 44.1).
    store.insert("t.flac".to_string(), make_track("T", vec![vec![8; 44]], 44100));
    let cue_data = generate_audio_data(&mut audio, &mut r, 44100, &store, &p, "x").unwrap();
    assert_eq!(cue_data.cues.len(), 1);
    // 2 ms of silence at 44100 Hz is 88 samples (rounded).
    assert_eq!(audio[1].len(), 88);
    assert_eq!(audio[0].len(), 88);
    assert_eq!(&audio[0][..44], &[8; 44][..]);
    assert!(audio[0][44..].iter().all(|&s| s == 0));
    assert!(cue_data.cues[0].title.contains("[Ch1] T"));
    assert!(cue_data.cues[0].title.contains(" + [Ch2] "));
}

#[test]
fn pause_entries_fill_every_channel_identically() {
    let mut audio: Vec<Vec<i32>> = vec![vec![5], vec![5]];
    extend_all_channels(&mut audio, &vec![0, 0, 0]);
    assert_eq!(audio[0], vec![5, 0, 0, 0]);
    assert_eq!(audio[1], vec![5, 0, 0, 0]);
}
