use mixdown::playlist::{
    ensure_tracks, find_max_elements_in_playlist, lookup_pause_title, lookup_track_title,
    normalize_seed, preprocess_content, ContentItem, Pause, Playlist, PlaylistError, Track,
};

fn track(file: &str, title: &str, alias: Option<&str>) -> Track {
    Track { File: file.to_string(), Title: title.to_string(), Alias: alias.map(|a| a.to_string()) }
}

#[test]
fn duplicate_alias_fails_validation() {
    let mut p = Playlist::default();
    p.Tracks = Some(vec![track("a.flac", "A", Some("x")), track("b.flac", "B", Some("x"))]);
    let existing = vec!["a.flac".to_string(), "b.flac".to_string()];
    match ensure_tracks(&p, &existing) {
        Err(PlaylistError::DuplicateAlias(a)) => assert_eq!(a, "x"),
        other => panic!("expected duplicate alias failure, got {:?}", other),
    }
}

#[test]
fn unresolved_reference_fails_validation() {
    let mut p = Playlist::default();
    p.Tracks = Some(vec![track("a.flac", "A", Some("x"))]);
    p.Content = Some(vec![ContentItem::Scalar(Some("nope".to_string()))]);
    let existing = vec!["a.flac".to_string()];
    match ensure_tracks(&p, &existing) {
        Err(PlaylistError::UnresolvedReference(v)) => assert_eq!(v, "nope"),
        other => panic!("expected unresolved reference failure, got {:?}", other),
    }
}

#[test]
fn missing_track_file_fails_validation() {
    let mut p = Playlist::default();
    p.Tracks = Some(vec![track("gone.flac", "A", None)]);
    let existing: Vec<String> = Vec::new();
    match ensure_tracks(&p, &existing) {
        Err(PlaylistError::MissingTrackFile(f)) => assert_eq!(f, "gone.flac"),
        other => panic!("expected missing file failure, got {:?}", other),
    }
}

#[test]
fn valid_playlist_passes_validation() {
    let mut p = Playlist::default();
    p.Tracks = Some(vec![track("a.flac", "A", Some("x"))]);
    p.Content = Some(vec![
        ContentItem::Scalar(Some("x".to_string())),
        ContentItem::Scalar(Some("pause_100ms".to_string())),
        ContentItem::Scalar(Some("_".to_string())),
        ContentItem::List(vec![None, Some("a.flac".to_string())]),
    ]);
    let existing = vec!["a.flac".to_string()];
    assert!(ensure_tracks(&p, &existing).is_ok());
}

#[test]
fn preprocess_drops_placeholders_and_resolves_aliases() {
    let mut p = Playlist::default();
    p.Tracks = Some(vec![track("a.flac", "A", Some("x"))]);
    p.Content = Some(vec![
        ContentItem::Scalar(Some("".to_string())),
        ContentItem::Scalar(Some("_".to_string())),
        ContentItem::Scalar(None),
        ContentItem::Scalar(Some("x".to_string())),
        ContentItem::List(vec![Some("_".to_string()), Some("".to_string())]),
        ContentItem::List(vec![Some("x".to_string()), None, Some("pause_5ms".to_string())]),
        ContentItem::Scalar(Some("direct.wav".to_string())),
    ]);
    let unique = preprocess_content(&mut p);
    let content = p.Content.as_ref().unwrap();
    assert_eq!(content.len(), 3);
    match &content[0] {
        ContentItem::Scalar(Some(v)) => assert_eq!(v, "a.flac"),
        other => panic!("unexpected entry {:?}", other),
    }
    match &content[1] {
        ContentItem::List(items) => {
            assert_eq!(items[0].as_deref(), Some("a.flac"));
            assert_eq!(items[1], None);
            assert_eq!(items[2].as_deref(), Some("pause_5ms"));
        }
        other => panic!("unexpected entry {:?}", other),
    }
    match &content[2] {
        ContentItem::Scalar(Some(v)) => assert_eq!(v, "direct.wav"),
        other => panic!("unexpected entry {:?}", other),
    }
    let mut u = unique.clone();
    u.sort();
    assert_eq!(u, vec!["a.flac".to_string(), "direct.wav".to_string()]);
}

#[test]
fn preprocess_without_content_returns_nothing() {
    let mut p = Playlist::default();
    p.Tracks = Some(vec![track("a.flac", "A", None)]);
    let unique = preprocess_content(&mut p);
    assert!(unique.is_empty());
    assert!(p.Content.is_none());
}

#[test]
fn find_max_elements_counts_widest_list() {
    let content = vec![
        ContentItem::Scalar(Some("a".to_string())),
        ContentItem::List(vec![None, None, None]),
        ContentItem::List(vec![None]),
    ];
    assert_eq!(find_max_elements_in_playlist(&content), 3);
    let none: Vec<ContentItem> = vec![ContentItem::Scalar(None)];
    assert_eq!(find_max_elements_in_playlist(&none), 0);
}

#[test]
fn lookups_find_first_match() {
    let pauses = vec![
        Pause { Signature: "pause_1ms".to_string(), Title: "One".to_string() },
        Pause { Signature: "pause_1ms".to_string(), Title: "Two".to_string() },
    ];
    assert_eq!(
        lookup_pause_title(&"pause_1ms".to_string(), &pauses).as_deref(),
        Some("One")
    );
    assert_eq!(lookup_pause_title(&"pause_9ms".to_string(), &pauses), None);

    let tracks = vec![track("a.flac", "First", None), track("a.flac", "Second", None)];
    assert_eq!(lookup_track_title(&"a.flac".to_string(), &tracks).as_deref(), Some("First"));
    assert_eq!(lookup_track_title(&"b.flac".to_string(), &tracks), None);
}

#[test]
fn seed_normalization_pads_and_truncates() {
    let short = normalize_seed(&"abc".to_string());
    assert_eq!(short.len(), 32);
    assert_eq!(&short[..3], b"abc");
    assert!(short[3..].iter().all(|&b| b == 0));

    let long = normalize_seed(&"0123456789012345678901234567890123456789".to_string());
    assert_eq!(long.len(), 32);
    assert_eq!(&long[..], &b"01234567890123456789012345678901"[..]);
}

#[test]
fn unresolved_list_reference_fails_validation() {
    let mut p = Playlist::default();
    p.Content = Some(vec![ContentItem::List(vec![None, Some("ghost".to_string())])]);
    let existing: Vec<String> = Vec::new();
    match ensure_tracks(&p, &existing) {
        Err(PlaylistError::UnresolvedListReference(v)) => assert_eq!(v, "ghost"),
        other => panic!("expected unresolved list reference, got {:?}", other),
    }
}
