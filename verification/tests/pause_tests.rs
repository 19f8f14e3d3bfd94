use mixdown::pauses::create_pause;
use rand::SeedableRng;

fn rng() -> rand::rngs::StdRng {
    rand::rngs::StdRng::from_seed([7u8; 32])
}

#[test]
fn pause_500ms_buffer_length() {
    let mut r = rng();
    let p = create_pause(&"pause_500ms".to_string(), None, 44100, &mut r);
    assert_eq!(p.data.len(), 22050);
    assert!(p.data.iter().all(|&s| s == 0));
    assert_eq!(p.sample_rate, 44100);
    assert_eq!(p.signature, "pause_500ms");
}

#[test]
fn pause_range_deterministic_and_bounded() {
    let mut r1 = rng();
    let mut r2 = rng();
    let a = create_pause(&"pause_[100|200]ms".to_string(), None, 44100, &mut r1);
    let b = create_pause(&"pause_[100|200]ms".to_string(), None, 44100, &mut r2);
    assert_eq!(a.data.len(), b.data.len());
    // 100 ms at 44100 Hz is 4410 samples; 200 ms is 8820.
    assert!(a.data.len() >= 4410);
    assert!(a.data.len() <= 8820);
    // Drawing again from the same stream stays within bounds too.
    let c = create_pause(&"pause_[100|200]ms".to_string(), None, 44100, &mut r1);
    assert!(c.data.len() >= 4410 && c.data.len() <= 8820);
}

#[test]
fn pause_title_embedded_in_signature_wins() {
    let mut r = rng();
    let p = create_pause(
        &"pause_100ms | Evening".to_string(),
        Some("Caller".to_string()),
        1000,
        &mut r,
    );
    assert_eq!(p.data.len(), 100);
    assert_eq!(p.title.as_deref(), Some("Evening"));
}

#[test]
fn pause_title_from_caller_when_signature_has_none() {
    let mut r = rng();
    let p = create_pause(&"pause_250ms".to_string(), Some("Caller".to_string()), 1000, &mut r);
    assert_eq!(p.data.len(), 250);
    assert_eq!(p.title.as_deref(), Some("Caller"));
}

#[test]
fn pause_bad_duration_parses_as_zero() {
    let mut r = rng();
    let p = create_pause(&"pause_oopsms".to_string(), None, 44100, &mut r);
    assert_eq!(p.data.len(), 0);
}
