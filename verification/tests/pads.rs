use customsource::element::CustomSource;
use customsource::errors::{ActivateError, FlowError};
use customsource::states::{PadEvent, PadMode};

fn media() -> Vec<u8> {
    (0u8..10u8).collect()
}

fn built_with_media() -> CustomSource {
    let mut s = CustomSource::new();
    s.constructed().expect("construction");
    s.set_location(String::from("/tmp/ten-bytes.bin")).expect("location");
    s.supply_media(media()).expect("media");
    s
}

#[test]
fn push_activation_always_unsupported() {
    let mut fresh = CustomSource::new();
    assert_eq!(
        fresh.activate_mode(PadMode::Push, true),
        Err(ActivateError::UnsupportedMode(PadMode::Push))
    );

    let mut s = built_with_media();
    assert_eq!(
        s.activate_mode(PadMode::Push, true),
        Err(ActivateError::UnsupportedMode(PadMode::Push))
    );
    assert_eq!(
        s.activate_mode(PadMode::Unknown, true),
        Err(ActivateError::UnsupportedMode(PadMode::Unknown))
    );
    // A prior successful pull activation changes nothing about it.
    assert_eq!(s.activate_mode(PadMode::Pull, true), Ok(()));
    assert_eq!(
        s.activate_mode(PadMode::Push, true),
        Err(ActivateError::UnsupportedMode(PadMode::Push))
    );
}

#[test]
fn pull_activation_succeeds_iff_child_activates() {
    let mut s = CustomSource::new();
    s.constructed().expect("construction");
    // No media: the child refuses to activate.
    assert_eq!(s.activate_mode(PadMode::Pull, true), Err(ActivateError::Refused));
    s.supply_media(media()).expect("media");
    assert_eq!(s.activate_mode(PadMode::Pull, true), Ok(()));
    // Deactivation always succeeds.
    assert_eq!(s.activate_mode(PadMode::Pull, false), Ok(()));
}

#[test]
fn activation_before_construction_is_not_linked() {
    let mut fresh = CustomSource::new();
    assert_eq!(fresh.activate(), Err(ActivateError::NotLinked));
    assert_eq!(fresh.activate_mode(PadMode::Pull, true), Err(ActivateError::NotLinked));
}

#[test]
fn plain_activate_forces_pull() {
    let mut s = built_with_media();
    assert_eq!(s.activate(), Ok(()));
    assert_eq!(s.range(0, 1), Ok(vec![0u8]));
}

#[test]
fn range_returns_exact_bytes() {
    let mut s = built_with_media();
    s.activate().expect("activation");
    let reference = media();
    assert_eq!(s.range(0, 4), Ok(reference[0..4].to_vec()));
    assert_eq!(s.range(3, 5), Ok(reference[3..8].to_vec()));
    assert_eq!(s.range(0, 10), Ok(reference.clone()));
}

#[test]
fn range_past_the_end_is_eos() {
    let mut s = built_with_media();
    s.activate().expect("activation");
    assert_eq!(s.range(10, 1), Err(FlowError::Eos));
    assert_eq!(s.range(250, 16), Err(FlowError::Eos));
}

#[test]
fn range_over_the_tail_returns_the_remainder() {
    let mut s = built_with_media();
    s.activate().expect("activation");
    let reference = media();
    assert_eq!(s.range(6, 10), Ok(reference[6..10].to_vec()));
    assert_eq!(s.range(9, 1000), Ok(vec![9u8]));
}

#[test]
fn empty_media_is_eos_at_once() {
    let mut s = CustomSource::new();
    s.constructed().expect("construction");
    s.supply_media(Vec::new()).expect("media");
    s.activate().expect("activation");
    assert_eq!(s.range(0, 1), Err(FlowError::Eos));
}

#[test]
fn zero_sized_read_is_an_empty_buffer() {
    let mut s = built_with_media();
    s.activate().expect("activation");
    assert_eq!(s.range(0, 0), Ok(Vec::new()));
    assert_eq!(s.range(9, 0), Ok(Vec::new()));
}

#[test]
fn largest_read_size_returns_the_whole_tail() {
    let mut s = built_with_media();
    s.activate().expect("activation");
    assert_eq!(s.range(0, u32::MAX), Ok(media()));
    assert_eq!(s.range(5, u32::MAX), Ok(media()[5..].to_vec()));
}

#[test]
fn range_while_inactive_is_flushing() {
    let s = built_with_media();
    assert_eq!(s.range(0, 4), Err(FlowError::Flushing));

    let fresh = CustomSource::new();
    assert_eq!(fresh.range(0, 4), Err(FlowError::Flushing));
}

#[test]
fn range_fill_rewrites_the_buffer() {
    let mut s = built_with_media();
    s.activate().expect("activation");
    let mut buffer = vec![255u8; 3];
    assert_eq!(s.range_fill(2, &mut buffer, 4), Ok(()));
    assert_eq!(buffer, media()[2..6].to_vec());
}

#[test]
fn range_fill_failure_leaves_the_buffer() {
    let mut s = built_with_media();
    s.activate().expect("activation");
    let mut buffer = vec![1u8, 2u8];
    assert_eq!(s.range_fill(10, &mut buffer, 4), Err(FlowError::Eos));
    assert_eq!(buffer, vec![1u8, 2u8]);
}

#[test]
fn events_follow_the_wiring() {
    let fresh = CustomSource::new();
    assert!(!fresh.event(PadEvent::Reconfigure));

    let s = built_with_media();
    assert!(s.event(PadEvent::FlushStart));
    assert!(s.event(PadEvent::FlushStop));
}
