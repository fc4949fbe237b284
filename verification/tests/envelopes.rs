use expression_editor_ui::envelopes::{ActiveEnvelope, EnvelopePanel, Shown};

#[test]
fn the_ride_is_active_by_default_and_everything_is_shown() {
    let p = EnvelopePanel::default();
    assert_eq!(p.drag_target(), ActiveEnvelope::Ride);
    assert_eq!(p.shown.shown_count(), 4);
    assert!(p.shown.composite);
}

#[test]
fn labels_name_each_envelope() {
    let labels: Vec<&str> = ActiveEnvelope::ALL.iter().map(|e| e.label()).collect();
    assert_eq!(labels, vec!["Gate", "Breath", "Sibilance", "Ride"]);
}

#[test]
fn toggling_twice_restores_the_overlays() {
    let mut s = Shown::default();
    s.toggle(ActiveEnvelope::Breath);
    assert!(!s.is_shown(ActiveEnvelope::Breath));
    assert!(s.is_shown(ActiveEnvelope::Gate));
    assert_eq!(s.shown_count(), 3);
    s.toggle(ActiveEnvelope::Breath);
    assert_eq!(s, Shown::default());
}

#[test]
fn solo_shows_exactly_one_and_keeps_the_composite() {
    let mut s = Shown::default();
    s.composite = false;
    s.solo(ActiveEnvelope::Sibilance);
    assert_eq!(s.shown_count(), 1);
    assert!(s.is_shown(ActiveEnvelope::Sibilance));
    assert!(!s.is_shown(ActiveEnvelope::Ride));
    assert!(!s.composite);
}

#[test]
fn activating_a_hidden_envelope_shows_it() {
    let mut p = EnvelopePanel::default();
    p.shown.solo(ActiveEnvelope::Ride);
    p.activate(ActiveEnvelope::Gate);
    assert_eq!(p.drag_target(), ActiveEnvelope::Gate);
    assert!(p.shown.is_shown(ActiveEnvelope::Gate));
    assert_eq!(p.shown.shown_count(), 2);
}

#[test]
fn cycling_wraps_and_returns_after_four() {
    let mut p = EnvelopePanel::default();
    p.shown.solo(ActiveEnvelope::Ride);
    p.cycle();
    assert_eq!(p.active, ActiveEnvelope::Gate);
    assert!(p.shown.gate);
    p.cycle();
    assert_eq!(p.active, ActiveEnvelope::Breath);
    p.cycle();
    assert_eq!(p.active, ActiveEnvelope::Sibilance);
    p.cycle();
    assert_eq!(p.active, ActiveEnvelope::Ride);
    assert_eq!(p.shown.shown_count(), 4);
}
