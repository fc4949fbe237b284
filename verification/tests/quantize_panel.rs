use expression_editor_ui::quantize_panel::{
    GridDivision, GridFeel, Group, PresetList, SliderDefaults, WriteMode,
};

#[test]
fn a_group_is_valid_only_with_a_member_trigger() {
    let mut g = Group::default();
    assert!(!g.is_valid());
    g.members = vec!["kick".to_string(), "snare".to_string()];
    assert!(!g.is_valid());
    g.trigger = Some("snare".to_string());
    assert!(g.is_valid());
    g.trigger = Some("room".to_string());
    assert!(!g.is_valid());
}

#[test]
fn grid_labels() {
    let labels: Vec<&str> = GridDivision::ALL.iter().map(|d| d.label()).collect();
    assert_eq!(labels, vec!["1/4", "1/8", "1/16", "1/32", "1/64"]);
    let feels: Vec<&str> = GridFeel::ALL.iter().map(|f| f.label()).collect();
    assert_eq!(feels, vec!["straight", "triplet", "dotted"]);
    assert_eq!(GridFeel::default(), GridFeel::Straight);
    assert_eq!(WriteMode::default(), WriteMode::Split);
}

#[test]
fn a_stored_default_is_what_reset_returns() {
    let mut d: SliderDefaults<f64> = SliderDefaults::default();
    assert_eq!(d.get("pad"), None);
    assert_eq!(d.reset_value("pad", 0.007), 0.007);
    d.store("pad", 0.01);
    d.store("crossfade", 0.02);
    assert_eq!(d.get("pad"), Some(0.01));
    assert_eq!(d.reset_value("pad", 0.007), 0.01);
    d.store("pad", 0.03);
    assert_eq!(d.get("pad"), Some(0.03));
    assert_eq!(d.get("crossfade"), Some(0.02));
    assert_eq!(d.reset_value("swing", 0.5), 0.5);
}

#[test]
fn a_cloned_set_of_defaults_is_independent() {
    let mut d: SliderDefaults<f64> = SliderDefaults::new();
    d.store("pad", 0.01);
    let mut c = d.clone();
    assert_eq!(c.get("pad"), Some(0.01));
    c.store("pad", 0.5);
    assert_eq!(c.get("pad"), Some(0.5));
    assert_eq!(d.get("pad"), Some(0.01));
}

#[test]
fn applying_selects_an_existing_preset_and_saving_selects_the_new_one() {
    let mut l = PresetList::new(vec!["Full kit", "Kick", "Snare", "Toms"]);
    assert_eq!(l.selected(), 0);
    assert!(l.select(2));
    assert_eq!(l.selected(), 2);
    assert!(!l.select(4));
    assert_eq!(l.selected(), 2);
    l.save("User 1");
    assert_eq!(l.selected(), 4);
    assert_eq!(l.presets(), &vec!["Full kit", "Kick", "Snare", "Toms", "User 1"]);
}
