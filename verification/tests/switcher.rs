use expression_editor_ui::switcher::{is_shown, shortcut};

#[test]
fn rows_advertise_their_position_and_the_tenth_is_zero() {
    assert_eq!(shortcut(0), Some("1".to_string()));
    assert_eq!(shortcut(4), Some("5".to_string()));
    assert_eq!(shortcut(9), Some("0".to_string()));
    assert_eq!(shortcut(10), None);
    assert_eq!(shortcut(usize::MAX), None);
}

#[test]
fn the_switcher_hides_for_one_track_and_for_role_lanes() {
    assert!(!is_shown(1, false, &[]));
    assert!(is_shown(2, false, &[true, true]));
    assert!(!is_shown(3, true, &[true, true]));
    assert!(is_shown(3, true, &[true, false]));
    assert!(is_shown(3, true, &[]));
}
