use expression_editor_ui::keys::{
    key_panel, razor_help_title, spring_tool, SpringState, SpringTool, chord_label, key_code, label_for, sort_by_key, Chord, Continuation, Key, KeyState, SURFACE,
};

fn plain(key: &str) -> Chord {
    Chord { key: key_code(key), ctrl: false, alt: false, shift: false }
}

fn row(key: &str, label: &str) -> Continuation {
    Continuation { key: key.to_string(), label: label.to_string(), is_group: false }
}

#[test]
fn key_names_become_keys() {
    assert_eq!(key_code("ArrowUp"), Key::ArrowUp);
    assert_eq!(key_code("Escape"), Key::Escape);
    assert_eq!(key_code("Delete"), Key::Delete);
    assert_eq!(key_code("F5"), Key::F(5));
    assert_eq!(key_code("F12"), Key::F(12));
    assert_eq!(key_code("F13"), Key::Character("f13".to_string()));
    assert_eq!(key_code("F0"), Key::Character("f0".to_string()));
    assert_eq!(key_code("F"), Key::Character("f".to_string()));
    assert_eq!(key_code("Z"), Key::Character("z".to_string()));
    assert_eq!(key_code("z"), Key::Character("z".to_string()));
    assert_eq!(SURFACE, "editor");
}

#[test]
fn chords_read_with_their_modifiers() {
    assert_eq!(chord_label(&plain("z")), "z");
    let c = Chord { key: Key::Character("i".to_string()), ctrl: true, alt: false, shift: false };
    assert_eq!(chord_label(&c), "Ctrl+i");
    let all = Chord { key: Key::ArrowLeft, ctrl: true, alt: true, shift: true };
    assert_eq!(chord_label(&all), "Ctrl+Alt+Shift+Left");
    assert_eq!(chord_label(&plain("F7")), "F7");
    assert_eq!(chord_label(&Chord { key: Key::F(12), ctrl: false, alt: false, shift: true }), "Shift+F12");
    assert_eq!(chord_label(&Chord { key: Key::F(255), ctrl: false, alt: false, shift: false }), "F255");
}

#[test]
fn a_held_prefix_is_one_printable_chord() {
    let mut keys = KeyState::new();
    assert!(!keys.is_pending());
    assert_eq!(keys.held_prefix(), None);
    keys.resolved(plain("z"), true);
    assert!(keys.is_pending());
    assert_eq!(keys.held_prefix(), Some("z".to_string()));
    assert!(keys.zoom_prefix_held());
    keys.released(true);
    assert!(keys.zoom_prefix_held());
    // A second key of a longer sequence is not a held tool.
    keys.resolved(plain("a"), true);
    assert_eq!(keys.held_prefix(), None);
    assert!(!keys.zoom_prefix_held());
    assert_eq!(keys.typed().len(), 2);
    // The sequence completes.
    keys.resolved(plain("x"), false);
    assert!(!keys.is_pending());
    assert!(keys.typed().is_empty());
}

#[test]
fn a_held_v_is_not_the_zoom_prefix() {
    let mut keys = KeyState::new();
    keys.resolved(plain("v"), true);
    assert_eq!(keys.held_prefix(), Some("v".to_string()));
    assert!(!keys.zoom_prefix_held());
    keys.resolved(Chord { key: Key::Escape, ctrl: false, alt: false, shift: false }, true);
    keys.cancel();
    assert!(!keys.is_pending());
    assert_eq!(keys.held_prefix(), None);
}

#[test]
fn a_release_that_ends_the_sequence_clears_it() {
    let mut keys = KeyState::default();
    keys.resolved(plain("g"), true);
    keys.released(false);
    assert!(!keys.is_pending());
    assert!(keys.typed().is_empty());
}

#[test]
fn continuations_are_empty_until_something_is_typed_and_then_sorted() {
    let mut keys = KeyState::new();
    let children = vec![row("t", "Top"), row("b", "Bottom"), row("c", "Center"), row("Ctrl+i", "Fit")];
    assert!(keys.continuations(children.clone()).is_empty());
    keys.resolved(plain("z"), true);
    let out = keys.continuations(children);
    let order: Vec<&str> = out.iter().map(|c| c.key.as_str()).collect();
    assert_eq!(order, vec!["Ctrl+i", "b", "c", "t"]);
    assert_eq!(out[1].label, "Bottom");
}

#[test]
fn sorting_keeps_every_row_and_orders_prefixes_first() {
    let out = sort_by_key(vec![row("ab", "2"), row("a", "1"), row("b", "3"), row("a", "1b")]);
    let keys: Vec<&str> = out.iter().map(|c| c.key.as_str()).collect();
    assert_eq!(keys, vec!["a", "a", "ab", "b"]);
    // Equal keys keep the order they arrived in.
    assert_eq!(out[0].label, "1");
    assert_eq!(out[1].label, "1b");
}

#[test]
fn labels_fall_back_to_the_last_word_of_the_id() {
    assert_eq!(label_for("view.fit_item", Some("Fit item")), "Fit item");
    assert_eq!(label_for("view.fit_item", None), "item");
    assert_eq!(label_for("grid.16", None), "16");
    assert_eq!(label_for("transport.play.", None), "play");
    assert_eq!(label_for("solo", None), "solo");
    assert_eq!(label_for("_._", None), " . ");
    assert_eq!(label_for("", None), "");
}

#[test]
fn the_razor_panel_lists_its_verbs_when_live() {
    let rows = expression_editor_ui::keys::razor_help_rows(true, vec![row("q", "ignored")]);
    assert_eq!(rows.len(), 15);
    assert_eq!(rows[0].key, "r");
    assert_eq!(rows[0].label, "Retrograde");
    assert_eq!(rows[14].key, "Esc");
    assert!(rows.iter().all(|r| !r.is_group));
}

#[test]
fn otherwise_the_razor_panel_teaches_the_long_spelling() {
    let after_a = vec![row("d", "Duplicate"), Continuation { key: "m".into(), label: "More".into(), is_group: true }];
    let rows = expression_editor_ui::keys::razor_help_rows(false, after_a);
    let keys: Vec<&str> = rows.iter().map(|r| r.key.as_str()).collect();
    assert_eq!(keys, vec!["a d", "a m", "x"]);
    assert!(rows[1].is_group);
    assert_eq!(rows[2].label, "Razor tool — then single keys");
}

#[test]
fn chord_rows_take_the_real_chord_names() {
    let names: Vec<String> = ["C", "Dm", "", "F", "G", "Am", "B°"].iter().map(|s| s.to_string()).collect();
    let rows = vec![row("1", "Degree I"), row("3", "Degree III"), row("6", "Degree VI"), row("8", "Eight"), row("+2", "Two"), row("q", "Quit")];
    let out = expression_editor_ui::keys::name_chord_rows(rows, &names);
    let labels: Vec<&str> = out.iter().map(|r| r.label.as_str()).collect();
    assert_eq!(labels, vec!["C", "Degree III", "Am", "Eight", "Dm", "Quit"]);
    assert_eq!(out[0].key, "1");
}

#[test]
fn the_key_panel_prefers_a_typed_sequence_then_the_razor() {
    let names: Vec<String> = ["C", "Dm", "Em", "F", "G", "Am", "B°"].iter().map(|s| s.to_string()).collect();
    let typed = vec![row("2", "Degree II")];
    let (title, rows) = key_panel(typed, "C major · triad · inv 0".into(), &names, true, true, vec![]).unwrap();
    assert_eq!(title, "C major · triad · inv 0");
    assert_eq!(rows[0].label, "Dm");
    let (title, rows) = key_panel(vec![], String::new(), &names, true, false, vec![row("d", "Duplicate")]).unwrap();
    assert_eq!(title, "Razor · a");
    assert_eq!(rows.len(), 2);
    let (title, rows) = key_panel(vec![], String::new(), &names, true, true, vec![]).unwrap();
    assert_eq!(title, "Razor");
    assert_eq!(rows.len(), 15);
    assert!(key_panel(vec![], String::new(), &names, false, false, vec![]).is_none());
    assert_eq!(razor_help_title(true), "Razor");
}

#[test]
fn z_and_v_spring_into_tools() {
    assert_eq!(spring_tool("z"), Some(SpringTool::Zoom));
    assert_eq!(spring_tool("v"), Some(SpringTool::Velocity));
    assert_eq!(spring_tool("g"), None);
    assert_eq!(spring_tool("zz"), None);
}

#[test]
fn a_tapped_spring_key_restores_the_tool_and_keeps_the_sequence_open() {
    let mut s: SpringState<u8> = SpringState::new();
    assert!(!s.is_armed());
    assert!(s.arm(3, false));
    assert!(s.is_armed());
    assert!(!s.arm(7, false));
    assert_eq!(s.release(), (Some(3), false));
    assert!(!s.is_armed());
    assert_eq!(s.release(), (None, false));
}

#[test]
fn a_spent_hold_restores_the_tool_and_closes_the_sequence() {
    let mut s: SpringState<u8> = SpringState::default();
    s.pointer_down(true);
    assert_eq!(s.release(), (None, false));
    assert!(s.arm(3, false));
    s.pointer_down(false);
    s.pointer_down(true);
    assert_eq!(s.release(), (Some(3), true));
}

#[test]
fn a_spring_key_for_the_current_tool_arms_nothing() {
    let mut s: SpringState<u8> = SpringState::new();
    assert!(!s.arm(3, true));
    s.pointer_down(true);
    assert_eq!(s.release(), (None, false));
}
