use expression_editor_ui::theme::{
    button_style, group_label_style, group_style, is_black_key, is_hex_literal, pitch_class_color,
    select_style, Palette,
};

fn palette() -> Palette {
    Palette {
        control: "ctl",
        control_active: "ctl-on",
        accent: "acc",
        selected: "sel",
        panel_border: "bd",
        text: "tx",
        text_dim: "dim",
        pitch_classes: ["c", "c#", "d", "d#", "e", "f", "f#", "g", "g#", "a", "a#", "b"],
    }
}

#[test]
fn pitch_classes_repeat_every_octave_below_zero_too() {
    let p = palette();
    assert_eq!(pitch_class_color(&p, 60), "c");
    assert_eq!(pitch_class_color(&p, 61), "c#");
    assert_eq!(pitch_class_color(&p, -1), "b");
    assert_eq!(pitch_class_color(&p, -12), "c");
    assert_eq!(pitch_class_color(&p, i32::MIN), pitch_class_color(&p, i32::MIN + 12));
}

#[test]
fn black_keys() {
    let black: Vec<i32> = (0..12).filter(|r| is_black_key(*r)).collect();
    assert_eq!(black, vec![1, 3, 6, 8, 10]);
    assert!(is_black_key(-11));
    assert!(!is_black_key(-12));
}

#[test]
fn styles_use_the_palette() {
    let p = palette();
    assert_eq!(
        group_style(&p),
        "display: flex; align-items: center; gap: 4px; padding: 0 8px; border-right: 1px solid bd;"
    );
    assert_eq!(
        group_label_style(&p),
        "color: dim; font-size: 9px; letter-spacing: 0.08em; text-transform: uppercase; margin-right: 2px; user-select: none;"
    );
    assert_eq!(
        select_style(&p),
        "height: 26px; background: ctl; border: 1px solid bd; border-radius: 5px; color: tx; font-size: 11px; padding: 0 6px;"
    );
    assert!(button_style(&p, true).contains("background: ctl-on; border: 1px solid acc;"));
    assert!(button_style(&p, false).contains("color: tx;"));
}

#[test]
fn hex_literals_are_recognised() {
    assert!(is_hex_literal("background: #1a1a22;"));
    assert!(is_hex_literal("color:#fff"));
    assert!(is_hex_literal("#abcdef80 "));
    assert!(!is_hex_literal("#abcd"));
    assert!(!is_hex_literal("#fffx"));
    assert!(!is_hex_literal("id=\"#header\""));
    assert!(!is_hex_literal("no colour here"));
    assert!(is_hex_literal("#12g #123"));
}

/// Every colour the theme module writes comes from the palette it is
/// handed, never a local literal: each colour slot of every style, and
/// every pitch-class hue, is a palette entry.
#[test]
fn no_colour_is_defined_locally() {
    let p = palette();
    let entries = [
        p.control, p.control_active, p.accent, p.selected, p.panel_border, p.text, p.text_dim,
    ];
    let styles = [
        ("theme.rs", button_style(&p, true)),
        ("theme.rs", button_style(&p, false)),
        ("theme.rs", group_style(&p)),
        ("theme.rs", group_label_style(&p)),
        ("theme.rs", select_style(&p)),
    ];
    for (name, style) in styles {
        for decl in style.split(';') {
            let Some((prop, value)) = decl.split_once(':') else { continue };
            let prop = prop.trim();
            if !(prop == "background" || prop == "color" || prop.starts_with("border")) {
                continue;
            }
            if prop == "border-radius" {
                continue;
            }
            let colour = value.trim().rsplit(' ').next().unwrap();
            assert!(
                entries.contains(&colour),
                "colour defined locally instead of in the palette:\n  {name}: {decl}"
            );
        }
    }
    for row in -24..24 {
        assert!(p.pitch_classes.contains(&pitch_class_color(&p, row)));
    }
}

/// No style the crate writes carries a colour literal of its own: with a
/// palette of names, nothing it writes reads as a hex colour.
#[test]
fn no_module_writes_a_hex_literal() {
    let p = palette();
    let written = [
        ("theme.rs", "button_style", button_style(&p, true)),
        ("theme.rs", "button_style", button_style(&p, false)),
        ("theme.rs", "group_style", group_style(&p)),
        ("theme.rs", "group_label_style", group_label_style(&p)),
        ("theme.rs", "select_style", select_style(&p)),
    ];
    let mut found = Vec::new();
    for (name, n, line) in written {
        if is_hex_literal(&line) {
            found.push(format!("{name}:{}: {}", n, line.trim()));
        }
    }
    assert!(found.is_empty(), "hex literals must come from the palette:\n  {}", found.join("\n  "));
}
