use expression_editor_ui::interaction::{
    context_from, survives_release, toggled_lock, Axis, DragKind, HitKind, PointerContext,
};

#[test]
fn fixed_axes_ignore_the_drag() {
    let mut a = Axis::Both;
    assert_eq!(a.allows(true, true), (true, true));
    let mut h = Axis::Horizontal;
    assert_eq!(h.allows(false, false), (true, false));
    let mut v = Axis::Vertical;
    assert_eq!(v.allows(true, true), (false, true));
}

#[test]
fn a_committing_axis_waits_then_keeps_its_decision() {
    let mut a = Axis::Commit(None);
    // Inside the dead zone: nothing moves and nothing is decided.
    assert_eq!(a.allows(false, true), (false, false));
    assert_eq!(a, Axis::Commit(None));
    // The first real movement is mostly vertical.
    assert_eq!(a.allows(true, false), (false, true));
    assert_eq!(a, Axis::Commit(Some(false)));
    // A later, mostly horizontal drag does not flip it.
    assert_eq!(a.allows(true, true), (false, true));
    assert_eq!(a, Axis::Commit(Some(false)));
}

use expression_editor_ui::interaction::{key_command, KeyCommand, KeyContext, RazorLock, ToolChoice, RAZOR_KEYS};

fn idle() -> KeyContext {
    KeyContext {
        razor_tool: false,
        has_razor: false,
        has_selection: false,
        has_selected_notes: false,
        has_reference: false,
        draws_blobs: false,
        mpe: false,
        dragging: false,
    }
}

#[test]
fn escape_backs_out_of_the_most_specific_thing_first() {
    let razor = KeyContext { razor_tool: true, has_razor: true, has_selection: true, has_selected_notes: true, ..idle() };
    assert_eq!(key_command("Escape", false, false, razor), KeyCommand::ClearRazor);
    let tool_only = KeyContext { razor_tool: true, has_selection: true, has_selected_notes: true, ..idle() };
    assert_eq!(key_command("Escape", false, false, tool_only), KeyCommand::LeaveRazor);
    let selected = KeyContext { has_selection: true, has_selected_notes: true, ..idle() };
    assert_eq!(key_command("Escape", false, false, selected), KeyCommand::ClearSelection);
    assert_eq!(key_command("Escape", false, false, idle()), KeyCommand::Unhandled);
}

#[test]
fn razor_verbs_outrank_tool_letters() {
    let razor = KeyContext { razor_tool: true, has_razor: true, ..idle() };
    assert_eq!(key_command("x", false, false, razor), KeyCommand::RazorDeleteContents);
    assert_eq!(key_command("r", true, false, razor), KeyCommand::RazorReversePitches);
    assert_eq!(key_command("h", false, false, razor), KeyCommand::RazorToggleLock(RazorLock::Horizontal));
    assert_eq!(key_command("x", false, false, idle()), KeyCommand::SetTool(ToolChoice::Razor));
    assert_eq!(key_command("x", true, false, idle()), KeyCommand::Cut);
    // Not a verb: falls through to the editor's own keys.
    assert_eq!(key_command("w", false, false, razor), KeyCommand::SetTool(ToolChoice::Curve));
    assert_eq!(RAZOR_KEYS.len(), 15);
}

#[test]
fn editor_keys() {
    let c = idle();
    assert_eq!(key_command("z", true, false, c), KeyCommand::Undo);
    assert_eq!(key_command("z", true, true, c), KeyCommand::Redo);
    assert_eq!(key_command("y", true, false, c), KeyCommand::Redo);
    assert_eq!(key_command("a", true, false, c), KeyCommand::SelectAll);
    assert_eq!(key_command("f", false, true, c), KeyCommand::SmartZoom { whole_part: true });
    assert_eq!(key_command("2", false, true, c), KeyCommand::ToggleTiming);
    assert_eq!(key_command("2", false, false, c), KeyCommand::GridFiner);
    assert_eq!(key_command("1", false, false, c), KeyCommand::GridCoarser);
    assert_eq!(key_command("m", false, false, c), KeyCommand::Unhandled);
    assert_eq!(key_command("m", false, false, KeyContext { has_reference: true, ..c }), KeyCommand::ReferenceToFront);
    assert_eq!(key_command("i", false, false, KeyContext { draws_blobs: true, ..c }), KeyCommand::ToggleSibilantScope);
    assert_eq!(key_command("r", false, false, c), KeyCommand::RefsToFront);
    assert_eq!(key_command("r", false, false, KeyContext { mpe: true, ..c }), KeyCommand::Unhandled);
    assert_eq!(
        key_command("r", false, false, KeyContext { mpe: true, has_selection: true, has_selected_notes: true, ..c }),
        KeyCommand::AssignChannels
    );
    assert_eq!(key_command("b", false, false, c), KeyCommand::Unhandled);
    assert_eq!(key_command("b", false, false, KeyContext { has_selection: true, has_selected_notes: true, ..c }), KeyCommand::SplitNote);
    assert_eq!(key_command("q", false, false, KeyContext { has_selection: true, has_selected_notes: true, ..c }), KeyCommand::ZoneSplit);
    assert_eq!(key_command("nope", false, false, c), KeyCommand::Unhandled);
}

#[test]
fn arrows_move_razors_and_delete_prefers_them() {
    let razor = KeyContext { has_razor: true, has_selection: true, has_selected_notes: true, ..idle() };
    assert_eq!(
        key_command("ArrowRight", true, false, razor),
        KeyCommand::RazorNudgeTime { later: true, by_bar: true, resize: false }
    );
    assert_eq!(key_command("ArrowUp", false, true, razor), KeyCommand::RazorNudgeRows { up: true, resize: true });
    assert_eq!(key_command("Delete", false, false, razor), KeyCommand::RazorDeleteContents);
    assert_eq!(key_command("Delete", false, false, KeyContext { dragging: true, ..razor }), KeyCommand::Unhandled);
    let selected = KeyContext { has_selection: true, has_selected_notes: true, ..idle() };
    assert_eq!(key_command("Backspace", false, false, selected), KeyCommand::DeleteSelection { delete: true });
    assert_eq!(
        key_command("Delete", false, false, KeyContext { dragging: true, ..selected }),
        KeyCommand::DeleteSelection { delete: false }
    );
    assert_eq!(key_command("ArrowLeft", false, false, idle()), KeyCommand::Unhandled);
}

#[test]
fn a_lock_key_toggles_its_own_lock() {
    assert_eq!(toggled_lock(None, RazorLock::Horizontal), Some(RazorLock::Horizontal));
    assert_eq!(toggled_lock(Some(RazorLock::Horizontal), RazorLock::Horizontal), None);
    assert_eq!(toggled_lock(Some(RazorLock::Vertical), RazorLock::Horizontal), Some(RazorLock::Horizontal));
    assert_eq!(toggled_lock(Some(RazorLock::Horizontal), RazorLock::Vertical), Some(RazorLock::Vertical));
    let twice = toggled_lock(toggled_lock(None, RazorLock::Vertical), RazorLock::Vertical);
    assert_eq!(twice, None);
}

#[test]
fn cc_edit_outranks_the_razor_and_the_razor_outranks_notes() {
    assert_eq!(context_from(Some(true), Some(true), HitKind::Note), PointerContext::CcEvent);
    assert_eq!(context_from(Some(false), Some(false), HitKind::NoteEdge), PointerContext::CcLane);
    assert_eq!(context_from(None, Some(true), HitKind::Note), PointerContext::RazorEdge);
    assert_eq!(context_from(None, Some(false), HitKind::ZoneSplit), PointerContext::RazorArea);
    assert_eq!(context_from(None, None, HitKind::ZoneSplit), PointerContext::ZoneSplit);
    assert_eq!(context_from(None, None, HitKind::NoteEdge), PointerContext::NoteEdge);
    assert_eq!(context_from(None, None, HitKind::Note), PointerContext::Note);
    assert_eq!(context_from(None, None, HitKind::CurvePoint), PointerContext::Note);
    assert_eq!(context_from(None, None, HitKind::Empty), PointerContext::PianoRoll);
}

#[test]
fn only_the_curve_gestures_outlive_release() {
    assert!(survives_release(DragKind::Curve));
    assert!(survives_release(DragKind::CcLine));
    for kind in [
        DragKind::Idle,
        DragKind::ZoomTool,
        DragKind::Marquee,
        DragKind::Pen,
        DragKind::CcPen,
        DragKind::RazorCreate,
        DragKind::Handle,
        DragKind::TempNote,
        DragKind::Velocity,
    ] {
        assert!(!survives_release(kind));
    }
}
