//! Which axes a move gesture may travel on and how a free drag commits to
//! one of them, what a key means on the roll, which mouse-modifier context
//! the pointer is in, and which drags outlive their release.
use vstd::prelude::*;

use crate::text::same_text;

verus! {

/// Which axes a move gesture is allowed to travel on.
#[derive(Clone, Copy, Debug, PartialEq, Eq, Structural)]
pub enum Axis {
    Both,
    Horizontal,
    Vertical,
    /// Free until the drag commits, then locked to whichever axis it
    /// travelled furthest along first. A gesture that re-decides every
    /// frame flickers between axes at the corner, so the decision, once
    /// made, is kept.
    Commit(Option<bool>),
}

impl Default for Axis {
    fn default() -> (a: Self)
        ensures
            a == Axis::Both,
    {
        Axis::Both
    }
}

/// The axis after resolving a drag that is (or is not) past the dead zone
/// and that travelled (or did not) at least as far horizontally as
/// vertically.
pub open spec fn axis_after(a: Axis, past_dead_zone: bool, mostly_horizontal: bool) -> Axis {
    match a {
        Axis::Commit(None) => if past_dead_zone {
            Axis::Commit(Some(mostly_horizontal))
        } else {
            a
        },
        _ => a,
    }
}

/// `(horizontal, vertical)`: which axes the resolved axis lets through.
pub open spec fn axis_allows(a: Axis) -> (bool, bool) {
    match a {
        Axis::Both => (true, true),
        Axis::Horizontal => (true, false),
        Axis::Vertical => (false, true),
        Axis::Commit(Some(true)) => (true, false),
        Axis::Commit(Some(false)) => (false, true),
        Axis::Commit(None) => (false, false),
    }
}

impl Axis {
    /// Resolve against a drag, committing if this is the first movement
    /// worth deciding on. Returns `(horizontal, vertical)`.
    ///
    /// The caller measures the drag: `past_dead_zone` is whether its
    /// larger component has reached the dead zone — the first pixel of a
    /// drag is noise, and committing on it locks half of them to the
    /// wrong axis — and `mostly_horizontal` whether it went at least as
    /// far horizontally as vertically.
    pub fn allows(&mut self, past_dead_zone: bool, mostly_horizontal: bool) -> (r: (bool, bool))
        ensures
            *final(self) == axis_after(*old(self), past_dead_zone, mostly_horizontal),
            r == axis_allows(*final(self)),
    {
        match self {
            Axis::Both => (true, true),
            Axis::Horizontal => (true, false),
            Axis::Vertical => (false, true),
            Axis::Commit(decided) => {
                if decided.is_none() {
                    if past_dead_zone {
                        *decided = Some(mostly_horizontal);
                    }
                }
                match decided {
                    Some(true) => (true, false),
                    Some(false) => (false, true),
                    None => (false, false),
                }
            },
        }
    }
}

/// What pressing a razor lock key makes of the current lock: the same
/// lock again turns it off, any other key locks that axis instead.
pub open spec fn lock_after(current: Option<RazorLock>, pressed: RazorLock) -> Option<RazorLock> {
    if current == Some(pressed) {
        None
    } else {
        Some(pressed)
    }
}

/// Toggle a razor lock. Pressing the lock already on turns it off, so
/// every one of them is its own way out.
pub fn toggled_lock(current: Option<RazorLock>, pressed: RazorLock) -> (r: Option<RazorLock>)
    ensures
        r == lock_after(current, pressed),
{
    match current {
        Some(RazorLock::Horizontal) => match pressed {
            RazorLock::Horizontal => None,
            RazorLock::Vertical => Some(RazorLock::Vertical),
        },
        Some(RazorLock::Vertical) => match pressed {
            RazorLock::Vertical => None,
            RazorLock::Horizontal => Some(RazorLock::Horizontal),
        },
        None => Some(pressed),
    }
}

/// Pressing the same lock key twice comes back to unlocked, or to that
/// lock if it was the one on; a lock key never leaves the other axis
/// locked.
pub proof fn lock_keys_are_their_own_way_out(current: Option<RazorLock>, pressed: RazorLock)
    ensures
        lock_after(lock_after(current, pressed), pressed) == if current == Some(pressed) {
            Some(pressed)
        } else {
            None
        },
        lock_after(current, pressed) is None || lock_after(current, pressed) == Some(pressed),
{
}

/// Once a committing axis has decided, no later drag changes the decision.
pub proof fn commitment_is_kept(a: Axis, past_dead_zone: bool, mostly_horizontal: bool)
    requires
        a matches Axis::Commit(Some(_)),
    ensures
        axis_after(a, past_dead_zone, mostly_horizontal) == a,
{
}

/// A committing axis never lets a drag through on both axes at once, and
/// lets it through on exactly one once it has decided.
pub proof fn commit_moves_on_one_axis(a: Axis, past_dead_zone: bool, mostly_horizontal: bool)
    requires
        a matches Axis::Commit(_),
    ensures
        ({
            let r = axis_allows(axis_after(a, past_dead_zone, mostly_horizontal));
            !(r.0 && r.1) && ((axis_after(a, past_dead_zone, mostly_horizontal) matches Axis::Commit(
                Some(_),
            )) ==> (r.0 || r.1))
        }),
{
}

/// An undecided axis that sees a drag past the dead zone commits to the
/// direction the drag mostly went.
pub proof fn first_real_drag_decides(mostly_horizontal: bool)
    ensures
        axis_after(Axis::Commit(None), true, mostly_horizontal) == Axis::Commit(Some(mostly_horizontal)),
        axis_allows(axis_after(Axis::Commit(None), true, mostly_horizontal)) == (
            mostly_horizontal,
            !mostly_horizontal,
        ),
{
}

/// The razor's verbs, as the help panel lists them: `(key, what it does)`.
///
/// Kept beside the handler that runs them, so the panel cannot drift from
/// the keys that actually work.
pub const RAZOR_KEYS: [(&'static str, &'static str); 15] = [
    ("r", "Retrograde"),
    ("Ctrl+r", "Retrograde pitches only"),
    ("v", "Invert pitches"),
    ("x", "Delete contents"),
    ("d", "Duplicate"),
    ("s", "Select contents"),
    ("u", "Unselect contents"),
    ("f", "Full-lane area"),
    ("i", "Insert mode"),
    ("h", "Lock horizontal"),
    ("l", "Lock vertical"),
    ("←→", "Move by grid"),
    ("↑↓", "Move by row"),
    ("⇧←→", "Resize"),
    ("Esc", "Drop areas, then exit"),
];

// ── the keyboard ────────────────────────────────────────────────────────

/// What the keyboard handler needs to know about the editor to decide
/// what a key does.
#[derive(Clone, Copy, Debug, PartialEq, Eq, Structural)]
pub struct KeyContext {
    /// The razor is the armed tool.
    pub razor_tool: bool,
    /// At least one razor area is drawn.
    pub has_razor: bool,
    /// Anything is selected.
    pub has_selection: bool,
    /// At least one note is among the selection.
    pub has_selected_notes: bool,
    /// A reference track is loaded.
    pub has_reference: bool,
    /// The mode draws sibilant blobs.
    pub draws_blobs: bool,
    /// The mode is MPE.
    pub mpe: bool,
    /// A pointer gesture is in progress.
    pub dragging: bool,
}

/// A tool a bare letter selects.
#[derive(Clone, Copy, Debug, PartialEq, Eq, Structural)]
pub enum ToolChoice {
    Select,
    Curve,
    NoteDraw,
    NoteErase,
    Pen,
    Razor,
}

/// The axis a razor lock key toggles.
#[derive(Clone, Copy, Debug, PartialEq, Eq, Structural)]
pub enum RazorLock {
    Horizontal,
    Vertical,
}

/// What a key press asks of the editor.
#[derive(Clone, Copy, Debug, PartialEq, Eq, Structural)]
pub enum KeyCommand {
    /// Not this handler's key: leave it for whoever else wants it.
    Unhandled,
    // The razor's own verbs, live while the razor tool has areas.
    RazorReverse,
    RazorReversePitches,
    RazorInvert,
    RazorDeleteContents,
    RazorDuplicate,
    RazorSelectContents,
    RazorUnselectContents,
    RazorFullLane,
    /// Pressing the sticky mode already on turns it off.
    RazorToggleInsert,
    RazorToggleLock(RazorLock),
    /// Drop every razor area.
    ClearRazor,
    /// Nothing left to cut: put the razor down, with its sticky modes,
    /// and go back to Select.
    LeaveRazor,
    ClearSelection,
    Undo,
    Redo,
    SelectAll,
    /// Contextual zoom; `whole_part` frames the whole part rather than
    /// the local passage.
    SmartZoom { whole_part: bool },
    Cut,
    Copy,
    Paste,
    ToggleTiming,
    /// Hold to bring the MIDI reference forward.
    ReferenceToFront,
    ToggleSibilantScope,
    /// Bring references forward, held rather than toggled.
    RefsToFront,
    SetTool(ToolChoice),
    GridCoarser,
    GridFiner,
    ToggleTriplet,
    /// Split the first selected note's zone at the view's centre time.
    ZoneSplit,
    /// Split the first selected note at the view's centre time.
    SplitNote,
    AssignChannels,
    /// Move (or with `resize`, resize) the razor areas by a grid step, or
    /// by a bar, earlier or later.
    RazorNudgeTime { later: bool, by_bar: bool, resize: bool },
    /// Move (or resize) the razor areas by a row.
    RazorNudgeRows { up: bool, resize: bool },
    /// Delete the selected notes unless a gesture is running, and clear
    /// the selection either way.
    DeleteSelection { delete: bool },
}

/// What a key does while the razor's own verbs are live, if it is one of
/// them.
pub open spec fn razor_verb(key: Seq<char>, ctrl: bool) -> Option<KeyCommand> {
    if key == "r"@ && !ctrl {
        Some(KeyCommand::RazorReverse)
    } else if key == "r"@ {
        Some(KeyCommand::RazorReversePitches)
    } else if key == "v"@ {
        Some(KeyCommand::RazorInvert)
    } else if key == "x"@ {
        Some(KeyCommand::RazorDeleteContents)
    } else if key == "d"@ {
        Some(KeyCommand::RazorDuplicate)
    } else if key == "s"@ {
        Some(KeyCommand::RazorSelectContents)
    } else if key == "u"@ {
        Some(KeyCommand::RazorUnselectContents)
    } else if key == "f"@ {
        Some(KeyCommand::RazorFullLane)
    } else if key == "i"@ {
        Some(KeyCommand::RazorToggleInsert)
    } else if key == "h"@ {
        Some(KeyCommand::RazorToggleLock(RazorLock::Horizontal))
    } else if key == "l"@ {
        Some(KeyCommand::RazorToggleLock(RazorLock::Vertical))
    } else {
        None
    }
}

/// What Escape backs out of: the most specific thing first.
pub open spec fn escape_command(c: KeyContext) -> KeyCommand {
    if c.has_razor {
        KeyCommand::ClearRazor
    } else if c.razor_tool {
        KeyCommand::LeaveRazor
    } else if c.has_selection {
        KeyCommand::ClearSelection
    } else {
        KeyCommand::Unhandled
    }
}

/// What a key does outside the razor's verbs.
pub open spec fn editor_key(key: Seq<char>, ctrl: bool, shift: bool, c: KeyContext) -> KeyCommand {
    if key == "Escape"@ {
        escape_command(c)
    } else if key == "z"@ && ctrl && !shift {
        KeyCommand::Undo
    } else if (key == "z"@ && ctrl && shift) || (key == "y"@ && ctrl) {
        KeyCommand::Redo
    } else if key == "a"@ && ctrl {
        KeyCommand::SelectAll
    } else if key == "f"@ && !ctrl {
        KeyCommand::SmartZoom { whole_part: shift }
    } else if key == "x"@ && ctrl {
        KeyCommand::Cut
    } else if key == "c"@ && ctrl {
        KeyCommand::Copy
    } else if key == "v"@ && ctrl {
        KeyCommand::Paste
    } else if key == "2"@ && !ctrl && shift {
        KeyCommand::ToggleTiming
    } else if key == "m"@ && !ctrl && c.has_reference {
        KeyCommand::ReferenceToFront
    } else if key == "i"@ && !ctrl && c.draws_blobs {
        KeyCommand::ToggleSibilantScope
    } else if key == "r"@ && !ctrl && shift {
        KeyCommand::RefsToFront
    } else if ctrl {
        ctrl_free_arrows(key, ctrl, shift, c)
    } else {
        plain_key(key, shift, c)
    }
}

/// The bare letters and digits, with no Ctrl held.
pub open spec fn plain_key(key: Seq<char>, shift: bool, c: KeyContext) -> KeyCommand {
    if key == "s"@ {
        KeyCommand::SetTool(ToolChoice::Select)
    } else if key == "w"@ {
        KeyCommand::SetTool(ToolChoice::Curve)
    } else if key == "d"@ {
        KeyCommand::SetTool(ToolChoice::NoteDraw)
    } else if key == "e"@ {
        KeyCommand::SetTool(ToolChoice::NoteErase)
    } else if key == "p"@ {
        KeyCommand::SetTool(ToolChoice::Pen)
    } else if key == "x"@ {
        KeyCommand::SetTool(ToolChoice::Razor)
    } else if key == "1"@ {
        KeyCommand::GridCoarser
    } else if key == "2"@ {
        KeyCommand::GridFiner
    } else if key == "t"@ {
        KeyCommand::ToggleTriplet
    } else if key == "q"@ {
        if c.has_selected_notes {
            KeyCommand::ZoneSplit
        } else {
            KeyCommand::Unhandled
        }
    } else if key == "b"@ {
        if c.has_selected_notes {
            KeyCommand::SplitNote
        } else {
            KeyCommand::Unhandled
        }
    } else if key == "r"@ && !c.mpe {
        KeyCommand::RefsToFront
    } else if key == "r"@ {
        if c.has_selected_notes {
            KeyCommand::AssignChannels
        } else {
            KeyCommand::Unhandled
        }
    } else {
        ctrl_free_arrows(key, false, shift, c)
    }
}

/// The arrows and the delete keys, which mean the same with or without
/// Ctrl (except that Ctrl moves a razor by the bar).
pub open spec fn ctrl_free_arrows(key: Seq<char>, ctrl: bool, shift: bool, c: KeyContext) -> KeyCommand {
    if (key == "ArrowLeft"@ || key == "ArrowRight"@) && c.has_razor {
        KeyCommand::RazorNudgeTime { later: key == "ArrowRight"@, by_bar: ctrl, resize: shift }
    } else if (key == "ArrowUp"@ || key == "ArrowDown"@) && c.has_razor {
        KeyCommand::RazorNudgeRows { up: key == "ArrowUp"@, resize: shift }
    } else if (key == "Delete"@ || key == "Backspace"@) && c.has_razor {
        if c.dragging {
            KeyCommand::Unhandled
        } else {
            KeyCommand::RazorDeleteContents
        }
    } else if key == "Delete"@ || key == "Backspace"@ {
        if c.has_selected_notes {
            KeyCommand::DeleteSelection { delete: !c.dragging }
        } else {
            KeyCommand::Unhandled
        }
    } else {
        KeyCommand::Unhandled
    }
}

/// What a key press does.
///
/// The razor's verbs get first refusal while the razor tool has areas,
/// because they are bare letters that are tool shortcuts everywhere
/// else.
pub open spec fn key_meaning(key: Seq<char>, ctrl: bool, shift: bool, c: KeyContext) -> KeyCommand {
    if c.razor_tool && c.has_razor && razor_verb(key, ctrl) is Some {
        razor_verb(key, ctrl)->0
    } else {
        editor_key(key, ctrl, shift, c)
    }
}

fn razor_verb_of(key: &str, ctrl: bool) -> (r: Option<KeyCommand>)
    ensures
        r == razor_verb(key@, ctrl),
{
    if same_text(key, "r") && !ctrl {
        Some(KeyCommand::RazorReverse)
    } else if same_text(key, "r") {
        Some(KeyCommand::RazorReversePitches)
    } else if same_text(key, "v") {
        Some(KeyCommand::RazorInvert)
    } else if same_text(key, "x") {
        Some(KeyCommand::RazorDeleteContents)
    } else if same_text(key, "d") {
        Some(KeyCommand::RazorDuplicate)
    } else if same_text(key, "s") {
        Some(KeyCommand::RazorSelectContents)
    } else if same_text(key, "u") {
        Some(KeyCommand::RazorUnselectContents)
    } else if same_text(key, "f") {
        Some(KeyCommand::RazorFullLane)
    } else if same_text(key, "i") {
        Some(KeyCommand::RazorToggleInsert)
    } else if same_text(key, "h") {
        Some(KeyCommand::RazorToggleLock(RazorLock::Horizontal))
    } else if same_text(key, "l") {
        Some(KeyCommand::RazorToggleLock(RazorLock::Vertical))
    } else {
        None
    }
}

fn arrows_and_delete(key: &str, ctrl: bool, shift: bool, c: KeyContext) -> (r: KeyCommand)
    ensures
        r == ctrl_free_arrows(key@, ctrl, shift, c),
{
    let right = same_text(key, "ArrowRight");
    let up = same_text(key, "ArrowUp");
    let delete = same_text(key, "Delete") || same_text(key, "Backspace");
    if (same_text(key, "ArrowLeft") || right) && c.has_razor {
        KeyCommand::RazorNudgeTime { later: right, by_bar: ctrl, resize: shift }
    } else if (up || same_text(key, "ArrowDown")) && c.has_razor {
        KeyCommand::RazorNudgeRows { up, resize: shift }
    } else if delete && c.has_razor {
        if c.dragging {
            KeyCommand::Unhandled
        } else {
            KeyCommand::RazorDeleteContents
        }
    } else if delete {
        if c.has_selected_notes {
            KeyCommand::DeleteSelection { delete: !c.dragging }
        } else {
            KeyCommand::Unhandled
        }
    } else {
        KeyCommand::Unhandled
    }
}

fn plain_key_of(key: &str, shift: bool, c: KeyContext) -> (r: KeyCommand)
    ensures
        r == plain_key(key@, shift, c),
{
    if same_text(key, "s") {
        KeyCommand::SetTool(ToolChoice::Select)
    } else if same_text(key, "w") {
        KeyCommand::SetTool(ToolChoice::Curve)
    } else if same_text(key, "d") {
        KeyCommand::SetTool(ToolChoice::NoteDraw)
    } else if same_text(key, "e") {
        KeyCommand::SetTool(ToolChoice::NoteErase)
    } else if same_text(key, "p") {
        KeyCommand::SetTool(ToolChoice::Pen)
    } else if same_text(key, "x") {
        KeyCommand::SetTool(ToolChoice::Razor)
    } else if same_text(key, "1") {
        KeyCommand::GridCoarser
    } else if same_text(key, "2") {
        KeyCommand::GridFiner
    } else if same_text(key, "t") {
        KeyCommand::ToggleTriplet
    } else if same_text(key, "q") {
        if c.has_selected_notes {
            KeyCommand::ZoneSplit
        } else {
            KeyCommand::Unhandled
        }
    } else if same_text(key, "b") {
        if c.has_selected_notes {
            KeyCommand::SplitNote
        } else {
            KeyCommand::Unhandled
        }
    } else if same_text(key, "r") && !c.mpe {
        KeyCommand::RefsToFront
    } else if same_text(key, "r") {
        if c.has_selected_notes {
            KeyCommand::AssignChannels
        } else {
            KeyCommand::Unhandled
        }
    } else {
        arrows_and_delete(key, false, shift, c)
    }
}

fn editor_key_of(key: &str, ctrl: bool, shift: bool, c: KeyContext) -> (r: KeyCommand)
    ensures
        r == editor_key(key@, ctrl, shift, c),
{
    if same_text(key, "Escape") {
        if c.has_razor {
            KeyCommand::ClearRazor
        } else if c.razor_tool {
            KeyCommand::LeaveRazor
        } else if c.has_selection {
            KeyCommand::ClearSelection
        } else {
            KeyCommand::Unhandled
        }
    } else if same_text(key, "z") && ctrl && !shift {
        KeyCommand::Undo
    } else if (same_text(key, "z") && ctrl && shift) || (same_text(key, "y") && ctrl) {
        KeyCommand::Redo
    } else if same_text(key, "a") && ctrl {
        KeyCommand::SelectAll
    } else if same_text(key, "f") && !ctrl {
        KeyCommand::SmartZoom { whole_part: shift }
    } else if same_text(key, "x") && ctrl {
        KeyCommand::Cut
    } else if same_text(key, "c") && ctrl {
        KeyCommand::Copy
    } else if same_text(key, "v") && ctrl {
        KeyCommand::Paste
    } else if same_text(key, "2") && !ctrl && shift {
        KeyCommand::ToggleTiming
    } else if same_text(key, "m") && !ctrl && c.has_reference {
        KeyCommand::ReferenceToFront
    } else if same_text(key, "i") && !ctrl && c.draws_blobs {
        KeyCommand::ToggleSibilantScope
    } else if same_text(key, "r") && !ctrl && shift {
        KeyCommand::RefsToFront
    } else if ctrl {
        arrows_and_delete(key, ctrl, shift, c)
    } else {
        plain_key_of(key, shift, c)
    }
}

/// What a key press asks of the editor, given what the editor holds.
///
/// The razor's verbs get first refusal while the razor tool has areas;
/// Escape backs out of the most specific thing first (razor areas, then
/// the razor tool, then the selection) and answers `Unhandled` when there
/// is nothing to back out of, so the key stays free for its other
/// owners.
pub fn key_command(key: &str, ctrl: bool, shift: bool, context: KeyContext) -> (r: KeyCommand)
    ensures
        r == key_meaning(key@, ctrl, shift, context),
{
    if context.razor_tool && context.has_razor {
        if let Some(verb) = razor_verb_of(key, ctrl) {
            return verb;
        }
    }
    editor_key_of(key, ctrl, shift, context)
}

/// While the razor tool has areas, its verbs outrank the tool letters:
/// `x` deletes the areas' contents rather than re-arming the razor, and
/// `s` selects the contents rather than switching to Select.
pub proof fn razor_verbs_outrank_tools(ctrl: bool, shift: bool, c: KeyContext)
    requires
        c.razor_tool && c.has_razor,
    ensures
        key_meaning("x"@, ctrl, shift, c) == KeyCommand::RazorDeleteContents,
        key_meaning("s"@, ctrl, shift, c) == KeyCommand::RazorSelectContents,
{
    reveal_strlit("x");
    reveal_strlit("r");
    reveal_strlit("v");
    reveal_strlit("s");
    reveal_strlit("d");
    assert("x"@[0] != "r"@[0] && "x"@[0] != "v"@[0]);
    assert("s"@[0] != "r"@[0] && "s"@[0] != "v"@[0] && "s"@[0] != "x"@[0] && "s"@[0] != "d"@[0]);
}

/// Escape drops razor areas before it touches the selection, and claims
/// the key only when it had something to drop.
pub proof fn escape_backs_out_in_order(ctrl: bool, shift: bool, c: KeyContext)
    ensures
        c.has_razor ==> key_meaning("Escape"@, ctrl, shift, c) == KeyCommand::ClearRazor,
        !c.has_razor && c.razor_tool ==> key_meaning("Escape"@, ctrl, shift, c)
            == KeyCommand::LeaveRazor,
        (key_meaning("Escape"@, ctrl, shift, c) == KeyCommand::Unhandled) == (!c.has_razor
            && !c.razor_tool && !c.has_selection),
{
    reveal_strlit("Escape");
    reveal_strlit("r");
    reveal_strlit("v");
    reveal_strlit("x");
    reveal_strlit("d");
    reveal_strlit("s");
    reveal_strlit("u");
    reveal_strlit("f");
    reveal_strlit("i");
    reveal_strlit("h");
    reveal_strlit("l");
    assert("Escape"@.len() == 6);
    assert(razor_verb("Escape"@, ctrl) is None);
}

/// Whether `key` is listed among the razor table's verb rows.
pub open spec fn razor_listed(key: Seq<char>) -> bool {
    exists|i: int| 0 <= i < 11 && i != 1 && #[trigger] RAZOR_KEYS@[i].0@ == key
}

/// The razor help table and the handler agree in both directions: every
/// verb row names a key the handler takes as a verb (`Ctrl+r` as `r`
/// with Ctrl), no letter the handler takes is missing from the table, and
/// the rows for moving, resizing and leaving name keys that do those
/// things while the razor is live.
pub proof fn razor_table_agrees_with_handler(c: KeyContext)
    requires
        c.razor_tool && c.has_razor,
    ensures
        forall|i: int| 0 <= i < 11 && i != 1 ==> #[trigger] razor_verb(RAZOR_KEYS@[i].0@, false) is Some,
        RAZOR_KEYS@[1].0@ == "Ctrl+"@ + "r"@,
        razor_verb("r"@, true) == Some(KeyCommand::RazorReversePitches),
        forall|key: Seq<char>, ctrl: bool| #[trigger] razor_verb(key, ctrl) is Some ==> razor_listed(key),
        key_meaning("ArrowLeft"@, false, false, c) == (KeyCommand::RazorNudgeTime {
            later: false,
            by_bar: false,
            resize: false,
        }),
        key_meaning("ArrowRight"@, false, false, c) == (KeyCommand::RazorNudgeTime {
            later: true,
            by_bar: false,
            resize: false,
        }),
        key_meaning("ArrowUp"@, false, false, c) == (KeyCommand::RazorNudgeRows { up: true, resize: false }),
        key_meaning("ArrowDown"@, false, false, c) == (KeyCommand::RazorNudgeRows {
            up: false,
            resize: false,
        }),
        key_meaning("ArrowRight"@, false, true, c) == (KeyCommand::RazorNudgeTime {
            later: true,
            by_bar: false,
            resize: true,
        }),
        key_meaning("Escape"@, false, false, c) == KeyCommand::ClearRazor,
{
    reveal_strlit("r");
    reveal_strlit("Ctrl+r");
    reveal_strlit("Ctrl+");
    reveal_strlit("v");
    reveal_strlit("x");
    reveal_strlit("d");
    reveal_strlit("s");
    reveal_strlit("u");
    reveal_strlit("f");
    reveal_strlit("i");
    reveal_strlit("h");
    reveal_strlit("l");
    reveal_strlit("Escape");
    reveal_strlit("ArrowLeft");
    reveal_strlit("ArrowRight");
    reveal_strlit("ArrowUp");
    reveal_strlit("ArrowDown");
    reveal_strlit("z");
    reveal_strlit("y");
    reveal_strlit("a");
    reveal_strlit("c");
    reveal_strlit("2");
    reveal_strlit("m");
    reveal_strlit("w");
    reveal_strlit("e");
    reveal_strlit("p");
    reveal_strlit("1");
    reveal_strlit("t");
    reveal_strlit("q");
    reveal_strlit("b");
    assert(RAZOR_KEYS@[0].0 == "r");
    assert(RAZOR_KEYS@[1].0 == "Ctrl+r");
    assert(RAZOR_KEYS@[2].0 == "v");
    assert(RAZOR_KEYS@[3].0 == "x");
    assert(RAZOR_KEYS@[4].0 == "d");
    assert(RAZOR_KEYS@[5].0 == "s");
    assert(RAZOR_KEYS@[6].0 == "u");
    assert(RAZOR_KEYS@[7].0 == "f");
    assert(RAZOR_KEYS@[8].0 == "i");
    assert(RAZOR_KEYS@[9].0 == "h");
    assert(RAZOR_KEYS@[10].0 == "l");
    assert("Ctrl+r"@ =~= "Ctrl+"@ + "r"@);
    assert forall|key: Seq<char>, ctrl: bool| #[trigger] razor_verb(key, ctrl) is Some implies razor_listed(
        key,
    ) by {
        if key == "r"@ {
            assert(RAZOR_KEYS@[0].0@ == key);
        } else if key == "v"@ {
            assert(RAZOR_KEYS@[2].0@ == key);
        } else if key == "x"@ {
            assert(RAZOR_KEYS@[3].0@ == key);
        } else if key == "d"@ {
            assert(RAZOR_KEYS@[4].0@ == key);
        } else if key == "s"@ {
            assert(RAZOR_KEYS@[5].0@ == key);
        } else if key == "u"@ {
            assert(RAZOR_KEYS@[6].0@ == key);
        } else if key == "f"@ {
            assert(RAZOR_KEYS@[7].0@ == key);
        } else if key == "i"@ {
            assert(RAZOR_KEYS@[8].0@ == key);
        } else if key == "h"@ {
            assert(RAZOR_KEYS@[9].0@ == key);
        } else {
            assert(RAZOR_KEYS@[10].0@ == key);
        }
    }
    assert("Escape"@.len() == 6);
    assert("ArrowLeft"@.len() == 9);
    assert("ArrowRight"@.len() == 10);
    assert("ArrowUp"@.len() == 7);
    assert("ArrowDown"@.len() == 9);
    assert("ArrowDown"@[5] != "ArrowLeft"@[5]);
    assert(razor_verb("Escape"@, false) is None);
    assert(razor_verb("ArrowLeft"@, false) is None);
    assert(razor_verb("ArrowRight"@, false) is None);
    assert(razor_verb("ArrowUp"@, false) is None);
    assert(razor_verb("ArrowDown"@, false) is None);
}

/// A razor area outranks the selection: with one drawn, the delete keys
/// never delete the selected notes.
pub proof fn delete_prefers_the_razor(ctrl: bool, shift: bool, c: KeyContext)
    requires
        c.has_razor,
    ensures
        !(key_meaning("Delete"@, ctrl, shift, c) matches KeyCommand::DeleteSelection { .. }),
        !(key_meaning("Backspace"@, ctrl, shift, c) matches KeyCommand::DeleteSelection { .. }),
{
    reveal_strlit("Delete");
    reveal_strlit("Backspace");
    reveal_strlit("Escape");
    reveal_strlit("ArrowLeft");
    reveal_strlit("ArrowRight");
    reveal_strlit("ArrowUp");
    reveal_strlit("ArrowDown");
    reveal_strlit("r");
    reveal_strlit("v");
    reveal_strlit("x");
    reveal_strlit("d");
    reveal_strlit("s");
    reveal_strlit("u");
    reveal_strlit("f");
    reveal_strlit("i");
    reveal_strlit("h");
    reveal_strlit("l");
    reveal_strlit("z");
    reveal_strlit("y");
    reveal_strlit("a");
    reveal_strlit("c");
    reveal_strlit("2");
    reveal_strlit("m");
    reveal_strlit("w");
    reveal_strlit("e");
    reveal_strlit("p");
    reveal_strlit("1");
    reveal_strlit("t");
    reveal_strlit("q");
    reveal_strlit("b");
}


/// Ctrl+X, Ctrl+C and Ctrl+V are cut, copy and paste, with or without
/// Shift and whatever is selected. Ctrl+C is copy even while the razor's
/// verbs are live, since `c` is no verb of the razor's; Ctrl+X and Ctrl+V
/// are cut and paste wherever the razor's verbs are not live, and there
/// the razor's own delete and invert instead.
pub proof fn clipboard_keys(shift: bool, c: KeyContext)
    ensures
        key_meaning("c"@, true, shift, c) == KeyCommand::Copy,
        !(c.razor_tool && c.has_razor) ==> key_meaning("x"@, true, shift, c) == KeyCommand::Cut,
        !(c.razor_tool && c.has_razor) ==> key_meaning("v"@, true, shift, c) == KeyCommand::Paste,
        c.razor_tool && c.has_razor ==> key_meaning("x"@, true, shift, c)
            == KeyCommand::RazorDeleteContents,
        c.razor_tool && c.has_razor ==> key_meaning("v"@, true, shift, c) == KeyCommand::RazorInvert,
{
    reveal_strlit("Delete");
    reveal_strlit("Backspace");
    reveal_strlit("Escape");
    reveal_strlit("ArrowLeft");
    reveal_strlit("ArrowRight");
    reveal_strlit("ArrowUp");
    reveal_strlit("ArrowDown");
    reveal_strlit("r");
    reveal_strlit("v");
    reveal_strlit("x");
    reveal_strlit("d");
    reveal_strlit("s");
    reveal_strlit("u");
    reveal_strlit("f");
    reveal_strlit("i");
    reveal_strlit("h");
    reveal_strlit("l");
    reveal_strlit("z");
    reveal_strlit("y");
    reveal_strlit("a");
    reveal_strlit("c");
    reveal_strlit("2");
    reveal_strlit("m");
    reveal_strlit("w");
    reveal_strlit("e");
    reveal_strlit("p");
    reveal_strlit("1");
    reveal_strlit("t");
    reveal_strlit("q");
    reveal_strlit("b");
    assert("c"@[0] == 'c');
    assert("x"@[0] == 'x');
    assert("v"@[0] == 'v');
    assert("z"@[0] == 'z');
    assert("y"@[0] == 'y');
    assert("a"@[0] == 'a');
    assert("f"@[0] == 'f');
    assert("2"@[0] == '2');
    assert("m"@[0] == 'm');
    assert("i"@[0] == 'i');
    assert("r"@[0] == 'r');
    assert("s"@[0] == 's');
    assert("d"@[0] == 'd');
    assert("h"@[0] == 'h');
    assert("l"@[0] == 'l');
    assert("u"@[0] == 'u');
}

/// Which mouse-modifier context the pointer is in, as the mouse map
/// names them.
#[derive(Clone, Copy, Debug, PartialEq, Eq, Structural)]
pub enum PointerContext {
    /// CC edit mode, near the drawn controller curve.
    CcEvent,
    /// CC edit mode, open dimension.
    CcLane,
    /// Inside a razor area, at one of its time edges.
    RazorEdge,
    /// Inside a razor area.
    RazorArea,
    ZoneSplit,
    NoteEdge,
    Note,
    /// Nothing under the pointer.
    PianoRoll,
}

/// What the editor's hit test found under the pointer.
#[derive(Clone, Copy, Debug, PartialEq, Eq, Structural)]
pub enum HitKind {
    ZoneSplit,
    NoteEdge,
    Note,
    CurvePoint,
    Empty,
}

/// The context for a pointer position. `cc_edit` is `Some(on_curve)`
/// while a controller is being edited, `on_curve` when the pointer is
/// within reach of its curve; `razor` is `Some(at_edge)` when the pointer
/// is inside a razor area, `at_edge` when it is within reach of one of the
/// area's time edges; `hit` is what lies under the pointer otherwise.
pub open spec fn pointer_context(cc_edit: Option<bool>, razor: Option<bool>, hit: HitKind) -> PointerContext {
    match cc_edit {
        Some(on_curve) => if on_curve {
            PointerContext::CcEvent
        } else {
            PointerContext::CcLane
        },
        None => match razor {
            Some(at_edge) => if at_edge {
                PointerContext::RazorEdge
            } else {
                PointerContext::RazorArea
            },
            None => match hit {
                HitKind::ZoneSplit => PointerContext::ZoneSplit,
                HitKind::NoteEdge => PointerContext::NoteEdge,
                HitKind::Note | HitKind::CurvePoint => PointerContext::Note,
                HitKind::Empty => PointerContext::PianoRoll,
            },
        },
    }
}

/// Which mouse-modifier context a pointer position falls in.
///
/// CC edit mode outranks everything: while it is on, the roll *is* that
/// controller's dimension, so the razor and the notes behind it are not
/// what the pointer is addressing. Near the curve is `CcEvent`, open
/// dimension `CcLane` — the distinction REAPER draws, so a mouse map
/// written for REAPER lands on the right binding.
///
/// Razor areas outrank notes: once you have drawn a rectangle, dragging
/// inside it must operate on the region, not on whatever note happens to
/// be under the pointer.
pub fn context_from(cc_edit: Option<bool>, razor: Option<bool>, hit: HitKind) -> (c: PointerContext)
    ensures
        c == pointer_context(cc_edit, razor, hit),
{
    if let Some(on_curve) = cc_edit {
        return if on_curve {
            PointerContext::CcEvent
        } else {
            PointerContext::CcLane
        };
    }
    if let Some(at_edge) = razor {
        return if at_edge {
            PointerContext::RazorEdge
        } else {
            PointerContext::RazorArea
        };
    }
    match hit {
        HitKind::ZoneSplit => PointerContext::ZoneSplit,
        HitKind::NoteEdge => PointerContext::NoteEdge,
        HitKind::Note | HitKind::CurvePoint => PointerContext::Note,
        HitKind::Empty => PointerContext::PianoRoll,
    }
}

/// CC edit outranks the razor and the notes, and a razor area outranks
/// the notes: what lies under the pointer decides the context only where
/// neither is in play, and the razor only where CC edit is off.
pub proof fn cc_then_razor_then_notes(
    cc_edit: Option<bool>,
    razor: Option<bool>,
    other_razor: Option<bool>,
    hit: HitKind,
    other_hit: HitKind,
)
    ensures
        cc_edit is Some ==> pointer_context(cc_edit, razor, hit) == pointer_context(
            cc_edit,
            other_razor,
            other_hit,
        ),
        cc_edit is Some ==> (pointer_context(cc_edit, razor, hit) == PointerContext::CcEvent
            || pointer_context(cc_edit, razor, hit) == PointerContext::CcLane),
        cc_edit is None && razor is Some ==> pointer_context(cc_edit, razor, hit)
            == pointer_context(cc_edit, razor, other_hit),
        cc_edit is None && razor is Some ==> (pointer_context(cc_edit, razor, hit)
            == PointerContext::RazorEdge || pointer_context(cc_edit, razor, hit)
            == PointerContext::RazorArea),
{
}

/// The kinds of gesture a pointer drag can be, one per drag the roll
/// runs.
#[derive(Clone, Copy, Debug, PartialEq, Eq, Structural)]
pub enum DragKind {
    /// Between gestures.
    Idle,
    InsertNote,
    ZoomTool,
    Pan,
    Marquee,
    Pen,
    Curve,
    Erase,
    Transpose,
    MoveNotes,
    Stretch,
    RazorEdge,
    Zoom,
    SelectTouched,
    Scale,
    Resize,
    SplitDrag,
    NoteErase,
    RazorCreate,
    RazorDrag,
    Paint,
    CcPen,
    CcLine,
    CcErase,
    CcScale,
    DraftAnchor,
    Separator,
    Handle,
    TempNote,
    ContextMenu,
    Velocity,
}

/// Whether a drag is still live after its button comes up.
///
/// The curve gesture survives release, and so does its CC twin: both stay
/// live so the shape buttons restyle the stroke that was just drawn.
/// Every other gesture is finished by the release.
pub fn survives_release(kind: DragKind) -> (live: bool)
    ensures
        live == (kind == DragKind::Curve || kind == DragKind::CcLine),
{
    match kind {
        DragKind::Curve | DragKind::CcLine => true,
        _ => false,
    }
}

} // verus!
