//! Key sequences: the names keys arrive under, how a chord reads in the
//! which-key overlay, the half-typed sequence the overlay walks to, and
//! the rows it lists.
//!
//! The bindings themselves live in the shared keymap and are resolved by
//! the host's input processor, which owns the sequence state. This module
//! keeps the surface's mirror of that state — the chords typed so far —
//! and every decision the overlay makes from it.
use vstd::prelude::*;

use crate::text::{chars_of, same_text};

verus! {

/// The editor's mode key in the keymap.
pub const SURFACE: &'static str = "editor";

/// A key, as the keymap names it.
#[derive(Clone, Debug, PartialEq, Eq)]
pub enum Key {
    /// A printable key, lower-cased.
    Character(String),
    ArrowUp,
    ArrowDown,
    ArrowLeft,
    ArrowRight,
    Enter,
    Escape,
    Tab,
    Backspace,
    Delete,
    /// A function key, `F1` to `F12`.
    F(u8),
}

/// A key with the modifiers held when it was pressed.
#[derive(Clone, Debug, PartialEq, Eq)]
pub struct Chord {
    pub key: Key,
    pub ctrl: bool,
    pub alt: bool,
    pub shift: bool,
}

/// One row of the which-key overlay.
#[derive(Clone, Debug, PartialEq)]
pub struct Continuation {
    /// The key to press next.
    pub key: String,
    /// What it does, or the name of the group it opens.
    pub label: String,
    /// Whether it opens a further group rather than running something.
    pub is_group: bool,
}

// ── parsing a key name ──────────────────────────────────────────────────

/// The text the standard library's `to_lowercase` makes of `s`.
pub uninterp spec fn lowercase(s: Seq<char>) -> Seq<char>;

/// Calls `str::to_lowercase`. Trusted to return the named lower-casing
/// of `s`; what Unicode lower-casing does to each character is not
/// spelled out.
#[verifier::external_body]
fn to_lowercase(s: &str) -> (r: String)
    ensures
        r@ == lowercase(s@),
{
    s.to_lowercase()
}

/// An ASCII decimal digit.
pub open spec fn is_digit(c: char) -> bool {
    '0' <= c && c <= '9'
}

/// The number a run of decimal digits spells.
pub open spec fn decimal_value(s: Seq<char>) -> int
    decreases s.len(),
{
    if s.len() == 0 {
        0
    } else {
        decimal_value(s.drop_last()) * 10 + (s.last() as int - '0' as int)
    }
}

/// The digits `str::parse` reads a number from: an optional `+`, then one
/// or more decimal digits and nothing else.
pub open spec fn decimal_digits(s: Seq<char>) -> Option<Seq<char>> {
    let digits = if s.len() > 1 && s[0] == '+' {
        s.drop_first()
    } else {
        s
    };
    if digits.len() > 0 && (forall|i: int| 0 <= i < digits.len() ==> is_digit(#[trigger] digits[i])) {
        Some(digits)
    } else {
        None
    }
}

/// What `str::parse::<u8>` accepts: decimal digits spelling a number no
/// larger than 255.
pub open spec fn parsed_u8(s: Seq<char>) -> Option<u8> {
    match decimal_digits(s) {
        Some(d) => if decimal_value(d) <= 255 {
            Some(decimal_value(d) as u8)
        } else {
            None
        },
        None => None,
    }
}

/// What `str::parse::<usize>` accepts: decimal digits spelling a number
/// that fits in a `usize`.
pub open spec fn parsed_usize(s: Seq<char>) -> Option<usize> {
    match decimal_digits(s) {
        Some(d) => if decimal_value(d) <= usize::MAX {
            Some(decimal_value(d) as usize)
        } else {
            None
        },
        None => None,
    }
}

/// Calls `str::parse::<u8>`. Trusted to accept exactly what its
/// documentation describes for an unsigned integer: an optional `+`
/// followed by decimal digits whose value fits in a `u8`.
#[verifier::external_body]
fn parse_u8(s: &str) -> (r: Option<u8>)
    ensures
        r == parsed_u8(s@),
{
    s.parse::<u8>().ok()
}

/// Calls `str::parse::<usize>`. Trusted in the same terms as `parse_u8`,
/// for a value that fits in a `usize`.
#[verifier::external_body]
fn parse_usize(s: &str) -> (r: Option<usize>)
    ensures
        r == parsed_usize(s@),
{
    s.parse::<usize>().ok()
}

/// The named keys, by the names the surface reports them under.
pub open spec fn named_key(s: Seq<char>) -> Option<Key> {
    if s == "ArrowUp"@ {
        Some(Key::ArrowUp)
    } else if s == "ArrowDown"@ {
        Some(Key::ArrowDown)
    } else if s == "ArrowLeft"@ {
        Some(Key::ArrowLeft)
    } else if s == "ArrowRight"@ {
        Some(Key::ArrowRight)
    } else if s == "Enter"@ {
        Some(Key::Enter)
    } else if s == "Escape"@ {
        Some(Key::Escape)
    } else if s == "Tab"@ {
        Some(Key::Tab)
    } else if s == "Backspace"@ {
        Some(Key::Backspace)
    } else if s == "Delete"@ {
        Some(Key::Delete)
    } else {
        None
    }
}

/// The function key `s` names: `F` and a number from 1 to 12.
pub open spec fn function_key(s: Seq<char>) -> Option<u8> {
    if s.len() > 0 && s[0] == 'F' {
        match parsed_u8(s.drop_first()) {
            Some(n) => if 1 <= n <= 12 {
                Some(n)
            } else {
                None
            },
            None => None,
        }
    } else {
        None
    }
}

/// Whether `k` is the key a surface reporting `s` means.
pub open spec fn key_named(k: Key, s: Seq<char>) -> bool {
    match named_key(s) {
        Some(named) => k == named,
        None => match function_key(s) {
            Some(n) => k == Key::F(n),
            None => k matches Key::Character(c) && c@ == lowercase(s),
        },
    }
}

fn named(key: &str) -> (r: Option<Key>)
    ensures
        r == named_key(key@),
{
    if same_text(key, "ArrowUp") {
        Some(Key::ArrowUp)
    } else if same_text(key, "ArrowDown") {
        Some(Key::ArrowDown)
    } else if same_text(key, "ArrowLeft") {
        Some(Key::ArrowLeft)
    } else if same_text(key, "ArrowRight") {
        Some(Key::ArrowRight)
    } else if same_text(key, "Enter") {
        Some(Key::Enter)
    } else if same_text(key, "Escape") {
        Some(Key::Escape)
    } else if same_text(key, "Tab") {
        Some(Key::Tab)
    } else if same_text(key, "Backspace") {
        Some(Key::Backspace)
    } else if same_text(key, "Delete") {
        Some(Key::Delete)
    } else {
        None
    }
}

/// Translate a DOM-ish key name into a [`Key`].
///
/// Single characters are the common case and go through as characters;
/// the named keys and `F1`..`F12` become their own keys; anything else
/// goes through as its lower-cased text.
pub fn key_code(key: &str) -> (k: Key)
    ensures
        key_named(k, key@),
{
    if let Some(k) = named(key) {
        return k;
    }
    let n = key.unicode_len();
    if n > 0 && key.get_char(0) == 'F' {
        let rest = key.substring_char(1, n);
        assert(rest@ == key@.drop_first());
        if let Some(f) = parse_u8(rest) {
            if 1 <= f && f <= 12 {
                return Key::F(f);
            }
        }
    }
    Key::Character(to_lowercase(key))
}

/// The name a surface reports a named key under: the key's own name.
pub open spec fn reported_name(k: Key) -> Option<Seq<char>> {
    match k {
        Key::ArrowUp => Some("ArrowUp"@),
        Key::ArrowDown => Some("ArrowDown"@),
        Key::ArrowLeft => Some("ArrowLeft"@),
        Key::ArrowRight => Some("ArrowRight"@),
        Key::Enter => Some("Enter"@),
        Key::Escape => Some("Escape"@),
        Key::Tab => Some("Tab"@),
        Key::Backspace => Some("Backspace"@),
        Key::Delete => Some("Delete"@),
        _ => None,
    }
}

/// Each named key is the key of its own name and of no other name: the
/// surface's `ArrowLeft` is the left arrow and nothing else reads as it,
/// and likewise for the other arrows, Enter, Escape, Tab, Backspace and
/// Delete. So `key_code` of a named key's name is that key.
pub proof fn named_keys_are_their_own_names(k: Key, s: Seq<char>)
    requires
        reported_name(k) is Some,
    ensures
        key_named(k, s) <==> s == reported_name(k)->0,
{
    reveal_strlit("ArrowUp");
    reveal_strlit("ArrowDown");
    reveal_strlit("ArrowLeft");
    reveal_strlit("ArrowRight");
    reveal_strlit("Enter");
    reveal_strlit("Escape");
    reveal_strlit("Tab");
    reveal_strlit("Backspace");
    reveal_strlit("Delete");
    assert("ArrowDown"@[5] == 'D');
    assert("ArrowLeft"@[5] == 'L');
    assert("ArrowUp"@[5] == 'U');
    assert("ArrowRight"@[5] == 'R');
    assert("Escape"@[0] == 'E');
    assert("Delete"@[0] == 'D');
    assert("Enter"@[0] == 'E');
    assert("Tab"@[0] == 'T');
    assert("Backspace"@[0] == 'B');
    if s == reported_name(k)->0 {
        assert(s.len() > 0 && s[0] != 'F');
    }
}

// ── how a chord reads ───────────────────────────────────────────────────

/// The character of a decimal digit.
pub open spec fn digit_char(d: int) -> char {
    if d == 0 {
        '0'
    } else if d == 1 {
        '1'
    } else if d == 2 {
        '2'
    } else if d == 3 {
        '3'
    } else if d == 4 {
        '4'
    } else if d == 5 {
        '5'
    } else if d == 6 {
        '6'
    } else if d == 7 {
        '7'
    } else if d == 8 {
        '8'
    } else {
        '9'
    }
}

/// A natural number written in decimal, without leading zeros.
pub open spec fn decimal_text(n: nat) -> Seq<char>
    decreases n,
{
    if n < 10 {
        seq![digit_char(n as int)]
    } else {
        decimal_text(n / 10) + seq![digit_char((n % 10) as int)]
    }
}

pub(crate) fn digit_text(d: u8) -> (s: &'static str)
    requires
        d < 10,
    ensures
        s@ == seq![digit_char(d as int)],
{
    proof {
        reveal_strlit("0");
        reveal_strlit("1");
        reveal_strlit("2");
        reveal_strlit("3");
        reveal_strlit("4");
        reveal_strlit("5");
        reveal_strlit("6");
        reveal_strlit("7");
        reveal_strlit("8");
        reveal_strlit("9");
    }
    if d == 0 {
        "0"
    } else if d == 1 {
        "1"
    } else if d == 2 {
        "2"
    } else if d == 3 {
        "3"
    } else if d == 4 {
        "4"
    } else if d == 5 {
        "5"
    } else if d == 6 {
        "6"
    } else if d == 7 {
        "7"
    } else if d == 8 {
        "8"
    } else {
        "9"
    }
}

/// Append `n` in decimal.
fn append_decimal(s: &mut String, n: u8)
    ensures
        final(s)@ == old(s)@ + decimal_text(n as nat),
{
    if n >= 100 {
        s.append(digit_text(n / 100));
    }
    if n >= 10 {
        s.append(digit_text((n / 10) % 10));
    }
    s.append(digit_text(n % 10));
    proof {
        if n >= 100 {
            assert(decimal_text((n / 10) as nat) == decimal_text((n / 100) as nat) + seq![
                digit_char(((n / 10) % 10) as int),
            ]);
            assert(decimal_text((n / 100) as nat) == seq![digit_char((n / 100) as int)]);
        } else if n >= 10 {
            assert(decimal_text((n / 10) as nat) == seq![digit_char((n / 10) as int)]);
        }
        assert(final(s)@ =~= old(s)@ + decimal_text(n as nat));
    }
}

/// How a key reads in the overlay.
pub open spec fn key_text(k: Key) -> Seq<char> {
    match k {
        Key::Character(c) => c@,
        Key::ArrowUp => "Up"@,
        Key::ArrowDown => "Down"@,
        Key::ArrowLeft => "Left"@,
        Key::ArrowRight => "Right"@,
        Key::Enter => "Enter"@,
        Key::Escape => "Escape"@,
        Key::Tab => "Tab"@,
        Key::Backspace => "Backspace"@,
        Key::Delete => "Delete"@,
        Key::F(n) => "F"@ + decimal_text(n as nat),
    }
}

/// How a chord reads in the overlay: `z`, `Ctrl+i`, `Escape`.
pub open spec fn chord_text(c: Chord) -> Seq<char> {
    (if c.ctrl {
        "Ctrl+"@
    } else {
        Seq::empty()
    }) + (if c.alt {
        "Alt+"@
    } else {
        Seq::empty()
    }) + (if c.shift {
        "Shift+"@
    } else {
        Seq::empty()
    }) + key_text(c.key)
}

/// How a chord reads in the overlay: `z`, `Ctrl+i`, `Escape`.
pub fn chord_label(chord: &Chord) -> (s: String)
    ensures
        s@ == chord_text(*chord),
{
    let mut s = String::new();
    if chord.ctrl {
        s.append("Ctrl+");
    }
    if chord.alt {
        s.append("Alt+");
    }
    if chord.shift {
        s.append("Shift+");
    }
    let ghost mods = s@;
    match &chord.key {
        Key::Character(c) => s.append(c.as_str()),
        Key::ArrowUp => s.append("Up"),
        Key::ArrowDown => s.append("Down"),
        Key::ArrowLeft => s.append("Left"),
        Key::ArrowRight => s.append("Right"),
        Key::Enter => s.append("Enter"),
        Key::Escape => s.append("Escape"),
        Key::Tab => s.append("Tab"),
        Key::Backspace => s.append("Backspace"),
        Key::Delete => s.append("Delete"),
        Key::F(n) => {
            s.append("F");
            append_decimal(&mut s, *n);
        },
    }
    assert(s@ =~= chord_text(*chord));
    s
}

/// Written in decimal and read back, a number is itself.
pub proof fn decimal_text_reads_back(n: nat)
    ensures
        decimal_value(decimal_text(n)) == n,
        decimal_text(n).len() > 0,
        forall|i: int| 0 <= i < decimal_text(n).len() ==> is_digit(#[trigger] decimal_text(n)[i]),
    decreases n,
{
    let d = (n % 10) as int;
    let t = decimal_text(n);
    assert(digit_char(d) as int - '0' as int == d);
    assert(t.len() > 0);
    assert(decimal_value(t) == decimal_value(t.drop_last()) * 10 + (t.last() as int - '0' as int));
    if n < 10 {
        assert(decimal_text(n).drop_last() =~= Seq::<char>::empty());
        assert(decimal_text(n).last() == digit_char(d));
    } else {
        decimal_text_reads_back(n / 10);
        assert(decimal_text(n).drop_last() =~= decimal_text(n / 10));
        assert(decimal_text(n).last() == digit_char(d));
        assert(n == (n / 10) * 10 + d);
    }
}

/// How a key reads names the key: an arrow reads as its direction, an
/// unmodified chord reads as its key alone, and no two keys other than
/// typed characters read alike — so no overlay row shows one key under
/// another's name.
pub proof fn keys_read_as_themselves(a: Key, b: Key, c: Chord)
    ensures
        key_text(Key::ArrowUp) == "Up"@,
        key_text(Key::ArrowDown) == "Down"@,
        key_text(Key::ArrowLeft) == "Left"@,
        key_text(Key::ArrowRight) == "Right"@,
        !c.ctrl && !c.alt && !c.shift ==> chord_text(c) == key_text(c.key),
        !(a is Character) && !(b is Character) && a != b ==> key_text(a) != key_text(b),
{
    reveal_strlit("Up");
    reveal_strlit("Down");
    reveal_strlit("Left");
    reveal_strlit("Right");
    reveal_strlit("Enter");
    reveal_strlit("Escape");
    reveal_strlit("Tab");
    reveal_strlit("Backspace");
    reveal_strlit("Delete");
    reveal_strlit("F");
    assert("Up"@[0] == 'U');
    assert("Down"@[0] == 'D');
    assert("Left"@[0] == 'L');
    assert("Right"@[0] == 'R');
    assert("Enter"@[0] == 'E');
    assert("Escape"@[0] == 'E');
    assert("Tab"@[0] == 'T');
    assert("Backspace"@[0] == 'B');
    assert("Delete"@[0] == 'D');
    assert("F"@[0] == 'F');
    assert(chord_text(c) == (if c.ctrl { "Ctrl+"@ } else { Seq::empty() }) + (if c.alt {
        "Alt+"@
    } else {
        Seq::empty()
    }) + (if c.shift { "Shift+"@ } else { Seq::empty() }) + key_text(c.key));
    if !c.ctrl && !c.alt && !c.shift {
        assert(chord_text(c) =~= key_text(c.key));
    }
    if !(a is Character) && !(b is Character) && a != b && key_text(a) == key_text(b) {
        match (a, b) {
            (Key::F(n), Key::F(m)) => {
                assert(decimal_text(n as nat) =~= key_text(a).drop_first());
                assert(decimal_text(m as nat) =~= key_text(b).drop_first());
                decimal_text_reads_back(n as nat);
                decimal_text_reads_back(m as nat);
            },
            (Key::F(n), _) => {
                assert(key_text(a)[0] == 'F');
            },
            (_, Key::F(m)) => {
                assert(key_text(b)[0] == 'F');
            },
            _ => {
                assert(key_text(a)[0] == key_text(b)[0]);
                assert(key_text(a).len() == key_text(b).len());
            },
        }
    }
}

// ── the half-typed sequence ─────────────────────────────────────────────

/// The chords typed so far, mirrored from the input processor, and
/// whether the processor last reported a sequence in progress.
///
/// The processor reports its pending sequence only as a display string,
/// and the which-key overlay has to walk the keymap to that point, so the
/// surface keeps the chords itself: extended while a prefix is live,
/// cleared the moment it is not.
#[derive(Clone, Debug)]
pub struct KeyState {
    typed: Vec<Chord>,
    pending: bool,
}

impl KeyState {
    /// The chords typed so far.
    pub closed spec fn chords(&self) -> Seq<Chord> {
        self.typed@
    }

    /// Whether the processor has a sequence half-typed.
    pub closed spec fn in_sequence(&self) -> bool {
        self.pending
    }

    /// Nothing typed, nothing pending.
    pub fn new() -> (s: Self)
        ensures
            s.chords() == Seq::<Chord>::empty(),
            !s.in_sequence(),
    {
        KeyState { typed: Vec::new(), pending: false }
    }

    /// The chords typed so far, for the host to walk the keymap with.
    pub fn typed(&self) -> (v: &Vec<Chord>)
        ensures
            v@ == self.chords(),
    {
        &self.typed
    }

    /// Record a key the processor has just resolved, and whether it left
    /// a sequence pending. A pending prefix extends the mirror; anything
    /// else ends it.
    pub fn resolved(&mut self, chord: Chord, pending: bool)
        ensures
            final(self).in_sequence() == pending,
            final(self).chords() == if pending {
                old(self).chords().push(chord)
            } else {
                Seq::<Chord>::empty()
            },
    {
        if pending {
            self.typed.push(chord);
        } else {
            self.typed.clear();
        }
        self.pending = pending;
    }

    /// Record a key coming back up, and whether the processor still has a
    /// sequence pending after it. A sticky release that ended the
    /// sequence clears the mirror too.
    pub fn released(&mut self, pending: bool)
        ensures
            final(self).in_sequence() == pending,
            final(self).chords() == if pending {
                old(self).chords()
            } else {
                Seq::<Chord>::empty()
            },
    {
        if !pending {
            self.typed.clear();
        }
        self.pending = pending;
    }

    /// Abandon a half-typed sequence.
    ///
    /// Escape has to reach both halves: the host drops the processor's
    /// own sequence, and this drops the mirror the overlay reads, or the
    /// overlay stays up over a prefix that is no longer pending.
    pub fn cancel(&mut self)
        ensures
            final(self).chords() == Seq::<Chord>::empty(),
            !final(self).in_sequence(),
    {
        self.typed.clear();
        self.pending = false;
    }

    /// Whether a sequence is half-typed, so the next key belongs to it.
    ///
    /// The caller checks this after a key that resolved to nothing: a
    /// pending prefix means the key was consumed by the sequence and must
    /// not also fall through to the editor's own handling.
    pub fn is_pending(&self) -> (b: bool)
        ensures
            b == self.in_sequence(),
    {
        self.pending
    }

    /// The single-key prefix currently held, if exactly one is.
    ///
    /// Only a lone pending chord counts, so a half-typed longer sequence
    /// is never mistaken for a held tool.
    pub fn held_prefix(&self) -> (r: Option<String>)
        ensures
            r == held(self.chords()),
    {
        if self.typed.len() == 1 {
            match &self.typed[0].key {
                Key::Character(c) => Some(c.clone()),
                _ => None,
            }
        } else {
            None
        }
    }

    /// Whether the pending sequence is the zoom prefix, and nothing more:
    /// a drag now means the zoom tool for the length of the hold, rather
    /// than the first half of a sequence.
    pub fn zoom_prefix_held(&self) -> (b: bool)
        ensures
            b == (held(self.chords()) matches Some(c) && c@ == "z"@),
    {
        match self.held_prefix() {
            Some(c) => same_text(c.as_str(), "z"),
            None => false,
        }
    }

    /// What can follow the keys typed so far, for the which-key overlay,
    /// given the children of the keymap node those keys lead to.
    ///
    /// Empty when nothing has been typed, which is the overlay's cue to
    /// stay hidden. Sorted by key, so the list does not reshuffle between
    /// presses.
    pub fn continuations(&self, children: Vec<Continuation>) -> (out: Vec<Continuation>)
        ensures
            self.chords().len() == 0 ==> out@.len() == 0,
            self.chords().len() > 0 ==> sorted_by_key(out@) && out@.to_multiset()
                =~= children@.to_multiset() && forall|k: Seq<char>|
                #[trigger] rows_with_key(out@, k) == rows_with_key(children@, k),
    {
        if self.typed.len() == 0 {
            return Vec::new();
        }
        sort_by_key(children)
    }
}

impl Default for KeyState {
    fn default() -> (s: Self)
        ensures
            s.chords() == Seq::<Chord>::empty(),
            !s.in_sequence(),
    {
        KeyState::new()
    }
}

/// The prefix a sequence of typed chords holds: the character of the one
/// chord, when exactly one printable chord has been typed.
pub open spec fn held(chords: Seq<Chord>) -> Option<String> {
    if chords.len() == 1 {
        match chords[0].key {
            Key::Character(c) => Some(c),
            _ => None,
        }
    } else {
        None
    }
}

// ── ordering the overlay's rows ─────────────────────────────────────────

/// `a` and `b` agree on their first `k` characters.
pub open spec fn agree_to(a: Seq<char>, b: Seq<char>, k: int) -> bool {
    0 <= k <= a.len() && k <= b.len() && forall|i: int| 0 <= i < k ==> a[i] == b[i]
}

/// `a` sorts strictly before `b`: at the first place they differ `a` has
/// the smaller character, or `a` is a proper prefix of `b`.
pub open spec fn text_before(a: Seq<char>, b: Seq<char>) -> bool {
    exists|k: int|
        #![trigger agree_to(a, b, k)]
        agree_to(a, b, k) && ((k == a.len() && k < b.len()) || (k < a.len() && k < b.len() && (a[k]
            as u32) < (b[k] as u32)))
}

/// Rows in order of their keys.
pub open spec fn sorted_by_key(rows: Seq<Continuation>) -> bool {
    forall|i: int, j: int|
        0 <= i < j < rows.len() ==> !text_before(#[trigger] rows[j].key@, #[trigger] rows[i].key@)
}

/// Sorting before is transitive.
pub proof fn text_before_transitive(a: Seq<char>, b: Seq<char>, c: Seq<char>)
    requires
        text_before(a, b),
        text_before(b, c),
    ensures
        text_before(a, c),
{
    let k1 = choose|k: int|
        #![trigger agree_to(a, b, k)]
        agree_to(a, b, k) && ((k == a.len() && k < b.len()) || (k < a.len() && k < b.len() && (a[k]
            as u32) < (b[k] as u32)));
    let k2 = choose|k: int|
        #![trigger agree_to(b, c, k)]
        agree_to(b, c, k) && ((k == b.len() && k < c.len()) || (k < b.len() && k < c.len() && (b[k]
            as u32) < (c[k] as u32)));
    let m = if k1 < k2 {
        k1
    } else {
        k2
    };
    assert(agree_to(a, c, m));
}

/// Sorting before is irreflexive and asymmetric.
pub proof fn text_before_strict(a: Seq<char>, b: Seq<char>)
    ensures
        !text_before(a, a),
        text_before(a, b) ==> !text_before(b, a),
{
    if text_before(a, b) && text_before(b, a) {
        text_before_transitive(a, b, a);
    }
}

fn key_before(a: &String, b: &String) -> (r: bool)
    ensures
        r == text_before(a@, b@),
{
    let x = chars_of(a.as_str());
    let y = chars_of(b.as_str());
    let mut k: usize = 0;
    while k < x.len() && k < y.len() && x[k] == y[k]
        invariant
            x@ == a@,
            y@ == b@,
            agree_to(x@, y@, k as int),
        decreases x@.len() - k,
    {
        k = k + 1;
    }
    let r = if k == x.len() {
        k < y.len()
    } else if k == y.len() {
        false
    } else {
        (x[k] as u32) < (y[k] as u32)
    };
    proof {
        if r {
            assert(agree_to(a@, b@, k as int));
        } else {
            assert forall|j: int| #[trigger] agree_to(a@, b@, j) implies !((j == a@.len() && j
                < b@.len()) || (j < a@.len() && j < b@.len() && (a@[j] as u32) < (b@[j] as u32))) by {
                if j < k {
                    assert(a@[j] == b@[j]);
                } else if j > k {
                    assert(a@[k as int] == b@[k as int]);
                }
            }
        }
    }
    r
}

/// Whether a row has key `k`.
pub open spec fn key_is(k: Seq<char>) -> spec_fn(Continuation) -> bool {
    |r: Continuation| r.key@ == k
}

/// The rows with key `k`, in the order they stand.
pub open spec fn rows_with_key(rows: Seq<Continuation>, k: Seq<char>) -> Seq<Continuation> {
    rows.filter(key_is(k))
}

/// Inserting a row into sorted rows just before the first row whose key
/// sorts after it puts it after every row that shares its key.
proof fn insert_after_equal_keys(before: Seq<Continuation>, p: int, row: Continuation, k: Seq<char>)
    requires
        0 <= p <= before.len(),
        sorted_by_key(before),
        p < before.len() ==> text_before(row.key@, before[p].key@),
    ensures
        rows_with_key(before.insert(p, row), k) == if row.key@ == k {
            rows_with_key(before, k).push(row)
        } else {
            rows_with_key(before, k)
        },
{
    let pred = key_is(k);
    let a = before.subrange(0, p);
    let b = before.subrange(p, before.len() as int);
    assert(before.insert(p, row) =~= (a + seq![row]) + b);
    assert(before =~= a + b);
    Seq::filter_distributes_over_add(a + seq![row], b, pred);
    Seq::filter_distributes_over_add(a, seq![row], pred);
    Seq::filter_distributes_over_add(a, b, pred);
    Seq::<Continuation>::empty().lemma_filter_push(row, pred);
    assert(Seq::<Continuation>::empty().push(row) =~= seq![row]);
    reveal(Seq::filter);
    assert(Seq::<Continuation>::empty().filter(pred) =~= Seq::<Continuation>::empty());
    if row.key@ == k {
        assert forall|j: int| 0 <= j < b.len() implies !pred(#[trigger] b[j]) by {
            assert(b[j] == before[p + j]);
            if b[j].key@ == k {
                text_before_strict(row.key@, before[p].key@);
            }
        }
        b.lemma_all_neg_filter_empty(pred);
        assert(b.filter(pred) =~= Seq::<Continuation>::empty());
        assert((a + seq![row]).filter(pred) =~= a.filter(pred).push(row));
    } else {
        assert((a + seq![row]).filter(pred) =~= a.filter(pred));
    }
}

/// The rows in order of their keys, earlier rows first among equal keys.
pub fn sort_by_key(rows: Vec<Continuation>) -> (out: Vec<Continuation>)
    ensures
        sorted_by_key(out@),
        out@.to_multiset() =~= rows@.to_multiset(),
        forall|k: Seq<char>| #[trigger] rows_with_key(out@, k) == rows_with_key(rows@, k),
{
    let mut rest = rows;
    let mut out: Vec<Continuation> = Vec::new();
    let ghost original = rest@;
    let ghost mut consumed: int = 0;
    proof {
        broadcast use vstd::seq_lib::group_to_multiset_ensures;

        assert(out@.to_multiset() =~= vstd::multiset::Multiset::empty());
        reveal(Seq::filter);
        assert forall|k: Seq<char>| #[trigger] rows_with_key(out@, k) == rows_with_key(
            original.subrange(0, 0),
            k,
        ) by {
            assert(original.subrange(0, 0) =~= out@);
        }
        assert(rest@ =~= original.subrange(0, original.len() as int));
    }
    while rest.len() > 0
        invariant
            sorted_by_key(out@),
            out@.to_multiset().add(rest@.to_multiset()) =~= original.to_multiset(),
            0 <= consumed <= original.len(),
            rest@ == original.subrange(consumed, original.len() as int),
            forall|k: Seq<char>| #[trigger] rows_with_key(out@, k) == rows_with_key(
                original.subrange(0, consumed),
                k,
            ),
        decreases rest@.len(),
    {
        let ghost before = rest@;
        let row = rest.remove(0);
        proof {
            broadcast use vstd::seq_lib::group_to_multiset_ensures;

            assert(before.remove(0) == rest@);
            assert(row == original[consumed]);
        }
        let mut p: usize = 0;
        while p < out.len() && !key_before(&row.key, &out[p].key)
            invariant
                p <= out@.len(),
                forall|i: int| 0 <= i < p ==> !text_before(row.key@, #[trigger] out@[i].key@),
            decreases out@.len() - p,
        {
            p = p + 1;
        }
        let ghost sorted_before = out@;
        out.insert(p, row);
        proof {
            broadcast use vstd::seq_lib::group_to_multiset_ensures;

            assert forall|i: int, j: int| 0 <= i < j < out@.len() implies !text_before(
                #[trigger] out@[j].key@,
                #[trigger] out@[i].key@,
            ) by {
                if j == p as int {
                    assert(out@[i] == sorted_before[i]);
                } else if i == p as int {
                    let q = sorted_before[j - 1];
                    assert(out@[j] == q);
                    if text_before(q.key@, row.key@) {
                        if p < sorted_before.len() {
                            assert(text_before(row.key@, sorted_before[p as int].key@));
                            if (j - 1) as int > p as int {
                                assert(!text_before(q.key@, sorted_before[p as int].key@));
                            }
                            text_before_transitive(q.key@, row.key@, sorted_before[p as int].key@);
                            text_before_strict(q.key@, sorted_before[p as int].key@);
                        }
                    }
                } else {
                    let i0 = if i < p { i } else { i - 1 };
                    let j0 = if j < p { j } else { j - 1 };
                    assert(out@[i] == sorted_before[i0]);
                    assert(out@[j] == sorted_before[j0]);
                }
            }
            assert(out@.to_multiset() =~= sorted_before.to_multiset().insert(row));
            assert forall|k: Seq<char>| #[trigger] rows_with_key(out@, k) == rows_with_key(
                original.subrange(0, consumed + 1),
                k,
            ) by {
                insert_after_equal_keys(sorted_before, p as int, row, k);
                assert(out@ == sorted_before.insert(p as int, row));
                assert(original.subrange(0, consumed + 1) =~= original.subrange(0, consumed).push(
                    row,
                ));
                original.subrange(0, consumed).lemma_filter_push(row, key_is(k));
            }
            consumed = consumed + 1;
            assert(rest@ =~= original.subrange(consumed, original.len() as int));
        }
    }
    proof {
        broadcast use vstd::seq_lib::group_to_multiset_ensures;

        assert(original.subrange(0, consumed) =~= original);
    }
    out
}

/// A readable name for an action id.
///
/// The action's own declared display name when it has one (the host
/// looks it up); otherwise, since the keymap is shared and a host may
/// bind an action from another surface, the id's last word — the last
/// run between `.` and `_` separators — or, when the id has no such word,
/// the id with its underscores read as spaces.
pub fn label_for(action: &str, declared: Option<&str>) -> (s: String)
    ensures
        s@ == match declared {
            Some(name) => name@,
            None => fallback_label(action@),
        },
{
    match declared {
        Some(name) => String::from_str(name),
        None => fallback_label_of(action),
    }
}

/// A separator between the words of an action id.
pub open spec fn is_separator(c: char) -> bool {
    c == '.' || c == '_'
}

/// `s` without its trailing separators.
pub open spec fn trim_separators(s: Seq<char>) -> Seq<char>
    decreases s.len(),
{
    if s.len() > 0 && is_separator(s.last()) {
        trim_separators(s.drop_last())
    } else {
        s
    }
}

/// The run of non-separators at the end of `s`.
pub open spec fn last_word(s: Seq<char>) -> Seq<char>
    decreases s.len(),
{
    if s.len() == 0 || is_separator(s.last()) {
        Seq::empty()
    } else {
        last_word(s.drop_last()).push(s.last())
    }
}

/// An action id's label when the action declares none.
pub open spec fn fallback_label(s: Seq<char>) -> Seq<char> {
    let t = trim_separators(s);
    if t.len() == 0 {
        s.map_values(|c: char| if c == '_' { ' ' } else { c })
    } else {
        last_word(t)
    }
}

/// An id that trims away entirely is all separators.
proof fn all_separators_when_trimmed_away(s: Seq<char>)
    requires
        trim_separators(s).len() == 0,
    ensures
        forall|k: int| 0 <= k < s.len() ==> is_separator(#[trigger] s[k]),
    decreases s.len(),
{
    if s.len() > 0 {
        all_separators_when_trimmed_away(s.drop_last());
        assert forall|k: int| 0 <= k < s.len() implies is_separator(#[trigger] s[k]) by {
            if k < s.len() - 1 {
                assert(s[k] == s.drop_last()[k]);
            }
        }
    }
}

#[verifier::rlimit(30)]
fn fallback_label_of(action: &str) -> (r: String)
    ensures
        r@ == fallback_label(action@),
{
    let c = chars_of(action);
    let n = c.len();
    let mut end: usize = n;
    assert(c@.subrange(0, n as int) =~= c@);
    while end > 0 && (c[end - 1] == '.' || c[end - 1] == '_')
        invariant
            c@ == action@,
            end <= n == c@.len(),
            trim_separators(c@) == trim_separators(c@.subrange(0, end as int)),
        decreases end,
    {
        assert(c@.subrange(0, end as int).drop_last() =~= c@.subrange(0, end - 1));
        end = end - 1;
    }
    assert(trim_separators(c@.subrange(0, end as int)) == c@.subrange(0, end as int));
    if end == 0 {
        proof {
            all_separators_when_trimmed_away(c@);
        }
        let mut out = String::new();
        let mut i: usize = 0;
        while i < n
            invariant
                c@ == action@,
                n == c@.len(),
                i <= n,
                forall|k: int| 0 <= k < n ==> is_separator(#[trigger] c@[k]),
                out@ =~= c@.subrange(0, i as int).map_values(|ch: char| if ch == '_' { ' ' } else { ch }),
            decreases n - i,
        {
            if c[i] == '_' {
                out.append(" ");
                proof { reveal_strlit(" "); }
            } else {
                out.append(".");
                proof {
                    reveal_strlit(".");
                }
            }
            i = i + 1;
            assert(out@ =~= c@.subrange(0, i as int).map_values(|ch: char| if ch == '_' { ' ' } else { ch }));
        }
        assert(c@.subrange(0, n as int) =~= c@);
        return out;
    }
    let mut start: usize = end;
    while start > 0 && !(c[start - 1] == '.' || c[start - 1] == '_')
        invariant
            c@ == action@,
            start <= end <= n == c@.len(),
            last_word(c@.subrange(0, end as int)) == last_word(c@.subrange(0, start as int)) + c@.subrange(
                start as int,
                end as int,
            ),
        decreases start,
    {
        assert(c@.subrange(0, start as int).drop_last() =~= c@.subrange(0, start - 1));
        assert(c@.subrange(start - 1, end as int) =~= seq![c@[start - 1]] + c@.subrange(
            start as int,
            end as int,
        ));
        start = start - 1;
    }
    assert(last_word(c@.subrange(0, start as int)) =~= Seq::<char>::empty());
    let word = action.substring_char(start, end);
    String::from_str(word)
}

// ── the help panels ─────────────────────────────────────────────────────

/// The razor help panel's rows.
///
/// While the razor's verbs are live, the verbs themselves. Otherwise the
/// long spelling — what follows the `a` prefix, read from the keymap, each
/// key written with the prefix in front — and the way out of it, `x`,
/// which arms the razor so the single keys work.
pub open spec fn razor_help(live: bool, after_a: Seq<Continuation>, out: Seq<Continuation>) -> bool {
    if live {
        &&& out.len() == 15
        &&& forall|i: int|
            0 <= i < 15 ==> (#[trigger] out[i]).key@ == crate::interaction::RAZOR_KEYS@[i].0@
                && out[i].label@ == crate::interaction::RAZOR_KEYS@[i].1@ && !out[i].is_group
    } else {
        &&& out.len() == after_a.len() + 1
        &&& forall|i: int|
            0 <= i < after_a.len() ==> (#[trigger] out[i]).key@ == "a "@ + after_a[i].key@
                && out[i].label == after_a[i].label && out[i].is_group == after_a[i].is_group
        &&& out[after_a.len() as int].key@ == "x"@
        &&& out[after_a.len() as int].label@ == "Razor tool — then single keys"@
        &&& !out[after_a.len() as int].is_group
    }
}

/// The rows the razor help panel shows.
pub fn razor_help_rows(live: bool, after_a: Vec<Continuation>) -> (out: Vec<Continuation>)
    ensures
        razor_help(live, after_a@, out@),
{
    let mut out: Vec<Continuation> = Vec::new();
    if live {
        let mut i: usize = 0;
        while i < 15
            invariant
                i <= 15,
                out@.len() == i,
                forall|k: int|
                    0 <= k < i ==> (#[trigger] out@[k]).key@ == crate::interaction::RAZOR_KEYS@[k].0@
                        && out@[k].label@ == crate::interaction::RAZOR_KEYS@[k].1@ && !out@[k].is_group,
            decreases 15 - i,
        {
            let (key, label) = crate::interaction::RAZOR_KEYS[i];
            out.push(
                Continuation {
                    key: String::from_str(key),
                    label: String::from_str(label),
                    is_group: false,
                },
            );
            i = i + 1;
        }
        return out;
    }
    let n = after_a.len();
    let mut rest = after_a;
    let ghost original = rest@;
    let mut i: usize = 0;
    while i < n
        invariant
            n == original.len(),
            i <= n,
            rest@ == original.subrange(i as int, n as int),
            out@.len() == i,
            forall|k: int|
                0 <= k < i ==> (#[trigger] out@[k]).key@ == "a "@ + original[k].key@
                    && out@[k].label == original[k].label && out@[k].is_group == original[k].is_group,
        decreases n - i,
    {
        let row = rest.remove(0);
        assert(row == original[i as int]);
        let mut key = String::from_str("a ");
        key.append(row.key.as_str());
        out.push(Continuation { key, label: row.label, is_group: row.is_group });
        i = i + 1;
        assert(rest@ =~= original.subrange(i as int, n as int));
    }
    out.push(
        Continuation {
            key: String::from_str("x"),
            label: String::from_str("Razor tool — then single keys"),
            is_group: false,
        },
    );
    out
}

/// The degree a row's key names, when it names one from 1 to 7.
pub open spec fn chord_degree(key: Seq<char>) -> Option<usize> {
    match parsed_usize(key) {
        Some(d) => if 1 <= d <= 7 {
            Some(d)
        } else {
            None
        },
        None => None,
    }
}

/// A chord-tree row with its real chord name: the name of the degree its
/// key names, when that name is not empty; the row as it was otherwise.
pub open spec fn named_chord_row(row: Continuation, names: Seq<String>) -> (Seq<char>, Seq<char>, bool) {
    match chord_degree(row.key@) {
        Some(d) => if names[d - 1]@.len() > 0 {
            (row.key@, names[d - 1]@, row.is_group)
        } else {
            (row.key@, row.label@, row.is_group)
        },
        None => (row.key@, row.label@, row.is_group),
    }
}

/// Every degree from 1 to 7 gets its chord's name: a row whose key reads
/// as degree `d` shows `names[d - 1]` when that name is not empty, so the
/// row keyed by the digit `7` shows the seventh name. A row whose key is
/// no degree, or whose degree has no name, keeps its label; and no row
/// changes its key or whether it opens a group.
pub proof fn every_degree_is_named(row: Continuation, names: Seq<String>, d: usize)
    requires
        names.len() == 7,
    ensures
        parsed_usize(row.key@) == Some(d) && 1 <= d <= 7 && names[d - 1]@.len() > 0
            ==> named_chord_row(row, names).1 == names[d - 1]@,
        1 <= d <= 7 && row.key@ == decimal_text(d as nat) && names[d - 1]@.len() > 0
            ==> named_chord_row(row, names).1 == names[d - 1]@,
        (match parsed_usize(row.key@) {
            Some(e) => e < 1 || e > 7 || names[e - 1]@.len() == 0,
            None => true,
        }) ==> named_chord_row(row, names).1 == row.label@,
        named_chord_row(row, names).0 == row.key@,
        named_chord_row(row, names).2 == row.is_group,
{
    if 1 <= d <= 7 && row.key@ == decimal_text(d as nat) {
        decimal_text_reads_back(d as nat);
        assert(decimal_digits(row.key@) == Some(row.key@));
    }
}

/// The text a row shows.
pub open spec fn row_text(row: Continuation) -> (Seq<char>, Seq<char>, bool) {
    (row.key@, row.label@, row.is_group)
}

/// Put the real chord names on the chord tree's degree rows.
///
/// The keymap can only say "fire the chord on this degree"; which chord
/// that is depends on the key, the scale, the depth and the inversion,
/// so the names are handed in — `names[d - 1]` for degree `d` — and a
/// row whose key is a degree from 1 to 7 shows that chord's name
/// instead of the generic label, unless the name is empty.
pub fn name_chord_rows(rows: Vec<Continuation>, names: &Vec<String>) -> (out: Vec<Continuation>)
    requires
        names@.len() == 7,
    ensures
        out@.len() == rows@.len(),
        forall|i: int|
            0 <= i < rows@.len() ==> row_text(#[trigger] out@[i]) == named_chord_row(rows@[i], names@),
{
    let n = rows.len();
    let mut rest = rows;
    let ghost original = rest@;
    let mut out: Vec<Continuation> = Vec::new();
    let mut i: usize = 0;
    while i < n
        invariant
            n == original.len(),
            names@.len() == 7,
            i <= n,
            rest@ == original.subrange(i as int, n as int),
            out@.len() == i,
            forall|k: int|
                0 <= k < i ==> row_text(#[trigger] out@[k]) == named_chord_row(original[k], names@),
        decreases n - i,
    {
        let row = rest.remove(0);
        assert(row == original[i as int]);
        let named = match parse_usize(row.key.as_str()) {
            Some(d) => {
                if 1 <= d && d <= 7 && names[d - 1].as_str().unicode_len() > 0 {
                    Continuation { key: row.key, label: names[d - 1].clone(), is_group: row.is_group }
                } else {
                    row
                }
            },
            None => row,
        };
        out.push(named);
        i = i + 1;
        assert(rest@ =~= original.subrange(i as int, n as int));
    }
    out
}

/// The razor help panel's heading: the verbs' own panel while they are
/// live, otherwise the prefix that reaches them.
pub fn razor_help_title(live: bool) -> (s: String)
    ensures
        s@ == if live {
            "Razor"@
        } else {
            "Razor · a"@
        },
{
    if live {
        String::from_str("Razor")
    } else {
        String::from_str("Razor · a")
    }
}

/// What the key panel shows, if anything, as `(title, rows)`.
///
/// One decision in one place, so the panel is one mounted component
/// rather than a choice between two: a half-typed sequence shows its
/// continuations under the chord tree's title, with the real chord names
/// on its degree rows; failing that, drawn razor areas show the razor
/// help; otherwise nothing.
pub fn key_panel(
    which_key: Vec<Continuation>,
    chord_title: String,
    chord_names: &Vec<String>,
    has_razor: bool,
    razor_live: bool,
    after_a: Vec<Continuation>,
) -> (r: Option<(String, Vec<Continuation>)>)
    requires
        chord_names@.len() == 7,
    ensures
        which_key@.len() > 0 ==> (r matches Some((title, rows)) && title == chord_title
            && rows@.len() == which_key@.len() && forall|i: int|
            0 <= i < which_key@.len() ==> row_text(#[trigger] rows@[i]) == named_chord_row(
                which_key@[i],
                chord_names@,
            )),
        which_key@.len() == 0 && has_razor ==> (r matches Some((title, rows)) && title@ == (
        if razor_live {
            "Razor"@
        } else {
            "Razor · a"@
        }) && razor_help(razor_live, after_a@, rows@)),
        which_key@.len() == 0 && !has_razor ==> r is None,
{
    if which_key.len() > 0 {
        return Some((chord_title, name_chord_rows(which_key, chord_names)));
    }
    if has_razor {
        return Some((razor_help_title(razor_live), razor_help_rows(razor_live, after_a)));
    }
    None
}

/// A tool a held which-key prefix springs into.
#[derive(Clone, Copy, Debug, PartialEq, Eq, Structural)]
pub enum SpringTool {
    Zoom,
    Velocity,
}

/// The tool a held which-key prefix springs into, if it has one.
///
/// Two keys are both a prefix and a tool: tap `z` and it waits for a zoom
/// target, hold it and drag and it is the zoom tool for the length of the
/// hold; `v` is the same shape for velocity.
pub fn spring_tool(key: &str) -> (t: Option<SpringTool>)
    ensures
        t == if key@ == "z"@ {
            Some(SpringTool::Zoom)
        } else if key@ == "v"@ {
            Some(SpringTool::Velocity)
        } else {
            None
        },
{
    if same_text(key, "z") {
        Some(SpringTool::Zoom)
    } else if same_text(key, "v") {
        Some(SpringTool::Velocity)
    } else {
        None
    }
}


/// The spring-loaded tool's state between a prefix key going down and
/// coming up: the tool to return to, and whether the hold was spent on a
/// drag.
///
/// Tap and hold are one idea. The key-down only arms; the key-up decides.
/// A tap arms and disarms without showing, and leaves the sequence open
/// for the rest of the chord; a hold that a drag used is finished, so its
/// release closes the overlay too. No timer tells the two apart: the
/// gesture does, so a slow tap never turns into a hold. `T` is the host's
/// tool type.
#[derive(Clone, Copy, Debug)]
pub struct SpringState<T> {
    from: Option<T>,
    used: bool,
}

impl<T> View for SpringState<T> {
    /// The tool to return to, and whether a drag spent the hold.
    type V = (Option<T>, bool);

    closed spec fn view(&self) -> (Option<T>, bool) {
        (self.from, self.used)
    }
}

/// A spring prefix goes down while the host's tool is `previous`
/// (`already` when that is the tool it springs into). It arms only from
/// rest, and only when it changes the tool: a repeated key-down keeps the
/// tool it first sprang from.
pub open spec fn spring_armed<T>(s: (Option<T>, bool), previous: T, already: bool) -> (Option<T>, bool) {
    if s.0 is None && !already {
        (Some(previous), s.1)
    } else {
        s
    }
}

/// The pointer goes down on the roll: with the zoom prefix held and the
/// tool sprung, the hold is spent.
pub open spec fn spring_pressed<T>(s: (Option<T>, bool), zoom_held: bool) -> (Option<T>, bool) {
    (s.0, s.1 || (zoom_held && s.0 is Some))
}

impl<T: Copy> SpringState<T> {
    /// At rest: nothing sprung, nothing spent.
    pub fn new() -> (s: Self)
        ensures
            s@ == (None::<T>, false),
    {
        SpringState { from: None, used: false }
    }

    /// A spring prefix went down while the host's tool was `previous`.
    /// Returns whether the host should switch to the sprung tool now, so
    /// the toolbar lights up the moment the key goes down.
    pub fn arm(&mut self, previous: T, already: bool) -> (switch: bool)
        ensures
            final(self)@ == spring_armed(old(self)@, previous, already),
            switch == (old(self)@.0 is None && !already),
    {
        if self.from.is_none() && !already {
            self.from = Some(previous);
            true
        } else {
            false
        }
    }

    /// The pointer went down on the roll; `zoom_held` is whether the
    /// zoom prefix is the key still held.
    pub fn pointer_down(&mut self, zoom_held: bool)
        ensures
            final(self)@ == spring_pressed(old(self)@, zoom_held),
    {
        if zoom_held && self.from.is_some() {
            self.used = true;
        }
    }

    /// The spring key came up. Returns the tool to restore, if one was
    /// sprung, and whether the sequence is over and the overlay must
    /// close (the hold was spent). Leaves the state at rest.
    pub fn release(&mut self) -> (r: (Option<T>, bool))
        ensures
            r == old(self)@,
            final(self)@ == (None::<T>, false),
    {
        let r = (self.from, self.used);
        self.from = None;
        self.used = false;
        r
    }

    /// Whether a tool is sprung now.
    pub fn is_armed(&self) -> (b: bool)
        ensures
            b == self@.0 is Some,
    {
        self.from.is_some()
    }
}

impl<T: Copy> Default for SpringState<T> {
    fn default() -> (s: Self)
        ensures
            s@ == (None::<T>, false),
    {
        SpringState::new()
    }
}

/// A tap of a spring key (down, then up, with no drag between) restores
/// the tool it sprang from and leaves the sequence open; a held key that
/// a drag spent restores it too, and closes the sequence. A key that was
/// already the host's tool restores nothing and, undragged, closes
/// nothing.
pub proof fn tap_and_hold_restore_the_tool<T>(previous: T, zoom_held: bool)
    ensures
        spring_armed((None::<T>, false), previous, false) == (Some(previous), false),
        spring_pressed(spring_armed((None::<T>, false), previous, false), zoom_held)
            == (Some(previous), zoom_held),
        spring_armed((None::<T>, false), previous, true) == (None::<T>, false),
        spring_pressed(spring_armed((None::<T>, false), previous, true), zoom_held)
            == (None::<T>, false),
{
}

/// Once sprung, further key-downs (auto-repeat) keep the tool it first
/// sprang from, and a drag can only spend the hold, never undo a spend.
pub proof fn spring_keeps_its_origin<T>(s: (Option<T>, bool), previous: T, already: bool, zoom_held: bool)
    requires
        s.0 is Some,
    ensures
        spring_armed(s, previous, already) == s,
        spring_pressed(s, zoom_held).0 == s.0,
        s.1 ==> spring_pressed(s, zoom_held).1,
{
}

} // verus!
