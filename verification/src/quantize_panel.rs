//! The quantize surface's own state: how a quantize is written, which
//! tracks it edits, the grid it targets, and the per-slider defaults a
//! user stores.
use vstd::prelude::*;

verus! {

/// How the quantize is written.
#[derive(Clone, Copy, Debug, PartialEq, Eq, Structural)]
pub enum WriteMode {
    /// Cut the audio and move the pieces. Phase-coherent across a mic
    /// group, which is why drum editing is done this way.
    Split,
    /// Bend time between anchors, keeping the material continuous.
    Warp,
}

impl Default for WriteMode {
    fn default() -> (m: Self)
        ensures
            m == WriteMode::Split,
    {
        WriteMode::Split
    }
}

/// The names of a list of strings, as character sequences.
pub open spec fn names_of(v: Seq<String>) -> Seq<Seq<char>> {
    v.map_values(|s: String| s@)
}

/// Which tracks are edited, and which one the hits are detected from.
///
/// Separate on purpose: a kit is quantized from the snare or a trigger
/// track, and every mic is cut in the same places.
#[derive(Clone, Debug, PartialEq)]
pub struct Group {
    /// Track guids being edited.
    pub members: Vec<String>,
    /// The guid hits are detected from. Must be one of `members`, or the
    /// group is editing to a reference nobody can hear.
    pub trigger: Option<String>,
}

impl Default for Group {
    fn default() -> (g: Self)
        ensures
            g.members@.len() == 0,
            g.trigger is None,
    {
        Group { members: Vec::new(), trigger: None }
    }
}

impl Group {
    /// Whether the trigger is set and is one of the members.
    pub fn is_valid(&self) -> (b: bool)
        ensures
            b == (match self.trigger {
                Some(t) => names_of(self.members@).contains(t@),
                None => false,
            }),
    {
        match &self.trigger {
            Some(t) => {
                let mut i: usize = 0;
                while i < self.members.len()
                    invariant
                        i <= self.members@.len(),
                        self.trigger == Some(*t),
                        forall|j: int| 0 <= j < i ==> self.members@[j]@ != t@,
                    decreases self.members@.len() - i,
                {
                    if self.members[i] == *t {
                        assert(names_of(self.members@)[i as int] == t@);
                        return true;
                    }
                    i = i + 1;
                }
                assert(!names_of(self.members@).contains(t@));
                false
            },
            None => false,
        }
    }
}

/// The grid divisions the target section offers, 1/4 to 1/64.
#[derive(Clone, Copy, Debug, PartialEq, Eq, Structural)]
pub enum GridDivision {
    Quarter,
    Eighth,
    Sixteenth,
    ThirtySecond,
    SixtyFourth,
}

/// How a division is written in the picker.
pub open spec fn division_label(d: GridDivision) -> Seq<char> {
    match d {
        GridDivision::Quarter => "1/4"@,
        GridDivision::Eighth => "1/8"@,
        GridDivision::Sixteenth => "1/16"@,
        GridDivision::ThirtySecond => "1/32"@,
        GridDivision::SixtyFourth => "1/64"@,
    }
}

impl GridDivision {
    pub const ALL: [GridDivision; 5] = [
        GridDivision::Quarter,
        GridDivision::Eighth,
        GridDivision::Sixteenth,
        GridDivision::ThirtySecond,
        GridDivision::SixtyFourth,
    ];

    pub fn label(self) -> (s: &'static str)
        ensures
            s@ == division_label(self),
    {
        match self {
            GridDivision::Quarter => "1/4",
            GridDivision::Eighth => "1/8",
            GridDivision::Sixteenth => "1/16",
            GridDivision::ThirtySecond => "1/32",
            GridDivision::SixtyFourth => "1/64",
        }
    }
}

/// Straight, triplet or dotted — the multiplier on the division.
#[derive(Clone, Copy, Debug, PartialEq, Eq, Structural)]
pub enum GridFeel {
    Straight,
    Triplet,
    Dotted,
}

/// How a feel is written in the picker.
pub open spec fn feel_label(f: GridFeel) -> Seq<char> {
    match f {
        GridFeel::Straight => "straight"@,
        GridFeel::Triplet => "triplet"@,
        GridFeel::Dotted => "dotted"@,
    }
}

impl Default for GridFeel {
    fn default() -> (f: Self)
        ensures
            f == GridFeel::Straight,
    {
        GridFeel::Straight
    }
}

impl GridFeel {
    pub const ALL: [GridFeel; 3] = [GridFeel::Straight, GridFeel::Triplet, GridFeel::Dotted];

    pub fn label(self) -> (s: &'static str)
        ensures
            s@ == feel_label(self),
    {
        match self {
            GridFeel::Straight => "straight",
            GridFeel::Triplet => "triplet",
            GridFeel::Dotted => "dotted",
        }
    }
}

/// Per-slider "my default" values, keyed by the slider's name.
///
/// Right-click stores, Alt-click resets. Plain data, so a host can
/// serialize it with the rest of its settings. The value type is the
/// slider's own.
#[derive(Debug, PartialEq)]
pub struct SliderDefaults<V> {
    stored: Vec<(String, V)>,
}

/// The value stored under `name` in `entries`, if any.
pub open spec fn stored_value<V>(entries: Seq<(String, V)>, name: Seq<char>) -> Option<V> {
    if exists|i: int| 0 <= i < entries.len() && #[trigger] entries[i].0@ == name {
        let i = choose|i: int| 0 <= i < entries.len() && #[trigger] entries[i].0@ == name;
        Some(entries[i].1)
    } else {
        None
    }
}

impl<V> SliderDefaults<V> {
    /// No two entries share a name.
    #[verifier::type_invariant]
    spec fn names_are_distinct(self) -> bool {
        forall|i: int, j: int|
            0 <= i < j < self.stored@.len() ==> #[trigger] self.stored@[i].0@
                != #[trigger] self.stored@[j].0@
    }
}

impl<V: Copy> SliderDefaults<V> {

    /// The default stored for `name`, as a map lookup.
    pub closed spec fn value_of(&self, name: Seq<char>) -> Option<V> {
        stored_value(self.stored@, name)
    }

    /// Nothing stored.
    pub fn new() -> (d: Self)
        ensures
            forall|n: Seq<char>| d.value_of(n) is None,
    {
        SliderDefaults { stored: Vec::new() }
    }

    /// Where `name` is stored, if it is.
    fn position(&self, name: &str) -> (r: Option<usize>)
        ensures
            match r {
                Some(i) => i < self.stored@.len() && self.stored@[i as int].0@ == name@,
                None => forall|j: int| 0 <= j < self.stored@.len() ==> self.stored@[j].0@ != name@,
            },
    {
        let key = String::from_str(name);
        let mut i: usize = 0;
        while i < self.stored.len()
            invariant
                i <= self.stored@.len(),
                key@ == name@,
                forall|j: int| 0 <= j < i ==> self.stored@[j].0@ != name@,
            decreases self.stored@.len() - i,
        {
            if self.stored[i].0 == key {
                return Some(i);
            }
            i = i + 1;
        }
        None
    }

    /// Right-click → store `value` as the default for `name`.
    pub fn store(&mut self, name: &str, value: V)
        ensures
            forall|n: Seq<char>|
                #[trigger] final(self).value_of(n) == if n == name@ {
                    Some(value)
                } else {
                    old(self).value_of(n)
                },
    {
        proof {
            use_type_invariant(&*self);
        }
        let found = self.position(name);
        let mut stored: Vec<(String, V)> = Vec::new();
        std::mem::swap(&mut stored, &mut self.stored);
        match found {
            Some(i) => {
                stored.set(i, (String::from_str(name), value));
                self.stored = stored;
                assert forall|n: Seq<char>|
                    #[trigger] self.value_of(n) == if n == name@ {
                        Some(value)
                    } else {
                        old(self).value_of(n)
                    } by {
                    if n == name@ {
                        assert(self.stored@[i as int].0@ == n);
                    } else {
                        assert forall|j: int| 0 <= j < self.stored@.len() implies (
                        self.stored@[j].0@ == n) == (old(self).stored@[j].0@ == n) by {}
                        if exists|j: int| 0 <= j < self.stored@.len() && #[trigger] self.stored@[j].0@ == n {
                            let j = choose|j: int| 0 <= j < self.stored@.len() && #[trigger] self.stored@[j].0@ == n;
                            assert(old(self).stored@[j].0@ == n);
                        }
                    }
                }
            },
            None => {
                stored.push((String::from_str(name), value));
                self.stored = stored;
                let ghost last = old(self).stored@.len() as int;
                assert forall|n: Seq<char>|
                    #[trigger] self.value_of(n) == if n == name@ {
                        Some(value)
                    } else {
                        old(self).value_of(n)
                    } by {
                    assert(forall|j: int| 0 <= j < last ==> self.stored@[j] == old(self).stored@[j]);
                    if n == name@ {
                        assert(self.stored@[last].0@ == n);
                        let j = choose|j: int| 0 <= j < self.stored@.len() && #[trigger] self.stored@[j].0@ == n;
                        assert(j == last);
                    } else {
                        if exists|j: int| 0 <= j < self.stored@.len() && #[trigger] self.stored@[j].0@ == n {
                            let j = choose|j: int| 0 <= j < self.stored@.len() && #[trigger] self.stored@[j].0@ == n;
                            assert(old(self).stored@[j].0@ == n);
                        }
                    }
                }
            },
        }
    }

    /// The stored default for `name`, when there is one.
    pub fn get(&self, name: &str) -> (r: Option<V>)
        ensures
            r == self.value_of(name@),
    {
        proof {
            use_type_invariant(self);
        }
        match self.position(name) {
            Some(i) => Some(self.stored[i].1),
            None => None,
        }
    }

    /// Alt-click → what the slider resets to: the user's stored default,
    /// or the built-in one when nothing was stored.
    pub fn reset_value(&self, name: &str, built_in: V) -> (v: V)
        ensures
            v == match self.value_of(name@) {
                Some(s) => s,
                None => built_in,
            },
    {
        match self.get(name) {
            Some(v) => v,
            None => built_in,
        }
    }
}

impl<V: Copy> Clone for SliderDefaults<V> {
    /// An independent copy holding the same defaults.
    fn clone(&self) -> (c: Self)
        ensures
            forall|n: Seq<char>| #[trigger] c.value_of(n) == self.value_of(n),
    {
        proof {
            use_type_invariant(self);
        }
        let mut out: Vec<(String, V)> = Vec::new();
        let mut i: usize = 0;
        while i < self.stored.len()
            invariant
                i <= self.stored@.len(),
                out@ == self.stored@.subrange(0, i as int),
            decreases self.stored@.len() - i,
        {
            let entry = (self.stored[i].0.clone(), self.stored[i].1);
            out.push(entry);
            i = i + 1;
        }
        assert(out@ == self.stored@);
        SliderDefaults { stored: out }
    }
}

impl<V: Copy> Default for SliderDefaults<V> {
    fn default() -> (d: Self)
        ensures
            forall|n: Seq<char>| d.value_of(n) is None,
    {
        SliderDefaults::new()
    }
}


/// The filter presets a panel offers, and which one is selected.
///
/// The list starts with the presets that ship; saving the current filter
/// block appends a user preset and selects it, and applying one selects
/// it. An index past the end is ignored rather than selected. `P` is the
/// host's preset type.
#[derive(Clone, Debug)]
pub struct PresetList<P> {
    presets: Vec<P>,
    selected: usize,
}

impl<P> View for PresetList<P> {
    /// The presets in order, and the selected index.
    type V = (Seq<P>, usize);

    closed spec fn view(&self) -> (Seq<P>, usize) {
        (self.presets@, self.selected)
    }
}

impl<P> PresetList<P> {
    /// The presets that ship, the first of them selected.
    pub fn new(builtins: Vec<P>) -> (l: Self)
        ensures
            l@ == (builtins@, 0usize),
    {
        PresetList { presets: builtins, selected: 0 }
    }

    /// Select the preset at `index`, if there is one. Returns whether it
    /// was selected; the host then applies that preset's filter block.
    pub fn select(&mut self, index: usize) -> (chosen: bool)
        ensures
            chosen == (index < old(self)@.0.len()),
            final(self)@ == if chosen {
                (old(self)@.0, index)
            } else {
                old(self)@
            },
    {
        if index < self.presets.len() {
            self.selected = index;
            true
        } else {
            false
        }
    }

    /// Append a user preset and select it. The list must still be able
    /// to grow.
    pub fn save(&mut self, preset: P)
        requires
            old(self)@.0.len() < usize::MAX,
        ensures
            final(self)@ == (old(self)@.0.push(preset), old(self)@.0.len() as usize),
    {
        self.presets.push(preset);
        self.selected = self.presets.len() - 1;
    }

    /// The presets, in order.
    pub fn presets(&self) -> (v: &Vec<P>)
        ensures
            v@ == self@.0,
    {
        &self.presets
    }

    /// The selected index.
    pub fn selected(&self) -> (i: usize)
        ensures
            i == self@.1,
    {
        self.selected
    }
}

} // verus!
