//! The vocal envelope surface: which of the four envelopes is active, and
//! which overlays are drawn.
//!
//! One envelope is **active** and receives the drag; the others are
//! visible but inert. The ride is active by default, because it is the
//! curve edited most.
use vstd::prelude::*;

verus! {

/// Which of the four a gesture is aimed at.
#[derive(Clone, Copy, Debug, PartialEq, Eq, Structural)]
pub enum ActiveEnvelope {
    Gate,
    Breath,
    Sibilance,
    /// The broadband "how loud is this bit" curve, and the one edited
    /// most — hence the default.
    Ride,
}

/// The label each envelope is shown under.
pub open spec fn envelope_label(e: ActiveEnvelope) -> Seq<char> {
    match e {
        ActiveEnvelope::Gate => "Gate"@,
        ActiveEnvelope::Breath => "Breath"@,
        ActiveEnvelope::Sibilance => "Sibilance"@,
        ActiveEnvelope::Ride => "Ride"@,
    }
}

/// Position of an envelope in the cycling order.
pub open spec fn envelope_index(e: ActiveEnvelope) -> int {
    match e {
        ActiveEnvelope::Gate => 0,
        ActiveEnvelope::Breath => 1,
        ActiveEnvelope::Sibilance => 2,
        ActiveEnvelope::Ride => 3,
    }
}

/// The envelope after `e` in the cycling order, wrapping from the last
/// back to the first.
pub open spec fn next_envelope(e: ActiveEnvelope) -> ActiveEnvelope {
    match e {
        ActiveEnvelope::Gate => ActiveEnvelope::Breath,
        ActiveEnvelope::Breath => ActiveEnvelope::Sibilance,
        ActiveEnvelope::Sibilance => ActiveEnvelope::Ride,
        ActiveEnvelope::Ride => ActiveEnvelope::Gate,
    }
}

/// `ALL` holds the four envelopes in cycling order.
proof fn lemma_all_in_order()
    ensures
        forall|i: int| 0 <= i < 4 ==> #[trigger] ActiveEnvelope::ALL@[i] == envelope_at(i),
{
    assert(ActiveEnvelope::ALL@[0] == ActiveEnvelope::Gate);
    assert(ActiveEnvelope::ALL@[1] == ActiveEnvelope::Breath);
    assert(ActiveEnvelope::ALL@[2] == ActiveEnvelope::Sibilance);
    assert(ActiveEnvelope::ALL@[3] == ActiveEnvelope::Ride);
}

impl ActiveEnvelope {
    /// All four, in cycling order.
    pub const ALL: [ActiveEnvelope; 4] = [
        ActiveEnvelope::Gate,
        ActiveEnvelope::Breath,
        ActiveEnvelope::Sibilance,
        ActiveEnvelope::Ride,
    ];

    pub fn label(&self) -> (s: &'static str)
        ensures
            s@ == envelope_label(*self),
    {
        match self {
            ActiveEnvelope::Gate => "Gate",
            ActiveEnvelope::Breath => "Breath",
            ActiveEnvelope::Sibilance => "Sibilance",
            ActiveEnvelope::Ride => "Ride",
        }
    }
}

impl Default for ActiveEnvelope {
    fn default() -> (e: Self)
        ensures
            e == ActiveEnvelope::Ride,
    {
        ActiveEnvelope::Ride
    }
}

/// Which overlays are drawn.
///
/// Distinct from bypass: hiding an overlay changes what you *see*,
/// bypassing it changes what you *hear*.
#[derive(Clone, Copy, Debug, PartialEq, Eq, Structural)]
pub struct Shown {
    pub gate: bool,
    pub breath: bool,
    pub sibilance: bool,
    pub ride: bool,
    pub composite: bool,
}

/// Whether `which` is drawn under `s`.
pub open spec fn shows(s: Shown, which: ActiveEnvelope) -> bool {
    match which {
        ActiveEnvelope::Gate => s.gate,
        ActiveEnvelope::Breath => s.breath,
        ActiveEnvelope::Sibilance => s.sibilance,
        ActiveEnvelope::Ride => s.ride,
    }
}

/// `s` with the overlay of `which` set to `on`, and nothing else changed.
pub open spec fn with_shown(s: Shown, which: ActiveEnvelope, on: bool) -> Shown {
    match which {
        ActiveEnvelope::Gate => Shown { gate: on, ..s },
        ActiveEnvelope::Breath => Shown { breath: on, ..s },
        ActiveEnvelope::Sibilance => Shown { sibilance: on, ..s },
        ActiveEnvelope::Ride => Shown { ride: on, ..s },
    }
}

/// How many of the four contributions are drawn.
pub open spec fn count_shown(s: Shown) -> nat {
    (if s.gate { 1nat } else { 0nat }) + (if s.breath { 1nat } else { 0nat }) + (if s.sibilance {
        1nat
    } else {
        0nat
    }) + (if s.ride { 1nat } else { 0nat })
}

impl Default for Shown {
    fn default() -> (s: Self)
        ensures
            s == (Shown { gate: true, breath: true, sibilance: true, ride: true, composite: true }),
    {
        Shown { gate: true, breath: true, sibilance: true, ride: true, composite: true }
    }
}

impl Shown {
    pub fn is_shown(&self, which: ActiveEnvelope) -> (b: bool)
        ensures
            b == shows(*self, which),
    {
        match which {
            ActiveEnvelope::Gate => self.gate,
            ActiveEnvelope::Breath => self.breath,
            ActiveEnvelope::Sibilance => self.sibilance,
            ActiveEnvelope::Ride => self.ride,
        }
    }

    /// Flip one overlay; the others, and the composite, stay as they were.
    pub fn toggle(&mut self, which: ActiveEnvelope)
        ensures
            *final(self) == with_shown(*old(self), which, !shows(*old(self), which)),
    {
        match which {
            ActiveEnvelope::Gate => self.gate = !self.gate,
            ActiveEnvelope::Breath => self.breath = !self.breath,
            ActiveEnvelope::Sibilance => self.sibilance = !self.sibilance,
            ActiveEnvelope::Ride => self.ride = !self.ride,
        }
    }

    /// Show one and hide the others — the "prioritise this" gesture. The
    /// composite is left as it was.
    pub fn solo(&mut self, which: ActiveEnvelope)
        ensures
            final(self).composite == old(self).composite,
            forall|e: ActiveEnvelope| shows(*final(self), e) == (e == which),
            count_shown(*final(self)) == 1,
    {
        self.gate = which == ActiveEnvelope::Gate;
        self.breath = which == ActiveEnvelope::Breath;
        self.sibilance = which == ActiveEnvelope::Sibilance;
        self.ride = which == ActiveEnvelope::Ride;
    }

    /// How many of the four contributions are drawn.
    pub fn shown_count(&self) -> (n: usize)
        ensures
            n == count_shown(*self),
    {
        proof {
            lemma_all_in_order();
        }
        let mut n: usize = 0;
        let mut i: usize = 0;
        while i < 4
            invariant
                i <= 4,
                n == count_shown_first(*self, i as int),
                n <= i,
                forall|k: int| 0 <= k < 4 ==> #[trigger] ActiveEnvelope::ALL@[k] == envelope_at(k),
            decreases 4 - i,
        {
            if self.is_shown(ActiveEnvelope::ALL[i]) {
                n = n + 1;
            }
            i = i + 1;
        }
        assert(count_shown_first(*self, 4) == count_shown(*self)) by {
            reveal_with_fuel(count_shown_first, 5);
        }
        n
    }
}

/// The envelope at position `i` of the cycling order.
pub open spec fn envelope_at(i: int) -> ActiveEnvelope {
    if i == 0 {
        ActiveEnvelope::Gate
    } else if i == 1 {
        ActiveEnvelope::Breath
    } else if i == 2 {
        ActiveEnvelope::Sibilance
    } else {
        ActiveEnvelope::Ride
    }
}

/// How many of the first `i` envelopes, in cycling order, are drawn.
pub open spec fn count_shown_first(s: Shown, i: int) -> nat
    decreases i,
{
    if i <= 0 {
        0
    } else {
        count_shown_first(s, i - 1) + (if shows(s, envelope_at(i - 1)) { 1nat } else { 0nat })
    }
}

/// The surface's state.
#[derive(Clone, Copy, Debug)]
pub struct EnvelopePanel {
    pub active: ActiveEnvelope,
    pub shown: Shown,
}

impl Default for EnvelopePanel {
    fn default() -> (p: Self)
        ensures
            p.active == ActiveEnvelope::Ride,
            p.shown == (Shown { gate: true, breath: true, sibilance: true, ride: true, composite: true }),
    {
        EnvelopePanel { active: ActiveEnvelope::default(), shown: Shown::default() }
    }
}

impl EnvelopePanel {
    /// Where a drag goes: always the active envelope, regardless of which
    /// curve is nearer the cursor.
    pub fn drag_target(&self) -> (e: ActiveEnvelope)
        ensures
            e == self.active,
    {
        self.active
    }

    /// Make one active. Activating an envelope also shows it.
    pub fn activate(&mut self, which: ActiveEnvelope)
        ensures
            final(self).active == which,
            final(self).shown == with_shown(old(self).shown, which, true),
            shows(final(self).shown, which),
    {
        self.active = which;
        match which {
            ActiveEnvelope::Gate => self.shown.gate = true,
            ActiveEnvelope::Breath => self.shown.breath = true,
            ActiveEnvelope::Sibilance => self.shown.sibilance = true,
            ActiveEnvelope::Ride => self.shown.ride = true,
        }
    }

    /// Step to the next envelope, wrapping, and show it.
    pub fn cycle(&mut self)
        ensures
            final(self).active == next_envelope(old(self).active),
            final(self).shown == with_shown(old(self).shown, next_envelope(old(self).active), true),
    {
        proof {
            lemma_all_in_order();
        }
        let mut at: usize = 0;
        while at < 4
            invariant_except_break
                at <= 4,
                forall|k: int| 0 <= k < 4 ==> #[trigger] ActiveEnvelope::ALL@[k] == envelope_at(k),
                forall|k: int| 0 <= k < at ==> envelope_at(k) != self.active,
            ensures
                at < 4 ==> envelope_at(at as int) == self.active,
                at <= 4,
                forall|k: int| 0 <= k < at ==> envelope_at(k) != self.active,
            decreases 4 - at,
        {
            if ActiveEnvelope::ALL[at] == self.active {
                break;
            }
            at = at + 1;
        }
        let next = ActiveEnvelope::ALL[(at + 1) % 4];
        self.activate(next);
    }
}

/// Toggling the same overlay twice leaves the overlays as they were.
pub proof fn toggle_twice_restores(s: Shown, which: ActiveEnvelope)
    ensures
        ({
            let once = with_shown(s, which, !shows(s, which));
            with_shown(once, which, !shows(once, which)) == s
        }),
{
}

/// Toggling one overlay never changes whether another one, or the
/// composite, is drawn.
pub proof fn toggle_leaves_others(s: Shown, which: ActiveEnvelope, other: ActiveEnvelope)
    requires
        other != which,
    ensures
        shows(with_shown(s, which, !shows(s, which)), other) == shows(s, other),
        with_shown(s, which, !shows(s, which)).composite == s.composite,
{
}

/// Cycling four times comes back to the envelope it started from, having
/// passed through every other one.
pub proof fn cycle_visits_all_and_returns(e: ActiveEnvelope)
    ensures
        next_envelope(e) == envelope_at((envelope_index(e) + 1) % 4),
        envelope_at(envelope_index(e)) == e,
        next_envelope(next_envelope(next_envelope(next_envelope(e)))) == e,
        forall|o: ActiveEnvelope|
            #![trigger envelope_index(o)]
            o == e || o == next_envelope(e) || o == next_envelope(next_envelope(e)) || o
                == next_envelope(next_envelope(next_envelope(e))),
{
}

} // verus!
