//! The frame meter's memory: a window of the most recent samples, so
//! what it shows is whether frames are arriving evenly now rather than a
//! lifetime mean that hides exactly that.
use vstd::prelude::*;

verus! {

/// How many samples a window keeps.
pub const WINDOW: usize = 60;

/// The most recent samples, oldest first, at most [`WINDOW`] of them.
#[derive(Debug)]
pub struct RecentWindow<T> {
    items: Vec<T>,
}

/// The samples kept after `x` arrives at a window holding `kept`.
pub open spec fn after_push<T>(kept: Seq<T>, x: T) -> Seq<T> {
    if kept.len() + 1 > WINDOW {
        kept.push(x).drop_first()
    } else {
        kept.push(x)
    }
}

impl<T> View for RecentWindow<T> {
    /// The samples held, oldest first.
    type V = Seq<T>;

    closed spec fn view(&self) -> Seq<T> {
        self.items@
    }
}

impl<T> RecentWindow<T> {
    /// A window never holds more than it keeps.
    #[verifier::type_invariant]
    spec fn bounded(self) -> bool {
        self.items@.len() <= WINDOW
    }

    /// An empty window.
    pub fn new() -> (w: Self)
        ensures
            w@ == Seq::<T>::empty(),
    {
        RecentWindow { items: Vec::new() }
    }

    /// Record a sample, dropping the oldest once the window is full.
    pub fn push(&mut self, x: T)
        ensures
            final(self)@ == after_push(old(self)@, x),
            final(self)@.len() <= WINDOW,
    {
        proof {
            use_type_invariant(&*self);
        }
        let mut items: Vec<T> = Vec::new();
        std::mem::swap(&mut items, &mut self.items);
        items.push(x);
        if items.len() > WINDOW {
            items.remove(0);
        }
        proof {
            if old(self)@.len() + 1 > WINDOW {
                assert(items@ =~= old(self)@.push(x).drop_first());
            }
        }
        self.items = items;
    }

    /// The samples held, oldest first.
    pub fn items(&self) -> (v: &Vec<T>)
        ensures
            v@ == self@,
    {
        &self.items
    }

    pub fn len(&self) -> (n: usize)
        ensures
            n == self@.len(),
            n <= WINDOW,
    {
        proof {
            use_type_invariant(self);
        }
        self.items.len()
    }

    pub fn is_empty(&self) -> (b: bool)
        ensures
            b == (self@.len() == 0),
    {
        self.items.len() == 0
    }
}

impl<T> Default for RecentWindow<T> {
    fn default() -> (w: Self)
        ensures
            w@ == Seq::<T>::empty(),
    {
        RecentWindow::new()
    }
}

/// A window never holds more than [`WINDOW`] samples, and the newest
/// sample is always the last one held.
pub proof fn window_stays_bounded<T>(kept: Seq<T>, x: T)
    requires
        kept.len() <= WINDOW,
    ensures
        after_push(kept, x).len() <= WINDOW,
        after_push(kept, x).len() == if kept.len() == WINDOW { WINDOW as nat } else { kept.len() + 1 },
        after_push(kept, x).last() == x,
{
}

} // verus!
