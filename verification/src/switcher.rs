//! The track switcher's decisions: whether it takes a row at all, and the
//! shortcut each row advertises.
use vstd::prelude::*;

use crate::keys::{digit_char, digit_text};

verus! {

/// The shortcut row `i` advertises: its position counted from one, with
/// the tenth row on `0`. Rows past the tenth have none — a two-key
/// shortcut for track eleven is slower than clicking it.
pub open spec fn shortcut_text(i: int) -> Option<Seq<char>> {
    if 0 <= i < 10 {
        Some(seq![digit_char((i + 1) % 10)])
    } else {
        None
    }
}

/// Shortcut label for row `i`.
pub fn shortcut(i: usize) -> (r: Option<String>)
    ensures
        match r {
            Some(s) => shortcut_text(i as int) == Some(s@),
            None => shortcut_text(i as int) is None,
        },
{
    if i < 10 {
        Some(String::from_str(digit_text(((i + 1) % 10) as u8)))
    } else {
        None
    }
}

/// Whether the switcher takes a row at all.
///
/// One track is the ordinary case and a switcher for it is pure chrome,
/// so it stays hidden until there is something to switch to. A stacked
/// workspace whose lanes all carry a role picks its mic per lane instead,
/// in the lane's own gutter, so the switcher stays hidden there too.
pub fn is_shown(track_count: usize, stacked: bool, lane_has_role: &[bool]) -> (b: bool)
    ensures
        b == (track_count >= 2 && !(stacked && lane_has_role@.len() > 0 && forall|k: int|
            0 <= k < lane_has_role@.len() ==> #[trigger] lane_has_role@[k])),
{
    if track_count < 2 {
        return false;
    }
    if stacked {
        let n = lane_has_role.len();
        if n > 0 {
            let mut i: usize = 0;
            while i < n
                invariant
                    n == lane_has_role@.len(),
                    track_count >= 2,
                    stacked,
                    i <= n,
                    forall|k: int| 0 <= k < i ==> #[trigger] lane_has_role@[k],
                decreases n - i,
            {
                if !lane_has_role[i] {
                    assert(!lane_has_role@[i as int]);
                    return true;
                }
                i = i + 1;
            }
            return false;
        }
    }
    true
}

} // verus!
