//! Choosing what to capture.
//!
//! Walking the window list and grabbing pixels are OS calls of the
//! surrounding program; what belongs here is the decision they feed: which
//! window is the agent's own overlay, so that captures can exclude it.  A
//! window is modelled by what that decision reads — its id, its title, its
//! owning application and its layer; the fractional bounds stay at the
//! capture boundary.

use vstd::prelude::*;

use crate::text::{chars_of, eq_str};

verus! {

/// What the overlay search reads of a window on screen.
#[derive(Clone, Debug)]
pub struct WindowInfo {
    pub id: u32,
    pub name: String,
    pub owner: String,
    pub layer: i32,
}

/// Whether a window is the agent's own overlay.
pub open spec fn is_otto_window(w: WindowInfo) -> bool {
    w.owner@ == "Otto"@ || w.name@ == "Otto"@
}

/// The id of the agent's own overlay window: the first window owned by or
/// titled `Otto`, if any is on screen.
pub fn find_otto_window_id(windows: &Vec<WindowInfo>) -> (r: Option<u32>)
    ensures
        match r {
            Some(id) => exists|i: int|
                0 <= i < windows@.len() && is_otto_window(#[trigger] windows@[i])
                    && windows@[i].id == id && forall|j: int|
                    0 <= j < i ==> !is_otto_window(#[trigger] windows@[j]),
            None => forall|i: int| 0 <= i < windows@.len() ==> !is_otto_window(
                #[trigger] windows@[i],
            ),
        },
{
    let mut i: usize = 0;
    while i < windows.len()
        invariant
            i <= windows@.len(),
            forall|j: int| 0 <= j < i ==> !is_otto_window(#[trigger] windows@[j]),
        decreases windows.len() - i,
    {
        let w = &windows[i];
        let ov = chars_of(w.owner.as_str());
        let nv = chars_of(w.name.as_str());
        if eq_str(&ov, "Otto") || eq_str(&nv, "Otto") {
            return Some(w.id);
        }
        i += 1;
    }
    None
}

} // verus!
