use vstd::prelude::*;
use crate::louse::LouseType;

verus! {

/// Distance from the left edge of the screen to the first icon, and between
/// icons, in pixels.
pub const ICON_MARGIN: u64 = 30;
pub const ICON_SPACING: u64 = 30;

/// An icon in the row that shows the lice left to fling.
#[derive(Clone, Copy, Debug, PartialEq, Eq, Structural)]
pub struct LouseUI {
    pub louse_type: LouseType,
    /// Distance from the left edge of the screen, in pixels.
    pub left: u128,
}

/// The icon in place `i` of the row for `queue`: the next louse to fling
/// comes first.
pub open spec fn icon_at(queue: Seq<LouseType>, i: int) -> LouseUI {
    LouseUI { louse_type: queue[queue.len() - 1 - i], left: (ICON_MARGIN + i * ICON_SPACING) as u128 }
}

/// Lays out the row of icons for the lice left in `queue`.
pub fn game_ui_system(queue: &Vec<LouseType>) -> (icons: Vec<LouseUI>)
    ensures
        icons@.len() == queue@.len(),
        forall|i: int| 0 <= i < icons@.len() ==> #[trigger] icons@[i] == icon_at(queue@, i),
{
    let n = queue.len();
    let mut icons: Vec<LouseUI> = Vec::new();
    let mut i: usize = 0;
    while i < n
        invariant
            n == queue@.len(),
            0 <= i <= n,
            icons@.len() == i,
            forall|k: int| 0 <= k < i ==> #[trigger] icons@[k] == icon_at(queue@, k),
        decreases n - i,
    {
        let left: u128 = ICON_MARGIN as u128 + i as u128 * ICON_SPACING as u128;
        icons.push(LouseUI { louse_type: queue[n - 1 - i], left });
        i = i + 1;
    }
    icons
}

} // verus!
