use vstd::prelude::*;
use crate::tunnel::MapSize;

verus! {

/// The player-controlled glyph. Collision always compares `col` against the
/// wall bounds of the tunnel row at index `row`.
#[derive(Clone, Copy)]
pub struct Player {
    pub col: u16,
    pub row: u16,
    pub glyph: char,
}

impl Player {
    /// The player keeps one cell away from the outer screen border on every
    /// side, so it always addresses a valid tunnel row.
    pub open spec fn wf(self, dim: MapSize) -> bool {
        1 <= self.col < dim.max_width && 1 <= self.row < dim.max_height
    }
}

/// Moves the player one row up, clamped so the row never goes below 1.
pub fn move_up(player: &mut Player)
    ensures
        final(player).col == old(player).col,
        final(player).glyph == old(player).glyph,
        final(player).row == (if old(player).row > 1 {
            old(player).row - 1
        } else {
            old(player).row as int
        }),
{
    if player.row > 1 {
        player.row -= 1;
    }
}

/// Moves the player one row down, clamped to stay above the bottom border.
pub fn move_down(player: &mut Player, size: &MapSize)
    requires
        size.max_height >= 1,
    ensures
        final(player).col == old(player).col,
        final(player).glyph == old(player).glyph,
        final(player).row == (if old(player).row < size.max_height - 1 {
            old(player).row + 1
        } else {
            old(player).row as int
        }),
{
    if player.row < size.max_height - 1 {
        player.row += 1;
    }
}

/// Moves the player one column left, clamped so the column never goes
/// below 1.
pub fn move_left(player: &mut Player)
    ensures
        final(player).row == old(player).row,
        final(player).glyph == old(player).glyph,
        final(player).col == (if old(player).col > 1 {
            old(player).col - 1
        } else {
            old(player).col as int
        }),
{
    if player.col > 1 {
        player.col -= 1;
    }
}

/// Moves the player one column right, clamped to stay left of the right
/// border.
pub fn move_right(player: &mut Player, size: &MapSize)
    requires
        size.max_width >= 1,
    ensures
        final(player).row == old(player).row,
        final(player).glyph == old(player).glyph,
        final(player).col == (if old(player).col < size.max_width - 1 {
            old(player).col + 1
        } else {
            old(player).col as int
        }),
{
    if player.col < size.max_width - 1 {
        player.col += 1;
    }
}

} // verus!
