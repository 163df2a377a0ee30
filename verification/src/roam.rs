use vstd::prelude::*;

verus! {

/// A free-roaming cursor on a bare rectangular grid, kept beside the tunnel
/// game: here the player may reach every cell of the grid, including the
/// borders, and movement simply clamps at the edges.
pub struct Player {
    pub col: i32,
    pub row: i32,
}

pub struct MapSize {
    pub max_height: i32,
    pub max_width: i32,
}

pub struct World {
    pub player: Player,
    pub map: MapSize,
}

impl World {
    /// The grid has at least one cell and the player stands on it.
    pub open spec fn wf(self) -> bool {
        &&& self.map.max_width >= 1
        &&& self.map.max_height >= 1
        &&& 0 <= self.player.col < self.map.max_width
        &&& 0 <= self.player.row < self.map.max_height
    }
}

/// Moves the cursor one row up, clamped at the top border.
pub fn move_up(world: &mut World)
    requires
        old(world).wf(),
    ensures
        final(world).wf(),
        final(world).map == old(world).map,
        final(world).player.col == old(world).player.col,
        final(world).player.row == (if old(world).player.row > 0 {
            old(world).player.row - 1
        } else {
            old(world).player.row as int
        }),
{
    if world.player.row > 0 {
        world.player.row -= 1;
    }
}

/// Moves the cursor one row down, clamped at the bottom border.
pub fn move_down(world: &mut World)
    requires
        old(world).wf(),
    ensures
        final(world).wf(),
        final(world).map == old(world).map,
        final(world).player.col == old(world).player.col,
        final(world).player.row == (if old(world).player.row < old(world).map.max_height - 1 {
            old(world).player.row + 1
        } else {
            old(world).player.row as int
        }),
{
    if world.player.row < world.map.max_height - 1 {
        world.player.row += 1;
    }
}

/// Moves the cursor one column left, clamped at the left border.
pub fn move_left(world: &mut World)
    requires
        old(world).wf(),
    ensures
        final(world).wf(),
        final(world).map == old(world).map,
        final(world).player.row == old(world).player.row,
        final(world).player.col == (if old(world).player.col > 0 {
            old(world).player.col - 1
        } else {
            old(world).player.col as int
        }),
{
    if world.player.col > 0 {
        world.player.col -= 1;
    }
}

/// Moves the cursor one column right, clamped at the right border.
pub fn move_right(world: &mut World)
    requires
        old(world).wf(),
    ensures
        final(world).wf(),
        final(world).map == old(world).map,
        final(world).player.row == old(world).player.row,
        final(world).player.col == (if old(world).player.col < old(world).map.max_width - 1 {
            old(world).player.col + 1
        } else {
            old(world).player.col as int
        }),
{
    if world.player.col < world.map.max_width - 1 {
        world.player.col += 1;
    }
}

} // verus!
