use vstd::prelude::*;
use crate::enemy::{
    advance_enemies, advanced_population, enemy_is_wf, enemy_wf, get_random_enemy,
    lemma_advanced_population_wf, row_of, Enemy,
};
use crate::gate::{increment_counter, Counter};
use crate::player::Player;
use crate::tunnel::{
    lemma_expansion_stays_wrapped, map_shifted, next_expansion, row_wf, shifted_rows, MapSize,
    Tunnel,
};

verus! {

/// The whole simulation state of one run: the player, the scrolling tunnel,
/// the enemy population (absent before the first population), and the
/// terminal `died` flag that ends the run.
pub struct World {
    pub player: Player,
    pub map: Tunnel,
    pub died: bool,
    pub enemies: Option<Vec<Enemy>>,
}

impl World {
    pub open spec fn wf(self) -> bool {
        &&& self.map.wf()
        &&& self.player.wf(self.map.dimension)
        &&& (self.enemies matches Some(es) ==> forall|i: int|
            0 <= i < es@.len() ==> enemy_wf(#[trigger] es@[i]))
    }

    /// Decides `wf` in executable code, so that unverified callers can test
    /// it before handing the world to the simulation.
    pub fn is_wf(&self) -> (r: bool)
        ensures
            r == self.wf(),
    {
        if !(self.map.dimension.max_width >= 32 && self.map.dimension.max_height >= 2) {
            return false;
        }
        if self.map.area.len() != self.map.dimension.max_height as usize {
            return false;
        }
        if !(-1000 <= self.map.expanded && self.map.expanded <= 1000) {
            return false;
        }
        let mut i: usize = 0;
        while i < self.map.area.len()
            invariant
                i <= self.map.area@.len(),
                forall|j: int| 0 <= j < i ==> row_wf(#[trigger] self.map.area@[j],
                    self.map.dimension),
            decreases self.map.area@.len() - i,
        {
            let row = self.map.area[i];
            if !(row.0 <= row.1 && row.1 <= self.map.dimension.max_width) {
                proof {
                    assert(!row_wf(self.map.area@[i as int], self.map.dimension));
                    assert(!self.map.wf());
                }
                return false;
            }
            i += 1;
        }
        if !(1 <= self.player.col && self.player.col < self.map.dimension.max_width
            && 1 <= self.player.row && self.player.row < self.map.dimension.max_height) {
            return false;
        }
        match &self.enemies {
            None => true,
            Some(es) => {
                let mut k: usize = 0;
                while k < es.len()
                    invariant
                        self.enemies == Some(*es),
                        k <= es@.len(),
                        forall|j: int| 0 <= j < k ==> enemy_wf(#[trigger] es@[j]),
                    decreases es@.len() - k,
                {
                    let e = es[k];
                    if !enemy_is_wf(&e) {
                        proof {
                            assert(self.enemies == Some(*es));
                            assert(!enemy_wf(es@[k as int]));
                            assert(self.enemies matches Some(v) ==> v == *es);
                            assert(!self.wf());
                        }
                        return false;
                    }
                    k += 1;
                }
                true
            },
        }
    }
}

/// Whether the player touches a wall of its row: at or left of the left
/// wall, or at or right of the right wall. Strictly between the walls is
/// safe.
pub open spec fn player_collided(p: Player, t: Tunnel) -> bool {
    p.col <= t.area@[p.row as int].0 || p.col >= t.area@[p.row as int].1
}

/// Compares the player's column against the wall bounds of the player's row;
/// runs every frame, not gated by the tick counter.
pub fn check_collision(player: &Player, map: &Tunnel) -> (died: bool)
    requires
        (player.row as int) < map.area@.len(),
    ensures
        died == player_collided(*player, *map),
{
    let row = map.area[player.row as usize];
    player.col <= row.0 || player.col >= row.1
}

/// One mutation of the tunnel: the expansion scalar advances (with
/// wraparound), and a fresh row — centered, with the margin chosen by the
/// advanced scalar's sign — scrolls in at the top while every other row
/// moves one line down.
pub fn shift_map(world: World) -> (r: World)
    requires
        world.wf(),
    ensures
        r.wf(),
        r.player == world.player,
        r.died == world.died,
        r.enemies == world.enemies,
        map_shifted(world.map, r.map),
{
    let ghost w0 = world;
    let mut world = world;
    world.map.expanded += 10;
    if world.map.expanded > 1000 {
        world.map.expanded = -1000 + (world.map.expanded - 1000) % 2010;
    }
    proof {
        assert(world.map.expanded as int == next_expansion(w0.map.expanded as int));
        lemma_expansion_stays_wrapped(w0.map.expanded as int);
    }
    let margin: u16 = if world.map.expanded >= 0 {
        16
    } else {
        8
    };
    let center: u16 = world.map.dimension.max_width / 2;
    let new_row = (center - margin, center + margin);
    let ghost orig = world.map.area@;
    let ghost pre = world;
    let len = world.map.area.len();
    let mut l: usize = len - 1;
    while l >= 1
        invariant
            world.map.dimension == pre.map.dimension,
            world.map.expanded == pre.map.expanded,
            world.map.glyph == pre.map.glyph,
            world.player == pre.player,
            world.died == pre.died,
            world.enemies == pre.enemies,
            world.map.area@.len() == orig.len(),
            len == orig.len(),
            2 <= len,
            l <= len - 1,
            forall|i: int| l < i < len ==> world.map.area@[i] == orig[i - 1],
            forall|i: int| 0 <= i <= l ==> world.map.area@[i] == orig[i],
        decreases l,
    {
        let row = world.map.area[l - 1];
        world.map.area[l] = row;
        l -= 1;
    }
    world.map.area[0] = new_row;
    proof {
        assert(world.map.area@ =~= shifted_rows(orig, new_row));
        assert forall|i: int| 0 <= i < world.map.area@.len() implies row_wf(
            #[trigger] world.map.area@[i],
            world.map.dimension,
        ) by {
            if i > 0 {
                assert(world.map.area@[i] == orig[i - 1]);
            }
        }
    }
    world
}

/// Where a spawned enemy may stand: well-formed, strictly inside the walls
/// of the row it was rolled for (with two columns of clearance on the
/// right), on a row wide enough to spawn at all.
pub open spec fn spawned_in_row(e: Enemy, t: Tunnel) -> bool {
    &&& enemy_wf(e)
    &&& (e.location matches Some(loc) && loc.1 < t.area@.len() && t.area@[loc.1 as int].0 < loc.0
        && loc.0 + 2 <= t.area@[loc.1 as int].1)
    &&& (e.location matches Some(loc) ==> t.area@[loc.1 as int].0 + 4 <= t.area@[loc.1 as int].1)
}

/// How one mutation tick transforms the enemy population, against the
/// already shifted tunnel `t`: an absent population stays absent; otherwise
/// the new population is the advanced survivors in order, possibly followed
/// by one spawn at the top row.
pub open spec fn population_shifted(
    before: Option<Vec<Enemy>>,
    after: Option<Vec<Enemy>>,
    t: Tunnel,
) -> bool {
    match before {
        None => after is None,
        Some(es) => after matches Some(es2) && {
            let adv = advanced_population(es@, t);
            ||| es2@ == adv
            ||| (es2@.len() == adv.len() + 1 && es2@.drop_last() == adv && spawned_in_row(
                es2@.last(),
                t,
            ) && row_of(es2@.last()) == 0)
        },
    }
}

/// One mutation of the enemy population: survivors advance one row (culled
/// at the bottom boundary), and one spawn roll runs against the current top
/// row's wall bounds.
pub fn shift_enemies(world: World) -> (r: World)
    requires
        world.wf(),
    ensures
        r.wf(),
        r.player == world.player,
        r.map == world.map,
        r.died == world.died,
        population_shifted(world.enemies, r.enemies, world.map),
{
    let World { player, map, died, enemies } = world;
    match enemies {
        None => World { player, map, died, enemies: None },
        Some(es) => {
            let top = map.area[0];
            let spawn = get_random_enemy(top.0, top.1, 0);
            let ghost es0 = es@;
            let new_enemies = advance_enemies(es, &map, spawn);
            proof {
                lemma_advanced_population_wf(es0, map);
                let adv = advanced_population(es0, map);
                match spawn {
                    Some(s) => {
                        assert(new_enemies@.drop_last() =~= adv);
                        assert(new_enemies@.last() == s);
                    },
                    None => {
                        assert(new_enemies@ =~= adv);
                    },
                }
            }
            World { player, map, died, enemies: Some(new_enemies) }
        },
    }
}

/// One frame of simulation: the collision check against the current tunnel
/// runs first and ends the frame when the player has died; otherwise the
/// tick gate counts the frame and, when it fires, the tunnel and then the
/// enemy population mutate, the spawn roll using the freshly generated top
/// row.
pub fn physics(world: World, counter: &mut Counter) -> (r: World)
    requires
        world.wf(),
        old(counter).wf(),
    ensures
        r.wf(),
        final(counter).wf(),
        final(counter).threshold == old(counter).threshold,
        r.player == world.player,
        r.died == (world.died || player_collided(world.player, world.map)),
        r.died ==> r.map == world.map && r.enemies == world.enemies && *final(counter) == *old(
            counter,
        ),
        !r.died ==> {
            let fired = old(counter).count + 1 == old(counter).threshold;
            &&& final(counter).count == (if fired {
                0int
            } else {
                old(counter).count + 1
            })
            &&& (!fired ==> r.map == world.map && r.enemies == world.enemies)
            &&& (fired ==> map_shifted(world.map, r.map) && population_shifted(
                world.enemies,
                r.enemies,
                r.map,
            ))
        },
{
    let mut world = world;
    if check_collision(&world.player, &world.map) {
        world.died = true;
    }
    if world.died {
        return world;
    }
    let is_shift_round = increment_counter(counter);
    if is_shift_round {
        world = shift_map(world);
        world = shift_enemies(world);
    }
    world
}

/// One spawn roll against every row of the tunnel, top to bottom: the
/// initial population of a run, not gated by the tick counter. Every
/// spawned enemy stands strictly inside the walls of the row it was rolled
/// for, and the spawns keep the rows' order.
pub fn create_enemies(world: &World) -> (r: Option<Vec<Enemy>>)
    requires
        world.wf(),
    ensures
        r matches Some(es) && es@.len() <= world.map.area@.len() && (forall|i: int|
            0 <= i < es@.len() ==> spawned_in_row(#[trigger] es@[i], world.map)) && (forall|
            i: int,
            j: int,
        |
            0 <= i < j < es@.len() ==> row_of(es@[i]) < row_of(es@[j])),
{
    let mut enemies: Vec<Enemy> = Vec::new();
    let mut l: usize = 0;
    while l < world.map.area.len()
        invariant
            world.wf(),
            l <= world.map.area@.len(),
            enemies@.len() <= l,
            forall|i: int| 0 <= i < enemies@.len() ==> spawned_in_row(
                #[trigger] enemies@[i],
                world.map,
            ),
            forall|i: int| 0 <= i < enemies@.len() ==> row_of(#[trigger] enemies@[i]) < l,
            forall|i: int, j: int|
                0 <= i < j < enemies@.len() ==> row_of(enemies@[i]) < row_of(enemies@[j]),
        decreases world.map.area@.len() - l,
    {
        let row = world.map.area[l];
        let enemy = get_random_enemy(row.0, row.1, l as u16);
        match enemy {
            Some(e) => enemies.push(e),
            None => {},
        }
        l += 1;
    }
    Some(enemies)
}

/// Creates the fuel pickups of a run. The game defines none, so there is
/// nothing to create; the function is the (empty) counterpart of
/// `create_enemies` in the run's setup.
pub fn create_fuels() {
}

/// The starting state of a run on a `max_width` by `max_height` screen: a
/// centered tunnel of uniform width 20 on every row, the expansion scalar at
/// its lowest wrapped value, the player centered on the bottom playable row,
/// no enemy population yet, and the run not ended.
pub fn new_world(max_width: u16, max_height: u16, player_glyph: char, wall_glyph: char) -> (r:
    World)
    requires
        max_width >= 32,
        max_height >= 2,
    ensures
        r.wf(),
        !r.died,
        r.enemies is None,
        r.map.dimension == (MapSize { max_width, max_height }),
        r.map.expanded == -1000i16,
        r.map.glyph == wall_glyph,
        r.map.area@.len() == max_height,
        forall|i: int| 0 <= i < max_height ==> #[trigger] r.map.area@[i] == (
            (max_width as int / 2 - 10) as u16,
            (max_width as int / 2 + 10) as u16,
        ),
        r.player.col == max_width as int / 2,
        r.player.row == max_height - 1,
        r.player.glyph == player_glyph,
{
    let center = max_width / 2;
    let row = (center - 10, center + 10);
    let mut area: Vec<(u16, u16)> = Vec::new();
    let mut i: usize = 0;
    while i < max_height as usize
        invariant
            i <= max_height,
            area@.len() == i,
            row == ((max_width as int / 2 - 10) as u16, (max_width as int / 2 + 10) as u16),
            forall|j: int| 0 <= j < i ==> #[trigger] area@[j] == row,
        decreases max_height - i,
    {
        area.push(row);
        i += 1;
    }
    let player = Player { col: center, row: max_height - 1, glyph: player_glyph };
    let map = Tunnel {
        dimension: MapSize { max_width, max_height },
        area,
        glyph: wall_glyph,
        expanded: -1000,
    };
    World { player, map, died: false, enemies: None }
}

} // verus!
