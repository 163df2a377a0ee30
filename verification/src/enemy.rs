use vstd::prelude::*;
use crate::tunnel::{MapSize, Tunnel, margin_of};
use crate::rng::rand_in_range;

verus! {

/// A transient obstacle. It is created at the top row by a spawn roll,
/// advances one row per mutation tick, and is culled before it can reach the
/// bottom boundary row. `motion_range` and `current_direction` describe a
/// declared horizontal sway that the advance does not apply to the column.
#[derive(Clone, Copy)]
pub struct Enemy {
    pub location: Option<(u16, u16)>,
    pub moving: bool,
    pub motion_range: Option<(u16, u16)>,
    pub current_direction: Option<i8>,
}

/// A live enemy has a position, a unit direction, and a motion range exactly
/// when it is moving; a motion range has both draws at most 2 and at least
/// one of them positive.
pub open spec fn enemy_wf(e: Enemy) -> bool {
    &&& e.location is Some
    &&& (e.current_direction matches Some(d) && (d == 1 || d == -1))
    &&& (e.moving <==> e.motion_range is Some)
    &&& (e.motion_range matches Some(r) ==> r.0 <= 2 && r.1 <= 2 && (r.0 > 0 || r.1 > 0))
}

/// The row an enemy stands on, or -1 when it has no position.
pub open spec fn row_of(e: Enemy) -> int {
    match e.location {
        Some(loc) => loc.1 as int,
        None => -1,
    }
}

/// Whether an advancing enemy stays in the population: it is culled once its
/// next row would reach (or pass) the bottom boundary row.
pub open spec fn survives(e: Enemy, dim: MapSize) -> bool {
    e.location matches Some(loc) && loc.1 + 2 < dim.max_height
}

/// The direction-flip test at an advanced position: at or beyond the inner
/// edges of the horizontal containment band, or at the screen's vertical
/// boundaries.
pub open spec fn flips_direction(next_col: int, next_row: int, t: Tunnel) -> bool {
    let center = t.dimension.center();
    let margin = margin_of(t.expanded as int);
    ||| next_col <= center - margin + 1
    ||| next_col >= center + margin - 2
    ||| next_row <= 0
    ||| next_row >= t.dimension.max_height - 1
}

pub open spec fn flipped_direction(d: Option<i8>) -> Option<i8> {
    match d {
        Some(v) => Some((-v) as i8),
        None => None,
    }
}

/// An enemy one mutation tick later: one row further down, column unchanged,
/// and — for an enemy with a motion range — the direction negated when the
/// flip test holds at the new position.
pub open spec fn advanced_enemy(e: Enemy, t: Tunnel) -> Enemy {
    match e.location {
        Some(loc) => Enemy {
            location: Some((loc.0, (loc.1 + 1) as u16)),
            moving: e.moving,
            motion_range: e.motion_range,
            current_direction: if e.motion_range is Some && flips_direction(
                loc.0 as int,
                loc.1 + 1,
                t,
            ) {
                flipped_direction(e.current_direction)
            } else {
                e.current_direction
            },
        },
        None => e,
    }
}

/// The survivors of one mutation tick, advanced, in their former order.
pub open spec fn advanced_population(s: Seq<Enemy>, t: Tunnel) -> Seq<Enemy>
    decreases s.len(),
{
    if s.len() == 0 {
        Seq::empty()
    } else if survives(s.last(), t.dimension) {
        advanced_population(s.drop_last(), t).push(advanced_enemy(s.last(), t))
    } else {
        advanced_population(s.drop_last(), t)
    }
}

/// Law: an enemy two rows above the bottom boundary is culled by the advance
/// that would put it on the boundary row, while an enemy one row higher
/// survives and lands exactly one row above the boundary.
pub proof fn lemma_enemy_culling(e: Enemy, t: Tunnel, col: u16, row: u16)
    requires
        e.location == Some((col, row)),
    ensures
        row + 2 == t.dimension.max_height ==> !survives(e, t.dimension),
        row + 3 == t.dimension.max_height ==> survives(e, t.dimension),
        row + 3 == t.dimension.max_height ==> advanced_enemy(e, t).location == Some(
            (col, (row + 1) as u16),
        ),
{
}

/// The advance of a well-formed enemy is well-formed: negation keeps the
/// direction a unit, and the other fields carry their invariants over.
pub proof fn lemma_advanced_enemy_wf(e: Enemy, t: Tunnel)
    requires
        enemy_wf(e),
    ensures
        enemy_wf(advanced_enemy(e, t)),
{
}

pub proof fn lemma_advanced_population_wf(s: Seq<Enemy>, t: Tunnel)
    requires
        forall|i: int| 0 <= i < s.len() ==> enemy_wf(#[trigger] s[i]),
    ensures
        forall|i: int|
            0 <= i < advanced_population(s, t).len() ==> enemy_wf(
                #[trigger] advanced_population(s, t)[i],
            ),
    decreases s.len(),
{
    if s.len() > 0 {
        assert forall|i: int| 0 <= i < s.drop_last().len() implies enemy_wf(
            #[trigger] s.drop_last()[i],
        ) by {
            assert(s.drop_last()[i] == s[i]);
        }
        lemma_advanced_population_wf(s.drop_last(), t);
        lemma_advanced_enemy_wf(s.last(), t);
        let rest = advanced_population(s.drop_last(), t);
        let whole = advanced_population(s, t);
        if survives(s.last(), t.dimension) {
            assert(whole == rest.push(advanced_enemy(s.last(), t)));
            assert forall|i: int| 0 <= i < whole.len() implies enemy_wf(whole[i]) by {
                if i < rest.len() {
                    assert(whole[i] == rest[i]);
                } else {
                    assert(whole[i] == advanced_enemy(s.last(), t));
                }
            }
        }
    }
}

/// Decides `enemy_wf` in executable code, for callers that cannot prove it.
pub fn enemy_is_wf(e: &Enemy) -> (r: bool)
    ensures
        r == enemy_wf(*e),
{
    let loc_ok = match e.location {
        Some(_) => true,
        None => false,
    };
    let dir_ok = match e.current_direction {
        Some(d) => d == 1 || d == -1,
        None => false,
    };
    let motion_ok = match e.motion_range {
        Some(r) => e.moving && r.0 <= 2 && r.1 <= 2 && (r.0 > 0 || r.1 > 0),
        None => !e.moving,
    };
    loc_ok && dir_ok && motion_ok
}

/// The spawn decision as a function of the drawn rolls: `chance` decides both
/// whether a spawn happens and whether the enemy is moving, `col` is the
/// drawn column, `range_a` and `range_b` the drawn motion range.
pub open spec fn spawn_outcome(
    start_c: u16,
    end_c: u16,
    line: u16,
    chance: u16,
    col: u16,
    range_a: u16,
    range_b: u16,
) -> Option<Enemy> {
    if chance < 10 && start_c + 4 <= end_c {
        Some(
            Enemy {
                location: Some((col, line)),
                moving: chance < 5,
                motion_range: if chance < 5 {
                    Some((range_a, if range_a == 0 { range_b } else { 0u16 }))
                } else {
                    None
                },
                current_direction: Some(1i8),
            },
        )
    } else {
        None
    }
}

/// Builds the spawn decision with every roll given as an argument: one enemy
/// at column `col` of row `line` for a `chance` below 10, moving (with the
/// drawn motion range) for a `chance` below 5 — and never an enemy on a
/// degenerate row of width below 4, whatever the rolls.
pub fn spawn_from_rolls(
    start_c: u16,
    end_c: u16,
    line: u16,
    chance: u16,
    col: u16,
    range_a: u16,
    range_b: u16,
) -> (r: Option<Enemy>)
    ensures
        r == spawn_outcome(start_c, end_c, line, chance, col, range_a, range_b),
        end_c - start_c < 4 ==> r is None,
{
    if chance < 10 && end_c >= 4 && start_c <= end_c - 4 {
        let moving = chance < 5;
        let motion_range = if moving {
            if range_a == 0 {
                Some((range_a, range_b))
            } else {
                Some((range_a, 0u16))
            }
        } else {
            None
        };
        Some(Enemy { location: Some((col, line)), moving, motion_range, current_direction: Some(1) })
    } else {
        None
    }
}

/// Rolls one spawn attempt against the wall bounds `(start_c, end_c)` of row
/// `line`: a 10-in-100 chance of an enemy at a uniform column strictly inside
/// the walls, moving for half of those chances, with its motion range drawn
/// so that at least one component is positive. A degenerate row (width below
/// 4) never spawns.
pub fn get_random_enemy(start_c: u16, end_c: u16, line: u16) -> (r: Option<Enemy>)
    ensures
        end_c - start_c < 4 ==> r is None,
        r matches Some(e) ==> enemy_wf(e) && start_c + 4 <= end_c && (e.location matches Some(loc)
            && loc.1 == line && start_c < loc.0 && loc.0 + 2 <= end_c) && e.current_direction
            == Some(1i8),
{
    let chance = rand_in_range(0, 99);
    if chance < 10 && end_c >= 4 && start_c <= end_c - 4 {
        let col = rand_in_range(start_c + 1, end_c - 2);
        let range_a = rand_in_range(0, 2);
        let range_b = if range_a == 0 {
            rand_in_range(1, 2)
        } else {
            0
        };
        spawn_from_rolls(start_c, end_c, line, chance, col, range_a, range_b)
    } else {
        None
    }
}

/// Advances one enemy population through one mutation tick: survivors move
/// one row down (direction flipped where the flip test holds), culled
/// enemies are dropped, and the given spawn — if any — is appended last.
pub fn advance_enemies(enemies: Vec<Enemy>, t: &Tunnel, spawn: Option<Enemy>) -> (r: Vec<Enemy>)
    requires
        t.wf(),
        forall|i: int| 0 <= i < enemies@.len() ==> enemy_wf(#[trigger] enemies@[i]),
    ensures
        r@ == advanced_population(enemies@, *t) + (match spawn {
            Some(e) => seq![e],
            None => Seq::<Enemy>::empty(),
        }),
{
    let mut new_enemies: Vec<Enemy> = Vec::new();
    let mut idx: usize = 0;
    while idx < enemies.len()
        invariant
            idx <= enemies@.len(),
            t.wf(),
            forall|i: int| 0 <= i < enemies@.len() ==> enemy_wf(#[trigger] enemies@[i]),
            new_enemies@ == advanced_population(enemies@.subrange(0, idx as int), *t),
        decreases enemies@.len() - idx,
    {
        let e = enemies[idx];
        proof {
            assert(enemies@.subrange(0, idx + 1).drop_last() =~= enemies@.subrange(0, idx as int));
            assert(enemies@.subrange(0, idx + 1).last() == enemies@[idx as int]);
        }
        match e.location {
            None => {},
            Some((c, row)) => {
                if row < t.dimension.max_height - 2 {
                    let next_col = c;
                    let next_row = row + 1;
                    let mut moved = e;
                    moved.location = Some((next_col, next_row));
                    match e.motion_range {
                        Some(_) => {
                            let margin: u16 = if t.expanded >= 0 {
                                16
                            } else {
                                8
                            };
                            let band_start = t.dimension.max_width / 2 - margin;
                            let band_end = t.dimension.max_width / 2 + margin;
                            if next_col <= band_start + 1 || next_col >= band_end - 2 || next_row
                                <= 0 || next_row >= t.dimension.max_height - 1 {
                                moved.current_direction = match e.current_direction {
                                    Some(d) => Some(-d),
                                    None => None,
                                };
                            }
                        },
                        None => {},
                    }
                    proof {
                        assert(moved == advanced_enemy(e, *t));
                    }
                    new_enemies.push(moved);
                } else {
                    proof {
                        assert(!survives(e, t.dimension));
                    }
                }
            },
        }
        idx += 1;
    }
    proof {
        assert(enemies@.subrange(0, enemies@.len() as int) =~= enemies@);
    }
    match spawn {
        Some(s) => {
            new_enemies.push(s);
            proof {
                assert(new_enemies@ =~= advanced_population(enemies@, *t) + seq![s]);
            }
        },
        None => {
            proof {
                assert(new_enemies@ =~= advanced_population(enemies@, *t)
                    + Seq::<Enemy>::empty());
            }
        },
    }
    new_enemies
}

} // verus!
