use tunnel_run::enemy::Enemy;
use tunnel_run::gate::Counter;
use tunnel_run::player::{move_down, move_left, move_right, move_up};
use tunnel_run::world::{check_collision, create_enemies, create_fuels, new_world, physics,
    shift_enemies};

#[test]
fn new_world_matches_the_initialization_contract() {
    let world = new_world(40, 20, 'p', '+');
    assert!(!world.died);
    assert!(world.enemies.is_none());
    assert_eq!(world.map.dimension.max_width, 40);
    assert_eq!(world.map.dimension.max_height, 20);
    assert_eq!(world.map.expanded, -1000);
    assert_eq!(world.map.area.len(), 20);
    for row in world.map.area.iter() {
        assert_eq!(*row, (10, 30));
    }
    assert_eq!(world.player.col, 20);
    assert_eq!(world.player.row, 19);
    assert!(world.is_wf());
}

#[test]
fn collision_at_either_wall_and_not_between() {
    let mut world = new_world(40, 20, 'p', '+');
    // The player's row has walls (10, 30).
    world.player.col = 10;
    assert!(check_collision(&world.player, &world.map));
    world.player.col = 30;
    assert!(check_collision(&world.player, &world.map));
    for col in 11..30 {
        world.player.col = col;
        assert!(!check_collision(&world.player, &world.map), "column {} died", col);
    }
}

#[test]
fn physics_sets_died_and_stops_mutating() {
    let mut world = new_world(40, 20, 'p', '+');
    world.player.col = 10;
    let mut counter = Counter::new(20);
    counter.count = 19;
    let world = physics(world, &mut counter);
    assert!(world.died);
    // The short-circuit leaves the counter and the tunnel untouched even though
    // the counter stood one call before firing.
    assert_eq!(counter.count, 19);
    assert_eq!(world.map.expanded, -1000);
    assert_eq!(world.map.area[0], (10, 30));
}

#[test]
fn end_to_end_twenty_quiet_frames() {
    // 40 x 20 screen, every row (10, 30), player at (20, 19), no enemy
    // population: 19 frames change nothing, the 20th makes the counter fire
    // and scrolls in (12, 28) on top.
    let mut world = new_world(40, 20, 'p', '+');
    let mut counter = Counter::new(20);
    for frame in 1..=19 {
        world = physics(world, &mut counter);
        assert!(!world.died, "died at frame {}", frame);
        assert_eq!(counter.count, frame);
        assert_eq!(world.map.expanded, -1000);
        assert_eq!(world.map.area.len(), 20);
        for row in world.map.area.iter() {
            assert_eq!(*row, (10, 30));
        }
    }
    world = physics(world, &mut counter);
    assert!(!world.died);
    assert_eq!(counter.count, 0);
    assert_eq!(world.map.expanded, -990);
    assert_eq!(world.map.area.len(), 20);
    assert_eq!(world.map.area[0], (12, 28));
    for i in 1..20 {
        assert_eq!(world.map.area[i], (10, 30));
    }
    assert!(world.enemies.is_none());
    assert!(world.is_wf());
}

#[test]
fn fired_frame_advances_and_spawns_into_a_population() {
    let mut world = new_world(40, 20, 'p', '+');
    world.enemies = Some(vec![Enemy {
        location: Some((15, 4)),
        moving: false,
        motion_range: None,
        current_direction: Some(1),
    }]);
    let mut counter = Counter::new(20);
    counter.count = 19;
    let world = physics(world, &mut counter);
    assert!(!world.died);
    assert_eq!(counter.count, 0);
    let enemies = world.enemies.as_ref().unwrap();
    // The survivor advanced; at most one spawn may follow it.
    assert!(enemies.len() == 1 || enemies.len() == 2);
    assert_eq!(enemies[0].location, Some((15, 5)));
    if enemies.len() == 2 {
        let (col, row) = enemies[1].location.unwrap();
        assert_eq!(row, 0);
        // The spawn roll used the freshly generated top row (12, 28).
        assert!(col > 12 && col + 2 <= 28);
    }
    assert!(world.is_wf());
}

#[test]
fn shift_enemies_leaves_an_absent_population_absent() {
    let world = new_world(40, 20, 'p', '+');
    let world = shift_enemies(world);
    assert!(world.enemies.is_none());
}

#[test]
fn create_enemies_spawns_inside_their_rows_in_order() {
    let world = new_world(40, 20, 'p', '+');
    for _ in 0..20 {
        let enemies = create_enemies(&world).unwrap();
        assert!(enemies.len() <= 20);
        let mut last_row: i32 = -1;
        for e in enemies.iter() {
            let (col, row) = e.location.unwrap();
            assert!(col > 10 && col + 2 <= 30);
            assert!((row as i32) > last_row, "rows out of order");
            last_row = row as i32;
        }
    }
}

#[test]
fn create_fuels_is_a_no_op() {
    create_fuels();
}

#[test]
fn player_moves_clamp_inside_the_borders() {
    let mut world = new_world(40, 20, 'p', '+');
    let dim = world.map.dimension;

    world.player.row = 1;
    move_up(&mut world.player);
    assert_eq!(world.player.row, 1);
    world.player.row = 2;
    move_up(&mut world.player);
    assert_eq!(world.player.row, 1);

    world.player.row = 19;
    move_down(&mut world.player, &dim);
    assert_eq!(world.player.row, 19);
    world.player.row = 18;
    move_down(&mut world.player, &dim);
    assert_eq!(world.player.row, 19);

    world.player.col = 1;
    move_left(&mut world.player);
    assert_eq!(world.player.col, 1);
    world.player.col = 2;
    move_left(&mut world.player);
    assert_eq!(world.player.col, 1);

    world.player.col = 39;
    move_right(&mut world.player, &dim);
    assert_eq!(world.player.col, 39);
    world.player.col = 38;
    move_right(&mut world.player, &dim);
    assert_eq!(world.player.col, 39);
}

#[test]
fn is_wf_rejects_a_broken_row() {
    let mut world = new_world(40, 20, 'p', '+');
    assert!(world.is_wf());
    world.map.area[3] = (31, 30);
    assert!(!world.is_wf());
}
