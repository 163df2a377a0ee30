use tunnel_run::roam::{move_down, move_left, move_right, move_up, MapSize, Player, World};

fn corner_world() -> World {
    World {
        player: Player { col: 0, row: 0 },
        map: MapSize { max_height: 100, max_width: 100 },
    }
}

#[test]
fn roam_moves_from_the_corner() {
    let mut world = corner_world();

    move_up(&mut world);
    assert_eq!((world.player.col, world.player.row), (0, 0));

    move_down(&mut world);
    assert_eq!((world.player.col, world.player.row), (0, 1));

    move_left(&mut world);
    assert_eq!((world.player.col, world.player.row), (0, 1));

    move_right(&mut world);
    assert_eq!((world.player.col, world.player.row), (1, 1));
}

#[test]
fn roam_clamps_at_the_far_borders() {
    let mut world = corner_world();
    world.player.col = 99;
    world.player.row = 99;

    move_down(&mut world);
    assert_eq!(world.player.row, 99);
    move_right(&mut world);
    assert_eq!(world.player.col, 99);

    move_up(&mut world);
    assert_eq!(world.player.row, 98);
    move_left(&mut world);
    assert_eq!(world.player.col, 98);
}
