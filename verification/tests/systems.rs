use magnet::bounds::{Vector2, ViewportBounds};
use magnet::camera::{move_free_camera, CameraKeys, CameraPush};
use magnet::components::player::Player;
use magnet::systems::camera_system::{fit_inside_current_level, LevelFit};
use magnet::systems::hex_map::{HexGrid, PlaneCell, PlaneColor, PLANE_SIZE};
use magnet::systems::player_system::{movement, MovementKeys, Steering};

fn point(x: i64, y: i64) -> Vector2 {
    Vector2 { x, y }
}

fn level(selected: bool, half: Vector2, size: Vector2) -> LevelFit {
    LevelFit { selected, bounds: ViewportBounds::new(half, size) }
}

#[test]
fn player_marker_is_a_plain_value() {
    assert_eq!(Player, Player::default());
}

#[test]
fn movement_without_the_forward_key_stands_still() {
    for clockwise in [false, true] {
        for counterclockwise in [false, true] {
            let keys = MovementKeys { forward: false, clockwise, counterclockwise };
            assert_eq!(movement(keys), Steering { forward: 0, rotation: 0 });
        }
    }
}

#[test]
fn movement_with_the_forward_key_moves_and_turns() {
    let keys =
        |clockwise, counterclockwise| MovementKeys { forward: true, clockwise, counterclockwise };
    assert_eq!(movement(keys(false, false)), Steering { forward: -1, rotation: 0 });
    assert_eq!(movement(keys(true, false)), Steering { forward: -1, rotation: -1 });
    assert_eq!(movement(keys(false, true)), Steering { forward: -1, rotation: 1 });
    assert_eq!(movement(keys(true, true)), Steering { forward: -1, rotation: 0 });
}

#[test]
fn free_camera_without_keys_is_not_pushed() {
    assert_eq!(move_free_camera(CameraKeys::default()), CameraPush { horizontal: 0, vertical: 0 });
}

#[test]
fn free_camera_follows_single_keys() {
    let none = CameraKeys::default();
    assert_eq!(
        move_free_camera(CameraKeys { forward: true, ..none }),
        CameraPush { horizontal: 0, vertical: -1 }
    );
    assert_eq!(
        move_free_camera(CameraKeys { backward: true, ..none }),
        CameraPush { horizontal: 0, vertical: 1 }
    );
    assert_eq!(
        move_free_camera(CameraKeys { right: true, ..none }),
        CameraPush { horizontal: 1, vertical: 0 }
    );
    assert_eq!(
        move_free_camera(CameraKeys { left: true, ..none }),
        CameraPush { horizontal: -1, vertical: 0 }
    );
}

#[test]
fn free_camera_backward_overrides_forward_and_left_overrides_right() {
    let all = CameraKeys { forward: true, backward: true, right: true, left: true };
    assert_eq!(move_free_camera(all), CameraPush { horizontal: -1, vertical: 1 });
    assert_eq!(
        move_free_camera(CameraKeys { left: false, ..all }),
        CameraPush { horizontal: 1, vertical: 1 }
    );
    assert_eq!(
        move_free_camera(CameraKeys { backward: false, ..all }),
        CameraPush { horizontal: -1, vertical: -1 }
    );
}

#[test]
fn plane_grid_starts_without_planes() {
    let grid = HexGrid::new(4, 3);
    assert_eq!((grid.width, grid.height), (4, 3));
    assert!(grid.cells.is_empty());
    let grid = HexGrid::default();
    assert_eq!((grid.width, grid.height), (0, 0));
    assert!(grid.cells.is_empty());
}

#[test]
fn plane_grid_generates_its_planes_row_by_row() {
    let mut grid = HexGrid::new(3, 2);
    grid.generate();
    let plane = |x, z, color| PlaneCell { x, z, size: 10, color };
    assert_eq!(
        grid.cells,
        vec![
            plane(0, 0, PlaneColor::OrangeRed),
            plane(10, 0, PlaneColor::Orange),
            plane(20, 0, PlaneColor::AliceBlue),
            plane(0, 10, PlaneColor::AliceBlue),
            plane(10, 10, PlaneColor::Orange),
            plane(20, 10, PlaneColor::AliceBlue),
        ]
    );
    assert_eq!((grid.width, grid.height), (3, 2));
}

#[test]
fn plane_grid_generates_again_after_the_planes_it_has() {
    let mut grid = HexGrid::new(2, 1);
    grid.generate();
    let once = grid.cells.clone();
    grid.generate();
    assert_eq!(grid.cells.len(), 4);
    assert_eq!(grid.cells[..2], once[..]);
    assert_eq!(grid.cells[2..], once[..]);
}

#[test]
fn plane_grid_of_the_largest_size_places_its_last_plane() {
    let mut grid = HexGrid::new(255, 255);
    grid.generate();
    assert_eq!(grid.cells.len(), 65025);
    assert_eq!(
        grid.cells[65024],
        PlaneCell {
            x: 254 * PLANE_SIZE,
            z: 254 * PLANE_SIZE,
            size: PLANE_SIZE,
            color: PlaneColor::AliceBlue,
        }
    );
}

#[test]
fn plane_grid_without_columns_or_rows_generates_nothing() {
    for (width, height) in [(0, 0), (0, 9), (9, 0)] {
        let mut grid = HexGrid::new(width, height);
        grid.generate();
        assert!(grid.cells.is_empty());
    }
}

#[test]
fn camera_is_left_alone_without_a_player() {
    let levels = vec![level(true, point(10, 10), point(100, 100))];
    assert_eq!(fit_inside_current_level(None, &levels), None);
    assert_eq!(fit_inside_current_level(None, &Vec::new()), None);
}

#[test]
fn camera_is_left_alone_without_a_selected_level() {
    let levels = vec![
        level(false, point(10, 10), point(100, 100)),
        level(false, point(10, 10), point(200, 200)),
    ];
    assert_eq!(fit_inside_current_level(Some(point(500, 500)), &levels), None);
    assert_eq!(fit_inside_current_level(Some(point(500, 500)), &Vec::new()), None);
}

#[test]
fn camera_follows_the_player_inside_the_selected_level() {
    let levels = vec![
        level(false, point(10, 10), point(40, 40)),
        level(true, point(10, 20), point(100, 80)),
        level(false, point(10, 10), point(40, 40)),
    ];
    assert_eq!(fit_inside_current_level(Some(point(50, 40)), &levels), Some(point(50, 40)));
    assert_eq!(fit_inside_current_level(Some(point(5, 75)), &levels), Some(point(10, 60)));
}

#[test]
fn camera_goes_by_the_last_selected_level() {
    let levels = vec![
        level(true, point(10, 10), point(40, 40)),
        level(true, point(10, 10), point(100, 100)),
        level(false, point(10, 10), point(1000, 1000)),
    ];
    assert_eq!(fit_inside_current_level(Some(point(500, 500)), &levels), Some(point(90, 90)));
}

#[test]
fn camera_in_a_level_smaller_than_the_viewport_sits_at_the_half_extent() {
    let levels = vec![level(true, point(100, 100), point(50, 50))];
    assert_eq!(fit_inside_current_level(Some(point(25, 25)), &levels), Some(point(100, 100)));
}

#[test]
fn camera_fit_is_idempotent() {
    let levels = vec![level(true, point(10, 20), point(100, 80))];
    for x in [-50, 10, 55, 90, 500] {
        for y in [-50, 20, 44, 60, 500] {
            let once = fit_inside_current_level(Some(point(x, y)), &levels);
            assert_eq!(fit_inside_current_level(once, &levels), once);
        }
    }
}

#[test]
fn plane_grid_places_no_two_planes_on_one_spot() {
    let mut grid = HexGrid::new(9, 7);
    grid.generate();
    for (i, a) in grid.cells.iter().enumerate() {
        for b in &grid.cells[i + 1..] {
            assert_ne!((a.x, a.z), (b.x, b.z));
        }
    }
}
