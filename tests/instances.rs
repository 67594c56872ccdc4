use voxel_render::instances::{grid_cells, grid_instances, instance_seed, scene_bounds, scene_instances, GridBounds, GridPoint, GridRange, InstanceSeed, Tint, TINT_STEPS};

fn bounds(x: (i32, i32), y: (i32, i32), z: (i32, i32)) -> GridBounds {
    GridBounds {
        x: GridRange { start: x.0, end: x.1 },
        y: GridRange { start: y.0, end: y.1 },
        z: GridRange { start: z.0, end: z.1 },
    }
}

#[test]
fn grid_walks_x_fastest_then_y_then_z() {
    let cells = grid_cells(&bounds((0, 2), (5, 7), (-1, 1)));
    let expected: Vec<GridPoint> = vec![
        (0, 5, -1), (1, 5, -1), (0, 6, -1), (1, 6, -1),
        (0, 5, 0), (1, 5, 0), (0, 6, 0), (1, 6, 0),
    ]
    .into_iter()
    .map(|(x, y, z)| GridPoint { x, y, z })
    .collect();
    assert_eq!(cells, expected);
}

#[test]
fn empty_grid_has_no_cells() {
    assert!(grid_cells(&bounds((0, 0), (0, 3), (0, 3))).is_empty());
    assert!(grid_cells(&bounds((0, 3), (4, 1), (0, 3))).is_empty());
    assert!(grid_cells(&bounds((0, 3), (0, 3), (2, 2))).is_empty());
}

#[test]
fn grid_range_len() {
    assert_eq!(GridRange { start: -100, end: 0 }.len(), 100);
    assert_eq!(GridRange { start: 3, end: -3 }.len(), 0);
    assert_eq!(GridRange { start: i32::MIN, end: i32::MAX }.len(), u32::MAX as usize);
}

#[test]
fn seed_shifts_position_and_tint() {
    let s = instance_seed(&GridPoint { x: 7, y: 9, z: -30 });
    assert_eq!(
        s,
        InstanceSeed { position: GridPoint { x: 7, y: 9, z: 70 }, tint: Tint { red: 7, green: 9, blue: 170 } }
    );
    assert_eq!(TINT_STEPS, 200);
    assert_eq!(s.tint.blue as f32 * (1.0 / TINT_STEPS as f32), 170.0 * 0.005);
}

#[test]
fn grid_instances_follow_cells() {
    let b = bounds((1, 3), (0, 1), (-2, 0));
    let seeds = grid_instances(&b);
    let cells = grid_cells(&b);
    assert_eq!(seeds.len(), 4);
    for (s, c) in seeds.iter().zip(cells.iter()) {
        assert_eq!(*s, instance_seed(c));
    }
}

#[test]
fn scene_has_a_million_instances() {
    assert_eq!(scene_bounds(), bounds((0, 100), (0, 100), (-100, 0)));
    let seeds = scene_instances();
    assert_eq!(seeds.len(), 1_000_000);
    assert_eq!(seeds[0], InstanceSeed { position: GridPoint { x: 0, y: 0, z: 0 }, tint: Tint { red: 0, green: 0, blue: 100 } });
    assert_eq!(seeds[1], InstanceSeed { position: GridPoint { x: 1, y: 0, z: 0 }, tint: Tint { red: 1, green: 0, blue: 100 } });
    assert_eq!(seeds[100], InstanceSeed { position: GridPoint { x: 0, y: 1, z: 0 }, tint: Tint { red: 0, green: 1, blue: 100 } });
    assert_eq!(
        seeds[999_999],
        InstanceSeed { position: GridPoint { x: 99, y: 99, z: 99 }, tint: Tint { red: 99, green: 99, blue: 199 } }
    );
}

#[test]
fn empty_grid_at_the_top_of_the_range_has_no_instances() {
    let b = bounds((0, 2), (0, 2), (i32::MAX, i32::MAX));
    assert!(grid_instances(&b).is_empty());
    let b = bounds((0, 0), (0, 2), (i32::MAX - 5, i32::MAX));
    assert!(grid_instances(&b).is_empty());
}
