use shapes::cube::Cube;
use shapes::instance::{instance_layout, GridLayout, GridPoint, Instance, Rotation};
use shapes::model::{VertexAttribute, VertexFormat, VertexStepMode};
use shapes::pentagon::Pentagon;

#[test]
fn pentagon_grid_is_ten_by_ten_one_apart() {
    let grid = Pentagon::create_instances(10);
    assert_eq!(grid.len(), 100);
    for z in 0..10i64 {
        for x in 0..10i64 {
            let inst = grid[(z * 10 + x) as usize];
            assert_eq!(inst.position, GridPoint { x: x - 5, y: 2, z: z - 5 });
            let expected =
                if x == 5 && z == 5 { Rotation::ZeroAboutZ } else { Rotation::TiltAboutPosition };
            assert_eq!(inst.rotation, expected, "column {} of row {}", x, z);
        }
    }
}

#[test]
fn the_centre_of_the_pentagon_grid_is_not_turned() {
    let grid = Pentagon::create_instances(10);
    assert_eq!(
        grid[55],
        Instance { position: GridPoint { x: 0, y: 2, z: 0 }, rotation: Rotation::ZeroAboutZ }
    );
    assert_eq!(grid.iter().filter(|i| i.rotation == Rotation::ZeroAboutZ).count(), 1);
    let short = Pentagon::create_instances(5);
    assert!(short.iter().all(|i| i.rotation == Rotation::TiltAboutPosition));
    let long = Pentagon::create_instances(23);
    assert_eq!(long.len(), 230);
    assert_eq!(long[55].rotation, Rotation::ZeroAboutZ);
    assert_eq!(long.iter().filter(|i| i.rotation == Rotation::ZeroAboutZ).count(), 1);
}

#[test]
fn neighbours_in_the_pentagon_grid_stand_one_apart() {
    let grid = Pentagon::create_instances(4);
    for z in 0..4usize {
        for x in 0..10usize {
            let here = grid[z * 10 + x].position;
            assert_eq!(here.y, 2);
            if x + 1 < 10 {
                let next = grid[z * 10 + x + 1].position;
                assert_eq!((next.x - here.x, next.y - here.y, next.z - here.z), (1, 0, 0));
            }
            if z + 1 < 4 {
                let below = grid[(z + 1) * 10 + x].position;
                assert_eq!((below.x - here.x, below.y - here.y, below.z - here.z), (0, 0, 1));
            }
        }
    }
}

#[test]
fn cube_grid_is_ten_by_ten_three_apart() {
    let grid = Cube::create_instances(10);
    assert_eq!(grid.len(), 100);
    for z in 0..10i64 {
        for x in 0..10i64 {
            let inst = grid[(z * 10 + x) as usize];
            assert_eq!(inst.position, GridPoint { x: 3 * x - 5, y: -2, z: 3 * z - 5 });
            assert_eq!(inst.rotation, Rotation::TiltAboutPosition);
        }
    }
}

#[test]
fn grid_has_ten_instances_a_row() {
    assert_eq!(Pentagon::create_instances(0).len(), 0);
    assert_eq!(Pentagon::create_instances(1).len(), 10);
    assert_eq!(Pentagon::create_instances(3).len(), 30);
    assert_eq!(Cube::create_instances(7).len(), 70);
}

#[test]
fn first_and_last_instances() {
    let grid = Pentagon::create_instances(3);
    assert_eq!(grid[0].position, GridPoint { x: -5, y: 2, z: -5 });
    assert_eq!(grid[9].position, GridPoint { x: 4, y: 2, z: -5 });
    assert_eq!(grid[10].position, GridPoint { x: -5, y: 2, z: -4 });
    assert_eq!(grid[29].position, GridPoint { x: 4, y: 2, z: -3 });
}

#[test]
fn the_centre_of_a_grid_gets_the_zero_rotation_at_any_height() {
    for height in [0, 2, -7] {
        let layout = GridLayout { per_row: 10, step: 1, height, displacement: 5 };
        let grid = layout.create_instances(10);
        assert_eq!(grid.len(), 100);
        for (i, inst) in grid.iter().enumerate() {
            if i == 55 {
                assert_eq!(
                    *inst,
                    Instance {
                        position: GridPoint { x: 0, y: height as i64, z: 0 },
                        rotation: Rotation::ZeroAboutZ,
                    }
                );
            } else {
                assert_eq!(inst.rotation, Rotation::TiltAboutPosition);
                assert!(!inst.position.is_centre());
            }
        }
    }
}

#[test]
fn a_grid_without_a_centre_has_no_zero_rotation() {
    let layout = GridLayout { per_row: 4, step: 2, height: 0, displacement: 3 };
    let grid = layout.create_instances(4);
    assert_eq!(grid.len(), 16);
    assert!(grid.iter().all(|i| i.rotation == Rotation::TiltAboutPosition));
    assert_eq!(grid[5].position, GridPoint { x: -1, y: 0, z: -1 });
}

#[test]
fn place_follows_step_and_displacement() {
    let layout = GridLayout { per_row: 6, step: 7, height: -3, displacement: 14 };
    let inst = layout.place(2, 5);
    assert_eq!(inst.position, GridPoint { x: 21, y: -3, z: 0 });
    assert_eq!(inst.rotation, Rotation::TiltAboutPosition);
    let beside = layout.place(3, 2);
    assert_eq!(beside.position, GridPoint { x: 0, y: -3, z: 7 });
    assert_eq!(beside.rotation, Rotation::TiltAboutPosition);
    let centre = layout.place(2, 2);
    assert_eq!(centre.position, GridPoint { x: 0, y: -3, z: 0 });
    assert_eq!(centre.rotation, Rotation::ZeroAboutZ);
}

#[test]
fn a_grid_of_step_zero_stands_in_one_place() {
    let layout = GridLayout { per_row: 3, step: 0, height: 1, displacement: 4 };
    let grid = layout.create_instances(2);
    assert_eq!(grid.len(), 6);
    assert!(grid.iter().all(|i| i.position == GridPoint { x: -4, y: 1, z: -4 }));
    assert!(grid.iter().all(|i| i.rotation == Rotation::TiltAboutPosition));
}

#[test]
fn layouts_of_the_two_grids() {
    assert_eq!(Pentagon::layout(), GridLayout { per_row: 10, step: 1, height: 2, displacement: 5 });
    assert_eq!(Cube::layout(), GridLayout { per_row: 10, step: 3, height: -2, displacement: 5 });
}

#[test]
fn the_centre_is_recognised_by_x_and_z() {
    assert!(GridPoint { x: 0, y: 0, z: 0 }.is_centre());
    assert!(GridPoint { x: 0, y: 1, z: 0 }.is_centre());
    assert!(GridPoint { x: 0, y: -2, z: 0 }.is_centre());
    assert!(!GridPoint { x: -1, y: 0, z: 0 }.is_centre());
    assert!(!GridPoint { x: 0, y: 0, z: 9 }.is_centre());
}

#[test]
fn instance_layout_is_four_columns_at_locations_five_to_eight() {
    let layout = instance_layout();
    assert_eq!(layout.array_stride, 64);
    assert_eq!(layout.step_mode, VertexStepMode::Instance);
    assert_eq!(
        layout.attributes,
        vec![
            VertexAttribute { format: VertexFormat::Float32x4, offset: 0, shader_location: 5 },
            VertexAttribute { format: VertexFormat::Float32x4, offset: 16, shader_location: 6 },
            VertexAttribute { format: VertexFormat::Float32x4, offset: 32, shader_location: 7 },
            VertexAttribute { format: VertexFormat::Float32x4, offset: 48, shader_location: 8 },
        ]
    );
}
