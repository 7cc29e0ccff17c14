use vstd::prelude::*;
use crate::scalar::Scalar;
use crate::matrix::Mat4;
use crate::camera::{Camera, CameraUniform};
use crate::instance::{GridLayout, GridPoint, Instance, Rotation};
use crate::model::Model;
use crate::renderable::{
    frame_writes, instanced_bindings, meshes_commands, queue_uniforms, record_instanced,
    BufferWrite, BufferWriteView, DrawCommand, PipelineDescriptor, Renderable,
};

verus! {

/// Rows of the cube grid.
pub const CUBE_ROWS: usize = 10;

/// A grid of textured cubes.
#[derive(Debug)]
pub struct Cube {
    pub camera_uniform: CameraUniform,
    pub pipeline: PipelineDescriptor,
    pub instances: Vec<Instance>,
    pub model: Model,
}

impl Cube {
    /// Ten to a row, three apart, two below the ground, moved back by
    /// five.
    pub open spec fn layout_spec() -> GridLayout {
        GridLayout { per_row: 10, step: 3, height: -2i32, displacement: 5 }
    }

    /// The instance with index `i`: column `i % 10` of row `i / 10`,
    /// three apart, two below the ground, moved back by five along x
    /// and z. No column comes to stand at x = 0, so every instance is
    /// tilted about its own position.
    pub open spec fn instance_spec(i: int) -> Instance {
        Instance {
            position: GridPoint {
                x: (3 * (i % 10) - 5) as i64,
                y: -2i64,
                z: (3 * (i / 10) - 5) as i64,
            },
            rotation: Rotation::TiltAboutPosition,
        }
    }

    pub fn layout() -> (layout: GridLayout)
        ensures
            layout == Cube::layout_spec(),
    {
        GridLayout { per_row: 10, step: 3, height: -2i32, displacement: 5 }
    }

    /// The grid of cubes with `num_row_instances` rows of ten, row after
    /// row.
    pub fn create_instances(num_row_instances: usize) -> (instances: Vec<Instance>)
        requires
            num_row_instances * 10 <= usize::MAX,
        ensures
            instances@.len() == 10 * num_row_instances,
            forall|i: int|
                0 <= i < 10 * num_row_instances ==> #[trigger] instances@[i]
                    == Cube::instance_spec(i),
            instances@ == Cube::layout_spec().instances(num_row_instances as int),
    {
        let instances = Cube::layout().create_instances(num_row_instances);
        assert forall|i: int| 0 <= i < 10 * num_row_instances implies #[trigger] instances@[i]
            == Cube::instance_spec(i) by {
            let layout = Cube::layout_spec();
            assert(instances@[i] == layout.instance_at(i / 10, i % 10));
        }
        instances
    }

    /// A cube grid of ten rows that draws `model`. Whatever `camera` is,
    /// the camera uniform starts as the identity and keeps it until the
    /// first `prepare` that brings a matrix.
    #[allow(unused_variables)]
    pub fn new(camera: &Camera, model: Model) -> (cube: Cube)
        ensures
            cube.well_formed(),
            cube.camera_uniform.view_proj == Mat4::identity_spec(),
            cube.pipeline.is_instanced(),
            cube.instances@ == Cube::layout_spec().instances(10),
            cube.instances@.len() == 100,
            forall|i: int| 0 <= i < 100 ==> #[trigger] cube.instances@[i] == Cube::instance_spec(i),
            cube.model == model,
    {
        let camera_uniform = CameraUniform::new();
        let instances = Cube::create_instances(CUBE_ROWS);
        Cube { camera_uniform, pipeline: PipelineDescriptor::instanced(), instances, model }
    }
}

impl Renderable for Cube {
    open spec fn well_formed(&self) -> bool {
        self.instances@.len() <= u32::MAX
    }

    open spec fn queued(&self, view_proj: Option<Mat4>, elapsed_time: Scalar) -> Seq<
        BufferWriteView,
    > {
        frame_writes(view_proj, elapsed_time)
    }

    open spec fn drawn(&self) -> Seq<DrawCommand> {
        instanced_bindings() + meshes_commands(
            self.model.meshes@,
            self.model.meshes@.len() as int,
            self.instances@.len() as u32,
        )
    }

    /// With a matrix, stores it and asks for it to be written; without
    /// one, leaves the camera uniform as it is. Asks for the elapsed time
    /// to be written either way. Nothing else changes.
    fn prepare(&mut self, view_proj: Option<Mat4>, elapsed_time: Scalar) -> (writes: Vec<
        BufferWrite,
    >)
        ensures
            final(self).camera_uniform.view_proj == match view_proj {
                Some(m) => m,
                None => old(self).camera_uniform.view_proj,
            },
            final(self).pipeline == old(self).pipeline,
            final(self).instances == old(self).instances,
            final(self).model == old(self).model,
    {
        match view_proj {
            Some(m) => {
                self.camera_uniform.update_view_proj(m);
            },
            None => {},
        }
        queue_uniforms(view_proj, elapsed_time)
    }

    fn render(&self) -> (commands: Vec<DrawCommand>) {
        record_instanced(&self.model.meshes, self.instances.len() as u32)
    }
}

/// In a grid of `rows` rows of ten, column `x` of row `z` has index
/// `z * 10 + x` and stands at `(3x - 5, -2, 3z - 5)`, wherever the grid
/// ends: three to the left of its neighbour in the next column, three
/// before its neighbour in the next row, and two below the ground. It is
/// tilted about its own position, which is never the origin.
pub proof fn lemma_cube_grid(rows: int, z: int, x: int)
    requires
        rows * 10 <= usize::MAX,
        0 <= z < rows,
        0 <= x < 10,
    ensures
        0 <= z * 10 + x < 10 * rows,
        Cube::layout_spec().instances(rows).len() == 10 * rows,
        Cube::layout_spec().instances(rows)[z * 10 + x] == Cube::instance_spec(z * 10 + x),
        Cube::instance_spec(z * 10 + x).position == (GridPoint {
            x: (3 * x - 5) as i64,
            y: -2i64,
            z: (3 * z - 5) as i64,
        }),
        x + 1 < 10 ==> Cube::instance_spec(z * 10 + x + 1).position == (GridPoint {
            x: (3 * x - 5 + 3) as i64,
            y: -2i64,
            z: (3 * z - 5) as i64,
        }),
        z + 1 < rows ==> Cube::instance_spec((z + 1) * 10 + x).position == (GridPoint {
            x: (3 * x - 5) as i64,
            y: -2i64,
            z: (3 * z - 5 + 3) as i64,
        }),
        Cube::instance_spec(z * 10 + x).rotation == Rotation::TiltAboutPosition,
        Cube::instance_spec(z * 10 + x).position != (GridPoint { x: 0, y: 0, z: 0 }),
{
    let layout = Cube::layout_spec();
    let i = z * 10 + x;
    assert(layout.instances(rows)[i] == layout.instance_at(i / 10, i % 10));
}

} // verus!
