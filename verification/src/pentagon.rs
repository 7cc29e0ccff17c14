use vstd::prelude::*;
use crate::scalar::Scalar;
use crate::matrix::Mat4;
use crate::camera::{Camera, CameraUniform};
use crate::instance::{GridLayout, GridPoint, Instance, Rotation};
use crate::model::{Material, Mesh, Model, ModelVertex};
use crate::texture::{Texture, TextureSource};
use crate::renderable::{
    frame_writes, instanced_bindings, meshes_commands, queue_uniforms, record_instanced,
    BufferWrite, BufferWriteView, DrawCommand, PipelineDescriptor, Renderable,
};

verus! {

/// Rows of the pentagon grid.
pub const PENTAGON_ROWS: usize = 10;

/// A grid of textured pentagons.
#[derive(Debug)]
pub struct Pentagon {
    pub camera_uniform: CameraUniform,
    pub pipeline: PipelineDescriptor,
    pub instances: Vec<Instance>,
    pub model: Model,
}

/// The five corners of the pentagon, with their texture coordinates.
pub open spec fn pentagon_vertices() -> Seq<ModelVertex> {
    seq![
        ModelVertex::of_bits(0xbdb1_d0d5, 0x3efc_1c5c, 0, 0x3ed3_8bcb, 0x3bf8_e90a),
        ModelVertex::of_bits(0xbefd_8236, 0x3d8e_835a, 0, 0x3b9f_7280, 0x3edc_5f2a),
        ModelVertex::of_bits(0xbe60_7229, 0xbee6_175f, 0, 0x3e8f_c6ec, 0x3f73_0baf),
        ModelVertex::of_bits(0x3eb8_26aa, 0xbeb1_d51f, 0, 0x3f5c_1355, 0x3f58_ea90),
        ModelVertex::of_bits(0x3ee2_08d8, 0x3e70_5e9c, 0, 0x3f71_046c, 0x3e87_d0b2),
    ]
}

/// Three triangles that fan out from the last corner.
pub open spec fn pentagon_indices() -> Seq<u32> {
    seq![0, 1, 4, 1, 2, 4, 2, 3, 4]
}

impl Pentagon {
    /// Ten to a row, one apart, two above the ground, moved back by five.
    pub open spec fn layout_spec() -> GridLayout {
        GridLayout { per_row: 10, step: 1, height: 2, displacement: 5 }
    }

    /// One mesh, the pentagon, painted with the one material, the
    /// program's own image.
    pub open spec fn is_pentagon_model(model: Model) -> bool {
        &&& model.meshes@.len() == 1
        &&& model.meshes@[0].name@ == "pentagon"@
        &&& model.meshes@[0].holds(pentagon_vertices(), pentagon_indices())
        &&& model.meshes@[0].num_elements == 9
        &&& model.meshes@[0].materials == 1
        &&& model.materials@.len() == 1
        &&& model.materials@[0].name@ == "happy-three.png"@
        &&& model.materials@[0].diffuse_texture.label@ == "happy-three.png"@
        &&& model.materials@[0].diffuse_texture.source matches TextureSource::Asset(file)
            && file@ == "happy-tree.png"@
        &&& model.materials@[0].diffuse_texture.filter is None
    }

    /// The instance with index `i`: column `i % 10` of row `i / 10`,
    /// one apart, two above the ground, moved back by five along x and
    /// z. Index 55, the centre of the grid, is not turned; every other
    /// instance is tilted about its own position.
    pub open spec fn instance_spec(i: int) -> Instance {
        Instance {
            position: GridPoint { x: (i % 10 - 5) as i64, y: 2, z: (i / 10 - 5) as i64 },
            rotation: if i == 55 {
                Rotation::ZeroAboutZ
            } else {
                Rotation::TiltAboutPosition
            },
        }
    }

    pub fn layout() -> (layout: GridLayout)
        ensures
            layout == Pentagon::layout_spec(),
    {
        GridLayout { per_row: 10, step: 1, height: 2, displacement: 5 }
    }

    /// The grid of pentagons with `num_row_instances` rows of ten, row after
    /// row.
    pub fn create_instances(num_row_instances: usize) -> (instances: Vec<Instance>)
        requires
            num_row_instances * 10 <= usize::MAX,
        ensures
            instances@.len() == 10 * num_row_instances,
            forall|i: int|
                0 <= i < 10 * num_row_instances ==> #[trigger] instances@[i]
                    == Pentagon::instance_spec(i),
            instances@ == Pentagon::layout_spec().instances(num_row_instances as int),
    {
        let instances = Pentagon::layout().create_instances(num_row_instances);
        assert forall|i: int| 0 <= i < 10 * num_row_instances implies #[trigger] instances@[i]
            == Pentagon::instance_spec(i) by {
            let layout = Pentagon::layout_spec();
            assert(instances@[i] == layout.instance_at(i / 10, i % 10));
        }
        instances
    }

    /// The pentagon mesh and its material.
    pub fn prepare_model() -> (model: Model)
        ensures
            Pentagon::is_pentagon_model(model),
    {
        let mut materials: Vec<Material> = Vec::new();
        materials.push(
            Material {
                name: "happy-three.png".to_owned(),
                diffuse_texture: Texture {
                    label: "happy-three.png".to_owned(),
                    source: TextureSource::Asset("happy-tree.png".to_owned()),
                    filter: None,
                },
            },
        );
        let mut vertices: Vec<ModelVertex> = Vec::new();
        vertices.push(ModelVertex::from_bits(0xbdb1_d0d5, 0x3efc_1c5c, 0, 0x3ed3_8bcb, 0x3bf8_e90a));
        vertices.push(ModelVertex::from_bits(0xbefd_8236, 0x3d8e_835a, 0, 0x3b9f_7280, 0x3edc_5f2a));
        vertices.push(ModelVertex::from_bits(0xbe60_7229, 0xbee6_175f, 0, 0x3e8f_c6ec, 0x3f73_0baf));
        vertices.push(ModelVertex::from_bits(0x3eb8_26aa, 0xbeb1_d51f, 0, 0x3f5c_1355, 0x3f58_ea90));
        vertices.push(ModelVertex::from_bits(0x3ee2_08d8, 0x3e70_5e9c, 0, 0x3f71_046c, 0x3e87_d0b2));
        assert(vertices@ =~= pentagon_vertices());
        let mut indices: Vec<u32> = Vec::new();
        indices.push(0);
        indices.push(1);
        indices.push(4);
        indices.push(1);
        indices.push(2);
        indices.push(4);
        indices.push(2);
        indices.push(3);
        indices.push(4);
        assert(indices@ =~= pentagon_indices());
        let mut meshes: Vec<Mesh> = Vec::new();
        meshes.push(Mesh::new("pentagon", &vertices, &indices, materials.len()));
        Model { meshes, materials }
    }

    /// A pentagon grid of ten rows. Whatever `camera` is, the camera
    /// uniform starts as the identity and keeps it until the first
    /// `prepare` that brings a matrix.
    #[allow(unused_variables)]
    pub fn new(camera: &Camera) -> (pentagon: Pentagon)
        ensures
            pentagon.well_formed(),
            pentagon.camera_uniform.view_proj == Mat4::identity_spec(),
            pentagon.pipeline.is_instanced(),
            pentagon.instances@ == Pentagon::layout_spec().instances(10),
            pentagon.instances@.len() == 100,
            forall|i: int|
                0 <= i < 100 ==> #[trigger] pentagon.instances@[i] == Pentagon::instance_spec(i),
            Pentagon::is_pentagon_model(pentagon.model),
    {
        let camera_uniform = CameraUniform::new();
        let model = Pentagon::prepare_model();
        let instances = Pentagon::create_instances(PENTAGON_ROWS);
        Pentagon { camera_uniform, pipeline: PipelineDescriptor::instanced(), instances, model }
    }
}

impl Renderable for Pentagon {
    open spec fn well_formed(&self) -> bool {
        self.instances@.len() <= u32::MAX
    }

    open spec fn queued(&self, view_proj: Option<Mat4>, elapsed_time: Scalar) -> Seq<
        BufferWriteView,
    > {
        frame_writes(view_proj, elapsed_time)
    }

    open spec fn drawn(&self) -> Seq<DrawCommand> {
        instanced_bindings() + meshes_commands(
            self.model.meshes@,
            self.model.meshes@.len() as int,
            self.instances@.len() as u32,
        )
    }

    /// With a matrix, stores it and asks for it to be written; without
    /// one, leaves the camera uniform as it is. Asks for the elapsed time
    /// to be written either way. Nothing else changes.
    fn prepare(&mut self, view_proj: Option<Mat4>, elapsed_time: Scalar) -> (writes: Vec<
        BufferWrite,
    >)
        ensures
            final(self).camera_uniform.view_proj == match view_proj {
                Some(m) => m,
                None => old(self).camera_uniform.view_proj,
            },
            final(self).pipeline == old(self).pipeline,
            final(self).instances == old(self).instances,
            final(self).model == old(self).model,
    {
        match view_proj {
            Some(m) => {
                self.camera_uniform.update_view_proj(m);
            },
            None => {},
        }
        queue_uniforms(view_proj, elapsed_time)
    }

    fn render(&self) -> (commands: Vec<DrawCommand>) {
        record_instanced(&self.model.meshes, self.instances.len() as u32)
    }
}

/// In a grid of `rows` rows of ten, column `x` of row `z` has index
/// `z * 10 + x` and stands at `(x - 5, 2, z - 5)`, wherever the grid ends:
/// one to the left of its neighbour in the next column, one before its
/// neighbour in the next row, and two above the ground. It is not turned
/// if it is column 5 of row 5, and tilted if it is any other.
pub proof fn lemma_pentagon_grid(rows: int, z: int, x: int)
    requires
        rows * 10 <= usize::MAX,
        0 <= z < rows,
        0 <= x < 10,
    ensures
        0 <= z * 10 + x < 10 * rows,
        Pentagon::layout_spec().instances(rows).len() == 10 * rows,
        Pentagon::layout_spec().instances(rows)[z * 10 + x] == Pentagon::instance_spec(z * 10 + x),
        Pentagon::instance_spec(z * 10 + x).position == (GridPoint {
            x: (x - 5) as i64,
            y: 2,
            z: (z - 5) as i64,
        }),
        x + 1 < 10 ==> Pentagon::instance_spec(z * 10 + x + 1).position == (GridPoint {
            x: (x - 5 + 1) as i64,
            y: 2,
            z: (z - 5) as i64,
        }),
        z + 1 < rows ==> Pentagon::instance_spec((z + 1) * 10 + x).position == (GridPoint {
            x: (x - 5) as i64,
            y: 2,
            z: (z - 5 + 1) as i64,
        }),
        Pentagon::instance_spec(z * 10 + x).rotation == if x == 5 && z == 5 {
            Rotation::ZeroAboutZ
        } else {
            Rotation::TiltAboutPosition
        },
{
    let layout = Pentagon::layout_spec();
    let i = z * 10 + x;
    assert(layout.instances(rows)[i] == layout.instance_at(i / 10, i % 10));
}

} // verus!
