use vstd::prelude::*;
use crate::scalar::Scalar;
use crate::matrix::Mat4;
use crate::model::{Material, Mesh, Model, ModelVertex};
use crate::texture::{filled, stamped, FilterMode, Raster, Rgba8, Texture, TextureSource};
use crate::renderable::{
    meshes_commands, plain_bindings, record_plain, BufferWrite, BufferWriteView, DrawCommand,
    PipelineDescriptor, Renderable,
};

verus! {

/// Width and height of a glyph image, in texels.
pub const GLYPH_SIZE: u32 = 5;

/// A character drawn as one textured square.
#[derive(Debug)]
pub struct Char {
    pub pipeline: PipelineDescriptor,
    pub model: Model,
}

/// The square that a glyph is drawn on, corners at 0.9 from the centre.
pub open spec fn glyph_vertices() -> Seq<ModelVertex> {
    seq![
        ModelVertex::of_bits(0xbf66_6666, 0x3f66_6666, 0, 0, 0),
        ModelVertex::of_bits(0xbf66_6666, 0xbf66_6666, 0, 0, 0x3f80_0000),
        ModelVertex::of_bits(0x3f66_6666, 0xbf66_6666, 0, 0x3f80_0000, 0x3f80_0000),
        ModelVertex::of_bits(0x3f66_6666, 0x3f66_6666, 0, 0x3f80_0000, 0),
    ]
}

/// Two triangles that share the diagonal from corner 1 to corner 3.
pub open spec fn glyph_indices() -> Seq<u32> {
    seq![0, 1, 3, 1, 2, 3]
}

/// The texels of the letter A, as (column, row).
pub open spec fn letter_a_points() -> Seq<(u32, u32)> {
    seq![
        (1u32, 1u32),
        (1u32, 2u32),
        (1u32, 3u32),
        (1u32, 4u32),
        (2u32, 0u32),
        (2u32, 2u32),
        (3u32, 1u32),
        (3u32, 2u32),
        (3u32, 3u32),
        (3u32, 4u32),
    ]
}

/// What lies behind the letter: black, a little transparent.
pub open spec fn glyph_background() -> Rgba8 {
    Rgba8 { r: 0, g: 0, b: 0, a: 210 }
}

/// What the letter is written in: white.
pub open spec fn glyph_ink() -> Rgba8 {
    Rgba8 { r: 255, g: 255, b: 255, a: 255 }
}

/// The image of the letter A.
pub open spec fn letter_a_texels() -> Seq<u8> {
    stamped(filled(5, 5, glyph_background()), 5, letter_a_points(), glyph_ink())
}

impl Char {
    /// One mesh, the square, painted with the one material, the letter A
    /// sampled texel by texel.
    pub open spec fn is_glyph_model(model: Model) -> bool {
        &&& model.meshes@.len() == 1
        &&& model.meshes@[0].name@ == "char"@
        &&& model.meshes@[0].holds(glyph_vertices(), glyph_indices())
        &&& model.meshes@[0].num_elements == 6
        &&& model.meshes@[0].materials == 1
        &&& model.materials@.len() == 1
        &&& model.materials@[0].name@ == "Char"@
        &&& model.materials@[0].diffuse_texture.label@ == "char"@
        &&& model.materials@[0].diffuse_texture.filter == Some(FilterMode::Nearest)
        &&& model.materials@[0].diffuse_texture.source matches TextureSource::Painted(raster)
            && raster.width == GLYPH_SIZE && raster.height == GLYPH_SIZE && raster.rgba@
            == letter_a_texels()
    }

    /// Paints the letter A.
    pub fn letter_a() -> (raster: Raster)
        ensures
            raster.width == GLYPH_SIZE,
            raster.height == GLYPH_SIZE,
            raster.rgba@ == letter_a_texels(),
    {
        let mut points: Vec<(u32, u32)> = Vec::new();
        points.push((1, 1));
        points.push((1, 2));
        points.push((1, 3));
        points.push((1, 4));
        points.push((2, 0));
        points.push((2, 2));
        points.push((3, 1));
        points.push((3, 2));
        points.push((3, 3));
        points.push((3, 4));
        assert(points@ =~= letter_a_points());
        Raster::paint(
            GLYPH_SIZE,
            GLYPH_SIZE,
            Rgba8 { r: 0, g: 0, b: 0, a: 210 },
            &points,
            Rgba8 { r: 255, g: 255, b: 255, a: 255 },
        )
    }

    /// The square mesh and its material.
    pub fn prepare_model() -> (model: Model)
        ensures
            Char::is_glyph_model(model),
    {
        let mut vertices: Vec<ModelVertex> = Vec::new();
        vertices.push(ModelVertex::from_bits(0xbf66_6666, 0x3f66_6666, 0, 0, 0));
        vertices.push(ModelVertex::from_bits(0xbf66_6666, 0xbf66_6666, 0, 0, 0x3f80_0000));
        vertices.push(ModelVertex::from_bits(0x3f66_6666, 0xbf66_6666, 0, 0x3f80_0000, 0x3f80_0000));
        vertices.push(ModelVertex::from_bits(0x3f66_6666, 0x3f66_6666, 0, 0x3f80_0000, 0));
        assert(vertices@ =~= glyph_vertices());
        let mut materials: Vec<Material> = Vec::new();
        materials.push(
            Material {
                name: "Char".to_owned(),
                diffuse_texture: Texture {
                    label: "char".to_owned(),
                    source: TextureSource::Painted(Char::letter_a()),
                    filter: Some(FilterMode::Nearest),
                },
            },
        );
        let mut indices: Vec<u32> = Vec::new();
        indices.push(0);
        indices.push(1);
        indices.push(3);
        indices.push(1);
        indices.push(2);
        indices.push(3);
        assert(indices@ =~= glyph_indices());
        let mut meshes: Vec<Mesh> = Vec::new();
        meshes.push(Mesh::new("char", &vertices, &indices, materials.len()));
        Model { meshes, materials }
    }

    /// The pipeline of a glyph: an overlay.
    pub fn prepare_pipeline_and_bind() -> (pipeline: PipelineDescriptor)
        ensures
            pipeline.is_overlay(),
    {
        PipelineDescriptor::overlay()
    }

    /// The letter A, ready to draw.
    pub fn new() -> (glyph: Char)
        ensures
            glyph.well_formed(),
            glyph.pipeline.is_overlay(),
            Char::is_glyph_model(glyph.model),
    {
        let model = Char::prepare_model();
        let pipeline = Char::prepare_pipeline_and_bind();
        Char { pipeline, model }
    }
}

impl Renderable for Char {
    open spec fn well_formed(&self) -> bool {
        true
    }

    open spec fn queued(&self, view_proj: Option<Mat4>, elapsed_time: Scalar) -> Seq<
        BufferWriteView,
    > {
        Seq::empty()
    }

    open spec fn drawn(&self) -> Seq<DrawCommand> {
        plain_bindings() + meshes_commands(self.model.meshes@, self.model.meshes@.len() as int, 1)
    }

    /// A glyph has no uniforms: nothing is written and nothing changes.
    fn prepare(&mut self, view_proj: Option<Mat4>, elapsed_time: Scalar) -> (writes: Vec<
        BufferWrite,
    >)
        ensures
            *final(self) == *old(self),
    {
        let writes: Vec<BufferWrite> = Vec::new();
        assert(crate::renderable::write_views(writes@) =~= Seq::empty());
        writes
    }

    fn render(&self) -> (commands: Vec<DrawCommand>) {
        record_plain(&self.model.meshes)
    }
}

} // verus!
