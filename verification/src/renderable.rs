use vstd::prelude::*;
use crate::scalar::{Scalar, ZERO_BITS};
use crate::matrix::Mat4;
use crate::encoding::{le_bytes, encode_word};
use crate::model::{
    Mesh, ModelVertex, Vertex, VertexAttribute, VertexBufferLayout, VertexFormat, VertexStepMode,
    MODEL_VERTEX_BYTES,
};
use crate::instance::{instance_layout, INSTANCE_BYTES};

verus! {

/// The uniform buffers that a frame may overwrite.
#[derive(Clone, Copy, Debug, PartialEq, Eq, Structural)]
pub enum UniformBuffer {
    Camera,
    ElapsedTime,
}

/// One write to queue: `data` goes into `buffer` from `offset` on.
#[derive(Debug)]
pub struct BufferWrite {
    pub buffer: UniformBuffer,
    pub offset: u64,
    pub data: Vec<u8>,
}

pub struct BufferWriteView {
    pub buffer: UniformBuffer,
    pub offset: u64,
    pub data: Seq<u8>,
}

impl View for BufferWrite {
    type V = BufferWriteView;

    open spec fn view(&self) -> BufferWriteView {
        BufferWriteView { buffer: self.buffer, offset: self.offset, data: self.data@ }
    }
}

/// What a list of writes says, write by write.
pub open spec fn write_views(writes: Seq<BufferWrite>) -> Seq<BufferWriteView> {
    writes.map_values(|w: BufferWrite| w@)
}

/// The write that puts a matrix at the start of the camera buffer.
pub open spec fn camera_write(view_proj: Mat4) -> BufferWriteView {
    BufferWriteView { buffer: UniformBuffer::Camera, offset: 0, data: view_proj.bytes() }
}

/// The write that puts the elapsed seconds, four bytes, at the start of
/// the elapsed-time buffer.
pub open spec fn time_write(elapsed_time: Scalar) -> BufferWriteView {
    BufferWriteView {
        buffer: UniformBuffer::ElapsedTime,
        offset: 0,
        data: le_bytes(elapsed_time.bits),
    }
}

/// The writes of one frame: the camera first, and only when a matrix is
/// given; the elapsed time always.
pub open spec fn frame_writes(view_proj: Option<Mat4>, elapsed_time: Scalar) -> Seq<
    BufferWriteView,
> {
    match view_proj {
        Some(m) => seq![camera_write(m), time_write(elapsed_time)],
        None => seq![time_write(elapsed_time)],
    }
}

/// The bind groups of a drawable, named by what they carry.
#[derive(Clone, Copy, Debug, PartialEq, Eq, Structural)]
pub enum BindGroup {
    Texture,
    Camera,
    ElapsedTime,
}

/// One command for a render pass.
#[derive(Clone, Copy, Debug, PartialEq, Eq, Structural)]
pub enum DrawCommand {
    SetPipeline,
    SetBindGroup { index: u32, group: BindGroup },
    /// Binds the per-instance data as a vertex buffer.
    SetInstanceBuffer { slot: u32 },
    /// Binds the vertices of mesh number `mesh` as a vertex buffer.
    SetVertexBuffer { slot: u32, mesh: usize },
    /// Binds the indices of mesh number `mesh`, 32 bits an index.
    SetIndexBuffer { mesh: usize },
    DrawIndexed {
        first_index: u32,
        index_count: u32,
        base_vertex: i32,
        first_instance: u32,
        instance_count: u32,
    },
}

/// Slot of the mesh's own vertices.
pub const MESH_SLOT: u32 = 0;

/// Slot of the per-instance data.
pub const INSTANCE_SLOT: u32 = 1;

/// The commands that draw one mesh: its vertices at slot 0, its indices,
/// and one indexed draw of all its indices from index 0, vertex 0 and
/// instance 0 on.
pub open spec fn mesh_commands(mesh: int, num_elements: u32, instance_count: u32) -> Seq<
    DrawCommand,
> {
    seq![
        DrawCommand::SetVertexBuffer { slot: MESH_SLOT, mesh: mesh as usize },
        DrawCommand::SetIndexBuffer { mesh: mesh as usize },
        DrawCommand::DrawIndexed {
            first_index: 0,
            index_count: num_elements,
            base_vertex: 0,
            first_instance: 0,
            instance_count,
        },
    ]
}

/// The commands that draw the first `n` meshes, in order.
pub open spec fn meshes_commands(meshes: Seq<Mesh>, n: int, instance_count: u32) -> Seq<
    DrawCommand,
>
    decreases n,
{
    if n <= 0 {
        Seq::empty()
    } else {
        meshes_commands(meshes, n - 1, instance_count) + mesh_commands(
            n - 1,
            meshes[n - 1].num_elements,
            instance_count,
        )
    }
}

/// What every instanced drawable binds before its meshes: the pipeline,
/// texture, camera and elapsed time at groups 0, 1 and 2, and the
/// per-instance data at slot 1.
pub open spec fn instanced_bindings() -> Seq<DrawCommand> {
    seq![
        DrawCommand::SetPipeline,
        DrawCommand::SetBindGroup { index: 0, group: BindGroup::Texture },
        DrawCommand::SetBindGroup { index: 1, group: BindGroup::Camera },
        DrawCommand::SetBindGroup { index: 2, group: BindGroup::ElapsedTime },
        DrawCommand::SetInstanceBuffer { slot: INSTANCE_SLOT },
    ]
}

/// What a drawable without camera and instances binds before its meshes.
pub open spec fn plain_bindings() -> Seq<DrawCommand> {
    seq![
        DrawCommand::SetPipeline,
        DrawCommand::SetBindGroup { index: 0, group: BindGroup::Texture },
    ]
}

/// How the colour of a fragment meets what is already there.
#[derive(Clone, Copy, Debug, PartialEq, Eq, Structural)]
pub enum Blending {
    /// The fragment replaces it.
    Opaque,
    /// Colour is laid over by opacity; opacity itself is replaced.
    Over,
}

/// The fixed state of a drawable's pipeline. Every pipeline draws
/// triangle lists and drops back faces.
#[derive(Debug)]
pub struct PipelineDescriptor {
    /// Layouts of the vertex buffers, by slot.
    pub vertex_buffers: Vec<VertexBufferLayout>,
    /// What is bound at group 0, 1, ...
    pub bind_groups: Vec<BindGroup>,
    pub blending: Blending,
    /// Fragments are tested against the depth buffer, nearer wins, and
    /// write their depth.
    pub depth_tested: bool,
}

impl PipelineDescriptor {
    /// The pipeline of a drawable with camera, clock and instances: mesh
    /// vertices at slot 0 and instance matrices at slot 1; texture, camera
    /// and elapsed time at groups 0, 1 and 2; opaque; depth-tested.
    pub open spec fn is_instanced(self) -> bool {
        &&& self.vertex_buffers@.len() == 2
        &&& self.vertex_buffers@[0].array_stride == MODEL_VERTEX_BYTES
        &&& self.vertex_buffers@[0].step_mode == VertexStepMode::Vertex
        &&& self.vertex_buffers@[0].attributes@ == seq![
            VertexAttribute { format: VertexFormat::Float32x3, offset: 0, shader_location: 0 },
            VertexAttribute { format: VertexFormat::Float32x2, offset: 12, shader_location: 1 },
        ]
        &&& self.vertex_buffers@[1].array_stride == INSTANCE_BYTES
        &&& self.vertex_buffers@[1].step_mode == VertexStepMode::Instance
        &&& self.vertex_buffers@[1].attributes@ == seq![
            VertexAttribute { format: VertexFormat::Float32x4, offset: 0, shader_location: 5 },
            VertexAttribute { format: VertexFormat::Float32x4, offset: 16, shader_location: 6 },
            VertexAttribute { format: VertexFormat::Float32x4, offset: 32, shader_location: 7 },
            VertexAttribute { format: VertexFormat::Float32x4, offset: 48, shader_location: 8 },
        ]
        &&& self.bind_groups@ == seq![BindGroup::Texture, BindGroup::Camera, BindGroup::ElapsedTime]
        &&& self.blending == Blending::Opaque
        &&& self.depth_tested
    }

    /// The pipeline of a flat overlay: mesh vertices at slot 0, the
    /// texture at group 0, colour laid over what is there, no depth test.
    pub open spec fn is_overlay(self) -> bool {
        &&& self.vertex_buffers@.len() == 1
        &&& self.vertex_buffers@[0].array_stride == MODEL_VERTEX_BYTES
        &&& self.vertex_buffers@[0].step_mode == VertexStepMode::Vertex
        &&& self.vertex_buffers@[0].attributes@ == seq![
            VertexAttribute { format: VertexFormat::Float32x3, offset: 0, shader_location: 0 },
            VertexAttribute { format: VertexFormat::Float32x2, offset: 12, shader_location: 1 },
        ]
        &&& self.bind_groups@ == seq![BindGroup::Texture]
        &&& self.blending == Blending::Over
        &&& !self.depth_tested
    }

    pub fn instanced() -> (pipeline: PipelineDescriptor)
        ensures
            pipeline.is_instanced(),
    {
        let mut vertex_buffers: Vec<VertexBufferLayout> = Vec::new();
        vertex_buffers.push(ModelVertex::desc());
        vertex_buffers.push(instance_layout());
        let mut bind_groups: Vec<BindGroup> = Vec::new();
        bind_groups.push(BindGroup::Texture);
        bind_groups.push(BindGroup::Camera);
        bind_groups.push(BindGroup::ElapsedTime);
        assert(bind_groups@ =~= seq![
            BindGroup::Texture,
            BindGroup::Camera,
            BindGroup::ElapsedTime,
        ]);
        PipelineDescriptor {
            vertex_buffers,
            bind_groups,
            blending: Blending::Opaque,
            depth_tested: true,
        }
    }

    pub fn overlay() -> (pipeline: PipelineDescriptor)
        ensures
            pipeline.is_overlay(),
    {
        let mut vertex_buffers: Vec<VertexBufferLayout> = Vec::new();
        vertex_buffers.push(ModelVertex::desc());
        let mut bind_groups: Vec<BindGroup> = Vec::new();
        bind_groups.push(BindGroup::Texture);
        assert(bind_groups@ =~= seq![BindGroup::Texture]);
        PipelineDescriptor {
            vertex_buffers,
            bind_groups,
            blending: Blending::Over,
            depth_tested: false,
        }
    }
}

/// An object that can be drawn: it says what to write before a frame and
/// what to record into a render pass.
pub trait Renderable {
    /// The object is in a state in which it can be prepared and drawn.
    spec fn well_formed(&self) -> bool;

    /// The writes that `prepare` asks for.
    spec fn queued(&self, view_proj: Option<Mat4>, elapsed_time: Scalar) -> Seq<BufferWriteView>;

    /// The commands that `render` records.
    spec fn drawn(&self) -> Seq<DrawCommand>;

    /// Takes in this frame's view-projection matrix, if there is one, and
    /// the elapsed seconds, and returns the buffer writes to queue, in
    /// order.
    fn prepare(&mut self, view_proj: Option<Mat4>, elapsed_time: Scalar) -> (writes: Vec<
        BufferWrite,
    >)
        requires
            old(self).well_formed(),
        ensures
            final(self).well_formed(),
            write_views(writes@) == old(self).queued(view_proj, elapsed_time),
    ;

    /// Returns the commands to record into the render pass, in order.
    fn render(&self) -> (commands: Vec<DrawCommand>)
        requires
            self.well_formed(),
        ensures
            commands@ == self.drawn(),
    ;
}

/// The writes of one frame for a drawable with a camera and a clock.
pub fn queue_uniforms(view_proj: Option<Mat4>, elapsed_time: Scalar) -> (writes: Vec<BufferWrite>)
    ensures
        write_views(writes@) == frame_writes(view_proj, elapsed_time),
{
    let mut writes: Vec<BufferWrite> = Vec::new();
    match view_proj {
        Some(m) => {
            writes.push(BufferWrite { buffer: UniformBuffer::Camera, offset: 0, data: m.to_bytes() });
        },
        None => {},
    }
    writes.push(
        BufferWrite {
            buffer: UniformBuffer::ElapsedTime,
            offset: 0,
            data: encode_word(elapsed_time.bits),
        },
    );
    assert(write_views(writes@) =~= frame_writes(view_proj, elapsed_time));
    writes
}

/// What the uniform buffers of a new drawable hold: the camera buffer
/// the identity matrix, the elapsed-time buffer four zero bytes, which is
/// zero seconds.
pub fn initial_uniforms() -> (contents: Vec<BufferWrite>)
    ensures
        write_views(contents@) == frame_writes(
            Some(Mat4::identity_spec()),
            Scalar { bits: ZERO_BITS },
        ),
        contents@.len() == 2,
        contents@[0].data@ == Mat4::identity_spec().bytes(),
        contents@[0].data@.len() == 64,
        contents@[1].data@ == seq![0u8, 0u8, 0u8, 0u8],
{
    let contents = queue_uniforms(Some(Mat4::identity()), Scalar::from_bits(ZERO_BITS));
    proof {
        assert(write_views(contents@).len() == 2);
        assert(write_views(contents@)[0] == contents@[0]@);
        assert(write_views(contents@)[1] == contents@[1]@);
        assert(0u32 & 0xff == 0 && (0u32 >> 8) & 0xff == 0 && (0u32 >> 16) & 0xff == 0 && (0u32
            >> 24) & 0xff == 0) by (bit_vector);
        assert(le_bytes(0) =~= seq![0u8, 0u8, 0u8, 0u8]);
        assert(Mat4::identity_spec().words().len() == 16);
    }
    contents
}

/// Appends the commands that draw every mesh of `meshes`, in order.
pub fn record_meshes(commands: &mut Vec<DrawCommand>, meshes: &Vec<Mesh>, instance_count: u32)
    ensures
        final(commands)@ == old(commands)@ + meshes_commands(
            meshes@,
            meshes@.len() as int,
            instance_count,
        ),
{
    let mut i: usize = 0;
    assert(commands@ =~= old(commands)@ + meshes_commands(meshes@, 0, instance_count));
    while i < meshes.len()
        invariant
            0 <= i <= meshes@.len(),
            commands@ == old(commands)@ + meshes_commands(meshes@, i as int, instance_count),
        decreases meshes@.len() - i,
    {
        commands.push(DrawCommand::SetVertexBuffer { slot: MESH_SLOT, mesh: i });
        commands.push(DrawCommand::SetIndexBuffer { mesh: i });
        commands.push(
            DrawCommand::DrawIndexed {
                first_index: 0,
                index_count: meshes[i].num_elements,
                base_vertex: 0,
                first_instance: 0,
                instance_count,
            },
        );
        i += 1;
        assert(commands@ =~= old(commands)@ + meshes_commands(meshes@, i as int, instance_count));
    }
}

/// The commands of an instanced drawable: the bindings, then every mesh
/// drawn `instance_count` times.
pub fn record_instanced(meshes: &Vec<Mesh>, instance_count: u32) -> (commands: Vec<DrawCommand>)
    ensures
        commands@ == instanced_bindings() + meshes_commands(
            meshes@,
            meshes@.len() as int,
            instance_count,
        ),
{
    let mut commands: Vec<DrawCommand> = Vec::new();
    commands.push(DrawCommand::SetPipeline);
    commands.push(DrawCommand::SetBindGroup { index: 0, group: BindGroup::Texture });
    commands.push(DrawCommand::SetBindGroup { index: 1, group: BindGroup::Camera });
    commands.push(DrawCommand::SetBindGroup { index: 2, group: BindGroup::ElapsedTime });
    commands.push(DrawCommand::SetInstanceBuffer { slot: INSTANCE_SLOT });
    assert(commands@ =~= instanced_bindings());
    record_meshes(&mut commands, meshes, instance_count);
    commands
}

/// The commands of a drawable without camera and instances: the
/// bindings, then every mesh drawn once.
pub fn record_plain(meshes: &Vec<Mesh>) -> (commands: Vec<DrawCommand>)
    ensures
        commands@ == plain_bindings() + meshes_commands(meshes@, meshes@.len() as int, 1),
{
    let mut commands: Vec<DrawCommand> = Vec::new();
    commands.push(DrawCommand::SetPipeline);
    commands.push(DrawCommand::SetBindGroup { index: 0, group: BindGroup::Texture });
    assert(commands@ =~= plain_bindings());
    record_meshes(&mut commands, meshes, 1);
    commands
}

/// Drawing `n` meshes takes three commands a mesh, and the three of mesh
/// `k` are: bind its vertices at slot 0, bind its indices, and draw all
/// its indices once, from index 0, vertex 0 and instance 0 on, for
/// `instance_count` instances.
pub proof fn lemma_one_draw_a_mesh(meshes: Seq<Mesh>, n: int, instance_count: u32, k: int)
    requires
        0 <= k < n <= meshes.len(),
        n <= usize::MAX,
    ensures
        meshes_commands(meshes, n, instance_count).len() == 3 * n,
        meshes_commands(meshes, n, instance_count)[3 * k] == (DrawCommand::SetVertexBuffer {
            slot: MESH_SLOT,
            mesh: k as usize,
        }),
        meshes_commands(meshes, n, instance_count)[3 * k + 1] == (DrawCommand::SetIndexBuffer {
            mesh: k as usize,
        }),
        meshes_commands(meshes, n, instance_count)[3 * k + 2] == (DrawCommand::DrawIndexed {
            first_index: 0,
            index_count: meshes[k].num_elements,
            base_vertex: 0,
            first_instance: 0,
            instance_count,
        }),
    decreases n,
{
    lemma_meshes_commands_len(meshes, n - 1, instance_count);
    if k < n - 1 {
        lemma_one_draw_a_mesh(meshes, n - 1, instance_count, k);
    }
}

/// Drawing `n` meshes takes three commands a mesh.
pub proof fn lemma_meshes_commands_len(meshes: Seq<Mesh>, n: int, instance_count: u32)
    requires
        0 <= n,
    ensures
        meshes_commands(meshes, n, instance_count).len() == 3 * n,
    decreases n,
{
    if n > 0 {
        lemma_meshes_commands_len(meshes, n - 1, instance_count);
    }
}

/// Without a matrix a frame asks for exactly one write, the four bytes of
/// the elapsed time at the start of the elapsed-time buffer, and for none
/// into the camera buffer.
pub proof fn lemma_frame_without_camera(elapsed_time: Scalar)
    ensures
        frame_writes(None, elapsed_time).len() == 1,
        frame_writes(None, elapsed_time)[0].buffer == UniformBuffer::ElapsedTime,
        frame_writes(None, elapsed_time)[0].offset == 0,
        frame_writes(None, elapsed_time)[0].data == le_bytes(elapsed_time.bits),
        frame_writes(None, elapsed_time)[0].data.len() == 4,
{
}

/// Two frames with different matrices each ask for one camera write of 64
/// bytes at offset 0, and the two payloads differ.
pub proof fn lemma_frames_tell_cameras_apart(a: Mat4, b: Mat4, ta: Scalar, tb: Scalar)
    requires
        a != b,
    ensures
        frame_writes(Some(a), ta)[0].buffer == UniformBuffer::Camera,
        frame_writes(Some(b), tb)[0].buffer == UniformBuffer::Camera,
        frame_writes(Some(a), ta)[0].offset == 0,
        frame_writes(Some(b), tb)[0].offset == 0,
        frame_writes(Some(a), ta)[0].data.len() == 64,
        frame_writes(Some(b), tb)[0].data.len() == 64,
        frame_writes(Some(a), ta)[0].data == a.bytes(),
        frame_writes(Some(b), tb)[0].data == b.bytes(),
        frame_writes(Some(a), ta)[0].data != frame_writes(Some(b), tb)[0].data,
{
    crate::matrix::lemma_payload_tells_matrices_apart(a, b);
}

} // verus!
