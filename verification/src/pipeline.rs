//! The renderer's state across frames and the plan of one frame.
use crate::buffer::{grown, Buffer, BufferUsage};
use crate::descriptor::{
    descriptor_of, samples_of, Blend, BlendFactor, BlendOperation, CullMode, FrontFace,
    IndexFormat, PipelineDescriptor, Topology, VertexAttribute, VertexFormat,
};
use crate::mesh::{
    checked_totals, frame_fits, indices_before, lemma_cursors_monotone, total_indices,
    total_vertices, vertices_before, Mesh, COLOR_OFFSET, INDEX_STRIDE, VERTEX_STRIDE,
};
use crate::uniforms::{uniform_offset, UNIFORM_STRIDE};
use vstd::prelude::*;

verus! {

/// The uniform records that the pipeline starts out with room for.
pub const UNIFORM_BUFFER_SIZE: usize = 50;

/// The vertices that the pipeline starts out with room for.
pub const VERTEX_BUFFER_SIZE: usize = 10_000;

/// The indices that the pipeline starts out with room for.
pub const INDEX_BUFFER_SIZE: usize = 10_000;

/// How many samples per pixel the meshes are drawn with.
#[derive(Clone, Copy, Debug, PartialEq, Eq, Structural)]
pub enum Antialiasing {
    MSAAx2,
    MSAAx4,
    MSAAx8,
    MSAAx16,
}

impl Antialiasing {
    pub open spec fn samples(self) -> u32 {
        match self {
            Antialiasing::MSAAx2 => 2,
            Antialiasing::MSAAx4 => 4,
            Antialiasing::MSAAx8 => 8,
            Antialiasing::MSAAx16 => 16,
        }
    }

    /// The samples per pixel.
    pub fn sample_count(self) -> (count: u32)
        ensures
            count == self.samples(),
            count > 1,
    {
        match self {
            Antialiasing::MSAAx2 => 2,
            Antialiasing::MSAAx4 => 4,
            Antialiasing::MSAAx8 => 8,
            Antialiasing::MSAAx16 => 16,
        }
    }
}

/// The writes that bring one mesh into the shared buffers: its vertex bytes
/// at `vertex_offset` of the vertex buffer, its index bytes at `index_offset`
/// of the index buffer. Offsets and lengths are in bytes.
#[derive(Clone, Copy, Debug, PartialEq, Eq, Structural)]
pub struct Upload {
    pub mesh: usize,
    pub vertex_offset: u64,
    pub vertex_len: u64,
    pub index_offset: u64,
    pub index_len: u64,
}

/// One scissored, indexed draw: clip to the bounds of mesh `mesh`, bind the
/// uniform buffer at `uniform_offset` bytes, bind the shared index and vertex
/// buffers from their start, and draw the indices `first_index..end_index`
/// with `base_vertex` added to each.
#[derive(Clone, Copy, Debug, PartialEq, Eq, Structural)]
pub struct DrawCall {
    pub mesh: usize,
    pub uniform_offset: u32,
    pub first_index: u32,
    pub end_index: u32,
    pub base_vertex: i32,
}

/// What the one render pass of a frame draws into.
#[derive(Clone, Copy, Debug, PartialEq, Eq, Structural)]
pub enum PassTarget {
    /// The frame's own target; what is already in it is kept.
    Direct,
    /// The multisampled attachment, cleared to transparent, which is resolved
    /// into the frame's target afterwards.
    Multisampled,
}

/// Everything a backend does for one frame, in the order of the fields.
///
/// First the buffers that grew are allocated anew, with the given byte sizes,
/// and the uniform binding is built again where `rebind_uniforms` says so.
/// Then come the uploads, then the packed uniform records are written at byte
/// 0 of the uniform buffer (`uniform_len` bytes; nothing where it is 0). Then
/// one render pass is begun on `target`, the pipeline is set once, and the
/// draws are issued in order. Last, with `resolve`, the multisampled
/// attachment is resolved into the frame's target.
#[derive(Debug)]
pub struct FramePlan {
    pub vertex_allocation: Option<u64>,
    pub index_allocation: Option<u64>,
    pub uniform_allocation: Option<u64>,
    pub rebind_uniforms: bool,
    pub uploads: Vec<Upload>,
    pub uniform_len: u64,
    pub target: PassTarget,
    pub draws: Vec<DrawCall>,
    pub resolve: bool,
}

/// The renderer's state that outlives a frame: the three shared buffers and
/// whether drawing is multisampled.
#[derive(Clone, Copy, Debug)]
pub struct Pipeline {
    antialiasing: Option<Antialiasing>,
    uniforms_buffer: Buffer,
    vertex_buffer: Buffer,
    index_buffer: Buffer,
}

/// The allocation to make for a buffer that is asked to hold `requested`
/// elements of `stride` bytes: none where it is large enough already.
pub open spec fn allocation(capacity: usize, requested: nat, stride: nat) -> Option<u64> {
    if capacity < requested {
        Some((stride * requested) as u64)
    } else {
        None
    }
}

/// The writes for mesh `i` of the frame.
pub open spec fn upload_of(meshes: Seq<Mesh>, i: int) -> Upload {
    Upload {
        mesh: i as usize,
        vertex_offset: (VERTEX_STRIDE * vertices_before(meshes, i)) as u64,
        vertex_len: (VERTEX_STRIDE * meshes[i].vertex_count) as u64,
        index_offset: (INDEX_STRIDE * indices_before(meshes, i)) as u64,
        index_len: (INDEX_STRIDE * meshes[i].indices@.len()) as u64,
    }
}

/// The writes for the first `n` meshes: one for each mesh that has
/// something to upload, in the order of the meshes.
pub open spec fn uploads_before(meshes: Seq<Mesh>, n: int) -> Seq<Upload>
    decreases n,
{
    if n <= 0 {
        Seq::empty()
    } else if meshes[n - 1].is_degenerate() {
        uploads_before(meshes, n - 1)
    } else {
        uploads_before(meshes, n - 1).push(upload_of(meshes, n - 1))
    }
}

/// The draw call for mesh `i` of the frame.
pub open spec fn draw_of(meshes: Seq<Mesh>, i: int) -> DrawCall {
    DrawCall {
        mesh: i as usize,
        uniform_offset: uniform_offset(i as nat) as u32,
        first_index: indices_before(meshes, i) as u32,
        end_index: indices_before(meshes, i + 1) as u32,
        base_vertex: vertices_before(meshes, i) as i32,
    }
}

/// The uniform binding is built again exactly when the uniform buffer is
/// replaced, which is exactly when the frame has more meshes than the buffer
/// had room for. The plan puts both before the render pass, so no draw call
/// refers to the buffer that was dropped.
pub proof fn lemma_rebind_on_grow(pipeline: Pipeline, meshes: Seq<Mesh>, plan: FramePlan)
    requires
        pipeline.plans(meshes, plan),
    ensures
        plan.rebind_uniforms == (pipeline.uniforms_buffer().size() < meshes.len()),
        plan.rebind_uniforms == plan.uniform_allocation.is_some(),
        plan.rebind_uniforms == (grown(pipeline.uniforms_buffer().size() as nat, meshes.len())
            != pipeline.uniforms_buffer().size()),
{
}

/// A frame has one draw call for each mesh, in the order of the meshes,
/// whether or not the mesh has anything to draw. Draw call `i` clips to mesh
/// `i`, reads the uniform record `i`, and draws as many indices as mesh `i`
/// has, starting where the indices of the mesh before it ended.
pub proof fn lemma_draw_correspondence(
    pipeline: Pipeline,
    meshes: Seq<Mesh>,
    plan: FramePlan,
    i: int,
)
    requires
        pipeline.plans(meshes, plan),
        frame_fits(meshes),
        0 <= i < meshes.len(),
    ensures
        plan.draws@.len() == meshes.len(),
        plan.draws@[i].mesh == i,
        plan.draws@[i].uniform_offset == i * UNIFORM_STRIDE,
        plan.draws@[i].uniform_offset % 256 == 0,
        plan.draws@[i].base_vertex == vertices_before(meshes, i),
        plan.draws@[i].first_index == indices_before(meshes, i),
        plan.draws@[i].end_index == plan.draws@[i].first_index + meshes[i].indices@.len(),
        i == 0 ==> plan.draws@[i].first_index == 0 && plan.draws@[i].base_vertex == 0,
        i > 0 ==> plan.draws@[i].first_index == plan.draws@[i - 1].end_index,
        i == meshes.len() - 1 ==> plan.draws@[i].end_index == total_indices(meshes),
{
    lemma_cursors_monotone(meshes, i + 1, meshes.len() as int);
    lemma_cursors_monotone(meshes, i, i + 1);
    assert(plan.draws@[i] == draw_of(meshes, i));
    assert(uniform_offset(i as nat) == i * 256 && i * 256 <= u32::MAX) by (nonlinear_arith)
        requires
            uniform_offset(i as nat) == (i as nat) * 256,
            0 <= i < 0x100_0000,
    ;
    if i > 0 {
        assert(plan.draws@[i - 1] == draw_of(meshes, i - 1));
    }
}

/// The uploads of a frame are exactly those of its meshes that have
/// something to upload, in the order of the meshes: each upload is the one of
/// the mesh that it names, that mesh is not degenerate, and a later upload
/// names a later mesh. So there are at most as many as there are meshes.
pub proof fn lemma_uploads_ordered(meshes: Seq<Mesh>, n: int)
    requires
        0 <= n <= meshes.len(),
        meshes.len() <= usize::MAX,
    ensures
        uploads_before(meshes, n).len() <= n,
        forall|k: int|
            0 <= k < uploads_before(meshes, n).len() ==> {
                let upload = #[trigger] uploads_before(meshes, n)[k];
                &&& upload.mesh < n
                &&& !meshes[upload.mesh as int].is_degenerate()
                &&& upload == upload_of(meshes, upload.mesh as int)
            },
        forall|k: int, l: int|
            0 <= k < l < uploads_before(meshes, n).len() ==> (#[trigger] uploads_before(
                meshes,
                n,
            )[k]).mesh < (#[trigger] uploads_before(meshes, n)[l]).mesh,
        forall|i: int|
            0 <= i < n && !(#[trigger] meshes[i]).is_degenerate() ==> uploads_before(
                meshes,
                n,
            ).contains(upload_of(meshes, i)),
    decreases n,
{
    if n > 0 {
        lemma_uploads_ordered(meshes, n - 1);
        let before = uploads_before(meshes, n - 1);
        let uploads = uploads_before(meshes, n);
        assert forall|i: int| 0 <= i < n && !(#[trigger] meshes[i]).is_degenerate() implies uploads.contains(
            upload_of(meshes, i),
        ) by {
            if i < n - 1 {
                let k = choose|k: int| 0 <= k < before.len() && before[k] == upload_of(meshes, i);
                assert(uploads[k] == upload_of(meshes, i));
            } else {
                assert(uploads[uploads.len() - 1] == upload_of(meshes, i));
            }
        }
        assert forall|k: int| 0 <= k < uploads.len() implies {
            let upload = #[trigger] uploads[k];
            &&& upload.mesh < n
            &&& !meshes[upload.mesh as int].is_degenerate()
            &&& upload == upload_of(meshes, upload.mesh as int)
        } by {
            if k < before.len() {
                assert(uploads[k] == before[k]);
            }
        }
        assert forall|k: int, l: int| 0 <= k < l < uploads.len() implies (#[trigger] uploads[k]).mesh
            < (#[trigger] uploads[l]).mesh by {
            assert(uploads[k] == before[k]);
            if l < before.len() {
                assert(uploads[l] == before[l]);
            }
        }
    }
}

/// Once the buffers have grown for a frame, everything that the frame's plan
/// writes and draws lies within them: the totals fit the capacities, every
/// upload ends within its buffer, two uploads never overlap, the uniform
/// records fit the uniform buffer together, and every draw call reads a
/// uniform record and a range of indices that the buffers hold.
pub proof fn lemma_frame_within_buffers(
    before: Pipeline,
    after: Pipeline,
    meshes: Seq<Mesh>,
    plan: FramePlan,
)
    requires
        before.wf(),
        frame_fits(meshes),
        before.plans(meshes, plan),
        before.grows_to(meshes, after),
    ensures
        before.vertex_buffer().size() <= after.vertex_buffer().size(),
        before.index_buffer().size() <= after.index_buffer().size(),
        before.uniforms_buffer().size() <= after.uniforms_buffer().size(),
        total_vertices(meshes) <= after.vertex_buffer().size(),
        total_indices(meshes) <= after.index_buffer().size(),
        meshes.len() <= after.uniforms_buffer().size(),
        plan.uniform_len <= after.uniforms_buffer().byte_len(),
        forall|i: int|
            0 <= i < meshes.len() ==> {
                let draw = #[trigger] plan.draws@[i];
                &&& draw.first_index <= draw.end_index <= after.index_buffer().size()
                &&& draw.uniform_offset + UNIFORM_STRIDE <= after.uniforms_buffer().byte_len()
                &&& draw.uniform_offset + UNIFORM_STRIDE <= plan.uniform_len
            },
        forall|k: int|
            0 <= k < plan.uploads@.len() ==> {
                let upload = #[trigger] plan.uploads@[k];
                &&& upload.vertex_len > 0
                &&& upload.index_len > 0
                &&& upload.vertex_offset + upload.vertex_len <= after.vertex_buffer().byte_len()
                &&& upload.index_offset + upload.index_len <= after.index_buffer().byte_len()
            },
        forall|k: int, l: int|
            0 <= k < l < plan.uploads@.len() ==> {
                let first = #[trigger] plan.uploads@[k];
                let second = #[trigger] plan.uploads@[l];
                &&& first.vertex_offset + first.vertex_len <= second.vertex_offset
                &&& first.index_offset + first.index_len <= second.index_offset
            },
{
    let n = meshes.len() as int;
    let vertex_capacity = after.vertex_buffer().size() as int;
    let index_capacity = after.index_buffer().size() as int;
    let uniform_capacity = after.uniforms_buffer().size() as int;
    assert(after.vertex_buffer().byte_len() == 24 * vertex_capacity) by (nonlinear_arith)
        requires
            after.vertex_buffer().byte_len() == after.vertex_buffer().stride()
                * after.vertex_buffer().size(),
            after.vertex_buffer().stride() == 24,
            vertex_capacity == after.vertex_buffer().size(),
    ;
    assert(after.index_buffer().byte_len() == 4 * index_capacity) by (nonlinear_arith)
        requires
            after.index_buffer().byte_len() == after.index_buffer().stride()
                * after.index_buffer().size(),
            after.index_buffer().stride() == 4,
            index_capacity == after.index_buffer().size(),
    ;
    assert(after.uniforms_buffer().byte_len() == 256 * uniform_capacity) by (nonlinear_arith)
        requires
            after.uniforms_buffer().byte_len() == after.uniforms_buffer().stride()
                * after.uniforms_buffer().size(),
            after.uniforms_buffer().stride() == 256,
            uniform_capacity == after.uniforms_buffer().size(),
    ;
    assert(uniform_offset(meshes.len()) == 256 * n) by (nonlinear_arith)
        requires
            uniform_offset(meshes.len()) == meshes.len() * 256,
            n == meshes.len(),
    ;
    assert forall|i: int| 0 <= i < meshes.len() implies {
        let draw = #[trigger] plan.draws@[i];
        &&& draw.first_index <= draw.end_index <= after.index_buffer().size()
        &&& draw.uniform_offset + UNIFORM_STRIDE <= after.uniforms_buffer().byte_len()
        &&& draw.uniform_offset + UNIFORM_STRIDE <= plan.uniform_len
    } by {
        lemma_draw_correspondence(before, meshes, plan, i);
        lemma_cursors_monotone(meshes, i + 1, n);
        assert(plan.draws@[i].uniform_offset == 256 * i) by (nonlinear_arith)
            requires
                plan.draws@[i].uniform_offset == i * UNIFORM_STRIDE,
                UNIFORM_STRIDE == 256,
        ;
    }
    lemma_uploads_ordered(meshes, n);
    assert forall|k: int| 0 <= k < plan.uploads@.len() implies {
        let upload = #[trigger] plan.uploads@[k];
        &&& upload.vertex_len > 0
        &&& upload.index_len > 0
        &&& upload.vertex_offset + upload.vertex_len <= after.vertex_buffer().byte_len()
        &&& upload.index_offset + upload.index_len <= after.index_buffer().byte_len()
    } by {
        let i = plan.uploads@[k].mesh as int;
        lemma_upload_extent(meshes, i);
    }
    assert forall|k: int, l: int| 0 <= k < l < plan.uploads@.len() implies {
        let first = #[trigger] plan.uploads@[k];
        let second = #[trigger] plan.uploads@[l];
        &&& first.vertex_offset + first.vertex_len <= second.vertex_offset
        &&& first.index_offset + first.index_len <= second.index_offset
    } by {
        let i = plan.uploads@[k].mesh as int;
        let j = plan.uploads@[l].mesh as int;
        lemma_upload_extent(meshes, i);
        lemma_upload_extent(meshes, j);
        lemma_cursors_monotone(meshes, i + 1, j);
    }
}

/// The writes for mesh `i` cover, in bytes, exactly the elements between the
/// cursors before and after the mesh.
pub proof fn lemma_upload_extent(meshes: Seq<Mesh>, i: int)
    requires
        frame_fits(meshes),
        0 <= i < meshes.len(),
    ensures
        upload_of(meshes, i).vertex_offset == VERTEX_STRIDE * vertices_before(meshes, i),
        upload_of(meshes, i).vertex_len == VERTEX_STRIDE * meshes[i].vertex_count,
        upload_of(meshes, i).vertex_offset + upload_of(meshes, i).vertex_len == VERTEX_STRIDE
            * vertices_before(meshes, i + 1),
        upload_of(meshes, i).index_offset == INDEX_STRIDE * indices_before(meshes, i),
        upload_of(meshes, i).index_len == INDEX_STRIDE * meshes[i].indices@.len(),
        upload_of(meshes, i).index_offset + upload_of(meshes, i).index_len == INDEX_STRIDE
            * indices_before(meshes, i + 1),
        vertices_before(meshes, i + 1) <= total_vertices(meshes),
        indices_before(meshes, i + 1) <= total_indices(meshes),
{
    lemma_cursors_monotone(meshes, i + 1, meshes.len() as int);
    lemma_cursors_monotone(meshes, i, i + 1);
}

impl Pipeline {
    pub closed spec fn spec_antialiasing(&self) -> Option<Antialiasing> {
        self.antialiasing
    }

    pub closed spec fn spec_uniforms_buffer(&self) -> Buffer {
        self.uniforms_buffer
    }

    pub closed spec fn spec_vertex_buffer(&self) -> Buffer {
        self.vertex_buffer
    }

    pub closed spec fn spec_index_buffer(&self) -> Buffer {
        self.index_buffer
    }

    /// Each buffer has the element size and the use that belongs to it.
    pub open spec fn wf(&self) -> bool {
        &&& self.uniforms_buffer().wf()
        &&& self.uniforms_buffer().stride() == UNIFORM_STRIDE
        &&& self.uniforms_buffer().usage() == BufferUsage::Uniform
        &&& self.vertex_buffer().wf()
        &&& self.vertex_buffer().stride() == VERTEX_STRIDE
        &&& self.vertex_buffer().usage() == BufferUsage::Vertex
        &&& self.index_buffer().wf()
        &&& self.index_buffer().stride() == INDEX_STRIDE
        &&& self.index_buffer().usage() == BufferUsage::Index
    }

    /// `plan` is the plan of a frame of `meshes` for a pipeline in this
    /// state.
    pub open spec fn plans(&self, meshes: Seq<Mesh>, plan: FramePlan) -> bool {
        &&& plan.vertex_allocation == allocation(
            self.vertex_buffer().size(),
            total_vertices(meshes),
            VERTEX_STRIDE as nat,
        )
        &&& plan.index_allocation == allocation(
            self.index_buffer().size(),
            total_indices(meshes),
            INDEX_STRIDE as nat,
        )
        &&& plan.uniform_allocation == allocation(
            self.uniforms_buffer().size(),
            meshes.len(),
            UNIFORM_STRIDE as nat,
        )
        &&& plan.rebind_uniforms == (self.uniforms_buffer().size() < meshes.len())
        &&& plan.uploads@ == uploads_before(meshes, meshes.len() as int)
        &&& plan.uniform_len == uniform_offset(meshes.len())
        &&& plan.target == if self.antialiasing().is_some() {
            PassTarget::Multisampled
        } else {
            PassTarget::Direct
        }
        &&& plan.draws@.len() == meshes.len()
        &&& forall|i: int| 0 <= i < meshes.len() ==> #[trigger] plan.draws@[i] == draw_of(meshes, i)
        &&& plan.resolve == self.antialiasing().is_some()
    }

    /// `after` is this pipeline once it has planned a frame of `meshes`: each
    /// buffer has grown to what the frame asks of it, and not beyond.
    pub open spec fn grows_to(&self, meshes: Seq<Mesh>, after: Pipeline) -> bool {
        &&& after.wf()
        &&& after.antialiasing() == self.antialiasing()
        &&& after.vertex_buffer().size() == grown(
            self.vertex_buffer().size() as nat,
            total_vertices(meshes),
        )
        &&& after.index_buffer().size() == grown(
            self.index_buffer().size() as nat,
            total_indices(meshes),
        )
        &&& after.uniforms_buffer().size() == grown(
            self.uniforms_buffer().size() as nat,
            meshes.len(),
        )
    }

    /// A pipeline with buffers of the starting capacities.
    pub fn new(antialiasing: Option<Antialiasing>) -> (pipeline: Pipeline)
        ensures
            pipeline.wf(),
            pipeline.antialiasing() == antialiasing,
            pipeline.uniforms_buffer().size() == UNIFORM_BUFFER_SIZE,
            pipeline.vertex_buffer().size() == VERTEX_BUFFER_SIZE,
            pipeline.index_buffer().size() == INDEX_BUFFER_SIZE,
    {
        Pipeline {
            antialiasing,
            uniforms_buffer: Buffer::new(
                UNIFORM_STRIDE,
                UNIFORM_BUFFER_SIZE,
                BufferUsage::Uniform,
            ),
            vertex_buffer: Buffer::new(VERTEX_STRIDE, VERTEX_BUFFER_SIZE, BufferUsage::Vertex),
            index_buffer: Buffer::new(INDEX_STRIDE, INDEX_BUFFER_SIZE, BufferUsage::Index),
        }
    }

    /// Plans one frame: sizes the three buffers for all meshes together,
    /// places every mesh behind the one before it in the shared vertex and
    /// index buffers, and gives every mesh, in order, one uniform record and
    /// one draw call. A mesh with nothing to upload gets no write, but keeps
    /// its record, its draw call and its place in the buffers.
    pub fn draw(&mut self, meshes: &Vec<Mesh>) -> (plan: FramePlan)
        requires
            old(self).wf(),
            frame_fits(meshes@),
        ensures
            old(self).plans(meshes@, plan),
            old(self).grows_to(meshes@, *final(self)),
    {
        let count = meshes.len();
        let totals = checked_totals(meshes);
        let (total_vertices, total_indices) = totals.unwrap();

        assert(self.uniforms_buffer.stride() * count <= u64::MAX) by (nonlinear_arith)
            requires
                self.uniforms_buffer.stride() == 256,
                count <= 0x100_0000,
        ;
        assert(self.vertex_buffer.stride() * total_vertices <= u64::MAX) by (nonlinear_arith)
            requires
                self.vertex_buffer.stride() == 24,
                total_vertices <= 0x7fff_ffff,
        ;
        assert(self.index_buffer.stride() * total_indices <= u64::MAX) by (nonlinear_arith)
            requires
                self.index_buffer.stride() == 4,
                total_indices <= 0xffff_ffff,
        ;
        let vertices_grew = self.vertex_buffer.expand(total_vertices);
        let indices_grew = self.index_buffer.expand(total_indices);
        let uniforms_grew = self.uniforms_buffer.expand(count);

        let vertex_allocation = if vertices_grew {
            Some(self.vertex_buffer.byte_size())
        } else {
            None
        };
        let index_allocation = if indices_grew {
            Some(self.index_buffer.byte_size())
        } else {
            None
        };
        let uniform_allocation = if uniforms_grew {
            Some(self.uniforms_buffer.byte_size())
        } else {
            None
        };

        let mut uploads: Vec<Upload> = Vec::new();
        let mut draws: Vec<DrawCall> = Vec::new();
        let mut last_vertex: usize = 0;
        let mut last_index: usize = 0;
        let mut i: usize = 0;
        while i < count
            invariant
                count == meshes.len(),
                i <= count,
                frame_fits(meshes@),
                last_vertex == vertices_before(meshes@, i as int),
                last_index == indices_before(meshes@, i as int),
                uploads@ == uploads_before(meshes@, i as int),
                draws@.len() == i,
                forall|k: int| 0 <= k < i ==> #[trigger] draws@[k] == draw_of(meshes@, k),
            decreases count - i,
        {
            let mesh = &meshes[i];
            let vertex_count = mesh.vertex_count;
            let index_count = mesh.indices.len();
            proof {
                lemma_cursors_monotone(meshes@, i + 1, count as int);
                lemma_cursors_monotone(meshes@, i as int, i + 1);
                assert(UNIFORM_STRIDE * i == uniform_offset(i as nat) && UNIFORM_STRIDE * i
                    <= u32::MAX) by (nonlinear_arith)
                    requires
                        UNIFORM_STRIDE == 256,
                        i < 0x100_0000,
                ;
            }
            if vertex_count != 0 && index_count != 0 {
                uploads.push(
                    Upload {
                        mesh: i,
                        vertex_offset: (VERTEX_STRIDE as u64) * (last_vertex as u64),
                        vertex_len: (VERTEX_STRIDE as u64) * (vertex_count as u64),
                        index_offset: (INDEX_STRIDE as u64) * (last_index as u64),
                        index_len: (INDEX_STRIDE as u64) * (index_count as u64),
                    },
                );
            }
            draws.push(
                DrawCall {
                    mesh: i,
                    uniform_offset: (UNIFORM_STRIDE * i) as u32,
                    first_index: last_index as u32,
                    end_index: (last_index + index_count) as u32,
                    base_vertex: last_vertex as i32,
                },
            );
            last_vertex += vertex_count;
            last_index += index_count;
            i += 1;
        }

        assert(UNIFORM_STRIDE * count == uniform_offset(count as nat) && UNIFORM_STRIDE * count
            <= u64::MAX) by (nonlinear_arith)
            requires
                UNIFORM_STRIDE == 256,
                count <= 0x100_0000,
        ;
        let antialiased = self.antialiasing.is_some();
        FramePlan {
            vertex_allocation,
            index_allocation,
            uniform_allocation,
            rebind_uniforms: uniforms_grew,
            uploads,
            uniform_len: (UNIFORM_STRIDE as u64) * (count as u64),
            target: if antialiased {
                PassTarget::Multisampled
            } else {
                PassTarget::Direct
            },
            draws,
            resolve: antialiased,
        }
    }

    /// The fixed state that the device pipeline is built with.
    pub fn descriptor(&self) -> (descriptor: PipelineDescriptor)
        ensures
            descriptor == descriptor_of(self.antialiasing()),
    {
        PipelineDescriptor {
            uniform_binding: 0,
            uniform_binding_size: UNIFORM_STRIDE as u64,
            front_face: FrontFace::Clockwise,
            cull_mode: CullMode::Neither,
            topology: Topology::TriangleList,
            color_blend: Blend {
                src_factor: BlendFactor::SrcAlpha,
                dst_factor: BlendFactor::OneMinusSrcAlpha,
                operation: BlendOperation::Add,
            },
            alpha_blend: Blend {
                src_factor: BlendFactor::One,
                dst_factor: BlendFactor::OneMinusSrcAlpha,
                operation: BlendOperation::Add,
            },
            index_format: IndexFormat::Uint32,
            vertex_stride: VERTEX_STRIDE as u64,
            position: VertexAttribute {
                shader_location: 0,
                format: VertexFormat::Float2,
                offset: 0,
            },
            color: VertexAttribute {
                shader_location: 1,
                format: VertexFormat::Float4,
                offset: COLOR_OFFSET as u64,
            },
            sample_count: self.sample_count(),
            sample_mask: 0xffff_ffff,
            alpha_to_coverage: false,
        }
    }

    /// The samples per pixel that the pipeline draws with: one without
    /// antialiasing.
    pub fn sample_count(&self) -> (count: u32)
        ensures
            count == samples_of(self.antialiasing()),
    {
        match self.antialiasing {
            Some(antialiasing) => antialiasing.sample_count(),
            None => 1,
        }
    }

    #[verifier::when_used_as_spec(spec_antialiasing)]
    pub fn antialiasing(&self) -> (antialiasing: Option<Antialiasing>)
        ensures
            antialiasing == self.antialiasing(),
    {
        self.antialiasing
    }

    #[verifier::when_used_as_spec(spec_uniforms_buffer)]
    pub fn uniforms_buffer(&self) -> (buffer: Buffer)
        ensures
            buffer == self.uniforms_buffer(),
    {
        self.uniforms_buffer
    }

    #[verifier::when_used_as_spec(spec_vertex_buffer)]
    pub fn vertex_buffer(&self) -> (buffer: Buffer)
        ensures
            buffer == self.vertex_buffer(),
    {
        self.vertex_buffer
    }

    #[verifier::when_used_as_spec(spec_index_buffer)]
    pub fn index_buffer(&self) -> (buffer: Buffer)
        ensures
            buffer == self.index_buffer(),
    {
        self.index_buffer
    }
}

} // verus!
