use vstd::prelude::*;

verus! {

/// Full intensity of one channel of a clear color, which is held in
/// thousandths so that it stays exact.
pub const CHANNEL_MAX: u16 = 1000;

/// A color in the normalised channel range, each channel in thousandths
/// (`1000` stands for `1.0`).
#[derive(Clone, Copy, Debug, PartialEq, Eq, Structural)]
pub struct ClearColor {
    pub r: u16,
    pub g: u16,
    pub b: u16,
    pub a: u16,
}

impl ClearColor {
    pub open spec fn wf(self) -> bool {
        self.r <= CHANNEL_MAX && self.g <= CHANNEL_MAX && self.b <= CHANNEL_MAX && self.a
            <= CHANNEL_MAX
    }

    /// The dark blue-grey background behind the triangle:
    /// (0.05, 0.062, 0.08, 1.0).
    pub fn background() -> (r: ClearColor)
        ensures
            r.wf(),
            r.r == 50 && r.g == 62 && r.b == 80 && r.a == 1000,
    {
        ClearColor { r: 50, g: 62, b: 80, a: CHANNEL_MAX }
    }
}

/// How a fragment is combined with what the target already holds.
#[derive(Clone, Copy, Debug, PartialEq, Eq, Structural)]
pub enum BlendMode {
    /// The fragment's value overwrites the target's, color and alpha alike.
    Replace,
    AlphaBlending,
}

/// How vertices are assembled into primitives.
#[derive(Clone, Copy, Debug, PartialEq, Eq, Structural)]
pub enum Topology {
    TriangleList,
    TriangleStrip,
    LineList,
    PointList,
}

/// The entry point of the vertex stage in the shader text.
pub open spec fn vertex_entry_name() -> Seq<char> {
    seq!['v', 's', '_', 'm', 'a', 'i', 'n']
}

/// The entry point of the fragment stage in the shader text.
pub open spec fn fragment_entry_name() -> Seq<char> {
    seq!['f', 's', '_', 'm', 'a', 'i', 'n']
}

/// The one render pipeline: the shader's two stages drawing into a single
/// color target of the surface's format, with no resource bindings, no
/// vertex buffers, no depth or stencil and one sample per pixel.
#[derive(Clone, Copy, Debug)]
pub struct PipelineDesc<F> {
    pub vertex_entry: &'static str,
    pub fragment_entry: &'static str,
    pub color_format: F,
    pub blend: BlendMode,
    pub writes_all_channels: bool,
    pub topology: Topology,
    pub vertex_buffers: usize,
    pub bind_group_layouts: usize,
    pub push_constant_ranges: usize,
    pub depth_stencil: bool,
    pub sample_count: u32,
}

impl<F: Copy> PipelineDesc<F> {
    /// What every pipeline of this program is, for a given target format.
    pub open spec fn describes(self, format: F) -> bool {
        &&& self.vertex_entry@ == vertex_entry_name()
        &&& self.fragment_entry@ == fragment_entry_name()
        &&& self.color_format == format
        &&& self.blend == BlendMode::Replace
        &&& self.writes_all_channels
        &&& self.topology == Topology::TriangleList
        &&& self.vertex_buffers == 0
        &&& self.bind_group_layouts == 0
        &&& self.push_constant_ranges == 0
        &&& !self.depth_stencil
        &&& self.sample_count == 1
    }
}

/// The pipeline that draws into images of the given format.
pub fn triangle_pipeline<F: Copy>(format: F) -> (r: PipelineDesc<F>)
    ensures
        r.describes(format),
{
    let vertex_entry = "vs_main";
    let fragment_entry = "fs_main";
    proof {
        reveal_strlit("vs_main");
        reveal_strlit("fs_main");
    }
    assert(vertex_entry@ =~= vertex_entry_name());
    assert(fragment_entry@ =~= fragment_entry_name());
    PipelineDesc {
        vertex_entry,
        fragment_entry,
        color_format: format,
        blend: BlendMode::Replace,
        writes_all_channels: true,
        topology: Topology::TriangleList,
        vertex_buffers: 0,
        bind_group_layouts: 0,
        push_constant_ranges: 0,
        depth_stencil: false,
        sample_count: 1,
    }
}

/// One render pass over one acquired frame: clear the whole image to
/// `clear`, bind `pipeline`, draw the vertices `first_vertex ..
/// first_vertex + vertex_count` for `instance_count` instances, submit, and
/// present the frame.
#[derive(Clone, Copy, Debug)]
pub struct RenderPass<F> {
    pub clear: ClearColor,
    pub pipeline: PipelineDesc<F>,
    pub first_vertex: u32,
    pub vertex_count: u32,
    pub instance_count: u32,
}

impl<F: Copy> RenderPass<F> {
    /// The single triangle: three vertices, whose positions the vertex stage
    /// derives from their indices, in one instance.
    pub open spec fn draws_triangle(self, pipeline: PipelineDesc<F>, clear: ClearColor) -> bool {
        &&& self.clear == clear
        &&& self.pipeline == pipeline
        &&& self.first_vertex == 0
        &&& self.vertex_count == 3
        &&& self.instance_count == 1
    }
}

pub fn triangle_pass<F: Copy>(pipeline: PipelineDesc<F>, clear: ClearColor) -> (r: RenderPass<F>)
    ensures
        r.draws_triangle(pipeline, clear),
{
    RenderPass { clear, pipeline, first_vertex: 0, vertex_count: 3, instance_count: 1 }
}

} // verus!
