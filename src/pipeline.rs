use vstd::prelude::*;

use crate::binding::{declares, Binding, BindingGroupLayout};
use crate::texture::TextureFormat;
use crate::vertex::{lays_out, VertexFormat, VertexLayout};

verus! {

/// A blend factor.
#[derive(Copy, Clone, PartialEq, Eq, Debug, Structural)]
pub enum BlendFactor {
    One,
    Zero,
    SrcAlpha,
    OneMinusSrcAlpha,
}

/// A blend operation.
#[derive(Copy, Clone, PartialEq, Eq, Debug, Structural)]
pub enum BlendOp {
    Add,
}

/// How a fragment's color combines with the target's: source factor,
/// destination factor, and the operation between them.
#[derive(Copy, Clone, PartialEq, Eq, Debug, Structural)]
pub struct Blending {
    pub src_factor: BlendFactor,
    pub dst_factor: BlendFactor,
    pub operation: BlendOp,
}

impl Blending {
    pub fn new(src_factor: BlendFactor, dst_factor: BlendFactor, operation: BlendOp) -> (b:
        Blending)
        ensures
            b == (Blending { src_factor, dst_factor, operation }),
    {
        Blending { src_factor, dst_factor, operation }
    }

    /// Writes the source color as it is, for opaque compositing.
    pub fn constant() -> (b: Blending)
        ensures
            b == (Blending {
                src_factor: BlendFactor::One,
                dst_factor: BlendFactor::Zero,
                operation: BlendOp::Add,
            }),
    {
        Blending { src_factor: BlendFactor::One, dst_factor: BlendFactor::Zero, operation: BlendOp::Add }
    }
}

impl Default for Blending {
    /// Alpha blending: the source over the destination by the source's alpha.
    fn default() -> (b: Blending)
        ensures
            b == (Blending {
                src_factor: BlendFactor::SrcAlpha,
                dst_factor: BlendFactor::OneMinusSrcAlpha,
                operation: BlendOp::Add,
            }),
    {
        Blending {
            src_factor: BlendFactor::SrcAlpha,
            dst_factor: BlendFactor::OneMinusSrcAlpha,
            operation: BlendOp::Add,
        }
    }
}

/// The slots of one binding set of a pipeline.
#[derive(Copy, Clone)]
pub struct BindingSet<'a>(pub &'a [Binding]);

/// The binding-group layouts of a pipeline, one per set, in set order.
#[derive(Clone, Debug)]
pub struct PipelineLayout {
    pub sets: Vec<BindingGroupLayout>,
}

/// `layout` declares the sets `ss` in order, set `i` at index `i`.
pub open spec fn declares_sets(layout: PipelineLayout, ss: Seq<BindingSet>) -> bool {
    &&& layout.sets@.len() == ss.len()
    &&& forall|i: int|
        0 <= i < ss.len() ==> declares(#[trigger] layout.sets@[i], i as u32, ss[i].0@)
}

impl PipelineLayout {
    /// Declares a layout for each set, numbering the sets by position.
    pub fn new(ss: &[BindingSet]) -> (l: PipelineLayout)
        requires
            ss@.len() <= u32::MAX,
            forall|i: int| 0 <= i < ss@.len() ==> (#[trigger] ss@[i]).0@.len() <= u32::MAX,
        ensures
            declares_sets(l, ss@),
    {
        let mut sets: Vec<BindingGroupLayout> = Vec::new();
        let mut i: usize = 0;
        while i < ss.len()
            invariant
                ss@.len() <= u32::MAX,
                forall|k: int| 0 <= k < ss@.len() ==> (#[trigger] ss@[k]).0@.len() <= u32::MAX,
                0 <= i <= ss@.len(),
                sets@.len() == i,
                forall|j: int| 0 <= j < i ==> declares(#[trigger] sets@[j], j as u32, ss@[j].0@),
            decreases ss@.len() - i,
        {
            let s = ss[i];
            sets.push(BindingGroupLayout::new(i as u32, s.0));
            i = i + 1;
        }
        PipelineLayout { sets }
    }
}

/// Everything a pipeline is made from: vertex attributes, binding sets and
/// the compiled vertex and fragment shaders.
#[derive(Copy, Clone)]
pub struct PipelineDescription<'a> {
    pub vertex_layout: &'a [VertexFormat],
    pub pipeline_layout: &'a [BindingSet<'a>],
    pub vertex_shader: &'static [u8],
    pub fragment_shader: &'static [u8],
}

impl<'a> PipelineDescription<'a> {
    /// The description is within the sizes that layouts can number.
    pub open spec fn wf(self) -> bool {
        &&& self.vertex_layout@.len() <= u32::MAX
        &&& self.pipeline_layout@.len() <= u32::MAX
        &&& forall|i: int|
            0 <= i < self.pipeline_layout@.len() ==> (#[trigger] self.pipeline_layout@[i]).0@.len()
                <= u32::MAX
    }
}

/// How vertices are assembled into primitives.
#[derive(Copy, Clone, PartialEq, Eq, Debug, Structural)]
pub enum PrimitiveTopology {
    /// Each three vertices form a triangle.
    TriangleList,
}

/// Which winding makes a triangle front-facing.
#[derive(Copy, Clone, PartialEq, Eq, Debug, Structural)]
pub enum FrontFace {
    /// Counter-clockwise.
    Ccw,
}

/// Which triangles are discarded by their facing.
#[derive(Copy, Clone, PartialEq, Eq, Debug, Structural)]
pub enum CullMode {
    /// None: both faces are drawn.
    Off,
}

/// The type of the indices of an index buffer.
#[derive(Copy, Clone, PartialEq, Eq, Debug, Structural)]
pub enum IndexFormat {
    /// 16-bit unsigned indices.
    Uint16,
}

/// The fixed-function state a pipeline is created with.
#[derive(Copy, Clone, PartialEq, Eq, Debug, Structural)]
pub struct RenderState {
    pub topology: PrimitiveTopology,
    pub front_face: FrontFace,
    pub cull_mode: CullMode,
    pub index_format: IndexFormat,
    /// The format of the one color target.
    pub target_format: TextureFormat,
    pub sample_count: u32,
    /// Blending of the target's color channels.
    pub color_blend: Blending,
    /// Blending of the target's alpha channel.
    pub alpha_blend: Blending,
}

/// The state of every pipeline: triangle lists wound counter-clockwise, no
/// culling, 16-bit indices, one sample, one color target in the framebuffer
/// format, and `blending` for both its color and its alpha.
pub open spec fn fixed_state(blending: Blending) -> RenderState {
    RenderState {
        topology: PrimitiveTopology::TriangleList,
        front_face: FrontFace::Ccw,
        cull_mode: CullMode::Off,
        index_format: IndexFormat::Uint16,
        target_format: TextureFormat::Bgra8Unorm,
        sample_count: 1,
        color_blend: blending,
        alpha_blend: blending,
    }
}

/// A pipeline: binding-set layouts, vertex layout, and blending, applied to
/// both the color and the alpha channel of the target.
#[derive(Clone, Debug)]
pub struct Pipeline {
    pub layout: PipelineLayout,
    pub vertex_layout: VertexLayout,
    pub blending: Blending,
}

impl Pipeline {
    pub fn new(layout: PipelineLayout, vertex_layout: VertexLayout, blending: Blending) -> (p:
        Pipeline)
        ensures
            p.layout == layout,
            p.vertex_layout == vertex_layout,
            p.blending == blending,
    {
        Pipeline { layout, vertex_layout, blending }
    }

    /// Lays out a description's sets and vertex attributes.
    pub fn from_description(desc: &PipelineDescription, blending: Blending) -> (p: Pipeline)
        requires
            desc.wf(),
        ensures
            declares_sets(p.layout, desc.pipeline_layout@),
            lays_out(p.vertex_layout, desc.vertex_layout@),
            p.blending == blending,
            p.spec_render_state() == fixed_state(blending),
    {
        let layout = PipelineLayout::new(desc.pipeline_layout);
        let vertex_layout = VertexLayout::from(desc.vertex_layout);
        Pipeline::new(layout, vertex_layout, blending)
    }

    /// The fixed-function state that the pipeline is created with.
    pub open spec fn spec_render_state(&self) -> RenderState {
        fixed_state(self.blending)
    }

    /// The fixed-function state that the pipeline is created with.
    pub fn render_state(&self) -> (s: RenderState)
        ensures
            s == self.spec_render_state(),
            s.color_blend == self.blending && s.alpha_blend == self.blending,
    {
        RenderState {
            topology: PrimitiveTopology::TriangleList,
            front_face: FrontFace::Ccw,
            cull_mode: CullMode::Off,
            index_format: IndexFormat::Uint16,
            target_format: TextureFormat::Bgra8Unorm,
            sample_count: 1,
            color_blend: self.blending,
            alpha_blend: self.blending,
        }
    }
}

} // verus!
