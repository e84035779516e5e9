//! Handles of GPU resources and the commands recorded on a render pass.

use std::ops::Range;
use vstd::prelude::*;

verus! {

/// Names a GPU buffer held by the owner of the device.
#[derive(Clone, Copy, Debug, PartialEq, Eq, Hash, Structural)]
pub struct BufferId(pub u64);

/// Names a bind group: a set of resources bound together at one slot.
#[derive(Clone, Copy, Debug, PartialEq, Eq, Hash, Structural)]
pub struct BindGroupId(pub u64);

/// Names a bind-group layout.
#[derive(Clone, Copy, Debug, PartialEq, Eq, Hash, Structural)]
pub struct BindGroupLayoutId(pub u64);

/// Width of the indices in an index buffer.
#[derive(Clone, Copy, Debug, PartialEq, Eq, Hash, Structural)]
pub enum IndexFormat {
    Uint16,
    Uint32,
}

/// What a buffer may be used for.
#[derive(Clone, Copy, Debug, PartialEq, Eq, Hash, Structural)]
pub struct BufferUsages {
    /// Source of vertex data.
    pub vertex: bool,
    /// Source of index data.
    pub index: bool,
    /// Bound as a uniform buffer.
    pub uniform: bool,
    /// Target of copies and of writes from the CPU.
    pub copy_dst: bool,
}

/// Format of the texels of a render target.
#[derive(Clone, Copy, Debug, PartialEq, Eq, Hash, Structural)]
pub enum TextureFormat {
    Rgba8Unorm,
    Rgba8UnormSrgb,
    Bgra8Unorm,
    Bgra8UnormSrgb,
    Rgb10a2Unorm,
    Rgba16Float,
    Depth32Float,
    /// A format that has no name here: the one at position `index` among the
    /// formats that were offered, and whether it is an sRGB format.
    Other { index: u32, srgb: bool },
}

impl TextureFormat {
    /// The format stores colour in the sRGB transfer curve.
    pub open spec fn spec_is_srgb(self) -> bool {
        match self {
            TextureFormat::Rgba8UnormSrgb | TextureFormat::Bgra8UnormSrgb => true,
            TextureFormat::Other { srgb, .. } => srgb,
            _ => false,
        }
    }

    #[verifier::when_used_as_spec(spec_is_srgb)]
    pub fn is_srgb(self) -> (srgb: bool)
        ensures
            srgb == self.spec_is_srgb(),
    {
        match self {
            TextureFormat::Rgba8UnormSrgb | TextureFormat::Bgra8UnormSrgb => true,
            TextureFormat::Other { srgb, .. } => srgb,
            _ => false,
        }
    }
}

/// A half-open range `start..end` of indices or of instances, kept as a plain
/// pair so that a recorded command can be copied and compared.
#[derive(Clone, Copy, Debug, PartialEq, Eq, Hash, Structural)]
pub struct Span {
    pub start: u32,
    pub end: u32,
}

impl Span {
    /// The span that covers exactly `range`.
    pub open spec fn of(range: Range<u32>) -> Span {
        Span { start: range.start, end: range.end }
    }

    /// Number of items in the span; an inverted span holds none.
    pub open spec fn len(self) -> nat {
        if self.start < self.end {
            (self.end - self.start) as nat
        } else {
            0
        }
    }
}

/// One state change or draw call of a render pass.
#[derive(Clone, Copy, Debug, PartialEq, Eq, Hash, Structural)]
pub enum RenderCommand {
    /// Bind the pipeline registered under this handle.
    SetPipeline { pipeline: usize },
    /// Bind the whole of `buffer` at vertex slot `slot`.
    SetVertexBuffer { slot: u32, buffer: BufferId },
    /// Bind the whole of `buffer` as the index buffer.
    SetIndexBuffer { buffer: BufferId, format: IndexFormat },
    /// Bind `group` at bind-group slot `index`, without dynamic offsets.
    SetBindGroup { index: u32, group: BindGroupId },
    /// Draw the indices in `indices` once for each instance in `instances`.
    DrawIndexed { indices: Span, base_vertex: i32, instances: Span },
}

impl RenderCommand {
    /// Number of instances the command draws.
    pub open spec fn instances_drawn(self) -> nat {
        match self {
            RenderCommand::DrawIndexed { instances, .. } => instances.len(),
            _ => 0,
        }
    }
}

/// The commands recorded on one render pass, oldest first.
pub struct RenderPass {
    commands: Vec<RenderCommand>,
}

impl View for RenderPass {
    type V = Seq<RenderCommand>;

    closed spec fn view(&self) -> Seq<RenderCommand> {
        self.commands@
    }
}

impl RenderPass {
    /// A pass with nothing recorded yet.
    pub fn new() -> (pass: RenderPass)
        ensures
            pass@ == Seq::<RenderCommand>::empty(),
    {
        RenderPass { commands: Vec::new() }
    }

    pub fn set_pipeline(&mut self, pipeline: usize)
        ensures
            final(self)@ == old(self)@.push(RenderCommand::SetPipeline { pipeline }),
    {
        self.commands.push(RenderCommand::SetPipeline { pipeline });
    }

    pub fn set_vertex_buffer(&mut self, slot: u32, buffer: BufferId)
        ensures
            final(self)@ == old(self)@.push(RenderCommand::SetVertexBuffer { slot, buffer }),
    {
        self.commands.push(RenderCommand::SetVertexBuffer { slot, buffer });
    }

    pub fn set_index_buffer(&mut self, buffer: BufferId, format: IndexFormat)
        ensures
            final(self)@ == old(self)@.push(RenderCommand::SetIndexBuffer { buffer, format }),
    {
        self.commands.push(RenderCommand::SetIndexBuffer { buffer, format });
    }

    pub fn set_bind_group(&mut self, index: u32, group: BindGroupId)
        ensures
            final(self)@ == old(self)@.push(RenderCommand::SetBindGroup { index, group }),
    {
        self.commands.push(RenderCommand::SetBindGroup { index, group });
    }

    pub fn draw_indexed(&mut self, indices: Range<u32>, base_vertex: i32, instances: Range<u32>)
        ensures
            final(self)@ == old(self)@.push(
                RenderCommand::DrawIndexed {
                    indices: Span::of(indices),
                    base_vertex,
                    instances: Span::of(instances),
                },
            ),
    {
        self.commands.push(
            RenderCommand::DrawIndexed {
                indices: Span { start: indices.start, end: indices.end },
                base_vertex,
                instances: Span { start: instances.start, end: instances.end },
            },
        );
    }

    /// The recorded commands, oldest first.
    pub fn commands(&self) -> (commands: &Vec<RenderCommand>)
        ensures
            commands@ == self@,
    {
        &self.commands
    }

    /// Ends the pass and hands over what was recorded.
    pub fn finish(self) -> (commands: Vec<RenderCommand>)
        ensures
            commands@ == self@,
    {
        self.commands
    }
}

/// Number of instances that the draw calls among `commands` draw in all.
pub open spec fn instances_drawn(commands: Seq<RenderCommand>) -> nat
    decreases commands.len(),
{
    if commands.len() == 0 {
        0
    } else {
        instances_drawn(commands.drop_last()) + commands.last().instances_drawn()
    }
}

/// Number of times `commands` bind a pipeline.
pub open spec fn pipeline_binds(commands: Seq<RenderCommand>) -> nat
    decreases commands.len(),
{
    if commands.len() == 0 {
        0
    } else {
        pipeline_binds(commands.drop_last()) + if commands.last() is SetPipeline {
            1nat
        } else {
            0nat
        }
    }
}

/// What one list of commands after another draws and binds is the sum of what
/// each does.
pub proof fn lemma_counts_add(first: Seq<RenderCommand>, second: Seq<RenderCommand>)
    ensures
        instances_drawn(first + second) == instances_drawn(first) + instances_drawn(second),
        pipeline_binds(first + second) == pipeline_binds(first) + pipeline_binds(second),
    decreases second.len(),
{
    if second.len() > 0 {
        lemma_counts_add(first, second.drop_last());
        assert((first + second).drop_last() == first + second.drop_last());
    }
}

/// Every pipeline that `commands` bind has a handle below `count`.
pub open spec fn pipelines_below(commands: Seq<RenderCommand>, count: nat) -> bool {
    forall|k: int|
        0 <= k < commands.len() ==> (#[trigger] commands[k] matches RenderCommand::SetPipeline {
            pipeline,
        } ==> pipeline < count)
}

/// Commands that bind no pipeline bind no pipeline out of range.
pub proof fn lemma_no_binds_below(commands: Seq<RenderCommand>, count: nat)
    requires
        pipeline_binds(commands) == 0,
    ensures
        pipelines_below(commands, count),
    decreases commands.len(),
{
    if commands.len() > 0 {
        lemma_no_binds_below(commands.drop_last(), count);
        assert forall|k: int| 0 <= k < commands.len() implies (#[trigger] commands[k] matches RenderCommand::SetPipeline {
            pipeline,
        } ==> pipeline < count) by {
            if k < commands.len() - 1 {
                assert(commands[k] == commands.drop_last()[k]);
            }
        }
    }
}

} // verus!
