//! What is bound while a render pass is replayed. A pass starts with nothing
//! bound, and every draw call uses what the commands before it bound.

use crate::gpu::{BindGroupId, BufferId, RenderCommand};
use vstd::prelude::*;

verus! {

/// The pipeline, buffers and bind groups bound at one point of a pass.
pub struct Bound {
    pub pipeline: Option<usize>,
    pub index_buffer: Option<BufferId>,
    /// The vertex buffer at each slot that has one.
    pub vertex_buffers: Map<u32, BufferId>,
    /// The bind group at each slot that has one.
    pub bind_groups: Map<u32, BindGroupId>,
}

impl Bound {
    /// The start of a pass: nothing is bound.
    pub open spec fn nothing() -> Bound {
        Bound {
            pipeline: None,
            index_buffer: None,
            vertex_buffers: Map::empty(),
            bind_groups: Map::empty(),
        }
    }

    /// What is bound after `command`.
    pub open spec fn after(self, command: RenderCommand) -> Bound {
        match command {
            RenderCommand::SetPipeline { pipeline } => Bound { pipeline: Some(pipeline), ..self },
            RenderCommand::SetVertexBuffer { slot, buffer } => Bound {
                vertex_buffers: self.vertex_buffers.insert(slot, buffer),
                ..self
            },
            RenderCommand::SetIndexBuffer { buffer, .. } => Bound {
                index_buffer: Some(buffer),
                ..self
            },
            RenderCommand::SetBindGroup { index, group } => Bound {
                bind_groups: self.bind_groups.insert(index, group),
                ..self
            },
            RenderCommand::DrawIndexed { .. } => self,
        }
    }

    /// What is bound after `commands`, taken in order.
    pub open spec fn after_all(self, commands: Seq<RenderCommand>) -> Bound
        decreases commands.len(),
    {
        if commands.len() == 0 {
            self
        } else {
            self.after_all(commands.drop_last()).after(commands.last())
        }
    }

    /// `buffer` is bound at vertex slot `slot`.
    pub open spec fn has_vertex_buffer(self, slot: u32, buffer: BufferId) -> bool {
        self.vertex_buffers.contains_key(slot) && self.vertex_buffers[slot] == buffer
    }

    /// `group` is bound at bind-group slot `index`.
    pub open spec fn has_bind_group(self, index: u32, group: BindGroupId) -> bool {
        self.bind_groups.contains_key(index) && self.bind_groups[index] == group
    }
}

/// Every draw call among `commands`, replayed from `start`, finds bound what
/// `holds` asks for.
pub open spec fn each_draw(
    start: Bound,
    commands: Seq<RenderCommand>,
    holds: spec_fn(Bound) -> bool,
) -> bool {
    forall|k: int|
        0 <= k < commands.len() && #[trigger] commands[k] is DrawIndexed ==> holds(
            start.after_all(commands.take(k)),
        )
}

/// Replaying one more command is replaying the list and then the command.
pub proof fn lemma_after_all_push(start: Bound, commands: Seq<RenderCommand>, last: RenderCommand)
    ensures
        start.after_all(commands.push(last)) == start.after_all(commands).after(last),
{
    assert(commands.push(last).drop_last() == commands);
}

/// Replaying one list of commands after another is replaying the second from
/// where the first ends.
pub proof fn lemma_after_all_concat(
    start: Bound,
    first: Seq<RenderCommand>,
    second: Seq<RenderCommand>,
)
    ensures
        start.after_all(first + second) == start.after_all(first).after_all(second),
    decreases second.len(),
{
    if second.len() > 0 {
        lemma_after_all_concat(start, first, second.drop_last());
        assert((first + second).drop_last() == first + second.drop_last());
    }
}

/// The draw calls of two lists of commands, one after the other, find bound
/// what those of the first find and what those of the second find when it is
/// replayed from where the first ends.
pub proof fn lemma_each_draw_concat(
    start: Bound,
    first: Seq<RenderCommand>,
    second: Seq<RenderCommand>,
    holds: spec_fn(Bound) -> bool,
)
    requires
        each_draw(start, first, holds),
        each_draw(start.after_all(first), second, holds),
    ensures
        each_draw(start, first + second, holds),
{
    let both = first + second;
    assert forall|k: int| 0 <= k < both.len() && #[trigger] both[k] is DrawIndexed implies holds(
        start.after_all(both.take(k)),
    ) by {
        if k < first.len() {
            assert(both.take(k) == first.take(k));
        } else {
            let rest = k - first.len();
            assert(both.take(k) == first + second.take(rest));
            lemma_after_all_concat(start, first, second.take(rest));
        }
    }
}

/// Where every draw call finds what `holds` asks for, it finds whatever
/// follows from that.
pub proof fn lemma_each_draw_weaken(
    start: Bound,
    commands: Seq<RenderCommand>,
    holds: spec_fn(Bound) -> bool,
    follows: spec_fn(Bound) -> bool,
)
    requires
        each_draw(start, commands, holds),
        forall|bound: Bound| #[trigger] holds(bound) ==> follows(bound),
    ensures
        each_draw(start, commands, follows),
{
}

} // verus!
