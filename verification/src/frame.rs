//! One frame: the render pass that draws it, as the commands to record.

use crate::pipeline::IndexFormat;
use vstd::prelude::*;

verus! {

/// A colour. Each channel runs from 0, none, to 255, full.
#[derive(Clone, Copy, Debug, PartialEq, Eq, Structural)]
pub struct Color {
    pub r: u8,
    pub g: u8,
    pub b: u8,
    pub a: u8,
}

/// What happens to the target's old contents when a pass begins.
#[derive(Clone, Copy, Debug, PartialEq, Eq, Structural)]
pub enum LoadOp {
    /// They are replaced by one colour.
    Clear(Color),
    /// They are kept.
    Load,
}

/// What a pass does to its colour target at its start and at its end.
#[derive(Clone, Copy, Debug, PartialEq, Eq, Structural)]
pub struct Operations {
    pub load: LoadOp,
    /// Whether what the pass drew is written to the target.
    pub store: bool,
}

/// A command recorded into a render pass.
#[derive(Clone, Copy, Debug, PartialEq, Eq, Structural)]
pub enum RenderCommand {
    /// Use the render pipeline.
    SetPipeline,
    /// Bind the bind group at `index`.
    SetBindGroup { index: u32 },
    /// Bind the whole vertex buffer at `slot`.
    SetVertexBuffer { slot: u32 },
    /// Bind the whole index buffer, read as indices of `format`.
    SetIndexBuffer { format: IndexFormat },
    /// Draw the indices from `first_index` up to `end_index`, each added to
    /// `base_vertex`, once for each instance from `first_instance` up to
    /// `end_instance`.
    DrawIndexed {
        first_index: u32,
        end_index: u32,
        base_vertex: i32,
        first_instance: u32,
        end_instance: u32,
    },
}

/// A frame: one render pass into a view over the whole surface texture,
/// without a depth/stencil attachment, then submission and presentation.
#[derive(Clone, Debug, PartialEq, Eq)]
pub struct Frame {
    pub ops: Operations,
    pub commands: Vec<RenderCommand>,
}

/// A frame as a value of specifications.
pub struct FrameView {
    pub ops: Operations,
    pub commands: Seq<RenderCommand>,
}

impl View for Frame {
    type V = FrameView;

    open spec fn view(&self) -> FrameView {
        FrameView { ops: self.ops, commands: self.commands@ }
    }
}

/// The colour that a frame starts from: opaque green.
pub open spec fn clear_color() -> Color {
    Color { r: 0, g: 255, b: 0, a: 255 }
}

/// The commands that draw an indexed mesh once: pipeline, bind group 0,
/// vertex buffer 0, a 16-bit index buffer, and one draw over all
/// `num_indices` indices.
pub open spec fn mesh_commands(num_indices: u32) -> Seq<RenderCommand> {
    seq![
        RenderCommand::SetPipeline,
        RenderCommand::SetBindGroup { index: 0 },
        RenderCommand::SetVertexBuffer { slot: 0 },
        RenderCommand::SetIndexBuffer { format: IndexFormat::Uint16 },
        RenderCommand::DrawIndexed {
            first_index: 0,
            end_index: num_indices,
            base_vertex: 0,
            first_instance: 0,
            end_instance: 1,
        },
    ]
}

/// The frame that clears the target to [`clear_color`], draws a mesh of
/// `num_indices` indices once and keeps the result.
pub open spec fn mesh_frame(num_indices: u32) -> FrameView {
    FrameView {
        ops: Operations { load: LoadOp::Clear(clear_color()), store: true },
        commands: mesh_commands(num_indices),
    }
}

impl Frame {
    /// The frame that draws a mesh of `num_indices` indices.
    pub fn mesh(num_indices: u32) -> (frame: Frame)
        ensures
            frame@ == mesh_frame(num_indices),
    {
        let commands: Vec<RenderCommand> = vec![
            RenderCommand::SetPipeline,
            RenderCommand::SetBindGroup { index: 0 },
            RenderCommand::SetVertexBuffer { slot: 0 },
            RenderCommand::SetIndexBuffer { format: IndexFormat::Uint16 },
            RenderCommand::DrawIndexed {
                first_index: 0,
                end_index: num_indices,
                base_vertex: 0,
                first_instance: 0,
                end_instance: 1,
            },
        ];
        assert(commands@ =~= mesh_commands(num_indices));
        Frame {
            ops: Operations {
                load: LoadOp::Clear(Color { r: 0, g: 255, b: 0, a: 255 }),
                store: true,
            },
            commands,
        }
    }
}

} // verus!
