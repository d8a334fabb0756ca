use vstd::prelude::*;
use crate::pipeline::{color_pass, Extent, ImageLayout};
use crate::shader::VERTEX_COUNT;

verus! {

/// A colour of four 8-bit channels.
#[derive(Clone, Copy, Debug, PartialEq, Eq, Structural)]
pub struct Rgba8 {
    pub red: u8,
    pub green: u8,
    pub blue: u8,
    pub alpha: u8,
}

/// The kind of memory access a barrier orders.
#[derive(Clone, Copy, Debug, PartialEq, Eq, Structural)]
pub enum Access {
    Nothing,
    TransferWrite,
    MemoryRead,
}

/// One command of a command buffer.
#[derive(Clone, Copy, Debug, PartialEq, Eq, Structural)]
pub enum Command {
    /// Opens the command buffer.
    Begin,
    /// Begins the render pass over the whole target, with one clear colour.
    BeginRenderPass { area: Extent, clear: Rgba8 },
    BindGraphicsPipeline,
    /// A draw without an index buffer.
    Draw { vertex_count: u32, instance_count: u32, first_vertex: u32, first_instance: u32 },
    EndRenderPass,
    /// Moves the staging image from one layout to another, between two
    /// transfer stages.
    StagingBarrier { old_layout: ImageLayout, new_layout: ImageLayout, before: Access, after: Access },
    /// Copies the colour of the whole render target to the staging image.
    CopyTargetToStaging { source_layout: ImageLayout, destination_layout: ImageLayout, extent: Extent },
    /// Closes the command buffer.
    End,
}

/// The colour the render target is cleared to: opaque black.
pub open spec fn clear_color() -> Rgba8 {
    Rgba8 { red: 0, green: 0, blue: 0, alpha: 255 }
}

/// The commands that draw the triangle: inside one render pass that clears
/// the target, the pipeline is bound and three vertices of one instance are
/// drawn.
pub open spec fn draw_commands(extent: Extent) -> Seq<Command> {
    seq![
        Command::Begin,
        Command::BeginRenderPass { area: extent, clear: clear_color() },
        Command::BindGraphicsPipeline,
        Command::Draw { vertex_count: 3, instance_count: 1, first_vertex: 0, first_instance: 0 },
        Command::EndRenderPass,
        Command::End,
    ]
}

/// The commands that bring the picture to the host: the staging image is
/// made a transfer destination, the whole render target is copied into it,
/// and it is then made readable in the general layout.
pub open spec fn copy_commands(extent: Extent) -> Seq<Command> {
    seq![
        Command::Begin,
        Command::StagingBarrier {
            old_layout: ImageLayout::Undefined,
            new_layout: ImageLayout::TransferDstOptimal,
            before: Access::Nothing,
            after: Access::TransferWrite,
        },
        Command::CopyTargetToStaging {
            source_layout: ImageLayout::TransferSrcOptimal,
            destination_layout: ImageLayout::TransferDstOptimal,
            extent,
        },
        Command::StagingBarrier {
            old_layout: ImageLayout::TransferDstOptimal,
            new_layout: ImageLayout::General,
            before: Access::TransferWrite,
            after: Access::MemoryRead,
        },
        Command::End,
    ]
}

/// The sequence opens with `Begin`, closes with `End`, and holds neither of
/// them in between.
pub open spec fn is_bracketed(commands: Seq<Command>) -> bool {
    &&& commands.len() >= 2
    &&& commands[0] == Command::Begin
    &&& commands[commands.len() - 1] == Command::End
    &&& forall|i: int|
        0 < i < commands.len() - 1 ==> commands[i] != Command::Begin && commands[i]
            != Command::End
}

/// Records the draw sequence for a target of the given size.
pub fn draw_sequence(extent: Extent) -> (commands: Vec<Command>)
    ensures
        commands@ == draw_commands(extent),
{
    let mut commands: Vec<Command> = Vec::new();
    commands.push(Command::Begin);
    commands.push(
        Command::BeginRenderPass {
            area: extent,
            clear: Rgba8 { red: 0, green: 0, blue: 0, alpha: 255 },
        },
    );
    commands.push(Command::BindGraphicsPipeline);
    commands.push(
        Command::Draw {
            vertex_count: VERTEX_COUNT,
            instance_count: 1,
            first_vertex: 0,
            first_instance: 0,
        },
    );
    commands.push(Command::EndRenderPass);
    commands.push(Command::End);
    assert(commands@ =~= draw_commands(extent));
    commands
}

/// Records the copy sequence for images of the given size.
pub fn copy_sequence(extent: Extent) -> (commands: Vec<Command>)
    ensures
        commands@ == copy_commands(extent),
{
    let mut commands: Vec<Command> = Vec::new();
    commands.push(Command::Begin);
    commands.push(
        Command::StagingBarrier {
            old_layout: ImageLayout::Undefined,
            new_layout: ImageLayout::TransferDstOptimal,
            before: Access::Nothing,
            after: Access::TransferWrite,
        },
    );
    commands.push(
        Command::CopyTargetToStaging {
            source_layout: ImageLayout::TransferSrcOptimal,
            destination_layout: ImageLayout::TransferDstOptimal,
            extent,
        },
    );
    commands.push(
        Command::StagingBarrier {
            old_layout: ImageLayout::TransferDstOptimal,
            new_layout: ImageLayout::General,
            before: Access::TransferWrite,
            after: Access::MemoryRead,
        },
    );
    commands.push(Command::End);
    assert(commands@ =~= copy_commands(extent));
    commands
}

/// Both sequences are recorded between the two markers of a command buffer.
pub proof fn lemma_sequences_are_bracketed(extent: Extent)
    ensures
        is_bracketed(draw_commands(extent)),
        is_bracketed(copy_commands(extent)),
{
}

/// The copy reads the render target in the layout in which the render pass
/// leaves it, so the source needs no barrier of its own; the destination is
/// written in the layout the first barrier gave it and ends in the general
/// layout, in which the host may read it.
pub proof fn lemma_copy_follows_the_render_pass(extent: Extent)
    ensures
        copy_commands(extent)[2] == (Command::CopyTargetToStaging {
            source_layout: color_pass().final_layout,
            destination_layout: ImageLayout::TransferDstOptimal,
            extent,
        }),
        copy_commands(extent)[1] matches Command::StagingBarrier { new_layout, .. }
            && new_layout == ImageLayout::TransferDstOptimal,
        copy_commands(extent)[3] matches Command::StagingBarrier { old_layout, new_layout, .. }
            && old_layout == ImageLayout::TransferDstOptimal && new_layout == ImageLayout::General,
{
}

} // verus!
