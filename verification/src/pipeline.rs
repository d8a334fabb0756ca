use vstd::prelude::*;

verus! {

/// How vertices are assembled into primitives.
#[derive(Clone, Copy, Debug, PartialEq, Eq, Structural)]
pub enum Topology {
    PointList,
    LineList,
    TriangleList,
}

/// Which faces of a triangle are discarded.
#[derive(Clone, Copy, Debug, PartialEq, Eq, Structural)]
pub enum CullMode {
    Disabled,
    Front,
    Back,
}

/// Which winding makes a triangle front-facing.
#[derive(Clone, Copy, Debug, PartialEq, Eq, Structural)]
pub enum FrontFace {
    CounterClockwise,
    Clockwise,
}

/// How the inside of a polygon is drawn.
#[derive(Clone, Copy, Debug, PartialEq, Eq, Structural)]
pub enum PolygonMode {
    Fill,
    Line,
    Point,
}

/// The layout an image is in.
#[derive(Clone, Copy, Debug, PartialEq, Eq, Structural)]
pub enum ImageLayout {
    Undefined,
    General,
    ColorAttachmentOptimal,
    TransferSrcOptimal,
    TransferDstOptimal,
}

/// What happens to an attachment when the render pass begins.
#[derive(Clone, Copy, Debug, PartialEq, Eq, Structural)]
pub enum LoadOp {
    Load,
    Clear,
    DontCare,
}

/// What happens to an attachment when the render pass ends.
#[derive(Clone, Copy, Debug, PartialEq, Eq, Structural)]
pub enum StoreOp {
    Store,
    DontCare,
}

/// A stage of the shader binary.
#[derive(Clone, Copy, Debug, PartialEq, Eq, Structural)]
pub enum ShaderStage {
    Vertex,
    Fragment,
    Miss,
    ClosestHit,
}

/// A width and a height in pixels.
#[derive(Clone, Copy, Debug, PartialEq, Eq, Structural)]
pub struct Extent {
    pub width: u32,
    pub height: u32,
}

/// The fixed-function state of the graphics pipeline. Viewport and scissor
/// both cover `extent` from the origin.
#[derive(Clone, Copy, Debug, PartialEq, Eq, Structural)]
pub struct PipelineConfig {
    pub topology: Topology,
    pub primitive_restart: bool,
    pub extent: Extent,
    pub polygon_mode: PolygonMode,
    pub cull: CullMode,
    pub front_face: FrontFace,
    pub samples: u32,
    pub depth_test: bool,
    pub depth_write: bool,
    pub stencil_test: bool,
    pub blend: bool,
}

/// The render pass: one subpass over one colour attachment.
#[derive(Clone, Copy, Debug, PartialEq, Eq, Structural)]
pub struct RenderPassConfig {
    pub attachment_count: u32,
    pub subpass_count: u32,
    pub samples: u32,
    pub load_op: LoadOp,
    pub store_op: StoreOp,
    pub initial_layout: ImageLayout,
    pub subpass_layout: ImageLayout,
    pub final_layout: ImageLayout,
}

/// The pipeline state for the triangle at the given size: a filled triangle
/// list, back faces culled, counter-clockwise front faces, one sample, and
/// neither depth nor stencil test nor blending.
pub open spec fn triangle_pipeline(extent: Extent) -> PipelineConfig {
    PipelineConfig {
        topology: Topology::TriangleList,
        primitive_restart: false,
        extent,
        polygon_mode: PolygonMode::Fill,
        cull: CullMode::Back,
        front_face: FrontFace::CounterClockwise,
        samples: 1,
        depth_test: false,
        depth_write: false,
        stencil_test: false,
        blend: false,
    }
}

/// The render pass of the triangle: the attachment is cleared on load and
/// stored at the end, comes in with undefined contents, is drawn to as a colour
/// attachment, and is left ready to be the source of a transfer.
pub open spec fn color_pass() -> RenderPassConfig {
    RenderPassConfig {
        attachment_count: 1,
        subpass_count: 1,
        samples: 1,
        load_op: LoadOp::Clear,
        store_op: StoreOp::Store,
        initial_layout: ImageLayout::Undefined,
        subpass_layout: ImageLayout::ColorAttachmentOptimal,
        final_layout: ImageLayout::TransferSrcOptimal,
    }
}

/// The name of the entry point of a stage in the shader binary.
pub open spec fn entry_point_name(stage: ShaderStage) -> Seq<char> {
    match stage {
        ShaderStage::Vertex => "main_vs"@,
        ShaderStage::Fragment => "main_fs"@,
        ShaderStage::Miss => "main_miss"@,
        ShaderStage::ClosestHit => "main_closest_hit"@,
    }
}

/// The stages of the graphics pipeline, in the order in which they are handed
/// to the backend.
pub open spec fn graphics_stages() -> Seq<ShaderStage> {
    seq![ShaderStage::Vertex, ShaderStage::Fragment]
}

pub fn fixed_pipeline_config(extent: Extent) -> (config: PipelineConfig)
    ensures
        config == triangle_pipeline(extent),
{
    PipelineConfig {
        topology: Topology::TriangleList,
        primitive_restart: false,
        extent,
        polygon_mode: PolygonMode::Fill,
        cull: CullMode::Back,
        front_face: FrontFace::CounterClockwise,
        samples: 1,
        depth_test: false,
        depth_write: false,
        stencil_test: false,
        blend: false,
    }
}

pub fn render_pass_config() -> (config: RenderPassConfig)
    ensures
        config == color_pass(),
{
    RenderPassConfig {
        attachment_count: 1,
        subpass_count: 1,
        samples: 1,
        load_op: LoadOp::Clear,
        store_op: StoreOp::Store,
        initial_layout: ImageLayout::Undefined,
        subpass_layout: ImageLayout::ColorAttachmentOptimal,
        final_layout: ImageLayout::TransferSrcOptimal,
    }
}

pub fn entry_point(stage: ShaderStage) -> (name: &'static str)
    ensures
        name@ == entry_point_name(stage),
{
    match stage {
        ShaderStage::Vertex => "main_vs",
        ShaderStage::Fragment => "main_fs",
        ShaderStage::Miss => "main_miss",
        ShaderStage::ClosestHit => "main_closest_hit",
    }
}

pub fn pipeline_stages() -> (stages: Vec<ShaderStage>)
    ensures
        stages@ == graphics_stages(),
{
    let mut stages: Vec<ShaderStage> = Vec::new();
    stages.push(ShaderStage::Vertex);
    stages.push(ShaderStage::Fragment);
    assert(stages@ =~= graphics_stages());
    stages
}

} // verus!
