use vstd::prelude::*;

verus! {

/// An RGBA color with 8 bits per channel.
#[derive(Clone, Copy, PartialEq, Eq, Structural, Debug)]
pub struct Color {
    pub r: u8,
    pub g: u8,
    pub b: u8,
    pub a: u8,
}

impl Color {
    pub fn white() -> (c: Color)
        ensures
            c == (Color { r: 255, g: 255, b: 255, a: 255 }),
    {
        Color { r: 255, g: 255, b: 255, a: 255 }
    }
}

/// The smallest 8-bit alpha whose normalized value (alpha / 255) is at least
/// 0.99: a base color with a smaller alpha makes a material transparent.
pub const OPAQUE_ALPHA_THRESHOLD: u8 = 253;

/// A three-component vector in fixed-point thousandths, standing in for the
/// normalized direction and position vectors handed to the GPU.
#[derive(Clone, Copy, PartialEq, Eq, Structural, Debug)]
pub struct Vector3 {
    pub x: i64,
    pub y: i64,
    pub z: i64,
}

impl Vector3 {
    pub fn new(x: i64, y: i64, z: i64) -> (r: Vector3)
        ensures
            r == (Vector3 { x, y, z }),
    {
        Vector3 { x, y, z }
    }
}

/// The camera a frame is rendered from; the lighting pass needs only its
/// position for view-dependent shading.
#[derive(Clone, Copy, PartialEq, Eq, Structural, Debug)]
pub struct Camera {
    pub position: Vector3,
}

impl Camera {
    pub fn new(position: Vector3) -> (r: Camera)
        ensures
            r == (Camera { position }),
    {
        Camera { position }
    }

    pub fn position(&self) -> (r: Vector3)
        ensures
            r == self.position,
    {
        self.position
    }
}

/// The lighting model used when shading a surface.
#[derive(Clone, Copy, PartialEq, Eq, Structural, Debug)]
pub enum LightingModel {
    Phong,
    Blinn,
    Cook(NormalDistributionFunction, GeometryFunction),
}

/// The normal distribution function used by the Cook-Torrance lighting model.
#[derive(Clone, Copy, PartialEq, Eq, Structural, Debug)]
pub enum NormalDistributionFunction {
    Blinn,
    Beckmann,
    TrowbridgeReitzGGX,
}

/// The geometry function used by the Cook-Torrance lighting model.
#[derive(Clone, Copy, PartialEq, Eq, Structural, Debug)]
pub enum GeometryFunction {
    SmithSchlickGGX,
}

/// The pixel format of a texture or render buffer.
#[derive(Clone, Copy, PartialEq, Eq, Structural, Debug)]
pub enum Format {
    R8,
    RGB8,
    RGBA8,
}

impl Format {
    /// The number of color channels of this format.
    pub open spec fn spec_channels(self) -> u32 {
        match self {
            Format::R8 => 1,
            Format::RGB8 => 3,
            Format::RGBA8 => 4,
        }
    }

    /// The number of color channels of this format.
    pub fn channels(&self) -> (r: u32)
        ensures
            r == self.spec_channels(),
    {
        match self {
            Format::R8 => 1,
            Format::RGB8 => 3,
            Format::RGBA8 => 4,
        }
    }
}

/// Whether a material is drawn in the opaque queue or needs back-to-front
/// blending.
#[derive(Clone, Copy, PartialEq, Eq, Structural, Debug)]
pub enum MaterialType {
    Opaque,
    Transparent,
}

/// Which output channels a draw call is allowed to write.
#[derive(Clone, Copy, PartialEq, Eq, Structural, Debug)]
pub struct WriteMask {
    pub red: bool,
    pub green: bool,
    pub blue: bool,
    pub alpha: bool,
    pub depth: bool,
}

impl WriteMask {
    /// Write the color channels but not depth: the mask used for transparent
    /// materials.
    pub fn color() -> (r: WriteMask)
        ensures
            r == WriteMask::spec_color(),
    {
        WriteMask { red: true, green: true, blue: true, alpha: true, depth: false }
    }

    pub open spec fn spec_color() -> WriteMask {
        WriteMask { red: true, green: true, blue: true, alpha: true, depth: false }
    }

    pub open spec fn spec_default() -> WriteMask {
        WriteMask { red: true, green: true, blue: true, alpha: true, depth: true }
    }
}

impl Default for WriteMask {
    /// Write every channel, depth included.
    fn default() -> (r: WriteMask)
        ensures
            r == WriteMask::spec_default(),
    {
        WriteMask { red: true, green: true, blue: true, alpha: true, depth: true }
    }
}

/// How a fragment's color is combined with the color already in the target.
#[derive(Clone, Copy, PartialEq, Eq, Structural, Debug)]
pub enum Blend {
    /// The fragment color replaces the target color.
    Disabled,
    /// Standard source-alpha blending, used for transparent materials.
    Transparency,
}

impl Default for Blend {
    fn default() -> (r: Blend)
        ensures
            r == Blend::Disabled,
    {
        Blend::Disabled
    }
}

/// The depth comparison applied before a fragment is written.
#[derive(Clone, Copy, PartialEq, Eq, Structural, Debug)]
pub enum DepthTest {
    Never,
    Less,
    Equal,
    LessOrEqual,
    Greater,
    NotEqual,
    GreaterOrEqual,
    Always,
}

impl Default for DepthTest {
    fn default() -> (r: DepthTest)
        ensures
            r == DepthTest::Less,
    {
        DepthTest::Less
    }
}

/// Which triangle faces are culled before rasterization.
#[derive(Clone, Copy, PartialEq, Eq, Structural, Debug)]
pub enum Cull {
    NoCulling,
    Back,
    Front,
    FrontAndBack,
}

impl Default for Cull {
    fn default() -> (r: Cull)
        ensures
            r == Cull::NoCulling,
    {
        Cull::NoCulling
    }
}

/// The fixed-function state a material asks for when its geometry is drawn.
#[derive(Clone, Copy, PartialEq, Eq, Structural, Debug)]
pub struct RenderStates {
    pub write_mask: WriteMask,
    pub blend: Blend,
    pub depth_test: DepthTest,
    pub cull: Cull,
}

impl RenderStates {
    pub open spec fn spec_default() -> RenderStates {
        RenderStates {
            write_mask: WriteMask::spec_default(),
            blend: Blend::Disabled,
            depth_test: DepthTest::Less,
            cull: Cull::NoCulling,
        }
    }

    /// The render states of a transparent material: color-only writes and
    /// source-alpha blending.
    pub open spec fn spec_transparency() -> RenderStates {
        RenderStates {
            write_mask: WriteMask::spec_color(),
            blend: Blend::Transparency,
            depth_test: DepthTest::Less,
            cull: Cull::NoCulling,
        }
    }
}

impl Default for RenderStates {
    /// Opaque defaults: write everything, no blending, less-than depth test,
    /// no culling.
    fn default() -> (r: RenderStates)
        ensures
            r == RenderStates::spec_default(),
    {
        RenderStates {
            write_mask: WriteMask { red: true, green: true, blue: true, alpha: true, depth: true },
            blend: Blend::Disabled,
            depth_test: DepthTest::Less,
            cull: Cull::NoCulling,
        }
    }
}

/// The errors the rendering core reports. All of them propagate to the caller
/// of the pipeline's per-pass entry points; none is retried.
#[derive(Clone, PartialEq, Debug)]
pub enum Error {
    /// A material needs a geometric attribute the renderable cannot supply.
    MissingAttribute,
    /// A shader stage failed to compile; carries the compiler diagnostic.
    ShaderCompileError(String),
    /// A program failed to link; carries the linker diagnostic.
    ShaderLinkError(String),
    /// A render target is not complete; carries the incompleteness reason.
    FramebufferIncomplete(String),
    /// The context rejected a resource allocation.
    ResourceCreationFailed,
    /// More lights of one kind were supplied than the composer supports.
    TooManyLights,
    /// An off-screen render target could not be created.
    HeadlessTargetError { message: String },
}

/// The errors of the loading and saving layer.
#[derive(Clone, PartialEq, Debug)]
pub enum IOError {
    FailedToLoad { message: String },
}

} // verus!
