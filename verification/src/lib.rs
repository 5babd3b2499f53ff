//! A real-time rendering core built around a deferred pipeline: materials
//! that compose their shader text and bind their own uniforms, lights with
//! GPU parameter blocks and shadow maps, a composer that unrolls per-light
//! shader code textually, and the pass sequencing that drives them. GPU
//! resources are tracked through a context model; the primitive GPU calls
//! themselves are issued by the surrounding application.

pub mod context;
pub mod headless;
pub mod io;
pub mod light;
pub mod material;
pub mod pipeline;
pub mod position_material;
pub mod program;
pub mod shaded_edges;
pub mod shader;
pub mod texture;
pub mod types;

use vstd::prelude::*;

verus! {

/// The geometric attributes a renderable can hand to a material's fragment
/// shader: position, normal, texture coordinates and per-vertex color.
#[derive(Clone, Copy, PartialEq, Eq, Structural, Debug)]
pub struct FragmentAttributes {
    pub position: bool,
    pub normal: bool,
    pub uv: bool,
    pub color: bool,
}

impl FragmentAttributes {
    /// True when every attribute that `required` asks for is provided here.
    pub open spec fn contains_all(self, required: FragmentAttributes) -> bool {
        &&& required.position ==> self.position
        &&& required.normal ==> self.normal
        &&& required.uv ==> self.uv
        &&& required.color ==> self.color
    }

    /// The empty attribute set.
    pub fn none() -> (r: FragmentAttributes)
        ensures
            r == (FragmentAttributes { position: false, normal: false, uv: false, color: false }),
    {
        FragmentAttributes { position: false, normal: false, uv: false, color: false }
    }

    /// Checks that every attribute required is provided.
    pub fn provides_all(&self, required: FragmentAttributes) -> (r: bool)
        ensures
            r == self.contains_all(required),
    {
        (!required.position || self.position) && (!required.normal || self.normal)
            && (!required.uv || self.uv) && (!required.color || self.color)
    }
}

} // verus!
