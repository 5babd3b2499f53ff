use vstd::prelude::*;

use crate::context::Context;
use crate::material::CPUMaterial;
use crate::program::Program;
use crate::shader::POSITION_MATERIAL_FRAGMENT_CODE;
use crate::types::{Camera, Error, MaterialType, RenderStates};
use crate::FragmentAttributes;

verus! {

/// A fragment shader produced by a material: its source text and the
/// geometric attributes it actually uses.
pub struct FragmentShader {
    pub source: String,
    pub attributes: FragmentAttributes,
}

/// The attribute set holding only the geometric position.
pub open spec fn position_attribute() -> FragmentAttributes {
    FragmentAttributes { position: true, normal: false, uv: false, color: false }
}

/// Renders the object with colors that reflect its geometric position,
/// primarily for debugging: x maps to red, y to green and z to blue.
#[derive(Clone, Copy, PartialEq, Eq, Structural)]
pub struct PositionMaterial {
    pub render_states: RenderStates,
}

impl Default for PositionMaterial {
    fn default() -> (r: PositionMaterial)
        ensures
            r.render_states == RenderStates::spec_default(),
    {
        PositionMaterial { render_states: RenderStates::default() }
    }
}

impl PositionMaterial {
    /// This material reads nothing from a CPU-side description.
    pub fn from_cpu_material(_context: &Context, _cpu_material: &CPUMaterial) -> (r:
        PositionMaterial)
        ensures
            r.render_states == RenderStates::spec_default(),
    {
        PositionMaterial::default()
    }

    /// The debug fragment shader. It needs only the position attribute;
    /// when the caller cannot supply it, that is a missing attribute error.
    pub fn fragment_shader_source(&self, provided_attributes: FragmentAttributes) -> (r: Result<
        FragmentShader,
        Error,
    >)
        ensures
            match r {
                Ok(shader) => {
                    &&& provided_attributes.contains_all(position_attribute())
                    &&& shader.source@ == POSITION_MATERIAL_FRAGMENT_CODE@
                    &&& shader.attributes == position_attribute()
                },
                Err(e) => {
                    &&& !provided_attributes.contains_all(position_attribute())
                    &&& e == Error::MissingAttribute
                },
            },
    {
        let attributes = FragmentAttributes {
            position: true,
            normal: false,
            uv: false,
            color: false,
        };
        if !provided_attributes.provides_all(attributes) {
            return Err(Error::MissingAttribute);
        }
        Ok(
            FragmentShader {
                source: POSITION_MATERIAL_FRAGMENT_CODE.to_owned(),
                attributes,
            },
        )
    }

    /// This material has no uniforms to write.
    pub fn use_uniforms(&self, program: &mut Program, _camera: &Camera)
        ensures
            final(program)@ == old(program)@,
    {
    }

    pub fn render_states(&self) -> (r: RenderStates)
        ensures
            r == self.render_states,
    {
        self.render_states
    }

    pub fn material_type(&self) -> (r: MaterialType)
        ensures
            r == MaterialType::Opaque,
    {
        MaterialType::Opaque
    }
}

} // verus!
