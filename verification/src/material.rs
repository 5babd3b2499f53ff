use vstd::prelude::*;

use crate::context::{Context, ContextState};
use crate::light::{
    ambient_view, bind_lights, bind_lights_events, AmbientLight, DirectionalLight, PointLight,
    SpotLight,
};
use crate::program::{BindEvent, Program};
use crate::shader::{
    directional_call_line, directional_call_section, directional_uniform_block, directional_uniform_section, point_call_line, point_call_section,
    point_uniform_block, point_uniform_section, push_directional_call_section, push_directional_uniform_section,
    push_point_call_section, push_point_uniform_section, push_spot_call_section,
    push_spot_uniform_section, spot_call_line, spot_call_section, spot_uniform_block, spot_uniform_section, ALBEDO_TEXTURE_DEFINE,
    COOK_BECKMANN_DEFINES, COOK_BLINN_DEFINES, COOK_GGX_DEFINES, DEFERRED_OBJECTS_FRAGMENT_CODE,
    DEFERRED_SECTION, DIR_SECTION_COMMENT, LIGHTING_FRAGMENT_CODE, LIGHTING_HEADER_A,
    LIGHTING_HEADER_END, LIGHTING_HEADER_MID, LIGHT_SHARED_FRAGMENT_CODE, MAX_LIGHTS,
    MODEL_BLINN_DEFINES, MODEL_PHONG_DEFINES, MR_TEXTURE_DEFINE, NEWLINE, NORMAL_TEXTURE_DEFINE,
    OCCLUSION_TEXTURE_DEFINE, POSITION_NORMAL_INPUTS, SHARED_FRAGMENT_CODE, SPOT_SECTION_COMMENT,
    UV_SECTION,
};
use crate::texture::{has_transparent_pixel, CPUTexture, PoolEntry, Texture2D, TexturePool, TextureRef};
use crate::types::{
    Blend, Camera, Color, Cull, DepthTest, Error, LightingModel, NormalDistributionFunction,
    RenderStates, WriteMask, OPAQUE_ALPHA_THRESHOLD,
};

verus! {

pub const METALLIC_NAME: &'static str = "metallic";

pub const ROUGHNESS_NAME: &'static str = "roughness";

pub const ALBEDO_NAME: &'static str = "albedo";

pub const ALBEDO_TEX_NAME: &'static str = "albedoTexture";

pub const MR_TEX_NAME: &'static str = "metallicRoughnessTexture";

pub const OCCLUSION_STRENGTH_NAME: &'static str = "occlusionStrength";

pub const OCCLUSION_TEX_NAME: &'static str = "occlusionTexture";

pub const NORMAL_SCALE_NAME: &'static str = "normalScale";

pub const NORMAL_TEX_NAME: &'static str = "normalTexture";

/// A CPU-side material description, consumed once when the GPU-side
/// material is constructed.
pub struct CPUMaterial {
    pub name: String,
    pub albedo: Color,
    pub albedo_texture: Option<CPUTexture>,
    /// Fixed-point thousandths in 0..=1000.
    pub metallic: u32,
    /// Fixed-point thousandths in 0..=1000.
    pub roughness: u32,
    pub metallic_roughness_texture: Option<CPUTexture>,
    /// Fixed-point thousandths in 0..=1000.
    pub occlusion_strength: u32,
    pub occlusion_texture: Option<CPUTexture>,
    /// Fixed-point thousandths.
    pub normal_scale: u32,
    pub normal_texture: Option<CPUTexture>,
    /// When supplied, this combined image takes precedence over the
    /// separate metallic-roughness and occlusion images, which are then
    /// ignored rather than merged.
    pub occlusion_metallic_roughness_texture: Option<CPUTexture>,
}

impl Default for CPUMaterial {
    fn default() -> (r: CPUMaterial)
        ensures
            r.name@ == "default"@,
            r.albedo == (Color { r: 255, g: 255, b: 255, a: 255 }),
            r.albedo_texture is None,
            r.metallic == 0,
            r.roughness == 1000,
            r.metallic_roughness_texture is None,
            r.occlusion_strength == 1000,
            r.occlusion_texture is None,
            r.normal_scale == 1000,
            r.normal_texture is None,
            r.occlusion_metallic_roughness_texture is None,
    {
        CPUMaterial {
            name: "default".to_owned(),
            albedo: Color { r: 255, g: 255, b: 255, a: 255 },
            albedo_texture: None,
            metallic: 0,
            roughness: 1000,
            metallic_roughness_texture: None,
            occlusion_strength: 1000,
            occlusion_texture: None,
            normal_scale: 1000,
            normal_texture: None,
            occlusion_metallic_roughness_texture: None,
        }
    }
}

/// A physically-based material used for shading an object. Its texture set
/// is immutable after construction; the textures are shared through the
/// pool so that several materials can reference one image.
pub struct Material {
    /// Used for matching geometry and material.
    pub name: String,
    /// Base color, also called diffuse color.
    pub albedo: Color,
    pub albedo_texture: Option<TextureRef>,
    /// Fixed-point thousandths in 0..=1000.
    pub metallic: u32,
    /// Fixed-point thousandths in 0..=1000.
    pub roughness: u32,
    /// Metallic and roughness parameters, sampled from the blue and green
    /// channels.
    pub metallic_roughness_texture: Option<TextureRef>,
    /// Fixed-point thousandths in 0..=1000.
    pub occlusion_strength: u32,
    /// Occlusion values, sampled from the red channel.
    pub occlusion_texture: Option<TextureRef>,
    /// Fixed-point thousandths.
    pub normal_scale: u32,
    /// A tangent space normal map.
    pub normal_texture: Option<TextureRef>,
    pub lighting_model: LightingModel,
}

/// True when the GPU texture mirrors the CPU description it was made from.
pub open spec fn texture_matches(t: Texture2D, cpu: CPUTexture) -> bool {
    &&& t.width == cpu.width
    &&& t.height == cpu.height
    &&& t.format == cpu.format
    &&& t.transparent == has_transparent_pixel(cpu.data@, cpu.format)
}

/// True when `r` is a pool slot created during the construction step:
/// fresh, holding a texture made from `cpu`, with the given owner count,
/// and with its GPU handle live.
pub open spec fn fresh_shared_texture(
    old_pool: TexturePool,
    new_pool: TexturePool,
    ctx: ContextState,
    r: TextureRef,
    cpu: CPUTexture,
    refs: nat,
) -> bool {
    &&& old_pool@.len() <= r
    &&& new_pool.slot_live(r)
    &&& new_pool.entry(r).refs == refs
    &&& texture_matches(new_pool.entry(r).texture, cpu)
    &&& ctx.texture_live(new_pool.entry(r).texture.id)
}

/// How many GPU textures the construction of a material creates: one per
/// supplied image, except that a combined occlusion-metallic-roughness
/// image replaces both separate images.
pub open spec fn new_texture_count(cpu: CPUMaterial) -> int {
    (if cpu.albedo_texture is Some {
        1int
    } else {
        0int
    }) + (if cpu.occlusion_metallic_roughness_texture is Some {
        1int
    } else {
        (if cpu.metallic_roughness_texture is Some {
            1int
        } else {
            0int
        }) + (if cpu.occlusion_texture is Some {
            1int
        } else {
            0int
        })
    }) + (if cpu.normal_texture is Some {
        1int
    } else {
        0int
    })
}

impl Material {
    /// True while every texture the material references is live in the pool.
    pub open spec fn wf(self, pool: TexturePool) -> bool {
        &&& self.albedo_texture is Some ==> pool.slot_live(self.albedo_texture->Some_0)
        &&& self.metallic_roughness_texture is Some ==> pool.slot_live(
            self.metallic_roughness_texture->Some_0,
        )
        &&& self.occlusion_texture is Some ==> pool.slot_live(self.occlusion_texture->Some_0)
        &&& self.normal_texture is Some ==> pool.slot_live(self.normal_texture->Some_0)
    }

    /// Moves the material information of a CPU-side description to the GPU.
    /// If the input holds a combined occlusion-metallic-roughness image,
    /// that one texture backs both the metallic-roughness and the occlusion
    /// slots, and any separate metallic-roughness or occlusion images are
    /// ignored.
    pub fn new(context: &mut Context, pool: &mut TexturePool, cpu_material: &CPUMaterial) -> (r:
        Result<Material, Error>)
        ensures
            final(context)@.buffers == old(context)@.buffers,
            final(context)@.framebuffers == old(context)@.framebuffers,
            final(context)@.renderbuffers == old(context)@.renderbuffers,
            final(context)@.programs == old(context)@.programs,
            forall|t: u32|
                old(context)@.texture_live(t) ==> final(context)@.texture_live(t),
            forall|j: int|
                0 <= j < old(pool)@.len() ==> final(pool)@[j] == old(pool)@[j],
            match r {
                Ok(m) => {
                    &&& m.name@ == cpu_material.name@
                    &&& m.albedo == cpu_material.albedo
                    &&& m.metallic == cpu_material.metallic
                    &&& m.roughness == cpu_material.roughness
                    &&& m.occlusion_strength == cpu_material.occlusion_strength
                    &&& m.normal_scale == cpu_material.normal_scale
                    &&& m.lighting_model == LightingModel::Blinn
                    &&& m.wf(*final(pool))
                    &&& final(pool)@.len() == old(pool)@.len() + new_texture_count(*cpu_material)
                    &&& (m.albedo_texture is Some <==> cpu_material.albedo_texture is Some)
                    &&& (m.albedo_texture is Some ==> fresh_shared_texture(
                        *old(pool),
                        *final(pool),
                        final(context)@,
                        m.albedo_texture->Some_0,
                        cpu_material.albedo_texture->Some_0,
                        1,
                    ))
                    &&& (cpu_material.occlusion_metallic_roughness_texture is Some ==> {
                        &&& m.metallic_roughness_texture is Some
                        &&& m.occlusion_texture == m.metallic_roughness_texture
                        &&& fresh_shared_texture(
                            *old(pool),
                            *final(pool),
                            final(context)@,
                            m.metallic_roughness_texture->Some_0,
                            cpu_material.occlusion_metallic_roughness_texture->Some_0,
                            2,
                        )
                    })
                    &&& (cpu_material.occlusion_metallic_roughness_texture is None ==> {
                        &&& (m.metallic_roughness_texture is Some
                            <==> cpu_material.metallic_roughness_texture is Some)
                        &&& (m.metallic_roughness_texture is Some ==> fresh_shared_texture(
                            *old(pool),
                            *final(pool),
                            final(context)@,
                            m.metallic_roughness_texture->Some_0,
                            cpu_material.metallic_roughness_texture->Some_0,
                            1,
                        ))
                        &&& (m.occlusion_texture is Some
                            <==> cpu_material.occlusion_texture is Some)
                        &&& (m.occlusion_texture is Some ==> fresh_shared_texture(
                            *old(pool),
                            *final(pool),
                            final(context)@,
                            m.occlusion_texture->Some_0,
                            cpu_material.occlusion_texture->Some_0,
                            1,
                        ))
                        &&& (m.metallic_roughness_texture is Some && m.occlusion_texture is Some
                            ==> m.metallic_roughness_texture->Some_0
                            != m.occlusion_texture->Some_0)
                    })
                    &&& (m.normal_texture is Some <==> cpu_material.normal_texture is Some)
                    &&& (m.normal_texture is Some ==> fresh_shared_texture(
                        *old(pool),
                        *final(pool),
                        final(context)@,
                        m.normal_texture->Some_0,
                        cpu_material.normal_texture->Some_0,
                        1,
                    ))
                    &&& (m.albedo_texture is Some && m.metallic_roughness_texture is Some
                        ==> m.albedo_texture->Some_0 != m.metallic_roughness_texture->Some_0)
                    &&& (m.albedo_texture is Some && m.occlusion_texture is Some
                        ==> m.albedo_texture->Some_0 != m.occlusion_texture->Some_0)
                    &&& (m.albedo_texture is Some && m.normal_texture is Some
                        ==> m.albedo_texture->Some_0 != m.normal_texture->Some_0)
                    &&& (m.metallic_roughness_texture is Some && m.normal_texture is Some
                        ==> m.metallic_roughness_texture->Some_0 != m.normal_texture->Some_0)
                    &&& (m.occlusion_texture is Some && m.normal_texture is Some
                        ==> m.occlusion_texture->Some_0 != m.normal_texture->Some_0)
                },
                Err(e) => e == Error::ResourceCreationFailed,
            },
            r is Err <==> (new_texture_count(*cpu_material) > 0 && old(context)@.textures.len()
                + new_texture_count(*cpu_material) > 0xFFFF_FFFF),
    {
        let albedo_texture: Option<TextureRef> = match &cpu_material.albedo_texture {
            Some(cpu_texture) => {
                let t = match Texture2D::new(context, cpu_texture) {
                    Ok(t) => t,
                    Err(e) => {
                        return Err(e);
                    },
                };
                Some(pool.insert(t))
            },
            None => None,
        };
        let metallic_roughness_texture: Option<TextureRef> = match &cpu_material
            .occlusion_metallic_roughness_texture {
            Some(cpu_texture) => {
                let t = match Texture2D::new(context, cpu_texture) {
                    Ok(t) => t,
                    Err(e) => {
                        return Err(e);
                    },
                };
                Some(pool.insert(t))
            },
            None => match &cpu_material.metallic_roughness_texture {
                Some(cpu_texture) => {
                    let t = match Texture2D::new(context, cpu_texture) {
                        Ok(t) => t,
                        Err(e) => {
                            return Err(e);
                        },
                    };
                    Some(pool.insert(t))
                },
                None => None,
            },
        };
        let occlusion_texture: Option<TextureRef> = if cpu_material
            .occlusion_metallic_roughness_texture.is_some() {
            match metallic_roughness_texture {
                Some(r) => {
                    pool.retain(r);
                    Some(r)
                },
                None => {
                    proof {
                        assert(false);
                    }
                    None
                },
            }
        } else {
            match &cpu_material.occlusion_texture {
                Some(cpu_texture) => {
                    let t = match Texture2D::new(context, cpu_texture) {
                        Ok(t) => t,
                        Err(e) => {
                            return Err(e);
                        },
                    };
                    Some(pool.insert(t))
                },
                None => None,
            }
        };
        let normal_texture: Option<TextureRef> = match &cpu_material.normal_texture {
            Some(cpu_texture) => {
                let t = match Texture2D::new(context, cpu_texture) {
                    Ok(t) => t,
                    Err(e) => {
                        return Err(e);
                    },
                };
                Some(pool.insert(t))
            },
            None => None,
        };
        Ok(
            Material {
                name: cpu_material.name.clone(),
                albedo: cpu_material.albedo,
                albedo_texture,
                metallic: cpu_material.metallic,
                roughness: cpu_material.roughness,
                metallic_roughness_texture,
                occlusion_strength: cpu_material.occlusion_strength,
                occlusion_texture,
                normal_scale: cpu_material.normal_scale,
                normal_texture,
                lighting_model: LightingModel::Blinn,
            },
        )
    }

    /// Writes the material's own uniforms and textures into the program:
    /// the scalar parameters, the base color, and each texture it holds.
    pub fn bind_internal(&self, pool: &TexturePool, program: &mut Program) -> (r: Result<
        (),
        Error,
    >)
        requires
            self.wf(*pool),
        ensures
            r is Ok,
            final(program)@.id == old(program)@.id,
            final(program)@.log == old(program)@.log + material_bind_events(*self, *pool),
    {
        program.use_uniform_float(METALLIC_NAME, self.metallic);
        program.use_uniform_float(ROUGHNESS_NAME, self.roughness);
        program.use_uniform_vec4(ALBEDO_NAME, self.albedo);
        if let Some(r) = self.albedo_texture {
            program.use_texture(ALBEDO_TEX_NAME, pool.texture(r).id);
        }
        if let Some(r) = self.metallic_roughness_texture {
            program.use_texture(MR_TEX_NAME, pool.texture(r).id);
        }
        if let Some(r) = self.occlusion_texture {
            program.use_uniform_float(OCCLUSION_STRENGTH_NAME, self.occlusion_strength);
            program.use_texture(OCCLUSION_TEX_NAME, pool.texture(r).id);
        }
        if let Some(r) = self.normal_texture {
            program.use_uniform_float(NORMAL_SCALE_NAME, self.normal_scale);
            program.use_texture(NORMAL_TEX_NAME, pool.texture(r).id);
        }
        proof {
            assert(program@.log =~= old(program)@.log + material_bind_events(*self, *pool));
        }
        Ok(())
    }

    /// The composed forward fragment shader of this material under the
    /// active lights.
    pub fn fragment_shader_source(
        &self,
        _ambient_light: Option<&AmbientLight>,
        directional_lights: &[DirectionalLight],
        spot_lights: &[SpotLight],
        point_lights: &[PointLight],
    ) -> (r: String)
        requires
            directional_lights@.len() <= MAX_LIGHTS,
            spot_lights@.len() <= MAX_LIGHTS,
            point_lights@.len() <= MAX_LIGHTS,
        ensures
            r@ == shaded_source(
                self.lighting_model,
                Some(*self),
                directional_lights@.len(),
                spot_lights@.len(),
                point_lights@.len(),
            ),
    {
        shaded_fragment_shader(
            self.lighting_model,
            Some(self),
            directional_lights.len(),
            spot_lights.len(),
            point_lights.len(),
        )
    }

    /// Binds everything this material needs for a forward draw: first the
    /// lights, then its own uniforms.
    pub fn bind(
        &self,
        pool: &TexturePool,
        program: &mut Program,
        camera: &Camera,
        ambient_light: Option<&AmbientLight>,
        directional_lights: &[DirectionalLight],
        spot_lights: &[SpotLight],
        point_lights: &[PointLight],
    ) -> (r: Result<(), Error>)
        requires
            self.wf(*pool),
            forall|i: int| 0 <= i < directional_lights@.len() ==> directional_lights@[i].uploaded,
            forall|i: int| 0 <= i < spot_lights@.len() ==> spot_lights@[i].uploaded,
            forall|i: int| 0 <= i < point_lights@.len() ==> point_lights@[i].uploaded,
        ensures
            r is Ok,
            final(program)@.id == old(program)@.id,
            final(program)@.log == old(program)@.log + bind_lights_events(
                ambient_view(ambient_light),
                directional_lights@,
                spot_lights@,
                point_lights@,
                camera.position,
            ) + material_bind_events(*self, *pool),
    {
        let result = bind_lights(
            program,
            ambient_light,
            directional_lights,
            spot_lights,
            point_lights,
            camera.position(),
        );
        match result {
            Ok(()) => {},
            Err(e) => {
                proof {
                    assert(false);
                }
                return Err(e);
            },
        }
        let r = self.bind_internal(pool, program);
        proof {
            assert(program@.log =~= old(program)@.log + bind_lights_events(
                ambient_view(ambient_light),
                directional_lights@,
                spot_lights@,
                point_lights@,
                camera.position,
            ) + material_bind_events(*self, *pool));
        }
        r
    }

    /// The fixed-function state this material asks for: the transparency
    /// states exactly when the material is transparent, the opaque defaults
    /// otherwise.
    pub fn render_states(&self, pool: &TexturePool) -> (r: RenderStates)
        requires
            self.wf(*pool),
        ensures
            r == if is_transparent_material(*self, *pool) {
                RenderStates::spec_transparency()
            } else {
                RenderStates::spec_default()
            },
            (r.blend == Blend::Transparency) <==> is_transparent_material(*self, *pool),
    {
        let transparent = self.albedo.a < OPAQUE_ALPHA_THRESHOLD || (match self.albedo_texture {
            Some(r) => pool.texture(r).is_transparent(),
            None => false,
        });
        if transparent {
            RenderStates {
                write_mask: WriteMask::color(),
                blend: Blend::Transparency,
                depth_test: DepthTest::Less,
                cull: Cull::NoCulling,
            }
        } else {
            RenderStates::default()
        }
    }

    /// The fragment shader of this material for the geometry pass of the
    /// deferred pipeline: it writes surface attributes instead of shading.
    pub fn deferred_fragment_shader_source(&self) -> (r: String)
        ensures
            r@ == deferred_material_source(*self),
    {
        let mut out = POSITION_NORMAL_INPUTS.to_owned();
        let defines = material_shader(self);
        out.append(defines.as_str());
        out.append(DEFERRED_OBJECTS_FRAGMENT_CODE);
        proof {
            assert(out@ =~= deferred_material_source(*self));
        }
        out
    }

    /// Registers one more owner of each texture this material references
    /// and hands back a material with the same content: the images on the
    /// GPU are shared, not copied.
    pub fn duplicate(&self, pool: &mut TexturePool) -> (r: Material)
        requires
            self.wf(*old(pool)),
            forall|j: int|
                0 <= j < old(pool)@.len() && old(pool)@[j] is Some
                    ==> old(pool)@[j]->Some_0.refs < usize::MAX - 3,
        ensures
            r.name@ == self.name@,
            r.albedo == self.albedo,
            r.albedo_texture == self.albedo_texture,
            r.metallic == self.metallic,
            r.roughness == self.roughness,
            r.metallic_roughness_texture == self.metallic_roughness_texture,
            r.occlusion_strength == self.occlusion_strength,
            r.occlusion_texture == self.occlusion_texture,
            r.normal_scale == self.normal_scale,
            r.normal_texture == self.normal_texture,
            r.lighting_model == self.lighting_model,
            r.wf(*final(pool)),
            final(pool)@.len() == old(pool)@.len(),
            forall|j: int|
                0 <= j < old(pool)@.len()
                    ==> (final(pool)@[j] is Some <==> old(pool)@[j] is Some),
            forall|j: int|
                0 <= j < old(pool)@.len() && old(pool)@[j] is Some
                    ==> final(pool)@[j]->Some_0.texture == old(pool)@[j]->Some_0.texture,
    {
        if let Some(r) = self.albedo_texture {
            pool.retain(r);
        }
        if let Some(r) = self.metallic_roughness_texture {
            pool.retain(r);
        }
        if let Some(r) = self.occlusion_texture {
            pool.retain(r);
        }
        if let Some(r) = self.normal_texture {
            pool.retain(r);
        }
        Material {
            name: self.name.clone(),
            albedo: self.albedo,
            albedo_texture: self.albedo_texture,
            metallic: self.metallic,
            roughness: self.roughness,
            metallic_roughness_texture: self.metallic_roughness_texture,
            occlusion_strength: self.occlusion_strength,
            occlusion_texture: self.occlusion_texture,
            normal_scale: self.normal_scale,
            normal_texture: self.normal_texture,
            lighting_model: self.lighting_model,
        }
    }

    /// Releases this material's ownership of each texture it references.
    /// A texture whose last owner releases it is deleted on the GPU; one
    /// still held by another owner stays live.
    pub fn destroy(self, context: &mut Context, pool: &mut TexturePool)
        requires
            self.wf(*old(pool)),
            forall|j: int|
                0 <= j < old(pool)@.len() && old(pool)@[j] is Some ==> old(context)@.texture_live(
                    old(pool)@[j]->Some_0.texture.id,
                ),
            forall|j1: int, j2: int|
                0 <= j1 < old(pool)@.len() && 0 <= j2 < old(pool)@.len() && j1 != j2 && old(
                    pool,
                )@[j1] is Some && old(pool)@[j2] is Some ==> old(pool)@[j1]->Some_0.texture.id
                    != old(pool)@[j2]->Some_0.texture.id,
            self.albedo_texture is Some && self.metallic_roughness_texture is Some
                ==> self.albedo_texture->Some_0 != self.metallic_roughness_texture->Some_0,
            self.albedo_texture is Some && self.occlusion_texture is Some
                ==> self.albedo_texture->Some_0 != self.occlusion_texture->Some_0,
            self.albedo_texture is Some && self.normal_texture is Some
                ==> self.albedo_texture->Some_0 != self.normal_texture->Some_0,
            self.metallic_roughness_texture is Some && self.normal_texture is Some
                ==> self.metallic_roughness_texture->Some_0 != self.normal_texture->Some_0,
            self.occlusion_texture is Some && self.normal_texture is Some
                ==> self.occlusion_texture->Some_0 != self.normal_texture->Some_0,
            self.metallic_roughness_texture is Some && self.occlusion_texture is Some
                && self.metallic_roughness_texture->Some_0 == self.occlusion_texture->Some_0
                ==> old(pool).entry(self.metallic_roughness_texture->Some_0).refs >= 2,
        ensures
            forall|j: int|
                0 <= j < old(pool)@.len() && !self.references_slot(j)
                    ==> final(pool)@[j] == old(pool)@[j],
            final(context)@.buffers == old(context)@.buffers,
            final(context)@.framebuffers == old(context)@.framebuffers,
            final(context)@.renderbuffers == old(context)@.renderbuffers,
            final(context)@.programs == old(context)@.programs,
            forall|j: int|
                0 <= j < old(pool)@.len() && self.references_slot(j) ==> {
                    let spent = self.slot_multiplicity(j);
                    let entry = old(pool)@[j]->Some_0;
                    if entry.refs > spent {
                        &&& final(pool)@[j] == Some(
                            PoolEntry { texture: entry.texture, refs: (entry.refs - spent) as usize },
                        )
                        &&& final(context)@.texture_live(entry.texture.id)
                    } else {
                        &&& final(pool)@[j] is None
                        &&& !final(context)@.texture_live(entry.texture.id)
                    }
                },
    {
        if let Some(r) = self.albedo_texture {
            pool.release(context, r);
        }
        if let Some(r) = self.metallic_roughness_texture {
            pool.release(context, r);
        }
        if let Some(r) = self.occlusion_texture {
            pool.release(context, r);
        }
        if let Some(r) = self.normal_texture {
            pool.release(context, r);
        }
    }

    /// True when one of this material's texture fields points at the slot.
    pub open spec fn references_slot(self, j: int) -> bool {
        ||| (self.albedo_texture is Some && self.albedo_texture->Some_0 == j)
        ||| (self.metallic_roughness_texture is Some && self.metallic_roughness_texture->Some_0
            == j)
        ||| (self.occlusion_texture is Some && self.occlusion_texture->Some_0 == j)
        ||| (self.normal_texture is Some && self.normal_texture->Some_0 == j)
    }

    /// How many of this material's texture fields point at the slot.
    pub open spec fn slot_multiplicity(self, j: int) -> nat {
        ((if self.albedo_texture is Some && self.albedo_texture->Some_0 == j {
            1int
        } else {
            0int
        }) + (if self.metallic_roughness_texture is Some
            && self.metallic_roughness_texture->Some_0 == j {
            1int
        } else {
            0int
        }) + (if self.occlusion_texture is Some && self.occlusion_texture->Some_0 == j {
            1int
        } else {
            0int
        }) + (if self.normal_texture is Some && self.normal_texture->Some_0 == j {
            1int
        } else {
            0int
        })) as nat
    }
}

impl Default for Material {
    /// A plain white, fully rough, non-metallic material with no textures,
    /// shaded with the Blinn lighting model.
    fn default() -> (r: Material)
        ensures
            r.name@ == "default"@,
            r.albedo == (Color { r: 255, g: 255, b: 255, a: 255 }),
            r.albedo_texture is None,
            r.metallic == 0,
            r.roughness == 1000,
            r.metallic_roughness_texture is None,
            r.occlusion_strength == 1000,
            r.occlusion_texture is None,
            r.normal_scale == 1000,
            r.normal_texture is None,
            r.lighting_model == LightingModel::Blinn,
    {
        Material {
            name: "default".to_owned(),
            albedo: Color { r: 255, g: 255, b: 255, a: 255 },
            albedo_texture: None,
            metallic: 0,
            roughness: 1000,
            metallic_roughness_texture: None,
            occlusion_strength: 1000,
            occlusion_texture: None,
            normal_scale: 1000,
            normal_texture: None,
            lighting_model: LightingModel::Blinn,
        }
    }
}

/// True when the material is drawn with blending: its base color alpha is
/// below the opaque threshold or its albedo texture holds a transparent
/// pixel.
pub open spec fn is_transparent_material(m: Material, pool: TexturePool) -> bool {
    m.albedo.a < OPAQUE_ALPHA_THRESHOLD || (m.albedo_texture is Some && pool.entry(
        m.albedo_texture->Some_0,
    ).texture.transparent)
}

/// Everything `bind_internal` writes, in order.
pub open spec fn material_bind_events(m: Material, pool: TexturePool) -> Seq<BindEvent> {
    seq![
        BindEvent::UniformScalar { name: METALLIC_NAME@, value: m.metallic },
        BindEvent::UniformScalar { name: ROUGHNESS_NAME@, value: m.roughness },
        BindEvent::UniformColor { name: ALBEDO_NAME@, value: m.albedo },
    ] + (if m.albedo_texture is Some {
        seq![
            BindEvent::Texture {
                name: ALBEDO_TEX_NAME@,
                texture: pool.entry(m.albedo_texture->Some_0).texture.id,
            },
        ]
    } else {
        Seq::empty()
    }) + (if m.metallic_roughness_texture is Some {
        seq![
            BindEvent::Texture {
                name: MR_TEX_NAME@,
                texture: pool.entry(m.metallic_roughness_texture->Some_0).texture.id,
            },
        ]
    } else {
        Seq::empty()
    }) + (if m.occlusion_texture is Some {
        seq![
            BindEvent::UniformScalar { name: OCCLUSION_STRENGTH_NAME@, value: m.occlusion_strength },
            BindEvent::Texture {
                name: OCCLUSION_TEX_NAME@,
                texture: pool.entry(m.occlusion_texture->Some_0).texture.id,
            },
        ]
    } else {
        Seq::empty()
    }) + (if m.normal_texture is Some {
        seq![
            BindEvent::UniformScalar { name: NORMAL_SCALE_NAME@, value: m.normal_scale },
            BindEvent::Texture {
                name: NORMAL_TEX_NAME@,
                texture: pool.entry(m.normal_texture->Some_0).texture.id,
            },
        ]
    } else {
        Seq::empty()
    })
}

/// The preprocessor defines selecting the lighting model.
pub open spec fn model_defines(model: LightingModel) -> Seq<char> {
    match model {
        LightingModel::Phong => MODEL_PHONG_DEFINES@,
        LightingModel::Blinn => MODEL_BLINN_DEFINES@,
        LightingModel::Cook(normal, _) => match normal {
            NormalDistributionFunction::Blinn => COOK_BLINN_DEFINES@,
            NormalDistributionFunction::Beckmann => COOK_BECKMANN_DEFINES@,
            NormalDistributionFunction::TrowbridgeReitzGGX => COOK_GGX_DEFINES@,
        },
    }
}

/// The feature section a material contributes to a composed shader: the
/// texture coordinate input and one define per texture it holds.
pub open spec fn material_defines(m: Material) -> Seq<char> {
    if m.albedo_texture is Some || m.metallic_roughness_texture is Some
        || m.normal_texture is Some || m.occlusion_texture is Some {
        UV_SECTION@ + (if m.albedo_texture is Some {
            ALBEDO_TEXTURE_DEFINE@
        } else {
            Seq::empty()
        }) + (if m.metallic_roughness_texture is Some {
            MR_TEXTURE_DEFINE@
        } else {
            Seq::empty()
        }) + (if m.occlusion_texture is Some {
            OCCLUSION_TEXTURE_DEFINE@
        } else {
            Seq::empty()
        }) + (if m.normal_texture is Some {
            NORMAL_TEXTURE_DEFINE@
        } else {
            Seq::empty()
        })
    } else {
        Seq::empty()
    }
}

/// The uniform declarations and the unrolled accumulation function of the
/// lighting computation, for the given light counts: one sampler and one
/// parameter block per shadowed light kind instance, indexed 0 up to its
/// count, and one shading call per light folded into the accumulator.
pub open spec fn lighting_declarations(d: nat, s: nat, p: nat) -> Seq<char> {
    LIGHTING_HEADER_A@ + directional_uniform_section(d) + DIR_SECTION_COMMENT@
        + spot_uniform_section(s) + SPOT_SECTION_COMMENT@ + point_uniform_section(p)
        + LIGHTING_HEADER_MID@ + directional_call_section(d) + DIR_SECTION_COMMENT@
        + spot_call_section(s) + SPOT_SECTION_COMMENT@ + point_call_section(p)
        + LIGHTING_HEADER_END@
}

/// The section contributed by the material, or the geometry buffer inputs
/// when the shader is composed for the deferred lighting pass.
pub open spec fn material_section(material: Option<Material>) -> Seq<char> {
    match material {
        Some(m) => material_defines(m),
        None => DEFERRED_SECTION@,
    }
}

/// The complete composed fragment shader: lighting model defines, shared
/// utilities, light structures, the unrolled lighting function for the
/// given light counts, the geometric inputs, the material's section and
/// the final shading stage. A pure function of its inputs: identical
/// inputs give byte-identical text.
pub open spec fn shaded_source(
    model: LightingModel,
    material: Option<Material>,
    d: nat,
    s: nat,
    p: nat,
) -> Seq<char> {
    model_defines(model) + NEWLINE@ + SHARED_FRAGMENT_CODE@ + NEWLINE@
        + LIGHT_SHARED_FRAGMENT_CODE@ + NEWLINE@ + lighting_declarations(d, s, p) + NEWLINE@
        + POSITION_NORMAL_INPUTS@ + material_section(material) + NEWLINE@
        + LIGHTING_FRAGMENT_CODE@
}

/// The geometry pass fragment shader of a physically-based material.
pub open spec fn deferred_material_source(m: Material) -> Seq<char> {
    POSITION_NORMAL_INPUTS@ + material_defines(m) + DEFERRED_OBJECTS_FRAGMENT_CODE@
}

/// The material's option at the specification level.
pub open spec fn material_view(material: Option<&Material>) -> Option<Material> {
    match material {
        Some(m) => Some(*m),
        None => None,
    }
}

/// The composer is deterministic: two composed sources for the same
/// lighting model, the same material texture set and the same light
/// counts are byte-identical, which is what lets a compiled shader be
/// cached under its composition tuple.
pub proof fn lemma_composer_deterministic(
    model: LightingModel,
    material: Option<Material>,
    d: nat,
    s: nat,
    p: nat,
    first: Seq<char>,
    second: Seq<char>,
)
    requires
        first == shaded_source(model, material, d, s, p),
        second == shaded_source(model, material, d, s, p),
    ensures
        first == second,
{
}

/// With zero lights of every kind the composed source is nothing but the
/// fixed boilerplate: no shadow map sampler, no light parameter block and
/// no shading call of any index appears, while the ambient color uniform
/// and the ambient accumulation term are still part of the fixed header.
pub proof fn lemma_zero_lights_source_is_fixed(model: LightingModel, material: Option<Material>)
    ensures
        shaded_source(model, material, 0, 0, 0) == source_head(model) + LIGHTING_HEADER_A@
            + DIR_SECTION_COMMENT@ + SPOT_SECTION_COMMENT@ + LIGHTING_HEADER_MID@
            + DIR_SECTION_COMMENT@ + SPOT_SECTION_COMMENT@ + LIGHTING_HEADER_END@ + NEWLINE@
            + POSITION_NORMAL_INPUTS@ + material_section(material) + NEWLINE@
            + LIGHTING_FRAGMENT_CODE@,
{
    assert(directional_uniform_section(0) == Seq::<char>::empty());
    assert(spot_uniform_section(0) == Seq::<char>::empty());
    assert(point_uniform_section(0) == Seq::<char>::empty());
    assert(directional_call_section(0) == Seq::<char>::empty());
    assert(spot_call_section(0) == Seq::<char>::empty());
    assert(point_call_section(0) == Seq::<char>::empty());
    assert(shaded_source(model, material, 0, 0, 0) =~= source_head(model) + LIGHTING_HEADER_A@
        + DIR_SECTION_COMMENT@ + SPOT_SECTION_COMMENT@ + LIGHTING_HEADER_MID@
        + DIR_SECTION_COMMENT@ + SPOT_SECTION_COMMENT@ + LIGHTING_HEADER_END@ + NEWLINE@
        + POSITION_NORMAL_INPUTS@ + material_section(material) + NEWLINE@
        + LIGHTING_FRAGMENT_CODE@);
}

/// With zero spot and zero point lights the composed source holds, beyond
/// the fixed boilerplate, exactly the directional sections: the uniform
/// blocks 0..d and the shading calls 0..d, and no spot or point content
/// of any index.
pub proof fn lemma_directional_only_source(
    model: LightingModel,
    material: Option<Material>,
    d: nat,
)
    ensures
        shaded_source(model, material, d, 0, 0) == source_head(model) + LIGHTING_HEADER_A@
            + directional_uniform_section(d) + DIR_SECTION_COMMENT@ + SPOT_SECTION_COMMENT@
            + LIGHTING_HEADER_MID@ + directional_call_section(d) + DIR_SECTION_COMMENT@
            + SPOT_SECTION_COMMENT@ + LIGHTING_HEADER_END@ + NEWLINE@ + POSITION_NORMAL_INPUTS@
            + material_section(material) + NEWLINE@ + LIGHTING_FRAGMENT_CODE@,
{
    assert(spot_uniform_section(0) == Seq::<char>::empty());
    assert(point_uniform_section(0) == Seq::<char>::empty());
    assert(spot_call_section(0) == Seq::<char>::empty());
    assert(point_call_section(0) == Seq::<char>::empty());
    assert(shaded_source(model, material, d, 0, 0) =~= source_head(model) + LIGHTING_HEADER_A@
        + directional_uniform_section(d) + DIR_SECTION_COMMENT@ + SPOT_SECTION_COMMENT@
        + LIGHTING_HEADER_MID@ + directional_call_section(d) + DIR_SECTION_COMMENT@
        + SPOT_SECTION_COMMENT@ + LIGHTING_HEADER_END@ + NEWLINE@ + POSITION_NORMAL_INPUTS@
        + material_section(material) + NEWLINE@ + LIGHTING_FRAGMENT_CODE@);
}

/// Sources composed for different directional light counts, the other
/// inputs equal, are never byte-identical: the count is compiled into the
/// text, so a cached shader serves exactly its own composition tuple and
/// no declaration set of another count can coincide with it.
pub proof fn lemma_distinct_directional_counts_distinct_sources(
    model: LightingModel,
    material: Option<Material>,
    d1: nat,
    d2: nat,
    s: nat,
    p: nat,
)
    requires
        d1 != d2,
    ensures
        shaded_source(model, material, d1, s, p) != shaded_source(model, material, d2, s, p),
{
    if d1 < d2 {
        crate::shader::lemma_directional_uniform_section_grows(d1, d2);
        crate::shader::lemma_directional_call_section_grows(d1, d2);
    } else {
        crate::shader::lemma_directional_uniform_section_grows(d2, d1);
        crate::shader::lemma_directional_call_section_grows(d2, d1);
    }
    assert(shaded_source(model, material, d1, s, p).len() != shaded_source(
        model,
        material,
        d2,
        s,
        p,
    ).len());
}

/// Sources composed for different spot light counts, the other inputs
/// equal, are never byte-identical.
pub proof fn lemma_distinct_spot_counts_distinct_sources(
    model: LightingModel,
    material: Option<Material>,
    d: nat,
    s1: nat,
    s2: nat,
    p: nat,
)
    requires
        s1 != s2,
    ensures
        shaded_source(model, material, d, s1, p) != shaded_source(model, material, d, s2, p),
{
    if s1 < s2 {
        crate::shader::lemma_spot_uniform_section_grows(s1, s2);
        crate::shader::lemma_spot_call_section_grows(s1, s2);
    } else {
        crate::shader::lemma_spot_uniform_section_grows(s2, s1);
        crate::shader::lemma_spot_call_section_grows(s2, s1);
    }
    assert(shaded_source(model, material, d, s1, p).len() != shaded_source(
        model,
        material,
        d,
        s2,
        p,
    ).len());
}

/// Sources composed for different point light counts, the other inputs
/// equal, are never byte-identical.
pub proof fn lemma_distinct_point_counts_distinct_sources(
    model: LightingModel,
    material: Option<Material>,
    d: nat,
    s: nat,
    p1: nat,
    p2: nat,
)
    requires
        p1 != p2,
    ensures
        shaded_source(model, material, d, s, p1) != shaded_source(model, material, d, s, p2),
{
    if p1 < p2 {
        crate::shader::lemma_point_uniform_section_grows(p1, p2);
        crate::shader::lemma_point_call_section_grows(p1, p2);
    } else {
        crate::shader::lemma_point_uniform_section_grows(p2, p1);
        crate::shader::lemma_point_call_section_grows(p2, p1);
    }
    assert(shaded_source(model, material, d, s, p1).len() != shaded_source(
        model,
        material,
        d,
        s,
        p2,
    ).len());
}

/// The text of the composed source before the lighting declarations: the
/// lighting model defines and the shared fragment utilities.
pub open spec fn source_head(model: LightingModel) -> Seq<char> {
    model_defines(model) + NEWLINE@ + SHARED_FRAGMENT_CODE@ + NEWLINE@
        + LIGHT_SHARED_FRAGMENT_CODE@ + NEWLINE@
}

/// A slice of the lighting declarations reads the same inside the whole
/// composed source, shifted by the head's length.
proof fn lemma_declarations_embed_in_source(
    model: LightingModel,
    material: Option<Material>,
    d: nat,
    s: nat,
    p: nat,
    pos: int,
    len: int,
)
    requires
        0 <= pos,
        0 <= len,
        pos + len <= lighting_declarations(d, s, p).len(),
    ensures
        shaded_source(model, material, d, s, p).subrange(
            source_head(model).len() + pos,
            source_head(model).len() + pos + len,
        ) == lighting_declarations(d, s, p).subrange(pos, pos + len),
{
    let a = source_head(model);
    let decls = lighting_declarations(d, s, p);
    crate::shader::lemma_subrange_of_concat_right(a, decls, pos, len);
    let q = a.len() + pos;
    let u0 = a + decls;
    let u1 = u0 + NEWLINE@;
    crate::shader::lemma_subrange_of_concat_left(u0, NEWLINE@, q, len);
    let u2 = u1 + POSITION_NORMAL_INPUTS@;
    crate::shader::lemma_subrange_of_concat_left(u1, POSITION_NORMAL_INPUTS@, q, len);
    let u3 = u2 + material_section(material);
    crate::shader::lemma_subrange_of_concat_left(u2, material_section(material), q, len);
    let u4 = u3 + NEWLINE@;
    crate::shader::lemma_subrange_of_concat_left(u3, NEWLINE@, q, len);
    let u5 = u4 + LIGHTING_FRAGMENT_CODE@;
    crate::shader::lemma_subrange_of_concat_left(u4, LIGHTING_FRAGMENT_CODE@, q, len);
    assert(u5 == shaded_source(model, material, d, s, p));
}

/// Each of the `d` directional lights has its whole uniform block, the
/// shadow map sampler and the parameter block named by its index, inside
/// the composed source.
#[verifier::rlimit(100)]
pub proof fn lemma_shaded_source_contains_directional_block(
    model: LightingModel,
    material: Option<Material>,
    d: nat,
    s: nat,
    p: nat,
    i: nat,
)
    requires
        i < d,
    ensures
        exists|off: int|
            {
                &&& 0 <= off
                &&& off + directional_uniform_block(i).len() <= shaded_source(
                    model,
                    material,
                    d,
                    s,
                    p,
                ).len()
                &&& #[trigger] shaded_source(model, material, d, s, p).subrange(
                    off,
                    off + directional_uniform_block(i).len() as int,
                ) == directional_uniform_block(i)
            },
{
    let blk = directional_uniform_block(i);
    let blen = blk.len() as int;
    crate::shader::lemma_directional_section_contains_block(d, i);
    let off = choose|off: int|
        {
            &&& 0 <= off
            &&& off + directional_uniform_block(i).len() <= directional_uniform_section(d).len()
            &&& #[trigger] directional_uniform_section(d).subrange(
                off,
                off + directional_uniform_block(i).len() as int,
            ) == directional_uniform_block(i)
        };
    let ha = LIGHTING_HEADER_A@;
    let t0 = ha + directional_uniform_section(d);
    crate::shader::lemma_subrange_of_concat_right(
        ha,
        directional_uniform_section(d),
        off,
        blen,
    );
    let p0 = ha.len() + off;
    let t1 = t0 + DIR_SECTION_COMMENT@;
    crate::shader::lemma_subrange_of_concat_left(t0, DIR_SECTION_COMMENT@, p0, blen);
    let t2 = t1 + spot_uniform_section(s);
    crate::shader::lemma_subrange_of_concat_left(t1, spot_uniform_section(s), p0, blen);
    let t3 = t2 + SPOT_SECTION_COMMENT@;
    crate::shader::lemma_subrange_of_concat_left(t2, SPOT_SECTION_COMMENT@, p0, blen);
    let t4 = t3 + point_uniform_section(p);
    crate::shader::lemma_subrange_of_concat_left(t3, point_uniform_section(p), p0, blen);
    let t5 = t4 + LIGHTING_HEADER_MID@;
    crate::shader::lemma_subrange_of_concat_left(t4, LIGHTING_HEADER_MID@, p0, blen);
    let t6 = t5 + directional_call_section(d);
    crate::shader::lemma_subrange_of_concat_left(t5, directional_call_section(d), p0, blen);
    let t7 = t6 + DIR_SECTION_COMMENT@;
    crate::shader::lemma_subrange_of_concat_left(t6, DIR_SECTION_COMMENT@, p0, blen);
    let t8 = t7 + spot_call_section(s);
    crate::shader::lemma_subrange_of_concat_left(t7, spot_call_section(s), p0, blen);
    let t9 = t8 + SPOT_SECTION_COMMENT@;
    crate::shader::lemma_subrange_of_concat_left(t8, SPOT_SECTION_COMMENT@, p0, blen);
    let t10 = t9 + point_call_section(p);
    crate::shader::lemma_subrange_of_concat_left(t9, point_call_section(p), p0, blen);
    let t11 = t10 + LIGHTING_HEADER_END@;
    crate::shader::lemma_subrange_of_concat_left(t10, LIGHTING_HEADER_END@, p0, blen);
    assert(t11 == lighting_declarations(d, s, p));
    lemma_declarations_embed_in_source(model, material, d, s, p, p0, blen);
    assert(shaded_source(model, material, d, s, p).subrange(
        source_head(model).len() + p0,
        source_head(model).len() + p0 + blen,
    ) == blk);
}

/// Each of the `s` spot lights has its whole uniform block inside the
/// composed source.
#[verifier::rlimit(100)]
pub proof fn lemma_shaded_source_contains_spot_block(
    model: LightingModel,
    material: Option<Material>,
    d: nat,
    s: nat,
    p: nat,
    i: nat,
)
    requires
        i < s,
    ensures
        exists|off: int|
            {
                &&& 0 <= off
                &&& off + spot_uniform_block(i).len() <= shaded_source(
                    model,
                    material,
                    d,
                    s,
                    p,
                ).len()
                &&& #[trigger] shaded_source(model, material, d, s, p).subrange(
                    off,
                    off + spot_uniform_block(i).len() as int,
                ) == spot_uniform_block(i)
            },
{
    let blk = spot_uniform_block(i);
    let blen = blk.len() as int;
    crate::shader::lemma_spot_section_contains_block(s, i);
    let off = choose|off: int|
        {
            &&& 0 <= off
            &&& off + spot_uniform_block(i).len() <= spot_uniform_section(s).len()
            &&& #[trigger] spot_uniform_section(s).subrange(
                off,
                off + spot_uniform_block(i).len() as int,
            ) == spot_uniform_block(i)
        };
    let t1 = LIGHTING_HEADER_A@ + directional_uniform_section(d) + DIR_SECTION_COMMENT@;
    let t2 = t1 + spot_uniform_section(s);
    crate::shader::lemma_subrange_of_concat_right(t1, spot_uniform_section(s), off, blen);
    let p0 = t1.len() + off;
    let t3 = t2 + SPOT_SECTION_COMMENT@;
    crate::shader::lemma_subrange_of_concat_left(t2, SPOT_SECTION_COMMENT@, p0, blen);
    let t4 = t3 + point_uniform_section(p);
    crate::shader::lemma_subrange_of_concat_left(t3, point_uniform_section(p), p0, blen);
    let t5 = t4 + LIGHTING_HEADER_MID@;
    crate::shader::lemma_subrange_of_concat_left(t4, LIGHTING_HEADER_MID@, p0, blen);
    let t6 = t5 + directional_call_section(d);
    crate::shader::lemma_subrange_of_concat_left(t5, directional_call_section(d), p0, blen);
    let t7 = t6 + DIR_SECTION_COMMENT@;
    crate::shader::lemma_subrange_of_concat_left(t6, DIR_SECTION_COMMENT@, p0, blen);
    let t8 = t7 + spot_call_section(s);
    crate::shader::lemma_subrange_of_concat_left(t7, spot_call_section(s), p0, blen);
    let t9 = t8 + SPOT_SECTION_COMMENT@;
    crate::shader::lemma_subrange_of_concat_left(t8, SPOT_SECTION_COMMENT@, p0, blen);
    let t10 = t9 + point_call_section(p);
    crate::shader::lemma_subrange_of_concat_left(t9, point_call_section(p), p0, blen);
    let t11 = t10 + LIGHTING_HEADER_END@;
    crate::shader::lemma_subrange_of_concat_left(t10, LIGHTING_HEADER_END@, p0, blen);
    assert(t11 == lighting_declarations(d, s, p));
    lemma_declarations_embed_in_source(model, material, d, s, p, p0, blen);
    assert(shaded_source(model, material, d, s, p).subrange(
        source_head(model).len() + p0,
        source_head(model).len() + p0 + blen,
    ) == blk);
}

/// Each of the `p` point lights has its whole parameter block declaration
/// inside the composed source.
#[verifier::rlimit(100)]
pub proof fn lemma_shaded_source_contains_point_block(
    model: LightingModel,
    material: Option<Material>,
    d: nat,
    s: nat,
    p: nat,
    i: nat,
)
    requires
        i < p,
    ensures
        exists|off: int|
            {
                &&& 0 <= off
                &&& off + point_uniform_block(i).len() <= shaded_source(
                    model,
                    material,
                    d,
                    s,
                    p,
                ).len()
                &&& #[trigger] shaded_source(model, material, d, s, p).subrange(
                    off,
                    off + point_uniform_block(i).len() as int,
                ) == point_uniform_block(i)
            },
{
    let blk = point_uniform_block(i);
    let blen = blk.len() as int;
    crate::shader::lemma_point_section_contains_block(p, i);
    let off = choose|off: int|
        {
            &&& 0 <= off
            &&& off + point_uniform_block(i).len() <= point_uniform_section(p).len()
            &&& #[trigger] point_uniform_section(p).subrange(
                off,
                off + point_uniform_block(i).len() as int,
            ) == point_uniform_block(i)
        };
    let t3 = LIGHTING_HEADER_A@ + directional_uniform_section(d) + DIR_SECTION_COMMENT@
        + spot_uniform_section(s) + SPOT_SECTION_COMMENT@;
    let t4 = t3 + point_uniform_section(p);
    crate::shader::lemma_subrange_of_concat_right(t3, point_uniform_section(p), off, blen);
    let p0 = t3.len() + off;
    let t5 = t4 + LIGHTING_HEADER_MID@;
    crate::shader::lemma_subrange_of_concat_left(t4, LIGHTING_HEADER_MID@, p0, blen);
    let t6 = t5 + directional_call_section(d);
    crate::shader::lemma_subrange_of_concat_left(t5, directional_call_section(d), p0, blen);
    let t7 = t6 + DIR_SECTION_COMMENT@;
    crate::shader::lemma_subrange_of_concat_left(t6, DIR_SECTION_COMMENT@, p0, blen);
    let t8 = t7 + spot_call_section(s);
    crate::shader::lemma_subrange_of_concat_left(t7, spot_call_section(s), p0, blen);
    let t9 = t8 + SPOT_SECTION_COMMENT@;
    crate::shader::lemma_subrange_of_concat_left(t8, SPOT_SECTION_COMMENT@, p0, blen);
    let t10 = t9 + point_call_section(p);
    crate::shader::lemma_subrange_of_concat_left(t9, point_call_section(p), p0, blen);
    let t11 = t10 + LIGHTING_HEADER_END@;
    crate::shader::lemma_subrange_of_concat_left(t10, LIGHTING_HEADER_END@, p0, blen);
    assert(t11 == lighting_declarations(d, s, p));
    lemma_declarations_embed_in_source(model, material, d, s, p, p0, blen);
    assert(shaded_source(model, material, d, s, p).subrange(
        source_head(model).len() + p0,
        source_head(model).len() + p0 + blen,
    ) == blk);
}


/// Each of the `d` directional lights has its shading call, named by its
/// index and folded into the unrolled accumulation function, inside the
/// composed source.
#[verifier::rlimit(100)]
pub proof fn lemma_shaded_source_contains_directional_call(
    model: LightingModel,
    material: Option<Material>,
    d: nat,
    s: nat,
    p: nat,
    i: nat,
)
    requires
        i < d,
    ensures
        exists|off: int|
            {
                &&& 0 <= off
                &&& off + directional_call_line(i).len() <= shaded_source(
                    model,
                    material,
                    d,
                    s,
                    p,
                ).len()
                &&& #[trigger] shaded_source(model, material, d, s, p).subrange(
                    off,
                    off + directional_call_line(i).len() as int,
                ) == directional_call_line(i)
            },
{
    let blk = directional_call_line(i);
    let blen = blk.len() as int;
    crate::shader::lemma_directional_calls_contain_line(d, i);
    let off = choose|off: int|
        {
            &&& 0 <= off
            &&& off + directional_call_line(i).len() <= directional_call_section(d).len()
            &&& #[trigger] directional_call_section(d).subrange(
                off,
                off + directional_call_line(i).len() as int,
            ) == directional_call_line(i)
        };
    let t5 = LIGHTING_HEADER_A@ + directional_uniform_section(d) + DIR_SECTION_COMMENT@
        + spot_uniform_section(s) + SPOT_SECTION_COMMENT@ + point_uniform_section(p)
        + LIGHTING_HEADER_MID@;
    let t6 = t5 + directional_call_section(d);
    crate::shader::lemma_subrange_of_concat_right(t5, directional_call_section(d), off, blen);
    let p0 = t5.len() + off;
    let t7 = t6 + DIR_SECTION_COMMENT@;
    crate::shader::lemma_subrange_of_concat_left(t6, DIR_SECTION_COMMENT@, p0, blen);
    let t8 = t7 + spot_call_section(s);
    crate::shader::lemma_subrange_of_concat_left(t7, spot_call_section(s), p0, blen);
    let t9 = t8 + SPOT_SECTION_COMMENT@;
    crate::shader::lemma_subrange_of_concat_left(t8, SPOT_SECTION_COMMENT@, p0, blen);
    let t10 = t9 + point_call_section(p);
    crate::shader::lemma_subrange_of_concat_left(t9, point_call_section(p), p0, blen);
    let t11 = t10 + LIGHTING_HEADER_END@;
    crate::shader::lemma_subrange_of_concat_left(t10, LIGHTING_HEADER_END@, p0, blen);
    assert(t11 == lighting_declarations(d, s, p));
    lemma_declarations_embed_in_source(model, material, d, s, p, p0, blen);
    assert(shaded_source(model, material, d, s, p).subrange(
        source_head(model).len() + p0,
        source_head(model).len() + p0 + blen,
    ) == blk);
}

/// Each of the `s` spot lights has its shading call inside the composed
/// source.
#[verifier::rlimit(100)]
pub proof fn lemma_shaded_source_contains_spot_call(
    model: LightingModel,
    material: Option<Material>,
    d: nat,
    s: nat,
    p: nat,
    i: nat,
)
    requires
        i < s,
    ensures
        exists|off: int|
            {
                &&& 0 <= off
                &&& off + spot_call_line(i).len() <= shaded_source(
                    model,
                    material,
                    d,
                    s,
                    p,
                ).len()
                &&& #[trigger] shaded_source(model, material, d, s, p).subrange(
                    off,
                    off + spot_call_line(i).len() as int,
                ) == spot_call_line(i)
            },
{
    let blk = spot_call_line(i);
    let blen = blk.len() as int;
    crate::shader::lemma_spot_calls_contain_line(s, i);
    let off = choose|off: int|
        {
            &&& 0 <= off
            &&& off + spot_call_line(i).len() <= spot_call_section(s).len()
            &&& #[trigger] spot_call_section(s).subrange(
                off,
                off + spot_call_line(i).len() as int,
            ) == spot_call_line(i)
        };
    let t7 = LIGHTING_HEADER_A@ + directional_uniform_section(d) + DIR_SECTION_COMMENT@
        + spot_uniform_section(s) + SPOT_SECTION_COMMENT@ + point_uniform_section(p)
        + LIGHTING_HEADER_MID@ + directional_call_section(d) + DIR_SECTION_COMMENT@;
    let t8 = t7 + spot_call_section(s);
    crate::shader::lemma_subrange_of_concat_right(t7, spot_call_section(s), off, blen);
    let p0 = t7.len() + off;
    let t9 = t8 + SPOT_SECTION_COMMENT@;
    crate::shader::lemma_subrange_of_concat_left(t8, SPOT_SECTION_COMMENT@, p0, blen);
    let t10 = t9 + point_call_section(p);
    crate::shader::lemma_subrange_of_concat_left(t9, point_call_section(p), p0, blen);
    let t11 = t10 + LIGHTING_HEADER_END@;
    crate::shader::lemma_subrange_of_concat_left(t10, LIGHTING_HEADER_END@, p0, blen);
    assert(t11 == lighting_declarations(d, s, p));
    lemma_declarations_embed_in_source(model, material, d, s, p, p0, blen);
    assert(shaded_source(model, material, d, s, p).subrange(
        source_head(model).len() + p0,
        source_head(model).len() + p0 + blen,
    ) == blk);
}

/// Each of the `p` point lights has its shading call inside the composed
/// source.
#[verifier::rlimit(100)]
pub proof fn lemma_shaded_source_contains_point_call(
    model: LightingModel,
    material: Option<Material>,
    d: nat,
    s: nat,
    p: nat,
    i: nat,
)
    requires
        i < p,
    ensures
        exists|off: int|
            {
                &&& 0 <= off
                &&& off + point_call_line(i).len() <= shaded_source(
                    model,
                    material,
                    d,
                    s,
                    p,
                ).len()
                &&& #[trigger] shaded_source(model, material, d, s, p).subrange(
                    off,
                    off + point_call_line(i).len() as int,
                ) == point_call_line(i)
            },
{
    let blk = point_call_line(i);
    let blen = blk.len() as int;
    crate::shader::lemma_point_calls_contain_line(p, i);
    let off = choose|off: int|
        {
            &&& 0 <= off
            &&& off + point_call_line(i).len() <= point_call_section(p).len()
            &&& #[trigger] point_call_section(p).subrange(
                off,
                off + point_call_line(i).len() as int,
            ) == point_call_line(i)
        };
    let t9 = LIGHTING_HEADER_A@ + directional_uniform_section(d) + DIR_SECTION_COMMENT@
        + spot_uniform_section(s) + SPOT_SECTION_COMMENT@ + point_uniform_section(p)
        + LIGHTING_HEADER_MID@ + directional_call_section(d) + DIR_SECTION_COMMENT@
        + spot_call_section(s) + SPOT_SECTION_COMMENT@;
    let t10 = t9 + point_call_section(p);
    crate::shader::lemma_subrange_of_concat_right(t9, point_call_section(p), off, blen);
    let p0 = t9.len() + off;
    let t11 = t10 + LIGHTING_HEADER_END@;
    crate::shader::lemma_subrange_of_concat_left(t10, LIGHTING_HEADER_END@, p0, blen);
    assert(t11 == lighting_declarations(d, s, p));
    lemma_declarations_embed_in_source(model, material, d, s, p, p0, blen);
    assert(shaded_source(model, material, d, s, p).subrange(
        source_head(model).len() + p0,
        source_head(model).len() + p0 + blen,
    ) == blk);
}

/// A material whose occlusion slot shares its metallic-roughness texture
/// binds that one texture under both sampler names; no other image is
/// bound for either slot.
pub proof fn lemma_combined_texture_bound_twice(m: Material, pool: TexturePool)
    requires
        m.metallic_roughness_texture is Some,
        m.occlusion_texture == m.metallic_roughness_texture,
        m.wf(pool),
    ensures
        material_bind_events(m, pool).contains(
            BindEvent::Texture {
                name: MR_TEX_NAME@,
                texture: pool.entry(m.metallic_roughness_texture->Some_0).texture.id,
            },
        ),
        material_bind_events(m, pool).contains(
            BindEvent::Texture {
                name: OCCLUSION_TEX_NAME@,
                texture: pool.entry(m.metallic_roughness_texture->Some_0).texture.id,
            },
        ),
{
    let evs = material_bind_events(m, pool);
    let albedo_len: int = if m.albedo_texture is Some {
        1
    } else {
        0
    };
    let id = pool.entry(m.metallic_roughness_texture->Some_0).texture.id;
    assert(evs[3 + albedo_len] == BindEvent::Texture { name: MR_TEX_NAME@, texture: id });
    assert(evs[3 + albedo_len + 2] == BindEvent::Texture {
        name: OCCLUSION_TEX_NAME@,
        texture: id,
    });
}

/// The defines of the active lighting model.
fn model_defines_str(model: LightingModel) -> (r: &'static str)
    ensures
        r@ == model_defines(model),
{
    match model {
        LightingModel::Phong => MODEL_PHONG_DEFINES,
        LightingModel::Blinn => MODEL_BLINN_DEFINES,
        LightingModel::Cook(normal, _) => match normal {
            NormalDistributionFunction::Blinn => COOK_BLINN_DEFINES,
            NormalDistributionFunction::Beckmann => COOK_BECKMANN_DEFINES,
            NormalDistributionFunction::TrowbridgeReitzGGX => COOK_GGX_DEFINES,
        },
    }
}

/// The material's contribution to a composed shader.
pub fn material_shader(material: &Material) -> (r: String)
    ensures
        r@ == material_defines(*material),
{
    let mut output = String::new();
    if material.albedo_texture.is_some() || material.metallic_roughness_texture.is_some()
        || material.normal_texture.is_some() || material.occlusion_texture.is_some() {
        output.append(UV_SECTION);
        if material.albedo_texture.is_some() {
            output.append(ALBEDO_TEXTURE_DEFINE);
        }
        if material.metallic_roughness_texture.is_some() {
            output.append(MR_TEXTURE_DEFINE);
        }
        if material.occlusion_texture.is_some() {
            output.append(OCCLUSION_TEXTURE_DEFINE);
        }
        if material.normal_texture.is_some() {
            output.append(NORMAL_TEXTURE_DEFINE);
        }
    }
    proof {
        assert(output@ =~= material_defines(*material));
    }
    output
}

/// Assembles the complete fragment shader for the given lighting model,
/// optional material contribution and light counts. The per-light sections
/// are unrolled textually, since the light count must be compiled into a
/// fixed shader; identical inputs give byte-identical text.
#[verifier::rlimit(100)]
pub fn shaded_fragment_shader(
    lighting_model: LightingModel,
    material: Option<&Material>,
    directional_lights: usize,
    spot_lights: usize,
    point_lights: usize,
) -> (r: String)
    requires
        directional_lights <= MAX_LIGHTS,
        spot_lights <= MAX_LIGHTS,
        point_lights <= MAX_LIGHTS,
    ensures
        r@ == shaded_source(
            lighting_model,
            material_view(material),
            directional_lights as nat,
            spot_lights as nat,
            point_lights as nat,
        ),
{
    let mut out = model_defines_str(lighting_model).to_owned();
    out.append(NEWLINE);
    out.append(SHARED_FRAGMENT_CODE);
    out.append(NEWLINE);
    out.append(LIGHT_SHARED_FRAGMENT_CODE);
    out.append(NEWLINE);
    out.append(LIGHTING_HEADER_A);
    push_directional_uniform_section(&mut out, directional_lights);
    out.append(DIR_SECTION_COMMENT);
    push_spot_uniform_section(&mut out, spot_lights);
    out.append(SPOT_SECTION_COMMENT);
    push_point_uniform_section(&mut out, point_lights);
    out.append(LIGHTING_HEADER_MID);
    push_directional_call_section(&mut out, directional_lights);
    out.append(DIR_SECTION_COMMENT);
    push_spot_call_section(&mut out, spot_lights);
    out.append(SPOT_SECTION_COMMENT);
    push_point_call_section(&mut out, point_lights);
    out.append(LIGHTING_HEADER_END);
    out.append(NEWLINE);
    out.append(POSITION_NORMAL_INPUTS);
    match material {
        Some(m) => {
            let part = material_shader(m);
            out.append(part.as_str());
        },
        None => {
            out.append(DEFERRED_SECTION);
        },
    }
    out.append(NEWLINE);
    out.append(LIGHTING_FRAGMENT_CODE);
    proof {
        assert(out@ =~= shaded_source(
            lighting_model,
            material_view(material),
            directional_lights as nat,
            spot_lights as nat,
            point_lights as nat,
        ));
    }
    out
}

} // verus!
