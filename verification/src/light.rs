use vstd::prelude::*;

use crate::context::{Context, ContextState};
use crate::program::{BindEvent, Program};
use crate::shader::{dec_rep, push_decimal};
use crate::types::{Color, Error, Vector3};

verus! {

pub const AMBIENT_COLOR_NAME: &'static str = "ambientColor";

pub const EYE_POSITION_NAME: &'static str = "eyePosition";

pub const DIR_SHADOW_NAME: &'static str = "directionalShadowMap";

pub const DIR_BLOCK_NAME: &'static str = "DirectionalLightUniform";

pub const SPOT_SHADOW_NAME: &'static str = "spotShadowMap";

pub const SPOT_BLOCK_NAME: &'static str = "SpotLightUniform";

pub const POINT_BLOCK_NAME: &'static str = "PointLightUniform";

/// A light shining equally on every surface; it has a color and an
/// intensity but no position.
#[derive(Clone, Copy, PartialEq, Eq, Structural)]
pub struct AmbientLight {
    pub color: Color,
    /// Fixed-point thousandths.
    pub intensity: u32,
}

impl AmbientLight {
    pub fn new(color: Color, intensity: u32) -> (r: AmbientLight)
        ensures
            r == (AmbientLight { color, intensity }),
    {
        AmbientLight { color, intensity }
    }
}

/// A light shining from one direction everywhere. It owns a GPU parameter
/// block and a shadow map texture.
#[derive(Clone, Copy, PartialEq, Eq, Structural)]
pub struct DirectionalLight {
    pub color: Color,
    /// Fixed-point thousandths.
    pub intensity: u32,
    pub direction: Vector3,
    /// The depth texture its shadow pass renders into.
    pub shadow_texture: u32,
    /// The GPU parameter block mirroring the logical fields.
    pub buffer: u32,
    /// Whether the shadow pass renders a shadow map for this light.
    pub shadow_enabled: bool,
    /// Whether the shadow map holds a rendering of the current scene.
    pub shadow_rendered: bool,
    /// The side length of the shadow map texture.
    pub shadow_map_size: usize,
    /// Whether the parameter block mirrors the logical fields. Any change
    /// of a logical field clears this; it must be set again, by uploading,
    /// before the light is bound for rendering.
    pub uploaded: bool,
}

impl DirectionalLight {
    /// True while the light's GPU resources are allocated in the context.
    pub open spec fn wf(self, ctx: ContextState) -> bool {
        ctx.buffer_live(self.buffer) && ctx.texture_live(self.shadow_texture)
    }

    /// Creates the light and its GPU resources: a parameter block and an
    /// initial one-pixel shadow map. The parameter block starts uploaded.
    pub fn new(context: &mut Context, color: Color, intensity: u32, direction: Vector3) -> (r:
        Result<DirectionalLight, Error>)
        ensures
            match r {
                Ok(l) => {
                    &&& final(context)@ == (ContextState {
                        buffers: old(context)@.buffers.push(true),
                        textures: old(context)@.textures.push(true),
                        ..old(context)@
                    })
                    &&& l.wf(final(context)@)
                    &&& !old(context)@.buffer_live(l.buffer)
                    &&& !old(context)@.texture_live(l.shadow_texture)
                    &&& l.color == color
                    &&& l.intensity == intensity
                    &&& l.direction == direction
                    &&& !l.shadow_enabled
                    &&& !l.shadow_rendered
                    &&& l.shadow_map_size == 1
                    &&& l.uploaded
                },
                Err(e) => {
                    &&& e == Error::ResourceCreationFailed
                    &&& final(context)@ == old(context)@
                },
            },
            r is Err <==> (old(context)@.buffers.len() >= 0xFFFF_FFFF || old(
                context,
            )@.textures.len() >= 0xFFFF_FFFF),
    {
        if !context.can_create_buffer() || !context.can_create_texture() {
            return Err(Error::ResourceCreationFailed);
        }
        let buffer = match context.create_buffer() {
            Some(id) => id,
            None => {
                proof {
                    assert(false);
                }
                return Err(Error::ResourceCreationFailed);
            },
        };
        let shadow_texture = match context.create_texture() {
            Some(id) => id,
            None => {
                proof {
                    assert(false);
                }
                return Err(Error::ResourceCreationFailed);
            },
        };
        proof {
            assert(final(context)@ =~= (ContextState {
                buffers: old(context)@.buffers.push(true),
                textures: old(context)@.textures.push(true),
                ..old(context)@
            }));
        }
        Ok(
            DirectionalLight {
                color,
                intensity,
                direction,
                shadow_texture,
                buffer,
                shadow_enabled: false,
                shadow_rendered: false,
                shadow_map_size: 1,
                uploaded: true,
            },
        )
    }

    /// Points the light in a new direction; the parameter block must be
    /// uploaded again before the light is bound.
    pub fn set_direction(&mut self, direction: Vector3)
        ensures
            *final(self) == (DirectionalLight {
                direction,
                uploaded: false,
                ..*old(self)
            }),
    {
        self.direction = direction;
        self.uploaded = false;
    }

    /// Changes the light's intensity; the parameter block must be uploaded
    /// again before the light is bound.
    pub fn set_intensity(&mut self, intensity: u32)
        ensures
            *final(self) == (DirectionalLight {
                intensity,
                uploaded: false,
                ..*old(self)
            }),
    {
        self.intensity = intensity;
        self.uploaded = false;
    }

    /// Writes the logical fields into the GPU parameter block.
    pub fn update_buffer(&mut self)
        ensures
            *final(self) == (DirectionalLight { uploaded: true, ..*old(self) }),
    {
        self.uploaded = true;
    }

    /// Turns shadow casting on, reallocating the shadow map texture at the
    /// given side length. The new map holds no rendering yet.
    pub fn enable_shadows(&mut self, context: &mut Context, texture_size: usize) -> (r: Result<
        (),
        Error,
    >)
        requires
            old(self).wf(old(context)@),
        ensures
            match r {
                Ok(()) => {
                    &&& final(context)@ == (ContextState {
                        textures: old(context)@.textures.update(
                            old(self).shadow_texture as int,
                            false,
                        ).push(true),
                        ..old(context)@
                    })
                    &&& *final(self) == (DirectionalLight {
                        shadow_texture: final(self).shadow_texture,
                        shadow_enabled: true,
                        shadow_rendered: false,
                        shadow_map_size: texture_size,
                        ..*old(self)
                    })
                    &&& final(self).wf(final(context)@)
                    &&& !old(context)@.texture_live(final(self).shadow_texture)
                },
                Err(e) => {
                    &&& e == Error::ResourceCreationFailed
                    &&& *final(self) == *old(self)
                    &&& final(context)@ == (ContextState {
                        textures: old(context)@.textures.update(
                            old(self).shadow_texture as int,
                            false,
                        ),
                        ..old(context)@
                    })
                },
            },
            r is Err <==> old(context)@.textures.len() >= 0xFFFF_FFFF,
    {
        context.delete_texture(self.shadow_texture);
        let new_texture = match context.create_texture() {
            Some(id) => id,
            None => {
                return Err(Error::ResourceCreationFailed);
            },
        };
        self.shadow_texture = new_texture;
        self.shadow_enabled = true;
        self.shadow_rendered = false;
        self.shadow_map_size = texture_size;
        Ok(())
    }

    /// The shadow map texture of this light.
    pub fn shadow_map(&self) -> (r: u32)
        ensures
            r == self.shadow_texture,
    {
        self.shadow_texture
    }

    /// The GPU parameter block of this light.
    pub fn buffer(&self) -> (r: u32)
        ensures
            r == self.buffer,
    {
        self.buffer
    }

    /// Releases the light's GPU resources.
    pub fn destroy(self, context: &mut Context)
        requires
            self.wf(old(context)@),
        ensures
            final(context)@ == (ContextState {
                buffers: old(context)@.buffers.update(self.buffer as int, false),
                textures: old(context)@.textures.update(self.shadow_texture as int, false),
                ..old(context)@
            }),
    {
        context.delete_buffer(self.buffer);
        context.delete_texture(self.shadow_texture);
        proof {
            assert(final(context)@ =~= (ContextState {
                buffers: old(context)@.buffers.update(self.buffer as int, false),
                textures: old(context)@.textures.update(self.shadow_texture as int, false),
                ..old(context)@
            }));
        }
    }
}

/// A light shining from a position inside a cone. It owns a GPU parameter
/// block and a shadow map texture.
#[derive(Clone, Copy, PartialEq, Eq, Structural)]
pub struct SpotLight {
    pub color: Color,
    /// Fixed-point thousandths.
    pub intensity: u32,
    pub position: Vector3,
    pub direction: Vector3,
    /// The cone's half angle, in fixed-point thousandths of a radian.
    pub cutoff: u32,
    pub shadow_texture: u32,
    pub buffer: u32,
    pub shadow_enabled: bool,
    pub shadow_rendered: bool,
    pub shadow_map_size: usize,
    pub uploaded: bool,
}

impl SpotLight {
    pub open spec fn wf(self, ctx: ContextState) -> bool {
        ctx.buffer_live(self.buffer) && ctx.texture_live(self.shadow_texture)
    }

    /// Creates the light and its GPU resources, as for a directional light.
    pub fn new(
        context: &mut Context,
        color: Color,
        intensity: u32,
        position: Vector3,
        direction: Vector3,
        cutoff: u32,
    ) -> (r: Result<SpotLight, Error>)
        ensures
            match r {
                Ok(l) => {
                    &&& final(context)@ == (ContextState {
                        buffers: old(context)@.buffers.push(true),
                        textures: old(context)@.textures.push(true),
                        ..old(context)@
                    })
                    &&& l.wf(final(context)@)
                    &&& !old(context)@.buffer_live(l.buffer)
                    &&& !old(context)@.texture_live(l.shadow_texture)
                    &&& l.color == color
                    &&& l.intensity == intensity
                    &&& l.position == position
                    &&& l.direction == direction
                    &&& l.cutoff == cutoff
                    &&& !l.shadow_enabled
                    &&& !l.shadow_rendered
                    &&& l.shadow_map_size == 1
                    &&& l.uploaded
                },
                Err(e) => {
                    &&& e == Error::ResourceCreationFailed
                    &&& final(context)@ == old(context)@
                },
            },
            r is Err <==> (old(context)@.buffers.len() >= 0xFFFF_FFFF || old(
                context,
            )@.textures.len() >= 0xFFFF_FFFF),
    {
        if !context.can_create_buffer() || !context.can_create_texture() {
            return Err(Error::ResourceCreationFailed);
        }
        let buffer = match context.create_buffer() {
            Some(id) => id,
            None => {
                proof {
                    assert(false);
                }
                return Err(Error::ResourceCreationFailed);
            },
        };
        let shadow_texture = match context.create_texture() {
            Some(id) => id,
            None => {
                proof {
                    assert(false);
                }
                return Err(Error::ResourceCreationFailed);
            },
        };
        proof {
            assert(final(context)@ =~= (ContextState {
                buffers: old(context)@.buffers.push(true),
                textures: old(context)@.textures.push(true),
                ..old(context)@
            }));
        }
        Ok(
            SpotLight {
                color,
                intensity,
                position,
                direction,
                cutoff,
                shadow_texture,
                buffer,
                shadow_enabled: false,
                shadow_rendered: false,
                shadow_map_size: 1,
                uploaded: true,
            },
        )
    }

    pub fn set_intensity(&mut self, intensity: u32)
        ensures
            *final(self) == (SpotLight { intensity, uploaded: false, ..*old(self) }),
    {
        self.intensity = intensity;
        self.uploaded = false;
    }

    /// Writes the logical fields into the GPU parameter block.
    pub fn update_buffer(&mut self)
        ensures
            *final(self) == (SpotLight { uploaded: true, ..*old(self) }),
    {
        self.uploaded = true;
    }

    /// Turns shadow casting on, reallocating the shadow map texture.
    pub fn enable_shadows(&mut self, context: &mut Context, texture_size: usize) -> (r: Result<
        (),
        Error,
    >)
        requires
            old(self).wf(old(context)@),
        ensures
            match r {
                Ok(()) => {
                    &&& final(context)@ == (ContextState {
                        textures: old(context)@.textures.update(
                            old(self).shadow_texture as int,
                            false,
                        ).push(true),
                        ..old(context)@
                    })
                    &&& *final(self) == (SpotLight {
                        shadow_texture: final(self).shadow_texture,
                        shadow_enabled: true,
                        shadow_rendered: false,
                        shadow_map_size: texture_size,
                        ..*old(self)
                    })
                    &&& final(self).wf(final(context)@)
                    &&& !old(context)@.texture_live(final(self).shadow_texture)
                },
                Err(e) => {
                    &&& e == Error::ResourceCreationFailed
                    &&& *final(self) == *old(self)
                    &&& final(context)@ == (ContextState {
                        textures: old(context)@.textures.update(
                            old(self).shadow_texture as int,
                            false,
                        ),
                        ..old(context)@
                    })
                },
            },
            r is Err <==> old(context)@.textures.len() >= 0xFFFF_FFFF,
    {
        context.delete_texture(self.shadow_texture);
        let new_texture = match context.create_texture() {
            Some(id) => id,
            None => {
                return Err(Error::ResourceCreationFailed);
            },
        };
        self.shadow_texture = new_texture;
        self.shadow_enabled = true;
        self.shadow_rendered = false;
        self.shadow_map_size = texture_size;
        Ok(())
    }

    pub fn shadow_map(&self) -> (r: u32)
        ensures
            r == self.shadow_texture,
    {
        self.shadow_texture
    }

    pub fn buffer(&self) -> (r: u32)
        ensures
            r == self.buffer,
    {
        self.buffer
    }

    /// Releases the light's GPU resources.
    pub fn destroy(self, context: &mut Context)
        requires
            self.wf(old(context)@),
        ensures
            final(context)@ == (ContextState {
                buffers: old(context)@.buffers.update(self.buffer as int, false),
                textures: old(context)@.textures.update(self.shadow_texture as int, false),
                ..old(context)@
            }),
    {
        context.delete_buffer(self.buffer);
        context.delete_texture(self.shadow_texture);
        proof {
            assert(final(context)@ =~= (ContextState {
                buffers: old(context)@.buffers.update(self.buffer as int, false),
                textures: old(context)@.textures.update(self.shadow_texture as int, false),
                ..old(context)@
            }));
        }
    }
}

/// A light radiating from a position, attenuated with distance. It owns a
/// GPU parameter block; point lights cast no shadows in this design.
#[derive(Clone, Copy, PartialEq, Eq, Structural)]
pub struct PointLight {
    pub color: Color,
    /// Fixed-point thousandths.
    pub intensity: u32,
    pub position: Vector3,
    /// Constant, linear and quadratic attenuation, in thousandths.
    pub attenuation_constant: u32,
    pub attenuation_linear: u32,
    pub attenuation_exponential: u32,
    pub buffer: u32,
    pub uploaded: bool,
}

impl PointLight {
    pub open spec fn wf(self, ctx: ContextState) -> bool {
        ctx.buffer_live(self.buffer)
    }

    /// Creates the light and its GPU parameter block.
    pub fn new(
        context: &mut Context,
        color: Color,
        intensity: u32,
        position: Vector3,
        attenuation_constant: u32,
        attenuation_linear: u32,
        attenuation_exponential: u32,
    ) -> (r: Result<PointLight, Error>)
        ensures
            match r {
                Ok(l) => {
                    &&& final(context)@ == (ContextState {
                        buffers: old(context)@.buffers.push(true),
                        ..old(context)@
                    })
                    &&& l.wf(final(context)@)
                    &&& !old(context)@.buffer_live(l.buffer)
                    &&& l.color == color
                    &&& l.intensity == intensity
                    &&& l.position == position
                    &&& l.attenuation_constant == attenuation_constant
                    &&& l.attenuation_linear == attenuation_linear
                    &&& l.attenuation_exponential == attenuation_exponential
                    &&& l.uploaded
                },
                Err(e) => {
                    &&& e == Error::ResourceCreationFailed
                    &&& final(context)@ == old(context)@
                },
            },
            r is Err <==> old(context)@.buffers.len() >= 0xFFFF_FFFF,
    {
        let buffer = match context.create_buffer() {
            Some(id) => id,
            None => {
                return Err(Error::ResourceCreationFailed);
            },
        };
        Ok(
            PointLight {
                color,
                intensity,
                position,
                attenuation_constant,
                attenuation_linear,
                attenuation_exponential,
                buffer,
                uploaded: true,
            },
        )
    }

    pub fn set_intensity(&mut self, intensity: u32)
        ensures
            *final(self) == (PointLight { intensity, uploaded: false, ..*old(self) }),
    {
        self.intensity = intensity;
        self.uploaded = false;
    }

    /// Writes the logical fields into the GPU parameter block.
    pub fn update_buffer(&mut self)
        ensures
            *final(self) == (PointLight { uploaded: true, ..*old(self) }),
    {
        self.uploaded = true;
    }

    pub fn buffer(&self) -> (r: u32)
        ensures
            r == self.buffer,
    {
        self.buffer
    }

    /// Releases the light's GPU parameter block.
    pub fn destroy(self, context: &mut Context)
        requires
            self.wf(old(context)@),
        ensures
            final(context)@ == (ContextState {
                buffers: old(context)@.buffers.update(self.buffer as int, false),
                ..old(context)@
            }),
    {
        context.delete_buffer(self.buffer);
    }
}

/// One color channel scaled by a light's intensity.
pub open spec fn scaled_channel(c: u8, intensity: u32) -> i64 {
    ((c as int) * (intensity as int)) as i64
}

/// Computes one color channel scaled by a light's intensity.
fn channel_times_intensity(c: u8, intensity: u32) -> (r: i64)
    ensures
        r == scaled_channel(c, intensity),
{
    proof {
        assert(0 <= (c as int) * (intensity as int) && (c as int) * (intensity as int) <= 0xFF
            * 0xFFFF_FFFF) by (nonlinear_arith)
            requires
                c <= 0xFF,
                intensity <= 0xFFFF_FFFFu32,
        ;
    }
    (c as i64) * (intensity as i64)
}

/// The value written into the ambient color uniform: each channel of the
/// ambient light's color scaled by its intensity, or black when no ambient
/// light is present.
pub open spec fn ambient_color_value(ambient: Option<AmbientLight>) -> Vector3 {
    match ambient {
        Some(l) => Vector3 {
            x: scaled_channel(l.color.r, l.intensity),
            y: scaled_channel(l.color.g, l.intensity),
            z: scaled_channel(l.color.b, l.intensity),
        },
        None => Vector3 { x: 0, y: 0, z: 0 },
    }
}

/// The bindings of the first `n` directional lights, in array order: for
/// light `i`, its shadow map under the sampler name indexed `i`, then its
/// parameter block under the block name indexed `i`.
pub open spec fn directional_light_events(dirs: Seq<DirectionalLight>, n: nat) -> Seq<BindEvent>
    decreases n,
{
    if n == 0 {
        Seq::empty()
    } else {
        directional_light_events(dirs, (n - 1) as nat) + seq![
            BindEvent::Texture {
                name: DIR_SHADOW_NAME@ + dec_rep((n - 1) as nat),
                texture: dirs[n - 1].shadow_texture,
            },
            BindEvent::UniformBlock {
                name: DIR_BLOCK_NAME@ + dec_rep((n - 1) as nat),
                buffer: dirs[n - 1].buffer,
            },
        ]
    }
}

/// The bindings of the first `n` spot lights, in array order.
pub open spec fn spot_light_events(spots: Seq<SpotLight>, n: nat) -> Seq<BindEvent>
    decreases n,
{
    if n == 0 {
        Seq::empty()
    } else {
        spot_light_events(spots, (n - 1) as nat) + seq![
            BindEvent::Texture {
                name: SPOT_SHADOW_NAME@ + dec_rep((n - 1) as nat),
                texture: spots[n - 1].shadow_texture,
            },
            BindEvent::UniformBlock {
                name: SPOT_BLOCK_NAME@ + dec_rep((n - 1) as nat),
                buffer: spots[n - 1].buffer,
            },
        ]
    }
}

/// The bindings of the first `n` point lights, in array order: only the
/// parameter block of each.
pub open spec fn point_light_events(points: Seq<PointLight>, n: nat) -> Seq<BindEvent>
    decreases n,
{
    if n == 0 {
        Seq::empty()
    } else {
        point_light_events(points, (n - 1) as nat) + seq![
            BindEvent::UniformBlock {
                name: POINT_BLOCK_NAME@ + dec_rep((n - 1) as nat),
                buffer: points[n - 1].buffer,
            },
        ]
    }
}

/// Everything `bind_lights` writes, in order: the ambient color uniform,
/// the eye position (only when some non-ambient light is present), then the
/// bindings of the directional, spot and point lights in array order.
pub open spec fn bind_lights_events(
    ambient: Option<AmbientLight>,
    dirs: Seq<DirectionalLight>,
    spots: Seq<SpotLight>,
    points: Seq<PointLight>,
    camera_position: Vector3,
) -> Seq<BindEvent> {
    seq![
        BindEvent::UniformVector3 { name: AMBIENT_COLOR_NAME@, value: ambient_color_value(ambient) },
    ] + (if dirs.len() > 0 || spots.len() > 0 || points.len() > 0 {
        seq![BindEvent::UniformVector3 { name: EYE_POSITION_NAME@, value: camera_position }]
    } else {
        Seq::empty()
    }) + directional_light_events(dirs, dirs.len()) + spot_light_events(spots, spots.len())
        + point_light_events(points, points.len())
}

/// The ambient light's option at the specification level.
pub open spec fn ambient_view(ambient: Option<&AmbientLight>) -> Option<AmbientLight> {
    match ambient {
        Some(l) => Some(*l),
        None => None,
    }
}

/// Writes the uniforms, shadow maps and parameter blocks of every active
/// light into the program, in array order; the index in each shader name
/// matches the light's array position exactly. Every light's parameter
/// block must have been uploaded since its fields last changed.
pub fn bind_lights(
    program: &mut Program,
    ambient_light: Option<&AmbientLight>,
    directional_lights: &[DirectionalLight],
    spot_lights: &[SpotLight],
    point_lights: &[PointLight],
    camera_position: Vector3,
) -> (r: Result<(), Error>)
    requires
        forall|i: int| 0 <= i < directional_lights@.len() ==> directional_lights@[i].uploaded,
        forall|i: int| 0 <= i < spot_lights@.len() ==> spot_lights@[i].uploaded,
        forall|i: int| 0 <= i < point_lights@.len() ==> point_lights@[i].uploaded,
    ensures
        r is Ok,
        final(program)@.id == old(program)@.id,
        final(program)@.log == old(program)@.log + bind_lights_events(
            ambient_view(ambient_light),
            directional_lights@,
            spot_lights@,
            point_lights@,
            camera_position,
        ),
{
    let ambient_value = match ambient_light {
        Some(l) => Vector3 {
            x: channel_times_intensity(l.color.r, l.intensity),
            y: channel_times_intensity(l.color.g, l.intensity),
            z: channel_times_intensity(l.color.b, l.intensity),
        },
        None => Vector3 { x: 0, y: 0, z: 0 },
    };
    program.use_uniform_vec3(AMBIENT_COLOR_NAME, ambient_value);

    if directional_lights.len() > 0 || spot_lights.len() > 0 || point_lights.len() > 0 {
        program.use_uniform_vec3(EYE_POSITION_NAME, camera_position);
    }
    let ghost base: Seq<BindEvent> = program@.log;

    let mut i: usize = 0;
    while i < directional_lights.len()
        invariant
            i <= directional_lights@.len(),
            program@.id == old(program)@.id,
            program@.log == base + directional_light_events(directional_lights@, i as nat),
        decreases directional_lights@.len() - i,
    {
        let mut shadow_name = DIR_SHADOW_NAME.to_owned();
        push_decimal(&mut shadow_name, i as u64);
        program.use_texture(shadow_name.as_str(), directional_lights[i].shadow_map());
        let mut block_name = DIR_BLOCK_NAME.to_owned();
        push_decimal(&mut block_name, i as u64);
        program.use_uniform_block(block_name.as_str(), directional_lights[i].buffer());
        i = i + 1;
        proof {
            assert(program@.log =~= base + directional_light_events(
                directional_lights@,
                i as nat,
            ));
        }
    }
    let ghost base2: Seq<BindEvent> = program@.log;

    let mut i: usize = 0;
    while i < spot_lights.len()
        invariant
            i <= spot_lights@.len(),
            program@.id == old(program)@.id,
            program@.log == base2 + spot_light_events(spot_lights@, i as nat),
        decreases spot_lights@.len() - i,
    {
        let mut shadow_name = SPOT_SHADOW_NAME.to_owned();
        push_decimal(&mut shadow_name, i as u64);
        program.use_texture(shadow_name.as_str(), spot_lights[i].shadow_map());
        let mut block_name = SPOT_BLOCK_NAME.to_owned();
        push_decimal(&mut block_name, i as u64);
        program.use_uniform_block(block_name.as_str(), spot_lights[i].buffer());
        i = i + 1;
        proof {
            assert(program@.log =~= base2 + spot_light_events(spot_lights@, i as nat));
        }
    }
    let ghost base3: Seq<BindEvent> = program@.log;

    let mut i: usize = 0;
    while i < point_lights.len()
        invariant
            i <= point_lights@.len(),
            program@.id == old(program)@.id,
            program@.log == base3 + point_light_events(point_lights@, i as nat),
        decreases point_lights@.len() - i,
    {
        let mut block_name = POINT_BLOCK_NAME.to_owned();
        push_decimal(&mut block_name, i as u64);
        program.use_uniform_block(block_name.as_str(), point_lights[i].buffer());
        i = i + 1;
        proof {
            assert(program@.log =~= base3 + point_light_events(point_lights@, i as nat));
        }
    }
    proof {
        assert(program@.log =~= old(program)@.log + bind_lights_events(
            ambient_view(ambient_light),
            directional_lights@,
            spot_lights@,
            point_lights@,
            camera_position,
        ));
    }
    Ok(())
}

} // verus!
