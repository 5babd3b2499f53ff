use vstd::prelude::*;

use crate::context::{Context, ContextState};
use crate::light::{
    ambient_view, bind_lights, bind_lights_events, AmbientLight, DirectionalLight, PointLight,
    SpotLight,
};
use crate::material::{
    deferred_material_source, is_transparent_material, material_bind_events, Material,
    shaded_fragment_shader,
};
use crate::position_material::{position_attribute, FragmentShader, PositionMaterial};
use crate::program::{BindEvent, Program};
use crate::shader::{FULL_SCREEN_VERTEX_CODE, MAX_LIGHTS, POSITION_MATERIAL_FRAGMENT_CODE};
use crate::texture::TexturePool;
use crate::types::{Camera, Error, LightingModel, MaterialType, RenderStates};
use crate::FragmentAttributes;

verus! {

pub const GBUFFER_NAME: &'static str = "gbuffer";

pub const DEPTH_MAP_NAME: &'static str = "depthMap";

/// One concrete material of the dispatched set the pipeline can draw with.
pub enum AnyMaterial {
    PhysicallyBased(Material),
    PositionDebug(PositionMaterial),
}

impl AnyMaterial {
    /// True while every texture the material references is live in the pool.
    pub open spec fn wf(self, pool: TexturePool) -> bool {
        match self {
            AnyMaterial::PhysicallyBased(m) => m.wf(pool),
            AnyMaterial::PositionDebug(_) => true,
        }
    }

    /// The geometric attributes this material needs from a renderable.
    pub open spec fn spec_required_attributes(self) -> FragmentAttributes {
        match self {
            AnyMaterial::PhysicallyBased(m) => FragmentAttributes {
                position: true,
                normal: true,
                uv: m.albedo_texture is Some || m.metallic_roughness_texture is Some
                    || m.occlusion_texture is Some || m.normal_texture is Some,
                color: false,
            },
            AnyMaterial::PositionDebug(_) => position_attribute(),
        }
    }

    /// The fragment shader this material contributes to the geometry pass.
    pub open spec fn spec_shader_source(self) -> Seq<char> {
        match self {
            AnyMaterial::PhysicallyBased(m) => deferred_material_source(m),
            AnyMaterial::PositionDebug(_) => POSITION_MATERIAL_FRAGMENT_CODE@,
        }
    }

    /// The uniform and texture bindings this material writes.
    pub open spec fn spec_bind_events(self, pool: TexturePool) -> Seq<BindEvent> {
        match self {
            AnyMaterial::PhysicallyBased(m) => material_bind_events(m, pool),
            AnyMaterial::PositionDebug(_) => Seq::empty(),
        }
    }

    /// The geometric attributes this material needs from a renderable.
    pub fn required_attributes(&self) -> (r: FragmentAttributes)
        ensures
            r == self.spec_required_attributes(),
    {
        match self {
            AnyMaterial::PhysicallyBased(m) => FragmentAttributes {
                position: true,
                normal: true,
                uv: m.albedo_texture.is_some() || m.metallic_roughness_texture.is_some()
                    || m.occlusion_texture.is_some() || m.normal_texture.is_some(),
                color: false,
            },
            AnyMaterial::PositionDebug(_) => FragmentAttributes {
                position: true,
                normal: false,
                uv: false,
                color: false,
            },
        }
    }

    /// Produces this material's fragment shader, given the attributes the
    /// caller can supply: a missing attribute is an error, never a silently
    /// wrong shader.
    pub fn fragment_shader_source(&self, provided_attributes: FragmentAttributes) -> (r: Result<
        FragmentShader,
        Error,
    >)
        ensures
            match r {
                Ok(shader) => {
                    &&& provided_attributes.contains_all(self.spec_required_attributes())
                    &&& shader.source@ == self.spec_shader_source()
                    &&& shader.attributes == self.spec_required_attributes()
                },
                Err(e) => {
                    &&& !provided_attributes.contains_all(self.spec_required_attributes())
                    &&& e == Error::MissingAttribute
                },
            },
    {
        let attributes = self.required_attributes();
        if !provided_attributes.provides_all(attributes) {
            return Err(Error::MissingAttribute);
        }
        match self {
            AnyMaterial::PhysicallyBased(m) => Ok(
                FragmentShader { source: m.deferred_fragment_shader_source(), attributes },
            ),
            AnyMaterial::PositionDebug(_) => Ok(
                FragmentShader { source: POSITION_MATERIAL_FRAGMENT_CODE.to_owned(), attributes },
            ),
        }
    }

    /// Writes this material's uniforms and textures into the program.
    pub fn use_uniforms(&self, pool: &TexturePool, program: &mut Program, _camera: &Camera)
        requires
            self.wf(*pool),
        ensures
            final(program)@.id == old(program)@.id,
            final(program)@.log == old(program)@.log + self.spec_bind_events(*pool),
    {
        match self {
            AnyMaterial::PhysicallyBased(m) => {
                let bound = m.bind_internal(pool, program);
                proof {
                    assert(bound is Ok);
                    assert(program@.log =~= old(program)@.log + self.spec_bind_events(*pool));
                }
            },
            AnyMaterial::PositionDebug(_) => {
                proof {
                    assert(program@.log =~= old(program)@.log + self.spec_bind_events(*pool));
                }
            },
        }
    }

    /// The fixed-function state this material asks for.
    pub fn render_states(&self, pool: &TexturePool) -> (r: RenderStates)
        requires
            self.wf(*pool),
        ensures
            r == (match *self {
                AnyMaterial::PhysicallyBased(m) => if is_transparent_material(m, *pool) {
                    RenderStates::spec_transparency()
                } else {
                    RenderStates::spec_default()
                },
                AnyMaterial::PositionDebug(p) => p.render_states,
            }),
    {
        match self {
            AnyMaterial::PhysicallyBased(m) => m.render_states(pool),
            AnyMaterial::PositionDebug(p) => p.render_states(),
        }
    }

    /// Whether this material is drawn in the opaque queue or needs
    /// back-to-front blending.
    pub fn material_type(&self, pool: &TexturePool) -> (r: MaterialType)
        requires
            self.wf(*pool),
        ensures
            r == (match *self {
                AnyMaterial::PhysicallyBased(m) => if is_transparent_material(m, *pool) {
                    MaterialType::Transparent
                } else {
                    MaterialType::Opaque
                },
                AnyMaterial::PositionDebug(_) => MaterialType::Opaque,
            }),
    {
        match self {
            AnyMaterial::PhysicallyBased(m) => {
                let states = m.render_states(pool);
                if matches!(states.blend, crate::types::Blend::Transparency) {
                    MaterialType::Transparent
                } else {
                    MaterialType::Opaque
                }
            },
            AnyMaterial::PositionDebug(_) => MaterialType::Opaque,
        }
    }
}

/// One object of the per-frame scene description: its geometry's available
/// attributes and the index of its shared material.
#[derive(Clone, Copy, PartialEq, Eq, Structural)]
pub struct Renderable {
    pub attributes: FragmentAttributes,
    pub material: usize,
}

/// The composition tuple: the cache key of a generated lighting shader.
#[derive(Clone, Copy, PartialEq, Eq, Structural, Debug)]
pub struct CacheKey {
    pub model: LightingModel,
    pub directional: usize,
    pub spot: usize,
    pub point: usize,
}

/// One compiled lighting shader of the cache.
pub struct CacheEntry {
    pub key: CacheKey,
    pub program: Program,
}

/// The lazily populated map from composition tuple to compiled lighting
/// shader. It is owned by the pipeline and never evicted within its life.
pub struct ShaderCache {
    pub entries: Vec<CacheEntry>,
}

/// True when some cache entry carries the key.
pub open spec fn cache_contains_key(entries: Seq<CacheEntry>, key: CacheKey) -> bool {
    exists|i: int| 0 <= i < entries.len() && entries[i].key == key
}

/// True when some cache entry's program has the GPU handle.
pub open spec fn cache_has_program_id(entries: Seq<CacheEntry>, id: u32) -> bool {
    exists|i: int| 0 <= i < entries.len() && entries[i].program@.id == id
}

/// Every cached program is live, handles are not shared between entries,
/// and no two entries carry the same key.
pub open spec fn cache_wf(entries: Seq<CacheEntry>, ctx: ContextState) -> bool {
    &&& forall|i: int| 0 <= i < entries.len() ==> ctx.program_live(#[trigger] entries[i].program@.id)
    &&& forall|i: int, j: int|
        0 <= i < entries.len() && 0 <= j < entries.len() && i != j ==> entries[i].program@.id
            != entries[j].program@.id
    &&& forall|i: int, j: int|
        0 <= i < entries.len() && 0 <= j < entries.len() && i != j ==> entries[i].key
            != entries[j].key
}

impl ShaderCache {
    pub fn new() -> (r: ShaderCache)
        ensures
            r.entries@.len() == 0,
    {
        ShaderCache { entries: Vec::new() }
    }

    /// How many composition tuples have been compiled.
    pub fn len(&self) -> (n: usize)
        ensures
            n == self.entries@.len(),
    {
        self.entries.len()
    }

    /// The position of the entry with the key, if one exists.
    pub fn find(&self, key: CacheKey) -> (r: Option<usize>)
        ensures
            match r {
                Some(i) => i < self.entries@.len() && self.entries@[i as int].key == key,
                None => !cache_contains_key(self.entries@, key),
            },
    {
        let mut i: usize = 0;
        while i < self.entries.len()
            invariant
                i <= self.entries@.len(),
                forall|j: int| 0 <= j < i ==> self.entries@[j].key != key,
            decreases self.entries@.len() - i,
        {
            if self.entries[i].key == key {
                return Some(i);
            }
            i = i + 1;
        }
        None
    }

    /// Whether a shader for the composition tuple has been compiled.
    pub fn contains(&self, key: CacheKey) -> (r: bool)
        ensures
            r == cache_contains_key(self.entries@, key),
    {
        match self.find(key) {
            Some(_) => true,
            None => false,
        }
    }
}

/// The per-frame phase the pipeline is in. A frame walks from idle through
/// the shadow, geometry and lighting passes to the composited image and
/// back; the pipeline is unconfigured before its buffers exist and
/// destroyed after teardown.
#[derive(Clone, Copy, PartialEq, Eq, Structural, Debug)]
pub enum PipelineState {
    Uninitialized,
    Idle,
    ShadowPass,
    GeometryPass,
    LightingPass,
    Composited,
    Destroyed,
}

/// What the lighting pass reports back: the composition tuple it used,
/// whether the shader came from the cache, and where it sits in the cache.
#[derive(Clone, Copy, PartialEq, Eq, Structural, Debug)]
pub struct LightingReport {
    pub key: CacheKey,
    pub was_cached: bool,
    pub index: usize,
}

/// How many of the first `n` directional lights cast shadows.
pub open spec fn shadow_enabled_dirs(dirs: Seq<DirectionalLight>, n: nat) -> int
    decreases n,
{
    if n == 0 {
        0
    } else {
        shadow_enabled_dirs(dirs, (n - 1) as nat) + if dirs[n - 1].shadow_enabled {
            1int
        } else {
            0int
        }
    }
}

/// How many of the first `n` spot lights cast shadows.
pub open spec fn shadow_enabled_spots(spots: Seq<SpotLight>, n: nat) -> int
    decreases n,
{
    if n == 0 {
        0
    } else {
        shadow_enabled_spots(spots, (n - 1) as nat) + if spots[n - 1].shadow_enabled {
            1int
        } else {
            0int
        }
    }
}

/// The deferred pipeline: it owns the geometry buffers and the shader
/// cache and walks the per-frame pass sequence.
pub struct DeferredPipeline {
    pub state: PipelineState,
    pub lighting_model: LightingModel,
    pub width: usize,
    pub height: usize,
    pub geometry_color_texture: u32,
    pub geometry_depth_texture: u32,
    /// The extent the geometry buffers were allocated at; reallocation on
    /// resize keeps it equal to the viewport extent.
    pub buffer_width: usize,
    pub buffer_height: usize,
    pub cache: ShaderCache,
}

impl DeferredPipeline {
    /// True in every state between configuration and teardown.
    pub open spec fn is_initialized(self) -> bool {
        !(self.state is Uninitialized) && !(self.state is Destroyed)
    }

    /// The pipeline's resources are consistent with the context: its
    /// geometry buffers are live and sized to the viewport, and every
    /// cached program is live.
    pub open spec fn wf(self, ctx: ContextState) -> bool {
        &&& cache_wf(self.cache.entries@, ctx)
        &&& self.is_initialized() ==> {
            &&& ctx.texture_live(self.geometry_color_texture)
            &&& ctx.texture_live(self.geometry_depth_texture)
            &&& self.geometry_color_texture != self.geometry_depth_texture
            &&& self.width > 0
            &&& self.height > 0
            &&& self.buffer_width == self.width
            &&& self.buffer_height == self.height
        }
    }

    /// An unconfigured pipeline; its buffers do not exist yet.
    pub fn new(lighting_model: LightingModel) -> (r: DeferredPipeline)
        ensures
            r.state == PipelineState::Uninitialized,
            r.lighting_model == lighting_model,
            r.cache.entries@.len() == 0,
            forall|ctx: ContextState| r.wf(ctx),
    {
        DeferredPipeline {
            state: PipelineState::Uninitialized,
            lighting_model,
            width: 0,
            height: 0,
            geometry_color_texture: 0,
            geometry_depth_texture: 0,
            buffer_width: 0,
            buffer_height: 0,
            cache: ShaderCache::new(),
        }
    }

    /// Allocates the geometry color and depth buffers at the viewport
    /// extent and makes the pipeline ready for its first frame.
    pub fn initialize(&mut self, context: &mut Context, width: usize, height: usize) -> (r: Result<
        (),
        Error,
    >)
        requires
            old(self).state == PipelineState::Uninitialized,
            old(self).wf(old(context)@),
            width > 0,
            height > 0,
        ensures
            match r {
                Ok(()) => {
                    &&& final(self).state == PipelineState::Idle
                    &&& final(self).lighting_model == old(self).lighting_model
                    &&& final(self).width == width
                    &&& final(self).height == height
                    &&& final(self).buffer_width == width
                    &&& final(self).buffer_height == height
                    &&& final(self).cache.entries@ == old(self).cache.entries@
                    &&& final(self).wf(final(context)@)
                    &&& final(context)@ == (ContextState {
                        textures: old(context)@.textures.push(true).push(true),
                        ..old(context)@
                    })
                },
                Err(e) => {
                    &&& e == Error::ResourceCreationFailed
                    &&& *final(self) == *old(self)
                    &&& final(context)@ == old(context)@
                },
            },
            r is Err <==> old(context)@.textures.len() + 2 > 0xFFFF_FFFF,
    {
        if !context.can_create_textures(2) {
            return Err(Error::ResourceCreationFailed);
        }
        let color = match context.create_texture() {
            Some(id) => id,
            None => {
                proof {
                    assert(false);
                }
                return Err(Error::ResourceCreationFailed);
            },
        };
        let depth = match context.create_texture() {
            Some(id) => id,
            None => {
                proof {
                    assert(false);
                }
                return Err(Error::ResourceCreationFailed);
            },
        };
        self.state = PipelineState::Idle;
        self.width = width;
        self.height = height;
        self.buffer_width = width;
        self.buffer_height = height;
        self.geometry_color_texture = color;
        self.geometry_depth_texture = depth;
        proof {
            assert(final(context)@ =~= (ContextState {
                textures: old(context)@.textures.push(true).push(true),
                ..old(context)@
            }));
        }
        Ok(())
    }

    /// Reallocates both geometry buffers at the new viewport extent. The
    /// old buffers are deleted, so no later pass can read a stale image;
    /// resizing is only allowed between frames.
    pub fn resize(&mut self, context: &mut Context, width: usize, height: usize) -> (r: Result<
        (),
        Error,
    >)
        requires
            old(self).state == PipelineState::Idle,
            old(self).wf(old(context)@),
            width > 0,
            height > 0,
        ensures
            match r {
                Ok(()) => {
                    &&& final(self).state == PipelineState::Idle
                    &&& final(self).lighting_model == old(self).lighting_model
                    &&& final(self).width == width
                    &&& final(self).height == height
                    &&& final(self).buffer_width == width
                    &&& final(self).buffer_height == height
                    &&& final(self).cache.entries@ == old(self).cache.entries@
                    &&& final(self).wf(final(context)@)
                    &&& !final(context)@.texture_live(old(self).geometry_color_texture)
                    &&& !final(context)@.texture_live(old(self).geometry_depth_texture)
                    &&& final(context)@.texture_live(final(self).geometry_color_texture)
                    &&& final(context)@.texture_live(final(self).geometry_depth_texture)
                    &&& final(context)@.buffers == old(context)@.buffers
                    &&& final(context)@.framebuffers == old(context)@.framebuffers
                    &&& final(context)@.renderbuffers == old(context)@.renderbuffers
                    &&& final(context)@.programs == old(context)@.programs
                },
                Err(e) => {
                    &&& e == Error::ResourceCreationFailed
                    &&& *final(self) == *old(self)
                    &&& final(context)@ == old(context)@
                },
            },
            r is Err <==> old(context)@.textures.len() + 2 > 0xFFFF_FFFF,
    {
        if !context.can_create_textures(2) {
            return Err(Error::ResourceCreationFailed);
        }
        context.delete_texture(self.geometry_color_texture);
        context.delete_texture(self.geometry_depth_texture);
        let color = match context.create_texture() {
            Some(id) => id,
            None => {
                proof {
                    assert(false);
                }
                return Err(Error::ResourceCreationFailed);
            },
        };
        let depth = match context.create_texture() {
            Some(id) => id,
            None => {
                proof {
                    assert(false);
                }
                return Err(Error::ResourceCreationFailed);
            },
        };
        self.width = width;
        self.height = height;
        self.buffer_width = width;
        self.buffer_height = height;
        self.geometry_color_texture = color;
        self.geometry_depth_texture = depth;
        Ok(())
    }

    /// Renders scene depth from each shadow-enabled light's viewpoint into
    /// that light's shadow map; lights without shadows are skipped. Returns
    /// how many shadow maps were rendered.
    pub fn shadow_pass(
        &mut self,
        directional_lights: &mut Vec<DirectionalLight>,
        spot_lights: &mut Vec<SpotLight>,
    ) -> (rendered: usize)
        requires
            old(self).state == PipelineState::Idle,
            old(directional_lights)@.len() + old(spot_lights)@.len() <= usize::MAX,
        ensures
            *final(self) == (DeferredPipeline { state: PipelineState::ShadowPass, ..*old(self) }),
            final(directional_lights)@.len() == old(directional_lights)@.len(),
            forall|i: int|
                0 <= i < old(directional_lights)@.len() ==> final(directional_lights)@[i]
                    == (DirectionalLight {
                    shadow_rendered: old(directional_lights)@[i].shadow_enabled || old(
                        directional_lights,
                    )@[i].shadow_rendered,
                    ..old(directional_lights)@[i]
                }),
            final(spot_lights)@.len() == old(spot_lights)@.len(),
            forall|i: int|
                0 <= i < old(spot_lights)@.len() ==> final(spot_lights)@[i] == (SpotLight {
                    shadow_rendered: old(spot_lights)@[i].shadow_enabled || old(
                        spot_lights,
                    )@[i].shadow_rendered,
                    ..old(spot_lights)@[i]
                }),
            rendered == shadow_enabled_dirs(
                old(directional_lights)@,
                old(directional_lights)@.len(),
            ) + shadow_enabled_spots(old(spot_lights)@, old(spot_lights)@.len()),
    {
        let mut rendered: usize = 0;
        let mut i: usize = 0;
        while i < directional_lights.len()
            invariant
                i <= directional_lights@.len(),
                directional_lights@.len() == old(directional_lights)@.len(),
                forall|j: int|
                    0 <= j < i ==> directional_lights@[j] == (DirectionalLight {
                        shadow_rendered: old(directional_lights)@[j].shadow_enabled || old(
                            directional_lights,
                        )@[j].shadow_rendered,
                        ..old(directional_lights)@[j]
                    }),
                forall|j: int|
                    i <= j < directional_lights@.len() ==> directional_lights@[j] == old(
                        directional_lights,
                    )@[j],
                rendered == shadow_enabled_dirs(old(directional_lights)@, i as nat),
                rendered <= i,
            decreases directional_lights@.len() - i,
        {
            if directional_lights[i].shadow_enabled {
                let mut l = directional_lights[i];
                l.shadow_rendered = true;
                directional_lights[i] = l;
                rendered = rendered + 1;
            }
            i = i + 1;
        }
        let ghost dirs_rendered: int = rendered as int;
        let mut i: usize = 0;
        while i < spot_lights.len()
            invariant
                i <= spot_lights@.len(),
                spot_lights@.len() == old(spot_lights)@.len(),
                old(directional_lights)@.len() + old(spot_lights)@.len() <= usize::MAX,
                forall|j: int|
                    0 <= j < i ==> spot_lights@[j] == (SpotLight {
                        shadow_rendered: old(spot_lights)@[j].shadow_enabled || old(
                            spot_lights,
                        )@[j].shadow_rendered,
                        ..old(spot_lights)@[j]
                    }),
                forall|j: int| i <= j < spot_lights@.len() ==> spot_lights@[j] == old(spot_lights)@[j],
                dirs_rendered <= old(directional_lights)@.len(),
                rendered == dirs_rendered + shadow_enabled_spots(old(spot_lights)@, i as nat),
                rendered <= dirs_rendered + i,
            decreases spot_lights@.len() - i,
        {
            if spot_lights[i].shadow_enabled {
                let mut l = spot_lights[i];
                l.shadow_rendered = true;
                spot_lights[i] = l;
                rendered = rendered + 1;
            }
            i = i + 1;
        }
        self.state = PipelineState::ShadowPass;
        rendered
    }

    /// Binds the geometry multi-attachment target, checks that it is
    /// complete, and renders every renderable into it with its own
    /// material: the materials' uniforms are written into the geometry
    /// program in renderable order and one draw is issued per renderable.
    /// A material whose required attributes the renderable cannot supply
    /// aborts the pass before anything is written, and an incomplete
    /// target is fatal for the frame.
    pub fn geometry_pass(
        &mut self,
        context: &Context,
        pool: &TexturePool,
        materials: &Vec<AnyMaterial>,
        renderables: &Vec<Renderable>,
        program: &mut Program,
        camera: &Camera,
    ) -> (r: Result<usize, Error>)
        requires
            old(self).state == PipelineState::ShadowPass,
            forall|i: int|
                0 <= i < renderables@.len() ==> #[trigger] renderables@[i].material
                    < materials@.len(),
            forall|i: int| 0 <= i < materials@.len() ==> (#[trigger] materials@[i]).wf(*pool),
        ensures
            match r {
                Ok(draws) => {
                    &&& draws == renderables@.len()
                    &&& *final(self) == (DeferredPipeline {
                        state: PipelineState::GeometryPass,
                        ..*old(self)
                    })
                    &&& forall|i: int|
                        0 <= i < renderables@.len() ==> (#[trigger] renderables@[i]).attributes.contains_all(
                            materials@[renderables@[i].material as int].spec_required_attributes(),
                        )
                    &&& final(program)@.id == old(program)@.id
                    &&& final(program)@.log == old(program)@.log + geometry_bind_events(
                        materials@,
                        renderables@,
                        *pool,
                        renderables@.len(),
                    )
                },
                Err(e) => {
                    &&& e == Error::MissingAttribute
                    &&& exists|i: int|
                        0 <= i < renderables@.len()
                            && !(#[trigger] renderables@[i]).attributes.contains_all(
                            materials@[renderables@[i].material as int].spec_required_attributes(),
                        )
                    &&& *final(self) == *old(self)
                    &&& final(program)@ == old(program)@
                },
            },
    {
        match context.check_framebuffer_status() {
            Ok(()) => {},
            Err(_) => {
                proof {
                    assert(false);
                }
            },
        }
        let mut i: usize = 0;
        while i < renderables.len()
            invariant
                i <= renderables@.len(),
                forall|j: int|
                    0 <= j < renderables@.len() ==> #[trigger] renderables@[j].material
                        < materials@.len(),
                forall|j: int|
                    0 <= j < i ==> (#[trigger] renderables@[j]).attributes.contains_all(
                        materials@[renderables@[j].material as int].spec_required_attributes(),
                    ),
            decreases renderables@.len() - i,
        {
            let renderable = renderables[i];
            let required = materials[renderable.material].required_attributes();
            if !renderable.attributes.provides_all(required) {
                return Err(Error::MissingAttribute);
            }
            i = i + 1;
        }
        let mut i: usize = 0;
        while i < renderables.len()
            invariant
                i <= renderables@.len(),
                forall|j: int|
                    0 <= j < renderables@.len() ==> #[trigger] renderables@[j].material
                        < materials@.len(),
                forall|j: int| 0 <= j < materials@.len() ==> (#[trigger] materials@[j]).wf(*pool),
                program@.id == old(program)@.id,
                program@.log == old(program)@.log + geometry_bind_events(
                    materials@,
                    renderables@,
                    *pool,
                    i as nat,
                ),
            decreases renderables@.len() - i,
        {
            let renderable = renderables[i];
            materials[renderable.material].use_uniforms(pool, program, camera);
            i = i + 1;
            proof {
                assert(program@.log =~= old(program)@.log + geometry_bind_events(
                    materials@,
                    renderables@,
                    *pool,
                    i as nat,
                ));
            }
        }
        self.state = PipelineState::GeometryPass;
        Ok(renderables.len())
    }

    /// Binds the geometry buffers as inputs, fetches or lazily compiles the
    /// lighting shader for the composition tuple of the active lighting
    /// model and light counts, binds every light, and issues the one
    /// full-screen draw. Every shadow-enabled light's map must have been
    /// rendered by this frame's shadow pass.
    pub fn lighting_pass(
        &mut self,
        context: &mut Context,
        ambient_light: Option<&AmbientLight>,
        directional_lights: &[DirectionalLight],
        spot_lights: &[SpotLight],
        point_lights: &[PointLight],
        camera: &Camera,
    ) -> (r: Result<LightingReport, Error>)
        requires
            old(self).state == PipelineState::GeometryPass,
            old(self).wf(old(context)@),
            forall|i: int|
                0 <= i < directional_lights@.len() ==> (#[trigger] directional_lights@[i]).uploaded,
            forall|i: int| 0 <= i < spot_lights@.len() ==> (#[trigger] spot_lights@[i]).uploaded,
            forall|i: int| 0 <= i < point_lights@.len() ==> (#[trigger] point_lights@[i]).uploaded,
            forall|i: int|
                0 <= i < directional_lights@.len() && (#[trigger] directional_lights@[i]).shadow_enabled
                    ==> directional_lights@[i].shadow_rendered,
            forall|i: int|
                0 <= i < spot_lights@.len() && (#[trigger] spot_lights@[i]).shadow_enabled
                    ==> spot_lights@[i].shadow_rendered,
        ensures
            match r {
                Ok(report) => {
                    &&& directional_lights@.len() <= MAX_LIGHTS
                    &&& spot_lights@.len() <= MAX_LIGHTS
                    &&& point_lights@.len() <= MAX_LIGHTS
                    &&& report.key == (CacheKey {
                        model: old(self).lighting_model,
                        directional: directional_lights@.len() as usize,
                        spot: spot_lights@.len() as usize,
                        point: point_lights@.len() as usize,
                    })
                    &&& report.was_cached == cache_contains_key(
                        old(self).cache.entries@,
                        report.key,
                    )
                    &&& final(self).state == PipelineState::LightingPass
                    &&& final(self).lighting_model == old(self).lighting_model
                    &&& final(self).width == old(self).width
                    &&& final(self).height == old(self).height
                    &&& final(self).buffer_width == old(self).buffer_width
                    &&& final(self).buffer_height == old(self).buffer_height
                    &&& final(self).geometry_color_texture == old(self).geometry_color_texture
                    &&& final(self).geometry_depth_texture == old(self).geometry_depth_texture
                    &&& final(self).wf(final(context)@)
                    &&& report.index < final(self).cache.entries@.len()
                    &&& final(self).cache.entries@[report.index as int].key == report.key
                    &&& cache_contains_key(final(self).cache.entries@, report.key)
                    &&& (if report.was_cached {
                        &&& final(self).cache.entries@.len() == old(self).cache.entries@.len()
                        &&& final(context)@ == old(context)@
                        &&& forall|i: int|
                            0 <= i < old(self).cache.entries@.len() && i != report.index
                                ==> #[trigger] final(self).cache.entries@[i].key == old(
                                self,
                            ).cache.entries@[i].key && final(self).cache.entries@[i].program@
                                == old(self).cache.entries@[i].program@
                        &&& final(self).cache.entries@[report.index as int].program@.id == old(
                            self,
                        ).cache.entries@[report.index as int].program@.id
                        &&& final(self).cache.entries@[report.index as int].program@.log == old(
                            self,
                        ).cache.entries@[report.index as int].program@.log
                            + lighting_pass_events(
                            old(self).geometry_color_texture,
                            old(self).geometry_depth_texture,
                            ambient_view(ambient_light),
                            directional_lights@,
                            spot_lights@,
                            point_lights@,
                            camera.position,
                        )
                    } else {
                        &&& final(self).cache.entries@.len() == old(self).cache.entries@.len() + 1
                        &&& report.index == old(self).cache.entries@.len()
                        &&& final(context)@ == (ContextState {
                            programs: old(context)@.programs.push(true),
                            ..old(context)@
                        })
                        &&& forall|i: int|
                            0 <= i < old(self).cache.entries@.len()
                                ==> #[trigger] final(self).cache.entries@[i].key == old(
                                self,
                            ).cache.entries@[i].key && final(self).cache.entries@[i].program@
                                == old(self).cache.entries@[i].program@
                        &&& final(self).cache.entries@[report.index as int].program@.log
                            == lighting_pass_events(
                            old(self).geometry_color_texture,
                            old(self).geometry_depth_texture,
                            ambient_view(ambient_light),
                            directional_lights@,
                            spot_lights@,
                            point_lights@,
                            camera.position,
                        )
                    })
                },
                Err(e) => {
                    &&& *final(self) == *old(self)
                    &&& final(context)@ == old(context)@
                    &&& (e == Error::TooManyLights || e == Error::ResourceCreationFailed)
                    &&& (e == Error::TooManyLights <==> (directional_lights@.len() > MAX_LIGHTS
                        || spot_lights@.len() > MAX_LIGHTS || point_lights@.len() > MAX_LIGHTS))
                    &&& (e == Error::ResourceCreationFailed <==> {
                        &&& directional_lights@.len() <= MAX_LIGHTS
                        &&& spot_lights@.len() <= MAX_LIGHTS
                        &&& point_lights@.len() <= MAX_LIGHTS
                        &&& !cache_contains_key(
                            old(self).cache.entries@,
                            CacheKey {
                                model: old(self).lighting_model,
                                directional: directional_lights@.len() as usize,
                                spot: spot_lights@.len() as usize,
                                point: point_lights@.len() as usize,
                            },
                        )
                        &&& old(context)@.programs.len() >= 0xFFFF_FFFF
                    })
                },
            },
    {
        if directional_lights.len() > MAX_LIGHTS || spot_lights.len() > MAX_LIGHTS
            || point_lights.len() > MAX_LIGHTS {
            return Err(Error::TooManyLights);
        }
        let key = CacheKey {
            model: self.lighting_model,
            directional: directional_lights.len(),
            spot: spot_lights.len(),
            point: point_lights.len(),
        };
        let (index, was_cached) = match self.cache.find(key) {
            Some(i) => (i, true),
            None => {
                let source = shaded_fragment_shader(
                    self.lighting_model,
                    None,
                    directional_lights.len(),
                    spot_lights.len(),
                    point_lights.len(),
                );
                let program = match Program::from_source(
                    context,
                    FULL_SCREEN_VERTEX_CODE,
                    source.as_str(),
                ) {
                    Ok(p) => p,
                    Err(e) => {
                        return Err(e);
                    },
                };
                let index = self.cache.entries.len();
                self.cache.entries.push(CacheEntry { key, program });
                (index, false)
            },
        };
        let ghost base_log = self.cache.entries@[index as int].program@.log;
        let color_texture = self.geometry_color_texture;
        let depth_texture = self.geometry_depth_texture;
        let entry = &mut self.cache.entries[index];
        entry.program.use_texture(GBUFFER_NAME, color_texture);
        entry.program.use_texture(DEPTH_MAP_NAME, depth_texture);
        let bound = bind_lights(
            &mut entry.program,
            ambient_light,
            directional_lights,
            spot_lights,
            point_lights,
            camera.position(),
        );
        proof {
            assert(bound is Ok);
            assert(entry.program@.log =~= base_log + lighting_pass_events(
                old(self).geometry_color_texture,
                old(self).geometry_depth_texture,
                ambient_view(ambient_light),
                directional_lights@,
                spot_lights@,
                point_lights@,
                camera.position,
            ));
        }
        self.state = PipelineState::LightingPass;
        Ok(LightingReport { key, was_cached, index })
    }

    /// Hands out the composited image's extent; the frame's result is one
    /// renderable color image of exactly the viewport size.
    pub fn composite(&mut self) -> (r: (usize, usize))
        requires
            old(self).state == PipelineState::LightingPass,
            old(self).width > 0,
            old(self).height > 0,
        ensures
            *final(self) == (DeferredPipeline { state: PipelineState::Composited, ..*old(self) }),
            r.0 == old(self).width,
            r.1 == old(self).height,
            r.0 > 0,
            r.1 > 0,
    {
        self.state = PipelineState::Composited;
        (self.width, self.height)
    }

    /// Ends the frame: the pipeline is idle again and the next frame may
    /// begin with a shadow pass.
    pub fn end_frame(&mut self)
        requires
            old(self).state == PipelineState::Composited,
        ensures
            *final(self) == (DeferredPipeline { state: PipelineState::Idle, ..*old(self) }),
    {
        self.state = PipelineState::Idle;
    }

    /// Tears the pipeline down: the geometry buffers and every cached
    /// program are released; no other resource is touched.
    pub fn destroy(&mut self, context: &mut Context)
        requires
            old(self).is_initialized(),
            old(self).wf(old(context)@),
        ensures
            final(self).state == PipelineState::Destroyed,
            final(self).cache.entries@.len() == 0,
            !final(context)@.texture_live(old(self).geometry_color_texture),
            !final(context)@.texture_live(old(self).geometry_depth_texture),
            forall|t: u32|
                t != old(self).geometry_color_texture && t != old(self).geometry_depth_texture
                    ==> final(context)@.texture_live(t) == old(context)@.texture_live(t),
            forall|p: u32|
                cache_has_program_id(old(self).cache.entries@, p)
                    ==> !final(context)@.program_live(p),
            forall|p: u32|
                !cache_has_program_id(old(self).cache.entries@, p)
                    ==> final(context)@.program_live(p) == old(context)@.program_live(p),
            final(context)@.buffers == old(context)@.buffers,
            final(context)@.framebuffers == old(context)@.framebuffers,
            final(context)@.renderbuffers == old(context)@.renderbuffers,
    {
        context.delete_texture(self.geometry_color_texture);
        context.delete_texture(self.geometry_depth_texture);
        let ghost all_entries = self.cache.entries@;
        loop
            invariant
                self.cache.entries@ == all_entries.subrange(0, self.cache.entries@.len() as int),
                self.cache.entries@.len() <= all_entries.len(),
                cache_wf(self.cache.entries@, context@),
                forall|p: u32|
                    context@.program_live(p) == (old(context)@.program_live(p) && !exists|i: int|
                        self.cache.entries@.len() <= i < all_entries.len()
                            && #[trigger] all_entries[i].program@.id == p),
                context@.textures == old(context)@.textures.update(
                    old(self).geometry_color_texture as int,
                    false,
                ).update(old(self).geometry_depth_texture as int, false),
                context@.buffers == old(context)@.buffers,
                context@.framebuffers == old(context)@.framebuffers,
                context@.renderbuffers == old(context)@.renderbuffers,
            ensures
                self.cache.entries@.len() == 0,
                forall|p: u32|
                    context@.program_live(p) == (old(context)@.program_live(p) && !exists|i: int|
                        0 <= i < all_entries.len() && #[trigger] all_entries[i].program@.id == p),
                context@.textures == old(context)@.textures.update(
                    old(self).geometry_color_texture as int,
                    false,
                ).update(old(self).geometry_depth_texture as int, false),
                context@.buffers == old(context)@.buffers,
                context@.framebuffers == old(context)@.framebuffers,
                context@.renderbuffers == old(context)@.renderbuffers,
            decreases self.cache.entries@.len(),
        {
            let ghost prev_entries = self.cache.entries@;
            let ghost ctx_before = context@;
            let entry = match self.cache.entries.pop() {
                Some(e) => e,
                None => {
                    break ;
                },
            };
            proof {
                assert(entry == all_entries[prev_entries.len() - 1]);
                assert(self.cache.entries@ =~= all_entries.subrange(
                    0,
                    self.cache.entries@.len() as int,
                ));
            }
            entry.program.delete(context);
            proof {
                let new_len = self.cache.entries@.len() as int;
                let pid = entry.program@.id;
                assert(all_entries[new_len].program@.id == pid);
                assert forall|p: u32|
                    context@.program_live(p) == (old(context)@.program_live(p) && !exists|i: int|
                        new_len <= i < all_entries.len() && #[trigger] all_entries[i].program@.id
                            == p) by {
                    if p == pid {
                        assert(all_entries[new_len].program@.id == p);
                        assert(!context@.program_live(p));
                    } else {
                        assert(context@.program_live(p) == ctx_before.program_live(p));
                        if exists|i: int|
                            new_len <= i < all_entries.len()
                                && #[trigger] all_entries[i].program@.id == p {
                            let i = choose|i: int|
                                new_len <= i < all_entries.len()
                                    && #[trigger] all_entries[i].program@.id == p;
                            assert(i != new_len);
                            assert(new_len + 1 <= i < all_entries.len()
                                && all_entries[i].program@.id == p);
                        }
                    }
                }
                assert forall|i: int|
                    0 <= i < self.cache.entries@.len() implies context@.program_live(
                    #[trigger] self.cache.entries@[i].program@.id,
                ) by {
                    assert(self.cache.entries@[i] == prev_entries[i]);
                    assert(prev_entries[i].program@.id != pid);
                    assert(ctx_before.program_live(prev_entries[i].program@.id));
                }
                assert(cache_wf(self.cache.entries@, context@));
            }
        }
        self.state = PipelineState::Destroyed;
    }
}

/// The bindings the geometry pass writes: each renderable's material
/// events, in renderable order, for the first `n` renderables.
pub open spec fn geometry_bind_events(
    materials: Seq<AnyMaterial>,
    renderables: Seq<Renderable>,
    pool: TexturePool,
    n: nat,
) -> Seq<BindEvent>
    decreases n,
{
    if n == 0 {
        Seq::empty()
    } else {
        geometry_bind_events(materials, renderables, pool, (n - 1) as nat) + materials[renderables[n
            - 1].material as int].spec_bind_events(pool)
    }
}

/// Everything the lighting pass writes into the lighting program, in
/// order: the two geometry buffer inputs, then every light's bindings.
pub open spec fn lighting_pass_events(
    color_texture: u32,
    depth_texture: u32,
    ambient: Option<AmbientLight>,
    dirs: Seq<DirectionalLight>,
    spots: Seq<SpotLight>,
    points: Seq<PointLight>,
    camera_position: crate::types::Vector3,
) -> Seq<BindEvent> {
    seq![
        BindEvent::Texture { name: GBUFFER_NAME@, texture: color_texture },
        BindEvent::Texture { name: DEPTH_MAP_NAME@, texture: depth_texture },
    ] + bind_lights_events(ambient, dirs, spots, points, camera_position)
}

} // verus!
