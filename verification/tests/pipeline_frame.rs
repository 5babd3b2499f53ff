use three_d::context::Context;
use three_d::light::{AmbientLight, DirectionalLight};
use three_d::material::{CPUMaterial, Material};
use three_d::pipeline::{AnyMaterial, CacheKey, DeferredPipeline, PipelineState, Renderable};
use three_d::position_material::PositionMaterial;
use three_d::program::Program;
use three_d::texture::TexturePool;
use three_d::types::{Camera, Color, Error, LightingModel, Vector3};
use three_d::FragmentAttributes;

fn full_attributes() -> FragmentAttributes {
    FragmentAttributes { position: true, normal: true, uv: true, color: true }
}

#[test]
fn full_frame_with_one_shadowed_directional_light() {
    let mut context = Context::new_stub();
    let mut pool = TexturePool::new();
    let camera = Camera::new(Vector3::new(0, 0, 5000));

    let mut pipeline = DeferredPipeline::new(LightingModel::Blinn);
    assert_eq!(pipeline.state, PipelineState::Uninitialized);
    pipeline.initialize(&mut context, 64, 64).unwrap();
    assert_eq!(pipeline.state, PipelineState::Idle);

    // one ambient light at a tenth, one shadowed directional light at a half
    let ambient = AmbientLight::new(Color { r: 255, g: 255, b: 255, a: 255 }, 100);
    let mut directional = DirectionalLight::new(
        &mut context,
        Color { r: 255, g: 255, b: 255, a: 255 },
        500,
        Vector3::new(0, -1000, 0),
    )
    .unwrap();
    directional.enable_shadows(&mut context, 512).unwrap();

    // one opaque material with no textures, one renderable
    let material = Material::new(&mut context, &mut pool, &CPUMaterial::default()).unwrap();
    let materials = vec![AnyMaterial::PhysicallyBased(material)];
    let renderables = vec![Renderable { attributes: full_attributes(), material: 0 }];

    let mut directional_lights = vec![directional];
    let mut spot_lights = vec![];
    let rendered = pipeline.shadow_pass(&mut directional_lights, &mut spot_lights);
    assert_eq!(rendered, 1);
    assert!(directional_lights[0].shadow_rendered);
    assert_eq!(pipeline.state, PipelineState::ShadowPass);

    let mut geometry_program = Program::from_source(&mut context, "v", "f").unwrap();
    let draws = pipeline
        .geometry_pass(&context, &pool, &materials, &renderables, &mut geometry_program, &camera)
        .unwrap();
    assert_eq!(draws, 1);
    assert_eq!(pipeline.state, PipelineState::GeometryPass);

    let report = pipeline
        .lighting_pass(&mut context, Some(&ambient), &directional_lights, &[], &[], &camera)
        .unwrap();
    assert_eq!(pipeline.state, PipelineState::LightingPass);
    assert_eq!(
        report.key,
        CacheKey { model: LightingModel::Blinn, directional: 1, spot: 0, point: 0 }
    );
    assert!(!report.was_cached);
    assert_eq!(pipeline.cache.len(), 1);
    assert!(pipeline.cache.contains(report.key));

    let (width, height) = pipeline.composite();
    assert_eq!((width, height), (64, 64));
    assert!(width > 0 && height > 0);
    assert_eq!(pipeline.state, PipelineState::Composited);
    pipeline.end_frame();
    assert_eq!(pipeline.state, PipelineState::Idle);
}

#[test]
fn zero_lights_frame_compiles_once_and_reuses() {
    let mut context = Context::new_stub();
    let pool = TexturePool::new();
    let camera = Camera::new(Vector3::new(0, 0, 1000));
    let mut pipeline = DeferredPipeline::new(LightingModel::Blinn);
    pipeline.initialize(&mut context, 16, 16).unwrap();

    let materials = vec![AnyMaterial::PositionDebug(PositionMaterial::default())];
    let renderables = vec![Renderable { attributes: full_attributes(), material: 0 }];
    let mut geometry_program = Program::from_source(&mut context, "v", "f").unwrap();

    // first frame: the lighting pass still executes with zero lights
    pipeline.shadow_pass(&mut vec![], &mut vec![]);
    pipeline
        .geometry_pass(&context, &pool, &materials, &renderables, &mut geometry_program, &camera)
        .unwrap();
    let first = pipeline
        .lighting_pass(&mut context, None, &[], &[], &[], &camera)
        .unwrap();
    assert!(!first.was_cached);
    assert_eq!(
        first.key,
        CacheKey { model: LightingModel::Blinn, directional: 0, spot: 0, point: 0 }
    );
    assert_eq!(pipeline.cache.len(), 1);
    // the ambient uniform defaults to black: events are the two geometry
    // buffer inputs, then the ambient color
    {
        let entry = &pipeline.cache.entries[first.index];
        assert!(entry.program.log_len() >= 3);
        match entry.program.log_event(2) {
            three_d::program::BindingEvent::UniformVector3 { name, value } => {
                assert_eq!(name, "ambientColor");
                assert_eq!(*value, Vector3::new(0, 0, 0));
            },
            _ => panic!("the ambient color follows the geometry buffer inputs"),
        }
    }
    pipeline.composite();
    pipeline.end_frame();

    // second identical frame: the cache entry is reused, not recompiled
    let programs_before = pipeline.cache.len();
    pipeline.shadow_pass(&mut vec![], &mut vec![]);
    pipeline
        .geometry_pass(&context, &pool, &materials, &renderables, &mut geometry_program, &camera)
        .unwrap();
    let second = pipeline
        .lighting_pass(&mut context, None, &[], &[], &[], &camera)
        .unwrap();
    assert!(second.was_cached);
    assert_eq!(second.key, first.key);
    assert_eq!(pipeline.cache.len(), programs_before);
    pipeline.composite();
    pipeline.end_frame();
}

#[test]
fn resize_reallocates_geometry_buffers() {
    let mut context = Context::new_stub();
    let mut pipeline = DeferredPipeline::new(LightingModel::Blinn);
    pipeline.initialize(&mut context, 32, 32).unwrap();
    let old_color = pipeline.geometry_color_texture;
    let old_depth = pipeline.geometry_depth_texture;
    assert_eq!((pipeline.buffer_width, pipeline.buffer_height), (32, 32));

    pipeline.resize(&mut context, 64, 48).unwrap();
    assert_eq!((pipeline.width, pipeline.height), (64, 48));
    assert_eq!((pipeline.buffer_width, pipeline.buffer_height), (64, 48));
    // the stale buffers are gone; nothing can read them any more
    assert!(!context.texture_is_live(old_color));
    assert!(!context.texture_is_live(old_depth));
    assert!(context.texture_is_live(pipeline.geometry_color_texture));
    assert!(context.texture_is_live(pipeline.geometry_depth_texture));

    // a full frame at the new size composites at exactly the new extent
    let camera = Camera::new(Vector3::new(0, 0, 0));
    let pool = TexturePool::new();
    let materials: Vec<AnyMaterial> = vec![];
    let renderables: Vec<Renderable> = vec![];
    let mut geometry_program = Program::from_source(&mut context, "v", "f").unwrap();
    pipeline.shadow_pass(&mut vec![], &mut vec![]);
    pipeline
        .geometry_pass(&context, &pool, &materials, &renderables, &mut geometry_program, &camera)
        .unwrap();
    pipeline
        .lighting_pass(&mut context, None, &[], &[], &[], &camera)
        .unwrap();
    assert_eq!(pipeline.composite(), (64, 48));
}

#[test]
fn too_many_lights_is_a_setup_error() {
    let mut context = Context::new_stub();
    let camera = Camera::new(Vector3::new(0, 0, 0));
    let mut pipeline = DeferredPipeline::new(LightingModel::Blinn);
    pipeline.initialize(&mut context, 8, 8).unwrap();
    let pool = TexturePool::new();
    let mut geometry_program = Program::from_source(&mut context, "v", "f").unwrap();
    pipeline.shadow_pass(&mut vec![], &mut vec![]);
    pipeline
        .geometry_pass(&context, &pool, &vec![], &vec![], &mut geometry_program, &camera)
        .unwrap();

    let white = Color { r: 255, g: 255, b: 255, a: 255 };
    let mut lights = Vec::new();
    for _ in 0..17 {
        lights.push(
            DirectionalLight::new(&mut context, white, 100, Vector3::new(0, -1000, 0)).unwrap(),
        );
    }
    let result = pipeline.lighting_pass(&mut context, None, &lights, &[], &[], &camera);
    match result {
        Err(e) => assert_eq!(e, Error::TooManyLights),
        Ok(_) => panic!("seventeen lights of one kind exceed the supported maximum"),
    }
    // the failed pass did not populate the cache
    assert_eq!(pipeline.cache.len(), 0);
}

#[test]
fn missing_attribute_aborts_geometry_pass() {
    let mut context = Context::new_stub();
    let mut pool = TexturePool::new();
    let camera = Camera::new(Vector3::new(0, 0, 0));
    let mut pipeline = DeferredPipeline::new(LightingModel::Blinn);
    pipeline.initialize(&mut context, 8, 8).unwrap();

    let material = Material::new(&mut context, &mut pool, &CPUMaterial::default()).unwrap();
    let materials = vec![AnyMaterial::PhysicallyBased(material)];
    // a physically-based material needs normals; this renderable has none
    let renderables = vec![
        Renderable {
            attributes: FragmentAttributes { position: true, normal: false, uv: false, color: false },
            material: 0,
        },
    ];
    let mut geometry_program = Program::from_source(&mut context, "v", "f").unwrap();
    pipeline.shadow_pass(&mut vec![], &mut vec![]);
    let result = pipeline.geometry_pass(&context, &pool, &materials, &renderables, &mut geometry_program, &camera);
    assert_eq!(result.unwrap_err(), Error::MissingAttribute);
    // the frame is aborted in the shadow-pass state; no draw was issued
    assert_eq!(pipeline.state, PipelineState::ShadowPass);
    assert_eq!(geometry_program.log_len(), 0);
}

#[test]
fn position_material_requires_position() {
    let debug_material = PositionMaterial::default();
    let without_position = FragmentAttributes { position: false, normal: true, uv: true, color: true };
    match debug_material.fragment_shader_source(without_position) {
        Err(e) => assert_eq!(e, Error::MissingAttribute),
        Ok(_) => panic!("a missing position attribute is an error"),
    }
    let with_position = FragmentAttributes { position: true, normal: false, uv: false, color: false };
    let shader = debug_material.fragment_shader_source(with_position).unwrap();
    assert!(shader.attributes.position);
    assert!(!shader.attributes.normal);
    assert!(shader.source.contains("outColor = vec4(pos, 1.0);"));
}

#[test]
fn pipeline_destroy_releases_buffers_and_cache() {
    let mut context = Context::new_stub();
    let camera = Camera::new(Vector3::new(0, 0, 0));
    let mut pipeline = DeferredPipeline::new(LightingModel::Blinn);
    pipeline.initialize(&mut context, 8, 8).unwrap();
    let pool = TexturePool::new();
    let mut geometry_program = Program::from_source(&mut context, "v", "f").unwrap();
    pipeline.shadow_pass(&mut vec![], &mut vec![]);
    pipeline
        .geometry_pass(&context, &pool, &vec![], &vec![], &mut geometry_program, &camera)
        .unwrap();
    let report = pipeline
        .lighting_pass(&mut context, None, &[], &[], &[], &camera)
        .unwrap();
    let cached_program_id = pipeline.cache.entries[report.index].program.id();
    let color = pipeline.geometry_color_texture;
    let depth = pipeline.geometry_depth_texture;

    pipeline.destroy(&mut context);
    assert_eq!(pipeline.state, PipelineState::Destroyed);
    assert_eq!(pipeline.cache.len(), 0);
    assert!(!context.texture_is_live(color));
    assert!(!context.texture_is_live(depth));
    assert!(!context.program_is_live(cached_program_id));
}
