use three_d::context::Context;
use three_d::light::{bind_lights, AmbientLight, DirectionalLight, PointLight, SpotLight};
use three_d::program::{BindingEvent, Program};
use three_d::types::{Color, Vector3};

#[test]
fn bind_lights_writes_ambient_and_indexed_bindings() {
    let mut context = Context::new_stub();
    let mut program = Program::from_source(&mut context, "v", "f").unwrap();
    let ambient = AmbientLight::new(Color { r: 255, g: 0, b: 10, a: 255 }, 100);
    let directional = DirectionalLight::new(
        &mut context,
        Color { r: 255, g: 255, b: 255, a: 255 },
        500,
        Vector3::new(0, -1000, 0),
    )
    .unwrap();
    let camera_position = Vector3::new(1000, 2000, 3000);

    bind_lights(&mut program, Some(&ambient), &[directional], &[], &[], camera_position).unwrap();

    assert_eq!(program.log_len(), 4);
    match program.log_event(0) {
        BindingEvent::UniformVector3 { name, value } => {
            assert_eq!(name, "ambientColor");
            assert_eq!(*value, Vector3::new(255 * 100, 0, 10 * 100));
        },
        _ => panic!("first binding is the ambient color"),
    }
    match program.log_event(1) {
        BindingEvent::UniformVector3 { name, value } => {
            assert_eq!(name, "eyePosition");
            assert_eq!(*value, camera_position);
        },
        _ => panic!("second binding is the eye position"),
    }
    match program.log_event(2) {
        BindingEvent::Texture { name, texture } => {
            assert_eq!(name, "directionalShadowMap0");
            assert_eq!(*texture, directional.shadow_map());
        },
        _ => panic!("third binding is the shadow map at index 0"),
    }
    match program.log_event(3) {
        BindingEvent::UniformBlock { name, buffer } => {
            assert_eq!(name, "DirectionalLightUniform0");
            assert_eq!(*buffer, directional.buffer());
        },
        _ => panic!("fourth binding is the parameter block at index 0"),
    }
}

#[test]
fn bind_lights_skips_eye_position_without_lights() {
    let mut context = Context::new_stub();
    let mut program = Program::from_source(&mut context, "v", "f").unwrap();
    let ambient = AmbientLight::new(Color { r: 0, g: 0, b: 0, a: 255 }, 0);
    bind_lights(&mut program, Some(&ambient), &[], &[], &[], Vector3::new(0, 0, 0)).unwrap();
    assert_eq!(program.log_len(), 1);
}

#[test]
fn bind_lights_without_ambient_defaults_to_black() {
    let mut context = Context::new_stub();
    let mut program = Program::from_source(&mut context, "v", "f").unwrap();
    bind_lights(&mut program, None, &[], &[], &[], Vector3::new(0, 0, 0)).unwrap();
    assert_eq!(program.log_len(), 1);
    match program.log_event(0) {
        BindingEvent::UniformVector3 { name, value } => {
            assert_eq!(name, "ambientColor");
            assert_eq!(*value, Vector3::new(0, 0, 0));
        },
        _ => panic!("the ambient color is always written"),
    }
}

#[test]
fn bind_lights_indexes_follow_array_order() {
    let mut context = Context::new_stub();
    let mut program = Program::from_source(&mut context, "v", "f").unwrap();
    let white = Color { r: 255, g: 255, b: 255, a: 255 };
    let d0 = DirectionalLight::new(&mut context, white, 100, Vector3::new(0, -1000, 0)).unwrap();
    let d1 = DirectionalLight::new(&mut context, white, 200, Vector3::new(0, 0, -1000)).unwrap();
    let s0 = SpotLight::new(
        &mut context,
        white,
        300,
        Vector3::new(0, 1000, 0),
        Vector3::new(0, -1000, 0),
        500,
    )
    .unwrap();
    let p0 = PointLight::new(&mut context, white, 400, Vector3::new(0, 0, 0), 1000, 0, 0).unwrap();

    bind_lights(
        &mut program,
        None,
        &[d0, d1],
        &[s0],
        &[p0],
        Vector3::new(0, 0, 0),
    )
    .unwrap();

    // ambient, eye, two directional pairs, one spot pair, one point block
    assert_eq!(program.log_len(), 2 + 4 + 2 + 1);
    let expected_names = [
        "ambientColor",
        "eyePosition",
        "directionalShadowMap0",
        "DirectionalLightUniform0",
        "directionalShadowMap1",
        "DirectionalLightUniform1",
        "spotShadowMap0",
        "SpotLightUniform0",
        "PointLightUniform0",
    ];
    for (i, expected) in expected_names.iter().enumerate() {
        let name = match program.log_event(i) {
            BindingEvent::UniformScalar { name, .. } => name,
            BindingEvent::UniformVector3 { name, .. } => name,
            BindingEvent::UniformColor { name, .. } => name,
            BindingEvent::Texture { name, .. } => name,
            BindingEvent::UniformBlock { name, .. } => name,
        };
        assert_eq!(name, expected);
    }
}

#[test]
fn light_setters_require_new_upload() {
    let mut context = Context::new_stub();
    let white = Color { r: 255, g: 255, b: 255, a: 255 };
    let mut light = DirectionalLight::new(&mut context, white, 100, Vector3::new(0, -1000, 0))
        .unwrap();
    assert!(light.uploaded);
    light.set_intensity(700);
    assert!(!light.uploaded);
    assert_eq!(light.intensity, 700);
    light.update_buffer();
    assert!(light.uploaded);

    light.set_direction(Vector3::new(1000, 0, 0));
    assert!(!light.uploaded);
    light.update_buffer();
    assert!(light.uploaded);
}

#[test]
fn shadow_maps_reallocated_on_enable() {
    let mut context = Context::new_stub();
    let white = Color { r: 255, g: 255, b: 255, a: 255 };
    let mut light = DirectionalLight::new(&mut context, white, 100, Vector3::new(0, -1000, 0))
        .unwrap();
    let old_map = light.shadow_map();
    assert!(!light.shadow_enabled);
    light.enable_shadows(&mut context, 1024).unwrap();
    assert!(light.shadow_enabled);
    assert!(!light.shadow_rendered);
    assert_eq!(light.shadow_map_size, 1024);
    assert!(!context.texture_is_live(old_map));
    assert!(context.texture_is_live(light.shadow_map()));
}

#[test]
fn light_destroy_releases_gpu_resources() {
    let mut context = Context::new_stub();
    let white = Color { r: 255, g: 255, b: 255, a: 255 };
    let light = DirectionalLight::new(&mut context, white, 100, Vector3::new(0, -1000, 0))
        .unwrap();
    let buffer = light.buffer();
    let shadow = light.shadow_map();
    assert!(context.buffer_is_live(buffer));
    assert!(context.texture_is_live(shadow));
    light.destroy(&mut context);
    assert!(!context.buffer_is_live(buffer));
    assert!(!context.texture_is_live(shadow));
}
