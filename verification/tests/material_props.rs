use three_d::context::Context;
use three_d::material::{CPUMaterial, Material};
use three_d::program::{BindingEvent, Program};
use three_d::texture::{CPUTexture, Texture2D, TexturePool};
use three_d::types::{Blend, Color, Cull, DepthTest, Format, LightingModel, WriteMask};

fn rgba_texture(pixels: Vec<u8>, width: usize, height: usize) -> CPUTexture {
    CPUTexture { data: pixels, width, height, format: Format::RGBA8 }
}

#[test]
fn combined_texture_takes_precedence() {
    let mut context = Context::new_stub();
    let mut pool = TexturePool::new();
    let cpu_material = CPUMaterial {
        occlusion_metallic_roughness_texture: Some(rgba_texture(vec![1, 2, 3, 255], 1, 1)),
        metallic_roughness_texture: Some(rgba_texture(vec![9, 9, 9, 255, 8, 8, 8, 255], 2, 1)),
        occlusion_texture: Some(rgba_texture(vec![7, 7, 7, 255], 1, 1)),
        ..CPUMaterial::default()
    };
    let material = Material::new(&mut context, &mut pool, &cpu_material).unwrap();

    let mr = material.metallic_roughness_texture.expect("combined texture present");
    let occlusion = material.occlusion_texture.expect("occlusion backed by combined");
    assert_eq!(mr, occlusion);
    assert_eq!(pool.ref_count(mr), 2);
    // the combined image, not one of the separate ones, is behind the slot
    let texture = pool.texture(mr);
    assert_eq!(texture.width, 1);
    assert_eq!(texture.height, 1);
    // the separate images were ignored: only the one combined texture exists
    assert_eq!(pool.len(), 1);

    // both sampler slots are bound to the identical texture
    let mut program = Program::from_source(&mut context, "v", "f").unwrap();
    material.bind_internal(&pool, &mut program).unwrap();
    let mut mr_bound = None;
    let mut occlusion_bound = None;
    for i in 0..program.log_len() {
        match program.log_event(i) {
            BindingEvent::Texture { name, texture } => {
                if name == "metallicRoughnessTexture" {
                    mr_bound = Some(*texture);
                }
                if name == "occlusionTexture" {
                    occlusion_bound = Some(*texture);
                }
            },
            _ => {},
        }
    }
    assert_eq!(mr_bound, Some(texture.id));
    assert_eq!(occlusion_bound, Some(texture.id));
}

#[test]
fn separate_textures_used_without_combined() {
    let mut context = Context::new_stub();
    let mut pool = TexturePool::new();
    let cpu_material = CPUMaterial {
        metallic_roughness_texture: Some(rgba_texture(vec![9, 9, 9, 255], 1, 1)),
        occlusion_texture: Some(rgba_texture(vec![7, 7, 7, 255], 1, 1)),
        ..CPUMaterial::default()
    };
    let material = Material::new(&mut context, &mut pool, &cpu_material).unwrap();
    let mr = material.metallic_roughness_texture.unwrap();
    let occlusion = material.occlusion_texture.unwrap();
    assert_ne!(mr, occlusion);
    assert_eq!(pool.ref_count(mr), 1);
    assert_eq!(pool.ref_count(occlusion), 1);
    assert_eq!(pool.len(), 2);
}

#[test]
fn render_states_opaque_by_default() {
    let mut context = Context::new_stub();
    let mut pool = TexturePool::new();
    let material = Material::new(&mut context, &mut pool, &CPUMaterial::default()).unwrap();
    let states = material.render_states(&pool);
    assert_eq!(states.blend, Blend::Disabled);
    assert_eq!(states.write_mask, WriteMask { red: true, green: true, blue: true, alpha: true, depth: true });
    assert_eq!(states.depth_test, DepthTest::Less);
    assert_eq!(states.cull, Cull::NoCulling);
}

#[test]
fn render_states_transparent_below_alpha_threshold() {
    let mut context = Context::new_stub();
    let mut pool = TexturePool::new();
    let cpu_material = CPUMaterial {
        albedo: Color { r: 255, g: 255, b: 255, a: 252 },
        ..CPUMaterial::default()
    };
    let material = Material::new(&mut context, &mut pool, &cpu_material).unwrap();
    let states = material.render_states(&pool);
    assert_eq!(states.blend, Blend::Transparency);
    assert_eq!(states.write_mask, WriteMask { red: true, green: true, blue: true, alpha: true, depth: false });
}

#[test]
fn render_states_opaque_at_alpha_threshold() {
    let mut context = Context::new_stub();
    let mut pool = TexturePool::new();
    let cpu_material = CPUMaterial {
        albedo: Color { r: 0, g: 0, b: 0, a: 253 },
        ..CPUMaterial::default()
    };
    let material = Material::new(&mut context, &mut pool, &cpu_material).unwrap();
    assert_eq!(material.render_states(&pool).blend, Blend::Disabled);
}

#[test]
fn render_states_transparent_from_albedo_texture() {
    let mut context = Context::new_stub();
    let mut pool = TexturePool::new();
    let cpu_material = CPUMaterial {
        albedo_texture: Some(rgba_texture(vec![10, 20, 30, 200], 1, 1)),
        ..CPUMaterial::default()
    };
    let material = Material::new(&mut context, &mut pool, &cpu_material).unwrap();
    assert_eq!(material.render_states(&pool).blend, Blend::Transparency);

    let mut pool2 = TexturePool::new();
    let opaque_texture = CPUMaterial {
        albedo_texture: Some(rgba_texture(vec![10, 20, 30, 255], 1, 1)),
        ..CPUMaterial::default()
    };
    let material2 = Material::new(&mut context, &mut pool2, &opaque_texture).unwrap();
    assert_eq!(material2.render_states(&pool2).blend, Blend::Disabled);
}

#[test]
fn texture_transparency_scan() {
    let mut context = Context::new_stub();
    let transparent = Texture2D::new(&mut context, &rgba_texture(vec![0, 0, 0, 255, 0, 0, 0, 254], 2, 1)).unwrap();
    assert!(transparent.is_transparent());
    let opaque = Texture2D::new(&mut context, &rgba_texture(vec![0, 0, 0, 255], 1, 1)).unwrap();
    assert!(!opaque.is_transparent());
    // a three-channel image has no alpha channel at all
    let rgb = Texture2D::new(
        &mut context,
        &CPUTexture { data: vec![1, 2, 3], width: 1, height: 1, format: Format::RGB8 },
    ).unwrap();
    assert!(!rgb.is_transparent());
}

#[test]
fn default_material_fields() {
    let material = Material::default();
    assert_eq!(material.name, "default");
    assert_eq!(material.albedo, Color { r: 255, g: 255, b: 255, a: 255 });
    assert!(material.albedo_texture.is_none());
    assert_eq!(material.metallic, 0);
    assert_eq!(material.roughness, 1000);
    assert!(material.metallic_roughness_texture.is_none());
    assert_eq!(material.occlusion_strength, 1000);
    assert!(material.occlusion_texture.is_none());
    assert_eq!(material.normal_scale, 1000);
    assert!(material.normal_texture.is_none());
    assert_eq!(material.lighting_model, LightingModel::Blinn);
}

#[test]
fn bind_internal_event_order() {
    let mut context = Context::new_stub();
    let mut pool = TexturePool::new();
    let cpu_material = CPUMaterial {
        albedo_texture: Some(rgba_texture(vec![1, 1, 1, 255], 1, 1)),
        ..CPUMaterial::default()
    };
    let material = Material::new(&mut context, &mut pool, &cpu_material).unwrap();
    let mut program = Program::from_source(&mut context, "v", "f").unwrap();
    material.bind_internal(&pool, &mut program).unwrap();
    assert_eq!(program.log_len(), 4);
    assert!(matches!(program.log_event(0), BindingEvent::UniformScalar { name, value: 0 } if name == "metallic"));
    assert!(matches!(program.log_event(1), BindingEvent::UniformScalar { name, value: 1000 } if name == "roughness"));
    assert!(matches!(program.log_event(2), BindingEvent::UniformColor { name, .. } if name == "albedo"));
    assert!(matches!(program.log_event(3), BindingEvent::Texture { name, .. } if name == "albedoTexture"));
}
