use three_d::context::Context;
use three_d::material::{CPUMaterial, Material};
use three_d::texture::{CPUTexture, Texture2D, TexturePool};
use three_d::types::Format;

fn rgba_texture(pixels: Vec<u8>) -> CPUTexture {
    CPUTexture { data: pixels, width: 1, height: 1, format: Format::RGBA8 }
}

#[test]
fn pool_reference_counting() {
    let mut context = Context::new_stub();
    let mut pool = TexturePool::new();
    let texture = Texture2D::new(&mut context, &rgba_texture(vec![1, 2, 3, 255])).unwrap();
    let id = texture.id;
    let r = pool.insert(texture);
    assert_eq!(pool.ref_count(r), 1);
    pool.retain(r);
    assert_eq!(pool.ref_count(r), 2);

    // releasing one owner keeps the texture alive for the other
    let deleted = pool.release(&mut context, r);
    assert!(!deleted);
    assert!(pool.contains(r));
    assert_eq!(pool.ref_count(r), 1);
    assert!(context.texture_is_live(id));

    // releasing the last owner frees the slot and the GPU resource
    let deleted = pool.release(&mut context, r);
    assert!(deleted);
    assert!(!pool.contains(r));
    assert!(!context.texture_is_live(id));
}

#[test]
fn shared_texture_survives_first_material_destruction() {
    let mut context = Context::new_stub();
    let mut pool = TexturePool::new();
    let cpu_material = CPUMaterial {
        albedo_texture: Some(rgba_texture(vec![1, 2, 3, 255])),
        ..CPUMaterial::default()
    };
    let first = Material::new(&mut context, &mut pool, &cpu_material).unwrap();
    let second = first.duplicate(&mut pool);

    let slot = first.albedo_texture.unwrap();
    assert_eq!(second.albedo_texture, Some(slot));
    assert_eq!(pool.ref_count(slot), 2);
    let id = pool.texture(slot).id;
    assert!(context.texture_is_live(id));

    // destroying one material never releases the shared GPU resource
    first.destroy(&mut context, &mut pool);
    assert!(pool.contains(slot));
    assert_eq!(pool.ref_count(slot), 1);
    assert!(context.texture_is_live(id));

    // only the destruction of the second, last owner releases it
    second.destroy(&mut context, &mut pool);
    assert!(!pool.contains(slot));
    assert!(!context.texture_is_live(id));
}

#[test]
fn combined_texture_released_with_material() {
    let mut context = Context::new_stub();
    let mut pool = TexturePool::new();
    let cpu_material = CPUMaterial {
        occlusion_metallic_roughness_texture: Some(rgba_texture(vec![5, 6, 7, 255])),
        ..CPUMaterial::default()
    };
    let material = Material::new(&mut context, &mut pool, &cpu_material).unwrap();
    let slot = material.metallic_roughness_texture.unwrap();
    assert_eq!(pool.ref_count(slot), 2);
    let id = pool.texture(slot).id;

    // the material holds the combined texture twice and destruction
    // releases both holds at once
    material.destroy(&mut context, &mut pool);
    assert!(!pool.contains(slot));
    assert!(!context.texture_is_live(id));
}

#[test]
fn duplicate_shares_all_textures() {
    let mut context = Context::new_stub();
    let mut pool = TexturePool::new();
    let cpu_material = CPUMaterial {
        albedo_texture: Some(rgba_texture(vec![1, 1, 1, 255])),
        normal_texture: Some(rgba_texture(vec![2, 2, 2, 255])),
        ..CPUMaterial::default()
    };
    let first = Material::new(&mut context, &mut pool, &cpu_material).unwrap();
    let textures_before = pool.len();
    let second = first.duplicate(&mut pool);
    // sharing allocates no new GPU memory
    assert_eq!(pool.len(), textures_before);
    assert_eq!(second.albedo_texture, first.albedo_texture);
    assert_eq!(second.normal_texture, first.normal_texture);
    assert_eq!(pool.ref_count(first.albedo_texture.unwrap()), 2);
    assert_eq!(pool.ref_count(first.normal_texture.unwrap()), 2);
}
