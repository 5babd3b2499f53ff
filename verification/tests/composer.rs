use three_d::material::{shaded_fragment_shader, Material};
use three_d::shader::MAX_LIGHTS;
use three_d::types::{LightingModel, NormalDistributionFunction, GeometryFunction};

fn count_occurrences(text: &str, pattern: &str) -> usize {
    let mut count = 0;
    let mut start = 0;
    while let Some(pos) = text[start..].find(pattern) {
        count += 1;
        start += pos + pattern.len();
    }
    count
}

#[test]
fn composer_is_deterministic() {
    let first = shaded_fragment_shader(LightingModel::Blinn, None, 1, 0, 0);
    let second = shaded_fragment_shader(LightingModel::Blinn, None, 1, 0, 0);
    assert_eq!(first, second);

    let material = Material::default();
    let a = shaded_fragment_shader(LightingModel::Phong, Some(&material), 2, 1, 3);
    let b = shaded_fragment_shader(LightingModel::Phong, Some(&material), 2, 1, 3);
    assert_eq!(a, b);
}

#[test]
fn composer_emits_one_block_per_light() {
    for &(d, s, p) in &[(0usize, 0usize, 0usize), (1, 0, 0), (2, 1, 3), (0, 2, 0), (5, 5, 5)] {
        let source = shaded_fragment_shader(LightingModel::Blinn, None, d, s, p);
        assert_eq!(count_occurrences(&source, "DirectionalLightUniform"), d);
        assert_eq!(count_occurrences(&source, "SpotLightUniform"), s);
        assert_eq!(count_occurrences(&source, "PointLightUniform"), p);
        assert_eq!(count_occurrences(&source, "calculate_directional_light("), d);
        assert_eq!(count_occurrences(&source, "calculate_spot_light("), s);
        assert_eq!(count_occurrences(&source, "calculate_point_light("), p);
    }
}

#[test]
fn composer_blocks_are_indexed_in_order() {
    let source = shaded_fragment_shader(LightingModel::Blinn, None, 3, 2, 1);
    assert!(source.contains("uniform sampler2D directionalShadowMap0;"));
    assert!(source.contains("uniform sampler2D directionalShadowMap1;"));
    assert!(source.contains("uniform sampler2D directionalShadowMap2;"));
    assert!(!source.contains("directionalShadowMap3"));
    assert!(source.contains("DirectionalLightUniform2"));
    assert!(source.contains("spotShadowMap1"));
    assert!(!source.contains("spotShadowMap2"));
    assert!(source.contains("PointLightUniform0"));
    assert!(!source.contains("PointLightUniform1"));
}

#[test]
fn composer_ambient_always_present() {
    let source = shaded_fragment_shader(LightingModel::Blinn, None, 0, 0, 0);
    assert!(source.contains("uniform vec3 ambientColor;"));
    assert!(source.contains("calculate_lighting"));
}

#[test]
fn composer_max_lights_accepted() {
    let source = shaded_fragment_shader(
        LightingModel::Blinn,
        None,
        MAX_LIGHTS,
        MAX_LIGHTS,
        MAX_LIGHTS,
    );
    assert_eq!(count_occurrences(&source, "DirectionalLightUniform"), MAX_LIGHTS);
}

#[test]
fn composer_lighting_model_defines() {
    let blinn = shaded_fragment_shader(LightingModel::Blinn, None, 0, 0, 0);
    assert!(blinn.starts_with("#define BLINN"));
    let phong = shaded_fragment_shader(LightingModel::Phong, None, 0, 0, 0);
    assert!(phong.starts_with("#define PHONG"));
    let cook = shaded_fragment_shader(
        LightingModel::Cook(
            NormalDistributionFunction::TrowbridgeReitzGGX,
            GeometryFunction::SmithSchlickGGX,
        ),
        None,
        0,
        0,
        0,
    );
    assert!(cook.starts_with("#define COOK\n#define COOK_GGX\n"));
}

#[test]
fn composer_material_section() {
    let deferred = shaded_fragment_shader(LightingModel::Blinn, None, 1, 0, 0);
    assert!(deferred.contains("#define DEFERRED"));

    let no_textures = Material::default();
    let plain = shaded_fragment_shader(LightingModel::Blinn, Some(&no_textures), 1, 0, 0);
    assert!(!plain.contains("#define DEFERRED"));
    assert!(!plain.contains("USE_ALBEDO_TEXTURE"));
    assert!(!plain.contains("in vec2 uvs;"));

    let mut with_albedo = Material::default();
    with_albedo.albedo_texture = Some(0);
    let textured = shaded_fragment_shader(LightingModel::Blinn, Some(&with_albedo), 1, 0, 0);
    assert!(textured.contains("in vec2 uvs;"));
    assert!(textured.contains("#define USE_ALBEDO_TEXTURE;"));
    assert!(!textured.contains("#define USE_NORMAL_TEXTURE;"));
}

#[test]
fn forward_material_shader_uses_light_counts() {
    let material = Material::default();
    let source = material.fragment_shader_source(None, &[], &[], &[]);
    assert_eq!(count_occurrences(&source, "DirectionalLightUniform"), 0);
    assert_eq!(
        source,
        shaded_fragment_shader(LightingModel::Blinn, Some(&material), 0, 0, 0)
    );
}
