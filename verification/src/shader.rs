use vstd::prelude::*;

verus! {

/// The largest number of lights of one kind a composed shader supports.
/// Exceeding it is a configuration error reported at scene-setup time.
pub const MAX_LIGHTS: usize = 16;

pub const DIR_UNIFORM_A: &'static str = "\nuniform sampler2D directionalShadowMap";

pub const DIR_UNIFORM_B: &'static str = ";\nlayout (std140) uniform DirectionalLightUniform";

pub const DIR_UNIFORM_C: &'static str = "\n{\n    DirectionalLight directionalLight";

pub const DIR_UNIFORM_D: &'static str = ";\n};";

pub const DIR_CALL_A: &'static str =
    "\n    color += calculate_directional_light(directionalLight";

pub const DIR_CALL_B: &'static str =
    ", surface_color, position, normal, metallic, roughness, occlusion, directionalShadowMap";

pub const DIR_CALL_C: &'static str = ");";

pub const SPOT_UNIFORM_A: &'static str = "\nuniform sampler2D spotShadowMap";

pub const SPOT_UNIFORM_B: &'static str = ";\nlayout (std140) uniform SpotLightUniform";

pub const SPOT_UNIFORM_C: &'static str = "\n{\n    SpotLight spotLight";

pub const SPOT_UNIFORM_D: &'static str = ";\n};";

pub const SPOT_CALL_A: &'static str = "\n    color += calculate_spot_light(spotLight";

pub const SPOT_CALL_B: &'static str =
    ", surface_color, position, normal, metallic, roughness, occlusion, spotShadowMap";

pub const SPOT_CALL_C: &'static str = ");";

pub const POINT_UNIFORM_A: &'static str = "\nlayout (std140) uniform PointLightUniform";

pub const POINT_UNIFORM_B: &'static str = "\n{\n    PointLight pointLight";

pub const POINT_UNIFORM_C: &'static str = ";\n};";

pub const POINT_CALL_A: &'static str = "\n    color += calculate_point_light(pointLight";

pub const POINT_CALL_B: &'static str =
    ", surface_color, position, normal, metallic, roughness, occlusion);";

pub const MODEL_PHONG_DEFINES: &'static str = "#define PHONG";

pub const MODEL_BLINN_DEFINES: &'static str = "#define BLINN";

pub const COOK_BLINN_DEFINES: &'static str = "#define COOK\n#define COOK_BLINN\n";

pub const COOK_BECKMANN_DEFINES: &'static str = "#define COOK\n#define COOK_BECKMANN\n";

pub const COOK_GGX_DEFINES: &'static str = "#define COOK\n#define COOK_GGX\n";

pub const NEWLINE: &'static str = "\n";

/// Utilities every fragment stage shares.
pub const SHARED_FRAGMENT_CODE: &'static str =
    "uniform mat4 viewProjection;\nuniform mat4 modelMatrix;\nvec3 srgb_from_rgb(vec3 rgb)\n{\n    return pow(rgb, vec3(1.0 / 2.2));\n}\n";

/// The light parameter structures and shadow sampling helpers.
pub const LIGHT_SHARED_FRAGMENT_CODE: &'static str =
    "struct BaseLight\n{\n    vec3 color;\n    float intensity;\n};\nstruct DirectionalLight\n{\n    BaseLight base;\n    vec3 direction;\n    mat4 shadowMVP;\n};\nstruct SpotLight\n{\n    BaseLight base;\n    vec3 direction;\n    vec3 position;\n    float cutoff;\n    mat4 shadowMVP;\n};\nstruct PointLight\n{\n    BaseLight base;\n    vec3 position;\n    vec3 attenuation;\n};\nfloat is_visible(sampler2D shadowMap, vec4 shadow_coord, vec2 offset)\n{\n    vec2 uv = (shadow_coord.xy + offset) / shadow_coord.w;\n    float true_distance = (shadow_coord.z - 0.005) / shadow_coord.w;\n    float shadow_cast_distance = texture(shadowMap, uv).x;\n    return shadow_cast_distance > true_distance ? 1.0 : 0.0;\n}\n";

pub const LIGHTING_HEADER_A: &'static str = "\nuniform vec3 ambientColor;\n";

pub const DIR_SECTION_COMMENT: &'static str = " // Directional lights\n";

pub const SPOT_SECTION_COMMENT: &'static str = " // Spot lights\n";

pub const LIGHTING_HEADER_MID: &'static str =
    " // Point lights\n\nvec3 calculate_lighting(vec3 surface_color, vec3 position, vec3 normal, float metallic, float roughness, float occlusion)\n{\n    vec3 color = occlusion * ambientColor * mix(surface_color, vec3(0.0), metallic); // Ambient light\n";

pub const LIGHTING_HEADER_END: &'static str = " // Point lights\n    return color;\n}\n";

/// The full-screen lighting stage that composes the final color.
pub const LIGHTING_FRAGMENT_CODE: &'static str =
    "layout (location = 0) out vec4 outColor;\nvoid main()\n{\n    vec4 surface = surface_color_and_alpha();\n    vec3 lit = calculate_lighting(surface.rgb, surface_position(), surface_normal(), surface_metallic(), surface_roughness(), surface_occlusion());\n    outColor = vec4(srgb_from_rgb(lit), surface.a);\n}\n";

/// The inputs declared when the lighting stage reads the geometry buffer
/// instead of a forward material.
pub const DEFERRED_SECTION: &'static str = "#define DEFERRED\nin vec2 uv;\n";

pub const UV_SECTION: &'static str = "in vec2 uvs;\n";

pub const ALBEDO_TEXTURE_DEFINE: &'static str = "#define USE_ALBEDO_TEXTURE;\n";

pub const MR_TEXTURE_DEFINE: &'static str = "#define USE_METALLIC_ROUGHNESS_TEXTURE;\n";

pub const OCCLUSION_TEXTURE_DEFINE: &'static str = "#define USE_OCCLUSION_TEXTURE;\n";

pub const NORMAL_TEXTURE_DEFINE: &'static str = "#define USE_NORMAL_TEXTURE;\n";

pub const POSITION_NORMAL_INPUTS: &'static str = "in vec3 pos;\nin vec3 nor;\n";

/// The geometry stage that writes surface attributes into the geometry
/// buffer attachments for later lighting.
pub const DEFERRED_OBJECTS_FRAGMENT_CODE: &'static str =
    "layout (location = 0) out vec4 outPosition;\nlayout (location = 1) out vec4 outNormal;\nlayout (location = 2) out vec4 outColor;\nvoid main()\n{\n    outPosition = vec4(pos, 1.0);\n    outNormal = vec4(normalize(nor), 1.0);\n    outColor = surface_color_and_alpha();\n}\n";

/// The vertex stage of the full-screen lighting draw.
pub const FULL_SCREEN_VERTEX_CODE: &'static str =
    "in vec3 position;\nin vec2 uv_coordinate;\nout vec2 uv;\nvoid main()\n{\n    uv = uv_coordinate;\n    gl_Position = vec4(position, 1.0);\n}\n";

/// The debug stage that renders geometric position as color.
pub const POSITION_MATERIAL_FRAGMENT_CODE: &'static str =
    "in vec3 pos;\nlayout (location = 0) out vec4 outColor;\nvoid main()\n{\n    outColor = vec4(pos, 1.0);\n}\n";

/// The character of a single decimal digit.
pub open spec fn digit_char(d: nat) -> char
    recommends
        d < 10,
{
    if d == 0 {
        '0'
    } else if d == 1 {
        '1'
    } else if d == 2 {
        '2'
    } else if d == 3 {
        '3'
    } else if d == 4 {
        '4'
    } else if d == 5 {
        '5'
    } else if d == 6 {
        '6'
    } else if d == 7 {
        '7'
    } else if d == 8 {
        '8'
    } else {
        '9'
    }
}

/// The decimal representation of a number, without leading zeros.
pub open spec fn dec_rep(n: nat) -> Seq<char>
    decreases n,
{
    if n < 10 {
        seq![digit_char(n)]
    } else {
        dec_rep(n / 10).push(digit_char(n % 10))
    }
}

/// The text of one decimal digit.
fn digit_str(d: u32) -> (r: &'static str)
    requires
        d < 10,
    ensures
        r@ == seq![digit_char(d as nat)],
{
    let r: &'static str = if d == 0 {
        "0"
    } else if d == 1 {
        "1"
    } else if d == 2 {
        "2"
    } else if d == 3 {
        "3"
    } else if d == 4 {
        "4"
    } else if d == 5 {
        "5"
    } else if d == 6 {
        "6"
    } else if d == 7 {
        "7"
    } else if d == 8 {
        "8"
    } else {
        "9"
    };
    proof {
        reveal_strlit("0");
        reveal_strlit("1");
        reveal_strlit("2");
        reveal_strlit("3");
        reveal_strlit("4");
        reveal_strlit("5");
        reveal_strlit("6");
        reveal_strlit("7");
        reveal_strlit("8");
        reveal_strlit("9");
        assert(r@ =~= seq![digit_char(d as nat)]);
    }
    r
}

/// Appends the decimal representation of `n`.
pub fn push_decimal(s: &mut String, n: u64)
    ensures
        final(s)@ == old(s)@ + dec_rep(n as nat),
    decreases n,
{
    if n >= 10 {
        push_decimal(s, n / 10);
    }
    let d = digit_str((n % 10) as u32);
    s.append(d);
    proof {
        assert(s@ =~= old(s)@ + dec_rep(n as nat));
    }
}

/// The uniform declarations of the directional light with the given index:
/// its shadow map sampler and its parameter block.
pub open spec fn directional_uniform_block(i: nat) -> Seq<char> {
    DIR_UNIFORM_A@ + dec_rep(i) + DIR_UNIFORM_B@ + dec_rep(i) + DIR_UNIFORM_C@ + dec_rep(i)
        + DIR_UNIFORM_D@
}

/// The shading call of the directional light with the given index.
pub open spec fn directional_call_line(i: nat) -> Seq<char> {
    DIR_CALL_A@ + dec_rep(i) + DIR_CALL_B@ + dec_rep(i) + DIR_CALL_C@
}

/// The uniform declarations of the spot light with the given index.
pub open spec fn spot_uniform_block(i: nat) -> Seq<char> {
    SPOT_UNIFORM_A@ + dec_rep(i) + SPOT_UNIFORM_B@ + dec_rep(i) + SPOT_UNIFORM_C@ + dec_rep(i)
        + SPOT_UNIFORM_D@
}

/// The shading call of the spot light with the given index.
pub open spec fn spot_call_line(i: nat) -> Seq<char> {
    SPOT_CALL_A@ + dec_rep(i) + SPOT_CALL_B@ + dec_rep(i) + SPOT_CALL_C@
}

/// The parameter block declaration of the point light with the given index.
pub open spec fn point_uniform_block(i: nat) -> Seq<char> {
    POINT_UNIFORM_A@ + dec_rep(i) + POINT_UNIFORM_B@ + dec_rep(i) + POINT_UNIFORM_C@
}

/// The shading call of the point light with the given index.
pub open spec fn point_call_line(i: nat) -> Seq<char> {
    POINT_CALL_A@ + dec_rep(i) + POINT_CALL_B@
}

/// The uniform declarations of the first `n` directional lights, one block
/// per light, indexed 0..n in order.
pub open spec fn directional_uniform_section(n: nat) -> Seq<char>
    decreases n,
{
    if n == 0 {
        Seq::empty()
    } else {
        directional_uniform_section((n - 1) as nat) + directional_uniform_block((n - 1) as nat)
    }
}

/// The shading calls of the first `n` directional lights, in index order.
pub open spec fn directional_call_section(n: nat) -> Seq<char>
    decreases n,
{
    if n == 0 {
        Seq::empty()
    } else {
        directional_call_section((n - 1) as nat) + directional_call_line((n - 1) as nat)
    }
}

/// The uniform declarations of the first `n` spot lights, in index order.
pub open spec fn spot_uniform_section(n: nat) -> Seq<char>
    decreases n,
{
    if n == 0 {
        Seq::empty()
    } else {
        spot_uniform_section((n - 1) as nat) + spot_uniform_block((n - 1) as nat)
    }
}

/// The shading calls of the first `n` spot lights, in index order.
pub open spec fn spot_call_section(n: nat) -> Seq<char>
    decreases n,
{
    if n == 0 {
        Seq::empty()
    } else {
        spot_call_section((n - 1) as nat) + spot_call_line((n - 1) as nat)
    }
}

/// The parameter block declarations of the first `n` point lights.
pub open spec fn point_uniform_section(n: nat) -> Seq<char>
    decreases n,
{
    if n == 0 {
        Seq::empty()
    } else {
        point_uniform_section((n - 1) as nat) + point_uniform_block((n - 1) as nat)
    }
}

/// The shading calls of the first `n` point lights, in index order.
pub open spec fn point_call_section(n: nat) -> Seq<char>
    decreases n,
{
    if n == 0 {
        Seq::empty()
    } else {
        point_call_section((n - 1) as nat) + point_call_line((n - 1) as nat)
    }
}

/// A decimal representation is never empty.
pub proof fn lemma_dec_rep_len(n: nat)
    ensures
        dec_rep(n).len() >= 1,
    decreases n,
{
    if n >= 10 {
        lemma_dec_rep_len(n / 10);
    }
}

/// More directional lights give a strictly longer uniform section: the
/// count is compiled into the text.
pub proof fn lemma_directional_uniform_section_grows(n1: nat, n2: nat)
    requires
        n1 < n2,
    ensures
        directional_uniform_section(n1).len() < directional_uniform_section(n2).len(),
    decreases n2,
{
    lemma_dec_rep_len((n2 - 1) as nat);
    if n1 < n2 - 1 {
        lemma_directional_uniform_section_grows(n1, (n2 - 1) as nat);
    }
}

/// More directional lights give a strictly longer call section.
pub proof fn lemma_directional_call_section_grows(n1: nat, n2: nat)
    requires
        n1 < n2,
    ensures
        directional_call_section(n1).len() < directional_call_section(n2).len(),
    decreases n2,
{
    lemma_dec_rep_len((n2 - 1) as nat);
    if n1 < n2 - 1 {
        lemma_directional_call_section_grows(n1, (n2 - 1) as nat);
    }
}

/// More spot lights give a strictly longer uniform section.
pub proof fn lemma_spot_uniform_section_grows(n1: nat, n2: nat)
    requires
        n1 < n2,
    ensures
        spot_uniform_section(n1).len() < spot_uniform_section(n2).len(),
    decreases n2,
{
    lemma_dec_rep_len((n2 - 1) as nat);
    if n1 < n2 - 1 {
        lemma_spot_uniform_section_grows(n1, (n2 - 1) as nat);
    }
}

/// More spot lights give a strictly longer call section.
pub proof fn lemma_spot_call_section_grows(n1: nat, n2: nat)
    requires
        n1 < n2,
    ensures
        spot_call_section(n1).len() < spot_call_section(n2).len(),
    decreases n2,
{
    lemma_dec_rep_len((n2 - 1) as nat);
    if n1 < n2 - 1 {
        lemma_spot_call_section_grows(n1, (n2 - 1) as nat);
    }
}

/// More point lights give a strictly longer uniform section.
pub proof fn lemma_point_uniform_section_grows(n1: nat, n2: nat)
    requires
        n1 < n2,
    ensures
        point_uniform_section(n1).len() < point_uniform_section(n2).len(),
    decreases n2,
{
    lemma_dec_rep_len((n2 - 1) as nat);
    if n1 < n2 - 1 {
        lemma_point_uniform_section_grows(n1, (n2 - 1) as nat);
    }
}

/// More point lights give a strictly longer call section.
pub proof fn lemma_point_call_section_grows(n1: nat, n2: nat)
    requires
        n1 < n2,
    ensures
        point_call_section(n1).len() < point_call_section(n2).len(),
    decreases n2,
{
    lemma_dec_rep_len((n2 - 1) as nat);
    if n1 < n2 - 1 {
        lemma_point_call_section_grows(n1, (n2 - 1) as nat);
    }
}

/// A slice taken inside the left part of a concatenation reads the left
/// part alone.
pub proof fn lemma_subrange_of_concat_left(a: Seq<char>, b: Seq<char>, off: int, len: int)
    requires
        0 <= off,
        0 <= len,
        off + len <= a.len(),
    ensures
        (a + b).subrange(off, off + len) == a.subrange(off, off + len),
{
    assert((a + b).subrange(off, off + len) =~= a.subrange(off, off + len));
}

/// A slice taken inside the right part of a concatenation reads the right
/// part alone, shifted by the left part's length.
pub proof fn lemma_subrange_of_concat_right(a: Seq<char>, b: Seq<char>, off: int, len: int)
    requires
        0 <= off,
        0 <= len,
        off + len <= b.len(),
    ensures
        (a + b).subrange(a.len() + off, a.len() + off + len) == b.subrange(off, off + len),
{
    assert((a + b).subrange(a.len() + off, a.len() + off + len) =~= b.subrange(off, off + len));
}

/// Every directional light index below the count has its whole uniform
/// block, shadow map sampler and parameter block, inside the composed
/// uniform section.
pub proof fn lemma_directional_section_contains_block(n: nat, i: nat)
    requires
        i < n,
    ensures
        exists|off: int|
            {
                &&& 0 <= off
                &&& off + directional_uniform_block(i).len() <= directional_uniform_section(
                    n,
                ).len()
                &&& #[trigger] directional_uniform_section(n).subrange(
                    off,
                    off + directional_uniform_block(i).len() as int,
                ) == directional_uniform_block(i)
            },
    decreases n,
{
    let a = directional_uniform_section((n - 1) as nat);
    let b = directional_uniform_block((n - 1) as nat);
    if i == n - 1 {
        assert(directional_uniform_section(n).subrange(
            a.len() as int,
            (a.len() + b.len()) as int,
        ) =~= b);
    } else {
        lemma_directional_section_contains_block((n - 1) as nat, i);
        let off = choose|off: int|
            {
                &&& 0 <= off
                &&& off + directional_uniform_block(i).len() <= a.len()
                &&& #[trigger] a.subrange(off, off + directional_uniform_block(i).len() as int)
                    == directional_uniform_block(i)
            };
        assert(directional_uniform_section(n).subrange(
            off,
            off + directional_uniform_block(i).len() as int,
        ) =~= a.subrange(off, off + directional_uniform_block(i).len() as int));
    }
}

/// Every spot light index below the count has its whole uniform block
/// inside the composed uniform section.
pub proof fn lemma_spot_section_contains_block(n: nat, i: nat)
    requires
        i < n,
    ensures
        exists|off: int|
            {
                &&& 0 <= off
                &&& off + spot_uniform_block(i).len() <= spot_uniform_section(n).len()
                &&& #[trigger] spot_uniform_section(n).subrange(
                    off,
                    off + spot_uniform_block(i).len() as int,
                ) == spot_uniform_block(i)
            },
    decreases n,
{
    let a = spot_uniform_section((n - 1) as nat);
    let b = spot_uniform_block((n - 1) as nat);
    if i == n - 1 {
        assert(spot_uniform_section(n).subrange(a.len() as int, (a.len() + b.len()) as int) =~= b);
    } else {
        lemma_spot_section_contains_block((n - 1) as nat, i);
        let off = choose|off: int|
            {
                &&& 0 <= off
                &&& off + spot_uniform_block(i).len() <= a.len()
                &&& #[trigger] a.subrange(off, off + spot_uniform_block(i).len() as int)
                    == spot_uniform_block(i)
            };
        assert(spot_uniform_section(n).subrange(
            off,
            off + spot_uniform_block(i).len() as int,
        ) =~= a.subrange(off, off + spot_uniform_block(i).len() as int));
    }
}

/// Every point light index below the count has its whole parameter block
/// declaration inside the composed uniform section.
pub proof fn lemma_point_section_contains_block(n: nat, i: nat)
    requires
        i < n,
    ensures
        exists|off: int|
            {
                &&& 0 <= off
                &&& off + point_uniform_block(i).len() <= point_uniform_section(n).len()
                &&& #[trigger] point_uniform_section(n).subrange(
                    off,
                    off + point_uniform_block(i).len() as int,
                ) == point_uniform_block(i)
            },
    decreases n,
{
    let a = point_uniform_section((n - 1) as nat);
    let b = point_uniform_block((n - 1) as nat);
    if i == n - 1 {
        assert(point_uniform_section(n).subrange(a.len() as int, (a.len() + b.len()) as int) =~= b);
    } else {
        lemma_point_section_contains_block((n - 1) as nat, i);
        let off = choose|off: int|
            {
                &&& 0 <= off
                &&& off + point_uniform_block(i).len() <= a.len()
                &&& #[trigger] a.subrange(off, off + point_uniform_block(i).len() as int)
                    == point_uniform_block(i)
            };
        assert(point_uniform_section(n).subrange(
            off,
            off + point_uniform_block(i).len() as int,
        ) =~= a.subrange(off, off + point_uniform_block(i).len() as int));
    }
}

/// Every directional light index below the count has its whole shading
/// call inside the composed call section.
pub proof fn lemma_directional_calls_contain_line(n: nat, i: nat)
    requires
        i < n,
    ensures
        exists|off: int|
            {
                &&& 0 <= off
                &&& off + directional_call_line(i).len() <= directional_call_section(n).len()
                &&& #[trigger] directional_call_section(n).subrange(
                    off,
                    off + directional_call_line(i).len() as int,
                ) == directional_call_line(i)
            },
    decreases n,
{
    let a = directional_call_section((n - 1) as nat);
    let b = directional_call_line((n - 1) as nat);
    if i == n - 1 {
        assert(directional_call_section(n).subrange(
            a.len() as int,
            (a.len() + b.len()) as int,
        ) =~= b);
    } else {
        lemma_directional_calls_contain_line((n - 1) as nat, i);
        let off = choose|off: int|
            {
                &&& 0 <= off
                &&& off + directional_call_line(i).len() <= a.len()
                &&& #[trigger] a.subrange(off, off + directional_call_line(i).len() as int)
                    == directional_call_line(i)
            };
        assert(directional_call_section(n).subrange(
            off,
            off + directional_call_line(i).len() as int,
        ) =~= a.subrange(off, off + directional_call_line(i).len() as int));
    }
}

/// Every spot light index below the count has its whole shading call
/// inside the composed call section.
pub proof fn lemma_spot_calls_contain_line(n: nat, i: nat)
    requires
        i < n,
    ensures
        exists|off: int|
            {
                &&& 0 <= off
                &&& off + spot_call_line(i).len() <= spot_call_section(n).len()
                &&& #[trigger] spot_call_section(n).subrange(
                    off,
                    off + spot_call_line(i).len() as int,
                ) == spot_call_line(i)
            },
    decreases n,
{
    let a = spot_call_section((n - 1) as nat);
    let b = spot_call_line((n - 1) as nat);
    if i == n - 1 {
        assert(spot_call_section(n).subrange(a.len() as int, (a.len() + b.len()) as int) =~= b);
    } else {
        lemma_spot_calls_contain_line((n - 1) as nat, i);
        let off = choose|off: int|
            {
                &&& 0 <= off
                &&& off + spot_call_line(i).len() <= a.len()
                &&& #[trigger] a.subrange(off, off + spot_call_line(i).len() as int)
                    == spot_call_line(i)
            };
        assert(spot_call_section(n).subrange(
            off,
            off + spot_call_line(i).len() as int,
        ) =~= a.subrange(off, off + spot_call_line(i).len() as int));
    }
}

/// Every point light index below the count has its whole shading call
/// inside the composed call section.
pub proof fn lemma_point_calls_contain_line(n: nat, i: nat)
    requires
        i < n,
    ensures
        exists|off: int|
            {
                &&& 0 <= off
                &&& off + point_call_line(i).len() <= point_call_section(n).len()
                &&& #[trigger] point_call_section(n).subrange(
                    off,
                    off + point_call_line(i).len() as int,
                ) == point_call_line(i)
            },
    decreases n,
{
    let a = point_call_section((n - 1) as nat);
    let b = point_call_line((n - 1) as nat);
    if i == n - 1 {
        assert(point_call_section(n).subrange(a.len() as int, (a.len() + b.len()) as int) =~= b);
    } else {
        lemma_point_calls_contain_line((n - 1) as nat, i);
        let off = choose|off: int|
            {
                &&& 0 <= off
                &&& off + point_call_line(i).len() <= a.len()
                &&& #[trigger] a.subrange(off, off + point_call_line(i).len() as int)
                    == point_call_line(i)
            };
        assert(point_call_section(n).subrange(
            off,
            off + point_call_line(i).len() as int,
        ) =~= a.subrange(off, off + point_call_line(i).len() as int));
    }
}

fn push_directional_uniform_block(s: &mut String, i: u32)
    ensures
        final(s)@ == old(s)@ + directional_uniform_block(i as nat),
{
    s.append(DIR_UNIFORM_A);
    push_decimal(s, i as u64);
    s.append(DIR_UNIFORM_B);
    push_decimal(s, i as u64);
    s.append(DIR_UNIFORM_C);
    push_decimal(s, i as u64);
    s.append(DIR_UNIFORM_D);
    proof {
        assert(s@ =~= old(s)@ + directional_uniform_block(i as nat));
    }
}

fn push_directional_call_line(s: &mut String, i: u32)
    ensures
        final(s)@ == old(s)@ + directional_call_line(i as nat),
{
    s.append(DIR_CALL_A);
    push_decimal(s, i as u64);
    s.append(DIR_CALL_B);
    push_decimal(s, i as u64);
    s.append(DIR_CALL_C);
    proof {
        assert(s@ =~= old(s)@ + directional_call_line(i as nat));
    }
}

fn push_spot_uniform_block(s: &mut String, i: u32)
    ensures
        final(s)@ == old(s)@ + spot_uniform_block(i as nat),
{
    s.append(SPOT_UNIFORM_A);
    push_decimal(s, i as u64);
    s.append(SPOT_UNIFORM_B);
    push_decimal(s, i as u64);
    s.append(SPOT_UNIFORM_C);
    push_decimal(s, i as u64);
    s.append(SPOT_UNIFORM_D);
    proof {
        assert(s@ =~= old(s)@ + spot_uniform_block(i as nat));
    }
}

fn push_spot_call_line(s: &mut String, i: u32)
    ensures
        final(s)@ == old(s)@ + spot_call_line(i as nat),
{
    s.append(SPOT_CALL_A);
    push_decimal(s, i as u64);
    s.append(SPOT_CALL_B);
    push_decimal(s, i as u64);
    s.append(SPOT_CALL_C);
    proof {
        assert(s@ =~= old(s)@ + spot_call_line(i as nat));
    }
}

fn push_point_uniform_block(s: &mut String, i: u32)
    ensures
        final(s)@ == old(s)@ + point_uniform_block(i as nat),
{
    s.append(POINT_UNIFORM_A);
    push_decimal(s, i as u64);
    s.append(POINT_UNIFORM_B);
    push_decimal(s, i as u64);
    s.append(POINT_UNIFORM_C);
    proof {
        assert(s@ =~= old(s)@ + point_uniform_block(i as nat));
    }
}

fn push_point_call_line(s: &mut String, i: u32)
    ensures
        final(s)@ == old(s)@ + point_call_line(i as nat),
{
    s.append(POINT_CALL_A);
    push_decimal(s, i as u64);
    s.append(POINT_CALL_B);
    proof {
        assert(s@ =~= old(s)@ + point_call_line(i as nat));
    }
}

/// Appends the uniform declarations of `count` directional lights.
pub fn push_directional_uniform_section(s: &mut String, count: usize)
    requires
        count <= MAX_LIGHTS,
    ensures
        final(s)@ == old(s)@ + directional_uniform_section(count as nat),
{
    let mut i: usize = 0;
    while i < count
        invariant
            i <= count,
            count <= MAX_LIGHTS,
            s@ == old(s)@ + directional_uniform_section(i as nat),
        decreases count - i,
    {
        push_directional_uniform_block(s, i as u32);
        i = i + 1;
        proof {
            assert(s@ =~= old(s)@ + directional_uniform_section(i as nat));
        }
    }
}

/// Appends the shading calls of `count` directional lights.
pub fn push_directional_call_section(s: &mut String, count: usize)
    requires
        count <= MAX_LIGHTS,
    ensures
        final(s)@ == old(s)@ + directional_call_section(count as nat),
{
    let mut i: usize = 0;
    while i < count
        invariant
            i <= count,
            count <= MAX_LIGHTS,
            s@ == old(s)@ + directional_call_section(i as nat),
        decreases count - i,
    {
        push_directional_call_line(s, i as u32);
        i = i + 1;
        proof {
            assert(s@ =~= old(s)@ + directional_call_section(i as nat));
        }
    }
}

/// Appends the uniform declarations of `count` spot lights.
pub fn push_spot_uniform_section(s: &mut String, count: usize)
    requires
        count <= MAX_LIGHTS,
    ensures
        final(s)@ == old(s)@ + spot_uniform_section(count as nat),
{
    let mut i: usize = 0;
    while i < count
        invariant
            i <= count,
            count <= MAX_LIGHTS,
            s@ == old(s)@ + spot_uniform_section(i as nat),
        decreases count - i,
    {
        push_spot_uniform_block(s, i as u32);
        i = i + 1;
        proof {
            assert(s@ =~= old(s)@ + spot_uniform_section(i as nat));
        }
    }
}

/// Appends the shading calls of `count` spot lights.
pub fn push_spot_call_section(s: &mut String, count: usize)
    requires
        count <= MAX_LIGHTS,
    ensures
        final(s)@ == old(s)@ + spot_call_section(count as nat),
{
    let mut i: usize = 0;
    while i < count
        invariant
            i <= count,
            count <= MAX_LIGHTS,
            s@ == old(s)@ + spot_call_section(i as nat),
        decreases count - i,
    {
        push_spot_call_line(s, i as u32);
        i = i + 1;
        proof {
            assert(s@ =~= old(s)@ + spot_call_section(i as nat));
        }
    }
}

/// Appends the parameter block declarations of `count` point lights.
pub fn push_point_uniform_section(s: &mut String, count: usize)
    requires
        count <= MAX_LIGHTS,
    ensures
        final(s)@ == old(s)@ + point_uniform_section(count as nat),
{
    let mut i: usize = 0;
    while i < count
        invariant
            i <= count,
            count <= MAX_LIGHTS,
            s@ == old(s)@ + point_uniform_section(i as nat),
        decreases count - i,
    {
        push_point_uniform_block(s, i as u32);
        i = i + 1;
        proof {
            assert(s@ =~= old(s)@ + point_uniform_section(i as nat));
        }
    }
}

/// Appends the shading calls of `count` point lights.
pub fn push_point_call_section(s: &mut String, count: usize)
    requires
        count <= MAX_LIGHTS,
    ensures
        final(s)@ == old(s)@ + point_call_section(count as nat),
{
    let mut i: usize = 0;
    while i < count
        invariant
            i <= count,
            count <= MAX_LIGHTS,
            s@ == old(s)@ + point_call_section(i as nat),
        decreases count - i,
    {
        push_point_call_line(s, i as u32);
        i = i + 1;
        proof {
            assert(s@ =~= old(s)@ + point_call_section(i as nat));
        }
    }
}

} // verus!
