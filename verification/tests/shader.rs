use hyperslice::linalg::{Row5, Vec4};
use hyperslice::region::Region;
use hyperslice::scene::Renderable;
use hyperslice::shader::{
    fragment_shader, tonemap_fragment_source, tonemap_vertex_source, vertex_shader_source,
};

const U: i128 = 1_000_000;

#[test]
fn coefficients_print_as_exact_decimals() {
    let r = Region {
        rows: vec![Row5 {
            a0: 1_500_000,
            a1: 0,
            a2: -1_000_000,
            a3: 618_034,
            b: -2_500_000_000_000,
        }],
    };
    let src = fragment_shader(&vec![r]);
    assert!(src.contains(
        "    minmax = clip(minmax, pos, target, vec4(1.500000, 0.000000, -1.000000, 0.618034), -2.500000000000);\n"
    ));
}

#[test]
fn offsets_print_with_twelve_fractional_digits() {
    let r = Region {
        rows: vec![Row5 { a0: U, a1: 0, a2: 0, a3: 0, b: -15_708_204_000_000 }],
    };
    let src = fragment_shader(&vec![r]);
    assert!(src.contains("), -15.708204000000);\n"));
}

#[test]
fn large_and_tiny_values_print_exactly() {
    let r = Region {
        rows: vec![Row5 { a0: 12_345_678, a1: -1, a2: 0, a3: 0, b: 1 }],
    };
    let src = fragment_shader(&vec![r]);
    assert!(src.contains("vec4(12.345678, -0.000001, 0.000000, 0.000000), 0.000000000001);\n"));
}

#[test]
fn shader_layout_is_header_sections_footer() {
    let one = Region { rows: vec![Row5 { a0: U, a1: 0, a2: 0, a3: 0, b: 0 }] };
    let two = Region {
        rows: vec![
            Row5 { a0: 0, a1: U, a2: 0, a3: 0, b: -U * U },
            Row5 { a0: 0, a1: -U, a2: 0, a3: 0, b: 0 },
        ],
    };
    let src = fragment_shader(&vec![one, two]);
    assert!(src.starts_with("#version 300 es\n\nprecision mediump float;\n"));
    assert!(src.contains("vec2 clip(vec2 minmax, vec4 pos, vec4 target, vec4 abcd, float e) {"));
    assert!(src.contains("bool intersects_scene(vec4 pos, vec4 target) {"));
    assert_eq!(src.matches("minmax = vec2(0.0, 0.999);").count(), 2);
    assert_eq!(src.matches("minmax = clip(minmax, pos, target, vec4(").count(), 3);
    assert_eq!(src.matches("if (minmax.y > minmax.x) {").count(), 2);
    assert!(src.ends_with("}\n"));
    // The visibility rule: behind-the-camera, screen and slice-slab tests,
    // then the occlusion test, then the attenuated contribution.
    assert!(src.contains("vdata.z <= 0.0"));
    assert!(src.contains("abs(vdata.w) > three_screen_size.z"));
    assert!(src.contains("intersects_scene(four_camera_pos, vpos)"));
    assert!(src.contains("texture(tex, vtexcoord) / 5.0"));
}

#[test]
fn empty_region_list_still_yields_a_complete_shader() {
    let src = fragment_shader(&vec![]);
    assert!(src.starts_with("#version 300 es\n"));
    assert_eq!(src.matches("minmax = vec2").count(), 0);
    assert!(src.contains("return false;"));
}

#[test]
fn scene_method_matches_the_free_compiler() {
    let prim = Renderable::Primitive {
        vertices: vec![],
        regions: vec![Region {
            rows: vec![Row5 { a0: U, a1: 0, a2: 0, a3: 0, b: -2 * U * U }],
        }],
    };
    let via_method = prim.fragment_shader();
    let rs = prim.regions();
    let via_free = fragment_shader(&rs);
    assert_eq!(via_method, via_free);
}

#[test]
fn translated_scene_shader_carries_moved_offsets() {
    let prim = Renderable::Primitive {
        vertices: vec![],
        regions: vec![Region {
            rows: vec![Row5 { a0: 0, a1: 0, a2: 0, a3: U, b: -2 * U * U }],
        }],
    };
    let moved = Renderable::translated(Vec4 { c0: 0, c1: 0, c2: 0, c3: -5 * U }, prim);
    let src = moved.fragment_shader();
    // Offset -2 becomes -2 - (1 * -5) = 3.
    assert!(src.contains("vec4(0.000000, 0.000000, 0.000000, 1.000000), 3.000000000000);\n"));
}

#[test]
fn tonemap_maps_zero_accumulation_to_full_brightness() {
    // The tonemap pass writes exp(-accumulated): zero accumulation gives
    // exactly one, and more accumulation never brightens.
    assert!(tonemap_fragment_source().contains("color = exp(-texture(tex, vcoord));"));
    assert_eq!((-0.0f32).exp(), 1.0f32);
    let samples: [f32; 6] = [0.0, 0.1, 0.5, 1.0, 3.0, 100.0];
    let mut prev: f32 = (-samples[0]).exp();
    for a in samples.iter().skip(1) {
        let cur = (-a).exp();
        assert!(cur <= prev);
        assert!(cur > 0.0);
        prev = cur;
    }
}

#[test]
fn stage_sources_expose_the_pipeline_interfaces() {
    let vs = vertex_shader_source();
    assert!(vs.contains("vdata = four_camera_a * pos + four_camera_b;"));
    assert!(vs.contains("gl_Position = three_camera * vec4(vdata.xyz, 1.0);"));
    let tv = tonemap_vertex_source();
    assert!(tv.contains("gl_Position = vec4(coord * 2.0 - 1.0, 0.0, 1.0);"));
}
