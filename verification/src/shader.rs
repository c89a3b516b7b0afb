//! The region compiler: turns the scene's region list into the
//! fragment-stage source of the accumulate pass, plus the fixed sources of
//! the other pipeline stages.
//!
//! The occlusion test is specialized per scene: for each region the emitted
//! source resets the clip interval and runs one unrolled `clip` call per
//! half-space row, with the row's coefficients printed as exact decimal
//! literals (coefficients are `UNIT`-scaled and printed with six fractional
//! digits, offsets are `UNIT^2`-scaled and printed with twelve). The
//! contract pins the emitted text down character for character.

use vstd::prelude::*;

use crate::linalg::{in_range, row_in_range, Row5, COEFF_BOUND, OFFSET_BOUND};
use crate::region::{regions_wf, rowsets_of, Region};

verus! {

/// The character of one decimal digit.
pub open spec fn digit_char(d: int) -> char {
    if d == 0 {
        '0'
    } else if d == 1 {
        '1'
    } else if d == 2 {
        '2'
    } else if d == 3 {
        '3'
    } else if d == 4 {
        '4'
    } else if d == 5 {
        '5'
    } else if d == 6 {
        '6'
    } else if d == 7 {
        '7'
    } else if d == 8 {
        '8'
    } else {
        '9'
    }
}

/// The decimal digits of a non-negative integer, most significant first.
pub open spec fn dec_digits(n: int) -> Seq<char>
    decreases n,
{
    if n < 10 {
        seq![digit_char(n)]
    } else {
        dec_digits(n / 10) + seq![digit_char(n % 10)]
    }
}

/// Six fixed-width decimal digits of `n < 10^6`.
pub open spec fn frac6(n: int) -> Seq<char> {
    seq![
        digit_char((n / 100000) % 10),
        digit_char((n / 10000) % 10),
        digit_char((n / 1000) % 10),
        digit_char((n / 100) % 10),
        digit_char((n / 10) % 10),
        digit_char(n % 10),
    ]
}

/// Twelve fixed-width decimal digits of `n < 10^12`.
pub open spec fn frac12(n: int) -> Seq<char> {
    frac6(n / 1000000) + frac6(n % 1000000)
}

/// A `UNIT`-scaled scalar as an exact decimal literal with six fractional
/// digits.
pub open spec fn spec_fixed6(v: int) -> Seq<char> {
    let a = if v < 0 {
        -v
    } else {
        v
    };
    (if v < 0 {
        seq!['-']
    } else {
        Seq::<char>::empty()
    }) + dec_digits(a / 1000000) + seq!['.'] + frac6(a % 1000000)
}

/// A `UNIT^2`-scaled scalar as an exact decimal literal with twelve
/// fractional digits.
pub open spec fn spec_fixed12(v: int) -> Seq<char> {
    let a = if v < 0 {
        -v
    } else {
        v
    };
    (if v < 0 {
        seq!['-']
    } else {
        Seq::<char>::empty()
    }) + dec_digits(a / 1000000000000) + seq!['.'] + frac12(a % 1000000000000)
}

/// Appends one digit character.
fn push_digit(out: &mut String, d: u64)
    requires
        d < 10,
    ensures
        final(out)@ == old(out)@ + seq![digit_char(d as int)],
{
    let s: &str = if d == 0 {
        "0"
    } else if d == 1 {
        "1"
    } else if d == 2 {
        "2"
    } else if d == 3 {
        "3"
    } else if d == 4 {
        "4"
    } else if d == 5 {
        "5"
    } else if d == 6 {
        "6"
    } else if d == 7 {
        "7"
    } else if d == 8 {
        "8"
    } else {
        "9"
    };
    proof {
        reveal_strlit("0");
        reveal_strlit("1");
        reveal_strlit("2");
        reveal_strlit("3");
        reveal_strlit("4");
        reveal_strlit("5");
        reveal_strlit("6");
        reveal_strlit("7");
        reveal_strlit("8");
        reveal_strlit("9");
        assert(s@ =~= seq![digit_char(d as int)]);
    }
    out.append(s);
}

/// Appends the decimal digits of `n`.
fn push_uint(out: &mut String, n: u64)
    ensures
        final(out)@ == old(out)@ + dec_digits(n as int),
    decreases n,
{
    if n < 10 {
        push_digit(out, n);
    } else {
        let ghost pre = out@;
        push_uint(out, n / 10);
        push_digit(out, n % 10);
        proof {
            assert(out@ =~= pre + dec_digits(n as int));
        }
    }
}

/// Appends six fixed-width digits of `n < 10^6`.
fn push_frac6(out: &mut String, n: u64)
    requires
        n < 1000000,
    ensures
        final(out)@ == old(out)@ + frac6(n as int),
{
    let ghost pre = out@;
    push_digit(out, (n / 100000) % 10);
    push_digit(out, (n / 10000) % 10);
    push_digit(out, (n / 1000) % 10);
    push_digit(out, (n / 100) % 10);
    push_digit(out, (n / 10) % 10);
    push_digit(out, n % 10);
    proof {
        assert(out@ =~= pre + frac6(n as int));
    }
}

/// Appends a `UNIT`-scaled scalar as a decimal literal.
fn push_fixed6(out: &mut String, v: i128)
    requires
        in_range(v as int, OFFSET_BOUND as int),
    ensures
        final(out)@ == old(out)@ + spec_fixed6(v as int),
{
    let ghost pre = out@;
    let a: u64 = if v < 0 {
        out.append("-");
        (-v) as u64
    } else {
        v as u64
    };
    push_uint(out, a / 1000000);
    out.append(".");
    push_frac6(out, a % 1000000);
    proof {
        reveal_strlit("-");
        reveal_strlit(".");
        assert(out@ =~= pre + spec_fixed6(v as int));
    }
}

/// Appends a `UNIT^2`-scaled scalar as a decimal literal.
fn push_fixed12(out: &mut String, v: i128)
    requires
        in_range(v as int, OFFSET_BOUND as int),
    ensures
        final(out)@ == old(out)@ + spec_fixed12(v as int),
{
    let ghost pre = out@;
    let a: u64 = if v < 0 {
        out.append("-");
        (-v) as u64
    } else {
        v as u64
    };
    push_uint(out, a / 1000000000000);
    out.append(".");
    let m: u64 = a % 1000000000000;
    push_frac6(out, m / 1000000);
    push_frac6(out, m % 1000000);
    proof {
        reveal_strlit("-");
        reveal_strlit(".");
        assert(out@ =~= pre + spec_fixed12(v as int));
    }
}

/// One unrolled `clip` call of the occlusion test.
pub open spec fn spec_clip_line(h: Row5) -> Seq<char> {
    "    minmax = clip(minmax, pos, target, vec4("@ + spec_fixed6(h.a0 as int) + ", "@
        + spec_fixed6(h.a1 as int) + ", "@ + spec_fixed6(h.a2 as int) + ", "@ + spec_fixed6(
        h.a3 as int,
    ) + "), "@ + spec_fixed12(h.b as int) + ");\n"@
}

/// The clip calls of one region's rows, in order.
pub open spec fn spec_rows_code(rows: Seq<Row5>) -> Seq<char>
    decreases rows.len(),
{
    if rows.len() == 0 {
        Seq::<char>::empty()
    } else {
        spec_rows_code(rows.drop_last()) + spec_clip_line(rows.last())
    }
}

/// One region's section: reset the interval, clip by every row, report an
/// intersection if the interval stayed non-empty.
pub open spec fn spec_region_section(rows: Seq<Row5>) -> Seq<char> {
    "    minmax = vec2(0.0, 0.999);\n"@ + spec_rows_code(rows)
        + "\n    if (minmax.y > minmax.x) {\n        return true;\n    }\n"@
}

/// All regions' sections, in order.
pub open spec fn spec_sections(rs: Seq<Seq<Row5>>) -> Seq<char>
    decreases rs.len(),
{
    if rs.len() == 0 {
        Seq::<char>::empty()
    } else {
        spec_sections(rs.drop_last()) + spec_region_section(rs.last())
    }
}

/// The fixed head of the fragment source: interface block and the `clip`
/// helper implementing one half-space step of the segment test.
pub open spec fn header_text() -> Seq<char> {
    "#version 300 es\n\nprecision mediump float;\n\nin vec4 vpos;\nin vec2 vtexcoord;\nin vec4 vdata;\n\nout vec4 color;\n\nuniform vec4 four_camera_pos;\nuniform sampler2D tex;\nuniform vec3 three_screen_size;\n\nvec2 clip(vec2 minmax, vec4 pos, vec4 target, vec4 abcd, float e) {\n    float x = dot(abcd, pos) + e;\n    float y = dot(abcd, target) + e;\n\n    if (x > y) {\n        minmax.x = max(minmax.x, x/(x-y));\n    } else {\n        minmax.y = min(minmax.y, x/(x-y));\n    }\n\n    return minmax;\n}\n\nbool intersects_scene(vec4 pos, vec4 target) {\n    vec2 minmax;\n"@
}

/// The fixed tail of the fragment source: the per-fragment visibility rule —
/// in front of the camera, on screen, inside the hidden-axis slice slab,
/// unoccluded — and the attenuated texture contribution.
pub open spec fn footer_text() -> Seq<char> {
    "\n    return false;\n}\n\nvoid main() {\n    if (vdata.z <= 0.0 || abs(vdata.x) > three_screen_size.x * vdata.z || abs(vdata.y) > three_screen_size.y * vdata.z || abs(vdata.w) > three_screen_size.z) {\n        color = vec4(0.0);\n    } else if (intersects_scene(four_camera_pos, vpos)) {\n        color = vec4(0.0);\n    } else {\n        color = texture(tex, vtexcoord) / 5.0;\n    }\n}\n"@
}

/// The whole specialized fragment source for a region list.
pub open spec fn spec_fragment_shader(rs: Seq<Seq<Row5>>) -> Seq<char> {
    header_text() + spec_sections(rs) + footer_text()
}

/// Emits one clip call.
fn push_clip_line(out: &mut String, h: &Row5)
    requires
        row_in_range(*h, COEFF_BOUND as int, OFFSET_BOUND as int),
    ensures
        final(out)@ == old(out)@ + spec_clip_line(*h),
{
    let ghost pre = out@;
    out.append("    minmax = clip(minmax, pos, target, vec4(");
    push_fixed6(out, h.a0);
    out.append(", ");
    push_fixed6(out, h.a1);
    out.append(", ");
    push_fixed6(out, h.a2);
    out.append(", ");
    push_fixed6(out, h.a3);
    out.append("), ");
    push_fixed12(out, h.b);
    out.append(");\n");
    proof {
        assert(out@ =~= pre + spec_clip_line(*h));
    }
}

/// Emits one region's section.
#[verifier::rlimit(60)]
fn emit_section(out: &mut String, region: &Region)
    requires
        crate::region::region_wf(*region),
    ensures
        final(out)@ == old(out)@ + spec_region_section(region.rows@),
{
    let ghost pre = out@;
    out.append("    minmax = vec2(0.0, 0.999);\n");
    let ghost base = out@;
    let m: usize = region.rows.len();
    let mut j: usize = 0;
    proof {
        assert(region.rows@.take(0) =~= Seq::<Row5>::empty());
    }
    while j < m
        invariant
            0 <= j <= m,
            m == region.rows@.len(),
            crate::region::region_wf(*region),
            base == pre + "    minmax = vec2(0.0, 0.999);\n"@,
            out@ == base + spec_rows_code(region.rows@.take(j as int)),
        decreases m - j,
    {
        push_clip_line(out, &region.rows[j]);
        proof {
            let rows = region.rows@;
            assert(rows.take(j as int + 1).drop_last() =~= rows.take(j as int));
            assert(rows.take(j as int + 1).last() == rows[j as int]);
            assert(out@ =~= base + spec_rows_code(rows.take(j as int + 1)));
        }
        j = j + 1;
    }
    out.append("\n    if (minmax.y > minmax.x) {\n        return true;\n    }\n");
    proof {
        assert(region.rows@.take(m as int) =~= region.rows@);
        assert(out@ =~= pre + spec_region_section(region.rows@));
    }
}

/// Compiles the scene's region list into the accumulate pass's fragment
/// source: for every rendered fragment it tests the camera-to-fragment
/// segment against each region independently and drops occluded or
/// out-of-slice fragments, exactly in the layout [`spec_fragment_shader`]
/// states.
#[verifier::rlimit(60)]
pub fn fragment_shader(regions: &Vec<Region>) -> (src: String)
    requires
        regions_wf(regions@),
    ensures
        src@ == spec_fragment_shader(rowsets_of(regions@)),
{
    let mut out = String::new();
    out.append("#version 300 es\n\nprecision mediump float;\n\nin vec4 vpos;\nin vec2 vtexcoord;\nin vec4 vdata;\n\nout vec4 color;\n\nuniform vec4 four_camera_pos;\nuniform sampler2D tex;\nuniform vec3 three_screen_size;\n\nvec2 clip(vec2 minmax, vec4 pos, vec4 target, vec4 abcd, float e) {\n    float x = dot(abcd, pos) + e;\n    float y = dot(abcd, target) + e;\n\n    if (x > y) {\n        minmax.x = max(minmax.x, x/(x-y));\n    } else {\n        minmax.y = min(minmax.y, x/(x-y));\n    }\n\n    return minmax;\n}\n\nbool intersects_scene(vec4 pos, vec4 target) {\n    vec2 minmax;\n");
    let n: usize = regions.len();
    let mut i: usize = 0;
    proof {
        assert(rowsets_of(regions@).take(0) =~= Seq::<Seq<Row5>>::empty());
    }
    while i < n
        invariant
            0 <= i <= n,
            n == regions@.len(),
            regions_wf(regions@),
            out@ == header_text() + spec_sections(rowsets_of(regions@).take(i as int)),
        decreases n - i,
    {
        emit_section(&mut out, &regions[i]);
        proof {
            let rsets = rowsets_of(regions@);
            assert(rsets[i as int] == regions@[i as int].rows@);
            assert(rsets.take(i as int + 1).drop_last() =~= rsets.take(i as int));
            assert(rsets.take(i as int + 1).last() == rsets[i as int]);
            assert(out@ =~= header_text() + spec_sections(rsets.take(i as int + 1)));
        }
        i = i + 1;
    }
    out.append("\n    return false;\n}\n\nvoid main() {\n    if (vdata.z <= 0.0 || abs(vdata.x) > three_screen_size.x * vdata.z || abs(vdata.y) > three_screen_size.y * vdata.z || abs(vdata.w) > three_screen_size.z) {\n        color = vec4(0.0);\n    } else if (intersects_scene(four_camera_pos, vpos)) {\n        color = vec4(0.0);\n    } else {\n        color = texture(tex, vtexcoord) / 5.0;\n    }\n}\n");
    proof {
        assert(rowsets_of(regions@).take(regions@.len() as int) =~= rowsets_of(regions@));
    }
    out
}

/// The accumulate pass's vertex source: applies the four-dimensional
/// camera's linear map and hands the camera-space values to the fragment
/// stage; the three visible rows, taken as a conventional homogeneous
/// 3-dimensional point, go through the eye's perspective-view matrix.
pub open spec fn vertex_shader_text() -> Seq<char> {
    "#version 300 es\n\nin vec4 pos;\nin vec2 texcoord;\n\nout vec4 vpos;\nout vec2 vtexcoord;\nout vec4 vdata;\n\nuniform mat4 four_camera_a;\nuniform vec4 four_camera_b;\n\nuniform mat4 three_camera;\n\nvoid main() {\n    vpos = pos;\n    vtexcoord = texcoord;\n\n    vdata = four_camera_a * pos + four_camera_b;\n\n    gl_Position = three_camera * vec4(vdata.xyz, 1.0);\n}\n"@
}

/// See [`vertex_shader_text`].
pub fn vertex_shader_source() -> (r: &'static str)
    ensures
        r@ == vertex_shader_text(),
{
    "#version 300 es\n\nin vec4 pos;\nin vec2 texcoord;\n\nout vec4 vpos;\nout vec2 vtexcoord;\nout vec4 vdata;\n\nuniform mat4 four_camera_a;\nuniform vec4 four_camera_b;\n\nuniform mat4 three_camera;\n\nvoid main() {\n    vpos = pos;\n    vtexcoord = texcoord;\n\n    vdata = four_camera_a * pos + four_camera_b;\n\n    gl_Position = three_camera * vec4(vdata.xyz, 1.0);\n}\n"
}

/// The tonemap pass's vertex source: a screen-filling quad.
pub open spec fn tonemap_vertex_text() -> Seq<char> {
    "#version 300 es\n\nin vec2 coord;\nout vec2 vcoord;\n\nvoid main() {\n    vcoord = coord;\n    gl_Position = vec4(coord * 2.0 - 1.0, 0.0, 1.0);\n}\n"@
}

/// See [`tonemap_vertex_text`].
pub fn tonemap_vertex_source() -> (r: &'static str)
    ensures
        r@ == tonemap_vertex_text(),
{
    "#version 300 es\n\nin vec2 coord;\nout vec2 vcoord;\n\nvoid main() {\n    vcoord = coord;\n    gl_Position = vec4(coord * 2.0 - 1.0, 0.0, 1.0);\n}\n"
}

/// The tonemap pass's fragment source: the accumulated sum is read as a
/// negative-log transmittance and exponentiated, so an accumulated zero maps
/// to full brightness and more overlap only ever darkens.
pub open spec fn tonemap_fragment_text() -> Seq<char> {
    "#version 300 es\n\nprecision mediump float;\n\nin vec2 vcoord;\nout vec4 color;\nuniform sampler2D tex;\n\nvoid main() {\n    color = exp(-texture(tex, vcoord));\n}\n"@
}

/// See [`tonemap_fragment_text`].
pub fn tonemap_fragment_source() -> (r: &'static str)
    ensures
        r@ == tonemap_fragment_text(),
{
    "#version 300 es\n\nprecision mediump float;\n\nin vec2 vcoord;\nout vec4 color;\nuniform sampler2D tex;\n\nvoid main() {\n    color = exp(-texture(tex, vcoord));\n}\n"
}

} // verus!
