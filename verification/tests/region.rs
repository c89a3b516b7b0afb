use hyperslice::linalg::{Row5, Vec4};
use hyperslice::region::{occludes, region_hits, translate_region, Region};

const U: i128 = 1_000_000;
const U2: i128 = 1_000_000_000_000;

fn at3(c3: i128) -> Vec4 {
    Vec4 { c0: 0, c1: 0, c2: 0, c3 }
}

/// The slab 0 <= axis3 <= 2 units: inside iff both rows are non-positive.
fn hidden_slab() -> Region {
    Region {
        rows: vec![
            Row5 { a0: 0, a1: 0, a2: 0, a3: -U, b: 0 },
            Row5 { a0: 0, a1: 0, a2: 0, a3: U, b: -2 * U2 },
        ],
    }
}

#[test]
fn single_halfspace_positive_side_reports_no_intersection() {
    // Row value 1 at the camera, 3 at the target: never enters.
    let r = Region { rows: vec![Row5 { a0: U, a1: 0, a2: 0, a3: 0, b: -2 * U2 }] };
    let cam = Vec4 { c0: 3 * U, c1: 0, c2: 0, c3: 0 };
    let tgt = Vec4 { c0: 5 * U, c1: 0, c2: 0, c3: 0 };
    assert!(!region_hits(&r, &cam, &tgt));
}

#[test]
fn single_halfspace_crossing_reports_intersection() {
    // Row value +1 at the camera, -1 at the target: crosses at t = 1/2.
    let r = Region { rows: vec![Row5 { a0: U, a1: 0, a2: 0, a3: 0, b: -2 * U2 }] };
    let cam = Vec4 { c0: 3 * U, c1: 0, c2: 0, c3: 0 };
    let tgt = Vec4 { c0: U, c1: 0, c2: 0, c3: 0 };
    assert!(region_hits(&r, &cam, &tgt));
}

#[test]
fn single_halfspace_segment_inside_reports_intersection() {
    let r = Region { rows: vec![Row5 { a0: U, a1: 0, a2: 0, a3: 0, b: -2 * U2 }] };
    let cam = Vec4 { c0: U, c1: 0, c2: 0, c3: 0 };
    let tgt = Vec4 { c0: 0, c1: 0, c2: 0, c3: 0 };
    assert!(region_hits(&r, &cam, &tgt));
}

#[test]
fn constant_negative_row_marks_the_region_empty() {
    // The ground's region: a constant negative row, never an occluder.
    let r = Region { rows: vec![Row5 { a0: 0, a1: 0, a2: 0, a3: 0, b: -U2 }] };
    assert!(!region_hits(&r, &at3(-5 * U), &at3(5 * U)));
    assert!(!region_hits(&r, &at3(0), &at3(0)));
}

#[test]
fn slab_region_blocks_a_segment_through_it() {
    let r = hidden_slab();
    assert!(region_hits(&r, &at3(-U), &at3(3 * U)));
    assert!(!region_hits(&r, &at3(3 * U), &at3(5 * U)));
}

#[test]
fn translated_region_blocks_the_translated_segment() {
    let base = hidden_slab();
    let shift = Vec4 { c0: 0, c1: 0, c2: 0, c3: -5 * U };
    let moved = translate_region(&base, &shift);
    // Coefficients untouched, offset moved by minus row . shift.
    assert_eq!(moved.rows[0].a3, -U);
    assert_eq!(moved.rows[0].b, -5 * U2);
    assert_eq!(moved.rows[1].b, -2 * U2 + 5 * U2);
    // The base blocks [-1, 3]; the moved one blocks the shifted segment.
    assert!(region_hits(&base, &at3(-U), &at3(3 * U)));
    assert!(region_hits(&moved, &at3(-6 * U), &at3(-2 * U)));
    assert!(!region_hits(&moved, &at3(-U), &at3(3 * U)));
}

#[test]
fn two_regions_at_different_hidden_offsets_block_independently() {
    let base = hidden_slab();
    let near = translate_region(&base, &Vec4 { c0: 0, c1: 0, c2: 0, c3: -5 * U });
    let far = translate_region(&base, &Vec4 { c0: 0, c1: 0, c2: 0, c3: -10 * U });
    // A segment spanning both offsets is blocked by each on its own.
    assert!(region_hits(&near, &at3(0), &at3(-12 * U)));
    assert!(region_hits(&far, &at3(0), &at3(-12 * U)));
    // A short segment between them misses both.
    assert!(!region_hits(&near, &at3(-6 * U + 1), &at3(-7 * U)));
    assert!(!region_hits(&far, &at3(-6 * U), &at3(-7 * U)));
    // And one entirely on the positive side misses both.
    assert!(!region_hits(&near, &at3(U), &at3(2 * U)));
    assert!(!region_hits(&far, &at3(U), &at3(2 * U)));
}

#[test]
fn occlusion_is_the_union_and_ignores_order() {
    let base = hidden_slab();
    let near = translate_region(&base, &Vec4 { c0: 0, c1: 0, c2: 0, c3: -5 * U });
    let far = translate_region(&base, &Vec4 { c0: 0, c1: 0, c2: 0, c3: -10 * U });
    let cam = at3(0);
    let mid = at3(-6 * U);
    let out = at3(2 * U);
    let ab = vec![
        Region { rows: near.rows.clone() },
        Region { rows: far.rows.clone() },
    ];
    let ba = vec![far, near];
    assert!(occludes(&ab, &cam, &mid));
    assert!(occludes(&ba, &cam, &mid));
    assert!(!occludes(&ab, &cam, &out));
    assert!(!occludes(&ba, &cam, &out));
}
