use teapot::{
    blend3, control_points, tesselate_patch, vtx, Fraction, Tangent, Uv, Vertex, PATCHES, UNIT,
};

fn flat_patch() -> Vec<Vec<Vertex>> {
    // The plane z = 2 over the square from (0, 0) to (3, 3): control point
    // `b` of row `a` is at x = b, y = a.
    (0..4)
        .map(|a| (0..4).map(|b| vtx([b * 100_000, a * 100_000, 200_000])).collect())
        .collect()
}

fn bernstein(t: f64) -> [f64; 4] {
    let s = 1.0 - t;
    [s * s * s, 3.0 * s * s * t, 3.0 * s * t * t, t * t * t]
}

fn bernstein_slope(t: f64) -> [f64; 4] {
    let s = 1.0 - t;
    [-3.0 * s * s, 3.0 * (1.0 - 4.0 * t + 3.0 * t * t), 3.0 * (2.0 * t - 3.0 * t * t), 3.0 * t * t]
}

fn weighted(p: usize, wv: [f64; 4], wu: [f64; 4]) -> [f64; 3] {
    let mut sum = [0.0; 3];
    for a in 0..4 {
        for b in 0..4 {
            for k in 0..3 {
                sum[k] += wv[a] * wu[b] * (PATCHES[p][a][b][k] as f64 / 100_000.0);
            }
        }
    }
    sum
}

#[test]
fn vtx_sets_the_weight() {
    assert_eq!(vtx([140_000, -78_400, 240_000])._pos, [140_000, -78_400, 240_000, 100_000]);
    assert_eq!(vtx([i32::MIN, i32::MAX, 0])._pos, [i32::MIN as i128, i32::MAX as i128, 0, UNIT]);
}

#[test]
fn table_has_32_patches_of_16_points() {
    let cpts = control_points();
    assert_eq!(cpts.len(), 32);
    for (p, patch) in cpts.iter().enumerate() {
        assert_eq!(patch.len(), 4);
        for (a, row) in patch.iter().enumerate() {
            assert_eq!(row.len(), 4);
            for (b, point) in row.iter().enumerate() {
                let [x, y, z] = PATCHES[p][a][b];
                assert_eq!(point._pos, [x as i128, y as i128, z as i128, UNIT]);
            }
        }
    }
}

#[test]
fn table_holds_the_rim_and_the_bottom() {
    let cpts = control_points();
    assert_eq!(cpts[0][0][0]._pos, [140_000, 0, 240_000, 100_000]);
    assert_eq!(cpts[0][0][1]._pos, [140_000, -78_400, 240_000, 100_000]);
    assert_eq!(cpts[0][1][0]._pos, [133_750, 0, 253_125, 100_000]);
    assert_eq!(cpts[0][3][3]._pos, [0, -150_000, 240_000, 100_000]);
    assert_eq!(cpts[18][1][2]._pos, [352_500, -25_000, 249_375, 100_000]);
    assert_eq!(cpts[31][3][3]._pos, [150_000, 0, 15_000, 100_000]);
}

#[test]
fn blend3_sums_the_weighted_coordinates() {
    let cpts = flat_patch();
    // All weight on control point 2 of row 1.
    assert_eq!(blend3(&[0, 1, 0, 0], &[0, 0, 1, 0], &cpts), [200_000, 100_000, 200_000]);
    // Weights (1, 2, 3, 4) on the rows and (5, 6, 7, 8) on the columns: the
    // weights sum to 10 * 26, x is weighted by column, y by row.
    let x = 10 * (6 + 2 * 7 + 3 * 8) * 100_000;
    let y = 26 * (2 + 2 * 3 + 3 * 4) * 100_000;
    assert_eq!(blend3(&[1, 2, 3, 4], &[5, 6, 7, 8], &cpts), [x, y, 260 * 200_000]);
}

#[test]
fn blend3_with_negative_weights() {
    let cpts = flat_patch();
    assert_eq!(blend3(&[-3, 3, 0, 0], &[1, 0, 0, 0], &cpts), [0, 300_000, 0]);
}

#[test]
fn flat_patch_is_sampled_on_the_plane() {
    let mesh = tesselate_patch(&flat_patch(), 4, 3);
    assert_eq!(mesh.positions.len(), 12);
    for r in 0..4i128 {
        for c in 0..3i128 {
            let at = (r * 3 + c) as usize;
            // u = c / 2 and v = r / 3; the weight is 100000 * 27 * 8.
            let w = 100_000 * 27 * 8;
            assert_eq!(mesh.positions[at]._pos, [3 * c * w / 2, r * w, 2 * w, w]);
            // The derivative along u is (3, 0, 0) and along v is (0, 3, 0).
            assert_eq!(
                mesh.tangents_u[at],
                Tangent { dir: [3 * 100_000 * 27 * 4, 0, 0], scale: 100_000 * 27 * 4 }
            );
            assert_eq!(
                mesh.tangents_v[at],
                Tangent { dir: [0, 3 * 100_000 * 9 * 8, 0], scale: 100_000 * 9 * 8 }
            );
        }
    }
}

#[test]
fn centre_of_the_first_patch() {
    let mesh = tesselate_patch(&control_points()[0], 3, 3);
    assert_eq!(mesh.positions[4]._pos, [6_375_800, -6_375_800, 15_990_000, 6_400_000]);
    assert_eq!(
        mesh.tangents_u[4],
        Tangent { dir: [-4_849_200, -4_849_200, 0], scale: 3_200_000 }
    );
    assert_eq!(mesh.tangents_v[4], Tangent { dir: [340_800, -340_800, 0], scale: 3_200_000 });
    assert_eq!(
        mesh.uvs[4],
        Uv { u: Fraction { num: 1, den: 2 }, v: Fraction { num: 1, den: 2 } }
    );
}

#[test]
fn inside_the_spout() {
    let mesh = tesselate_patch(&control_points()[17], 4, 5);
    let at = 2 * 5 + 3;
    assert_eq!(mesh.positions[at]._pos, [434_600_000, 34_632_000, 342_675_000, 172_800_000]);
    assert_eq!(
        mesh.tangents_u[at],
        Tangent { dir: [-16_200_000, -23_088_000, 9_585_000], scale: 43_200_000 }
    );
    assert_eq!(
        mesh.tangents_v[at],
        Tangent { dir: [27_660_000, -17_712_000, 82_755_000], scale: 57_600_000 }
    );
    assert_eq!(
        mesh.uvs[at],
        Uv { u: Fraction { num: 3, den: 4 }, v: Fraction { num: 2, den: 3 } }
    );
}

#[test]
fn tangent_along_u_vanishes_at_the_top_of_the_lid() {
    // The first row of the knob's patches is one point: along it the surface
    // does not move.
    let mesh = tesselate_patch(&control_points()[20], 3, 3);
    assert_eq!(mesh.positions[1]._pos, [0, 0, 20_160_000, 6_400_000]);
    assert_eq!(mesh.tangents_u[1], Tangent { dir: [0, 0, 0], scale: 3_200_000 });
    assert_eq!(mesh.tangents_v[1], Tangent { dir: [5_460_000, -5_460_000, 0], scale: 3_200_000 });
}

#[test]
fn two_by_two_samples_are_the_corner_control_points() {
    let cpts = control_points();
    for patch in cpts.iter() {
        let mesh = tesselate_patch(patch, 2, 2);
        assert_eq!(mesh.positions.len(), 4);
        assert_eq!(mesh.positions[0], patch[0][0]);
        assert_eq!(mesh.positions[1], patch[0][3]);
        assert_eq!(mesh.positions[2], patch[3][0]);
        assert_eq!(mesh.positions[3], patch[3][3]);
        assert_eq!(mesh.indices, vec![0, 1, 3, 0, 3, 2]);
    }
}

#[test]
fn corners_are_control_points_at_any_resolution() {
    let cpts = control_points();
    let (nr, nc) = (4usize, 6usize);
    let d: i128 = 27 * 125;
    for patch in cpts.iter() {
        let mesh = tesselate_patch(patch, nr, nc);
        let corners = [
            (0, patch[0][0]),
            (nc - 1, patch[0][3]),
            ((nr - 1) * nc, patch[3][0]),
            (nr * nc - 1, patch[3][3]),
        ];
        for (at, cp) in corners {
            let expected = [d * cp._pos[0], d * cp._pos[1], d * cp._pos[2], d * cp._pos[3]];
            assert_eq!(mesh.positions[at]._pos, expected);
        }
    }
}

#[test]
fn uv_is_column_over_steps_and_row_over_steps() {
    let (nr, nc) = (3usize, 5usize);
    let mesh = tesselate_patch(&control_points()[7], nr, nc);
    assert_eq!(mesh.uvs.len(), nr * nc);
    for r in 0..nr {
        for c in 0..nc {
            let uv = mesh.uvs[r * nc + c];
            assert_eq!(uv.u, Fraction { num: c as u32, den: 4 });
            assert_eq!(uv.v, Fraction { num: r as u32, den: 2 });
        }
    }
}

#[test]
fn exact_samples_agree_with_double_precision() {
    let cpts = control_points();
    let (nr, nc) = (6usize, 9usize);
    for (p, patch) in cpts.iter().enumerate() {
        let mesh = tesselate_patch(patch, nr, nc);
        for r in 0..nr {
            for c in 0..nc {
                let at = r * nc + c;
                let u = c as f64 / (nc - 1) as f64;
                let v = r as f64 / (nr - 1) as f64;
                let position = weighted(p, bernstein(v), bernstein(u));
                let along_u = weighted(p, bernstein(v), bernstein_slope(u));
                let along_v = weighted(p, bernstein_slope(v), bernstein(u));
                let pos = mesh.positions[at]._pos;
                let tu = mesh.tangents_u[at];
                let tv = mesh.tangents_v[at];
                for k in 0..3 {
                    assert!((pos[k] as f64 / pos[3] as f64 - position[k]).abs() < 1e-12);
                    assert!((tu.dir[k] as f64 / tu.scale as f64 - along_u[k]).abs() < 1e-11);
                    assert!((tv.dir[k] as f64 / tv.scale as f64 - along_v[k]).abs() < 1e-11);
                }
            }
        }
    }
}

#[test]
fn weights_and_scales_are_positive() {
    let mesh = tesselate_patch(&control_points()[12], 7, 4);
    assert!(mesh.positions.iter().all(|p| p._pos[3] == 100_000 * 216 * 27));
    assert!(mesh.tangents_u.iter().all(|t| t.scale == 100_000 * 216 * 9));
    assert!(mesh.tangents_v.iter().all(|t| t.scale == 100_000 * 36 * 27));
}
