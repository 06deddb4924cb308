use teapot::{
    check_resolution, control_points, create_vertices, tesselate_patch, Fraction, Mesh,
    ResolutionError, Uv, MAX_SAMPLES,
};

#[test]
fn two_by_two_teapot() {
    let mesh = create_vertices(2, 2).unwrap();
    assert_eq!(mesh.positions.len(), 128);
    assert_eq!(mesh.tangents_u.len(), 128);
    assert_eq!(mesh.tangents_v.len(), 128);
    assert_eq!(mesh.uvs.len(), 128);
    assert_eq!(mesh.indices.len(), 192);
    // The first patch: its four corner control points.
    assert_eq!(mesh.positions[0]._pos, [140_000, 0, 240_000, 100_000]);
    assert_eq!(mesh.positions[1]._pos, [0, -140_000, 240_000, 100_000]);
    assert_eq!(mesh.positions[2]._pos, [150_000, 0, 240_000, 100_000]);
    assert_eq!(mesh.positions[3]._pos, [0, -150_000, 240_000, 100_000]);
}

#[test]
fn two_by_two_teapot_in_single_precision() {
    let mesh = create_vertices(2, 2).unwrap();
    let single = |at: usize| {
        let p = mesh.positions[at]._pos;
        [
            (p[0] as f64 / p[3] as f64) as f32,
            (p[1] as f64 / p[3] as f64) as f32,
            (p[2] as f64 / p[3] as f64) as f32,
            (p[3] as f64 / p[3] as f64) as f32,
        ]
    };
    assert_eq!(single(0), [1.4, 0.0, 2.4, 1.0]);
    assert_eq!(single(3), [0.0, -1.5, 2.4, 1.0]);
}

#[test]
fn counts_follow_the_resolution() {
    for (nr, nc) in [(2usize, 2usize), (2, 5), (5, 2), (3, 3), (8, 11)] {
        let mesh = create_vertices(nr, nc).unwrap();
        assert_eq!(mesh.positions.len(), nr * nc * 32);
        assert_eq!(mesh.tangents_u.len(), nr * nc * 32);
        assert_eq!(mesh.tangents_v.len(), nr * nc * 32);
        assert_eq!(mesh.uvs.len(), nr * nc * 32);
        assert_eq!(mesh.indices.len(), 6 * (nr - 1) * (nc - 1) * 32);
    }
}

#[test]
fn every_index_refers_to_a_position() {
    for (nr, nc) in [(2usize, 2usize), (4, 3), (9, 9)] {
        let mesh = create_vertices(nr, nc).unwrap();
        assert!(mesh.indices.iter().all(|&j| (j as usize) < mesh.positions.len()));
        assert_eq!(*mesh.indices.iter().max().unwrap() as usize, mesh.positions.len() - 1);
    }
}

#[test]
fn patches_come_in_table_order_with_their_indices_moved_up() {
    let (nr, nc) = (3usize, 4usize);
    let mesh = create_vertices(nr, nc).unwrap();
    let cpts = control_points();
    let samples = nr * nc;
    let corners = 6 * (nr - 1) * (nc - 1);
    for (p, patch) in cpts.iter().enumerate() {
        let part = tesselate_patch(patch, nr, nc);
        assert_eq!(&mesh.positions[p * samples..(p + 1) * samples], &part.positions[..]);
        assert_eq!(&mesh.tangents_u[p * samples..(p + 1) * samples], &part.tangents_u[..]);
        assert_eq!(&mesh.tangents_v[p * samples..(p + 1) * samples], &part.tangents_v[..]);
        assert_eq!(&mesh.uvs[p * samples..(p + 1) * samples], &part.uvs[..]);
        for j in 0..corners {
            assert_eq!(mesh.indices[p * corners + j], (p * samples) as u32 + part.indices[j]);
        }
    }
}

#[test]
fn second_patch_starts_after_the_first() {
    let mesh = create_vertices(2, 2).unwrap();
    assert_eq!(&mesh.indices[0..6], &[0, 1, 3, 0, 3, 2]);
    assert_eq!(&mesh.indices[6..12], &[4, 5, 7, 4, 7, 6]);
    assert_eq!(&mesh.indices[186..192], &[124, 125, 127, 124, 127, 126]);
    assert_eq!(mesh.positions[4]._pos, [0, -140_000, 240_000, 100_000]);
    assert_eq!(mesh.positions[127]._pos, [150_000, 0, 15_000, 100_000]);
}

#[test]
fn corners_of_every_patch_of_the_teapot() {
    let (nr, nc) = (3usize, 5usize);
    let mesh = create_vertices(nr, nc).unwrap();
    let cpts = control_points();
    let d: i128 = 8 * 64;
    for (p, patch) in cpts.iter().enumerate() {
        let first = mesh.positions[p * nr * nc]._pos;
        let last = mesh.positions[(p + 1) * nr * nc - 1]._pos;
        let from = patch[0][0]._pos;
        let to = patch[3][3]._pos;
        assert_eq!(first, [d * from[0], d * from[1], d * from[2], d * from[3]]);
        assert_eq!(last, [d * to[0], d * to[1], d * to[2], d * to[3]]);
    }
}

#[test]
fn uv_of_every_sample_of_the_teapot() {
    let (nr, nc) = (4usize, 3usize);
    let mesh = create_vertices(nr, nc).unwrap();
    for p in 0..32 {
        for r in 0..nr {
            for c in 0..nc {
                let expected = Uv {
                    u: Fraction { num: c as u32, den: 2 },
                    v: Fraction { num: r as u32, den: 3 },
                };
                assert_eq!(mesh.uvs[p * nr * nc + r * nc + c], expected);
            }
        }
    }
}

#[test]
fn same_resolution_same_mesh() {
    assert_eq!(create_vertices(5, 4), create_vertices(5, 4));
    assert_ne!(create_vertices(5, 4), create_vertices(4, 5));
}

#[test]
fn too_coarse() {
    assert_eq!(create_vertices(1, 2), Err(ResolutionError::TooCoarse));
    assert_eq!(create_vertices(2, 1), Err(ResolutionError::TooCoarse));
    assert_eq!(create_vertices(0, 0), Err(ResolutionError::TooCoarse));
    assert_eq!(create_vertices(1, usize::MAX), Err(ResolutionError::TooCoarse));
    assert_eq!(check_resolution(0, 7), Err(ResolutionError::TooCoarse));
}

#[test]
fn too_fine() {
    assert_eq!(create_vertices(20_000, 20_000), Err(ResolutionError::TooFine));
    assert_eq!(create_vertices(usize::MAX, usize::MAX), Err(ResolutionError::TooFine));
    assert_eq!(create_vertices(2, MAX_SAMPLES), Err(ResolutionError::TooFine));
    assert_eq!(check_resolution(2, MAX_SAMPLES / 2 + 1), Err(ResolutionError::TooFine));
    assert_eq!(check_resolution(MAX_SAMPLES + 1, 2), Err(ResolutionError::TooFine));
}

#[test]
fn finest_resolutions_are_accepted() {
    assert_eq!(check_resolution(2, 2), Ok(()));
    assert_eq!(check_resolution(2, MAX_SAMPLES / 2), Ok(()));
    assert_eq!(check_resolution(MAX_SAMPLES / 2, 2), Ok(()));
    // 11585^2 = 134212225 is below the limit and 11586^2 is above it.
    assert_eq!(check_resolution(11_585, 11_585), Ok(()));
    assert_eq!(check_resolution(11_586, 11_586), Err(ResolutionError::TooFine));
    assert_eq!(MAX_SAMPLES, (u32::MAX / 32) as usize);
}

#[test]
fn long_thin_grid_is_sampled_without_overflow() {
    let cpts = control_points();
    let mesh = tesselate_patch(&cpts[16], 2, 60_000);
    assert_eq!(mesh.positions.len(), 120_000);
    let n: i128 = 59_999;
    assert_eq!(mesh.positions[0]._pos[3], 100_000 * n * n * n);
    let last = mesh.positions[119_999]._pos;
    let cp = cpts[16][3][3]._pos;
    assert_eq!(last, [cp[0] * n * n * n, cp[1] * n * n * n, cp[2] * n * n * n, cp[3] * n * n * n]);
}

#[test]
fn new_mesh_is_empty() {
    let mesh = Mesh::new();
    assert!(mesh.positions.is_empty());
    assert!(mesh.tangents_u.is_empty());
    assert!(mesh.tangents_v.is_empty());
    assert!(mesh.uvs.is_empty());
    assert!(mesh.indices.is_empty());
}

#[test]
fn append_moves_the_indices_up() {
    let cpts = control_points();
    let first = tesselate_patch(&cpts[0], 2, 3);
    let second = tesselate_patch(&cpts[1], 3, 2);
    let mut mesh = Mesh::new();
    mesh.append(first.clone());
    assert_eq!(mesh, first);
    mesh.append(second.clone());
    assert_eq!(mesh.positions.len(), 12);
    assert_eq!(&mesh.positions[..6], &first.positions[..]);
    assert_eq!(&mesh.positions[6..], &second.positions[..]);
    assert_eq!(&mesh.tangents_u[6..], &second.tangents_u[..]);
    assert_eq!(&mesh.tangents_v[6..], &second.tangents_v[..]);
    assert_eq!(&mesh.uvs[6..], &second.uvs[..]);
    assert_eq!(&mesh.indices[..12], &first.indices[..]);
    let moved: Vec<u32> = second.indices.iter().map(|j| j + 6).collect();
    assert_eq!(&mesh.indices[12..], &moved[..]);
}
