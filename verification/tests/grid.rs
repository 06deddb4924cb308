use teapot::triangulate;

#[test]
fn one_cell() {
    assert_eq!(triangulate(2, 2), vec![0, 1, 3, 0, 3, 2]);
}

#[test]
fn two_rows_of_cells() {
    // Three rows of two samples: the cells start at samples 0 and 2.
    assert_eq!(triangulate(3, 2), vec![0, 1, 3, 0, 3, 2, 2, 3, 5, 2, 5, 4]);
}

#[test]
fn two_columns_of_cells() {
    // Two rows of three samples: the cells start at samples 0 and 1.
    assert_eq!(triangulate(2, 3), vec![0, 1, 4, 0, 4, 3, 1, 2, 5, 1, 5, 4]);
}

#[test]
fn every_cell_has_two_triangles_of_one_orientation() {
    let (nr, nc) = (5usize, 7usize);
    let indices = triangulate(nr, nc);
    assert_eq!(indices.len(), 6 * (nr - 1) * (nc - 1));
    for r in 0..nr - 1 {
        for c in 0..nc - 1 {
            let at = 6 * (r * (nc - 1) + c);
            let here = (r * nc + c) as u32;
            let right = here + 1;
            let below = here + nc as u32;
            let across = below + 1;
            assert_eq!(&indices[at..at + 6], &[here, right, across, here, across, below]);
        }
    }
}

#[test]
fn every_index_is_a_sample() {
    for nr in 2..9usize {
        for nc in 2..9usize {
            let indices = triangulate(nr, nc);
            assert!(indices.iter().all(|&j| (j as usize) < nr * nc));
            assert!(indices.contains(&((nr * nc - 1) as u32)));
        }
    }
}
