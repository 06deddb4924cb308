use teapot::{basis, basis_slope};

#[test]
fn basis_at_one_third() {
    // (1-t)^3, 3(1-t)^2 t, 3(1-t) t^2, t^3 at t = 1/3, over 27.
    assert_eq!(basis(3, 1), [8, 12, 6, 1]);
}

#[test]
fn basis_at_two_fifths() {
    assert_eq!(basis(5, 2), [27, 54, 36, 8]);
}

#[test]
fn basis_at_the_ends() {
    assert_eq!(basis(4, 0), [64, 0, 0, 0]);
    assert_eq!(basis(4, 4), [0, 0, 0, 64]);
    assert_eq!(basis(1, 0), [1, 0, 0, 0]);
    assert_eq!(basis(1, 1), [0, 0, 0, 1]);
}

#[test]
fn basis_sums_to_one() {
    for n in 1..=12u32 {
        for i in 0..=n {
            let b = basis(n, i);
            let cube = (n as i128) * (n as i128) * (n as i128);
            assert_eq!(b[0] + b[1] + b[2] + b[3], cube);
            assert!(b.iter().all(|&x| 0 <= x && x <= cube));
        }
    }
}

#[test]
fn basis_of_the_widest_grid() {
    let n = u32::MAX;
    let cube = (n as i128) * (n as i128) * (n as i128);
    assert_eq!(basis(n, 0), [cube, 0, 0, 0]);
    assert_eq!(basis(n, n), [0, 0, 0, cube]);
    let b = basis(n, n / 2);
    assert_eq!(b[0] + b[1] + b[2] + b[3], cube);
}

#[test]
fn slope_at_one_third() {
    // -3(1-t)^2, 3(1 - 4t + 3t^2), 3(2t - 3t^2), 3t^2 at t = 1/3, over 9.
    assert_eq!(basis_slope(3, 1), [-12, 0, 9, 3]);
}

#[test]
fn slope_at_two_fifths() {
    assert_eq!(basis_slope(5, 2), [-27, -9, 24, 12]);
}

#[test]
fn slope_at_the_ends() {
    assert_eq!(basis_slope(4, 0), [-48, 48, 0, 0]);
    assert_eq!(basis_slope(4, 4), [0, 0, -48, 48]);
}

#[test]
fn slope_sums_to_zero() {
    for n in 1..=12u32 {
        for i in 0..=n {
            let d = basis_slope(n, i);
            let square = (n as i128) * (n as i128);
            assert_eq!(d[0] + d[1] + d[2] + d[3], 0);
            assert!(d.iter().all(|&x| -3 * square <= x && x <= 3 * square));
        }
    }
}

#[test]
fn slope_is_the_derivative_of_the_basis() {
    // The central difference of a cubic differs from its derivative by the
    // third derivative times h^2 / 6, and the third derivatives of the basis
    // are -6, 18, -18, 6.
    let third = [-6.0, 18.0, -18.0, 6.0];
    let n = 1000u32;
    let h = 1.0 / n as f64;
    for i in 1..n {
        let before = basis(n, i - 1);
        let after = basis(n, i + 1);
        let slope = basis_slope(n, i);
        for k in 0..4 {
            let cube = (n as f64).powi(3);
            let difference = (after[k] - before[k]) as f64 / cube / (2.0 * h);
            let exact = slope[k] as f64 / (n as f64).powi(2);
            assert!((difference - exact - third[k] * h * h / 6.0).abs() < 1e-9);
        }
    }
}
