use kantorovich::layout::{first_flagged, row_major_from_fn};

#[test]
fn row_major_layout_places_entries() {
    let m = row_major_from_fn(2, 3, |i, j| 10 * i + j);
    assert_eq!(m, vec![0, 1, 2, 10, 11, 12]);
}

#[test]
fn row_major_layout_of_squared_distances() {
    let x = [0.0f64, 0.0, 1.0, 1.0];
    let y = [0.0f64, 0.0, 1.0, 1.0];
    let dim = 2;
    let m = row_major_from_fn(2, 2, |i, j| {
        let mut s = 0.0;
        for k in 0..dim {
            let d = x[i * dim + k] - y[j * dim + k];
            s += d * d;
        }
        s
    });
    assert_eq!(m, vec![0.0, 2.0, 2.0, 0.0]);
}

#[test]
fn row_major_layout_empty() {
    let m: Vec<u8> = row_major_from_fn(0, 4, |_, _| 1u8);
    assert!(m.is_empty());
    let m: Vec<u8> = row_major_from_fn(4, 0, |_, _| 1u8);
    assert!(m.is_empty());
}

#[test]
fn first_flagged_reports_first_offender() {
    let v = [0.5f64, 0.25, -1.0, f64::NAN, -2.0];
    let r = first_flagged(&v, |x: &f64| {
        if x.is_nan() {
            Some("nan")
        } else if *x < 0.0 {
            Some("negative")
        } else {
            None
        }
    });
    assert_eq!(r, Some((2, "negative")));
}

#[test]
fn first_flagged_none_when_clean() {
    let v = [1u32, 2, 3];
    let r = first_flagged(&v, |x: &u32| if *x > 10 { Some(*x) } else { None });
    assert_eq!(r, None);
}
