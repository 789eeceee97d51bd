use raytracer::integrator::{after_intersection, after_scatter, Step, MAX_DEPTH};
use raytracer::pixels::{pixel_at, pixel_count};
use raytracer::ppm::{header, pixel_line, push_decimal, push_signed};

#[test]
fn header_of_small_image() {
    assert_eq!(header(200, 100), b"P3\n200 100\n255\n".to_vec());
}

#[test]
fn header_of_large_image() {
    assert_eq!(header(1000, 500), b"P3\n1000 500\n255\n".to_vec());
}

#[test]
fn header_of_degenerate_sizes() {
    assert_eq!(header(0, 7), b"P3\n0 7\n255\n".to_vec());
    assert_eq!(
        header(u32::MAX, 1),
        b"P3\n4294967295 1\n255\n".to_vec()
    );
}

#[test]
fn pixel_line_of_channels() {
    assert_eq!(pixel_line(255, 128, 0), b"255 128 0\n".to_vec());
    assert_eq!(pixel_line(9, 10, 99), b"9 10 99\n".to_vec());
}

#[test]
fn pixel_line_of_negative_channels() {
    assert_eq!(pixel_line(-1, -250, 3), b"-1 -250 3\n".to_vec());
    assert_eq!(
        pixel_line(i32::MIN, i32::MAX, 0),
        b"-2147483648 2147483647 0\n".to_vec()
    );
}

#[test]
fn decimal_appends_to_existing_text() {
    let mut out = b"x=".to_vec();
    push_decimal(&mut out, 1203);
    assert_eq!(out, b"x=1203".to_vec());
    let mut out = Vec::new();
    push_decimal(&mut out, 0);
    assert_eq!(out, b"0".to_vec());
    let mut out = Vec::new();
    push_signed(&mut out, -40);
    assert_eq!(out, b"-40".to_vec());
}

#[test]
fn pixels_run_top_row_first_left_to_right() {
    let order: Vec<(u32, u32)> = (0..pixel_count(3, 2)).map(|k| pixel_at(3, 2, k)).collect();
    assert_eq!(order, vec![(0, 1), (1, 1), (2, 1), (0, 0), (1, 0), (2, 0)]);
}

#[test]
fn pixel_count_of_images() {
    assert_eq!(pixel_count(1000, 500), 500_000);
    assert_eq!(pixel_count(0, 500), 0);
    assert_eq!(
        pixel_count(u32::MAX, u32::MAX),
        (u32::MAX as u64) * (u32::MAX as u64)
    );
}

#[test]
fn each_pixel_written_once() {
    let (w, h) = (7u32, 5u32);
    let mut seen = vec![false; (w * h) as usize];
    for k in 0..pixel_count(w, h) {
        let (i, j) = pixel_at(w, h, k);
        assert!(i < w && j < h);
        let slot = ((h - 1 - j) * w + i) as usize;
        assert_eq!(slot as u64, k);
        assert!(!seen[slot]);
        seen[slot] = true;
    }
    assert!(seen.iter().all(|s| *s));
}

#[test]
fn last_pixel_is_bottom_right() {
    assert_eq!(pixel_at(1000, 500, 499_999), (999, 0));
    assert_eq!(pixel_at(1000, 500, 1000), (0, 498));
}

#[test]
fn miss_shows_sky_at_every_depth() {
    assert_eq!(after_intersection(0, false), Step::Sky);
    assert_eq!(after_intersection(MAX_DEPTH, false), Step::Sky);
    assert_eq!(after_intersection(MAX_DEPTH + 1, false), Step::Sky);
    assert_eq!(after_intersection(u32::MAX, false), Step::Sky);
}

#[test]
fn hit_within_budget_asks_material() {
    assert_eq!(after_intersection(0, true), Step::Scatter { depth: 0 });
    assert_eq!(after_intersection(50, true), Step::Scatter { depth: 50 });
}

#[test]
fn hit_beyond_budget_ends_dark() {
    assert_eq!(MAX_DEPTH, 50);
    assert_eq!(after_intersection(51, true), Step::Dark);
    assert_eq!(after_intersection(u32::MAX, true), Step::Dark);
}

#[test]
fn scatter_goes_one_level_deeper() {
    assert_eq!(after_scatter(0, true), Step::Trace { depth: 1 });
    assert_eq!(after_scatter(50, true), Step::Trace { depth: 51 });
}

#[test]
fn absorbed_ray_ends_dark() {
    assert_eq!(after_scatter(0, false), Step::Dark);
    assert_eq!(after_scatter(50, false), Step::Dark);
}

#[test]
fn always_scattering_path_ends_after_budget() {
    let mut depth: u32 = 0;
    let mut bounces: u32 = 0;
    loop {
        match after_intersection(depth, true) {
            Step::Scatter { depth: d } => match after_scatter(d, true) {
                Step::Trace { depth: next } => {
                    bounces += 1;
                    depth = next;
                }
                other => panic!("unexpected {:?}", other),
            },
            Step::Dark => break,
            other => panic!("unexpected {:?}", other),
        }
    }
    assert_eq!(bounces, MAX_DEPTH + 1);
    assert_eq!(depth, MAX_DEPTH + 1);
}
