use spirals::{band_polygon, ring_bands, Band, ConcentricVisual, Vertex, RAD_MIN};

fn v(sample: u32, radius: i64) -> Vertex {
    Vertex { sample, radius }
}

#[test]
fn band_polygon_walks_outer_forward_then_inner_backward() {
    let p = band_polygon(4, Band { inner: 10, outer: 20 });
    assert_eq!(
        p,
        vec![
            v(0, 20),
            v(1, 20),
            v(2, 20),
            v(3, 20),
            v(0, 20),
            v(3, 10),
            v(2, 10),
            v(1, 10),
            v(0, 10),
            v(3, 10),
        ]
    );
}

#[test]
fn band_polygon_of_no_directions_is_empty() {
    assert!(band_polygon(0, Band { inner: 10, outer: 20 }).is_empty());
}

#[test]
fn band_polygon_edges_close() {
    let n = 720usize;
    let p = band_polygon(n as u32, Band { inner: 300, outer: 900 });
    assert_eq!(p.len(), 2 * n + 2);
    assert_eq!(p[0], p[n]);
    assert_eq!(p[n + 1], p[2 * n + 1]);
    assert!(p[..=n].iter().all(|x| x.radius == 900));
    assert!(p[n + 1..].iter().all(|x| x.radius == 300));
}

#[test]
fn ring_past_the_outer_edge_splits_in_two() {
    let bands = ring_bands(950, 100, 0, 1000);
    assert_eq!(
        bands,
        vec![Band { inner: 0, outer: 50 }, Band { inner: 850, outer: 1000 }]
    );
    let gap = bands[1].inner - bands[0].outer;
    assert_eq!(gap, 1000 - 2 * 100);
    for b in &bands {
        let p = band_polygon(720, *b);
        assert_eq!(p[0], p[720]);
        assert_eq!(p[721], p[1441]);
    }
}

#[test]
fn ring_below_the_inner_edge_splits_in_two() {
    let bands = ring_bands(40, 100, 0, 1000);
    assert_eq!(
        bands,
        vec![Band { inner: 0, outer: 140 }, Band { inner: 940, outer: 1000 }]
    );
}

#[test]
fn ring_inside_the_range_is_one_band() {
    let bands = ring_bands(500, 100, 0, 1000);
    assert_eq!(bands, vec![Band { inner: 400, outer: 600 }]);
    let p = band_polygon(720, bands[0]);
    assert_eq!(p.len(), 721 + 721);
    assert_eq!(p.iter().filter(|x| x.radius == 600).count(), 721);
    assert_eq!(p.iter().filter(|x| x.radius == 400).count(), 721);
}

#[test]
fn ring_far_outside_the_range_wraps_by_whole_periods() {
    assert_eq!(ring_bands(5_500, 100, 0, 1000), vec![Band { inner: 400, outer: 600 }]);
    assert_eq!(ring_bands(-4_500, 100, 0, 1000), vec![Band { inner: 400, outer: 600 }]);
}

#[test]
fn ring_engine_defaults() {
    let e = ConcentricVisual::new(1000, 1000);
    assert_eq!(e.name(), "Concentric Shapes");
    assert_eq!(e.rad_min(), RAD_MIN);
    assert_eq!(e.rad_max(), 707_106);
    assert_eq!(e.count(), 720);
    assert_eq!(e.turns(), 3);
    assert_eq!(e.width(), 500);
    assert_eq!(e.speed(), 200);
    assert_eq!(e.scale(), 0);
    assert_eq!(e.color1(), [0, 0, 0]);
    assert_eq!(e.color2(), [255, 255, 255]);
    assert!(!e.needs_update());
}

#[test]
fn ring_engine_base_radii() {
    let e = ConcentricVisual::new(1000, 1000);
    let bases: Vec<i64> = (0..e.ring_count()).map(|i| e.base_radius(i)).collect();
    assert_eq!(bases, vec![141_501, 282_902, 424_303, 565_704, 707_105]);
}

#[test]
fn ring_engine_keeps_five_rings_while_drifting() {
    let mut e = ConcentricVisual::new(1000, 1000);
    let before: Vec<i64> = (0..e.ring_count()).map(|i| e.base_radius(i)).collect();
    for seconds in 0..20u32 {
        e.update(seconds * 1000);
        assert_eq!(e.ring_count(), 5);
    }
    let after: Vec<i64> = (0..e.ring_count()).map(|i| e.base_radius(i)).collect();
    assert_eq!(before, after);
    assert_eq!(e.scale(), 200 * 1000 * (0..20).sum::<i64>());
}

#[test]
fn ring_engine_frame_splits_the_outermost_ring() {
    let e = ConcentricVisual::new(1000, 1000);
    let bands = e.frame_bands();
    assert_eq!(bands.len(), 6);
    assert_eq!(bands[0], Band { inner: 106_151, outer: 176_851 });
    assert_eq!(bands[4], Band { inner: 100, outer: 35_449 });
    assert_eq!(bands[5], Band { inner: 671_755, outer: 707_106 });
    assert_eq!(bands[5].inner - bands[4].outer, (707_106 - 100) - 2 * 35_350);
    let polygons = e.frame_polygons();
    assert_eq!(polygons.len(), 6);
    for (p, b) in polygons.iter().zip(bands.iter()) {
        assert_eq!(*p, band_polygon(720, *b));
    }
}

#[test]
fn ring_engine_drift_moves_bands_outwards() {
    let mut e = ConcentricVisual::new(1000, 1000);
    e.update(100);
    assert_eq!(e.scale(), 20_000);
    assert_eq!(e.frame_bands()[0], Band { inner: 126_151, outer: 196_851 });
}

#[test]
fn ring_engine_negative_speed_drifts_inwards() {
    let mut e = ConcentricVisual::new(1000, 1000);
    e.set_speed(-1_000);
    e.update(1_000);
    assert_eq!(e.scale(), -1_000_000);
    assert_eq!(e.ring_count(), 5);
}

#[test]
fn ring_engine_structural_edit_waits_for_update() {
    let mut e = ConcentricVisual::new(1000, 1000);
    e.set_turns(8);
    assert!(e.needs_update());
    assert_eq!(e.ring_count(), 5);
    e.update(0);
    assert!(!e.needs_update());
    assert_eq!(e.ring_count(), 10);
}

#[test]
fn ring_engine_recompute_is_idempotent() {
    let mut e = ConcentricVisual::new(640, 480);
    e.recalculate_geometry();
    let once: Vec<i64> = (0..e.ring_count()).map(|i| e.base_radius(i)).collect();
    let rad_max = e.rad_max();
    e.recalculate_geometry();
    let twice: Vec<i64> = (0..e.ring_count()).map(|i| e.base_radius(i)).collect();
    assert_eq!(once, twice);
    assert_eq!(rad_max, e.rad_max());
}

#[test]
fn ring_engine_resize_moves_the_domain() {
    let mut e = ConcentricVisual::new(1000, 1000);
    e.resize(800, 600);
    assert_eq!(e.rad_max(), 500_000);
    assert!(e.needs_update());
    e.update(0);
    assert_eq!(e.base_radius(0), 100 + (500_000 - 100) / 5);
}

#[test]
fn ring_engine_setters_clamp() {
    let mut e = ConcentricVisual::new(1000, 1000);
    e.set_turns(0);
    assert_eq!(e.turns(), 1);
    e.set_turns(99);
    assert_eq!(e.turns(), 50);
    e.set_count(1);
    assert_eq!(e.count(), 3);
    e.set_count(5000);
    assert_eq!(e.count(), 1080);
    e.set_width(0);
    assert_eq!(e.width(), 10);
    e.set_width(2000);
    assert_eq!(e.width(), 1000);
    e.set_speed(i64::MAX);
    assert_eq!(e.speed(), 1000);
}

#[test]
fn ring_engine_setup_seeds_values() {
    let mut e = ConcentricVisual::new(1000, 1000);
    e.setup(800, 600, 300, true, [1, 2, 3], [4, 5, 6]);
    assert_eq!(e.speed(), 300);
    assert_eq!(e.color1(), [1, 2, 3]);
    assert_eq!(e.color2(), [4, 5, 6]);
    assert_eq!(e.rad_max(), 500_000);
    assert!(!e.needs_update());
    assert_eq!(e.ring_count(), 5);
    e.set_colors([7, 8, 9], [10, 11, 12]);
    assert_eq!(e.color2(), [10, 11, 12]);
}

#[test]
fn ring_engine_phase_saturates() {
    let mut e = ConcentricVisual::new(1000, 1000);
    e.set_speed(1000);
    for _ in 0..200_000 {
        e.update(u32::MAX);
    }
    assert_eq!(e.scale(), spirals::SCALE_LIMIT);
    assert_eq!(e.frame_bands().len() >= 5, true);
}
