use spirals::{spiral_outline, ClassicVisual, SpiralSample};

fn outer(step: u32) -> SpiralSample {
    SpiralSample { step, inner: false }
}

fn inner(step: u32) -> SpiralSample {
    SpiralSample { step, inner: true }
}

#[test]
fn outline_runs_out_then_back() {
    assert_eq!(
        spiral_outline(4, 2),
        vec![outer(0), outer(1), outer(2), outer(3), outer(4), inner(2), inner(1), inner(0)]
    );
}

#[test]
fn outline_with_full_inner_edge() {
    let o = spiral_outline(3, 3);
    assert_eq!(o.len(), 8);
    assert_eq!(o[3], outer(3));
    assert_eq!(o[4], inner(3));
    for w in o.windows(2) {
        assert_ne!(w[0], w[1]);
    }
}

#[test]
fn spiral_defaults_for_800_by_600() {
    let s = ClassicVisual::new(800, 600);
    assert_eq!(s.name(), "Classic Spiral");
    assert_eq!(s.turns(), 5);
    assert_eq!(s.count(), 720);
    assert_eq!(s.width(), 500);
    assert_eq!(s.warp(), 0);
    assert_eq!(s.half_diagonal(), 500_000);
    assert!(s.needs_update());
    assert!(s.samples().is_empty());
}

#[test]
fn spiral_outline_counts_after_update() {
    let mut s = ClassicVisual::new(800, 600);
    s.update(0);
    let o = s.samples();
    assert_eq!(o.len(), 721 + 649);
    assert_eq!(o.iter().filter(|x| !x.inner).count(), 721);
    assert_eq!(o.iter().filter(|x| x.inner).count(), 649);
    assert_eq!(o[720], outer(720));
    assert_eq!(o[721], inner(648));
    assert_eq!(o[o.len() - 1], inner(0));
    for w in o.windows(2) {
        assert_ne!(w[0], w[1]);
    }
    assert!(!s.needs_update());
}

#[test]
fn spiral_inner_edge_follows_turns() {
    let mut s = ClassicVisual::new(800, 600);
    s.set_turns(1);
    s.update(0);
    assert_eq!(s.samples().iter().filter(|x| x.inner).count(), 361);
    s.set_turns(15);
    s.set_count(1080);
    s.update(0);
    assert_eq!(s.samples().iter().filter(|x| x.inner).count(), 1080 * 14_500 / 15_000 + 1);
}

#[test]
fn spiral_rotation_accumulates() {
    let mut s = ClassicVisual::new(800, 600);
    s.update(1000);
    assert_eq!(s.rotation(), 200_000);
    s.update(500);
    assert_eq!(s.rotation(), 300_000);
    s.set_speed(-400);
    s.update(1000);
    assert_eq!(s.rotation(), -100_000);
}

#[test]
fn spiral_rotation_saturates() {
    let mut s = ClassicVisual::new(800, 600);
    s.set_speed(10_000);
    s.set_count(90);
    for _ in 0..30_000 {
        s.update(u32::MAX);
    }
    assert_eq!(s.rotation(), spirals::ROTATION_LIMIT);
}

#[test]
fn spiral_setters_clamp_and_flag() {
    let mut s = ClassicVisual::new(800, 600);
    s.update(0);
    s.set_warp(900);
    assert_eq!(s.warp(), 500);
    assert!(s.needs_update());
    s.set_warp(-900);
    assert_eq!(s.warp(), -500);
    s.set_turns(0);
    assert_eq!(s.turns(), 1);
    s.set_count(10);
    assert_eq!(s.count(), 90);
    s.set_speed(-20_000);
    assert_eq!(s.speed(), -10_000);
    s.set_offset(81_000);
    assert_eq!(s.offset(), 81_000);
    s.set_offset(5_000_000);
    assert_eq!(s.offset(), 1_000_000);
}

#[test]
fn spiral_resize_and_setup() {
    let mut s = ClassicVisual::new(800, 600);
    s.resize(1000, 1000);
    assert_eq!(s.half_diagonal(), 707_106);
    assert!(s.needs_update());
    s.setup(800, 600, 100, true, [9, 9, 9], [1, 1, 1]);
    assert_eq!(s.half_diagonal(), 500_000);
    assert_eq!(s.speed(), 100);
    assert_eq!(s.color1(), [9, 9, 9]);
    assert_eq!(s.color2(), [1, 1, 1]);
    assert!(!s.needs_update());
    s.set_colors([0, 0, 0], [2, 2, 2]);
    assert_eq!(s.color2(), [2, 2, 2]);
    s.recalculate_geometry();
    assert_eq!(s.half_diagonal(), 500_000);
}
