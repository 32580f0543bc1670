use vstd::prelude::*;
use crate::fixed::{half_diagonal, half_diagonal_spec, floor_sqrt_unique, MAX_HALF_DIAGONAL};
use crate::band::{Band, Vertex, band_spec, band_polygon, ring_bands, ring_bands_spec, seam_split_covers_range, RADIUS_LIMIT};

verus! {

/// Inner edge of the radius domain, in micro-units: small but never zero, so
/// that no band degenerates at the origin.
pub const RAD_MIN: i64 = 100;

/// Ring slots beyond `turns`: the innermost and outermost slots sit partly
/// outside the visible domain, so rings fade in and out at its edges.
pub const RING_MARGIN: u32 = 2;

pub const MIN_COUNT: u32 = 3;
pub const MAX_COUNT: u32 = 1080;
pub const MIN_TURNS: u32 = 1;
pub const MAX_TURNS: u32 = 50;
/// Band width, in thousandths of the ring spacing.
pub const MIN_WIDTH: u32 = 10;
pub const MAX_WIDTH: u32 = 1000;
/// Radial drift, in micro-units per millisecond (thousandths of a unit per
/// second).
pub const MAX_SPEED: i64 = 1000;
/// The drift phase saturates here; at the largest speed that takes millennia.
pub const SCALE_LIMIT: i64 = 0x800_0000_0000_0000;

/// One ring slot: its position in the radius domain before drift.
#[derive(Clone, Copy, Debug, PartialEq, Eq, Structural)]
pub struct Ring {
    pub base_radius: i64,
}

/// The abstract state of a ring engine.
pub struct RingState {
    pub w: nat,
    pub h: nat,
    pub count: nat,
    pub turns: nat,
    pub width: int,
    pub speed: int,
    pub scale: int,
    pub rad_min: int,
    pub rad_max: int,
    pub bases: Seq<int>,
    pub color1: [u8; 3],
    pub color2: [u8; 3],
    pub needs_update: bool,
}

/// Distance between neighbouring ring slots.
pub open spec fn ring_spacing(rad_min: int, rad_max: int, turns: nat) -> int {
    (rad_max - rad_min) / (turns + RING_MARGIN)
}

/// The base radius of every ring slot: `rad_min + spacing * i` for `i` in
/// `1..=turns + 2`.
pub open spec fn base_radii(rad_min: int, rad_max: int, turns: nat) -> Seq<int> {
    Seq::new((turns + RING_MARGIN) as nat, |i: int| rad_min + ring_spacing(rad_min, rad_max, turns) * (i + 1))
}

/// Half the radial width of every band: `width` thousandths of the spacing,
/// halved.
pub open spec fn ring_half_width(width: int, spacing: int) -> int {
    width * spacing / 2000
}

/// The drift phase after `delta_ms` milliseconds at `speed`, held within
/// `[-SCALE_LIMIT, SCALE_LIMIT]`.
pub open spec fn advanced_scale(scale: int, speed: int, delta_ms: int) -> int {
    let s = scale + speed * delta_ms;
    if s > SCALE_LIMIT {
        SCALE_LIMIT as int
    } else if s < -SCALE_LIMIT {
        -SCALE_LIMIT
    } else {
        s
    }
}

/// The bands of all rings with the given base radii, ring by ring, each ring
/// drifted by `scale`.
pub open spec fn bands_of(bases: Seq<int>, scale: int, hw: int, rad_min: int, rad_max: int) -> Seq<Band>
    decreases bases.len(),
{
    if bases.len() == 0 {
        Seq::empty()
    } else {
        bands_of(bases.drop_last(), scale, hw, rad_min, rad_max) + ring_bands_spec(
            bases.last() + scale,
            hw,
            rad_min,
            rad_max,
        )
    }
}

pub open spec fn clamp(v: int, lo: int, hi: int) -> int {
    if v < lo {
        lo
    } else if v > hi {
        hi
    } else {
        v
    }
}

impl RingState {
    /// The state's derived fields agree with its tunables, and each tunable is
    /// within its range.
    pub open spec fn wf(self) -> bool {
        &&& self.tunables_wf()
        &&& self.bases.len() <= MAX_TURNS + RING_MARGIN
        &&& forall|i: int| 0 <= i < self.bases.len() ==> 0 <= #[trigger] self.bases[i] <= MAX_HALF_DIAGONAL
        &&& !self.needs_update ==> self.bases == base_radii(self.rad_min, self.rad_max, self.turns)
    }

    /// Each tunable is within its range and the radius domain agrees with
    /// the viewport.
    pub open spec fn tunables_wf(self) -> bool {
        &&& self.w > 0 && self.h > 0
        &&& self.w <= u32::MAX && self.h <= u32::MAX
        &&& self.rad_min == RAD_MIN
        &&& half_diagonal_spec(self.w as int, self.h as int, self.rad_max)
        &&& self.rad_min < self.rad_max < MAX_HALF_DIAGONAL
        &&& MIN_COUNT <= self.count <= MAX_COUNT
        &&& MIN_TURNS <= self.turns <= MAX_TURNS
        &&& MIN_WIDTH <= self.width <= MAX_WIDTH
        &&& -MAX_SPEED <= self.speed <= MAX_SPEED
        &&& -SCALE_LIMIT <= self.scale <= SCALE_LIMIT
    }

    pub open spec fn spacing(self) -> int {
        ring_spacing(self.rad_min, self.rad_max, self.turns)
    }

    pub open spec fn half_width(self) -> int {
        ring_half_width(self.width, self.spacing())
    }

    /// Every band drawn this frame.
    pub open spec fn bands(self) -> Seq<Band> {
        bands_of(self.bases, self.scale, self.half_width(), self.rad_min, self.rad_max)
    }

    pub open spec fn with_bases(self, bases: Seq<int>) -> RingState {
        RingState { bases, ..self }
    }

    /// The state one frame of `delta_ms` milliseconds later: the phase has
    /// drifted and the ring slots are current.
    pub open spec fn advanced(self, delta_ms: int) -> RingState {
        RingState {
            scale: advanced_scale(self.scale, self.speed, delta_ms),
            needs_update: false,
            ..self.recomputed()
        }
    }

    /// The same state with its ring slots rebuilt from the current tunables.
    pub open spec fn recomputed(self) -> RingState {
        RingState { bases: base_radii(self.rad_min, self.rad_max, self.turns), ..self }
    }
}

/// A set of concentric ring bands that drift radially and wrap around the
/// radius domain.
pub struct ConcentricVisual {
    count: u32,
    rad_max: i64,
    rad_min: i64,
    width: u32,
    turns: u32,
    speed: i64,
    scale: i64,
    rings: Vec<Ring>,
    w: u32,
    h: u32,
    color1: [u8; 3],
    color2: [u8; 3],
    needs_update: bool,
}

impl View for ConcentricVisual {
    type V = RingState;

    closed spec fn view(&self) -> RingState {
        RingState {
            w: self.w as nat,
            h: self.h as nat,
            count: self.count as nat,
            turns: self.turns as nat,
            width: self.width as int,
            speed: self.speed as int,
            scale: self.scale as int,
            rad_min: self.rad_min as int,
            rad_max: self.rad_max as int,
            bases: self.rings@.map_values(|r: Ring| r.base_radius as int),
            color1: self.color1,
            color2: self.color2,
            needs_update: self.needs_update,
        }
    }
}

/// The state after one frame for each of `deltas`, in order.
pub open spec fn after_updates(s: RingState, deltas: Seq<int>) -> RingState
    decreases deltas.len(),
{
    if deltas.len() == 0 {
        s
    } else {
        after_updates(s, deltas.drop_last()).advanced(deltas.last())
    }
}

/// Rebuilding the ring slots twice with unchanged inputs gives exactly what
/// rebuilding once gives: the same domain and the same base radii.
pub proof fn recompute_is_idempotent(s: RingState)
    requires
        s.wf(),
    ensures
        s.recomputed().recomputed() == s.recomputed(),
        s.recomputed().rad_max == s.rad_max,
{
}

/// However the phase drifts, the rings stay the same: after any run of
/// frames the engine holds `turns + 2` rings at the base radii of its
/// current tunables.
pub proof fn drift_keeps_rings(s: RingState, deltas: Seq<int>)
    requires
        s.wf(),
        deltas.len() > 0,
    ensures
        after_updates(s, deltas).bases == s.recomputed().bases,
        after_updates(s, deltas).bases.len() == s.turns + RING_MARGIN,
        after_updates(s, deltas).turns == s.turns,
        !after_updates(s, deltas).needs_update,
        after_updates(s, deltas).rad_min == s.rad_min,
        after_updates(s, deltas).rad_max == s.rad_max,
    decreases deltas.len(),
{
    if deltas.len() > 1 {
        drift_keeps_rings(s, deltas.drop_last());
    } else {
        assert(deltas.drop_last().len() == 0);
        assert(after_updates(s, deltas.drop_last()) == s);
    }
}

/// Every band of every ring lies in the radius domain, inner radius first.
proof fn bands_lie_in_domain(bases: Seq<int>, scale: int, hw: int, rad_min: int, rad_max: int)
    requires
        0 <= rad_min < rad_max <= i64::MAX,
        0 <= 2 * hw < rad_max - rad_min,
    ensures
        forall|j: int| 0 <= j < bands_of(bases, scale, hw, rad_min, rad_max).len() ==> {
            let b = #[trigger] bands_of(bases, scale, hw, rad_min, rad_max)[j];
            rad_min <= b.inner <= b.outer <= rad_max
        },
    decreases bases.len(),
{
    if bases.len() > 0 {
        bands_lie_in_domain(bases.drop_last(), scale, hw, rad_min, rad_max);
        seam_split_covers_range(bases.last() + scale, hw, rad_min, rad_max);
        let front = bands_of(bases.drop_last(), scale, hw, rad_min, rad_max);
        let back = ring_bands_spec(bases.last() + scale, hw, rad_min, rad_max);
        assert forall|j: int| 0 <= j < bands_of(bases, scale, hw, rad_min, rad_max).len() implies {
            let b = #[trigger] bands_of(bases, scale, hw, rad_min, rad_max)[j];
            rad_min <= b.inner <= b.outer <= rad_max
        } by {
            if j >= front.len() {
                assert(bands_of(bases, scale, hw, rad_min, rad_max)[j] == back[j - front.len()]);
            } else {
                assert(bands_of(bases, scale, hw, rad_min, rad_max)[j] == front[j]);
            }
        }
    }
}

/// Whatever the phase, every band the engine draws lies between `rad_min`
/// and `rad_max`, its inner radius no greater than its outer one.
pub proof fn frame_bands_lie_in_domain(s: RingState)
    requires
        s.wf(),
    ensures
        forall|j: int| 0 <= j < s.bands().len() ==> {
            let b = #[trigger] s.bands()[j];
            s.rad_min <= b.inner <= b.outer <= s.rad_max
        },
{
    let range = s.rad_max - s.rad_min;
    let slots = s.turns + RING_MARGIN;
    spacing_fits(range, slots as int, s.spacing(), 1);
    assert(0 <= s.width * s.spacing() <= 1000 * s.spacing()) by (nonlinear_arith)
        requires
            0 <= s.width <= 1000,
            0 <= s.spacing(),
    ;
    vstd::arithmetic::div_mod::lemma_fundamental_div_mod(range, slots as int);
    vstd::arithmetic::div_mod::lemma_mod_bound(range, slots as int);
    assert(s.spacing() < range) by (nonlinear_arith)
        requires
            range == slots * s.spacing() + range % (slots as int),
            0 <= range % (slots as int),
            slots >= 3,
            range > 0,
            s.spacing() >= 0,
    ;
    bands_lie_in_domain(s.bases, s.scale, s.half_width(), s.rad_min, s.rad_max);
}

/// `range / slots` slots fit in `range`.
proof fn spacing_fits(range: int, slots: int, spacing: int, k: int)
    requires
        range >= 0,
        slots > 0,
        spacing == range / slots,
        0 <= k <= slots,
    ensures
        0 <= spacing * k <= range,
{
    vstd::arithmetic::div_mod::lemma_fundamental_div_mod(range, slots);
    vstd::arithmetic::div_mod::lemma_mod_bound(range, slots);
    vstd::arithmetic::div_mod::lemma_div_pos_is_pos(range, slots);
    assert(0 <= spacing * k <= spacing * slots) by (nonlinear_arith)
        requires
            0 <= spacing,
            0 <= k <= slots,
    ;
}

impl ConcentricVisual {
    /// A ring engine for a `w` by `h` viewport with the default tunables:
    /// 720 directions, 3 rings, bands half the spacing wide, drifting at
    /// 0.2 units per second, drawn white on black.
    pub fn new(w: u32, h: u32) -> (r: Self)
        requires
            w > 0,
            h > 0,
        ensures
            r@.wf(),
            r@.w == w && r@.h == h,
            r@.count == 720 && r@.turns == 3 && r@.width == 500 && r@.speed == 200,
            r@.scale == 0,
            r@.color1 == [0u8, 0, 0] && r@.color2 == [255u8, 255, 255],
            !r@.needs_update,
            r@.bases == base_radii(r@.rad_min, r@.rad_max, r@.turns),
    {
        let rad_max = half_diagonal(w, h);
        let mut r = ConcentricVisual {
            count: 720,
            rad_max,
            rad_min: RAD_MIN,
            width: 500,
            turns: 3,
            speed: 200,
            scale: 0,
            rings: Vec::new(),
            w,
            h,
            color1: [0, 0, 0],
            color2: [255, 255, 255],
            needs_update: true,
        };
        r.recalculate_geometry();
        r.needs_update = false;
        r
    }

    /// Seeds the viewport, speed and colours, and rebuilds the geometry at
    /// once.
    pub fn setup(&mut self, w: u32, h: u32, speed: i64, _needs_update: bool, color1: [u8; 3], color2: [u8; 3])
        requires
            old(self)@.wf(),
            w > 0,
            h > 0,
        ensures
            final(self)@.wf(),
            final(self)@.w == w && final(self)@.h == h,
            final(self)@.speed == clamp(speed as int, -MAX_SPEED, MAX_SPEED as int),
            final(self)@.color1 == color1 && final(self)@.color2 == color2,
            !final(self)@.needs_update,
            final(self)@.count == old(self)@.count && final(self)@.turns == old(self)@.turns,
            final(self)@.width == old(self)@.width && final(self)@.scale == old(self)@.scale,
    {
        self.resize(w, h);
        self.set_speed(speed);
        self.color1 = color1;
        self.color2 = color2;
        self.recalculate_geometry();
        self.needs_update = false;
    }

    /// Takes a new viewport size: the radius domain follows it at once, and
    /// the ring slots are rebuilt on the next update.
    pub fn resize(&mut self, w: u32, h: u32)
        requires
            old(self)@.wf(),
            w > 0,
            h > 0,
        ensures
            final(self)@.wf(),
            final(self)@.w == w && final(self)@.h == h,
            final(self)@.needs_update,
            final(self)@.rad_min == old(self)@.rad_min,
            half_diagonal_spec(w as int, h as int, final(self)@.rad_max),
            final(self)@ == (RingState { w: w as nat, h: h as nat, rad_max: final(self)@.rad_max, needs_update: true, ..old(self)@ }),
    {
        self.w = w;
        self.h = h;
        self.rad_max = half_diagonal(w, h);
        self.needs_update = true;
    }

    /// Sets the number of directions each ring is sampled in, held within
    /// `[MIN_COUNT, MAX_COUNT]`.
    pub fn set_count(&mut self, count: u32)
        requires
            old(self)@.wf(),
        ensures
            final(self)@.wf(),
            final(self)@ == (RingState { count: clamp(count as int, MIN_COUNT as int, MAX_COUNT as int) as nat, needs_update: true, ..old(self)@ }),
    {
        self.count = if count < MIN_COUNT {
            MIN_COUNT
        } else if count > MAX_COUNT {
            MAX_COUNT
        } else {
            count
        };
        self.needs_update = true;
    }

    /// Sets the number of rings, held within `[MIN_TURNS, MAX_TURNS]`.
    pub fn set_turns(&mut self, turns: u32)
        requires
            old(self)@.wf(),
        ensures
            final(self)@.wf(),
            final(self)@ == (RingState { turns: clamp(turns as int, MIN_TURNS as int, MAX_TURNS as int) as nat, needs_update: true, ..old(self)@ }),
    {
        self.turns = if turns < MIN_TURNS {
            MIN_TURNS
        } else if turns > MAX_TURNS {
            MAX_TURNS
        } else {
            turns
        };
        self.needs_update = true;
    }

    /// Sets the band width in thousandths of the spacing, held within
    /// `[MIN_WIDTH, MAX_WIDTH]`.
    pub fn set_width(&mut self, width: u32)
        requires
            old(self)@.wf(),
        ensures
            final(self)@.wf(),
            final(self)@ == (RingState { width: clamp(width as int, MIN_WIDTH as int, MAX_WIDTH as int), needs_update: true, ..old(self)@ }),
    {
        self.width = if width < MIN_WIDTH {
            MIN_WIDTH
        } else if width > MAX_WIDTH {
            MAX_WIDTH
        } else {
            width
        };
        self.needs_update = true;
    }

    /// Sets the drift speed, held within `[-MAX_SPEED, MAX_SPEED]`; it takes
    /// effect on the next update without a rebuild.
    pub fn set_speed(&mut self, speed: i64)
        requires
            old(self)@.wf(),
        ensures
            final(self)@.wf(),
            final(self)@ == (RingState { speed: clamp(speed as int, -MAX_SPEED, MAX_SPEED as int), ..old(self)@ }),
    {
        self.speed = if speed < -MAX_SPEED {
            -MAX_SPEED
        } else if speed > MAX_SPEED {
            MAX_SPEED
        } else {
            speed
        };
    }

    /// Sets the background and band colours.
    pub fn set_colors(&mut self, color1: [u8; 3], color2: [u8; 3])
        requires
            old(self)@.wf(),
        ensures
            final(self)@.wf(),
            final(self)@ == (RingState { color1, color2, ..old(self)@ }),
    {
        self.color1 = color1;
        self.color2 = color2;
    }

    pub fn name(&self) -> (r: &'static str) {
        "Concentric Shapes"
    }

    pub fn count(&self) -> (r: u32)
        ensures
            r == self@.count,
    {
        self.count
    }

    pub fn turns(&self) -> (r: u32)
        ensures
            r == self@.turns,
    {
        self.turns
    }

    pub fn width(&self) -> (r: u32)
        ensures
            r == self@.width,
    {
        self.width
    }

    pub fn speed(&self) -> (r: i64)
        ensures
            r == self@.speed,
    {
        self.speed
    }

    pub fn scale(&self) -> (r: i64)
        ensures
            r == self@.scale,
    {
        self.scale
    }

    pub fn rad_min(&self) -> (r: i64)
        ensures
            r == self@.rad_min,
    {
        self.rad_min
    }

    pub fn rad_max(&self) -> (r: i64)
        ensures
            r == self@.rad_max,
    {
        self.rad_max
    }

    pub fn ring_count(&self) -> (r: usize)
        ensures
            r == self@.bases.len(),
    {
        self.rings.len()
    }

    /// The base radius of ring `i`, innermost first.
    pub fn base_radius(&self, i: usize) -> (r: i64)
        requires
            i < self@.bases.len(),
        ensures
            r == self@.bases[i as int],
    {
        self.rings[i].base_radius
    }

    pub fn color1(&self) -> (r: [u8; 3])
        ensures
            r == self@.color1,
    {
        self.color1
    }

    pub fn color2(&self) -> (r: [u8; 3])
        ensures
            r == self@.color2,
    {
        self.color2
    }

    pub fn needs_update(&self) -> (r: bool)
        ensures
            r == self@.needs_update,
    {
        self.needs_update
    }

    /// The distance between neighbouring ring slots.
    fn spacing(&self) -> (r: i64)
        requires
            self@.tunables_wf(),
        ensures
            r == self@.spacing(),
            0 <= r * (self@.turns + RING_MARGIN) <= self@.rad_max - self@.rad_min,
            0 <= r <= MAX_HALF_DIAGONAL,
    {
        let range: i64 = self.rad_max - self.rad_min;
        let slots: u64 = self.turns as u64 + RING_MARGIN as u64;
        let r = (range as u64 / slots) as i64;
        proof {
            spacing_fits(range as int, slots as int, r as int, slots as int);
            spacing_fits(range as int, slots as int, r as int, 1);
        }
        r
    }

    /// Rebuilds the ring slots from the viewport and `turns`: the radius
    /// domain's upper edge is set from the viewport, then one slot is placed
    /// every `spacing` above `rad_min`.
    pub fn recalculate_geometry(&mut self)
        requires
            old(self)@.wf(),
        ensures
            final(self)@ == old(self)@.recomputed(),
            final(self)@.wf(),
    {
        self.rings = Vec::new();
        let rad_max = half_diagonal(self.w, self.h);
        proof {
            floor_sqrt_unique(rad_max as int, self.rad_max as int, 250_000 * (self.w * self.w + self.h * self.h));
        }
        self.rad_max = rad_max;
        let spacing = self.spacing();
        let ghost range = self.rad_max - self.rad_min;
        let ghost slots = self.turns + RING_MARGIN;
        let ghost pre = self@;
        let mut i: u32 = 1;
        while i < self.turns + 3
            invariant
                pre.tunables_wf(),
                pre == old(self)@.recomputed().with_bases(pre.bases),
                self@ == pre.with_bases(self@.bases),
                1 <= i <= self.turns + 3,
                spacing == self@.spacing(),
                range == self.rad_max - self.rad_min,
                slots == self.turns + RING_MARGIN,
                0 <= spacing * slots <= range,
                self.rings@.map_values(|r: Ring| r.base_radius as int) == Seq::new(
                    (i - 1) as nat,
                    |k: int| self.rad_min + spacing * (k + 1),
                ),
            decreases self.turns + 3 - i,
        {
            proof {
                spacing_fits(range, slots, spacing as int, i as int);
            }
            let base_radius = self.rad_min + spacing * i as i64;
            let ghost before = self.rings@;
            self.rings.push(Ring { base_radius });
            proof {
                assert(self.rings@ == before.push(Ring { base_radius }));
                assert(self.rings@.map_values(|r: Ring| r.base_radius as int) =~= before.map_values(
                    |r: Ring| r.base_radius as int,
                ).push(base_radius as int));
                assert(self.rings@.map_values(|r: Ring| r.base_radius as int) =~= Seq::new(
                    i as nat,
                    |k: int| self.rad_min + spacing * (k + 1),
                ));
            }
            i = i + 1;
        }
        assert(self@.bases =~= base_radii(self@.rad_min, self@.rad_max, self@.turns));
        proof {
            assert forall|k: int| 0 <= k < self@.bases.len() implies 0 <= #[trigger] self@.bases[k]
                <= MAX_HALF_DIAGONAL by {
                spacing_fits(range, slots, spacing as int, k + 1);
            }
        }
    }

    /// Advances the drift phase by `speed * delta_ms`, then rebuilds the ring
    /// slots if a structural tunable or the viewport changed. Rings are never
    /// added or removed by the drift.
    pub fn update(&mut self, delta_ms: u32)
        requires
            old(self)@.wf(),
        ensures
            final(self)@ == old(self)@.advanced(delta_ms as int),
            final(self)@.wf(),
            final(self)@.bases.len() == final(self)@.turns + RING_MARGIN,
    {
        assert(-1000 * 0x1_0000_0000 <= self.speed * delta_ms <= 1000 * 0x1_0000_0000) by (nonlinear_arith)
            requires
                -1000 <= self.speed <= 1000,
                0 <= delta_ms <= 0xffff_ffff,
        ;
        let step: i64 = self.speed * delta_ms as i64;
        let s: i64 = self.scale + step;
        self.scale = if s > SCALE_LIMIT {
            SCALE_LIMIT
        } else if s < -SCALE_LIMIT {
            -SCALE_LIMIT
        } else {
            s
        };
        if self.needs_update {
            self.recalculate_geometry();
            self.needs_update = false;
        }
        proof {
            assert(self@.bases =~= base_radii(self@.rad_min, self@.rad_max, self@.turns));
        }
    }

    /// Half the radial width of every band.
    fn half_width(&self) -> (r: i64)
        requires
            self@.tunables_wf(),
        ensures
            r == self@.half_width(),
            0 <= 2 * r <= self@.spacing(),
    {
        let spacing = self.spacing();
        assert(0 <= self.width as int * spacing <= 1000 * spacing <= 1000 * MAX_HALF_DIAGONAL) by (nonlinear_arith)
            requires
                0 <= self.width <= 1000,
                0 <= spacing <= MAX_HALF_DIAGONAL,
        ;
        let r = (self.width as u64 * spacing as u64 / 2000) as i64;
        r
    }

    /// The bands to draw this frame, ring by ring: one per ring, or two for
    /// a ring that straddles the seam of the radius domain.
    pub fn frame_bands(&self) -> (r: Vec<Band>)
        requires
            self@.wf(),
        ensures
            r@ == self@.bands(),
    {
        let hw = self.half_width();
        let mut r: Vec<Band> = Vec::new();
        let mut i: usize = 0;
        while i < self.rings.len()
            invariant
                self@.wf(),
                hw == self@.half_width(),
                0 <= hw <= MAX_HALF_DIAGONAL,
                i <= self.rings.len(),
                r@ == bands_of(self@.bases.take(i as int), self@.scale, hw as int, self@.rad_min, self@.rad_max),
            decreases self.rings.len() - i,
        {
            proof {
                assert(self@.bases[i as int] == self.rings@[i as int].base_radius);
            }
            let center = self.rings[i].base_radius + self.scale;
            let b = ring_bands(center, hw, self.rad_min, self.rad_max);
            r.append(&mut b.clone());
            proof {
                let t = self@.bases.take(i + 1 as int);
                assert(t.drop_last() =~= self@.bases.take(i as int));
                assert(t.last() == self@.bases[i as int]);
            }
            i = i + 1;
        }
        assert(self@.bases.take(i as int) =~= self@.bases);
        r
    }

    /// The closed polygon of every band drawn this frame, each sampled in
    /// `count` directions.
    pub fn frame_polygons(&self) -> (r: Vec<Vec<Vertex>>)
        requires
            self@.wf(),
        ensures
            r.len() == self@.bands().len(),
            forall|j: int| 0 <= j < r.len() ==> r[j]@ == band_spec(self@.count, #[trigger] self@.bands()[j]),
    {
        let bands = self.frame_bands();
        let mut r: Vec<Vec<Vertex>> = Vec::new();
        let mut j: usize = 0;
        while j < bands.len()
            invariant
                bands@ == self@.bands(),
                self@.wf(),
                j <= bands.len(),
                r.len() == j,
                forall|k: int| 0 <= k < j ==> r[k]@ == band_spec(self@.count, #[trigger] bands@[k]),
            decreases bands.len() - j,
        {
            r.push(band_polygon(self.count, bands[j]));
            j = j + 1;
        }
        r
    }
}

} // verus!
