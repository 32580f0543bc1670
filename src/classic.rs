use vstd::prelude::*;
use crate::fixed::{half_diagonal, half_diagonal_spec, floor_sqrt_unique, MAX_HALF_DIAGONAL};

verus! {

pub const MIN_SPIRAL_TURNS: u32 = 1;
pub const MAX_SPIRAL_TURNS: u32 = 15;
pub const MIN_RESOLUTION: u32 = 90;
pub const MAX_RESOLUTION: u32 = 1080;
/// Warp, in thousandths: the curvature coefficient is `10^(warp / 1000)`.
pub const MAX_WARP: i32 = 500;
/// Rotation speed, in micro-turns per millisecond (thousandths of a turn per
/// second).
pub const MAX_ROTATION_SPEED: i64 = 10_000;
/// The rotation angle saturates here, in micro-turns; at the largest speed
/// that takes centuries.
pub const ROTATION_LIMIT: i64 = 0x800_0000_0000_0000;

/// One point of the spiral band's outline, by the sample it is taken at. At
/// `t = step / resolution` its radius is `rad_max * t^c` and its angle is
/// `2π(t * turns + offset + rotation)` on the outer edge, less `2π * width`
/// on the inner edge.
#[derive(Clone, Copy, Debug, PartialEq, Eq, Structural)]
pub struct SpiralSample {
    pub step: u32,
    pub inner: bool,
}

/// The last sample step of the inner edge: `floor(resolution * (1 - width / turns))`,
/// with `width` in thousandths of a turn.
pub open spec fn inner_last_step(resolution: nat, turns: nat, width: nat) -> nat {
    (resolution * (turns * 1000 - width) / ((turns * 1000) as int)) as nat
}

/// The outline of the band: the outer edge from the centre outwards, steps
/// `0..=resolution`, then the inner edge back inwards, steps `last..=0`.
pub open spec fn outline_spec(resolution: nat, last: nat) -> Seq<SpiralSample> {
    Seq::new(resolution + 1, |i: int| SpiralSample { step: i as u32, inner: false }) + Seq::new(
        last + 1,
        |i: int| SpiralSample { step: (last - i) as u32, inner: true },
    )
}

/// Builds the outline of a band sampled `resolution` times per sweep whose
/// inner edge ends at step `last`.
pub fn spiral_outline(resolution: u32, last: u32) -> (r: Vec<SpiralSample>)
    requires
        last <= resolution < u32::MAX,
    ensures
        r@ == outline_spec(resolution as nat, last as nat),
{
    let mut r: Vec<SpiralSample> = Vec::new();
    let mut i: u32 = 0;
    while i <= resolution
        invariant
            i <= resolution + 1,
            resolution < u32::MAX,
            r@ == Seq::new(i as nat, |k: int| SpiralSample { step: k as u32, inner: false }),
        decreases resolution + 1 - i,
    {
        r.push(SpiralSample { step: i, inner: false });
        assert(r@ =~= Seq::new((i + 1) as nat, |k: int| SpiralSample { step: k as u32, inner: false }));
        i = i + 1;
    }
    let ghost outer = r@;
    let mut j: u32 = 0;
    while j <= last
        invariant
            j <= last + 1,
            last <= resolution < u32::MAX,
            outer == Seq::new((resolution + 1) as nat, |k: int| SpiralSample { step: k as u32, inner: false }),
            r@ == outer + Seq::new(j as nat, |k: int| SpiralSample { step: (last - k) as u32, inner: true }),
        decreases last + 1 - j,
    {
        r.push(SpiralSample { step: last - j, inner: true });
        assert(r@ =~= outer + Seq::new((j + 1) as nat, |k: int| SpiralSample { step: (last - k) as u32, inner: true }));
        j = j + 1;
    }
    r
}

/// The outline has `resolution + 1` samples on the outer edge and
/// `last + 1` on the inner edge; the outer edge ends at `t = 1`, where the
/// radius is `rad_max` whatever the curvature; and no two neighbouring
/// samples are the same point of the band.
pub proof fn outline_shape(resolution: nat, last: nat)
    requires
        last <= resolution < u32::MAX,
    ensures
        outline_spec(resolution, last).len() == resolution + last + 2,
        forall|i: int| 0 <= i <= resolution ==> !(#[trigger] outline_spec(resolution, last)[i]).inner,
        forall|i: int| resolution < i < resolution + last + 2 ==> (#[trigger] outline_spec(resolution, last)[i]).inner,
        outline_spec(resolution, last)[resolution as int] == (SpiralSample { step: resolution as u32, inner: false }),
        forall|i: int| 0 <= i < outline_spec(resolution, last).len() ==> (#[trigger] outline_spec(resolution, last)[i]).step <= resolution,
        forall|i: int| 0 <= i < resolution + last + 1 ==> #[trigger] outline_spec(resolution, last)[i] != outline_spec(resolution, last)[i + 1],
{
    let s = outline_spec(resolution, last);
    assert forall|i: int| 0 <= i < resolution + last + 1 implies #[trigger] s[i] != s[i + 1] by {
        if i < resolution {
            assert(s[i].step == i && s[i + 1].step == i + 1);
        } else if i > resolution {
            assert(s[i].step == last - (i - resolution - 1));
            assert(s[i + 1].step == last - (i - resolution));
        } else {
            assert(!s[i].inner && s[i + 1].inner);
        }
    }
}

/// Where `width` is under `turns` whole turns, the inner edge ends no
/// further out than the outer edge.
pub proof fn inner_within_outer(resolution: nat, turns: nat, width: nat)
    requires
        turns >= 1,
        width <= turns * 1000,
    ensures
        inner_last_step(resolution, turns, width) <= resolution,
{
    let c = (turns * 1000) as int;
    let x = resolution * (turns * 1000 - width);
    assert(0 <= x <= resolution * c) by (nonlinear_arith)
        requires
            x == resolution * (turns * 1000 - width),
            c == turns * 1000,
            width <= turns * 1000,
    ;
    vstd::arithmetic::div_mod::lemma_div_is_ordered(x, resolution * c, c);
    vstd::arithmetic::div_mod::lemma_div_by_multiple(resolution as int, c);
}

pub open spec fn clamp_nat(v: int, lo: int, hi: int) -> nat {
    (if v < lo {
        lo
    } else if v > hi {
        hi
    } else {
        v
    }) as nat
}

pub open spec fn clamp_speed(v: int) -> int {
    if v < -MAX_ROTATION_SPEED {
        -MAX_ROTATION_SPEED as int
    } else if v > MAX_ROTATION_SPEED {
        MAX_ROTATION_SPEED as int
    } else {
        v
    }
}

/// After any frame, the outline holds `count + 1` outer samples ending at
/// `t = 1` and `floor(count * (1 - width / turns)) + 1` inner samples, with
/// no two neighbours alike.
pub proof fn updated_outline_shape(s: SpiralState, delta_ms: int)
    requires
        s.wf(),
    ensures
        ({
            let o = s.advanced(delta_ms).samples;
            &&& s.inner_last() <= s.count
            &&& o.len() == (s.count + 1) + (s.inner_last() + 1)
            &&& forall|i: int| 0 <= i <= s.count ==> !(#[trigger] o[i]).inner
            &&& forall|i: int| s.count < i < o.len() ==> (#[trigger] o[i]).inner
            &&& o[s.count as int] == (SpiralSample { step: s.count as u32, inner: false })
            &&& forall|i: int| 0 <= i < o.len() - 1 ==> #[trigger] o[i] != o[i + 1]
        }),
{
    inner_within_outer(s.count, s.turns, s.width);
    outline_shape(s.count, s.inner_last());
}

/// The abstract state of a spiral engine.
pub struct SpiralState {
    pub w: nat,
    pub h: nat,
    pub offset: int,
    pub count: nat,
    pub turns: nat,
    pub width: nat,
    pub warp: int,
    pub rotation: int,
    pub speed: int,
    pub half_diagonal: int,
    pub samples: Seq<SpiralSample>,
    pub color1: [u8; 3],
    pub color2: [u8; 3],
    pub needs_update: bool,
}

/// The rotation after `delta_ms` milliseconds at `speed`, held within
/// `[-ROTATION_LIMIT, ROTATION_LIMIT]`.
pub open spec fn advanced_rotation(rotation: int, speed: int, delta_ms: int) -> int {
    let r = rotation + speed * delta_ms;
    if r > ROTATION_LIMIT {
        ROTATION_LIMIT as int
    } else if r < -ROTATION_LIMIT {
        -ROTATION_LIMIT
    } else {
        r
    }
}

impl SpiralState {
    pub open spec fn wf(self) -> bool {
        &&& self.w > 0 && self.h > 0
        &&& self.w <= u32::MAX && self.h <= u32::MAX
        &&& half_diagonal_spec(self.w as int, self.h as int, self.half_diagonal)
        &&& 0 < self.half_diagonal < MAX_HALF_DIAGONAL
        &&& MIN_SPIRAL_TURNS <= self.turns <= MAX_SPIRAL_TURNS
        &&& MIN_RESOLUTION <= self.count <= MAX_RESOLUTION
        &&& 0 < self.width < 1000
        &&& -MAX_WARP <= self.warp <= MAX_WARP
        &&& -MAX_ROTATION_SPEED <= self.speed <= MAX_ROTATION_SPEED
        &&& -ROTATION_LIMIT <= self.rotation <= ROTATION_LIMIT
        &&& -1_000_000 <= self.offset <= 1_000_000
    }

    /// The last step of the inner edge for the current tunables.
    pub open spec fn inner_last(self) -> nat {
        inner_last_step(self.count, self.turns, self.width)
    }

    /// The state one frame of `delta_ms` milliseconds later: rotated, with
    /// the geometry current and the outline rebuilt.
    pub open spec fn advanced(self, delta_ms: int) -> SpiralState {
        SpiralState {
            rotation: advanced_rotation(self.rotation, self.speed, delta_ms),
            needs_update: false,
            samples: outline_spec(self.count, self.inner_last()),
            ..self
        }
    }
}

/// A spiral band that winds `turns` times out to the corners of the
/// viewport and rotates over time.
pub struct ClassicVisual {
    samples: Vec<SpiralSample>,
    offset: i64,
    count: u32,
    turns: u32,
    width: u32,
    warp: i32,
    rot: i64,
    half_diag: i64,
    speed: i64,
    needs_update: bool,
    w: u32,
    h: u32,
    color1: [u8; 3],
    color2: [u8; 3],
}

impl View for ClassicVisual {
    type V = SpiralState;

    closed spec fn view(&self) -> SpiralState {
        SpiralState {
            w: self.w as nat,
            h: self.h as nat,
            offset: self.offset as int,
            count: self.count as nat,
            turns: self.turns as nat,
            width: self.width as nat,
            warp: self.warp as int,
            rotation: self.rot as int,
            speed: self.speed as int,
            half_diagonal: self.half_diag as int,
            samples: self.samples@,
            color1: self.color1,
            color2: self.color2,
            needs_update: self.needs_update,
        }
    }
}

impl ClassicVisual {
    /// A spiral engine for a `w` by `h` viewport with the default tunables:
    /// 5 turns, 720 samples per sweep, a band half a turn wide, no warp,
    /// rotating at 0.2 turns per second, white on black. The phase offset
    /// starts at zero.
    pub fn new(w: u32, h: u32) -> (r: Self)
        requires
            w > 0,
            h > 0,
        ensures
            r@.wf(),
            r@.w == w && r@.h == h,
            r@.turns == 5 && r@.count == 720 && r@.width == 500 && r@.warp == 0,
            r@.speed == 200 && r@.rotation == 0 && r@.offset == 0,
            r@.color1 == [0u8, 0, 0] && r@.color2 == [255u8, 255, 255],
            r@.samples.len() == 0,
            r@.needs_update,
    {
        ClassicVisual {
            samples: Vec::new(),
            offset: 0,
            count: 720,
            turns: 5,
            width: 500,
            warp: 0,
            rot: 0,
            half_diag: half_diagonal(w, h),
            speed: 200,
            needs_update: true,
            w,
            h,
            color1: [0, 0, 0],
            color2: [255, 255, 255],
        }
    }

    /// Recomputes what the spiral's reach derives from the viewport: the
    /// distance from its centre to a corner.
    pub fn recalculate_geometry(&mut self)
        requires
            old(self)@.wf(),
        ensures
            final(self)@ == old(self)@,
    {
        let d = half_diagonal(self.w, self.h);
        proof {
            floor_sqrt_unique(d as int, self.half_diag as int, 250_000 * (self.w * self.w + self.h * self.h));
        }
        self.half_diag = d;
    }

    /// Rotates the spiral by `speed * delta_ms`, brings the geometry up to
    /// date if it was stale, and rebuilds the outline.
    pub fn update(&mut self, delta_ms: u32)
        requires
            old(self)@.wf(),
        ensures
            final(self)@ == old(self)@.advanced(delta_ms as int),
            final(self)@.wf(),
    {
        assert(-10_000 * 0x1_0000_0000 <= self.speed * delta_ms <= 10_000 * 0x1_0000_0000) by (nonlinear_arith)
            requires
                -10_000 <= self.speed <= 10_000,
                0 <= delta_ms <= 0xffff_ffff,
        ;
        let r: i64 = self.rot + self.speed * delta_ms as i64;
        self.rot = if r > ROTATION_LIMIT {
            ROTATION_LIMIT
        } else if r < -ROTATION_LIMIT {
            -ROTATION_LIMIT
        } else {
            r
        };
        if self.needs_update {
            self.recalculate_geometry();
            self.needs_update = false;
        }
        let last = self.inner_last();
        self.samples = spiral_outline(self.count, last);
    }

    /// Seeds the viewport, speed and colours, and brings the geometry up to
    /// date at once.
    pub fn setup(&mut self, w: u32, h: u32, speed: i64, _needs_update: bool, color1: [u8; 3], color2: [u8; 3])
        requires
            old(self)@.wf(),
            w > 0,
            h > 0,
        ensures
            final(self)@.wf(),
            final(self)@ == (SpiralState {
                w: w as nat,
                h: h as nat,
                half_diagonal: final(self)@.half_diagonal,
                speed: clamp_speed(speed as int),
                color1,
                color2,
                needs_update: false,
                ..old(self)@
            }),
    {
        self.resize(w, h);
        self.set_speed(speed);
        self.color1 = color1;
        self.color2 = color2;
        self.recalculate_geometry();
        self.needs_update = false;
    }

    /// Takes a new viewport size; the spiral's reach follows it.
    pub fn resize(&mut self, w: u32, h: u32)
        requires
            old(self)@.wf(),
            w > 0,
            h > 0,
        ensures
            final(self)@.wf(),
            half_diagonal_spec(w as int, h as int, final(self)@.half_diagonal),
            final(self)@ == (SpiralState { w: w as nat, h: h as nat, half_diagonal: final(self)@.half_diagonal, needs_update: true, ..old(self)@ }),
    {
        self.w = w;
        self.h = h;
        self.half_diag = half_diagonal(w, h);
        self.needs_update = true;
    }

    /// Sets the number of turns, held within `[MIN_SPIRAL_TURNS, MAX_SPIRAL_TURNS]`.
    pub fn set_turns(&mut self, turns: u32)
        requires
            old(self)@.wf(),
        ensures
            final(self)@.wf(),
            final(self)@ == (SpiralState { turns: clamp_nat(turns as int, MIN_SPIRAL_TURNS as int, MAX_SPIRAL_TURNS as int), needs_update: true, ..old(self)@ }),
    {
        self.turns = if turns < MIN_SPIRAL_TURNS {
            MIN_SPIRAL_TURNS
        } else if turns > MAX_SPIRAL_TURNS {
            MAX_SPIRAL_TURNS
        } else {
            turns
        };
        self.needs_update = true;
    }

    /// Sets the samples per sweep, held within `[MIN_RESOLUTION, MAX_RESOLUTION]`.
    pub fn set_count(&mut self, count: u32)
        requires
            old(self)@.wf(),
        ensures
            final(self)@.wf(),
            final(self)@ == (SpiralState { count: clamp_nat(count as int, MIN_RESOLUTION as int, MAX_RESOLUTION as int), needs_update: true, ..old(self)@ }),
    {
        self.count = if count < MIN_RESOLUTION {
            MIN_RESOLUTION
        } else if count > MAX_RESOLUTION {
            MAX_RESOLUTION
        } else {
            count
        };
        self.needs_update = true;
    }

    /// Sets the warp, in thousandths, held within `[-MAX_WARP, MAX_WARP]`.
    pub fn set_warp(&mut self, warp: i32)
        requires
            old(self)@.wf(),
        ensures
            final(self)@.wf(),
            final(self)@ == (SpiralState { warp: if warp < -MAX_WARP { -MAX_WARP as int } else if warp > MAX_WARP { MAX_WARP as int } else { warp as int }, needs_update: true, ..old(self)@ }),
    {
        self.warp = if warp < -MAX_WARP {
            -MAX_WARP
        } else if warp > MAX_WARP {
            MAX_WARP
        } else {
            warp
        };
        self.needs_update = true;
    }

    /// Sets the rotation speed, held within `[-MAX_ROTATION_SPEED, MAX_ROTATION_SPEED]`;
    /// it takes effect on the next update.
    pub fn set_speed(&mut self, speed: i64)
        requires
            old(self)@.wf(),
        ensures
            final(self)@.wf(),
            final(self)@ == (SpiralState { speed: clamp_speed(speed as int), ..old(self)@ }),
    {
        self.speed = if speed < -MAX_ROTATION_SPEED {
            -MAX_ROTATION_SPEED
        } else if speed > MAX_ROTATION_SPEED {
            MAX_ROTATION_SPEED
        } else {
            speed
        };
    }

    /// Sets the phase offset, in micro-turns, held within one turn either way.
    pub fn set_offset(&mut self, offset: i64)
        requires
            old(self)@.wf(),
        ensures
            final(self)@.wf(),
            final(self)@ == (SpiralState { offset: if offset < -1_000_000 { -1_000_000 } else if offset > 1_000_000 { 1_000_000 } else { offset as int }, ..old(self)@ }),
    {
        self.offset = if offset < -1_000_000 {
            -1_000_000
        } else if offset > 1_000_000 {
            1_000_000
        } else {
            offset
        };
    }

    /// Sets the background and band colours.
    pub fn set_colors(&mut self, color1: [u8; 3], color2: [u8; 3])
        requires
            old(self)@.wf(),
        ensures
            final(self)@.wf(),
            final(self)@ == (SpiralState { color1, color2, ..old(self)@ }),
    {
        self.color1 = color1;
        self.color2 = color2;
    }

    pub fn name(&self) -> (r: &'static str) {
        "Classic Spiral"
    }

    /// The band's outline as of the last update.
    pub fn samples(&self) -> (r: &Vec<SpiralSample>)
        ensures
            r@ == self@.samples,
    {
        &self.samples
    }

    pub fn count(&self) -> (r: u32)
        ensures
            r == self@.count,
    {
        self.count
    }

    pub fn turns(&self) -> (r: u32)
        ensures
            r == self@.turns,
    {
        self.turns
    }

    /// The band's angular width, in thousandths of a turn.
    pub fn width(&self) -> (r: u32)
        ensures
            r == self@.width,
    {
        self.width
    }

    pub fn warp(&self) -> (r: i32)
        ensures
            r == self@.warp,
    {
        self.warp
    }

    pub fn speed(&self) -> (r: i64)
        ensures
            r == self@.speed,
    {
        self.speed
    }

    /// The accumulated rotation, in micro-turns.
    pub fn rotation(&self) -> (r: i64)
        ensures
            r == self@.rotation,
    {
        self.rot
    }

    pub fn offset(&self) -> (r: i64)
        ensures
            r == self@.offset,
    {
        self.offset
    }

    /// The distance from the centre of the viewport to a corner, in micro-units.
    pub fn half_diagonal(&self) -> (r: i64)
        ensures
            r == self@.half_diagonal,
    {
        self.half_diag
    }

    pub fn color1(&self) -> (r: [u8; 3])
        ensures
            r == self@.color1,
    {
        self.color1
    }

    pub fn color2(&self) -> (r: [u8; 3])
        ensures
            r == self@.color2,
    {
        self.color2
    }

    pub fn needs_update(&self) -> (r: bool)
        ensures
            r == self@.needs_update,
    {
        self.needs_update
    }

    /// The last step of the inner edge.
    fn inner_last(&self) -> (r: u32)
        requires
            self@.wf(),
        ensures
            r == self@.inner_last(),
            r <= self@.count,
    {
        let full: u64 = self.turns as u64 * 1000;
        proof {
            inner_within_outer(self.count as nat, self.turns as nat, self.width as nat);
            assert(self.count * (full - self.width) <= 1080 * 15000) by (nonlinear_arith)
                requires
                    self.count <= 1080,
                    full <= 15000,
                    self.width <= full,
            ;
        }
        (self.count as u64 * (full - self.width as u64) / full) as u32
    }
}

} // verus!
