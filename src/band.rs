use vstd::prelude::*;
use crate::fixed::{wrap_range, wrap_spec};
use vstd::arithmetic::div_mod::{lemma_fundamental_div_mod, lemma_mod_bound};

verus! {

/// One polygon vertex: a radius along one of the `count` unit directions
/// that split the full turn evenly (direction `k` is at angle `2πk/count`).
#[derive(Clone, Copy, Debug, PartialEq, Eq, Structural)]
pub struct Vertex {
    pub sample: u32,
    pub radius: i64,
}

/// The radial extent of one annular band, in micro-units.
#[derive(Clone, Copy, Debug, PartialEq, Eq, Structural)]
pub struct Band {
    pub inner: i64,
    pub outer: i64,
}

/// The outer edge of a band: every direction in order at radius `r`, then
/// the first one again so that the edge closes.
pub open spec fn outer_edge(n: nat, r: i64) -> Seq<Vertex> {
    Seq::new(n, |k: int| Vertex { sample: k as u32, radius: r }).push(Vertex { sample: 0, radius: r })
}

/// The inner edge of a band: every direction in reverse order at radius `r`,
/// then the first of those again so that the edge closes.
pub open spec fn inner_edge(n: nat, r: i64) -> Seq<Vertex> {
    Seq::new(n, |k: int| Vertex { sample: (n - 1 - k) as u32, radius: r }).push(
        Vertex { sample: (n - 1) as u32, radius: r },
    )
}

/// The closed polygon of a band sampled in `n` directions: the outer edge
/// forward, then the inner edge reversed, so the winding stays consistent.
pub open spec fn band_spec(n: nat, b: Band) -> Seq<Vertex> {
    if n == 0 {
        Seq::empty()
    } else {
        outer_edge(n, b.outer) + inner_edge(n, b.inner)
    }
}

/// Builds the polygon of band `b` over `count` evenly spaced directions.
pub fn band_polygon(count: u32, b: Band) -> (r: Vec<Vertex>)
    ensures
        r@ == band_spec(count as nat, b),
{
    let mut r: Vec<Vertex> = Vec::new();
    if count == 0 {
        return r;
    }
    let ghost n = count as nat;
    let mut i: u32 = 0;
    while i < count
        invariant
            i <= count,
            n == count as nat,
            r@ == Seq::new(i as nat, |k: int| Vertex { sample: k as u32, radius: b.outer }),
        decreases count - i,
    {
        r.push(Vertex { sample: i, radius: b.outer });
        proof {
            assert(r@ =~= Seq::new((i + 1) as nat, |k: int| Vertex { sample: k as u32, radius: b.outer }));
        }
        i = i + 1;
    }
    r.push(Vertex { sample: 0, radius: b.outer });
    assert(r@ =~= outer_edge(n, b.outer));
    let mut j: u32 = 0;
    while j < count
        invariant
            j <= count,
            n == count as nat,
            count > 0,
            r@ == outer_edge(n, b.outer) + Seq::new(
                j as nat,
                |k: int| Vertex { sample: (n - 1 - k) as u32, radius: b.inner },
            ),
        decreases count - j,
    {
        r.push(Vertex { sample: count - 1 - j, radius: b.inner });
        proof {
            assert(r@ =~= outer_edge(n, b.outer) + Seq::new(
                (j + 1) as nat,
                |k: int| Vertex { sample: (n - 1 - k) as u32, radius: b.inner },
            ));
        }
        j = j + 1;
    }
    r.push(Vertex { sample: count - 1, radius: b.inner });
    assert(r@ =~= outer_edge(n, b.outer) + inner_edge(n, b.inner));
    r
}

/// The radius at which the inner extent of a band centred at `center` with
/// half-width `hw` lands once wrapped into `[rad_min, rad_max)`.
pub open spec fn wrapped_inner(center: int, hw: int, rad_min: int, rad_max: int) -> int {
    wrap_spec(center - hw, rad_min, rad_max)
}

/// The radius at which the outer extent lands once wrapped.
pub open spec fn wrapped_outer(center: int, hw: int, rad_min: int, rad_max: int) -> int {
    wrap_spec(center + hw, rad_min, rad_max)
}

/// Whether the wrapped band straddles the seam where `rad_max` wraps back to
/// `rad_min`: its two extents were wrapped by different multiples of the range.
pub open spec fn crosses_seam(center: int, hw: int, rad_min: int, rad_max: int) -> bool {
    wrapped_inner(center, hw, rad_min, rad_max) > wrapped_outer(center, hw, rad_min, rad_max)
}

/// The bands drawn for one ring: one band between the wrapped extents, or,
/// where the ring straddles the seam, one band from `rad_min` up to the wrapped
/// outer extent and one from the wrapped inner extent up to `rad_max`.
pub open spec fn ring_bands_spec(center: int, hw: int, rad_min: int, rad_max: int) -> Seq<Band> {
    let inner = wrapped_inner(center, hw, rad_min, rad_max);
    let outer = wrapped_outer(center, hw, rad_min, rad_max);
    if inner > outer {
        seq![
            Band { inner: rad_min as i64, outer: outer as i64 },
            Band { inner: inner as i64, outer: rad_max as i64 },
        ]
    } else {
        seq![Band { inner: inner as i64, outer: outer as i64 }]
    }
}

/// Largest magnitude of a ring centre or half-width that `ring_bands` accepts.
pub const RADIUS_LIMIT: i64 = 0x1000_0000_0000_0000;

/// The bands of a ring centred at `center` with half-width `half_width`,
/// wrapped into `[rad_min, rad_max)`.
pub fn ring_bands(center: i64, half_width: i64, rad_min: i64, rad_max: i64) -> (r: Vec<Band>)
    requires
        rad_min < rad_max,
        -RADIUS_LIMIT <= center <= RADIUS_LIMIT,
        0 <= half_width <= RADIUS_LIMIT,
    ensures
        r@ == ring_bands_spec(center as int, half_width as int, rad_min as int, rad_max as int),
{
    let inner = wrap_range(center - half_width, rad_min, rad_max);
    let outer = wrap_range(center + half_width, rad_min, rad_max);
    let mut r: Vec<Band> = Vec::new();
    if inner > outer {
        r.push(Band { inner: rad_min, outer });
        r.push(Band { inner, outer: rad_max });
    } else {
        r.push(Band { inner, outer });
    }
    assert(r@ =~= ring_bands_spec(center as int, half_width as int, rad_min as int, rad_max as int));
    r
}

/// A band's polygon is its outer edge of `n + 1` vertices followed by its
/// inner edge of `n + 1` vertices, and each edge ends on the vertex it starts
/// from.
pub proof fn band_edges_are_closed(n: nat, b: Band)
    requires
        n > 0,
    ensures
        band_spec(n, b).len() == 2 * n + 2,
        forall|k: int| 0 <= k <= n ==> #[trigger] band_spec(n, b)[k].radius == b.outer,
        forall|k: int| n < k < 2 * n + 2 ==> #[trigger] band_spec(n, b)[k].radius == b.inner,
        band_spec(n, b)[0] == band_spec(n, b)[n as int],
        band_spec(n, b)[n + 1 as int] == band_spec(n, b)[2 * n + 1 as int],
{
    let s = band_spec(n, b);
    assert(s[n + 1 as int] == inner_edge(n, b.inner)[0]);
    assert(s[2 * n + 1 as int] == inner_edge(n, b.inner)[n as int]);
}

/// Where two points `d` apart, with `0 <= d < range`, are both wrapped into
/// `[lo, lo + range)`, the upper one lands `d` above the lower one, or
/// `range - d` below it when the seam lies between them.
proof fn wrapped_distance(a: int, d: int, lo: int, range: int)
    requires
        range > 0,
        0 <= d < range,
    ensures
        wrap_spec(a + d, lo, lo + range) == wrap_spec(a, lo, lo + range) + d
            || wrap_spec(a + d, lo, lo + range) == wrap_spec(a, lo, lo + range) + d - range,
        lo <= wrap_spec(a, lo, lo + range) < lo + range,
        lo <= wrap_spec(a + d, lo, lo + range) < lo + range,
{
    let x = a - lo;
    let y = a + d - lo;
    lemma_fundamental_div_mod(x, range);
    lemma_fundamental_div_mod(y, range);
    lemma_mod_bound(x, range);
    lemma_mod_bound(y, range);
    let qx = x / range;
    let qy = y / range;
    let k = qy - qx;
    assert(range * k == x % range + d - y % range) by (nonlinear_arith)
        requires
            x == range * qx + x % range,
            y == range * qy + y % range,
            y == x + d,
            k == qy - qx,
    ;
    assert(k == 0 || k == 1) by (nonlinear_arith)
        requires
            range * k == x % range + d - y % range,
            0 <= x % range < range,
            0 <= y % range < range,
            0 <= d < range,
            range > 0,
    ;
}

/// The seam split of a ring. Where the band is narrower than the wrapped
/// range, exactly two bands are drawn when the ring straddles the seam, and
/// one otherwise. Split, they reach down to `rad_min` and up to `rad_max`,
/// and the radii between them that stay uncovered span exactly the range
/// less the band's width: the wrap's own discontinuity. Whole, the band keeps
/// its full width inside the range.
pub proof fn seam_split_covers_range(center: int, hw: int, rad_min: int, rad_max: int)
    requires
        rad_min < rad_max,
        0 <= 2 * hw < rad_max - rad_min,
    ensures
        ({
            let bands = ring_bands_spec(center, hw, rad_min, rad_max);
            let inner = wrapped_inner(center, hw, rad_min, rad_max);
            let outer = wrapped_outer(center, hw, rad_min, rad_max);
            &&& rad_min <= inner < rad_max
            &&& rad_min <= outer < rad_max
            &&& crosses_seam(center, hw, rad_min, rad_max) ==> {
                &&& bands.len() == 2
                &&& bands[0] == Band { inner: rad_min as i64, outer: outer as i64 }
                &&& bands[1] == Band { inner: inner as i64, outer: rad_max as i64 }
                &&& inner - outer == (rad_max - rad_min) - 2 * hw
            }
            &&& !crosses_seam(center, hw, rad_min, rad_max) ==> {
                &&& bands.len() == 1
                &&& bands[0] == Band { inner: inner as i64, outer: outer as i64 }
                &&& outer - inner == 2 * hw
            }
        }),
{
    wrapped_distance(center - hw, 2 * hw, rad_min, rad_max - rad_min);
    assert(center - hw + 2 * hw == center + hw);
}

/// A ring whose outer extent passes `rad_max` while its inner extent is still
/// inside the range straddles the seam; a ring that lies inside the range
/// does not, and is drawn as one band between its own extents.
pub proof fn seam_crossing_by_extent(center: int, hw: int, rad_min: int, rad_max: int)
    requires
        rad_min < rad_max,
        0 <= 2 * hw < rad_max - rad_min,
    ensures
        rad_min <= center - hw < rad_max <= center + hw ==> crosses_seam(center, hw, rad_min, rad_max),
        rad_min <= center - hw && center + hw < rad_max ==> !crosses_seam(center, hw, rad_min, rad_max)
            && wrapped_inner(center, hw, rad_min, rad_max) == center - hw
            && wrapped_outer(center, hw, rad_min, rad_max) == center + hw,
{
    seam_split_covers_range(center, hw, rad_min, rad_max);
    let range = rad_max - rad_min;
    if rad_min <= center - hw && center - hw < rad_max {
        vstd::arithmetic::div_mod::lemma_small_mod((center - hw - rad_min) as nat, range as nat);
        assert((center - hw - rad_min) % range == center - hw - rad_min);
        assert(wrapped_inner(center, hw, rad_min, rad_max) == center - hw);
    }
    if rad_min <= center - hw && center + hw < rad_max {
        vstd::arithmetic::div_mod::lemma_small_mod((center + hw - rad_min) as nat, range as nat);
    }
}

} // verus!
