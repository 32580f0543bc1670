//! Procedural geometry for two animated radial patterns: a rotating spiral
//! band and a set of drifting concentric ring bands.
//!
//! All lengths are fixed-point integers in micro-units: one unit is what the
//! display factor maps to a thousand pixels, so one micro-unit is a
//! thousandth of a pixel. Angles that only a renderer can evaluate are handed
//! out as sample indices.

mod fixed;
mod band;
mod concentric;
mod classic;

pub use fixed::{wrap_range, wrap_spec, is_floor_sqrt, isqrt, half_diagonal, half_diagonal_spec, wrap_is_idempotent, MAX_HALF_DIAGONAL};
pub use band::{Vertex, Band, outer_edge, inner_edge, band_spec, band_polygon, wrapped_inner, wrapped_outer, crosses_seam, ring_bands_spec, ring_bands, RADIUS_LIMIT, band_edges_are_closed, seam_split_covers_range, seam_crossing_by_extent};
pub use concentric::{ConcentricVisual, Ring, RingState, RAD_MIN, RING_MARGIN, MIN_COUNT, MAX_COUNT, MIN_TURNS, MAX_TURNS, MIN_WIDTH, MAX_WIDTH, MAX_SPEED, SCALE_LIMIT, ring_spacing, base_radii, ring_half_width, advanced_scale, bands_of, clamp, after_updates, recompute_is_idempotent, drift_keeps_rings, frame_bands_lie_in_domain};
pub use classic::{ClassicVisual, SpiralState, updated_outline_shape, advanced_rotation, clamp_nat, clamp_speed, inner_within_outer, SpiralSample, inner_last_step, outline_spec, spiral_outline, outline_shape, MIN_SPIRAL_TURNS, MAX_SPIRAL_TURNS, MIN_RESOLUTION, MAX_RESOLUTION, MAX_WARP, MAX_ROTATION_SPEED, ROTATION_LIMIT};
