//! The coordinate normalizer.
//!
//! The proving circuit works over an integer domain, so raw coordinates are
//! converted exactly once, at ingestion, into integers: each coordinate is
//! multiplied by [`SCALE`] and rounded to the nearest integer, ties away from
//! zero, preserving sign. A raw coordinate arrives as an exact count of
//! millionths of a unit, which is the resolution the transport layer hands
//! over; the normalized form is what every later stage consumes.
//!
//! The derived public input of the circuit is the squared integer distance
//! between the two normalized points ([`distance_squared`]): for a unit
//! displacement it equals `SCALE * SCALE`.

use vstd::prelude::*;
use vstd::arithmetic::div_mod::lemma_div_is_ordered;

verus! {

/// Scale factor from raw units into the circuit's integer domain.
pub const SCALE: i64 = 100000;

/// Raw coordinates are measured in millionths of a unit.
pub const MICROS_PER_UNIT: i64 = 1000000;

/// Largest magnitude a raw coordinate may have, in millionths of a unit.
pub const RAW_COORD_LIMIT: i64 = 10000000000;

/// Largest magnitude a normalized coordinate can reach; equals
/// `RAW_COORD_LIMIT` scaled into the circuit domain.
pub const COORD_LIMIT: i64 = 1000000000;

/// A raw 3D point as submitted by a client: each coordinate is an exact
/// count of millionths of a unit.
#[derive(Clone, Copy, Debug, PartialEq, Eq, Structural)]
pub struct RawPoint {
    pub x_micros: i64,
    pub y_micros: i64,
    pub z_micros: i64,
}

/// A normalized 3D point in the circuit's integer domain. Immutable once
/// attached to a measurement; produced only by [`normalize_point`].
#[derive(Clone, Copy, Debug, PartialEq, Eq, Structural)]
pub struct Point3D {
    pub x: i64,
    pub y: i64,
    pub z: i64,
}

/// `num / den` rounded to the nearest integer, ties away from zero.
pub open spec fn round_ratio(num: int, den: int) -> int
    recommends
        den > 0,
{
    if num >= 0 {
        (num + den / 2) / den
    } else {
        -((-num + den / 2) / den)
    }
}

/// The normalized value of one raw coordinate: the raw value (in millionths
/// of a unit) scaled by `SCALE` units and rounded to the nearest integer.
pub open spec fn spec_normalize(micros: int) -> int {
    round_ratio(micros * (SCALE as int), MICROS_PER_UNIT as int)
}

pub open spec fn raw_in_range(micros: int) -> bool {
    -(RAW_COORD_LIMIT as int) <= micros <= RAW_COORD_LIMIT as int
}

pub open spec fn norm_in_range(c: int) -> bool {
    -(COORD_LIMIT as int) <= c <= COORD_LIMIT as int
}

impl RawPoint {
    /// All three coordinates lie in the domain the normalizer accepts.
    pub open spec fn in_range(self) -> bool {
        raw_in_range(self.x_micros as int) && raw_in_range(self.y_micros as int) && raw_in_range(
            self.z_micros as int,
        )
    }
}

impl Point3D {
    /// A normalized point is well formed when each coordinate lies in the
    /// circuit domain; every point [`normalize_point`] produces is.
    pub open spec fn wf(self) -> bool {
        norm_in_range(self.x as int) && norm_in_range(self.y as int) && norm_in_range(
            self.z as int,
        )
    }

    /// The normalized image of a raw point.
    pub open spec fn spec_normalized(raw: RawPoint) -> Point3D {
        Point3D {
            x: spec_normalize(raw.x_micros as int) as i64,
            y: spec_normalize(raw.y_micros as int) as i64,
            z: spec_normalize(raw.z_micros as int) as i64,
        }
    }
}

/// An in-range raw coordinate normalizes into the circuit domain.
proof fn lemma_normalize_bounds(micros: int)
    requires
        raw_in_range(micros),
    ensures
        norm_in_range(spec_normalize(micros)),
        spec_normalize(micros) == if micros >= 0 {
            (micros * 100000 + 500000) / 1000000
        } else {
            -((-micros * 100000 + 500000) / 1000000)
        },
{
    if micros >= 0 {
        assert(micros * 100000 <= 1000000000000000) by (nonlinear_arith)
            requires
                micros <= 10000000000,
        ;
        lemma_div_is_ordered(micros * 100000 + 500000, 1000000000500000, 1000000);
        lemma_div_is_ordered(0, micros * 100000 + 500000, 1000000);
    } else {
        assert(-micros * 100000 <= 1000000000000000) by (nonlinear_arith)
            requires
                -micros <= 10000000000,
        ;
        lemma_div_is_ordered(-micros * 100000 + 500000, 1000000000500000, 1000000);
        lemma_div_is_ordered(0, -micros * 100000 + 500000, 1000000);
    }
}

/// Normalize one raw coordinate. The scaled numerator stays far inside the
/// machine word because the argument is in range.
fn normalize_coord(micros: i64) -> (r: i64)
    requires
        raw_in_range(micros as int),
    ensures
        r as int == spec_normalize(micros as int),
        norm_in_range(r as int),
{
    proof {
        lemma_normalize_bounds(micros as int);
    }
    if micros >= 0 {
        (micros * SCALE + MICROS_PER_UNIT / 2) / MICROS_PER_UNIT
    } else {
        -(((-micros) * SCALE + MICROS_PER_UNIT / 2) / MICROS_PER_UNIT)
    }
}

/// Normalize a raw point into the circuit domain, or refuse it when a
/// coordinate lies outside the domain the circuit can represent.
///
/// Returns `Some` exactly when every coordinate of `raw` is in range, and
/// then the result is the scaled, rounded image of `raw` and is well formed.
pub fn normalize_point(raw: &RawPoint) -> (r: Option<Point3D>)
    ensures
        r is Some <==> raw.in_range(),
        r is Some ==> r.unwrap() == Point3D::spec_normalized(*raw) && r.unwrap().wf(),
{
    if raw.x_micros >= -RAW_COORD_LIMIT && raw.x_micros <= RAW_COORD_LIMIT && raw.y_micros
        >= -RAW_COORD_LIMIT && raw.y_micros <= RAW_COORD_LIMIT && raw.z_micros >= -RAW_COORD_LIMIT
        && raw.z_micros <= RAW_COORD_LIMIT {
        Some(
            Point3D {
                x: normalize_coord(raw.x_micros),
                y: normalize_coord(raw.y_micros),
                z: normalize_coord(raw.z_micros),
            },
        )
    } else {
        None
    }
}

pub open spec fn sq(x: int) -> int {
    x * x
}

/// The derived distance metric of the pipeline: the squared integer distance
/// between the two normalized points. This, and not a rounded real-valued
/// Euclidean distance, is the public input the proving circuit expects.
pub open spec fn spec_distance_squared(a: Point3D, b: Point3D) -> int {
    sq(b.x - a.x) + sq(b.y - a.y) + sq(b.z - a.z)
}

/// Compute the squared integer distance between two well-formed normalized
/// points. The well-formedness bounds keep every intermediate product inside
/// the machine word.
pub fn distance_squared(a: &Point3D, b: &Point3D) -> (r: u64)
    requires
        a.wf(),
        b.wf(),
    ensures
        r as int == spec_distance_squared(*a, *b),
{
    let dx: i64 = b.x - a.x;
    let dy: i64 = b.y - a.y;
    let dz: i64 = b.z - a.z;
    proof {
        lemma_square_bound(dx as int);
        lemma_square_bound(dy as int);
        lemma_square_bound(dz as int);
    }
    let dx2: i64 = dx * dx;
    let dy2: i64 = dy * dy;
    let dz2: i64 = dz * dz;
    (dx2 as u64) + (dy2 as u64) + (dz2 as u64)
}

/// The square of a difference of in-domain coordinates is nonnegative and
/// fits comfortably in a machine word.
proof fn lemma_square_bound(d: int)
    requires
        -2000000000 <= d <= 2000000000,
    ensures
        0 <= sq(d) <= 4000000000000000000,
{
    assert(0 <= d * d <= 4000000000000000000) by (nonlinear_arith)
        requires
            -2000000000 <= d <= 2000000000,
    ;
}

} // verus!
