//! Geodetic positions in fixed point.
//!
//! Angles are whole microdegrees, so that a half turn, the bound of both
//! latitude and longitude, is an exact number; lengths are whole millimetres.
//! Trigonometry is left to the caller: this module normalizes the angles and
//! adds up the radial distance.

use vstd::prelude::*;

verus! {

/// Half a turn, in microdegrees.
pub const HALF_TURN: i64 = 180_000_000;

/// A full turn, in microdegrees.
pub const FULL_TURN: i64 = 360_000_000;

/// Radius of the reference sphere, in millimetres.
pub const PLANET_RADIUS: i64 = 6_371_000_000;

/// Distance kept above the surface so that the eye never clips through it,
/// in millimetres.
pub const SKIN_OFFSET: i64 = 2_000;

/// Latitude is clamped to a half turn either way.
pub open spec fn spec_clamp_latitude(latitude: int) -> int {
    if latitude < -HALF_TURN {
        -HALF_TURN as int
    } else if latitude > HALF_TURN {
        HALF_TURN as int
    } else {
        latitude
    }
}

/// Longitude is corrected by one full turn, once, towards the range of a half
/// turn either way.
pub open spec fn spec_wrap_longitude(longitude: int) -> int {
    if longitude < -HALF_TURN {
        longitude + FULL_TURN
    } else if longitude > HALF_TURN {
        longitude - FULL_TURN
    } else {
        longitude
    }
}

/// Distance of the eye from the planet's centre.
pub open spec fn spec_radial_distance(altitude: int, surface_height: int) -> int {
    altitude + PLANET_RADIUS + surface_height + SKIN_OFFSET
}

pub fn clamp_latitude(latitude: i64) -> (r: i64)
    ensures
        r == spec_clamp_latitude(latitude as int),
{
    if latitude < -HALF_TURN {
        -HALF_TURN
    } else if latitude > HALF_TURN {
        HALF_TURN
    } else {
        latitude
    }
}

pub fn wrap_longitude(longitude: i64) -> (r: i64)
    ensures
        r == spec_wrap_longitude(longitude as int),
{
    if longitude < -HALF_TURN {
        longitude + FULL_TURN
    } else if longitude > HALF_TURN {
        longitude - FULL_TURN
    } else {
        longitude
    }
}

/// Adds altitude, planet radius, terrain height and the skin offset. The sum
/// is taken in 128 bits, where it cannot overflow.
pub fn radial_distance(altitude: i64, surface_height: i64) -> (r: i128)
    ensures
        r == spec_radial_distance(altitude as int, surface_height as int),
{
    let a: i128 = altitude as i128;
    let h: i128 = surface_height as i128;
    let base: i128 = PLANET_RADIUS as i128;
    let skin: i128 = SKIN_OFFSET as i128;
    a + base + h + skin
}

/// A position above the reference sphere: latitude and longitude in
/// microdegrees, altitude in millimetres.
#[derive(Clone, Copy, PartialEq, Eq, Structural, Debug)]
pub struct GeodeticPosition {
    pub latitude: i64,
    pub longitude: i64,
    pub altitude: i64,
}

impl GeodeticPosition {
    /// The latitude lies within a half turn either way.
    pub open spec fn wf(&self) -> bool {
        -HALF_TURN <= self.latitude <= HALF_TURN
    }

    /// The position with its latitude clamped and its longitude wrapped once.
    pub open spec fn spec_normalized(latitude: int, longitude: int, altitude: int) -> (int, int, int) {
        (spec_clamp_latitude(latitude), spec_wrap_longitude(longitude), altitude)
    }

    /// Builds a position from raw angles: the latitude is clamped, the
    /// longitude wrapped once, the altitude kept.
    pub fn normalized(latitude: i64, longitude: i64, altitude: i64) -> (p: GeodeticPosition)
        ensures
            p.wf(),
            (p.latitude as int, p.longitude as int, p.altitude as int)
                == GeodeticPosition::spec_normalized(
                latitude as int,
                longitude as int,
                altitude as int,
            ),
    {
        GeodeticPosition {
            latitude: clamp_latitude(latitude),
            longitude: wrap_longitude(longitude),
            altitude,
        }
    }

    /// Distance of the eye from the planet's centre when the terrain below
    /// stands `surface_height` millimetres above the reference sphere.
    pub fn eye_radius(&self, surface_height: i64) -> (r: i128)
        ensures
            r == spec_radial_distance(self.altitude as int, surface_height as int),
    {
        radial_distance(self.altitude, surface_height)
    }
}

/// Longitude law: a longitude at most one and a half turns from zero is
/// brought to within a half turn of zero, and the result differs from the
/// input by a whole number of turns.
pub proof fn law_longitude_normalized(longitude: int)
    requires
        -(HALF_TURN + FULL_TURN) <= longitude <= HALF_TURN + FULL_TURN,
    ensures
        -HALF_TURN <= spec_wrap_longitude(longitude) <= HALF_TURN,
        exists|k: int| spec_wrap_longitude(longitude) == longitude + #[trigger] (k * FULL_TURN),
{
    lemma_longitude_moves_by_turns(longitude);
}

/// For every longitude, the wrapped value differs from it by a whole number of
/// turns: by one turn, or not at all.
pub proof fn lemma_longitude_moves_by_turns(longitude: int)
    ensures
        exists|k: int|
            -1 <= k <= 1 && spec_wrap_longitude(longitude) == longitude + #[trigger] (k
                * FULL_TURN),
{
    let k: int = if longitude < -HALF_TURN {
        1
    } else if longitude > HALF_TURN {
        -1
    } else {
        0
    };
    assert(-1 <= k <= 1 && spec_wrap_longitude(longitude) == longitude + k * FULL_TURN);
}

/// Latitude law: a latitude outside the range becomes the nearer bound, one
/// inside stays as it is, and the result always lies in the range.
pub proof fn law_latitude_clamped(latitude: int)
    ensures
        latitude > HALF_TURN ==> spec_clamp_latitude(latitude) == HALF_TURN,
        latitude < -HALF_TURN ==> spec_clamp_latitude(latitude) == -HALF_TURN,
        -HALF_TURN <= latitude <= HALF_TURN ==> spec_clamp_latitude(latitude) == latitude,
        -HALF_TURN <= spec_clamp_latitude(latitude) <= HALF_TURN,
{
}

/// Normalizing a normalized position changes nothing, as long as the first
/// longitude was at most one and a half turns from zero.
pub proof fn law_normalize_idempotent(latitude: int, longitude: int)
    requires
        -(HALF_TURN + FULL_TURN) <= longitude <= HALF_TURN + FULL_TURN,
    ensures
        spec_clamp_latitude(spec_clamp_latitude(latitude)) == spec_clamp_latitude(latitude),
        spec_wrap_longitude(spec_wrap_longitude(longitude)) == spec_wrap_longitude(longitude),
{
}

/// At sea level over flat terrain the eye stands one skin offset above the
/// reference sphere.
pub proof fn law_radius_at_origin()
    ensures
        spec_radial_distance(0, 0) == PLANET_RADIUS + SKIN_OFFSET,
{
}

} // verus!
