//! A target: a point of interest that is being watched, with the distance
//! and bearing to it from the live position.

use crate::catalog::Database;
use crate::catalog::NotFound;
use crate::catalog::OldPoi;
use crate::display::random_color32;
use crate::display::Color32;
use crate::display::MarkerShape;
use crate::navigation::sight;
use crate::navigation::sighted;
use crate::navigation::within_turn;
use crate::navigation::Fix;
use crate::navigation::Sighting;
use crate::position::poi_as_position;
use crate::position::poi_to_processed_point;
use crate::position::Geodetic;
use crate::position::ProcessedPosition;
use crate::scalar::Scalar;
use crate::scalar::NAN_BITS;
use vstd::prelude::*;

verus! {

/// Encoding of the radius, 4.0, that a target is drawn with.
pub const TARGET_MARKER_RADIUS: u64 = 0x4010_0000_0000_0000;

/// A watched point of interest, with what the display shows of it.
#[derive(Debug)]
pub struct Target {
    pub map_color: Color32,
    pub map_shape: MarkerShape,
    pub map_radius: Scalar,
    pub widget_open: bool,
    /// The point of interest, as a position in the frame of its body.
    pub current_point: ProcessedPosition,
    /// Distance from the live position; NaN until one was measured.
    pub current_distance: Scalar,
    /// Bearing from the live position; NaN until one was measured.
    pub current_heading: Scalar,
}

impl Target {
    /// Everything but distance and heading agrees.
    pub open spec fn same_subject(&self, other: &Target) -> bool {
        &&& self.map_color == other.map_color
        &&& self.map_shape == other.map_shape
        &&& self.map_radius == other.map_radius
        &&& self.widget_open == other.widget_open
        &&& self.current_point == other.current_point
    }

    /// A target that watches `target`, with its window open, nothing
    /// measured yet, and a diamond of a random colour for its mark. `place`
    /// is the point's latitude, longitude and altitude as the caller measured
    /// them. Fails where the catalogue lacks the body that owns the point.
    pub fn new(target: &OldPoi, database: &Database, place: Geodetic) -> (r: Result<
        Target,
        NotFound,
    >)
        ensures
            database.contains(target.container@) ==> r is Ok && {
                let t = r->Ok_0;
                &&& poi_as_position(target, place, &t.current_point)
                &&& t.widget_open
                &&& t.current_distance.bits == NAN_BITS
                &&& t.current_heading.bits == NAN_BITS
                &&& t.map_shape == MarkerShape::Diamond
                &&& t.map_radius.bits == TARGET_MARKER_RADIUS
                &&& t.map_color.a == 255
            },
            !database.contains(target.container@) ==> r is Err && r->Err_0 is Container
                && r->Err_0.key() == target.container@,
    {
        match poi_to_processed_point(target, database, place) {
            Ok(current_point) => Ok(
                Target {
                    widget_open: true,
                    current_point,
                    current_distance: Scalar::undefined(),
                    current_heading: Scalar::undefined(),
                    map_color: random_color32(),
                    map_shape: MarkerShape::Diamond,
                    map_radius: Scalar::from_bits(TARGET_MARKER_RADIUS),
                },
            ),
            Err(e) => Err(e),
        }
    }

    /// What a measurement of distance and bearing from the live position to
    /// this target goes by: nothing without a live position, and else the
    /// sighting of the watched point in the frame of its body. Fails where
    /// that body is not in the catalogue.
    pub fn sighting(&self, database: &Database, live: Option<&ProcessedPosition>) -> (r: Result<
        Option<Sighting>,
        NotFound,
    >)
        ensures
            live is None ==> r == Ok::<Option<Sighting>, NotFound>(None),
            live is Some ==> match sighted(
                live->0,
                self.current_point.local_coordinates,
                self.current_point.container_name@,
                database,
            ) {
                Some(s) => r == Ok::<Option<Sighting>, NotFound>(Some(s)),
                None => r is Err && r->Err_0 is Container && r->Err_0.key()
                    == self.current_point.container_name@,
            },
    {
        match live {
            None => Ok(None),
            Some(observer) => {
                match sight(
                    observer,
                    self.current_point.local_coordinates,
                    self.current_point.container_name.as_str(),
                    database,
                ) {
                    Ok(s) => Ok(Some(s)),
                    Err(e) => Err(e),
                }
            },
        }
    }

    /// Takes over what was measured for [`Target::sighting`]. Without a fix
    /// distance and heading stay as they are.
    pub fn update(&mut self, fix: Option<Fix>)
        ensures
            fix is Some ==> final(self).current_distance == fix->0.measured_distance(),
            fix is Some ==> final(self).current_heading == fix->0.measured_heading(),
            fix is Some ==> final(self).current_heading.nan() || within_turn(
                final(self).current_heading,
            ),
            fix is None ==> final(self).current_distance == old(self).current_distance,
            fix is None ==> final(self).current_heading == old(self).current_heading,
            final(self).same_subject(old(self)),
    {
        match fix {
            Some(f) => {
                self.current_distance = f.distance();
                self.current_heading = f.heading();
            },
            None => {},
        }
    }
}

} // verus!
