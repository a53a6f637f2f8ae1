//! Observed positions: a sample of the absolute position at an instant, and
//! what was derived from it.

use crate::catalog::is_space_name;
use crate::catalog::space_name;
use crate::catalog::Database;
use crate::catalog::NotFound;
use crate::catalog::OldContainer;
use crate::catalog::OldPoi;
use crate::display::Color32;
use crate::scalar::Scalar;
use crate::scalar::NAN_BITS;
use crate::vector::Vec3d;
use vstd::prelude::*;
use vstd::string::StringExecFns;

verus! {

/// The instant from which elapsed time is counted, 2020-01-01T00:00:00Z, in
/// nanoseconds since the Unix epoch.
pub const REFERENCE_TIME: i64 = 1_577_836_800_000_000_000;

/// An absolute position and the instant at which it was taken, in nanoseconds
/// since the Unix epoch.
#[derive(Clone, Copy, Debug)]
pub struct SpaceTimePosition {
    pub coordinates: Vec3d,
    pub timestamp: i64,
}

/// Latitude and longitude in radians, and altitude above the surface.
#[derive(Clone, Copy, Debug)]
pub struct Geodetic {
    pub latitude: Scalar,
    pub longitude: Scalar,
    pub altitude: Scalar,
}

/// One navigation sample, with the frame it fell into and its place in it.
#[derive(Debug)]
pub struct ProcessedPosition {
    pub space_time_position: SpaceTimePosition,
    /// The position in the frame of the owning body, its rotation undone.
    pub local_coordinates: Vec3d,
    /// Seconds from the reference instant to the sample.
    pub time_elapsed: Scalar,
    pub container_name: String,
    pub name: String,
    pub latitude: Scalar,
    pub longitude: Scalar,
    pub altitude: Scalar,
    pub color: Option<Color32>,
}

impl Default for SpaceTimePosition {
    fn default() -> (r: SpaceTimePosition)
        ensures
            r == SpaceTimePosition::start(),
    {
        SpaceTimePosition { coordinates: Vec3d::origin(), timestamp: 0 }
    }
}

impl SpaceTimePosition {
    /// The origin at the Unix epoch.
    pub open spec fn start() -> SpaceTimePosition {
        let zero = Scalar { bits: 0 };
        SpaceTimePosition { coordinates: Vec3d { x: zero, y: zero, z: zero }, timestamp: 0 }
    }

    /// Nanoseconds from the reference instant to this sample.
    pub open spec fn elapsed(self) -> int {
        self.timestamp - REFERENCE_TIME
    }

    /// Nanoseconds from the reference instant to this sample.
    pub fn elapsed_nanoseconds(&self) -> (r: i128)
        ensures
            r == self.elapsed(),
    {
        let at: i128 = self.timestamp as i128;
        let from: i128 = REFERENCE_TIME as i128;
        at - from
    }
}

impl Geodetic {
    /// The place of a point without a body under it: nothing is defined.
    pub open spec fn nowhere() -> Geodetic {
        let nan = Scalar { bits: NAN_BITS };
        Geodetic { latitude: nan, longitude: nan, altitude: nan }
    }

    /// The place of a point without a body under it.
    pub fn undefined() -> (r: Geodetic)
        ensures
            r == Geodetic::nowhere(),
            r.latitude.nan(),
            r.longitude.nan(),
            r.altitude.nan(),
    {
        let nan = Scalar::undefined();
        Geodetic { latitude: nan, longitude: nan, altitude: nan }
    }
}

impl Clone for ProcessedPosition {
    fn clone(&self) -> (r: Self)
        ensures
            r == *self,
    {
        ProcessedPosition {
            space_time_position: self.space_time_position,
            local_coordinates: self.local_coordinates,
            time_elapsed: self.time_elapsed,
            container_name: self.container_name.clone(),
            name: self.name.clone(),
            latitude: self.latitude,
            longitude: self.longitude,
            altitude: self.altitude,
            color: self.color,
        }
    }
}

impl ProcessedPosition {
    /// The place recorded for a sample that fell into the frame named
    /// `container`: the place measured on the body, or nothing where the
    /// frame is empty space.
    pub open spec fn place_in(container: Seq<char>, measured: Geodetic) -> Geodetic {
        if container == space_name() {
            Geodetic::nowhere()
        } else {
            measured
        }
    }

    /// The record of `sample`, which fell into the frame of `container`.
    pub open spec fn observation(
        sample: SpaceTimePosition,
        container: &OldContainer,
        local_coordinates: Vec3d,
        time_elapsed: Scalar,
        measured: Geodetic,
        name: String,
    ) -> ProcessedPosition {
        let place = Self::place_in(container.name@, measured);
        ProcessedPosition {
            space_time_position: sample,
            local_coordinates,
            time_elapsed,
            container_name: container.name,
            name,
            latitude: place.latitude,
            longitude: place.longitude,
            altitude: place.altitude,
            color: None,
        }
    }

    /// Builds the record of a sample that fell into the frame of `container`.
    /// `local_coordinates`, `time_elapsed` and `measured` are what the caller
    /// derived from the sample for that frame. In empty space latitude,
    /// longitude and altitude are recorded as NaN, whatever was measured.
    pub fn observe(
        sample: SpaceTimePosition,
        container: &OldContainer,
        local_coordinates: Vec3d,
        time_elapsed: Scalar,
        measured: Geodetic,
        name: String,
    ) -> (r: ProcessedPosition)
        ensures
            r == Self::observation(
                sample,
                container,
                local_coordinates,
                time_elapsed,
                measured,
                name,
            ),
            container.name@ == space_name() ==> r.latitude.nan() && r.longitude.nan()
                && r.altitude.nan(),
            container.name@ != space_name() ==> r.place() == measured,
    {
        let place = if is_space_name(container.name.as_str()) {
            Geodetic::undefined()
        } else {
            measured
        };
        ProcessedPosition {
            space_time_position: sample,
            local_coordinates,
            time_elapsed,
            container_name: container.name.clone(),
            name,
            latitude: place.latitude,
            longitude: place.longitude,
            altitude: place.altitude,
            color: None,
        }
    }

    /// Latitude, longitude and altitude of the record.
    pub open spec fn place(&self) -> Geodetic {
        Geodetic { latitude: self.latitude, longitude: self.longitude, altitude: self.altitude }
    }
}

/// The record that stands for a point of interest, as `poi_to_processed_point`
/// builds it.
pub open spec fn poi_as_position(p: &OldPoi, place: Geodetic, r: &ProcessedPosition) -> bool {
    &&& r.space_time_position == SpaceTimePosition::start()
    &&& r.local_coordinates == p.coordinates
    &&& r.time_elapsed == (Scalar { bits: 0 })
    &&& r.container_name == p.container
    &&& r.name == p.name
    &&& r.place() == place
    &&& r.color is None
}

/// The record that stands for a point of interest of the catalogue. `place`
/// is its latitude, longitude and altitude above the surface of its body, as
/// the caller measured them. Fails where the catalogue has no body of the
/// name that the point gives as its owner.
pub fn poi_to_processed_point(p: &OldPoi, database: &Database, place: Geodetic) -> (r: Result<
    ProcessedPosition,
    NotFound,
>)
    ensures
        database.contains(p.container@) ==> r is Ok && poi_as_position(p, place, &r->Ok_0),
        !database.contains(p.container@) ==> r is Err && r->Err_0 is Container && r->Err_0.key()
            == p.container@,
{
    if !database.contains_key(p.container.as_str()) {
        return Err(NotFound::Container(p.container.clone()));
    }
    Ok(
        ProcessedPosition {
            space_time_position: SpaceTimePosition::default(),
            local_coordinates: p.coordinates,
            time_elapsed: Scalar::zero_value(),
            container_name: p.container.clone(),
            name: p.name.clone(),
            latitude: place.latitude,
            longitude: place.longitude,
            altitude: place.altitude,
            color: None,
        },
    )
}

/// The point of interest that records `position`: in the frame that the
/// position fell into and at its place there, or, for a position in empty
/// space or without a frame, in empty space at its absolute position.
pub open spec fn position_as_poi(position: &ProcessedPosition, r: &OldPoi) -> bool {
    let adrift = position.container_name@ == space_name() || position.container_name@.len() == 0;
    &&& r.name == position.name
    &&& r.container@ == if adrift { space_name() } else { position.container_name@ }
    &&& r.coordinates == if adrift {
        position.space_time_position.coordinates
    } else {
        position.local_coordinates
    }
    &&& r.quaternions is None
    &&& r.marker is None
    &&& r.latitude == Some(position.latitude)
    &&& r.longitude == Some(position.longitude)
    &&& r.altitude == Some(position.altitude)
}

/// Turns an observed position into a point of interest of the user's own.
pub fn save_to_poi(position: &ProcessedPosition) -> (r: OldPoi)
    ensures
        position_as_poi(position, &r),
{
    let adrift = is_space_name(position.container_name.as_str())
        || position.container_name.as_str().is_empty();
    if adrift {
        OldPoi {
            name: position.name.clone(),
            container: String::from_str("Space"),
            coordinates: position.space_time_position.coordinates,
            quaternions: None,
            marker: None,
            latitude: Some(position.latitude),
            longitude: Some(position.longitude),
            altitude: Some(position.altitude),
        }
    } else {
        OldPoi {
            name: position.name.clone(),
            container: position.container_name.clone(),
            coordinates: position.local_coordinates,
            quaternions: None,
            marker: None,
            latitude: Some(position.latitude),
            longitude: Some(position.longitude),
            altitude: Some(position.altitude),
        }
    }
}

} // verus!
