//! The decisions behind distance and bearing: how far a body has turned,
//! which body a target is seen in, and by which rule the line to it is drawn.

use crate::catalog::is_space_name;
use crate::catalog::space_name;
use crate::catalog::Database;
use crate::catalog::NotFound;
use crate::catalog::OldContainer;
use crate::names::same_name;
use crate::position::ProcessedPosition;
use crate::scalar::Scalar;
use crate::vector::Vec3d;
use vstd::prelude::*;
use vstd::string::StringExecFns;

verus! {

/// What a body's frame contributes to a sighting: where its centre is and how
/// it turns.
#[derive(Clone, Copy, Debug)]
pub struct Frame {
    pub position: Vec3d,
    /// Hours that one turn takes; zero for a frame that does not turn.
    pub rotation_speed: Scalar,
    /// Degrees added to the angle that the elapsed time gives.
    pub rotation_adjust: Scalar,
}

/// All that the measurement of distance and bearing from an observer to a
/// target goes by.
#[derive(Clone, Copy, Debug)]
pub struct Sighting {
    /// The observer in the frame of the body that holds it.
    pub observer_local: Vec3d,
    /// The observer in the absolute frame.
    pub observer_absolute: Vec3d,
    /// Seconds from the reference instant to the observer's sample.
    pub time_elapsed: Scalar,
    /// The target in the frame of its body.
    pub target_local: Vec3d,
    /// The frame of the target's body.
    pub target_frame: Frame,
    /// Observer and target are held by the same body, so the line between
    /// them is drawn within its frame; otherwise the target is first carried
    /// into the absolute frame and compared with the observer there.
    pub same_frame: bool,
}

/// Encoding of the double nearest to a full turn in radians.
pub const TWO_PI_BITS: u64 = 0x4019_21fb_5444_2d18;

/// The bearing lies within one turn: from zero up to, but not at, a full
/// turn.
pub open spec fn within_turn(heading: Scalar) -> bool {
    (Scalar { bits: 0 }).at_most(heading) && heading.below(Scalar { bits: TWO_PI_BITS })
}

/// The bearing can be recorded: it is undefined or lies within one turn.
pub open spec fn recordable(heading: Scalar) -> bool {
    heading.nan() || within_turn(heading)
}

/// Distance and bearing as measured for one sighting. The bearing, in
/// radians from north, is undefined or lies within one turn.
#[derive(Clone, Copy, Debug)]
pub struct Fix {
    distance: Scalar,
    heading: Scalar,
}

impl Fix {
    #[verifier::type_invariant]
    spec fn in_range(self) -> bool {
        self.heading.nan() || within_turn(self.heading)
    }

    /// The distance of the fix.
    pub closed spec fn measured_distance(self) -> Scalar {
        self.distance
    }

    /// The bearing of the fix.
    pub closed spec fn measured_heading(self) -> Scalar {
        self.heading
    }

    /// A fix of `distance` and `heading` as they were measured. There is a
    /// fix exactly where the bearing is undefined or lies within one turn.
    pub fn new(distance: Scalar, heading: Scalar) -> (r: Option<Fix>)
        ensures
            r is Some <==> recordable(heading),
            r is Some ==> r->0.measured_distance() == distance && r->0.measured_heading()
                == heading,
    {
        if heading.is_nan() || (Scalar::zero_value().float_le(heading) && heading.float_lt(
            Scalar::from_bits(TWO_PI_BITS),
        )) {
            Some(Fix { distance, heading })
        } else {
            None
        }
    }

    /// The distance, as it was measured.
    pub fn distance(&self) -> (r: Scalar)
        ensures
            r == self.measured_distance(),
    {
        self.distance
    }

    /// The bearing, which is undefined or lies within one turn.
    pub fn heading(&self) -> (r: Scalar)
        ensures
            r == self.measured_heading(),
            r.nan() || within_turn(r),
    {
        proof {
            use_type_invariant(self);
        }
        self.heading
    }
}

/// The angle in degrees by which a body has turned: `swept` for a body that
/// turns, nothing for one whose turn takes zero hours.
pub open spec fn rotation_state(rotation_speed: Scalar, swept: Scalar) -> Scalar {
    if rotation_speed.zero() {
        Scalar { bits: 0 }
    } else {
        swept
    }
}

/// The angle in degrees by which `container` has turned. `swept` is what the
/// elapsed time gives for a body that turns,
/// `(0.1 * (1 / rotation_speed) * time_elapsed + rotation_adjust) mod 360`, as
/// the caller computed it. A body whose turn takes zero hours does not turn:
/// its angle is zero whatever `swept` holds.
pub fn rotation_angle_degrees(container: &OldContainer, swept: Scalar) -> (r: Scalar)
    ensures
        r == rotation_state(container.rotation_speed, swept),
        container.rotation_speed.zero() ==> r.bits == 0,
{
    frame_rotation_degrees(&frame_of_container(container), swept)
}

/// The angle in degrees by which `frame` has turned; see
/// [`rotation_angle_degrees`].
pub fn frame_rotation_degrees(frame: &Frame, swept: Scalar) -> (r: Scalar)
    ensures
        r == rotation_state(frame.rotation_speed, swept),
        frame.rotation_speed.zero() ==> r.bits == 0,
{
    if frame.rotation_speed.is_zero() {
        Scalar::zero_value()
    } else {
        swept
    }
}

impl Frame {
    /// The frame of empty space: at the origin, not turning.
    pub open spec fn space() -> Frame {
        let zero = Scalar { bits: 0 };
        Frame {
            position: Vec3d { x: zero, y: zero, z: zero },
            rotation_speed: zero,
            rotation_adjust: zero,
        }
    }

    /// The frame of a body of the catalogue.
    pub open spec fn of(container: &OldContainer) -> Frame {
        Frame {
            position: container.coordinates,
            rotation_speed: container.rotation_speed,
            rotation_adjust: container.rotation_adjust,
        }
    }
}

/// The frame of a body of the catalogue.
pub fn frame_of_container(container: &OldContainer) -> (r: Frame)
    ensures
        r == Frame::of(container),
{
    Frame {
        position: container.coordinates,
        rotation_speed: container.rotation_speed,
        rotation_adjust: container.rotation_adjust,
    }
}

/// The frame that goes by `name`: that of empty space for its name, which is
/// never looked up, and else that of the body of this name in the catalogue.
/// Fails where the catalogue has no such body.
pub fn frame_named(name: &str, database: &Database) -> (r: Result<Frame, NotFound>)
    ensures
        name@ == space_name() ==> r == Ok::<Frame, NotFound>(Frame::space()),
        name@ != space_name() && database.contains(name@) ==> r == Ok::<Frame, NotFound>(
            Frame::of(&database.value_of(name@)),
        ),
        name@ != space_name() && !database.contains(name@) ==> r is Err && r->Err_0 is Container
            && r->Err_0.key() == name@,
{
    if is_space_name(name) {
        let zero = Scalar::zero_value();
        return Ok(Frame { position: Vec3d::origin(), rotation_speed: zero, rotation_adjust: zero });
    }
    match database.get(name) {
        Some(container) => Ok(frame_of_container(container)),
        None => Err(NotFound::Container(String::from_str(name))),
    }
}

/// The sighting from `observer` to the point at `target_local` in `frame`,
/// the frame of the body named `target_container`.
pub open spec fn sighting_of(
    observer: &ProcessedPosition,
    target_local: Vec3d,
    target_container: Seq<char>,
    frame: Frame,
) -> Sighting {
    Sighting {
        observer_local: observer.local_coordinates,
        observer_absolute: observer.space_time_position.coordinates,
        time_elapsed: observer.time_elapsed,
        target_local,
        target_frame: frame,
        same_frame: observer.container_name@ == target_container,
    }
}

/// The sighting from `observer` to a target at `target_local` in the frame
/// of the body named `target_container`: in the frame of empty space for its
/// name, in that of the body of the catalogue else, and none where the
/// catalogue has no such body.
pub open spec fn sighted(
    observer: &ProcessedPosition,
    target_local: Vec3d,
    target_container: Seq<char>,
    database: &Database,
) -> Option<Sighting> {
    if target_container == space_name() {
        Some(sighting_of(observer, target_local, target_container, Frame::space()))
    } else if database.contains(target_container) {
        Some(
            sighting_of(
                observer,
                target_local,
                target_container,
                Frame::of(&database.value_of(target_container)),
            ),
        )
    } else {
        None
    }
}

/// What [`sight`] and the functions built on it return for a target in the
/// body named `target_container`.
pub open spec fn sight_result(
    expected: Option<Sighting>,
    target_container: Seq<char>,
    r: Result<Sighting, NotFound>,
) -> bool {
    match expected {
        Some(s) => r == Ok::<Sighting, NotFound>(s),
        None => r is Err && r->Err_0 is Container && r->Err_0.key() == target_container,
    }
}

/// Prepares the measurement from `observer` to a target at `target_local` in
/// the frame of the body named `target_container`. The time that the target's
/// body has turned for is the observer's, not one stored with the target.
/// Fails where the target's body is not in the catalogue.
pub fn sight(
    observer: &ProcessedPosition,
    target_local: Vec3d,
    target_container: &str,
    database: &Database,
) -> (r: Result<Sighting, NotFound>)
    ensures
        sight_result(
            sighted(observer, target_local, target_container@, database),
            target_container@,
            r,
        ),
        r is Ok ==> r->Ok_0.time_elapsed == observer.time_elapsed,
{
    match frame_named(target_container, database) {
        Ok(frame) => Ok(
            Sighting {
                observer_local: observer.local_coordinates,
                observer_absolute: observer.space_time_position.coordinates,
                time_elapsed: observer.time_elapsed,
                target_local,
                target_frame: frame,
                same_frame: same_name(observer.container_name.as_str(), target_container),
            },
        ),
        Err(e) => Err(e),
    }
}

impl Sighting {
    /// The distance that counts for this sighting: the length `within` the
    /// shared frame where observer and target are held by one body, and the
    /// length `across` frames where not.
    pub open spec fn distance_of(self, within: Scalar, across: Scalar) -> Scalar {
        if self.same_frame {
            within
        } else {
            across
        }
    }

    /// The fix for this sighting. `within` is the length of the line from
    /// the observer to the target within the frame that they share, and
    /// `across` the length of the line from the observer's absolute place to
    /// the target carried into the absolute frame, as the caller computed
    /// them; the distance of the fix is `within` where observer and target
    /// are held by one body, and `across` where not. `bearing` is the bearing
    /// as the caller computed it. There is a fix exactly where the bearing is
    /// undefined or lies within one turn.
    pub fn distance_and_bearing(&self, within: Scalar, across: Scalar, bearing: Scalar) -> (r:
        Option<Fix>)
        ensures
            r is Some <==> recordable(bearing),
            r is Some ==> r->0.measured_heading() == bearing && r->0.measured_distance()
                == self.distance_of(within, across),
    {
        if self.same_frame {
            Fix::new(within, bearing)
        } else {
            Fix::new(across, bearing)
        }
    }
}

impl Vec3d {
    /// The place, in the frame of a body, of a point that lies at `self`
    /// from the centre of the body: the point itself while the body has
    /// turned by nothing or by an angle that is not a number, and else the
    /// point turned back, with the planar components `turned_x` and
    /// `turned_y`.
    pub open spec fn localized(
        self,
        frame: &Frame,
        swept: Scalar,
        turned_x: Scalar,
        turned_y: Scalar,
    ) -> Vec3d {
        self.rotated(rotation_state(frame.rotation_speed, swept), turned_x, turned_y)
    }

    /// Carries a point into the frame of a body by undoing the rotation of
    /// the body. `self` is the point as seen from the centre of the body, its
    /// absolute position less that of the centre; `swept` is the angle that
    /// the elapsed time gives, as for [`frame_rotation_degrees`]; and
    /// `turned_x` and `turned_y` are the planar components of `self` turned
    /// back by the angle that the frame has turned by, as the caller computed
    /// them. A body that does not turn, or has turned by nothing or by an
    /// angle that is not a number, leaves the point as it is.
    pub fn transform_to_local(
        &self,
        frame: &Frame,
        swept: Scalar,
        turned_x: Scalar,
        turned_y: Scalar,
    ) -> (r: Vec3d)
        ensures
            r == self.localized(frame, swept, turned_x, turned_y),
            r.z == self.z,
            frame.rotation_speed.zero() ==> r == *self,
    {
        self.rotate(frame_rotation_degrees(frame, swept), turned_x, turned_y)
    }
}

/// On a body that does not turn, a point is carried into the frame of the
/// body and back without a change, whatever the time and whatever is offered
/// for its turned components.
pub proof fn lemma_still_frame_round_trip(
    v: Vec3d,
    frame: Frame,
    swept: Scalar,
    turned_x: Scalar,
    turned_y: Scalar,
    back_x: Scalar,
    back_y: Scalar,
)
    requires
        frame.rotation_speed.zero(),
    ensures
        v.localized(&frame, swept, turned_x, turned_y) == v,
        v.localized(&frame, swept, turned_x, turned_y).rotated(
            rotation_state(frame.rotation_speed, swept),
            back_x,
            back_y,
        ) == v,
{
}

/// Between two positions held by one body the distance that counts is the
/// length within their frame, from either side: it is the same both ways as
/// soon as that length is, and it depends neither on the time, nor on how
/// the body turns or where it lies, nor on the absolute positions, nor on
/// what the length across frames would be.
pub proof fn lemma_same_frame_distance(
    a: &ProcessedPosition,
    b: &ProcessedPosition,
    there: Frame,
    back: Frame,
    within: Scalar,
    across_there: Scalar,
    across_back: Scalar,
)
    requires
        a.container_name@ == b.container_name@,
    ensures
        sighting_of(a, b.local_coordinates, b.container_name@, there).distance_of(
            within,
            across_there,
        ) == within,
        sighting_of(b, a.local_coordinates, a.container_name@, back).distance_of(
            within,
            across_back,
        ) == within,
{
}

/// Between two positions held by different bodies the distance that counts
/// is the length across frames, and the sighting that it is measured by
/// carries the observer's absolute position and the observer's own time, not
/// the observer's place in its frame alone nor a time kept with the target.
pub proof fn lemma_cross_frame_distance(
    observer: &ProcessedPosition,
    target_local: Vec3d,
    target_container: Seq<char>,
    frame: Frame,
    within: Scalar,
    across: Scalar,
)
    requires
        observer.container_name@ != target_container,
    ensures
        sighting_of(observer, target_local, target_container, frame).distance_of(within, across)
            == across,
        sighting_of(observer, target_local, target_container, frame).observer_absolute
            == observer.space_time_position.coordinates,
        sighting_of(observer, target_local, target_container, frame).time_elapsed
            == observer.time_elapsed,
        sighting_of(observer, target_local, target_container, frame).target_frame == frame,
{
}

/// Two positions held by one body see each other by the same rule, and each
/// sees the other's place where the other sees its own: the line between them
/// is the same line, walked the other way.
pub proof fn lemma_same_frame_sightings_mirror(
    a: &ProcessedPosition,
    b: &ProcessedPosition,
    frame: Frame,
)
    requires
        a.container_name@ == b.container_name@,
    ensures
        sighting_of(a, b.local_coordinates, b.container_name@, frame).same_frame,
        sighting_of(b, a.local_coordinates, a.container_name@, frame).same_frame,
        sighting_of(a, b.local_coordinates, b.container_name@, frame).target_local == sighting_of(
            b,
            a.local_coordinates,
            a.container_name@,
            frame,
        ).observer_local,
        sighting_of(a, b.local_coordinates, b.container_name@, frame).observer_local
            == sighting_of(b, a.local_coordinates, a.container_name@, frame).target_local,
{
}

} // verus!
