//! The state of one navigation session: the catalogue, the positions seen so
//! far, the paths and the targets, with the operations that the display
//! drives them by.

use crate::catalog::space_name;
use crate::catalog::Database;
use crate::catalog::NotFound;
use crate::catalog::OldContainer;
use crate::catalog::OldPoi;
use crate::display::random_color32;
use crate::names::same_name;
use crate::navigation::Fix;
use crate::navigation::Sighting;
use crate::name_map::NameMap;
use crate::path::last_named;
use crate::path::span;
use crate::path::Path;
use crate::position::Geodetic;
use crate::position::ProcessedPosition;
use crate::position::SpaceTimePosition;
use crate::scalar::Scalar;
use crate::scalar::NAN_BITS;
use crate::scalar::PI_BITS;
use crate::target::Target;
use crate::vector::Vec3d;
use vstd::prelude::*;
use vstd::string::StringExecFns;

verus! {

/// The paths of a session by name.
pub type Paths = NameMap<Path>;

/// The targets of a session, in the order in which they were added.
pub type Targets = Vec<Target>;

/// The state of one session.
pub struct MyEguiApp {
    /// The sample that was taken in last.
    pub space_time_position: SpaceTimePosition,
    /// Name under which a path is exported or imported.
    pub path_name_io: String,
    pub database: Database,
    /// Bearing from the position before the last to the last.
    pub current_heading: Scalar,
    /// Index, counted from zero, of the position that distances and bearings
    /// are measured from; there is none while it lies past the positions
    /// seen.
    pub global_history_index: usize,
    /// Every position that was taken in or brought back into focus.
    pub global_history: Vec<ProcessedPosition>,
    pub global_history_widget: bool,
    pub global_paths: Paths,
    /// New positions are added to the selected path.
    pub path_add_point: bool,
    /// Name of the selected path.
    pub path_selector: String,
    pub global_targets: Targets,
    pub target_selector_poi: String,
    pub target_selector_container: String,
}

/// What became of a path that was to be evicted.
#[derive(Clone, Copy, Debug, PartialEq, Eq, Structural)]
pub enum Eviction {
    /// There is no path of that name.
    Missing,
    /// The path was emptied and stays.
    Cleared,
    /// The path was removed.
    Removed,
}

/// `after` is `before` with the highlight on the last point called `name`,
/// where there is one, and `before` itself else.
pub open spec fn highlighted_by_name(before: Path, after: Path, name: Seq<char>) -> bool {
    let k = last_named(before.history@, name, before.history@.len() as int);
    &&& after.same_track(&before)
    &&& after.current_index == if k > 0 {
        k
    } else {
        before.current_index as int
    }
}

/// The last point called `name` of the last of the first `upto` paths that
/// has one.
pub open spec fn focus_of(paths: Seq<Path>, name: Seq<char>, upto: int) -> Option<
    ProcessedPosition,
>
    decreases upto,
{
    if upto <= 0 {
        None
    } else if upto <= paths.len() && last_named(
        paths[upto - 1].history@,
        name,
        paths[upto - 1].history@.len() as int,
    ) > 0 {
        Some(
            paths[upto - 1].history@[last_named(
                paths[upto - 1].history@,
                name,
                paths[upto - 1].history@.len() as int,
            ) - 1],
        )
    } else {
        focus_of(paths, name, upto - 1)
    }
}

/// The name of the path that holds the live trail.
pub open spec fn self_name() -> Seq<char> {
    "Self"@
}

/// `after` is `before` with `point` appended and highlighted.
pub open spec fn path_gained(before: &Path, after: &Path, point: ProcessedPosition) -> bool {
    &&& after.trail() == before.trail().add(point)
    &&& after.same_display(before)
    &&& after.same_figures(before)
}

/// The two collections hold the same names, and the same path under each
/// but the one at index `i`.
pub open spec fn paths_differ_at(before: &Paths, after: &Paths, i: int) -> bool {
    &&& after.names() == before.names()
    &&& after.items().len() == before.items().len()
    &&& forall|j: int|
        0 <= j < before.items().len() && j != i ==> #[trigger] after.items()[j]
            == before.items()[j]
}

impl MyEguiApp {
    /// The selections of the display agree.
    pub open spec fn same_selection(&self, other: &MyEguiApp) -> bool {
        &&& self.path_name_io == other.path_name_io
        &&& self.global_history_widget == other.global_history_widget
        &&& self.path_add_point == other.path_add_point
        &&& self.path_selector == other.path_selector
        &&& self.target_selector_poi == other.target_selector_poi
        &&& self.target_selector_container == other.target_selector_container
    }

    /// The catalogues hold the same bodies.
    pub open spec fn same_catalog(&self, other: &MyEguiApp) -> bool {
        &&& self.database.names() == other.database.names()
        &&& self.database.items() == other.database.items()
    }

    /// The paths are the same.
    pub open spec fn same_paths(&self, other: &MyEguiApp) -> bool {
        &&& self.global_paths.names() == other.global_paths.names()
        &&& self.global_paths.items() == other.global_paths.items()
    }

    /// The targets are the same.
    pub open spec fn same_targets(&self, other: &MyEguiApp) -> bool {
        self.global_targets@ == other.global_targets@
    }

    /// The positions seen, and the one that is measured from, are the same.
    pub open spec fn same_history(&self, other: &MyEguiApp) -> bool {
        &&& self.global_history@ == other.global_history@
        &&& self.global_history_index == other.global_history_index
    }

    /// The last sample and the heading agree.
    pub open spec fn same_course(&self, other: &MyEguiApp) -> bool {
        &&& self.space_time_position == other.space_time_position
        &&& self.current_heading == other.current_heading
    }

    /// Everything but the paths agrees.
    pub open spec fn same_but_paths(&self, other: &MyEguiApp) -> bool {
        &&& self.same_selection(other)
        &&& self.same_course(other)
        &&& self.same_catalog(other)
        &&& self.same_targets(other)
        &&& self.same_history(other)
    }

    /// The position that distances and bearings are measured from, if any.
    pub open spec fn live(&self) -> Option<ProcessedPosition> {
        if self.global_history_index < self.global_history@.len() {
            Some(self.global_history@[self.global_history_index as int])
        } else {
            None
        }
    }

    /// The paths after `point` was recorded: appended to the selected path
    /// and highlighted there, where points are being added and the selected
    /// path exists; as they were, where not.
    pub open spec fn paths_took(&self, before: &MyEguiApp, point: ProcessedPosition) -> bool {
        if before.path_add_point && before.global_paths.contains(before.path_selector@) {
            let i = before.global_paths.position(before.path_selector@);
            &&& paths_differ_at(&before.global_paths, &self.global_paths, i)
            &&& path_gained(&before.global_paths.items()[i], &self.global_paths.items()[i], point)
        } else {
            self.same_paths(before)
        }
    }

    /// A session on `database`: no position yet, no target, and the one empty
    /// path of the live trail, selected and taking new positions.
    pub fn new(database: Database) -> (app: MyEguiApp)
        ensures
            app.database == database,
            app.space_time_position == SpaceTimePosition::start(),
            app.current_heading.bits == NAN_BITS,
            app.global_history@.len() == 0,
            app.global_history_index == 0,
            !app.global_history_widget,
            app.global_paths.names() == seq![self_name()],
            app.global_paths.contains(self_name()),
            app.global_paths.position(self_name()) == 0,
            app.global_paths.items().len() == 1,
            app.global_paths.items()[0].name@ == self_name(),
            app.global_paths.items()[0].history@.len() == 0,
            app.global_paths.items()[0].current_index == 0,
            app.global_targets@.len() == 0,
            app.path_add_point,
            app.path_selector@ == self_name(),
            app.path_name_io@.len() == 0,
            app.target_selector_poi@.len() == 0,
            app.target_selector_container@.len() == 0,
    {
        let mut global_paths: Paths = NameMap::new();
        global_paths.insert(String::from_str("Self"), Path::new(String::from_str("Self")));
        proof {
            crate::name_map::lemma_slot_bounds(Seq::<Seq<char>>::empty(), self_name(), 0);
            assert(global_paths.names() =~= seq![self_name()]);
            assert(global_paths.names()[0] == self_name());
        }
        MyEguiApp {
            space_time_position: SpaceTimePosition::default(),
            path_name_io: String::new(),
            database,
            current_heading: Scalar::undefined(),
            global_history_index: 0,
            global_history: Vec::new(),
            global_history_widget: false,
            global_paths,
            path_add_point: true,
            path_selector: String::from_str("Self"),
            global_targets: Vec::new(),
            target_selector_poi: String::new(),
            target_selector_container: String::new(),
        }
    }

    /// Adds a copy of `position` to the end of the positions seen and makes
    /// it the one that distances and bearings are measured from.
    pub fn add_to_global(&mut self, position: &ProcessedPosition)
        ensures
            final(self).global_history@ == old(self).global_history@.push(*position),
            final(self).global_history_index == old(self).global_history@.len(),
            final(self).live() == Some(*position),
            final(self).same_selection(old(self)),
            final(self).same_course(old(self)),
            final(self).same_catalog(old(self)),
            final(self).same_paths(old(self)),
            final(self).same_targets(old(self)),
    {
        self.global_history.push(position.clone());
        self.global_history_index = self.global_history.len() - 1;
    }

    /// The position that distances and bearings are measured from.
    pub fn live_point(&self) -> (r: Option<&ProcessedPosition>)
        ensures
            match r {
                Some(p) => self.live() == Some(*p),
                None => self.live() is None,
            },
    {
        if self.global_history_index < self.global_history.len() {
            Some(&self.global_history[self.global_history_index])
        } else {
            None
        }
    }

    /// Takes `sample` in if its coordinates differ, as numbers, from those of
    /// the sample taken in last, and says whether it did.
    pub fn accept_sample(&mut self, sample: SpaceTimePosition) -> (taken: bool)
        ensures
            taken == !sample.coordinates.same_point(old(self).space_time_position.coordinates),
            final(self).space_time_position == if taken {
                sample
            } else {
                old(self).space_time_position
            },
            final(self).current_heading == old(self).current_heading,
            final(self).same_selection(old(self)),
            final(self).same_history(old(self)),
            final(self).same_catalog(old(self)),
            final(self).same_paths(old(self)),
            final(self).same_targets(old(self)),
    {
        if sample.coordinates.equals(&self.space_time_position.coordinates) {
            false
        } else {
            self.space_time_position = sample;
            true
        }
    }

    /// Records `position`: it joins the positions seen, becomes the one that
    /// distances and bearings are measured from, and, where points are being
    /// added and the selected path exists, is appended to that path and
    /// highlighted there.
    pub fn record(&mut self, position: ProcessedPosition)
        ensures
            final(self).global_history@ == old(self).global_history@.push(position),
            final(self).global_history_index == old(self).global_history@.len(),
            final(self).live() == Some(position),
            final(self).paths_took(old(self), position),
            final(self).same_selection(old(self)),
            final(self).same_course(old(self)),
            final(self).same_catalog(old(self)),
            final(self).same_targets(old(self)),
    {
        self.add_to_global(&position);
        if self.path_add_point {
            match self.global_paths.locate(self.path_selector.as_str()) {
                Ok(i) => {
                    let mut path = self.global_paths.replace_at(i, Path::new(String::new()));
                    path.add_point(position);
                    self.global_paths.replace_at(i, path);
                    assert(self.global_paths.items() =~= old(self).global_paths.items().update(
                        i as int,
                        self.global_paths.items()[i as int],
                    ));
                },
                Err(_) => {},
            }
        }
    }

    /// Takes in the position derived from the sample that was accepted last.
    /// `container` is the body that holds the sample, and
    /// `local_coordinates`, `time_elapsed` and `measured` are what the caller
    /// derived from the sample for its frame. The position is built as
    /// [`ProcessedPosition::observe`] does and recorded as
    /// [`MyEguiApp::record`] does.
    pub fn new_coordinates_input(
        &mut self,
        container: &OldContainer,
        local_coordinates: Vec3d,
        time_elapsed: Scalar,
        measured: Geodetic,
        name: String,
    )
        ensures
            final(self).global_history@ == old(self).global_history@.push(
                ProcessedPosition::observation(
                    old(self).space_time_position,
                    container,
                    local_coordinates,
                    time_elapsed,
                    measured,
                    name,
                ),
            ),
            final(self).global_history_index == old(self).global_history@.len(),
            final(self).paths_took(
                old(self),
                ProcessedPosition::observation(
                    old(self).space_time_position,
                    container,
                    local_coordinates,
                    time_elapsed,
                    measured,
                    name,
                ),
            ),
            final(self).same_selection(old(self)),
            final(self).same_course(old(self)),
            final(self).same_catalog(old(self)),
            final(self).same_targets(old(self)),
    {
        let position = ProcessedPosition::observe(
            self.space_time_position,
            container,
            local_coordinates,
            time_elapsed,
            measured,
            name,
        );
        self.record(position);
    }

    /// The latitude that a point picked on the map is recorded with: the one
    /// picked, limited to `[-pi, pi]`.
    pub fn clamp_latitude(latitude: Scalar) -> (r: Scalar)
        ensures
            r == latitude.clamped(Scalar { bits: MINUS_PI_BITS }, Scalar { bits: PI_BITS }),
            latitude.nan() ==> r == latitude,
            !latitude.nan() ==> (Scalar { bits: MINUS_PI_BITS }).at_most(r) && r.at_most(
                Scalar { bits: PI_BITS },
            ),
    {
        latitude.clamp(Scalar::from_bits(MINUS_PI_BITS), Scalar::from_bits(PI_BITS))
    }

    /// The position that stands for a point picked on the map of the body
    /// that the map shows.
    pub open spec fn picked(
        latitude: Scalar,
        longitude: Scalar,
        local_coordinates: Vec3d,
        timestamp: i64,
        time_elapsed: Scalar,
        name: String,
        r: &ProcessedPosition,
    ) -> bool {
        let zero = Scalar { bits: 0 };
        &&& r.space_time_position == (SpaceTimePosition {
            coordinates: Vec3d { x: zero, y: zero, z: zero },
            timestamp,
        })
        &&& r.local_coordinates == local_coordinates
        &&& r.time_elapsed == time_elapsed
        &&& r.container_name@ == map_body_name()
        &&& r.name == name
        &&& r.latitude == latitude.clamped(Scalar { bits: MINUS_PI_BITS }, Scalar { bits: PI_BITS })
        &&& r.longitude == longitude
        &&& r.altitude.bits == MAP_ALTITUDE_BITS
        &&& r.color is None
    }

    /// Takes in a point picked on the map at `latitude` and `longitude`, on
    /// the surface of the body that the map shows. `local_coordinates` is the
    /// point in the frame of that body, as the caller derived it from the
    /// limited latitude, the longitude and the surface radius. The position
    /// has no absolute coordinates, and is recorded as
    /// [`MyEguiApp::record`] does.
    pub fn new_coordinates_from_map(
        &mut self,
        latitude: Scalar,
        longitude: Scalar,
        local_coordinates: Vec3d,
        timestamp: i64,
        time_elapsed: Scalar,
        name: String,
    )
        ensures
            final(self).global_history@.len() == old(self).global_history@.len() + 1,
            final(self).global_history@ == old(self).global_history@.push(
                final(self).global_history@.last(),
            ),
            Self::picked(
                latitude,
                longitude,
                local_coordinates,
                timestamp,
                time_elapsed,
                name,
                &final(self).global_history@.last(),
            ),
            final(self).global_history_index == old(self).global_history@.len(),
            final(self).paths_took(old(self), final(self).global_history@.last()),
            final(self).same_selection(old(self)),
            final(self).same_course(old(self)),
            final(self).same_catalog(old(self)),
            final(self).same_targets(old(self)),
    {
        let position = ProcessedPosition {
            space_time_position: SpaceTimePosition { coordinates: Vec3d::origin(), timestamp },
            local_coordinates,
            time_elapsed,
            container_name: String::from_str("Daymar"),
            name,
            latitude: Self::clamp_latitude(latitude),
            longitude,
            altitude: Scalar::from_bits(MAP_ALTITUDE_BITS),
            color: None,
        };
        self.record(position);
    }

    /// The local coordinates of the last two positions seen, which the
    /// current heading is measured between; none while fewer than two
    /// positions were seen.
    pub fn heading_pair(&self) -> (r: Option<(Vec3d, Vec3d)>)
        ensures
            self.global_history@.len() < 2 ==> r is None,
            self.global_history@.len() >= 2 ==> r == Some(
                (
                    self.global_history@[self.global_history@.len() - 2].local_coordinates,
                    self.global_history@[self.global_history@.len() - 1].local_coordinates,
                ),
            ),
    {
        let n = self.global_history.len();
        if n > 1 {
            Some(
                (self.global_history[n - 2].local_coordinates, self.global_history[n
                    - 1].local_coordinates),
            )
        } else {
            None
        }
    }

    /// Makes the position at index `i` of the positions seen, counted from
    /// zero, the one that distances and bearings are measured from. With an
    /// index past the end there is none to measure from.
    pub fn focus_history(&mut self, i: usize)
        ensures
            final(self).global_history_index == i,
            final(self).live() == if i < old(self).global_history@.len() {
                Some(old(self).global_history@[i as int])
            } else {
                None
            },
            final(self).global_history@ == old(self).global_history@,
            final(self).same_selection(old(self)),
            final(self).same_course(old(self)),
            final(self).same_catalog(old(self)),
            final(self).same_paths(old(self)),
            final(self).same_targets(old(self)),
    {
        self.global_history_index = i;
    }

    /// Drops the position at index `i` from the positions seen and returns
    /// it. The index of the position that is measured from stays as it is, so
    /// that it names the position that moved up into its place, or none.
    pub fn evict_from_history(&mut self, i: usize) -> (removed: Option<ProcessedPosition>)
        ensures
            i < old(self).global_history@.len() ==> removed == Some(
                old(self).global_history@[i as int],
            ) && final(self).global_history@ == old(self).global_history@.remove(i as int),
            i >= old(self).global_history@.len() ==> removed is None,
            i >= old(self).global_history@.len() ==> final(self).global_history@ == old(self).global_history@,
            final(self).global_history_index == old(self).global_history_index,
            final(self).same_selection(old(self)),
            final(self).same_course(old(self)),
            final(self).same_catalog(old(self)),
            final(self).same_paths(old(self)),
            final(self).same_targets(old(self)),
    {
        if i < self.global_history.len() {
            Some(self.global_history.remove(i))
        } else {
            None
        }
    }

    fn take_path(&mut self, i: usize) -> (path: Path)
        requires
            i < old(self).global_paths.items().len(),
        ensures
            path == old(self).global_paths.items()[i as int],
            paths_differ_at(&old(self).global_paths, &final(self).global_paths, i as int),
            final(self).same_but_paths(old(self)),
    {
        let path = self.global_paths.replace_at(i, Path::new(String::new()));
        path
    }

    fn put_path(&mut self, i: usize, path: Path)
        requires
            i < old(self).global_paths.items().len(),
        ensures
            final(self).global_paths.items()[i as int] == path,
            paths_differ_at(&old(self).global_paths, &final(self).global_paths, i as int),
            final(self).same_but_paths(old(self)),
    {
        self.global_paths.replace_at(i, path);
    }

    /// What an operation on the path called `name` leaves behind: with such
    /// a path, `Ok` and a change to that path alone; without, the error that
    /// names it and no change.
    pub open spec fn on_path<T>(
        &self,
        before: &MyEguiApp,
        name: Seq<char>,
        r: Result<T, NotFound>,
    ) -> bool {
        &&& self.same_but_paths(before)
        &&& before.global_paths.contains(name) ==> r is Ok && paths_differ_at(
            &before.global_paths,
            &self.global_paths,
            before.global_paths.position(name),
        )
        &&& !before.global_paths.contains(name) ==> r is Err && r->Err_0 is Path
            && r->Err_0.key() == name && self.same_paths(before)
    }

    /// The path called `name` before an operation.
    pub open spec fn path_before(before: &MyEguiApp, name: Seq<char>) -> Path {
        before.global_paths.items()[before.global_paths.position(name)]
    }

    /// The path that stands, after an operation, where the one called `name`
    /// stood before.
    pub open spec fn path_after(&self, before: &MyEguiApp, name: Seq<char>) -> Path {
        self.global_paths.items()[before.global_paths.position(name)]
    }

    /// Appends `point` to the path called `path` and highlights it there.
    pub fn add_point_to_path(&mut self, path: &str, point: ProcessedPosition) -> (r: Result<
        (),
        NotFound,
    >)
        ensures
            final(self).on_path(old(self), path@, r),
            r is Ok ==> path_gained(
                &Self::path_before(old(self), path@),
                &final(self).path_after(old(self), path@),
                point,
            ),
    {
        match self.global_paths.locate(path) {
            Ok(i) => {
                let mut p = self.take_path(i);
                p.add_point(point);
                self.put_path(i, p);
                Ok(())
            },
            Err(_) => Err(NotFound::Path(String::from_str(path))),
        }
    }

    /// Highlights the point of number `index`, counted from one, of the path
    /// called `path`; zero removes the highlight, and a number past the end
    /// highlights the last point.
    pub fn set_highlighted_index(&mut self, path: &str, index: usize) -> (r: Result<(), NotFound>)
        ensures
            final(self).on_path(old(self), path@, r),
            r is Ok ==> final(self).path_after(old(self), path@).trail() == Self::path_before(
                old(self),
                path@,
            ).trail().highlight_at(index as nat) && final(self).path_after(
                old(self),
                path@,
            ).same_track(&Self::path_before(old(self), path@)),
    {
        match self.global_paths.locate(path) {
            Ok(i) => {
                let mut p = self.take_path(i);
                p.set_highlighted_index(index);
                self.put_path(i, p);
                Ok(())
            },
            Err(_) => Err(NotFound::Path(String::from_str(path))),
        }
    }

    /// Moves the highlight of the path called `path` one point on, or one
    /// point back; at either end it stays where it is.
    pub fn step_highlight(&mut self, path: &str, forward: bool) -> (r: Result<(), NotFound>)
        ensures
            final(self).on_path(old(self), path@, r),
            r is Ok ==> {
                let before = Self::path_before(old(self), path@);
                let after = final(self).path_after(old(self), path@);
                &&& after.same_track(&before)
                &&& after.trail() == if forward {
                    before.trail().next()
                } else {
                    before.trail().previous()
                }
            },
    {
        match self.global_paths.locate(path) {
            Ok(i) => {
                let mut p = self.take_path(i);
                if forward {
                    p.next();
                } else {
                    p.previous();
                }
                self.put_path(i, p);
                Ok(())
            },
            Err(_) => Err(NotFound::Path(String::from_str(path))),
        }
    }

    /// Gives the point at index `i` of the path called `path` a new name,
    /// and says whether there was such a point.
    pub fn rename_point(&mut self, path: &str, i: usize, name: String) -> (r: Result<
        bool,
        NotFound,
    >)
        ensures
            final(self).on_path(old(self), path@, r),
            r is Ok ==> {
                let before = Self::path_before(old(self), path@);
                let after = final(self).path_after(old(self), path@);
                &&& r->Ok_0 == (i < before.history@.len())
                &&& after.history@ == if i < before.history@.len() {
                    before.history@.update(
                        i as int,
                        (ProcessedPosition { name, ..before.history@[i as int] }),
                    )
                } else {
                    before.history@
                }
                &&& after.current_index == before.current_index
                &&& after.same_display(&before)
                &&& after.same_figures(&before)
            },
    {
        match self.global_paths.locate(path) {
            Ok(i_path) => {
                let mut p = self.take_path(i_path);
                let done = p.rename_point(i, name);
                self.put_path(i_path, p);
                Ok(done)
            },
            Err(_) => Err(NotFound::Path(String::from_str(path))),
        }
    }

    /// Removes the point at index `i` from the path called `path` and returns
    /// it. The highlight keeps its number, limited to the points left.
    pub fn remove_point(&mut self, path: &str, i: usize) -> (r: Result<
        Option<ProcessedPosition>,
        NotFound,
    >)
        ensures
            final(self).on_path(old(self), path@, r),
            r is Ok ==> {
                let before = Self::path_before(old(self), path@);
                let after = final(self).path_after(old(self), path@);
                &&& after.trail() == before.trail().remove(i as int)
                &&& r->Ok_0 == if i < before.history@.len() {
                    Some(before.history@[i as int])
                } else {
                    None
                }
                &&& after.same_display(&before)
                &&& after.same_figures(&before)
            },
    {
        match self.global_paths.locate(path) {
            Ok(i_path) => {
                let mut p = self.take_path(i_path);
                let removed = p.remove_point(i);
                self.put_path(i_path, p);
                Ok(removed)
            },
            Err(_) => Err(NotFound::Path(String::from_str(path))),
        }
    }

    /// Removes the highlighted point from the selected path and returns it.
    /// The highlight keeps its number, limited to the points left, and is
    /// zero once the path is empty.
    pub fn remove_highlighted_point(&mut self) -> (r: Result<Option<ProcessedPosition>, NotFound>)
        ensures
            final(self).on_path(old(self), old(self).path_selector@, r),
            r is Ok ==> {
                let before = Self::path_before(old(self), old(self).path_selector@);
                let after = final(self).path_after(old(self), old(self).path_selector@);
                let k = before.current_index;
                &&& after.trail() == before.trail().remove_highlighted()
                &&& r->Ok_0 == if 1 <= k <= before.history@.len() {
                    Some(before.history@[k - 1])
                } else {
                    None
                }
                &&& after.same_display(&before)
                &&& after.same_figures(&before)
            },
    {
        match self.global_paths.locate(self.path_selector.as_str()) {
            Ok(i_path) => {
                let mut p = self.take_path(i_path);
                let removed = p.remove_highlighted();
                self.put_path(i_path, p);
                Ok(removed)
            },
            Err(_) => Err(NotFound::Path(self.path_selector.clone())),
        }
    }

    /// Exchanges the point at index `i` of the path called `path` with the
    /// one before it, or with the one after it; a point at the end that it
    /// would leave stays where it is.
    pub fn move_point(&mut self, path: &str, i: usize, up: bool) -> (r: Result<(), NotFound>)
        ensures
            final(self).on_path(old(self), path@, r),
            r is Ok ==> {
                let before = Self::path_before(old(self), path@);
                let after = final(self).path_after(old(self), path@);
                &&& after.trail() == before.trail().exchange(
                    if up {
                        i - 1
                    } else {
                        i as int
                    },
                )
                &&& after.same_display(&before)
                &&& after.same_figures(&before)
            },
    {
        match self.global_paths.locate(path) {
            Ok(i_path) => {
                let mut p = self.take_path(i_path);
                if up {
                    p.move_up(i);
                } else {
                    p.move_down(i);
                }
                self.put_path(i_path, p);
                Ok(())
            },
            Err(_) => Err(NotFound::Path(String::from_str(path))),
        }
    }

    /// What the measurement for the path at index `i` of the walk goes by;
    /// see [`Path::sighting`]. Nothing where there is no such path.
    pub fn path_sighting(&self, i: usize) -> (r: Result<Option<Sighting>, NotFound>)
        ensures
            i >= self.global_paths.items().len() ==> r == Ok::<Option<Sighting>, NotFound>(None),
            i < self.global_paths.items().len() ==> {
                let path = self.global_paths.items()[i as int];
                &&& self.live() is None || path.history@.len() == 0 ==> r == Ok::<
                    Option<Sighting>,
                    NotFound,
                >(None)
                &&& self.live() is Some && path.history@.len() > 0 ==> match crate::navigation::sighted(
                    &self.live()->0,
                    path.history@[path.aim()].local_coordinates,
                    path.history@[path.aim()].container_name@,
                    &self.database,
                ) {
                    Some(s) => r == Ok::<Option<Sighting>, NotFound>(Some(s)),
                    None => r is Err && r->Err_0 is Container && r->Err_0.key()
                        == path.history@[path.aim()].container_name@,
                }
            },
    {
        if i < self.global_paths.len() {
            self.global_paths.value_at(i).sighting(&self.database, self.live_point())
        } else {
            Ok(None)
        }
    }

    /// Takes over the figures of one tick for the path at index `i` of the
    /// walk, as [`Path::update`] does, and says whether there is such a path.
    pub fn update_path(&mut self, i: usize, length: Scalar, fix: Option<Fix>) -> (done: bool)
        ensures
            done == (i < old(self).global_paths.items().len()),
            final(self).same_but_paths(old(self)),
            !done ==> final(self).same_paths(old(self)),
            done ==> {
                let before = old(self).global_paths.items()[i as int];
                let after = final(self).global_paths.items()[i as int];
                &&& paths_differ_at(&old(self).global_paths, &final(self).global_paths, i as int)
                &&& after.duration == span(before.history@)
                &&& after.length == if before.history@.len() < 2 {
                    Scalar { bits: 0 }
                } else {
                    length
                }
                &&& fix is Some && before.history@.len() > 0 ==> after.current_distance
                    == fix->0.measured_distance() && after.current_heading
                    == fix->0.measured_heading()
                &&& fix is None || before.history@.len() == 0 ==> after.current_distance
                    == before.current_distance && after.current_heading == before.current_heading
                &&& after.history@ == before.history@
                &&& after.current_index == before.current_index
                &&& after.same_display(&before)
            },
    {
        if i < self.global_paths.len() {
            let mut p = self.take_path(i);
            p.update(length, fix);
            self.put_path(i, p);
            true
        } else {
            false
        }
    }

    /// Evicts the path called `name`. A path that still has points is emptied
    /// and stays, and so does the path of the live trail, whatever it holds;
    /// any other path that is already empty is removed.
    pub fn remove_path(&mut self, name: &str) -> (r: Eviction)
        ensures
            final(self).same_but_paths(old(self)),
            !old(self).global_paths.contains(name@) ==> r == Eviction::Missing && final(self).same_paths(old(self)),
            old(self).global_paths.contains(name@) ==> {
                let i = old(self).global_paths.position(name@);
                let before = old(self).global_paths.items()[i];
                if before.history@.len() == 0 && name@ != self_name() {
                    &&& r == Eviction::Removed
                    &&& final(self).global_paths.names() == old(self).global_paths.names().remove(i)
                    &&& final(self).global_paths.items() == old(self).global_paths.items().remove(i)
                } else {
                    let after = final(self).global_paths.items()[i];
                    &&& r == Eviction::Cleared
                    &&& paths_differ_at(&old(self).global_paths, &final(self).global_paths, i)
                    &&& after.trail() == before.trail().clear()
                    &&& after.same_display(&before)
                    &&& after.same_figures(&before)
                }
            },
    {
        match self.global_paths.locate(name) {
            Ok(i) => {
                let empty = self.global_paths.value_at(i).history.len() == 0;
                if empty && !same_name(name, "Self") {
                    self.global_paths.remove(name);
                    Eviction::Removed
                } else {
                    let mut p = self.take_path(i);
                    p.clear();
                    self.put_path(i, p);
                    Eviction::Cleared
                }
            },
            Err(_) => Eviction::Missing,
        }
    }

    /// Puts a path called `name` that holds `history`, without a highlight
    /// and in a random colour, among the paths, in the place of any path of
    /// that name.
    pub fn import_path(&mut self, name: String, history: Vec<ProcessedPosition>)
        ensures
            final(self).same_but_paths(old(self)),
            final(self).global_paths.contains(name@),
            ({
                let path = final(self).global_paths.value_of(name@);
                &&& path.name == name
                &&& path.history@ == history@
                &&& path.current_index == 0
                &&& path.map_color.a == 255
            }),
            forall|n: Seq<char>|
                n != name@ ==> final(self).global_paths.contains(n) == old(self).global_paths.contains(n),
            forall|n: Seq<char>|
                n != name@ && old(self).global_paths.contains(n) ==> final(self).global_paths.value_of(n) == old(self).global_paths.value_of(n),
    {
        let mut path = Path::new(name.clone());
        path.map_color = random_color32();
        path.history = history;
        self.global_paths.insert(name, path);
    }

    /// Starts watching the point of interest `poi` of the body `container`.
    /// `place` is the point's latitude, longitude and altitude as the caller
    /// measured them. Fails, changing nothing, where the catalogue lacks the
    /// body, the point on it, or the body that the point names as its owner.
    pub fn add_target(&mut self, container: &str, poi: &str, place: Geodetic) -> (r: Result<
        (),
        NotFound,
    >)
        ensures
            final(self).same_selection(old(self)),
            final(self).same_course(old(self)),
            final(self).same_catalog(old(self)),
            final(self).same_paths(old(self)),
            final(self).same_history(old(self)),
            r is Err ==> final(self).same_targets(old(self)),
            !old(self).database.contains(container@) ==> r is Err && r->Err_0 is Container
                && r->Err_0.key() == container@,
            old(self).database.contains(container@) && !old(self).database.value_of(
                container@,
            ).poi.contains(poi@) ==> r is Err && r->Err_0 is Poi && r->Err_0.key() == poi@,
            old(self).database.contains(container@) && old(self).database.value_of(
                container@,
            ).poi.contains(poi@) ==> {
                let subject = old(self).database.value_of(container@).poi.value_of(poi@);
                if old(self).database.contains(subject.container@) {
                    &&& r is Ok
                    &&& final(self).global_targets@.len() == old(self).global_targets@.len() + 1
                    &&& final(self).global_targets@ == old(self).global_targets@.push(
                        final(self).global_targets@.last(),
                    )
                    &&& crate::position::poi_as_position(
                        &subject,
                        place,
                        &final(self).global_targets@.last().current_point,
                    )
                    &&& final(self).global_targets@.last().widget_open
                    &&& final(self).global_targets@.last().current_distance.bits == NAN_BITS
                    &&& final(self).global_targets@.last().current_heading.bits == NAN_BITS
                } else {
                    r is Err && r->Err_0 is Container && r->Err_0.key() == subject.container@
                }
            },
    {
        let made = match crate::catalog::find_poi(&self.database, container, poi) {
            Ok(subject) => Target::new(subject, &self.database, place),
            Err(e) => Err(e),
        };
        match made {
            Ok(target) => {
                self.global_targets.push(target);
                Ok(())
            },
            Err(e) => Err(e),
        }
    }

    /// Stops watching the target at index `i` and returns it.
    pub fn remove_target(&mut self, i: usize) -> (removed: Option<Target>)
        ensures
            i < old(self).global_targets@.len() ==> removed == Some(
                old(self).global_targets@[i as int],
            ) && final(self).global_targets@ == old(self).global_targets@.remove(i as int),
            i >= old(self).global_targets@.len() ==> removed is None && final(self).same_targets(
                old(self),
            ),
            final(self).same_selection(old(self)),
            final(self).same_course(old(self)),
            final(self).same_catalog(old(self)),
            final(self).same_paths(old(self)),
            final(self).same_history(old(self)),
    {
        if i < self.global_targets.len() {
            Some(self.global_targets.remove(i))
        } else {
            None
        }
    }

    /// Takes over what was measured for the target at index `i`, as
    /// [`Target::update`] does, and says whether there is such a target.
    pub fn update_target(&mut self, i: usize, fix: Option<Fix>) -> (done: bool)
        ensures
            done == (i < old(self).global_targets@.len()),
            final(self).global_targets@.len() == old(self).global_targets@.len(),
            forall|j: int|
                0 <= j < old(self).global_targets@.len() && j != i ==> final(self).global_targets@[j] == old(self).global_targets@[j],
            done ==> {
                let before = old(self).global_targets@[i as int];
                let after = final(self).global_targets@[i as int];
                &&& after.same_subject(&before)
                &&& after.current_distance == if fix is Some {
                    fix->0.measured_distance()
                } else {
                    before.current_distance
                }
                &&& after.current_heading == if fix is Some {
                    fix->0.measured_heading()
                } else {
                    before.current_heading
                }
            },
            final(self).same_selection(old(self)),
            final(self).same_course(old(self)),
            final(self).same_catalog(old(self)),
            final(self).same_paths(old(self)),
            final(self).same_history(old(self)),
    {
        if i < self.global_targets.len() {
            let mut target = self.global_targets.remove(i);
            target.update(fix);
            self.global_targets.insert(i, target);
            true
        } else {
            false
        }
    }

    /// What the measurement for the target at index `i` goes by; see
    /// [`Target::sighting`]. Nothing where there is no such target.
    pub fn target_sighting(&self, i: usize) -> (r: Result<Option<Sighting>, NotFound>)
        ensures
            i >= self.global_targets@.len() || self.live() is None ==> r == Ok::<
                Option<Sighting>,
                NotFound,
            >(None),
            i < self.global_targets@.len() && self.live() is Some ==> match crate::navigation::sighted(
                &self.live()->0,
                self.global_targets@[i as int].current_point.local_coordinates,
                self.global_targets@[i as int].current_point.container_name@,
                &self.database,
            ) {
                Some(s) => r == Ok::<Option<Sighting>, NotFound>(Some(s)),
                None => r is Err && r->Err_0 is Container && r->Err_0.key()
                    == self.global_targets@[i as int].current_point.container_name@,
            },
    {
        if i < self.global_targets.len() {
            self.global_targets[i].sighting(&self.database, self.live_point())
        } else {
            Ok(None)
        }
    }

    /// Saves the highlighted point of the selected path as a point of
    /// interest of the user's own: builds it as [`save_to_poi`] does, adds it
    /// to the catalogue as [`add_custom_poi`] does, and returns it. Returns
    /// nothing where no point is highlighted. Fails, leaving the catalogue
    /// as it is, where the selected path does not exist or the catalogue
    /// lacks the body of the point.
    ///
    /// [`save_to_poi`]: crate::position::save_to_poi
    /// [`add_custom_poi`]: crate::catalog::add_custom_poi
    pub fn save_point_as_custom_poi(&mut self) -> (r: Result<Option<OldPoi>, NotFound>)
        ensures
            final(self).same_selection(old(self)),
            final(self).same_course(old(self)),
            final(self).same_paths(old(self)),
            final(self).same_targets(old(self)),
            final(self).same_history(old(self)),
            crate::catalog::same_bodies(&old(self).database, &final(self).database),
            !old(self).global_paths.contains(old(self).path_selector@) ==> r is Err
                && r->Err_0 is Path && r->Err_0.key() == old(self).path_selector@ && final(self).same_catalog(old(self)),
            old(self).global_paths.contains(old(self).path_selector@) ==> {
                let path = old(self).global_paths.value_of(old(self).path_selector@);
                if 1 <= path.current_index <= path.history@.len() {
                    let point = path.history@[path.current_index - 1];
                    if r is Ok {
                        let poi = r->Ok_0->0;
                        let i = old(self).database.position(poi.container@);
                        &&& r->Ok_0 is Some
                        &&& crate::position::position_as_poi(&point, &poi)
                        &&& old(self).database.contains(poi.container@)
                        &&& final(self).database.items()[i].pois() == old(self).database.items()[i].pois().insert(poi.name@, poi)
                        &&& forall|j: int|
                            0 <= j < old(self).database.items().len() && j != i ==> (
                            #[trigger] final(self).database.items()[j]).pois() == old(self).database.items()[j].pois()
                    } else {
                        &&& r->Err_0 is Container
                        &&& !old(self).database.contains(r->Err_0.key())
                        &&& r->Err_0.key() == if point.container_name@ == space_name()
                            || point.container_name@.len() == 0 {
                            space_name()
                        } else {
                            point.container_name@
                        }
                        &&& final(self).same_catalog(old(self))
                    }
                } else {
                    r == Ok::<Option<OldPoi>, NotFound>(None) && final(self).same_catalog(old(self))
                }
            },
    {
        let made = match self.global_paths.get(self.path_selector.as_str()) {
            Some(path) => match path.highlighted() {
                Some(point) => Ok(Some(crate::position::save_to_poi(point))),
                None => Ok(None),
            },
            None => Err(NotFound::Path(self.path_selector.clone())),
        };
        match made {
            Ok(Some(poi)) => {
                let kept = poi.clone();
                match crate::catalog::add_custom_poi(&mut self.database, poi) {
                    Ok(_) => Ok(Some(kept)),
                    Err(e) => Err(e),
                }
            },
            Ok(None) => Ok(None),
            Err(e) => Err(e),
        }
    }

    /// Highlights, in every path, the last point that is called `name`, and
    /// brings the last of these points, in the order of the walk, back into
    /// focus: a copy of it joins the positions seen and becomes the one that
    /// distances and bearings are measured from. Says whether there was such
    /// a point.
    pub fn select_point_named(&mut self, name: &str) -> (found: bool)
        ensures
            final(self).same_selection(old(self)),
            final(self).same_course(old(self)),
            final(self).same_catalog(old(self)),
            final(self).same_targets(old(self)),
            final(self).global_paths.names() == old(self).global_paths.names(),
            final(self).global_paths.items().len() == old(self).global_paths.items().len(),
            forall|j: int|
                0 <= j < old(self).global_paths.items().len() ==> highlighted_by_name(
                    old(self).global_paths.items()[j],
                    #[trigger] final(self).global_paths.items()[j],
                    name@,
                ),
            found == (focus_of(
                old(self).global_paths.items(),
                name@,
                old(self).global_paths.items().len() as int,
            ) is Some),
            match focus_of(
                old(self).global_paths.items(),
                name@,
                old(self).global_paths.items().len() as int,
            ) {
                Some(point) => final(self).global_history@ == old(self).global_history@.push(point)
                    && final(self).global_history_index == old(self).global_history@.len(),
                None => final(self).same_history(old(self)),
            },
    {
        let mut focused: Option<ProcessedPosition> = None;
        let n = self.global_paths.len();
        let mut i: usize = 0;
        while i < n
            invariant
                i <= n,
                n == old(self).global_paths.items().len(),
                self.same_but_paths(old(self)),
                self.global_paths.names() == old(self).global_paths.names(),
                self.global_paths.items().len() == n,
                forall|j: int|
                    0 <= j < i ==> highlighted_by_name(
                        old(self).global_paths.items()[j],
                        #[trigger] self.global_paths.items()[j],
                        name@,
                    ),
                forall|j: int|
                    i <= j < n ==> #[trigger] self.global_paths.items()[j] == old(
                        self,
                    ).global_paths.items()[j],
                focused == focus_of(old(self).global_paths.items(), name@, i as int),
            decreases n - i,
        {
            let ghost before = *self;
            let mut p = self.take_path(i);
            let ghost mid = *self;
            match p.highlight_named(name) {
                Some(k) => {
                    focused = Some(p.history[k].clone());
                },
                None => {},
            }
            self.put_path(i, p);
            proof {
                crate::path::lemma_last_named(
                    before.global_paths.items()[i as int].history@,
                    name@,
                    before.global_paths.items()[i as int].history@.len() as int,
                );
                assert(before.global_paths.items()[i as int] == old(self).global_paths.items()[i as int]);
                assert forall|j: int| 0 <= j < i + 1 implies highlighted_by_name(
                    old(self).global_paths.items()[j],
                    #[trigger] self.global_paths.items()[j],
                    name@,
                ) by {
                    if j < i {
                        assert(self.global_paths.items()[j] == mid.global_paths.items()[j]);
                        assert(mid.global_paths.items()[j] == before.global_paths.items()[j]);
                    }
                }
                assert forall|j: int| i + 1 <= j < n implies #[trigger] self.global_paths.items()[j]
                    == old(self).global_paths.items()[j] by {
                    assert(self.global_paths.items()[j] == mid.global_paths.items()[j]);
                    assert(mid.global_paths.items()[j] == before.global_paths.items()[j]);
                }
            }
            i += 1;
        }
        match focused {
            Some(point) => {
                self.add_to_global(&point);
                true
            },
            None => false,
        }
    }
}

/// The body whose map the display shows.
pub open spec fn map_body_name() -> Seq<char> {
    "Daymar"@
}

/// Encoding of the double nearest to the circle constant, negated.
pub const MINUS_PI_BITS: u64 = 0xc009_21fb_5444_2d18;

/// Encoding of the surface radius, 295.0, of the body that the map shows.
pub const MAP_ALTITUDE_BITS: u64 = 0x4072_7000_0000_0000;

} // verus!
