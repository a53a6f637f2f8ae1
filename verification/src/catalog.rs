//! The catalogue of bodies and of the points of interest on them.

use crate::name_map::NameMap;
use crate::names::same_name;
use crate::scalar::Scalar;
use crate::vector::Vec3d;
use crate::vector::Vec4d;
use vstd::prelude::*;
use vstd::string::StringExecFns;

verus! {

/// The bodies of the catalogue by name, walked in the order of their names.
pub type Database = NameMap<OldContainer>;

/// A named, fixed location in the frame of the body that owns it.
#[derive(Debug)]
pub struct OldPoi {
    pub name: String,
    pub container: String,
    pub coordinates: Vec3d,
    pub quaternions: Option<Vec4d>,
    pub marker: Option<bool>,
    pub latitude: Option<Scalar>,
    pub longitude: Option<Scalar>,
    pub altitude: Option<Scalar>,
}

/// A body with a rotating frame of its own.
#[derive(Debug)]
pub struct OldContainer {
    pub name: String,
    /// Centre of the body in the absolute frame.
    pub coordinates: Vec3d,
    pub quaternions: Vec4d,
    pub marker: bool,
    /// Radius within three times which a point belongs to this body.
    pub radius_om: Scalar,
    /// Radius of the surface, from which altitude is counted.
    pub radius_body: Scalar,
    pub radius_arrival: Scalar,
    pub time_lines: Scalar,
    /// Hours that one turn of the body takes; zero for a body that does not turn.
    pub rotation_speed: Scalar,
    /// Degrees added to the angle that the elapsed time gives.
    pub rotation_adjust: Scalar,
    pub orbital_radius: Scalar,
    pub orbital_speed: Scalar,
    pub orbital_angle: Scalar,
    pub grid_radius: Scalar,
    pub poi: NameMap<OldPoi>,
}

/// A name that the catalogue was asked for and does not hold.
#[derive(Debug)]
pub enum NotFound {
    /// No body of this name.
    Container(String),
    /// No point of interest of this name on the body that was named.
    Poi(String),
    /// No path of this name.
    Path(String),
}

impl NotFound {
    /// The name that was looked for.
    pub open spec fn key(&self) -> Seq<char> {
        match self {
            NotFound::Container(name) => name@,
            NotFound::Poi(name) => name@,
            NotFound::Path(name) => name@,
        }
    }

    /// What is said of the missing name, before the name itself.
    pub open spec fn complaint(&self) -> Seq<char> {
        match self {
            NotFound::Container(_) => "No body called "@,
            NotFound::Poi(_) => "No point of interest called "@,
            NotFound::Path(_) => "No path called "@,
        }
    }

    /// The error in words: what kind of thing is missing, and its name.
    pub fn message(&self) -> (text: String)
        ensures
            text@ == self.complaint() + self.key(),
    {
        match self {
            NotFound::Container(name) => String::from_str("No body called ").concat(name.as_str()),
            NotFound::Poi(name) => String::from_str("No point of interest called ").concat(
                name.as_str(),
            ),
            NotFound::Path(name) => String::from_str("No path called ").concat(name.as_str()),
        }
    }

    /// The name that was looked for.
    pub fn missing_key(&self) -> (r: &String)
        ensures
            r@ == self.key(),
    {
        match self {
            NotFound::Container(name) => name,
            NotFound::Poi(name) => name,
            NotFound::Path(name) => name,
        }
    }
}

/// The name of the frame of a point that no body holds.
pub open spec fn space_name() -> Seq<char> {
    "Space"@
}

impl Clone for OldPoi {
    fn clone(&self) -> (r: Self)
        ensures
            r == *self,
    {
        OldPoi {
            name: self.name.clone(),
            container: self.container.clone(),
            coordinates: self.coordinates,
            quaternions: self.quaternions,
            marker: self.marker,
            latitude: self.latitude,
            longitude: self.longitude,
            altitude: self.altitude,
        }
    }
}

impl OldContainer {
    /// The two records agree in every field, the points of interest by name
    /// and by value.
    pub open spec fn same(&self, other: &OldContainer) -> bool {
        &&& self.same_body(other)
        &&& self.poi.names() == other.poi.names()
        &&& self.poi.items() == other.poi.items()
    }

    /// The two records agree in every field but the points of interest.
    pub open spec fn same_body(&self, other: &OldContainer) -> bool {
        &&& self.name == other.name
        &&& self.coordinates == other.coordinates
        &&& self.quaternions == other.quaternions
        &&& self.marker == other.marker
        &&& self.radius_om == other.radius_om
        &&& self.radius_body == other.radius_body
        &&& self.radius_arrival == other.radius_arrival
        &&& self.time_lines == other.time_lines
        &&& self.rotation_speed == other.rotation_speed
        &&& self.rotation_adjust == other.rotation_adjust
        &&& self.orbital_radius == other.orbital_radius
        &&& self.orbital_speed == other.orbital_speed
        &&& self.orbital_angle == other.orbital_angle
        &&& self.grid_radius == other.grid_radius
    }

    /// The points of interest of the body by name.
    pub open spec fn pois(&self) -> Map<Seq<char>, OldPoi> {
        self.poi.as_map()
    }

    /// The record is the frame of empty space: named so, at the origin, with
    /// every number a positive zero and no point of interest.
    pub open spec fn is_space(&self) -> bool {
        let zero = Scalar { bits: 0 };
        let origin = Vec3d { x: zero, y: zero, z: zero };
        &&& self.name@ == space_name()
        &&& self.coordinates == origin
        &&& self.quaternions == (Vec4d { w: zero, x: zero, y: zero, z: zero })
        &&& !self.marker
        &&& self.radius_om == zero
        &&& self.radius_body == zero
        &&& self.radius_arrival == zero
        &&& self.time_lines == zero
        &&& self.rotation_speed == zero
        &&& self.rotation_adjust == zero
        &&& self.orbital_radius == zero
        &&& self.orbital_speed == zero
        &&& self.orbital_angle == zero
        &&& self.grid_radius == zero
        &&& self.poi.names().len() == 0
    }

    /// The frame of a point that no body holds.
    pub fn space() -> (r: OldContainer)
        ensures
            r.is_space(),
    {
        let zero = Scalar::zero_value();
        OldContainer {
            name: String::from_str("Space"),
            coordinates: Vec3d::origin(),
            quaternions: Vec4d::new(zero, zero, zero, zero),
            marker: false,
            radius_om: zero,
            radius_body: zero,
            radius_arrival: zero,
            time_lines: zero,
            rotation_speed: zero,
            rotation_adjust: zero,
            orbital_radius: zero,
            orbital_speed: zero,
            orbital_angle: zero,
            grid_radius: zero,
            poi: NameMap::new(),
        }
    }
}

impl Clone for OldContainer {
    fn clone(&self) -> (r: Self)
        ensures
            r.same(self),
    {
        let poi = self.poi.clone();
        assert(poi.items() =~= self.poi.items());
        OldContainer {
            name: self.name.clone(),
            coordinates: self.coordinates,
            quaternions: self.quaternions,
            marker: self.marker,
            radius_om: self.radius_om,
            radius_body: self.radius_body,
            radius_arrival: self.radius_arrival,
            time_lines: self.time_lines,
            rotation_speed: self.rotation_speed,
            rotation_adjust: self.rotation_adjust,
            orbital_radius: self.orbital_radius,
            orbital_speed: self.orbital_speed,
            orbital_angle: self.orbital_angle,
            grid_radius: self.grid_radius,
            poi,
        }
    }
}

/// Whether `name` is the name of empty space.
pub fn is_space_name(name: &str) -> (r: bool)
    ensures
        r == (name@ == space_name()),
{
    same_name(name, "Space")
}

/// Index of the last of the first `upto` flags that is set, or -1 if none is.
pub open spec fn last_marked(flags: Seq<bool>, upto: int) -> int
    decreases upto,
{
    if upto <= 0 {
        -1
    } else if upto - 1 < flags.len() && flags[upto - 1] {
        upto - 1
    } else {
        last_marked(flags, upto - 1)
    }
}

/// `last_marked` is the greatest marked index below `upto`, and -1 exactly
/// when no index below `upto` is marked.
pub proof fn lemma_last_marked(flags: Seq<bool>, upto: int)
    ensures
        -1 <= last_marked(flags, upto),
        last_marked(flags, upto) < upto || upto <= 0,
        last_marked(flags, upto) >= 0 ==> last_marked(flags, upto) < flags.len() && flags[last_marked(
            flags,
            upto,
        )],
        forall|i: int|
            last_marked(flags, upto) < i < upto && 0 <= i < flags.len() ==> !#[trigger] flags[i],
    decreases upto,
{
    if upto > 0 && !(upto - 1 < flags.len() && flags[upto - 1]) {
        lemma_last_marked(flags, upto - 1);
    }
}

/// How far a point lies from the centre of one body, and how far that
/// body's hold reaches: three times its capture radius.
#[derive(Clone, Copy, Debug)]
pub struct Reach {
    pub distance: Scalar,
    pub capture: Scalar,
}

impl Reach {
    /// The body holds the point: the distance is at most the capture range.
    pub open spec fn holds(self) -> bool {
        self.distance.at_most(self.capture)
    }

    /// Whether the body holds the point.
    pub fn is_held(&self) -> (r: bool)
        ensures
            r == self.holds(),
    {
        self.distance.float_le(self.capture)
    }
}

/// For each measurement, whether its body holds the point.
pub open spec fn held(reaches: Seq<Reach>) -> Seq<bool> {
    reaches.map_values(|r: Reach| r.holds())
}

/// The body that holds a point, given for each body of the catalogue, in the
/// order of the walk, the distance of the point from its centre and three
/// times its capture radius. Where several bodies hold the point, the last of
/// them in that order is returned; where none does, the frame of empty space.
/// A body without a measurement does not hold the point.
pub fn get_current_container(reaches: &Vec<Reach>, database: &Database) -> (r: OldContainer)
    ensures
        last_marked(held(reaches@), database.names().len() as int) < 0 ==> r.is_space(),
        last_marked(held(reaches@), database.names().len() as int) >= 0 ==> r.same(
            &database.items()[last_marked(held(reaches@), database.names().len() as int)],
        ),
        (forall|i: int| 0 <= i < reaches@.len() ==> !(#[trigger] reaches@[i]).holds())
            ==> r.is_space(),
{
    let mut found: Option<usize> = None;
    let mut i: usize = 0;
    let n = database.len();
    while i < n
        invariant
            i <= n,
            n == database.names().len(),
            n == database.items().len(),
            match found {
                Some(k) => k as int == last_marked(held(reaches@), i as int),
                None => last_marked(held(reaches@), i as int) == -1,
            },
        decreases n - i,
    {
        if i < reaches.len() && reaches[i].is_held() {
            found = Some(i);
        }
        i += 1;
    }
    proof {
        lemma_last_marked(held(reaches@), n as int);
    }
    match found {
        Some(k) => database.value_at(k).clone(),
        None => OldContainer::space(),
    }
}

/// No body is returned for a point that no body holds: the result is then
/// the frame of empty space.
pub proof fn lemma_unheld_point_is_in_space(flags: Seq<bool>, upto: int)
    requires
        forall|i: int| 0 <= i < flags.len() ==> !#[trigger] flags[i],
    ensures
        last_marked(flags, upto) == -1,
    decreases upto,
{
    if upto > 0 {
        lemma_unheld_point_is_in_space(flags, upto - 1);
    }
}

/// The body of the catalogue that is called `name`.
pub fn find_container<'a>(database: &'a Database, name: &str) -> (r: Result<
    &'a OldContainer,
    NotFound,
>)
    ensures
        database.contains(name@) ==> r is Ok && *r->Ok_0 == database.value_of(name@),
        !database.contains(name@) ==> r is Err && r->Err_0 is Container && r->Err_0.key()
            == name@,
{
    match database.get(name) {
        Some(container) => Ok(container),
        None => Err(NotFound::Container(String::from_str(name))),
    }
}

/// The point of interest `name` of the body `container`.
pub fn find_poi<'a>(database: &'a Database, container: &str, name: &str) -> (r: Result<
    &'a OldPoi,
    NotFound,
>)
    ensures
        !database.contains(container@) ==> r is Err && r->Err_0 is Container && r->Err_0.key()
            == container@,
        database.contains(container@) && !database.value_of(container@).poi.contains(name@)
            ==> r is Err && r->Err_0 is Poi && r->Err_0.key() == name@,
        database.contains(container@) && database.value_of(container@).poi.contains(name@)
            ==> r is Ok && *r->Ok_0 == database.value_of(container@).poi.value_of(name@),
{
    match database.get(container) {
        Some(body) => match body.poi.get(name) {
            Some(poi) => Ok(poi),
            None => Err(NotFound::Poi(String::from_str(name))),
        },
        None => Err(NotFound::Container(String::from_str(container))),
    }
}

/// The catalogues hold the same bodies under the same names, each with the
/// same figures; their points of interest may differ.
pub open spec fn same_bodies(before: &Database, after: &Database) -> bool {
    &&& after.names() == before.names()
    &&& after.items().len() == before.items().len()
    &&& forall|j: int|
        0 <= j < before.items().len() ==> (#[trigger] after.items()[j]).same_body(
            &before.items()[j],
        )
}

/// Adds `poi` to the points of interest of the body that it names as its
/// owner, under its own name. A point of that name on that body is replaced
/// and returned. Fails, leaving the catalogue as it is, where it has no such
/// body.
pub fn add_custom_poi(database: &mut Database, poi: OldPoi) -> (r: Result<Option<OldPoi>, NotFound>)
    ensures
        final(database).wf(),
        same_bodies(old(database), final(database)),
        old(database).contains(poi.container@) ==> {
            let i = old(database).position(poi.container@);
            &&& r is Ok
            &&& final(database).items()[i].pois() == old(database).items()[i].pois().insert(
                poi.name@,
                poi,
            )
            &&& r->Ok_0 == if old(database).items()[i].poi.contains(poi.name@) {
                Some(old(database).items()[i].poi.value_of(poi.name@))
            } else {
                None
            }
            &&& forall|j: int|
                0 <= j < old(database).items().len() && j != i ==> (
                #[trigger] final(database).items()[j]).pois() == old(database).items()[j].pois()
        },
        !old(database).contains(poi.container@) ==> {
            &&& r is Err
            &&& r->Err_0 is Container
            &&& r->Err_0.key() == poi.container@
            &&& final(database).items() == old(database).items()
        },
{
    match database.locate(poi.container.as_str()) {
        Ok(i) => {
            let mut body = database.replace_at(i, OldContainer::space());
            let ghost before = body.pois();
            let name = poi.name.clone();
            let previous = body.poi.insert(name, poi);
            proof {
                assert(body.pois() =~= before.insert(poi.name@, poi));
            }
            database.replace_at(i, body);
            proof {
                assert(final(database).items() =~= old(database).items().update(i as int, body));
            }
            Ok(previous)
        },
        Err(_) => Err(NotFound::Container(poi.container.clone())),
    }
}

/// The points of interest of the body `container` after those of the first
/// `upto` of `pois` that name it as their owner were added in order, each
/// replacing an earlier one of its name.
pub open spec fn merged_pois(
    base: Map<Seq<char>, OldPoi>,
    pois: Seq<OldPoi>,
    container: Seq<char>,
    upto: int,
) -> Map<Seq<char>, OldPoi>
    decreases upto,
{
    if upto <= 0 {
        base
    } else {
        let earlier = merged_pois(base, pois, container, upto - 1);
        if upto <= pois.len() && pois[upto - 1].container@ == container {
            earlier.insert(pois[upto - 1].name@, pois[upto - 1])
        } else {
            earlier
        }
    }
}

/// Adds the user's own points of interest to the catalogue, each to the body
/// that it names as its owner; a later point replaces an earlier one of the
/// same name on the same body. Points whose body the catalogue lacks are
/// left out; their number is returned.
pub fn merge_custom_pois(database: &mut Database, pois: &Vec<OldPoi>) -> (skipped: usize)
    ensures
        final(database).wf(),
        same_bodies(old(database), final(database)),
        forall|j: int|
            0 <= j < old(database).items().len() ==> (#[trigger] final(database).items()[j]).pois()
                == merged_pois(
                old(database).items()[j].pois(),
                pois@,
                old(database).names()[j],
                pois@.len() as int,
            ),
        skipped == unowned(old(database), pois@, pois@.len() as int),
{
    proof {
        use_type_invariant(&*database);
    }
    let mut skipped: usize = 0;
    let mut k: usize = 0;
    while k < pois.len()
        invariant
            k <= pois@.len(),
            database.wf(),
            same_bodies(old(database), database),
            forall|j: int|
                0 <= j < old(database).items().len() ==> (#[trigger] database.items()[j]).pois()
                    == merged_pois(
                    old(database).items()[j].pois(),
                    pois@,
                    old(database).names()[j],
                    k as int,
                ),
            skipped == unowned(old(database), pois@, k as int),
            skipped <= k,
        decreases pois@.len() - k,
    {
        let ghost mid = *database;
        let poi = pois[k].clone();
        proof {
            if mid.contains(poi.container@) {
                crate::name_map::lemma_position(&mid, poi.container@);
            }
        }
        match add_custom_poi(database, poi) {
            Ok(_) => {
                proof {
                    let i = mid.position(poi.container@);
                    assert forall|j: int| 0 <= j < old(database).items().len() implies (
                    #[trigger] database.items()[j]).pois() == merged_pois(
                        old(database).items()[j].pois(),
                        pois@,
                        old(database).names()[j],
                        k + 1,
                    ) by {
                        if j != i {
                            assert(mid.names()[j] != poi.container@);
                        }
                    }
                }
            },
            Err(_) => {
                proof {
                    assert forall|j: int| 0 <= j < old(database).items().len() implies (
                    #[trigger] database.items()[j]).pois() == merged_pois(
                        old(database).items()[j].pois(),
                        pois@,
                        old(database).names()[j],
                        k + 1,
                    ) by {
                        assert(mid.names().contains(mid.names()[j]));
                    }
                }
                skipped = skipped + 1;
            },
        }
        k += 1;
    }
    skipped
}

/// Number of the first `upto` of `pois` whose owner the catalogue lacks.
pub open spec fn unowned(database: &Database, pois: Seq<OldPoi>, upto: int) -> int
    decreases upto,
{
    if upto <= 0 {
        0
    } else {
        unowned(database, pois, upto - 1) + if upto <= pois.len() && !database.contains(
            pois[upto - 1].container@,
        ) {
            1int
        } else {
            0int
        }
    }
}

} // verus!
