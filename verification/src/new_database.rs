//! The catalogue in its tree form: one system that holds every body as a
//! node, each with its points of interest; and the check that the names in
//! the tree lead somewhere.

use crate::catalog::Database;
use crate::catalog::OldContainer;
use crate::catalog::OldPoi;
use crate::name_map::lemma_absent;
use crate::name_map::lemma_prefix_ascending;
use crate::name_map::NameMap;
use crate::names::same_name;
use crate::scalar::Scalar;
use crate::vector::Vec3d;
use crate::vector::Vec4d;
use vstd::prelude::*;
use vstd::string::StringExecFns;

verus! {

/// A named location in the frame of its parent.
#[derive(Debug)]
pub struct PointOfInterest {
    pub name: String,
    /// Name of the container that the point belongs to.
    pub parent: String,
    /// Where the point lies, seen from its parent.
    pub coordinates: Vec3d,
    /// The point has a quantum marker.
    pub marker: bool,
}

/// The root of a tree of containers.
#[derive(Debug)]
pub struct System {
    pub name: String,
    pub pois: Vec<PointOfInterest>,
    /// Names of the containers inside this one.
    pub containers: Vec<String>,
}

/// A container inside another.
#[derive(Debug)]
pub struct Node {
    pub name: String,
    /// Name of the container that this one lies in.
    pub parent: String,
    /// Where the container lies, seen from its parent.
    pub from_parent_coordinates: Vec3d,
    /// How the container is turned against its parent.
    pub from_parent_rotation: Vec4d,
    /// How the container turns about itself.
    pub self_rotation: Vec4d,
    pub rotation_offset: Scalar,
    pub pois: NameMap<PointOfInterest>,
    /// Names of the containers inside this one.
    pub containers: Vec<String>,
}

/// A container of the tree: the root, or one inside another.
#[derive(Debug)]
pub enum Container {
    Node(Node),
    System(System),
}

/// The catalogue in its tree form: every container by name.
#[derive(Debug)]
pub struct NewDatabase {
    pub containers: NameMap<Container>,
}

/// One line of the report on a catalogue.
#[derive(Debug)]
pub enum Remark {
    /// The node of this name is being checked.
    CheckingNode(String),
    /// The system of this name is being checked.
    CheckingSystem(String),
    /// The container `owner` names `missing`, which the catalogue lacks.
    Missing { missing: String, owner: String },
}

/// What a line of the report says.
pub enum RemarkText {
    CheckingNode(Seq<char>),
    CheckingSystem(Seq<char>),
    Missing { missing: Seq<char>, owner: Seq<char> },
}

impl View for Remark {
    type V = RemarkText;

    open spec fn view(&self) -> RemarkText {
        match self {
            Remark::CheckingNode(name) => RemarkText::CheckingNode(name@),
            Remark::CheckingSystem(name) => RemarkText::CheckingSystem(name@),
            Remark::Missing { missing, owner } => RemarkText::Missing {
                missing: missing@,
                owner: owner@,
            },
        }
    }
}

impl NewDatabase {
    /// A catalogue without containers.
    pub fn new() -> (r: NewDatabase)
        ensures
            r.containers.names().len() == 0,
            r.containers.wf(),
    {
        NewDatabase { containers: NameMap::new() }
    }

    /// The lines on those of the first `upto` of `children`, named by the
    /// container `owner`, that the catalogue lacks, in their order.
    pub open spec fn missing_children(
        &self,
        owner: Seq<char>,
        children: Seq<String>,
        upto: int,
    ) -> Seq<RemarkText>
        decreases upto,
    {
        if upto <= 0 {
            Seq::empty()
        } else {
            let earlier = self.missing_children(owner, children, upto - 1);
            if upto <= children.len() && !self.containers.contains(children[upto - 1]@) {
                earlier.push(RemarkText::Missing { missing: children[upto - 1]@, owner })
            } else {
                earlier
            }
        }
    }

    /// The lines on the container held under `key`: that it is being
    /// checked; for a node, its parent where the catalogue lacks it; and the
    /// containers inside it that the catalogue lacks.
    pub open spec fn container_remarks(&self, key: Seq<char>, container: &Container) -> Seq<
        RemarkText,
    > {
        match container {
            Container::Node(node) => {
                let head = seq![RemarkText::CheckingNode(key)];
                let parent = if self.containers.contains(node.parent@) {
                    head
                } else {
                    head.push(RemarkText::Missing { missing: node.parent@, owner: key })
                };
                parent + self.missing_children(key, node.containers@, node.containers@.len() as int)
            },
            Container::System(system) => seq![RemarkText::CheckingSystem(key)]
                + self.missing_children(key, system.containers@, system.containers@.len() as int),
        }
    }

    /// The report on the first `upto` containers of the walk.
    pub open spec fn remarks(&self, upto: int) -> Seq<RemarkText>
        decreases upto,
    {
        if upto <= 0 {
            Seq::empty()
        } else if upto <= self.containers.names().len() {
            self.remarks(upto - 1) + self.container_remarks(
                self.containers.names()[upto - 1],
                &self.containers.items()[upto - 1],
            )
        } else {
            self.remarks(upto - 1)
        }
    }

    fn check_children(&self, owner: &String, children: &Vec<String>, report: &mut Vec<Remark>)
        ensures
            final(report)@.map_values(|r: Remark| r@) == old(report)@.map_values(|r: Remark| r@)
                + self.missing_children(owner@, children@, children@.len() as int),
    {
        let mut k: usize = 0;
        proof {
            assert(report@.map_values(|r: Remark| r@) =~= old(report)@.map_values(|r: Remark| r@)
                + self.missing_children(owner@, children@, 0));
        }
        while k < children.len()
            invariant
                k <= children@.len(),
                report@.map_values(|r: Remark| r@) == old(report)@.map_values(|r: Remark| r@)
                    + self.missing_children(owner@, children@, k as int),
            decreases children@.len() - k,
        {
            let ghost before = report@.map_values(|r: Remark| r@);
            if !self.containers.contains_key(children[k].as_str()) {
                report.push(Remark::Missing { missing: children[k].clone(), owner: owner.clone() });
                proof {
                    assert(report@.map_values(|r: Remark| r@) =~= before.push(
                        RemarkText::Missing { missing: children@[k as int]@, owner: owner@ },
                    ));
                }
            }
            proof {
                assert(report@.map_values(|r: Remark| r@) =~= old(report)@.map_values(
                    |r: Remark| r@,
                ) + self.missing_children(owner@, children@, k + 1));
            }
            k += 1;
        }
    }
}

/// Walks the catalogue in the order of its names and reports, for each
/// container, that it is being checked and which of the names it holds lead
/// nowhere: the parent of a node, and the containers inside a node or a
/// system.
pub fn db_checker(database: &NewDatabase) -> (report: Vec<Remark>)
    ensures
        report@.map_values(|r: Remark| r@) == database.remarks(
            database.containers.names().len() as int,
        ),
{
    let mut report: Vec<Remark> = Vec::new();
    let n = database.containers.len();
    let mut i: usize = 0;
    proof {
        assert(report@.map_values(|r: Remark| r@) =~= database.remarks(0));
    }
    while i < n
        invariant
            i <= n,
            n == database.containers.names().len(),
            n == database.containers.items().len(),
            report@.map_values(|r: Remark| r@) == database.remarks(i as int),
        decreases n - i,
    {
        let key = database.containers.name_at(i);
        let ghost before = report@.map_values(|r: Remark| r@);
        match database.containers.value_at(i) {
            Container::Node(node) => {
                report.push(Remark::CheckingNode(key.clone()));
                if !database.containers.contains_key(node.parent.as_str()) {
                    report.push(Remark::Missing { missing: node.parent.clone(), owner: key.clone() });
                }
                let ghost head = report@.map_values(|r: Remark| r@);
                database.check_children(key, &node.containers, &mut report);
                proof {
                    let own = seq![RemarkText::CheckingNode(key@)];
                    if database.containers.contains(node.parent@) {
                        assert(head =~= before + own);
                    } else {
                        assert(head =~= before + own.push(
                            RemarkText::Missing { missing: node.parent@, owner: key@ },
                        ));
                    }
                    assert(report@.map_values(|r: Remark| r@) =~= before
                        + database.container_remarks(key@, &database.containers.items()[i as int]));
                }
            },
            Container::System(system) => {
                report.push(Remark::CheckingSystem(key.clone()));
                let ghost head = report@.map_values(|r: Remark| r@);
                database.check_children(key, &system.containers, &mut report);
                proof {
                    assert(head =~= before + seq![RemarkText::CheckingSystem(key@)]);
                    assert(report@.map_values(|r: Remark| r@) =~= before
                        + database.container_remarks(key@, &database.containers.items()[i as int]));
                }
            },
        }
        i += 1;
    }
    report
}

/// The figures of one body that the tree form holds in other units than
/// the flat catalogue, as the caller converted them.
#[derive(Debug)]
pub struct Metric {
    /// The centre of the body, in metres.
    pub coordinates: Vec3d,
    /// The quaternion of the turn of the body about itself. It is read for
    /// a body that turns only.
    pub self_rotation: Vec4d,
    /// Each point of interest of the body, in metres, in the order of the
    /// walk.
    pub pois: Vec<Vec3d>,
}

/// Encoding of 1.0.
pub const ONE_BITS: u64 = 0x3ff0_0000_0000_0000;

/// The name of the star, which becomes a point of interest of the system.
pub open spec fn star_name() -> Seq<char> {
    "Stanton"@
}

/// The name of the system that holds every body.
pub open spec fn system_name() -> Seq<char> {
    "StantonSystem"@
}

/// The quaternion of no turn at all.
pub open spec fn no_turn() -> Vec4d {
    let zero = Scalar { bits: 0 };
    Vec4d { w: Scalar { bits: ONE_BITS }, x: zero, y: zero, z: zero }
}

/// There is one set of figures for each body, with one place for each of
/// its points of interest.
pub open spec fn lined_up(database: &Database, metric: Seq<Metric>) -> bool {
    &&& metric.len() == database.items().len()
    &&& forall|i: int|
        0 <= i < metric.len() ==> (#[trigger] metric[i]).pois@.len() == database.items()[i].poi.items().len()
}

/// `r` is the point of interest `old`, held under `key`, at `place`.
pub open spec fn is_converted_poi(
    r: &PointOfInterest,
    key: Seq<char>,
    old: &OldPoi,
    place: Vec3d,
) -> bool {
    &&& r.name@ == key
    &&& r.parent@ == old.container@
    &&& r.coordinates == place
    &&& r.marker == (old.marker == Some(true))
}

/// `node` is the body `old`, held under `key`, with the figures `metric`:
/// a child of the system, not turned against it, turning as `metric` says
/// or, where its turn takes zero hours, not at all, with nothing inside but
/// its points of interest.
pub open spec fn is_converted_node(
    node: &Node,
    key: Seq<char>,
    old: &OldContainer,
    metric: &Metric,
) -> bool {
    &&& node.name@ == key
    &&& node.parent@ == system_name()
    &&& node.from_parent_coordinates == metric.coordinates
    &&& node.from_parent_rotation == no_turn()
    &&& node.self_rotation == if old.rotation_speed.zero() {
        no_turn()
    } else {
        metric.self_rotation
    }
    &&& node.rotation_offset == old.rotation_adjust
    &&& node.containers@.len() == 0
    &&& node.pois.names() == old.poi.names()
    &&& node.pois.items().len() == old.poi.items().len()
    &&& metric.pois@.len() == old.poi.items().len()
    &&& forall|j: int|
        0 <= j < old.poi.items().len() ==> is_converted_poi(
            #[trigger] &node.pois.items()[j],
            old.poi.names()[j],
            &old.poi.items()[j],
            metric.pois@[j],
        )
}

/// The first `upto` of `names` without the star, in their order.
pub open spec fn bodies_of(names: Seq<Seq<char>>, upto: int) -> Seq<Seq<char>>
    decreases upto,
{
    if upto <= 0 {
        Seq::empty()
    } else if upto <= names.len() && names[upto - 1] != star_name() {
        bodies_of(names, upto - 1).push(names[upto - 1])
    } else {
        bodies_of(names, upto - 1)
    }
}

/// `system` is the root of the tree made of the first `upto` bodies of
/// `database`: it names every body but the star as inside it, and holds the
/// star, where there is one, as its one point of interest.
pub open spec fn is_converted_system(
    system: &System,
    database: &Database,
    metric: Seq<Metric>,
    upto: int,
) -> bool {
    let names = database.names().take(upto);
    &&& system.name@ == system_name()
    &&& system.containers@.map_values(|c: String| c@) == bodies_of(database.names(), upto)
    &&& !names.contains(star_name()) ==> system.pois@.len() == 0
    &&& names.contains(star_name()) ==> {
        let i = names.index_of(star_name());
        &&& system.pois@.len() == 1
        &&& system.pois@[0].name@ == star_name()
        &&& system.pois@[0].parent@ == system_name()
        &&& system.pois@[0].coordinates == metric[i].coordinates
        &&& system.pois@[0].marker == database.items()[i].marker
    }
}

/// The body at index `i` of `database` has its node in `tree`, unless it
/// is the star or bears the name of the system.
pub open spec fn has_node(tree: &NewDatabase, database: &Database, metric: Seq<Metric>, i: int) -> bool {
    let key = database.names()[i];
    key != star_name() && key != system_name() ==> tree.containers.contains(key) && (
    tree.containers.value_of(key) is Node) && is_converted_node(
        &tree.containers.value_of(key)->Node_0,
        key,
        &database.items()[i],
        &metric[i],
    )
}

fn convert_pois(old: &OldContainer, places: &Vec<Vec3d>) -> (pois: NameMap<PointOfInterest>)
    requires
        places@.len() == old.poi.items().len(),
    ensures
        pois.wf(),
        pois.names() == old.poi.names(),
        pois.items().len() == old.poi.items().len(),
        forall|j: int|
            0 <= j < old.poi.items().len() ==> is_converted_poi(
                #[trigger] &pois.items()[j],
                old.poi.names()[j],
                &old.poi.items()[j],
                places@[j],
            ),
{
    proof {
        use_type_invariant(&old.poi);
    }
    let mut pois: NameMap<PointOfInterest> = NameMap::new();
    let n = old.poi.len();
    let mut j: usize = 0;
    proof {
        assert(pois.names() =~= old.poi.names().take(0));
    }
    while j < n
        invariant
            j <= n,
            n == old.poi.names().len(),
            n == old.poi.items().len(),
            n == places@.len(),
            old.poi.wf(),
            pois.wf(),
            pois.names() == old.poi.names().take(j as int),
            pois.items().len() == j,
            forall|k: int|
                0 <= k < j ==> is_converted_poi(
                    #[trigger] &pois.items()[k],
                    old.poi.names()[k],
                    &old.poi.items()[k],
                    places@[k],
                ),
        decreases n - j,
    {
        let key = old.poi.name_at(j);
        let poi = old.poi.value_at(j);
        let converted = PointOfInterest {
            name: key.clone(),
            parent: poi.container.clone(),
            coordinates: places[j],
            marker: match poi.marker {
                Some(m) => m,
                None => false,
            },
        };
        let ghost before = pois.names();
        let ghost before_items = pois.items();
        proof {
            assert forall|k: int| 0 <= k < j implies crate::names::name_before(
                #[trigger] before[k],
                key@,
            ) by {
                assert(before[k] == old.poi.names()[k]);
            }
            lemma_absent(before, key@, j as int);
        }
        pois.insert(key.clone(), converted);
        proof {
            assert(pois.names() =~= old.poi.names().take(j + 1));
            assert forall|k: int| 0 <= k < j + 1 implies is_converted_poi(
                #[trigger] &pois.items()[k],
                old.poi.names()[k],
                &old.poi.items()[k],
                places@[k],
            ) by {
                if k < j {
                    assert(pois.items()[k] == before_items[k]);
                }
            }
        }
        j += 1;
    }
    proof {
        assert(old.poi.names().take(n as int) =~= old.poi.names());
    }
    pois
}

/// Whether there is one set of figures for each body of the catalogue, with
/// one place for each of its points of interest.
pub fn is_lined_up(database: &Database, metric: &Vec<Metric>) -> (r: bool)
    ensures
        r == lined_up(database, metric@),
{
    if metric.len() != database.len() {
        return false;
    }
    let mut i: usize = 0;
    while i < metric.len()
        invariant
            i <= metric@.len(),
            metric@.len() == database.items().len(),
            forall|k: int|
                0 <= k < i ==> (#[trigger] metric@[k]).pois@.len() == database.items()[k].poi.items().len(),
        decreases metric@.len() - i,
    {
        if metric[i].pois.len() != database.value_at(i).poi.len() {
            return false;
        }
        i += 1;
    }
    true
}

/// Turns the flat catalogue into its tree form. Every body becomes a node
/// under its own name, inside the one system; the star becomes a point of
/// interest of the system instead. A body that bears the name of the system
/// gives way to it. `metric` holds, for each body in the order of the walk,
/// the figures that the caller converted. Returns nothing where `metric`
/// does not line up with the catalogue.
pub fn convert_old_to_new(database: &Database, metric: &Vec<Metric>) -> (r: Option<NewDatabase>)
    ensures
        r is Some <==> lined_up(database, metric@),
        r is Some ==> {
            let tree = r->0;
            &&& tree.containers.wf()
            &&& forall|n: Seq<char>|
                tree.containers.contains(n) <==> n == system_name() || (n != star_name()
                    && database.contains(n))
            &&& tree.containers.value_of(system_name()) is System
            &&& is_converted_system(
                &tree.containers.value_of(system_name())->System_0,
                database,
                metric@,
                database.names().len() as int,
            )
            &&& forall|i: int|
                0 <= i < database.names().len() ==> #[trigger] has_node(&tree, database, metric@, i)
        },
{
    if !is_lined_up(database, metric) {
        return None;
    }
    proof {
        use_type_invariant(database);
    }
    let mut tree = NewDatabase::new();
    let mut stanton = System {
        name: String::from_str("StantonSystem"),
        pois: Vec::new(),
        containers: Vec::new(),
    };
    let n = database.len();
    let ghost names = database.names();
    let mut i: usize = 0;
    proof {
        assert(stanton.containers@.map_values(|c: String| c@) =~= bodies_of(names, 0));
    }
    while i < n
        invariant
            i <= n,
            names == database.names(),
            n == names.len(),
            n == database.items().len(),
            database.wf(),
            lined_up(database, metric@),
            tree.containers.wf(),
            forall|m: Seq<char>|
                tree.containers.contains(m) <==> m != star_name() && names.take(i as int).contains(
                    m,
                ),
            forall|k: int|
                0 <= k < i && names[k] != star_name() ==> tree.containers.contains(names[k]) && (
                #[trigger] tree.containers.value_of(names[k])) is Node && is_converted_node(
                    &tree.containers.value_of(names[k])->Node_0,
                    names[k],
                    &database.items()[k],
                    &metric@[k],
                ),
            is_converted_system(&stanton, database, metric@, i as int),
        decreases n - i,
    {
        let key = database.name_at(i);
        let old = database.value_at(i);
        let figures = &metric[i];
        let ghost before = tree;
        proof {
            assert(names.take(i + 1) =~= names.take(i as int).push(names[i as int]));
            assert forall|k: int| 0 <= k < i implies names[k] != names[i as int] by {
                crate::names::lemma_name_trichotomy(names[k], names[i as int]);
            }
            if names.take(i as int).contains(names[i as int]) {
                let k = names.take(i as int).index_of(names[i as int]);
                assert(names[k] == names[i as int]);
            }
        }
        if same_name(key.as_str(), "Stanton") {
            stanton.pois.push(
                PointOfInterest {
                    name: key.clone(),
                    parent: String::from_str("StantonSystem"),
                    coordinates: figures.coordinates,
                    marker: old.marker,
                },
            );
            proof {
                assert(names.take(i + 1).contains(star_name())) by {
                    assert(names.take(i + 1)[i as int] == star_name());
                }
                lemma_prefix_ascending(names, i + 1);
                crate::name_map::lemma_found(names.take(i + 1), star_name(), i as int);
                assert(stanton.containers@.map_values(|c: String| c@) =~= bodies_of(names, i + 1));
                assert forall|m: Seq<char>|
                    tree.containers.contains(m) <==> m != star_name() && names.take(
                        i + 1,
                    ).contains(m) by {
                    if m != star_name() && names.take(i + 1).contains(m) {
                        let k = names.take(i + 1).index_of(m);
                        assert(k < i);
                        assert(names.take(i as int)[k] == m);
                    }
                    if names.take(i as int).contains(m) {
                        let k = names.take(i as int).index_of(m);
                        assert(names.take(i + 1)[k] == m);
                    }
                }
            }
        } else {
            let ghost children = stanton.containers@.map_values(|c: String| c@);
            stanton.containers.push(key.clone());
            let zero = Scalar::zero_value();
            let still = Vec4d::new(Scalar::from_bits(ONE_BITS), zero, zero, zero);
            let self_rotation = if old.rotation_speed.is_zero() {
                still
            } else {
                figures.self_rotation
            };
            let node = Node {
                name: key.clone(),
                parent: String::from_str("StantonSystem"),
                from_parent_coordinates: figures.coordinates,
                from_parent_rotation: still,
                self_rotation,
                rotation_offset: old.rotation_adjust,
                pois: convert_pois(old, &figures.pois),
                containers: Vec::new(),
            };
            tree.containers.insert(key.clone(), Container::Node(node));
            proof {
                assert(tree.containers.value_of(key@) == Container::Node(node));
                assert(is_converted_node(&node, key@, &database.items()[i as int], &metric@[i as int]));
                assert forall|k: int| 0 <= k < i + 1 && names[k] != star_name() implies tree.containers.contains(
                    names[k],
                ) && (#[trigger] tree.containers.value_of(names[k])) is Node && is_converted_node(
                    &tree.containers.value_of(names[k])->Node_0,
                    names[k],
                    &database.items()[k],
                    &metric@[k],
                ) by {
                    if k < i {
                        assert(names[k] != key@);
                        assert(names.take(i as int)[k] == names[k]);
                        assert(before.containers.contains(names[k]));
                        assert(tree.containers.value_of(names[k]) == before.containers.value_of(
                            names[k],
                        ));
                    }
                }
                assert(stanton.containers@.map_values(|c: String| c@) =~= children.push(key@));
                assert forall|m: Seq<char>|
                    tree.containers.contains(m) <==> m != star_name() && names.take(
                        i + 1,
                    ).contains(m) by {
                    if names.take(i + 1).contains(m) {
                        let k = names.take(i + 1).index_of(m);
                        if k < i {
                            assert(names.take(i as int)[k] == m);
                        }
                    }
                    if names.take(i as int).contains(m) {
                        let k = names.take(i as int).index_of(m);
                        assert(names.take(i + 1)[k] == m);
                    }
                    assert(names.take(i + 1)[i as int] == key@);
                }
                if names.take(i as int).contains(star_name()) {
                    let k = names.take(i as int).index_of(star_name());
                    assert(names.take(i + 1)[k] == star_name());
                    lemma_prefix_ascending(names, i + 1);
                    lemma_prefix_ascending(names, i as int);
                    crate::name_map::lemma_found(names.take(i + 1), star_name(), k);
                    crate::name_map::lemma_found(names.take(i as int), star_name(), k);
                } else {
                    if names.take(i + 1).contains(star_name()) {
                        let k = names.take(i + 1).index_of(star_name());
                        assert(names.take(i as int)[k] == star_name());
                    }
                }
            }
        }
        i += 1;
    }
    proof {
        assert(names.take(n as int) =~= names);
    }
    tree.containers.insert(String::from_str("StantonSystem"), Container::System(stanton));
    proof {
        assert forall|k: int| 0 <= k < names.len() implies #[trigger] has_node(
            &tree,
            database,
            metric@,
            k,
        ) by {
            if names[k] != star_name() && names[k] != system_name() {
                assert(tree.containers.value_of(names[k]) is Node);
            }
        }
        assert forall|m: Seq<char>|
            tree.containers.contains(m) <==> m == system_name() || (m != star_name()
                && database.contains(m)) by {}
    }
    Some(tree)
}

} // verus!
