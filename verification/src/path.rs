//! A path: observed positions in order, one of which may be highlighted.

use crate::catalog::Database;
use crate::catalog::NotFound;
use crate::display::Color32;
use crate::display::MarkerShape;
use crate::names::same_name;
use crate::navigation::sight;
use crate::navigation::sighted;
use crate::navigation::within_turn;
use crate::navigation::Fix;
use crate::navigation::Sighting;
use crate::position::ProcessedPosition;
use crate::scalar::Scalar;
use vstd::prelude::*;

verus! {

/// Encoding of the radius, 3.0, that the points of a new path are drawn with.
pub const PATH_MARKER_RADIUS: u64 = 0x4008_0000_0000_0000;

/// A named sequence of observed positions, with what the display shows of
/// it.
#[derive(Debug)]
pub struct Path {
    pub name: String,
    pub history: Vec<ProcessedPosition>,
    /// Nanoseconds from the first point to the last.
    pub duration: i128,
    /// Sum of the distances between consecutive points.
    pub length: Scalar,
    pub map_color: Color32,
    pub map_shape: MarkerShape,
    pub map_radius: Scalar,
    pub map_displayed: bool,
    pub widget_open: bool,
    /// Number of the highlighted point, counted from one; zero where no
    /// point is highlighted.
    pub current_index: usize,
    /// Distance from the live position to the highlighted point.
    pub current_distance: Scalar,
    /// Bearing from the live position to the highlighted point.
    pub current_heading: Scalar,
}

/// Nanoseconds from the first of `history` to the last; zero where there are
/// fewer than two points.
pub open spec fn span(history: Seq<ProcessedPosition>) -> int {
    if history.len() == 0 {
        0
    } else {
        history.last().space_time_position.timestamp - history[0].space_time_position.timestamp
    }
}

/// `index` limited to `[0, len]`.
pub open spec fn limited(index: int, len: int) -> int {
    if index > len {
        len
    } else {
        index
    }
}

/// `items` with the entry at `i` and its neighbour at `i + 1` exchanged;
/// unchanged where there is no such pair.
pub open spec fn exchanged<T>(items: Seq<T>, i: int) -> Seq<T> {
    if 0 <= i && i + 1 < items.len() {
        items.update(i, items[i + 1]).update(i + 1, items[i])
    } else {
        items
    }
}

/// Number, counted from one, of the last point of `history` that is called
/// `name`; zero where none is.
pub open spec fn last_named(history: Seq<ProcessedPosition>, name: Seq<char>, upto: int) -> int
    decreases upto,
{
    if upto <= 0 {
        0
    } else if upto <= history.len() && history[upto - 1].name@ == name {
        upto
    } else {
        last_named(history, name, upto - 1)
    }
}

/// `last_named` is the number of a point called `name`, the greatest such
/// number up to `upto`, and zero exactly when there is none.
pub proof fn lemma_last_named(history: Seq<ProcessedPosition>, name: Seq<char>, upto: int)
    ensures
        0 <= last_named(history, name, upto) <= history.len(),
        last_named(history, name, upto) <= upto || upto < 0,
        last_named(history, name, upto) > 0 ==> history[last_named(history, name, upto) - 1].name@
            == name,
        forall|k: int|
            last_named(history, name, upto) < k <= upto && 1 <= k <= history.len() ==> (
            #[trigger] history[k - 1]).name@ != name,
    decreases upto,
{
    if upto > 0 && !(upto <= history.len() && history[upto - 1].name@ == name) {
        lemma_last_named(history, name, upto - 1);
    }
}

/// What the operations on a path act on: its points in order, and the
/// number of the highlighted one, counted from one, or zero for none.
pub struct Trail {
    pub points: Seq<ProcessedPosition>,
    pub highlight: nat,
}

impl Trail {
    /// The highlight is none or one of the points.
    pub open spec fn wf(self) -> bool {
        self.highlight <= self.points.len()
    }

    /// The trail with `point` appended and highlighted.
    pub open spec fn add(self, point: ProcessedPosition) -> Trail {
        Trail { points: self.points.push(point), highlight: self.points.len() + 1 }
    }

    /// The trail without the point at index `i`, the highlight keeping its
    /// number as far as the points left allow.
    pub open spec fn remove(self, i: int) -> Trail {
        let points = if 0 <= i < self.points.len() {
            self.points.remove(i)
        } else {
            self.points
        };
        Trail { points, highlight: limited(self.highlight as int, points.len() as int) as nat }
    }

    /// The trail without its highlighted point.
    pub open spec fn remove_highlighted(self) -> Trail {
        if self.highlight >= 1 {
            self.remove(self.highlight - 1)
        } else {
            self.remove(self.points.len() as int)
        }
    }

    /// The trail with the highlight one point back: a highlight past the
    /// end counts as one on the last point.
    pub open spec fn previous(self) -> Trail {
        let from = limited(self.highlight as int, self.points.len() as int);
        Trail {
            points: self.points,
            highlight: if from > 0 {
                (from - 1) as nat
            } else {
                0
            },
        }
    }

    /// The trail with the highlight one point on.
    pub open spec fn next(self) -> Trail {
        Trail {
            points: self.points,
            highlight: if self.highlight < self.points.len() {
                self.highlight + 1
            } else {
                self.points.len()
            },
        }
    }

    /// The trail with the highlight on the point of number `index`.
    pub open spec fn highlight_at(self, index: nat) -> Trail {
        Trail {
            points: self.points,
            highlight: limited(index as int, self.points.len() as int) as nat,
        }
    }

    /// The trail with the points at `i` and `i + 1` exchanged.
    pub open spec fn exchange(self, i: int) -> Trail {
        Trail { points: exchanged(self.points, i), highlight: self.highlight }
    }

    /// The trail without any point.
    pub open spec fn clear(self) -> Trail {
        Trail { points: Seq::empty(), highlight: 0 }
    }
}

/// Every operation leaves the highlight on a point or on none, wherever it
/// stood before; reordering keeps it where it was.
pub proof fn lemma_operations_keep_the_highlight_in_range(
    t: Trail,
    point: ProcessedPosition,
    i: int,
    index: nat,
)
    ensures
        t.add(point).wf(),
        t.remove(i).wf(),
        t.remove_highlighted().wf(),
        t.previous().wf(),
        t.next().wf(),
        t.highlight_at(index).wf(),
        t.clear().wf(),
        t.wf() ==> t.exchange(i).wf(),
{
}

/// An added point is the last point and the highlighted one; removing the
/// highlighted point again gives back the points that were there, with the
/// highlight on the last of them, or on none if there are none.
pub proof fn lemma_add_then_remove(t: Trail, point: ProcessedPosition)
    ensures
        t.add(point).highlight == t.add(point).points.len(),
        t.add(point).points.last() == point,
        t.add(point).remove_highlighted().points == t.points,
        t.add(point).remove_highlighted().highlight == t.points.len(),
        t.points.len() == 0 ==> t.add(point).remove_highlighted().highlight == 0,
{
    assert(t.points.push(point).remove(t.points.len() as int) =~= t.points);
}

/// Stepping never leaves the points: from the last point a step on, and
/// from no highlight a step back, change nothing; anywhere else a step on
/// and a step back undo each other.
pub proof fn lemma_steps(t: Trail)
    requires
        t.wf(),
    ensures
        t.highlight == t.points.len() ==> t.next() == t,
        t.highlight == 0 ==> t.previous() == t,
        t.highlight < t.points.len() ==> t.next().previous() == t,
        t.highlight > 0 ==> t.previous().next() == t,
{
}

impl Path {
    /// The highlight is none or points at a point of the path.
    pub open spec fn wf(&self) -> bool {
        self.current_index <= self.history@.len()
    }

    /// The points of the path and the number of the highlighted one.
    pub open spec fn trail(&self) -> Trail {
        Trail { points: self.history@, highlight: self.current_index as nat }
    }

    /// Name and display settings agree.
    pub open spec fn same_display(&self, other: &Path) -> bool {
        &&& self.name == other.name
        &&& self.map_color == other.map_color
        &&& self.map_shape == other.map_shape
        &&& self.map_radius == other.map_radius
        &&& self.map_displayed == other.map_displayed
        &&& self.widget_open == other.widget_open
    }

    /// The derived figures agree.
    pub open spec fn same_figures(&self, other: &Path) -> bool {
        &&& self.duration == other.duration
        &&& self.length == other.length
        &&& self.current_distance == other.current_distance
        &&& self.current_heading == other.current_heading
    }

    /// Everything but the highlight agrees.
    pub open spec fn same_track(&self, other: &Path) -> bool {
        &&& self.same_display(other)
        &&& self.same_figures(other)
        &&& self.history@ == other.history@
    }

    /// Index into the history of the point that navigation aims at: the
    /// highlighted point, the first where none is highlighted, the last where
    /// the highlight lies past the end. Meaningful for a path with points.
    pub open spec fn aim(&self) -> int {
        if self.current_index == 0 {
            0
        } else {
            limited(self.current_index as int, self.history@.len() as int) - 1
        }
    }

    /// An empty path without a highlight, drawn in dark gray.
    pub fn new(name: String) -> (p: Path)
        ensures
            p.name == name,
            p.history@.len() == 0,
            p.current_index == 0,
            p.duration == 0,
            p.length.bits == 0,
            p.current_distance.bits == 0,
            p.current_heading.bits == 0,
            p.map_color == Color32::dark_gray(),
            p.map_shape == MarkerShape::Circle,
            p.map_radius.bits == PATH_MARKER_RADIUS,
            p.map_displayed,
            !p.widget_open,
            p.wf(),
    {
        Path {
            name,
            history: Vec::new(),
            duration: 0,
            length: Scalar::zero_value(),
            map_color: Color32::default_path_color(),
            map_shape: MarkerShape::Circle,
            map_radius: Scalar::from_bits(PATH_MARKER_RADIUS),
            map_displayed: true,
            widget_open: false,
            current_index: 0,
            current_distance: Scalar::zero_value(),
            current_heading: Scalar::zero_value(),
        }
    }

    /// Appends a point and highlights it.
    pub fn add_point(&mut self, point: ProcessedPosition)
        ensures
            final(self).trail() == old(self).trail().add(point),
            final(self).current_index == final(self).history@.len(),
            final(self).same_display(old(self)),
            final(self).same_figures(old(self)),
            final(self).wf(),
    {
        self.history.push(point);
        self.current_index = self.history.len();
    }

    /// The highlighted point, if one is highlighted.
    pub fn highlighted(&self) -> (r: Option<&ProcessedPosition>)
        ensures
            match r {
                Some(p) => 1 <= self.current_index <= self.history@.len() && *p
                    == self.history@[self.current_index - 1],
                None => self.current_index == 0 || self.current_index > self.history@.len(),
            },
    {
        if self.current_index >= 1 && self.current_index <= self.history.len() {
            Some(&self.history[self.current_index - 1])
        } else {
            None
        }
    }

    /// Removes the point at index `i` of the history, counted from zero, and
    /// returns it. The highlight keeps its number, limited to the points
    /// that are left. Without a point at `i` only the limit is applied.
    pub fn remove_point(&mut self, i: usize) -> (removed: Option<ProcessedPosition>)
        ensures
            final(self).trail() == old(self).trail().remove(i as int),
            removed == if i < old(self).history@.len() {
                Some(old(self).history@[i as int])
            } else {
                None
            },
            final(self).same_display(old(self)),
            final(self).same_figures(old(self)),
            final(self).wf(),
    {
        let removed = if i < self.history.len() {
            Some(self.history.remove(i))
        } else {
            None
        };
        if self.current_index > self.history.len() {
            self.current_index = self.history.len();
        }
        removed
    }

    /// Removes the highlighted point and returns it. The highlight keeps its
    /// number where a point follows, moves to the last point where none does,
    /// and is zero once the path is empty. Without a highlighted point nothing
    /// is removed.
    pub fn remove_highlighted(&mut self) -> (removed: Option<ProcessedPosition>)
        ensures
            final(self).trail() == old(self).trail().remove_highlighted(),
            removed == if 1 <= old(self).current_index <= old(self).history@.len() {
                Some(old(self).history@[old(self).current_index - 1])
            } else {
                None
            },
            final(self).history@.len() == 0 ==> final(self).current_index == 0,
            final(self).same_display(old(self)),
            final(self).same_figures(old(self)),
            final(self).wf(),
    {
        if self.current_index >= 1 {
            self.remove_point(self.current_index - 1)
        } else {
            self.remove_point(self.history.len())
        }
    }

    /// Moves the highlight one point back; from the first point to none; from
    /// none nowhere. A highlight past the end is first brought back to the
    /// last point.
    pub fn previous(&mut self)
        ensures
            final(self).trail() == old(self).trail().previous(),
            final(self).same_track(old(self)),
            final(self).wf(),
    {
        if self.current_index > self.history.len() {
            self.current_index = self.history.len();
        }
        if self.current_index > 0 {
            self.current_index = self.current_index - 1;
        }
    }

    /// Moves the highlight one point on; from the last point nowhere.
    pub fn next(&mut self)
        ensures
            final(self).trail() == old(self).trail().next(),
            final(self).same_track(old(self)),
            final(self).wf(),
    {
        if self.current_index < self.history.len() {
            self.current_index = self.current_index + 1;
        } else {
            self.current_index = self.history.len();
        }
    }

    /// Highlights the point of number `index`, counted from one; zero removes
    /// the highlight, and a number past the end highlights the last point.
    pub fn set_highlighted_index(&mut self, index: usize)
        ensures
            final(self).trail() == old(self).trail().highlight_at(index as nat),
            final(self).same_track(old(self)),
            final(self).wf(),
    {
        if index > self.history.len() {
            self.current_index = self.history.len();
        } else {
            self.current_index = index;
        }
    }

    /// Exchanges the point at index `i` with the one before it. The first
    /// point, or an index without a point, leaves the path as it is.
    pub fn move_up(&mut self, i: usize)
        ensures
            final(self).trail() == old(self).trail().exchange(i - 1),
            old(self).wf() ==> final(self).wf(),
            final(self).same_display(old(self)),
            final(self).same_figures(old(self)),
    {
        if i >= 1 && i < self.history.len() {
            let ghost before = self.history@;
            let point = self.history.remove(i);
            self.history.insert(i - 1, point);
            assert(self.history@ =~= exchanged(before, i - 1));
        }
    }

    /// Exchanges the point at index `i` with the one after it. The last
    /// point, or an index without a point, leaves the path as it is.
    pub fn move_down(&mut self, i: usize)
        ensures
            final(self).trail() == old(self).trail().exchange(i as int),
            old(self).wf() ==> final(self).wf(),
            final(self).same_display(old(self)),
            final(self).same_figures(old(self)),
    {
        if i < self.history.len() && i + 1 < self.history.len() {
            let ghost before = self.history@;
            let point = self.history.remove(i);
            self.history.insert(i + 1, point);
            assert(self.history@ =~= exchanged(before, i as int));
        }
    }

    /// Removes every point, and the highlight with them.
    pub fn clear(&mut self)
        ensures
            final(self).trail() == old(self).trail().clear(),
            final(self).same_display(old(self)),
            final(self).same_figures(old(self)),
            final(self).wf(),
    {
        self.history = Vec::new();
        self.current_index = 0;
    }

    /// Gives the point at index `i` a new name. Without a point at `i`
    /// nothing changes.
    pub fn rename_point(&mut self, i: usize, name: String) -> (done: bool)
        ensures
            done == (i < old(self).history@.len()),
            done ==> final(self).history@ == old(self).history@.update(
                i as int,
                (ProcessedPosition { name, ..old(self).history@[i as int] }),
            ),
            !done ==> final(self).history@ == old(self).history@,
            final(self).current_index == old(self).current_index,
            old(self).wf() ==> final(self).wf(),
            final(self).same_display(old(self)),
            final(self).same_figures(old(self)),
    {
        if i < self.history.len() {
            let ghost before = self.history@;
            let mut point = self.history.remove(i);
            point.name = name;
            self.history.insert(i, point);
            assert(self.history@ =~= before.update(
                i as int,
                (ProcessedPosition { name, ..before[i as int] }),
            ));
            true
        } else {
            false
        }
    }

    /// Gives the point at index `i` a colour of its own, or none. Without a
    /// point at `i` nothing changes.
    pub fn set_point_color(&mut self, i: usize, color: Option<Color32>) -> (done: bool)
        ensures
            done == (i < old(self).history@.len()),
            done ==> final(self).history@ == old(self).history@.update(
                i as int,
                (ProcessedPosition { color, ..old(self).history@[i as int] }),
            ),
            !done ==> final(self).history@ == old(self).history@,
            final(self).current_index == old(self).current_index,
            old(self).wf() ==> final(self).wf(),
            final(self).same_display(old(self)),
            final(self).same_figures(old(self)),
    {
        if i < self.history.len() {
            let ghost before = self.history@;
            let mut point = self.history.remove(i);
            point.color = color;
            self.history.insert(i, point);
            assert(self.history@ =~= before.update(
                i as int,
                (ProcessedPosition { color, ..before[i as int] }),
            ));
            true
        } else {
            false
        }
    }

    /// Highlights the last point that is called `name` and returns its index,
    /// counted from zero. Without such a point nothing changes.
    pub fn highlight_named(&mut self, name: &str) -> (found: Option<usize>)
        ensures
            last_named(old(self).history@, name@, old(self).history@.len() as int) <= 0 ==> found
                is None && final(self).current_index == old(self).current_index,
            last_named(old(self).history@, name@, old(self).history@.len() as int) > 0 ==> found
                == Some(
                (last_named(old(self).history@, name@, old(self).history@.len() as int) - 1) as usize,
            ) && final(self).current_index == last_named(
                old(self).history@,
                name@,
                old(self).history@.len() as int,
            ),
            final(self).same_track(old(self)),
            old(self).wf() ==> final(self).wf(),
            found is Some ==> found->0 < old(self).history@.len() && old(self).history@[found->0 as int].name@
                == name@,
    {
        proof {
            lemma_last_named(self.history@, name@, self.history@.len() as int);
        }
        let mut found: Option<usize> = None;
        let mut i: usize = 0;
        while i < self.history.len()
            invariant
                i <= self.history@.len(),
                match found {
                    Some(k) => k < i && k + 1 == last_named(self.history@, name@, i as int),
                    None => last_named(self.history@, name@, i as int) == 0,
                },
            decreases self.history@.len() - i,
        {
            if same_name(self.history[i].name.as_str(), name) {
                found = Some(i);
            }
            i += 1;
        }
        match found {
            Some(k) => {
                self.current_index = k + 1;
            },
            None => {},
        }
        found
    }

    /// What a measurement of distance and bearing from the live position to
    /// this path goes by: nothing without a live position or without points,
    /// and else the sighting of the point that navigation aims at, in the
    /// frame of that point's body. Fails where that body is not in the
    /// catalogue.
    pub fn sighting(&self, database: &Database, live: Option<&ProcessedPosition>) -> (r: Result<
        Option<Sighting>,
        NotFound,
    >)
        ensures
            live is None || self.history@.len() == 0 ==> r == Ok::<Option<Sighting>, NotFound>(
                None,
            ),
            live is Some && self.history@.len() > 0 ==> match sighted(
                live->0,
                self.history@[self.aim()].local_coordinates,
                self.history@[self.aim()].container_name@,
                database,
            ) {
                Some(s) => r == Ok::<Option<Sighting>, NotFound>(Some(s)),
                None => r is Err && r->Err_0 is Container && r->Err_0.key()
                    == self.history@[self.aim()].container_name@,
            },
    {
        match live {
            None => Ok(None),
            Some(observer) => {
                if self.history.len() == 0 {
                    return Ok(None);
                }
                let mut index = self.current_index;
                if index > self.history.len() {
                    index = self.history.len();
                }
                if index >= 1 {
                    index = index - 1;
                }
                let target = &self.history[index];
                match sight(
                    observer,
                    target.local_coordinates,
                    target.container_name.as_str(),
                    database,
                ) {
                    Ok(s) => Ok(Some(s)),
                    Err(e) => Err(e),
                }
            },
        }
    }

    /// Takes over the figures of one tick. The duration is recomputed from
    /// the first and the last point. `length` is the sum, as the caller
    /// computed it, of the distances between consecutive points in their own
    /// frames; a path of fewer than two points has length zero whatever is
    /// handed in. `fix` is what was measured for [`Path::sighting`]; it is
    /// taken over where the path has points, and without a fix distance and
    /// heading stay as they are.
    pub fn update(&mut self, length: Scalar, fix: Option<Fix>)
        ensures
            final(self).duration == span(old(self).history@),
            final(self).length == if old(self).history@.len() < 2 {
                Scalar { bits: 0 }
            } else {
                length
            },
            old(self).history@.len() <= 1 ==> final(self).length.bits == 0 && final(self).duration
                == 0,
            fix is Some && old(self).history@.len() > 0 ==> final(self).current_distance
                == fix->0.measured_distance() && final(self).current_heading
                == fix->0.measured_heading() && (final(self).current_heading.nan() || within_turn(
                final(self).current_heading,
            )),
            fix is None || old(self).history@.len() == 0 ==> final(self).current_distance == old(self).current_distance && final(self).current_heading == old(self).current_heading,
            final(self).history@ == old(self).history@,
            final(self).current_index == old(self).current_index,
            final(self).same_display(old(self)),
            old(self).wf() ==> final(self).wf(),
    {
        let n = self.history.len();
        if n < 2 {
            self.length = Scalar::zero_value();
        } else {
            self.length = length;
        }
        if n == 0 {
            self.duration = 0;
        } else {
            let first: i128 = self.history[0].space_time_position.timestamp as i128;
            let last: i128 = self.history[n - 1].space_time_position.timestamp as i128;
            self.duration = last - first;
        }
        match fix {
            Some(f) => {
                if n > 0 {
                    self.current_distance = f.distance();
                    self.current_heading = f.heading();
                }
            },
            None => {},
        }
    }
}

impl Clone for Path {
    fn clone(&self) -> (r: Self)
        ensures
            r.same_track(self),
            r.current_index == self.current_index,
    {
        let history = self.history.clone();
        assert(history@ =~= self.history@);
        Path {
            name: self.name.clone(),
            history,
            duration: self.duration,
            length: self.length,
            map_color: self.map_color,
            map_shape: self.map_shape,
            map_radius: self.map_radius,
            map_displayed: self.map_displayed,
            widget_open: self.widget_open,
            current_index: self.current_index,
            current_distance: self.current_distance,
            current_heading: self.current_heading,
        }
    }
}

} // verus!
