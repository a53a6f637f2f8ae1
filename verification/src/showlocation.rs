//! Reading a position out of the line that the game puts on the clipboard:
//! `Coordinates: x:<number> y:<number> z:<number>`, where a number is an
//! optional minus sign, digits, a point, and digits.

use vstd::prelude::*;
use vstd::string::StringSliceAdditionalSpecFns;

verus! {

/// A stretch of the text, from `start` up to `end`.
#[derive(Clone, Copy, Debug, PartialEq, Eq, Structural)]
pub struct Span {
    pub start: usize,
    pub end: usize,
}

/// Where the three numbers of a position stand in the text.
#[derive(Clone, Copy, Debug, PartialEq, Eq, Structural)]
pub struct Captures {
    pub x: Span,
    pub y: Span,
    pub z: Span,
}

/// What introduces a position.
pub open spec fn head() -> Seq<u8> {
    "Coordinates: x:".spec_bytes()
}

/// What stands between the first number and the second.
pub open spec fn before_y() -> Seq<u8> {
    " y:".spec_bytes()
}

/// What stands between the second number and the third.
pub open spec fn before_z() -> Seq<u8> {
    " z:".spec_bytes()
}

/// The byte is a decimal digit.
pub open spec fn is_digit(b: u8) -> bool {
    0x30 <= b <= 0x39
}

/// The index after the digits that start at `i`, as many as there are.
pub open spec fn digits_end(text: Seq<u8>, i: int) -> int
    decreases text.len() - i,
{
    if 0 <= i < text.len() && is_digit(text[i]) {
        digits_end(text, i + 1)
    } else {
        i
    }
}

/// The index after the number that starts at `i`, if one starts there: an
/// optional minus sign, at least one digit, a point, at least one digit, each
/// run of digits as long as it can be.
pub open spec fn number_end(text: Seq<u8>, i: int) -> Option<int> {
    let whole = if 0 <= i < text.len() && text[i] == 0x2d {
        i + 1
    } else {
        i
    };
    let point = digits_end(text, whole);
    let end = digits_end(text, point + 1);
    if point > whole && point < text.len() && text[point] == 0x2e && end > point + 1 {
        Some(end)
    } else {
        None
    }
}

/// `literal` stands in `text` at `i`.
pub open spec fn stands_at(text: Seq<u8>, i: int, literal: Seq<u8>) -> bool {
    0 <= i && i + literal.len() <= text.len() && text.subrange(i, i + literal.len()) == literal
}

/// The position that starts at `i`, if one starts there.
pub open spec fn coordinates_at(text: Seq<u8>, i: int) -> Option<Captures> {
    let x = i + head().len();
    if stands_at(text, i, head()) && number_end(text, x) is Some {
        let x_end = number_end(text, x)->0;
        let y = x_end + before_y().len();
        if stands_at(text, x_end, before_y()) && number_end(text, y) is Some {
            let y_end = number_end(text, y)->0;
            let z = y_end + before_z().len();
            if stands_at(text, y_end, before_z()) && number_end(text, z) is Some {
                let z_end = number_end(text, z)->0;
                Some(
                    Captures {
                        x: Span { start: x as usize, end: x_end as usize },
                        y: Span { start: y as usize, end: y_end as usize },
                        z: Span { start: z as usize, end: z_end as usize },
                    },
                )
            } else {
                None
            }
        } else {
            None
        }
    } else {
        None
    }
}

/// The first position in `text` that starts at `from` or later.
pub open spec fn first_coordinates(text: Seq<u8>, from: int) -> Option<Captures>
    decreases text.len() - from,
{
    if from < 0 || from >= text.len() {
        None
    } else if coordinates_at(text, from) is Some {
        coordinates_at(text, from)
    } else {
        first_coordinates(text, from + 1)
    }
}

/// The run of digits from `i` ends within the text.
pub proof fn lemma_digits_end(text: Seq<u8>, i: int)
    requires
        0 <= i <= text.len(),
    ensures
        i <= digits_end(text, i) <= text.len(),
        forall|j: int| i <= j < digits_end(text, i) ==> is_digit(#[trigger] text[j]),
        digits_end(text, i) < text.len() ==> !is_digit(text[digits_end(text, i)]),
    decreases text.len() - i,
{
    if i < text.len() && is_digit(text[i]) {
        lemma_digits_end(text, i + 1);
    }
}

fn digits_run(text: &[u8], i: usize) -> (end: usize)
    requires
        i <= text@.len(),
    ensures
        end == digits_end(text@, i as int),
        i <= end <= text@.len(),
{
    let mut k: usize = i;
    while k < text.len() && 0x30 <= text[k] && text[k] <= 0x39
        invariant
            i <= k <= text@.len(),
            digits_end(text@, i as int) == digits_end(text@, k as int),
        decreases text@.len() - k,
    {
        k += 1;
    }
    k
}

fn number(text: &[u8], i: usize) -> (end: Option<usize>)
    requires
        i <= text@.len(),
    ensures
        match end {
            Some(e) => number_end(text@, i as int) == Some(e as int) && i < e <= text@.len(),
            None => number_end(text@, i as int) is None,
        },
{
    let whole: usize = if i < text.len() && text[i] == 0x2d {
        i + 1
    } else {
        i
    };
    let point: usize = digits_run(text, whole);
    if point > whole && point < text.len() && text[point] == 0x2e {
        let end: usize = digits_run(text, point + 1);
        if end > point + 1 {
            Some(end)
        } else {
            None
        }
    } else {
        proof {
            if point + 1 <= text@.len() {
                lemma_digits_end(text@, point + 1);
            }
        }
        None
    }
}

fn literal_at(text: &[u8], i: usize, literal: &[u8]) -> (r: bool)
    requires
        i <= text@.len(),
    ensures
        r == stands_at(text@, i as int, literal@),
{
    if literal.len() > text.len() - i {
        return false;
    }
    let mut k: usize = 0;
    while k < literal.len()
        invariant
            k <= literal@.len(),
            i + literal@.len() <= text@.len(),
            text@.len() <= usize::MAX,
            forall|j: int| 0 <= j < k ==> text@[i + j] == literal@[j],
        decreases literal@.len() - k,
    {
        if text[i + k] != literal[k] {
            proof {
                assert(text@.subrange(i as int, i + literal@.len())[k as int] == text@[i + k]);
            }
            return false;
        }
        k += 1;
    }
    proof {
        assert(text@.subrange(i as int, i + literal@.len()) =~= literal@);
    }
    true
}

fn position_at(text: &[u8], i: usize) -> (r: Option<Captures>)
    requires
        i <= text@.len(),
    ensures
        r == coordinates_at(text@, i as int),
        r is Some ==> well_placed(r->0, i as int, text@.len() as int),
{
    let len: usize = text.len();
    let head = "Coordinates: x:".as_bytes();
    let before_y = " y:".as_bytes();
    let before_z = " z:".as_bytes();
    if !literal_at(text, i, head) {
        return None;
    }
    let x: usize = i + head.len();
    let x_end: usize = match number(text, x) {
        Some(e) => e,
        None => {
            return None;
        },
    };
    if !literal_at(text, x_end, before_y) {
        return None;
    }
    let y: usize = x_end + before_y.len();
    let y_end: usize = match number(text, y) {
        Some(e) => e,
        None => {
            return None;
        },
    };
    if !literal_at(text, y_end, before_z) {
        return None;
    }
    let z: usize = y_end + before_z.len();
    let z_end: usize = match number(text, z) {
        Some(e) => e,
        None => {
            return None;
        },
    };
    Some(
        Captures {
            x: Span { start: x, end: x_end },
            y: Span { start: y, end: y_end },
            z: Span { start: z, end: z_end },
        },
    )
}

/// The three numbers follow each other, after `from` and within `len`, and
/// none is empty.
pub open spec fn well_placed(c: Captures, from: int, len: int) -> bool {
    &&& from <= c.x.start < c.x.end
    &&& c.x.end <= c.y.start < c.y.end
    &&& c.y.end <= c.z.start < c.z.end
    &&& c.z.end <= len
}

/// Finds the first position in `text` and says where its three numbers
/// stand; `None` where the text holds no position.
pub fn find_coordinates(text: &[u8]) -> (r: Option<Captures>)
    ensures
        r == first_coordinates(text@, 0),
        r is Some ==> well_placed(r->0, 0, text@.len() as int),
{
    let mut i: usize = 0;
    while i < text.len()
        invariant
            i <= text@.len(),
            first_coordinates(text@, 0) == first_coordinates(text@, i as int),
        decreases text@.len() - i,
    {
        match position_at(text, i) {
            Some(c) => {
                return Some(c);
            },
            None => {},
        }
        i += 1;
    }
    None
}

} // verus!
