//! What the display needs besides numbers: colours, marker shapes, and the
//! text of a duration.

use vstd::prelude::*;

verus! {

/// A colour: red, green, blue, and opacity.
#[derive(Clone, Copy, Debug, PartialEq, Eq, Structural)]
pub struct Color32 {
    pub r: u8,
    pub g: u8,
    pub b: u8,
    pub a: u8,
}

/// The shape that marks a point on the map.
#[derive(Clone, Copy, Debug, PartialEq, Eq, Structural)]
pub enum MarkerShape {
    Circle,
    Diamond,
}

impl Color32 {
    /// The colour that paths are drawn in until one is chosen.
    pub open spec fn dark_gray() -> Color32 {
        Color32 { r: 96, g: 96, b: 96, a: 255 }
    }

    /// The colour with each of red, green and blue turned into its
    /// complement, fully opaque.
    pub open spec fn complement(self) -> Color32 {
        Color32 {
            r: (255 - self.r) as u8,
            g: (255 - self.g) as u8,
            b: (255 - self.b) as u8,
            a: 255,
        }
    }

    /// An opaque colour.
    pub fn from_rgb(r: u8, g: u8, b: u8) -> (c: Color32)
        ensures
            c == (Color32 { r, g, b, a: 255 }),
    {
        Color32 { r, g, b, a: 255 }
    }

    /// The colour that a new path is drawn in.
    pub fn default_path_color() -> (c: Color32)
        ensures
            c == Color32::dark_gray(),
    {
        Color32::from_rgb(96, 96, 96)
    }

    /// The colour in which the highlighted point of a path of this colour is
    /// drawn.
    pub fn highlight(&self) -> (c: Color32)
        ensures
            c == self.complement(),
    {
        Color32::from_rgb(255 - self.r, 255 - self.g, 255 - self.b)
    }
}

/// One byte from `rand::thread_rng().gen()`: the thread's generator, seeded by
/// the system, asked for a `u8`. Nothing is claimed of the byte. The call
/// panics where the system fails to seed the generator.
#[verifier::external_body]
fn random_channel() -> (c: u8)
{
    rand::Rng::gen(&mut rand::thread_rng())
}

/// An opaque colour whose red, green and blue are drawn at random.
pub fn random_color32() -> (c: Color32)
    ensures
        c.a == 255,
{
    let r: u8 = random_channel();
    let g: u8 = random_channel();
    let b: u8 = random_channel();
    Color32::from_rgb(r, g, b)
}

/// `String::push` of the standard library appends one character to the
/// string and leaves the characters before it as they are.
pub assume_specification[ String::push ](s: &mut String, c: char)
    ensures
        final(s)@ == old(s)@.push(c),
;

/// The character of a decimal digit.
pub open spec fn digit_char(d: int) -> char {
    if d == 0 {
        '0'
    } else if d == 1 {
        '1'
    } else if d == 2 {
        '2'
    } else if d == 3 {
        '3'
    } else if d == 4 {
        '4'
    } else if d == 5 {
        '5'
    } else if d == 6 {
        '6'
    } else if d == 7 {
        '7'
    } else if d == 8 {
        '8'
    } else {
        '9'
    }
}

/// The decimal digits of a natural number, without leading zeros.
pub open spec fn decimal(n: nat) -> Seq<char>
    decreases n,
{
    if n < 10 {
        seq![digit_char(n as int)]
    } else {
        decimal(n / 10).push(digit_char((n % 10) as int))
    }
}

/// One field of a clock reading: the number in decimal, with a minus sign
/// where it is negative, filled with a zero on the left up to two characters.
pub open spec fn clock_field(magnitude: nat, negative: bool) -> Seq<char> {
    let text = if negative && magnitude != 0 {
        seq!['-'] + decimal(magnitude)
    } else {
        decimal(magnitude)
    };
    if text.len() < 2 {
        seq!['0'] + text
    } else {
        text
    }
}

/// A duration of `nanoseconds` as hours, minutes and seconds, `hh:mm:ss`.
/// Fractions of a second are dropped, and of a negative duration each
/// field that is not zero carries the sign.
pub open spec fn clock_text(nanoseconds: int) -> Seq<char> {
    let negative = nanoseconds < 0;
    let whole = ((if negative {
        -nanoseconds
    } else {
        nanoseconds
    }) / 1_000_000_000) as nat;
    clock_field(whole / 3600, negative) + seq![':'] + clock_field((whole / 60) % 60, negative)
        + seq![':'] + clock_field(whole % 60, negative)
}

fn digit(d: u128) -> (c: char)
    requires
        d < 10,
    ensures
        c == digit_char(d as int),
{
    if d == 0 {
        '0'
    } else if d == 1 {
        '1'
    } else if d == 2 {
        '2'
    } else if d == 3 {
        '3'
    } else if d == 4 {
        '4'
    } else if d == 5 {
        '5'
    } else if d == 6 {
        '6'
    } else if d == 7 {
        '7'
    } else if d == 8 {
        '8'
    } else {
        '9'
    }
}

/// Appends the decimal digits of `n` to `out`.
fn push_decimal(out: &mut String, n: u128)
    ensures
        final(out)@ == old(out)@ + decimal(n as nat),
    decreases n,
{
    if n >= 10 {
        push_decimal(out, n / 10);
    }
    out.push(digit(n % 10));
    assert(final(out)@ =~= old(out)@ + decimal(n as nat));
}

fn push_clock_field(out: &mut String, magnitude: u128, negative: bool)
    ensures
        final(out)@ == old(out)@ + clock_field(magnitude as nat, negative),
{
    let signed = negative && magnitude != 0;
    proof {
        lemma_decimal_len(magnitude as nat);
    }
    if !signed && magnitude < 10 {
        out.push('0');
    }
    if signed {
        out.push('-');
    }
    push_decimal(out, magnitude);
    assert(final(out)@ =~= old(out)@ + clock_field(magnitude as nat, negative));
}

/// A number has one digit exactly when it is below ten.
pub proof fn lemma_decimal_len(n: nat)
    ensures
        decimal(n).len() >= 1,
        n < 10 <==> decimal(n).len() == 1,
    decreases n,
{
    if n >= 10 {
        lemma_decimal_len(n / 10);
    }
}

/// The text of a duration given in nanoseconds, as `hh:mm:ss`.
pub fn pretty_duration(nanoseconds: i128) -> (text: String)
    ensures
        text@ == clock_text(nanoseconds as int),
{
    let negative = nanoseconds < 0;
    let magnitude: u128 = if negative {
        ((-(nanoseconds + 1)) as u128) + 1
    } else {
        nanoseconds as u128
    };
    let whole: u128 = magnitude / 1_000_000_000;
    let mut text = String::new();
    push_clock_field(&mut text, whole / 3600, negative);
    text.push(':');
    push_clock_field(&mut text, (whole / 60) % 60, negative);
    text.push(':');
    push_clock_field(&mut text, whole % 60, negative);
    assert(text@ =~= clock_text(nanoseconds as int));
    text
}

} // verus!
