//! The names that observed positions are given until the user names them:
//! `# XXXX-XXXX`, cut from a random identifier.

use vstd::prelude::*;
use vstd::string::StrSliceExecFns;
use vstd::string::StringExecFns;

verus! {

/// The character is a hexadecimal digit in lower case.
pub open spec fn is_lower_hex(c: char) -> bool {
    ('0' <= c && c <= '9') || ('a' <= c && c <= 'f')
}

/// The text has the hyphenated form of an identifier: 36 characters, hyphens
/// after the groups of 8, 4, 4 and 4, and lower-case hexadecimal digits
/// elsewhere.
pub open spec fn hyphenated(text: Seq<char>) -> bool {
    &&& text.len() == 36
    &&& forall|i: int|
        0 <= i < 36 ==> if i == 8 || i == 13 || i == 18 || i == 23 {
            #[trigger] text[i] == '-'
        } else {
            is_lower_hex(#[trigger] text[i])
        }
}

/// The upper-case form of a character of `a` to `z`, and the character
/// itself else.
pub open spec fn raised(c: char) -> char {
    if 'a' <= c && c <= 'z' {
        ((c as u8) - 32) as u8 as char
    } else {
        c
    }
}

/// The name cut from `text`: a number sign, a space, and the characters 9 to
/// 17 of `text`, raised.
pub open spec fn label_of(text: Seq<char>) -> Seq<char> {
    seq!['#', ' '] + text.subrange(9, 18).map_values(|c: char| raised(c))
}

/// A fresh random identifier from `uuid::Uuid::new_v4`, as its `Display`
/// writes it: in the hyphenated form, in lower case. Which identifier it is
/// is left open. The call panics where the system fails to supply random
/// bytes.
#[verifier::external_body]
fn random_identifier() -> (text: String)
    ensures
        hyphenated(text@),
{
    uuid::Uuid::new_v4().to_string()
}

fn raise(c: char) -> (r: char)
    ensures
        r == raised(c),
{
    if 'a' <= c && c <= 'z' {
        let b: u8 = c as u8;
        (b - 32) as char
    } else {
        c
    }
}

/// The name that the identifier `text` gives a position; `None` where
/// `text` has fewer than 18 characters.
pub fn point_name(text: &str) -> (name: Option<String>)
    ensures
        text@.len() < 18 ==> name is None,
        text@.len() >= 18 ==> name is Some && name->0@ == label_of(text@),
{
    if text.unicode_len() < 18 {
        return None;
    }
    let mut name = String::from_str("# ");
    proof {
        reveal_strlit("# ");
        assert(name@ =~= seq!['#', ' ']);
    }
    let mut i: usize = 9;
    while i < 18
        invariant
            9 <= i <= 18,
            text@.len() >= 18,
            name@ == seq!['#', ' '] + text@.subrange(9, i as int).map_values(|c: char| raised(c)),
        decreases 18 - i,
    {
        let c = raise(text.get_char(i));
        name.push(c);
        proof {
            assert(text@.subrange(9, i + 1) =~= text@.subrange(9, i as int).push(text@[i as int]));
            assert(text@.subrange(9, i + 1).map_values(|c: char| raised(c)) =~= text@.subrange(
                9,
                i as int,
            ).map_values(|c: char| raised(c)).push(raised(text@[i as int])));
        }
        i += 1;
    }
    Some(name)
}

/// The name is a number sign, a space, four upper-case hexadecimal digits,
/// a hyphen, and four more.
pub open spec fn well_formed_label(name: Seq<char>) -> bool {
    &&& name.len() == 11
    &&& name[0] == '#'
    &&& name[1] == ' '
    &&& name[6] == '-'
    &&& forall|i: int|
        2 <= i < 11 && i != 6 ==> ('0' <= #[trigger] name[i] && name[i] <= '9') || ('A' <= name[i]
            && name[i] <= 'F')
}

/// The name cut from an identifier in the hyphenated form is well formed.
pub proof fn lemma_label_of_identifier(text: Seq<char>)
    requires
        hyphenated(text),
    ensures
        well_formed_label(label_of(text)),
{
    let name = label_of(text);
    assert(name[6] == raised(text[13]));
    assert forall|i: int| 2 <= i < 11 && i != 6 implies ('0' <= #[trigger] name[i] && name[i]
        <= '9') || ('A' <= name[i] && name[i] <= 'F') by {
        assert(name[i] == raised(text[i + 7]));
        assert(is_lower_hex(text[i + 7]));
    }
}

/// A name for a position that has none yet, cut from a fresh random
/// identifier.
pub fn fresh_point_name() -> (name: String)
    ensures
        well_formed_label(name@),
{
    let text = random_identifier();
    proof {
        lemma_label_of_identifier(text@);
    }
    match point_name(text.as_str()) {
        Some(name) => name,
        None => String::new(),
    }
}

} // verus!
