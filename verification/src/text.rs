//! The text that a key press stands for.
//!
//! The toolkit reports the unshifted code of a key even while shift is held,
//! and upper-case codes for letters typed without shift. The functions here
//! undo both, and suppress text altogether for control keys and for keys
//! pressed together with a modifier other than shift.

use crate::modifiers::Modifiers;
use vstd::prelude::*;
use vstd::utf8::is_scalar;

verus! {

/// The codes of keys that never produce text: NUL, backspace, tab, enter,
/// escape and delete.
pub open spec fn is_control_code(code: u32) -> bool {
    code == 0 || code == 8 || code == 9 || code == 13 || code == 27 || code == 127
}

/// The symbol that a key gives while shift is held, for the keys whose
/// shifted symbol the toolkit does not report.
pub open spec fn shifted_symbol(code: u32) -> Option<char> {
    if code == 44 {
        Some('<')
    } else if code == 45 {
        Some('_')
    } else if code == 46 {
        Some('>')
    } else if code == 47 {
        Some('?')
    } else if code == 48 {
        Some(')')
    } else if code == 49 {
        Some('!')
    } else if code == 50 {
        Some('@')
    } else if code == 51 {
        Some('#')
    } else if code == 52 {
        Some('$')
    } else if code == 53 {
        Some('%')
    } else if code == 54 {
        Some('^')
    } else if code == 55 {
        Some('&')
    } else if code == 56 {
        Some('*')
    } else if code == 57 {
        Some('(')
    } else if code == 59 {
        Some(':')
    } else if code == 61 {
        Some('+')
    } else if code == 91 {
        Some('{')
    } else if code == 92 {
        Some('|')
    } else if code == 93 {
        Some('}')
    } else if code == 96 {
        Some('~')
    } else {
        None
    }
}

/// The lower-case form of an ASCII letter; any other character unchanged.
pub open spec fn ascii_lowercase(c: char) -> char {
    if 'A' <= c <= 'Z' {
        ((c as u32) + 32) as char
    } else {
        c
    }
}

/// The Unicode lower-case mapping of a character outside ASCII, which may be
/// longer than one character.
pub uninterp spec fn unicode_lowercase(c: char) -> Seq<char>;

/// The lower-case form of a character, as a string.
pub open spec fn lowercase_of(c: char) -> Seq<char> {
    if (c as u32) < 128 {
        seq![ascii_lowercase(c)]
    } else {
        unicode_lowercase(c)
    }
}

/// Some modifier other than shift is held.
pub open spec fn has_non_shift_modifier(modifiers: Modifiers) -> bool {
    modifiers.spec_difference(Modifiers::shift()) != Modifiers::none()
}

/// The text of a key press, from the raw character code of the event, the
/// modifiers held and whether shift is down.
pub open spec fn derive_text_char(code: u32, modifiers: Modifiers, shift: bool) -> Option<
    Seq<char>,
> {
    if is_control_code(code) {
        None
    } else if has_non_shift_modifier(modifiers) {
        None
    } else if !is_scalar(code) {
        None
    } else if shift {
        match shifted_symbol(code) {
            Some(symbol) => Some(seq![symbol]),
            None => Some(seq![code as char]),
        }
    } else {
        Some(lowercase_of(code as char))
    }
}

/// `char::from_u32` of std: the character with the given scalar value, and
/// nothing for a surrogate or a value above the last code point.
pub assume_specification[ char::from_u32 ](i: u32) -> (r: Option<char>)
    ensures
        r == (if is_scalar(i) {
            Some(i as char)
        } else {
            None
        }),
;

/// `char::to_string` of std: the string that holds the one character.
#[verifier::external_body]
fn char_to_string(c: char) -> (s: String)
    ensures
        s@ == seq![c],
{
    c.to_string()
}

/// `char::to_lowercase` of std, collected into a string: the Unicode
/// lower-case mapping of the character. Of an ASCII character that is the one
/// character that `ascii_lowercase` gives: the letters `A` to `Z` map to `a`
/// to `z`, and no other ASCII character has a mapping.
#[verifier::external_body]
fn lowercase_string(c: char) -> (s: String)
    ensures
        s@ == (if (c as u32) < 128 {
            seq![ascii_lowercase(c)]
        } else {
            unicode_lowercase(c)
        }),
{
    c.to_lowercase().to_string()
}

/// The character that the key with the given code gives while shift is held.
fn apply_shift(code: u32, ch: char) -> (shifted: char)
    requires
        ch as u32 == code,
    ensures
        shifted == (match shifted_symbol(code) {
            Some(symbol) => symbol,
            None => ch,
        }),
{
    match code {
        44 => '<',
        45 => '_',
        46 => '>',
        47 => '?',
        48 => ')',
        49 => '!',
        50 => '@',
        51 => '#',
        52 => '$',
        53 => '%',
        54 => '^',
        55 => '&',
        56 => '*',
        57 => '(',
        59 => ':',
        61 => '+',
        91 => '{',
        92 => '|',
        93 => '}',
        96 => '~',
        _ => ch,
    }
}

/// The text that a key event stands for, if any.
///
/// `code` is the raw character code of the event, `modifiers` the modifier
/// set of the event and `shift_down` whether the event reports shift as held.
pub fn get_event_string(code: u32, modifiers: Modifiers, shift_down: bool) -> (text: Option<String>)
    ensures
        match text {
            Some(s) => derive_text_char(code, modifiers, shift_down) == Some(s@),
            None => derive_text_char(code, modifiers, shift_down) is None,
        },
{
    if code == 0 || code == 8 || code == 9 || code == 13 || code == 27 || code == 127 {
        None
    } else if modifiers - Modifiers::shift() != Modifiers::none() {
        None
    } else {
        match char::from_u32(code) {
            Some(ch) => {
                if shift_down {
                    Some(char_to_string(apply_shift(code, ch)))
                } else {
                    Some(lowercase_string(ch))
                }
            },
            None => None,
        }
    }
}

/// With shift held and no other modifier, a key of the shifted-symbol table
/// gives exactly its symbol.
pub proof fn lemma_shifted_symbol(code: u32, modifiers: Modifiers)
    requires
        shifted_symbol(code) is Some,
        !has_non_shift_modifier(modifiers),
    ensures
        derive_text_char(code, modifiers, true) == Some(seq![shifted_symbol(code)->0]),
{
}

/// With shift held and no other modifier, a key outside the shifted-symbol
/// table gives its own character unchanged, unless it is a control key or its
/// code is no character at all.
pub proof fn lemma_shift_keeps_other_keys(code: u32, modifiers: Modifiers)
    requires
        shifted_symbol(code) is None,
        !has_non_shift_modifier(modifiers),
        !is_control_code(code),
        is_scalar(code),
    ensures
        derive_text_char(code, modifiers, true) == Some(seq![code as char]),
{
}

/// Without shift, a key gives the lower-case form of its character; an ASCII
/// letter gives the same lower-case letter whether its code came in upper or
/// in lower case.
pub proof fn lemma_unshifted_is_lowercase(code: u32, modifiers: Modifiers)
    requires
        !has_non_shift_modifier(modifiers),
        !is_control_code(code),
        is_scalar(code),
    ensures
        derive_text_char(code, modifiers, false) == Some(lowercase_of(code as char)),
        65 <= code <= 90 ==> derive_text_char(code, modifiers, false) == Some(
            seq![(code + 32) as char],
        ),
        97 <= code <= 122 ==> derive_text_char(code, modifiers, false) == Some(
            seq![code as char],
        ),
        65 <= code <= 90 ==> derive_text_char(code, modifiers, false) == derive_text_char(
            (code + 32) as u32,
            modifiers,
            false,
        ),
{
    if 65 <= code <= 90 {
        let upper = code as char;
        let lower = (code + 32) as u32;
        assert(upper as u32 == code);
        assert('A' <= upper <= 'Z');
        assert(ascii_lowercase(upper) == lower as char);
        assert((lower as char) as u32 == lower);
        assert(ascii_lowercase(lower as char) == lower as char);
    }
    if 97 <= code <= 122 {
        assert((code as char) as u32 == code);
        assert(ascii_lowercase(code as char) == code as char);
    }
}

/// A control key gives no text, whatever the modifiers and shift.
pub proof fn lemma_control_codes_give_nothing(code: u32, modifiers: Modifiers, shift: bool)
    requires
        code == 0 || code == 8 || code == 9 || code == 13 || code == 27 || code == 127,
    ensures
        derive_text_char(code, modifiers, shift) is None,
{
}

/// A key pressed with any modifier other than shift gives no text. Only the
/// empty set and shift alone have no such modifier.
pub proof fn lemma_non_shift_modifier_gives_nothing(code: u32, modifiers: Modifiers, shift: bool)
    ensures
        has_non_shift_modifier(modifiers) ==> derive_text_char(code, modifiers, shift) is None,
        has_non_shift_modifier(modifiers) <==> modifiers != Modifiers::none() && modifiers
            != Modifiers::shift(),
{
    let bits = modifiers.bits;
    assert((bits & !4u32 != 0) <==> (bits != 0 && bits != 4)) by (bit_vector);
}

} // verus!
