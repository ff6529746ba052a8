//! The color-object grammar: turning a request body into a color command.
//!
//! A write request carries one JSON object of the shape
//! `{"r": <0-255>, "g": <0-255>, "b": <0-255>}` on a line of its own. The
//! grammar accepted here is exactly that: the keys `r`, `g` and `b` in any
//! order, each exactly once — key order is not significant in a JSON object —
//! each value an unsigned decimal integer of at most three digits without a
//! sign or leading zeros and no larger than 255, JSON whitespace (space, tab,
//! carriage return, line feed) permitted between tokens, and nothing but such
//! whitespace after the closing brace. Anything else — a missing or repeated
//! key, any other key, an out-of-range value — is malformed and yields no
//! command.
//!
//! The grammar is stated by spec functions over byte sequences; the exec
//! functions mirror them one for one and are proved to return exactly what
//! the grammar says.

use vstd::prelude::*;

use crate::color::ColorCommand;

verus! {

/// The byte values the grammar speaks of.
pub const BYTE_SPACE: u8 = 32;

pub const BYTE_TAB: u8 = 9;

pub const BYTE_QUOTE: u8 = 34;

pub const BYTE_COMMA: u8 = 44;

pub const BYTE_COLON: u8 = 58;

pub const BYTE_LBRACE: u8 = 123;

pub const BYTE_RBRACE: u8 = 125;

pub const BYTE_ZERO: u8 = 48;

pub const BYTE_NINE: u8 = 57;

pub const BYTE_LOWER_R: u8 = 114;

pub const BYTE_LOWER_G: u8 = 103;

pub const BYTE_LOWER_B: u8 = 98;

pub const BYTE_CR: u8 = 13;

pub const BYTE_LF: u8 = 10;

/// Whether `c` is JSON whitespace, which the grammar lets stand between
/// tokens.
pub open spec fn is_space(c: u8) -> bool {
    c == BYTE_SPACE || c == BYTE_TAB || c == BYTE_CR || c == BYTE_LF
}

/// Whether `c` is a decimal digit.
pub open spec fn is_digit(c: u8) -> bool {
    BYTE_ZERO <= c <= BYTE_NINE
}

/// The numeric value of a digit byte.
pub open spec fn digit_value(c: u8) -> int {
    c - BYTE_ZERO
}

/// The first position at or after `i` that does not hold whitespace.
pub open spec fn skip_spaces(s: Seq<u8>, i: int) -> int
    decreases s.len() - i
        when 0 <= i <= s.len()
{
    if i < s.len() && is_space(s[i]) {
        skip_spaces(s, i + 1)
    } else {
        i
    }
}

/// Demands the byte `c` at position `i`; the position after it on success.
pub open spec fn expect_byte(s: Seq<u8>, i: int, c: u8) -> Option<int> {
    if 0 <= i < s.len() && s[i] == c {
        Some(i + 1)
    } else {
        None
    }
}

/// How many digits stand at position `i`: zero to three, or four meaning too
/// many for a channel value.
pub open spec fn digit_count(s: Seq<u8>, i: int) -> int {
    if !(0 <= i < s.len() && is_digit(s[i])) {
        0
    } else if !(i + 1 < s.len() && is_digit(s[i + 1])) {
        1
    } else if !(i + 2 < s.len() && is_digit(s[i + 2])) {
        2
    } else if !(i + 3 < s.len() && is_digit(s[i + 3])) {
        3
    } else {
        4
    }
}

/// The value of the `n` digits at position `i`, for `n` in one to three.
pub open spec fn number_value(s: Seq<u8>, i: int, n: int) -> int {
    if n == 1 {
        digit_value(s[i])
    } else if n == 2 {
        digit_value(s[i]) * 10 + digit_value(s[i + 1])
    } else {
        digit_value(s[i]) * 100 + digit_value(s[i + 1]) * 10 + digit_value(s[i + 2])
    }
}

/// Demands a channel value at position `i`: one to three digits, no leading
/// zero, value at most 255. On success, the value and the position after it.
pub open spec fn scan_number(s: Seq<u8>, i: int) -> Option<(int, int)> {
    let n = digit_count(s, i);
    if n == 0 || n == 4 {
        None
    } else if n > 1 && s[i] == BYTE_ZERO {
        None
    } else if number_value(s, i, n) > 255 {
        None
    } else {
        Some((number_value(s, i, n), i + n))
    }
}

/// Whether `c` is one of the three channel keys.
pub open spec fn is_channel_key(c: u8) -> bool {
    c == BYTE_LOWER_R || c == BYTE_LOWER_G || c == BYTE_LOWER_B
}

/// Demands one `"key": value` member starting at position `i`, where the key
/// is any one of `r`, `g` and `b`, whitespace permitted around the key and
/// the colon. On success, the key, the channel value, and the position after
/// its last digit.
pub open spec fn scan_member(s: Seq<u8>, i: int) -> Option<(u8, int, int)> {
    match expect_byte(s, skip_spaces(s, i), BYTE_QUOTE) {
        None => None,
        Some(k) => {
            if !(k < s.len() && is_channel_key(s[k])) {
                None
            } else {
                match expect_byte(s, k + 1, BYTE_QUOTE) {
                    None => None,
                    Some(m) => match expect_byte(s, skip_spaces(s, m), BYTE_COLON) {
                        None => None,
                        Some(p) => match scan_number(s, skip_spaces(s, p)) {
                            None => None,
                            Some((v, q)) => Some((s[k], v, q)),
                        },
                    },
                }
            }
        },
    }
}

/// The value bound to `name` among the three parsed members.
pub open spec fn member_value(
    k1: u8,
    v1: int,
    k2: u8,
    v2: int,
    k3: u8,
    v3: int,
    name: u8,
) -> int {
    if k1 == name {
        v1
    } else if k2 == name {
        v2
    } else {
        v3
    }
}

/// Parses a whole body line as a color object. `Some` exactly when the line
/// is a brace-enclosed, comma-separated list of the three members `"r"`,
/// `"g"` and `"b"` — in any order, each exactly once — with optional
/// whitespace between tokens and nothing else; the command then carries the
/// value each key was bound to.
pub open spec fn parse_color(s: Seq<u8>) -> Option<ColorCommand> {
    match expect_byte(s, skip_spaces(s, 0), BYTE_LBRACE) {
        None => None,
        Some(i1) => match scan_member(s, i1) {
            None => None,
            Some((k1, v1, i2)) => match expect_byte(s, skip_spaces(s, i2), BYTE_COMMA) {
                None => None,
                Some(i3) => match scan_member(s, i3) {
                    None => None,
                    Some((k2, v2, i4)) => match expect_byte(s, skip_spaces(s, i4), BYTE_COMMA) {
                        None => None,
                        Some(i5) => match scan_member(s, i5) {
                            None => None,
                            Some((k3, v3, i6)) => match expect_byte(
                                s,
                                skip_spaces(s, i6),
                                BYTE_RBRACE,
                            ) {
                                None => None,
                                Some(i7) => {
                                    if skip_spaces(s, i7) == s.len() && k1 != k2 && k1 != k3 && k2
                                        != k3 {
                                        Some(
                                            ColorCommand {
                                                r: member_value(
                                                    k1,
                                                    v1,
                                                    k2,
                                                    v2,
                                                    k3,
                                                    v3,
                                                    BYTE_LOWER_R,
                                                ) as u8,
                                                g: member_value(
                                                    k1,
                                                    v1,
                                                    k2,
                                                    v2,
                                                    k3,
                                                    v3,
                                                    BYTE_LOWER_G,
                                                ) as u8,
                                                b: member_value(
                                                    k1,
                                                    v1,
                                                    k2,
                                                    v2,
                                                    k3,
                                                    v3,
                                                    BYTE_LOWER_B,
                                                ) as u8,
                                            },
                                        )
                                    } else {
                                        None
                                    }
                                },
                            },
                        },
                    },
                },
            },
        },
    }
}

/// Whether a body line is a well-formed color object.
pub open spec fn is_valid_color_body(s: Seq<u8>) -> bool {
    parse_color(s) is Some
}

/// The first position at or after `i` that does not hold whitespace.
fn skip_spaces_bytes(s: &[u8], i: usize) -> (j: usize)
    requires
        i <= s@.len(),
    ensures
        j == skip_spaces(s@, i as int),
        i <= j <= s@.len(),
{
    let mut j = i;
    while j < s.len() && (s[j] == BYTE_SPACE || s[j] == BYTE_TAB || s[j] == BYTE_CR || s[j]
        == BYTE_LF)
        invariant
            i <= j <= s@.len(),
            skip_spaces(s@, i as int) == skip_spaces(s@, j as int),
        decreases s@.len() - j,
    {
        j = j + 1;
    }
    j
}

/// Demands the byte `c` at position `i`.
fn expect_byte_at(s: &[u8], i: usize, c: u8) -> (r: Option<usize>)
    requires
        i <= s@.len(),
    ensures
        (match r {
            Some(j) => expect_byte(s@, i as int, c) == Some(j as int) && j <= s@.len(),
            None => expect_byte(s@, i as int, c) is None,
        }),
{
    if i < s.len() && s[i] == c {
        Some(i + 1)
    } else {
        None
    }
}

/// Demands a channel value at position `i`: the value and the position after
/// its last digit, or `None` where the grammar refuses the digits.
fn scan_number_at(s: &[u8], i: usize) -> (r: Option<(u8, usize)>)
    requires
        i <= s@.len(),
    ensures
        (match r {
            Some(p) => scan_number(s@, i as int) == Some((p.0 as int, p.1 as int)) && p.1
                <= s@.len(),
            None => scan_number(s@, i as int) is None,
        }),
{
    if !(i < s.len() && BYTE_ZERO <= s[i] && s[i] <= BYTE_NINE) {
        return None;
    }
    let d0 = s[i] - BYTE_ZERO;
    if !(i + 1 < s.len() && BYTE_ZERO <= s[i + 1] && s[i + 1] <= BYTE_NINE) {
        return Some((d0, i + 1));
    }
    if s[i] == BYTE_ZERO {
        return None;
    }
    let d1 = s[i + 1] - BYTE_ZERO;
    if !(i + 2 < s.len() && BYTE_ZERO <= s[i + 2] && s[i + 2] <= BYTE_NINE) {
        return Some((d0 * 10 + d1, i + 2));
    }
    let d2 = s[i + 2] - BYTE_ZERO;
    if i + 3 < s.len() && BYTE_ZERO <= s[i + 3] && s[i + 3] <= BYTE_NINE {
        return None;
    }
    let v: u16 = (d0 as u16) * 100 + (d1 as u16) * 10 + (d2 as u16);
    if v > 255 {
        None
    } else {
        Some((v as u8, i + 3))
    }
}

/// Demands one `"key": value` member starting at position `i`, the key any
/// one of `r`, `g` and `b`. On success, the key, the value, and the position
/// after the last digit.
fn scan_member_at(s: &[u8], i: usize) -> (r: Option<(u8, u8, usize)>)
    requires
        i <= s@.len(),
    ensures
        (match r {
            Some(t) => scan_member(s@, i as int) == Some((t.0, t.1 as int, t.2 as int)) && t.2
                <= s@.len(),
            None => scan_member(s@, i as int) is None,
        }),
{
    let j = skip_spaces_bytes(s, i);
    let k = match expect_byte_at(s, j, BYTE_QUOTE) {
        None => {
            return None;
        },
        Some(k) => k,
    };
    if !(k < s.len() && (s[k] == BYTE_LOWER_R || s[k] == BYTE_LOWER_G || s[k] == BYTE_LOWER_B)) {
        return None;
    }
    let name = s[k];
    let m = match expect_byte_at(s, k + 1, BYTE_QUOTE) {
        None => {
            return None;
        },
        Some(m) => m,
    };
    let m2 = skip_spaces_bytes(s, m);
    let p = match expect_byte_at(s, m2, BYTE_COLON) {
        None => {
            return None;
        },
        Some(p) => p,
    };
    let p2 = skip_spaces_bytes(s, p);
    match scan_number_at(s, p2) {
        None => None,
        Some((v, q)) => Some((name, v, q)),
    }
}

/// Parses a body line as a color object: `Some` exactly when [`parse_color`]
/// accepts the line, carrying the three channel values it gives.
pub fn parse_color_bytes(body: &[u8]) -> (r: Option<ColorCommand>)
    ensures
        r == parse_color(body@),
{
    let i0 = skip_spaces_bytes(body, 0);
    let i1 = match expect_byte_at(body, i0, BYTE_LBRACE) {
        None => {
            return None;
        },
        Some(i1) => i1,
    };
    let (k1, v1, i2) = match scan_member_at(body, i1) {
        None => {
            return None;
        },
        Some(t) => t,
    };
    let i2b = skip_spaces_bytes(body, i2);
    let i3 = match expect_byte_at(body, i2b, BYTE_COMMA) {
        None => {
            return None;
        },
        Some(j) => j,
    };
    let (k2, v2, i4) = match scan_member_at(body, i3) {
        None => {
            return None;
        },
        Some(t) => t,
    };
    let i4b = skip_spaces_bytes(body, i4);
    let i5 = match expect_byte_at(body, i4b, BYTE_COMMA) {
        None => {
            return None;
        },
        Some(j) => j,
    };
    let (k3, v3, i6) = match scan_member_at(body, i5) {
        None => {
            return None;
        },
        Some(t) => t,
    };
    let i6b = skip_spaces_bytes(body, i6);
    let i7 = match expect_byte_at(body, i6b, BYTE_RBRACE) {
        None => {
            return None;
        },
        Some(j) => j,
    };
    if skip_spaces_bytes(body, i7) == body.len() && k1 != k2 && k1 != k3 && k2 != k3 {
        let r = if k1 == BYTE_LOWER_R {
            v1
        } else if k2 == BYTE_LOWER_R {
            v2
        } else {
            v3
        };
        let g = if k1 == BYTE_LOWER_G {
            v1
        } else if k2 == BYTE_LOWER_G {
            v2
        } else {
            v3
        };
        let b = if k1 == BYTE_LOWER_B {
            v1
        } else if k2 == BYTE_LOWER_B {
            v2
        } else {
            v3
        };
        Some(ColorCommand::new(r, g, b))
    } else {
        None
    }
}

} // verus!
