//! The command decoder: from a route's name and its raw path parameter to a
//! typed command within the route's domain.

use crate::actuator::{Command, Field};
use crate::text::{chars_of, spells};
use vstd::prelude::*;

verus! {

/// Name of the route that sets the speed.
pub const ROUTE_SPEED: &'static str = "updateSpeed";

/// Name of the route that sets the steering angle.
pub const ROUTE_STEERING: &'static str = "updateSteering";

/// Name of the route that switches the headlight.
pub const ROUTE_HEADLIGHT: &'static str = "toggleHeadlight";

/// The literal that switches on.
pub const LITERAL_TRUE: &'static str = "true";

/// The literal that switches off.
pub const LITERAL_FALSE: &'static str = "false";

/// Why a path parameter could not become a command.
#[derive(Clone, Copy, Debug, PartialEq, Eq, Structural)]
pub enum DecodeError {
    /// The parameter of a numeric route is no decimal integer.
    NotANumber,
    /// The parameter of a boolean route is neither `true` nor `false`.
    NotABoolean,
    /// The parameter is an integer outside the route's domain.
    OutOfRange,
    /// No route has this name.
    UnknownRoute,
}

/// What a route controls.
#[derive(Clone, Copy, Debug, PartialEq, Eq, Structural)]
pub enum Route {
    Speed,
    Steering,
    Headlight,
}

/// The route that `name` stands for, if any. Names are case-sensitive.
pub open spec fn route_named(name: Seq<char>) -> Option<Route> {
    if name == ROUTE_SPEED@ {
        Some(Route::Speed)
    } else if name == ROUTE_STEERING@ {
        Some(Route::Steering)
    } else if name == ROUTE_HEADLIGHT@ {
        Some(Route::Headlight)
    } else {
        None
    }
}

/// Whether `c` is one of the ten decimal digits.
pub open spec fn is_digit(c: char) -> bool {
    '0' <= c && c <= '9'
}

/// The number that the digit `c` stands for.
pub open spec fn digit_value(c: char) -> int {
    c as int - '0' as int
}

/// Whether `s` holds decimal digits only.
pub open spec fn all_digits(s: Seq<char>) -> bool {
    forall|i: int| 0 <= i < s.len() ==> is_digit(#[trigger] s[i])
}

/// The number that the digits of `s` write in base ten; 0 for no digits.
pub open spec fn digits_value(s: Seq<char>) -> int
    decreases s.len(),
{
    if s.len() == 0 {
        0
    } else {
        10 * digits_value(s.drop_last()) + digit_value(s.last())
    }
}

/// Whether `s` starts with a sign.
pub open spec fn has_sign(s: Seq<char>) -> bool {
    s.len() > 0 && (s[0] == '-' || s[0] == '+')
}

/// What is left of `s` once a leading sign is taken away.
pub open spec fn unsigned_part(s: Seq<char>) -> Seq<char> {
    if has_sign(s) {
        s.drop_first()
    } else {
        s
    }
}

/// Whether `s` writes a base-10 integer: an optional `+` or `-`, then one
/// digit or more, and nothing else.
pub open spec fn is_decimal(s: Seq<char>) -> bool {
    unsigned_part(s).len() > 0 && all_digits(unsigned_part(s))
}

/// The integer that `s` writes, of any size.
pub open spec fn decimal_value(s: Seq<char>) -> int {
    if s.len() > 0 && s[0] == '-' {
        -digits_value(unsigned_part(s))
    } else {
        digits_value(unsigned_part(s))
    }
}

/// What decoding `raw` as a value of `field` returns.
pub open spec fn number_decoded(raw: Seq<char>, field: Field) -> Result<i32, DecodeError> {
    if !is_decimal(raw) {
        Err(DecodeError::NotANumber)
    } else if !field.admits(decimal_value(raw)) {
        Err(DecodeError::OutOfRange)
    } else {
        Ok(decimal_value(raw) as i32)
    }
}

/// What decoding `raw` as a switch position returns.
pub open spec fn switch_decoded(raw: Seq<char>) -> Result<bool, DecodeError> {
    if raw == LITERAL_TRUE@ {
        Ok(true)
    } else if raw == LITERAL_FALSE@ {
        Ok(false)
    } else {
        Err(DecodeError::NotABoolean)
    }
}

/// What decoding the parameter `raw` of the route `name` returns.
pub open spec fn decoded(name: Seq<char>, raw: Seq<char>) -> Result<Command, DecodeError> {
    match route_named(name) {
        None => Err(DecodeError::UnknownRoute),
        Some(Route::Speed) => match number_decoded(raw, Field::Speed) {
            Ok(v) => Ok(Command::SetSpeed(v)),
            Err(e) => Err(e),
        },
        Some(Route::Steering) => match number_decoded(raw, Field::Steering) {
            Ok(v) => Ok(Command::SetSteering(v)),
            Err(e) => Err(e),
        },
        Some(Route::Headlight) => match switch_decoded(raw) {
            Ok(on) => Ok(Command::SetHeadlight(on)),
            Err(e) => Err(e),
        },
    }
}

/// Magnitudes are counted up to this value and no further: it lies beyond
/// the domain of every field.
const MAGNITUDE_CAP: i64 = 1_000_000;

/// Reads the digits of `s` from `start` on. Returns `None` where a character
/// is no digit, else the number they write, or the cap where the number
/// reaches the cap.
fn read_digits(s: &Vec<char>, start: usize) -> (r: Option<i64>)
    requires
        start <= s.len(),
    ensures
        r is Some == all_digits(s@.skip(start as int)),
        r matches Some(m) ==> 0 <= m <= MAGNITUDE_CAP,
        r matches Some(m) ==> {
            let v = digits_value(s@.skip(start as int));
            m == if v < MAGNITUDE_CAP {
                v
            } else {
                MAGNITUDE_CAP as int
            }
        },
{
    let ghost tail = s@.skip(start as int);
    let mut acc: i64 = 0;
    let mut i: usize = start;
    while i < s.len()
        invariant
            start <= i <= s.len(),
            tail == s@.skip(start as int),
            all_digits(tail.take(i - start)),
            0 <= acc <= MAGNITUDE_CAP,
            acc == if digits_value(tail.take(i - start)) < MAGNITUDE_CAP {
                digits_value(tail.take(i - start))
            } else {
                MAGNITUDE_CAP as int
            },
        decreases s.len() - i,
    {
        let c = s[i];
        assert(tail[i - start] == c);
        if !('0' <= c && c <= '9') {
            assert(!all_digits(tail));
            return None;
        }
        let d: i64 = (c as u32 - '0' as u32) as i64;
        let ghost before = tail.take(i - start);
        let ghost after = tail.take(i + 1 - start);
        assert(after.drop_last() =~= before);
        assert(after.last() == c);
        assert forall|k: int| 0 <= k < after.len() implies is_digit(#[trigger] after[k]) by {
            if k < before.len() {
                assert(before[k] == after[k]);
            }
        }
        let wide: i64 = acc * 10 + d;
        acc = if wide < MAGNITUDE_CAP {
            wide
        } else {
            MAGNITUDE_CAP
        };
        i += 1;
    }
    assert(tail.take(i - start) =~= tail);
    Some(acc)
}

/// Decodes `raw` as a base-10 integer within the bounds of `field`.
pub fn decode_number(raw: &str, field: Field) -> (r: Result<i32, DecodeError>)
    ensures
        r == number_decoded(raw@, field),
{
    let s = chars_of(raw);
    let signed = s.len() > 0 && (s[0] == '-' || s[0] == '+');
    let negative = s.len() > 0 && s[0] == '-';
    let start: usize = if signed {
        1
    } else {
        0
    };
    assert(unsigned_part(s@) =~= s@.skip(start as int));
    if start == s.len() {
        return Err(DecodeError::NotANumber);
    }
    match read_digits(&s, start) {
        None => Err(DecodeError::NotANumber),
        Some(m) => {
            let v: i64 = if negative {
                -m
            } else {
                m
            };
            if (field.min() as i64) <= v && v <= (field.max() as i64) {
                Ok(v as i32)
            } else {
                Err(DecodeError::OutOfRange)
            }
        },
    }
}

/// Decodes `raw` as a switch position: exactly `true` or `false`.
pub fn decode_switch(raw: &str) -> (r: Result<bool, DecodeError>)
    ensures
        r == switch_decoded(raw@),
{
    let s = chars_of(raw);
    if spells(&s, LITERAL_TRUE) {
        Ok(true)
    } else if spells(&s, LITERAL_FALSE) {
        Ok(false)
    } else {
        Err(DecodeError::NotABoolean)
    }
}

/// Finds the route that `name` stands for.
pub fn find_route(name: &str) -> (r: Option<Route>)
    ensures
        r == route_named(name@),
{
    let s = chars_of(name);
    if spells(&s, ROUTE_SPEED) {
        Some(Route::Speed)
    } else if spells(&s, ROUTE_STEERING) {
        Some(Route::Steering)
    } else if spells(&s, ROUTE_HEADLIGHT) {
        Some(Route::Headlight)
    } else {
        None
    }
}

/// Decodes the raw parameter of the route `route_name` into a command.
///
/// An unknown name is refused first. A numeric route takes a base-10
/// integer within the bounds of its field; a boolean route takes exactly
/// `true` or `false`.
pub fn decode(route_name: &str, raw_param: &str) -> (r: Result<Command, DecodeError>)
    ensures
        r == decoded(route_name@, raw_param@),
{
    match find_route(route_name) {
        None => Err(DecodeError::UnknownRoute),
        Some(Route::Speed) => match decode_number(raw_param, Field::Speed) {
            Ok(v) => Ok(Command::SetSpeed(v)),
            Err(e) => Err(e),
        },
        Some(Route::Steering) => match decode_number(raw_param, Field::Steering) {
            Ok(v) => Ok(Command::SetSteering(v)),
            Err(e) => Err(e),
        },
        Some(Route::Headlight) => match decode_switch(raw_param) {
            Ok(on) => Ok(Command::SetHeadlight(on)),
            Err(e) => Err(e),
        },
    }
}

} // verus!
