//! Wide strings: text as the host's services take and give it, in UTF-16
//! code units that end with a unit of zero.

use vstd::prelude::*;

verus! {

/// The UTF-16 code units of a text, as `str::encode_utf16` yields them.
pub uninterp spec fn utf16_of(text: Seq<char>) -> Seq<u16>;

/// The text that a sequence of UTF-16 code units stands for, as
/// `String::from_utf16` decodes it; `None` where it refuses the units.
pub uninterp spec fn utf16_decoded(units: Seq<u16>) -> Option<Seq<char>>;

/// The error of `String::from_utf16`.
#[verifier::external_type_specification]
#[verifier::external_body]
pub struct ExFromUtf16Error(std::string::FromUtf16Error);

/// `str::encode_utf16` of the standard library, its units gathered in a
/// vector. Trusted: the units depend on the characters of `text` alone, and
/// `utf16_of` is the name of that sequence.
#[verifier::external_body]
fn encode_utf16(text: &str) -> (units: Vec<u16>)
    ensures
        units@ == utf16_of(text@),
{
    text.encode_utf16().collect()
}

/// `String::from_utf16` of the standard library. Trusted: whether it accepts
/// the units, and the text it then gives, depend on the units alone, and
/// `utf16_decoded` is the name of that outcome.
pub assume_specification[ String::from_utf16 ](units: &[u16]) -> (decoded: Result<
    String,
    std::string::FromUtf16Error,
>)
    ensures
        match decoded {
            Ok(text) => utf16_decoded(units@) == Some(text@),
            Err(_) => utf16_decoded(units@) is None,
        },
;

/// Why a wide string could not be read out of a buffer.
#[derive(Clone, Copy, Debug, PartialEq, Eq, Structural)]
pub enum WideError {
    /// The buffer ends before a unit of zero is met.
    Unterminated,
    /// The units before the terminator are not well-formed UTF-16.
    Malformed,
}

/// The wide form of a text: its UTF-16 units, then the terminator.
pub open spec fn wide_form(text: Seq<char>) -> Seq<u16> {
    utf16_of(text).push(0u16)
}

/// The code unit that two bytes hold, the low byte first.
pub open spec fn unit_at(bytes: Seq<u8>, at: int) -> u16
    recommends
        0 <= at,
        at + 2 <= bytes.len(),
{
    (bytes[at] as int + 256 * (bytes[at + 1] as int)) as u16
}

/// The units of the wide string that starts at byte `at`, without its
/// terminator; `None` where the bytes end before a terminator.
pub open spec fn wide_units(bytes: Seq<u8>, at: int) -> Option<Seq<u16>>
    decreases bytes.len() - at,
{
    if at < 0 || at + 2 > bytes.len() {
        None
    } else if unit_at(bytes, at) == 0 {
        Some(Seq::empty())
    } else {
        match wide_units(bytes, at + 2) {
            Some(rest) => Some(seq![unit_at(bytes, at)] + rest),
            None => None,
        }
    }
}

/// The unit with the given index of the wide string that starts at byte `at`.
pub open spec fn unit_of(bytes: Seq<u8>, at: int, index: int) -> u16 {
    unit_at(bytes, at + 2 * index)
}

/// What reading the wide string at byte `at` gives.
pub open spec fn wide_text(bytes: Seq<u8>, at: int) -> Result<Seq<char>, WideError> {
    match wide_units(bytes, at) {
        None => Err(WideError::Unterminated),
        Some(units) => match utf16_decoded(units) {
            Some(text) => Ok(text),
            None => Err(WideError::Malformed),
        },
    }
}

/// Units already read, followed by what the rest of the buffer gives.
spec fn continued(read: Seq<u16>, rest: Option<Seq<u16>>) -> Option<Seq<u16>> {
    match rest {
        Some(units) => Some(read + units),
        None => None,
    }
}

/// The units of a wide string are those before its first unit of zero: where
/// a string is read, its units stand in the buffer one after the other, none
/// of them is zero, and a unit of zero follows them inside the buffer; where
/// none is read, no unit from `at` to the buffer's end is zero.
pub proof fn law_units_end_at_the_first_zero(bytes: Seq<u8>, at: int)
    ensures
        match wide_units(bytes, at) {
            Some(units) => {
                &&& 0 <= at
                &&& at + 2 * units.len() + 2 <= bytes.len()
                &&& unit_of(bytes, at, units.len() as int) == 0
                &&& forall|index: int|
                    0 <= index < units.len() ==> #[trigger] units[index] == unit_of(bytes, at, index)
                        && units[index] != 0
            },
            None => at < 0 || forall|index: int|
                0 <= index && at + 2 * index + 2 <= bytes.len() ==> #[trigger] unit_of(
                    bytes,
                    at,
                    index,
                ) != 0,
        },
    decreases bytes.len() - at,
{
    if at < 0 || at + 2 > bytes.len() {
    } else if unit_at(bytes, at) == 0 {
    } else {
        law_units_end_at_the_first_zero(bytes, at + 2);
        match wide_units(bytes, at + 2) {
            Some(rest) => {
                let units = seq![unit_at(bytes, at)] + rest;
                assert(unit_of(bytes, at + 2, rest.len() as int) == unit_of(
                    bytes,
                    at,
                    units.len() as int,
                ));
                assert forall|index: int| 0 <= index < units.len() implies #[trigger] units[index]
                    == unit_of(bytes, at, index) && units[index] != 0 by {
                    if index > 0 {
                        assert(units[index] == rest[index - 1]);
                        assert(unit_of(bytes, at + 2, index - 1) == unit_of(bytes, at, index));
                    }
                }
            },
            None => {
                assert forall|index: int|
                    0 <= index && at + 2 * index + 2 <= bytes.len() implies #[trigger] unit_of(
                    bytes,
                    at,
                    index,
                ) != 0 by {
                    if index > 0 {
                        assert(unit_of(bytes, at + 2, index - 1) == unit_of(bytes, at, index));
                    }
                }
            },
        }
    }
}

/// Puts the terminator behind a run of code units.
pub fn with_terminator(units: Vec<u16>) -> (wide: Vec<u16>)
    ensures
        wide@ == units@.push(0u16),
{
    let mut wide = units;
    wide.push(0);
    wide
}

/// Encodes a text for the host: UTF-16 units and a terminating zero.
pub fn str_to_wcstring(text: &str) -> (wide: Vec<u16>)
    ensures
        wide@ == wide_form(text@),
{
    with_terminator(encode_utf16(text))
}

/// Reads the code units of the wide string that starts at byte `at` of a
/// buffer, up to its terminator, never looking past the buffer's end.
pub fn read_units(bytes: &[u8], at: usize) -> (units: Option<Vec<u16>>)
    ensures
        match units {
            Some(read) => wide_units(bytes@, at as int) == Some(read@),
            None => wide_units(bytes@, at as int) is None,
        },
{
    let mut units: Vec<u16> = Vec::new();
    let mut cursor: usize = at;
    loop
        invariant
            at <= cursor,
            wide_units(bytes@, at as int) == continued(units@, wide_units(bytes@, cursor as int)),
        ensures
            wide_units(bytes@, at as int) == Some(units@),
        decreases bytes.len() - cursor,
    {
        if bytes.len() < 2 || cursor > bytes.len() - 2 {
            return None;
        }
        let unit: u16 = bytes[cursor] as u16 + 256 * (bytes[cursor + 1] as u16);
        if unit == 0 {
            assert(units@ + Seq::<u16>::empty() =~= units@);
            break ;
        }
        proof {
            let rest = wide_units(bytes@, cursor + 2);
            if rest is Some {
                assert(units@.push(unit) + rest->0 =~= units@ + (seq![unit] + rest->0));
            }
        }
        units.push(unit);
        cursor = cursor + 2;
    }
    Some(units)
}

/// Reads the zero-terminated wide string that starts at byte `at` of a
/// buffer, never looking past the buffer's end.
pub fn wcstr_to_string(bytes: &[u8], at: usize) -> (text: Result<String, WideError>)
    ensures
        match text {
            Ok(s) => wide_text(bytes@, at as int) == Ok::<Seq<char>, WideError>(s@),
            Err(e) => wide_text(bytes@, at as int) == Err::<Seq<char>, WideError>(e),
        },
{
    match read_units(bytes, at) {
        None => Err(WideError::Unterminated),
        Some(units) => match String::from_utf16(units.as_slice()) {
            Ok(s) => Ok(s),
            Err(_) => Err(WideError::Malformed),
        },
    }
}

} // verus!
