//! What the snapshot commands decide from the text of a snapshot: the header
//! it must start with, and which HLSL target profiles a compiler takes.
//! Text is taken as its bytes.

use vstd::prelude::*;
use vstd::slice::slice_subrange;
use vstd::string::StringSliceAdditionalSpecFns;

verus! {

pub const NEWLINE: u8 = 10;

pub const PLUS: u8 = 43;

pub const DIGIT_ZERO: u8 = 48;

pub const DIGIT_NINE: u8 = 57;

pub const UNDERSCORE: u8 = 95;

/// Whether `text` begins with `prefix`.
pub open spec fn starts_with(text: Seq<u8>, prefix: Seq<u8>) -> bool {
    prefix.len() <= text.len() && text.subrange(0, prefix.len() as int) == prefix
}

/// What follows `prefix` in `text`, where `text` begins with it.
pub open spec fn after_prefix(text: Seq<u8>, prefix: Seq<u8>) -> Option<Seq<u8>> {
    if starts_with(text, prefix) {
        Some(text.skip(prefix.len() as int))
    } else {
        None
    }
}

/// `text` without one line feed at its end, if it ends in one.
pub open spec fn without_newline(text: Seq<u8>) -> Seq<u8> {
    if text.len() > 0 && text.last() == NEWLINE {
        text.drop_last()
    } else {
        text
    }
}

/// The rest of `text` after `prefix`, or nothing where `text` does not begin
/// with `prefix`.
pub fn strip_prefix<'a>(text: &'a [u8], prefix: &[u8]) -> (rest: Option<&'a [u8]>)
    ensures
        match rest {
            Some(rest) => after_prefix(text@, prefix@) == Some(rest@),
            None => after_prefix(text@, prefix@) is None,
        },
{
    if prefix.len() > text.len() {
        return None;
    }
    let mut i: usize = 0;
    while i < prefix.len()
        invariant
            i <= prefix@.len() <= text@.len(),
            text@.subrange(0, i as int) == prefix@.subrange(0, i as int),
        decreases prefix@.len() - i,
    {
        if text[i] != prefix[i] {
            assert(text@.subrange(0, prefix@.len() as int)[i as int] != prefix@[i as int]);
            return None;
        }
        assert(text@.subrange(0, i + 1) =~= text@.subrange(0, i as int).push(text@[i as int]));
        assert(prefix@.subrange(0, i + 1) =~= prefix@.subrange(0, i as int).push(
            prefix@[i as int],
        ));
        i += 1;
    }
    assert(prefix@.subrange(0, i as int) =~= prefix@);
    Some(slice_subrange(text, prefix.len(), text.len()))
}

/// `text` without one line feed at its end, if it ends in one.
pub fn strip_newline(text: &[u8]) -> (rest: &[u8])
    ensures
        rest@ == without_newline(text@),
{
    let len = text.len();
    if len > 0 && text[len - 1] == NEWLINE {
        slice_subrange(text, 0, len - 1)
    } else {
        text
    }
}

/// The header that the second line of a SPIR-V assembly snapshot starts
/// with.
pub open spec fn spirv_version_header() -> Seq<u8> {
    "; Version: ".spec_bytes()
}

/// The header that the first line of a Metal snapshot starts with.
pub open spec fn metal_language_header() -> Seq<u8> {
    "// language: ".spec_bytes()
}

/// The SPIR-V version that a snapshot was written for: what follows the
/// version header on its second line, the end of the line included.
pub fn spirv_version(second_line: &[u8]) -> (version: Option<&[u8]>)
    ensures
        match version {
            Some(version) => after_prefix(second_line@, spirv_version_header()) == Some(
                version@,
            ),
            None => after_prefix(second_line@, spirv_version_header()) is None,
        },
{
    strip_prefix(second_line, "; Version: ".as_bytes())
}

/// The Metal language version that a snapshot was written for: what follows
/// the language header on its first line, without the line feed.
pub fn metal_language(first_line: &[u8]) -> (language: Option<&[u8]>)
    ensures
        match language {
            Some(language) => after_prefix(first_line@, metal_language_header()) matches Some(
                rest,
            ) && language@ == without_newline(rest),
            None => after_prefix(first_line@, metal_language_header()) is None,
        },
{
    match strip_prefix(first_line, "// language: ".as_bytes()) {
        Some(rest) => Some(strip_newline(rest)),
        None => None,
    }
}

/// The position of the first `byte` in `text` at or after `from`, or the
/// length of `text` if there is none.
pub open spec fn position_of(text: Seq<u8>, byte: u8, from: int) -> int
    decreases text.len() - from,
{
    if from < 0 || from >= text.len() {
        text.len() as int
    } else if text[from] == byte {
        from
    } else {
        position_of(text, byte, from + 1)
    }
}

/// The position of the first `byte` in `text` at or after `from`, or the
/// length of `text` if there is none.
pub fn find_byte(text: &[u8], byte: u8, from: usize) -> (position: usize)
    requires
        from <= text@.len(),
    ensures
        position == position_of(text@, byte, from as int),
        from <= position <= text@.len(),
{
    let mut i: usize = from;
    while i < text.len() && text[i] != byte
        invariant
            from <= i <= text@.len(),
            position_of(text@, byte, from as int) == position_of(text@, byte, i as int),
        decreases text@.len() - i,
    {
        i += 1;
    }
    i
}

/// The piece of `text` between its first and its second underscore, or
/// after its first underscore if it has no second; nothing if it has none.
pub open spec fn second_segment(text: Seq<u8>) -> Option<Seq<u8>> {
    let first = position_of(text, UNDERSCORE, 0);
    if first >= text.len() {
        None
    } else {
        Some(text.subrange(first + 1, position_of(text, UNDERSCORE, first + 1)))
    }
}

/// Whether `byte` writes a decimal digit.
pub open spec fn is_digit(byte: u8) -> bool {
    DIGIT_ZERO <= byte <= DIGIT_NINE
}

/// Whether every byte of `text` writes a decimal digit.
pub open spec fn all_digits(text: Seq<u8>) -> bool {
    forall|i: int| 0 <= i < text.len() ==> is_digit(#[trigger] text[i])
}

/// The number that the digits of `text` write in base ten.
pub open spec fn decimal_value(text: Seq<u8>) -> int
    decreases text.len(),
{
    if text.len() == 0 {
        0
    } else {
        decimal_value(text.drop_last()) * 10 + (text.last() - DIGIT_ZERO)
    }
}

/// The numeral without a plus sign at its start.
pub open spec fn unsigned_part(text: Seq<u8>) -> Seq<u8> {
    if text.len() > 0 && text[0] == PLUS {
        text.skip(1)
    } else {
        text
    }
}

/// The number that `text` writes, if it is a decimal numeral of a number up
/// to 255: an optional plus sign, then one digit or more.
pub open spec fn parsed_u8(text: Seq<u8>) -> Option<u8> {
    let digits = unsigned_part(text);
    if digits.len() > 0 && all_digits(digits) && decimal_value(digits) <= u8::MAX {
        Some(decimal_value(digits) as u8)
    } else {
        None
    }
}

/// A numeral is worth at least as much as any numeral it begins with.
proof fn decimal_value_grows(text: Seq<u8>, len: int)
    requires
        all_digits(text),
        0 <= len <= text.len(),
    ensures
        0 <= decimal_value(text.take(len)) <= decimal_value(text),
    decreases text.len() - len,
{
    if len == text.len() {
        assert(text.take(len) =~= text);
        decimal_value_is_natural(text);
    } else {
        decimal_value_grows(text, len + 1);
        let longer = text.take(len + 1);
        assert(longer.drop_last() =~= text.take(len));
        assert(is_digit(text[len]));
        decimal_value_is_natural(text.take(len));
    }
}

proof fn decimal_value_is_natural(text: Seq<u8>)
    requires
        all_digits(text),
    ensures
        0 <= decimal_value(text),
    decreases text.len(),
{
    if text.len() > 0 {
        assert(is_digit(text.last()));
        decimal_value_is_natural(text.drop_last());
    }
}

/// Reads a decimal numeral of a number up to 255.
pub fn parse_u8(text: &[u8]) -> (number: Option<u8>)
    ensures
        number == parsed_u8(text@),
{
    let len = text.len();
    let start: usize = if len > 0 && text[0] == PLUS {
        1
    } else {
        0
    };
    if start == len {
        return None;
    }
    let ghost digits = unsigned_part(text@);
    assert(digits =~= text@.subrange(start as int, len as int));
    let mut value: u32 = 0;
    let mut i: usize = start;
    while i < len
        invariant
            start <= i <= len,
            len == text@.len(),
            digits == text@.subrange(start as int, len as int),
            digits == unsigned_part(text@),
            all_digits(digits.take(i - start)),
            value == decimal_value(digits.take(i - start)),
            value <= u8::MAX,
        decreases len - i,
    {
        let byte = text[i];
        assert(digits[i - start] == byte);
        if byte < DIGIT_ZERO || byte > DIGIT_NINE {
            assert(!is_digit(digits[i - start]));
            return None;
        }
        let ghost longer = digits.take(i - start + 1);
        assert(longer.drop_last() =~= digits.take(i - start));
        assert(longer.last() == byte);
        assert forall|j: int| 0 <= j < longer.len() implies is_digit(#[trigger] longer[j]) by {
            if j < i - start {
                assert(longer[j] == digits.take(i - start)[j]);
            }
        }
        value = value * 10 + (byte - DIGIT_ZERO) as u32;
        if value > 255 {
            proof {
                assert(value == decimal_value(longer));
                if all_digits(digits) {
                    decimal_value_grows(digits, i - start + 1);
                }
            }
            return None;
        }
        i += 1;
    }
    assert(digits.take(i - start) =~= digits);
    Some(value as u8)
}

/// The major version of the shader model that a target profile of the form
/// `model_major_minor` names.
pub open spec fn major_version_of(target_profile: Seq<u8>) -> Option<u8> {
    match second_segment(target_profile) {
        Some(segment) => parsed_u8(segment),
        None => None,
    }
}

/// The major version of the shader model that `target_profile` names, or
/// nothing where the profile is not of the form `model_major_minor`.
pub fn shader_model_major_version(target_profile: &[u8]) -> (major: Option<u8>)
    ensures
        major == major_version_of(target_profile@),
{
    let first = find_byte(target_profile, UNDERSCORE, 0);
    if first >= target_profile.len() {
        return None;
    }
    let second = find_byte(target_profile, UNDERSCORE, first + 1);
    parse_u8(slice_subrange(target_profile, first + 1, second))
}

/// What to do with an entry point when validating with `fxc`.
#[derive(Clone, Copy, Debug, PartialEq, Eq, Structural)]
pub enum FxcAction {
    /// The profile is of a shader model before 6: compile it.
    Validate,
    /// The profile is of shader model 6 or later, which `fxc` does not take.
    Skip,
    /// The profile names no shader model.
    Malformed,
}

/// What to do with an entry point of `target_profile` when validating with
/// `fxc`.
pub fn fxc_action(target_profile: &[u8]) -> (action: FxcAction)
    ensures
        action == match major_version_of(target_profile@) {
            Some(major) => if major < 6 {
                FxcAction::Validate
            } else {
                FxcAction::Skip
            },
            None => FxcAction::Malformed,
        },
{
    match shader_model_major_version(target_profile) {
        Some(major) => if major < 6 {
            FxcAction::Validate
        } else {
            FxcAction::Skip
        },
        None => FxcAction::Malformed,
    }
}

/// Takes the value out of `result`; where there is none, raises `found_err`
/// instead, so that a run over many files can go on and fail at its end.
pub fn flag_if_err<T, E>(result: Result<T, E>, found_err: &mut bool) -> (value: Option<T>)
    ensures
        match result {
            Ok(found) => value == Some(found) && *final(found_err) == *old(found_err),
            Err(_) => value is None && *final(found_err),
        },
{
    match result {
        Ok(found) => Some(found),
        Err(_) => {
            *found_err = true;
            None
        },
    }
}

} // verus!
