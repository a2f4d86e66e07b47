//! Command-line argument validation.
//!
//! The renderer binary parses its command line with an ordinary argument
//! parser; every rule about which values are acceptable lives here, stated
//! and proved: counts must be positive decimal numbers that fit their
//! integer type, and the output path must carry a file extension naming an
//! image format that can be written.

use vstd::prelude::*;

use crate::scenes::SceneType;

verus! {

// ------------------------------------------------------------------
// Decimal counts
// ------------------------------------------------------------------

/// Whether `c` is a decimal digit.
pub open spec fn is_digit(c: char) -> bool {
    48 <= c as u32 && c as u32 <= 57
}

/// The numeric value of a decimal digit character.
pub open spec fn digit_value(c: char) -> int {
    c as u32 - 48
}

/// The number denoted by a sequence of decimal digits, most significant
/// digit first.
pub open spec fn decimal_value(s: Seq<char>) -> int
    decreases s.len(),
{
    if s.len() == 0 {
        0
    } else {
        decimal_value(s.drop_last()) * 10 + digit_value(s.last())
    }
}

/// A count argument may carry one optional leading plus sign; this is the
/// part that must be all digits.
pub open spec fn count_body(s: Seq<char>) -> Seq<char> {
    if s.len() > 0 && s[0] == '+' {
        s.drop_first()
    } else {
        s
    }
}

/// How many leading characters of `s` are decimal digits.
pub open spec fn digit_prefix_len(s: Seq<char>) -> int
    decreases s.len(),
{
    if s.len() == 0 || !is_digit(s[0]) {
        0
    } else {
        1 + digit_prefix_len(s.drop_first())
    }
}

/// Whether the whole string is a well-formed unsigned decimal: an optional
/// leading plus sign followed by one or more digits.
pub open spec fn is_decimal_string(s: Seq<char>) -> bool {
    &&& count_body(s).len() > 0
    &&& forall|i: int| 0 <= i < count_body(s).len() ==> is_digit(count_body(s)[i])
}

/// Why a count argument was rejected, mirroring the distinctions an integer
/// parser in the standard library draws.
#[derive(Debug, Clone, Copy, PartialEq, Eq, Structural)]
pub enum CountError {
    /// The argument was empty.
    Empty,
    /// A character that is not a decimal digit was encountered before the
    /// accumulated digits overflowed the target type.
    InvalidDigit,
    /// The digits seen so far already exceed the target type's maximum.
    TooLarge,
}

/// The digit prefix is well defined: its characters are digits, and it is
/// either the whole string or stops at the first non-digit.
proof fn lemma_digit_prefix_props(s: Seq<char>)
    ensures
        0 <= digit_prefix_len(s) <= s.len(),
        forall|j: int| 0 <= j < digit_prefix_len(s) ==> is_digit(s[j]),
        digit_prefix_len(s) < s.len() ==> !is_digit(s[digit_prefix_len(s)]),
    decreases s.len(),
{
    if s.len() == 0 || !is_digit(s[0]) {
    } else {
        lemma_digit_prefix_props(s.drop_first());
        assert forall|j: int| 0 <= j < digit_prefix_len(s) implies is_digit(s[j]) by {
            if j > 0 {
                assert(is_digit(s.drop_first()[j - 1]));
            }
        }
    }
}

/// A sequence of digits denotes a nonnegative number, and the number grows
/// (weakly) with every digit appended: every prefix denotes at most the
/// value of the whole.
proof fn lemma_decimal_prefix_le(s: Seq<char>, j: int)
    requires
        0 <= j <= s.len(),
        forall|i: int| 0 <= i < s.len() ==> is_digit(s[i]),
    ensures
        0 <= decimal_value(s.take(j)),
        decimal_value(s.take(j)) <= decimal_value(s),
    decreases s.len(),
{
    if s.len() == 0 {
    } else {
        assert(s.drop_last() =~= s.take(s.len() - 1));
        lemma_decimal_prefix_le(s.drop_last(), if j < s.len() { j } else { j - 1 });
        if j < s.len() {
            assert(s.drop_last().take(j) =~= s.take(j));
        } else {
            assert(s.take(j) =~= s);
        }
    }
}

/// Parses an unsigned decimal count of at most `bound`, scanning left to
/// right exactly as the standard library's integer parser does: an optional
/// leading plus sign, then digits; the scan stops with [`CountError::TooLarge`]
/// the moment the accumulated value exceeds `bound`, and with
/// [`CountError::InvalidDigit`] at the first non-digit character.
pub fn parse_bounded_decimal(s: &str, bound: u64) -> (parsed: Result<u64, CountError>)
    requires
        bound <= (u64::MAX - 9) / 10,
    ensures
        ({
            let body = count_body(s@);
            let k = digit_prefix_len(body);
            let prefix_value = decimal_value(body.take(k));
            &&& (parsed == Result::<u64, CountError>::Err(CountError::Empty) <==> s@.len() == 0)
            &&& (parsed matches Ok(v) <==> s@.len() > 0 && body.len() > 0 && k == body.len()
                && prefix_value <= bound)
            &&& (parsed matches Ok(v) ==> v == prefix_value)
            &&& (parsed == Result::<u64, CountError>::Err(CountError::TooLarge) <==> prefix_value
                > bound)
            &&& (parsed == Result::<u64, CountError>::Err(CountError::InvalidDigit) <==> s@.len()
                > 0 && prefix_value <= bound && (body.len() == 0 || k < body.len()))
        }),
{
    let length = s.unicode_len();
    if length == 0 {
        return Err(CountError::Empty);
    }
    let start: usize = if s.get_char(0) == '+' {
        1
    } else {
        0
    };
    let ghost body = count_body(s@);
    proof {
        assert(body =~= s@.subrange(start as int, length as int));
        lemma_digit_prefix_props(body);
    }
    if length == start {
        // the argument was just a plus sign
        return Err(CountError::InvalidDigit);
    }
    let mut accumulated: u64 = 0;
    let mut i: usize = start;
    while i < length
        invariant
            bound <= (u64::MAX - 9) / 10,
            length == s@.len(),
            start <= i <= length,
            start <= 1,
            body == count_body(s@),
            body == s@.subrange(start as int, length as int),
            body.len() == length - start,
            forall|j: int| 0 <= j < i - start ==> is_digit(body[j]),
            accumulated == decimal_value(body.take(i - start)),
            accumulated <= bound,
        decreases length - i,
    {
        let c = s.get_char(i);
        let code = c as u32;
        if code < 48 || code > 57 {
            proof {
                lemma_digit_prefix_len_is(body, i - start);
            }
            return Err(CountError::InvalidDigit);
        }
        let digit = (code - 48) as u64;
        let next = accumulated * 10 + digit;
        proof {
            assert(body.take(i - start + 1).drop_last() =~= body.take(i - start));
        }
        if next > bound {
            proof {
                lemma_digit_prefix_props(body);
                let k = digit_prefix_len(body);
                if k < i - start + 1 {
                    // impossible: the first k characters are digits and the
                    // character at k would have to be a non-digit
                    assert(is_digit(body[k]));
                }
                assert(forall|j: int| 0 <= j < k ==> is_digit(body[j]));
                lemma_decimal_prefix_le(body.take(k), i - start + 1);
                assert(body.take(k).take(i - start + 1) =~= body.take(i - start + 1));
            }
            return Err(CountError::TooLarge);
        }
        accumulated = next;
        i += 1;
    }
    proof {
        lemma_digit_prefix_len_is(body, body.len() as int);
        assert(body.take(body.len() as int) =~= body);
    }
    Ok(accumulated)
}

/// If the first `m` characters are digits and the string ends there or
/// continues with a non-digit, the digit prefix has length exactly `m`.
proof fn lemma_digit_prefix_len_is(s: Seq<char>, m: int)
    requires
        0 <= m <= s.len(),
        forall|j: int| 0 <= j < m ==> is_digit(s[j]),
        m < s.len() ==> !is_digit(s[m]),
    ensures
        digit_prefix_len(s) == m,
{
    lemma_digit_prefix_props(s);
    let k = digit_prefix_len(s);
    if k < m {
        assert(is_digit(s[k]));
    }
    if m < k {
        assert(is_digit(s[m]));
    }
}

/// Checks that the given string is a positive count that fits in a `u32`.
///
/// Returns the parsed count; the error text distinguishes an empty
/// argument, a stray character, a value too large for the type, and zero.
pub fn valid_count_u32(s: &str) -> (checked: Result<u32, String>)
    ensures
        ({
            let body = count_body(s@);
            let k = digit_prefix_len(body);
            let prefix_value = decimal_value(body.take(k));
            &&& (checked matches Ok(v) <==> is_decimal_string(s@) && 0 < decimal_value(body)
                <= u32::MAX)
            &&& (checked matches Ok(v) ==> v == decimal_value(body))
            &&& (s@.len() == 0 ==> (checked matches Err(m) && m@
                == "cannot parse integer from empty string"@))
            &&& (prefix_value > u32::MAX ==> (checked matches Err(m) && m@
                == "number too large to fit in target type"@))
            &&& (s@.len() > 0 && prefix_value <= u32::MAX && (body.len() == 0 || k < body.len())
                ==> (checked matches Err(m) && m@ == "invalid digit found in string"@))
            &&& (body.len() > 0 && k == body.len() && decimal_value(body) == 0 ==> (checked
                matches Err(m) && m@ == "count must be greater than 0"@))
        }),
{
    proof {
        lemma_digit_prefix_props(count_body(s@));
        if digit_prefix_len(count_body(s@)) == count_body(s@).len() {
            assert(count_body(s@).take(count_body(s@).len() as int) =~= count_body(s@));
        }
    }
    match parse_bounded_decimal(s, u32::MAX as u64) {
        Ok(v) => {
            if v == 0 {
                Err("count must be greater than 0".to_owned())
            } else {
                Ok(v as u32)
            }
        },
        Err(CountError::Empty) => Err("cannot parse integer from empty string".to_owned()),
        Err(CountError::InvalidDigit) => Err("invalid digit found in string".to_owned()),
        Err(CountError::TooLarge) => Err("number too large to fit in target type".to_owned()),
    }
}

/// Checks that the given string is a positive count that fits in a `u16`.
///
/// The same rule as [`valid_count_u32`], with the smaller bound.
pub fn valid_count_u16(s: &str) -> (checked: Result<u16, String>)
    ensures
        ({
            let body = count_body(s@);
            let k = digit_prefix_len(body);
            let prefix_value = decimal_value(body.take(k));
            &&& (checked matches Ok(v) <==> is_decimal_string(s@) && 0 < decimal_value(body)
                <= u16::MAX)
            &&& (checked matches Ok(v) ==> v == decimal_value(body))
            &&& (s@.len() == 0 ==> (checked matches Err(m) && m@
                == "cannot parse integer from empty string"@))
            &&& (prefix_value > u16::MAX ==> (checked matches Err(m) && m@
                == "number too large to fit in target type"@))
            &&& (s@.len() > 0 && prefix_value <= u16::MAX && (body.len() == 0 || k < body.len())
                ==> (checked matches Err(m) && m@ == "invalid digit found in string"@))
            &&& (body.len() > 0 && k == body.len() && decimal_value(body) == 0 ==> (checked
                matches Err(m) && m@ == "count must be greater than 0"@))
        }),
{
    proof {
        lemma_digit_prefix_props(count_body(s@));
        if digit_prefix_len(count_body(s@)) == count_body(s@).len() {
            assert(count_body(s@).take(count_body(s@).len() as int) =~= count_body(s@));
        }
    }
    match parse_bounded_decimal(s, u16::MAX as u64) {
        Ok(v) => {
            if v == 0 {
                Err("count must be greater than 0".to_owned())
            } else {
                Ok(v as u16)
            }
        },
        Err(CountError::Empty) => Err("cannot parse integer from empty string".to_owned()),
        Err(CountError::InvalidDigit) => Err("invalid digit found in string".to_owned()),
        Err(CountError::TooLarge) => Err("number too large to fit in target type".to_owned()),
    }
}

// ------------------------------------------------------------------
// Output paths and image formats
// ------------------------------------------------------------------

/// What follows the last occurrence of `c` in `s` (all of `s` when `c`
/// does not occur).
pub open spec fn after_last(s: Seq<char>, c: char) -> Seq<char>
    decreases s.len(),
{
    if s.len() == 0 {
        s
    } else if s.last() == c {
        Seq::empty()
    } else {
        after_last(s.drop_last(), c).push(s.last())
    }
}

/// The file-name part of a path: what follows the last path separator.
pub open spec fn spec_file_name(path: Seq<char>) -> Seq<char> {
    after_last(path, '/')
}

/// The extension of a path: what follows the last dot of the file name,
/// provided some dot stands after the file name's first character. A name
/// without a dot, or with only a leading dot (a hidden file), has no
/// extension.
pub open spec fn spec_extension(path: Seq<char>) -> Option<Seq<char>> {
    let name = spec_file_name(path);
    if exists|i: int| 1 <= i < name.len() && name[i] == '.' {
        Some(after_last(name, '.'))
    } else {
        None
    }
}

/// When `c` occurs at `j` and nowhere later, the suffix after the last
/// occurrence is exactly the part after `j`.
proof fn lemma_after_last_split(s: Seq<char>, c: char, j: int)
    requires
        0 <= j < s.len(),
        s[j] == c,
        forall|k: int| j < k < s.len() ==> s[k] != c,
    ensures
        after_last(s, c) =~= s.subrange(j + 1, s.len() as int),
    decreases s.len(),
{
    if j == s.len() - 1 {
    } else {
        lemma_after_last_split(s.drop_last(), c, j);
    }
}

/// When `c` does not occur at all, the suffix after its last occurrence is
/// the whole string.
proof fn lemma_after_last_absent(s: Seq<char>, c: char)
    requires
        forall|k: int| 0 <= k < s.len() ==> s[k] != c,
    ensures
        after_last(s, c) =~= s,
    decreases s.len(),
{
    if s.len() > 0 {
        lemma_after_last_absent(s.drop_last(), c);
    }
}

/// Returns the file extension of the given path, under the rule of
/// [`spec_extension`]: the part of the file name after its last dot, where
/// a dot in the leading position does not count.
pub fn extension_of(path: &str) -> (extension: Option<&str>)
    ensures
        match extension {
            Some(e) => spec_extension(path@) == Some(e@),
            None => spec_extension(path@) is None,
        },
{
    let length = path.unicode_len();
    let mut name_start: usize = 0;
    let mut last_dot: Option<usize> = None;
    let mut i: usize = 0;
    while i < length
        invariant
            length == path@.len(),
            0 <= i <= length,
            name_start <= i,
            name_start > 0 ==> path@[name_start - 1] == '/',
            forall|k: int| name_start <= k < i ==> path@[k] != '/',
            match last_dot {
                Some(j) => name_start < j < i && path@[j as int] == '.' && forall|k: int|
                    j < k < i ==> path@[k] != '.',
                None => forall|k: int| name_start < k < i ==> path@[k] != '.',
            },
        decreases length - i,
    {
        let c = path.get_char(i);
        if c == '/' {
            name_start = i + 1;
            last_dot = None;
        } else if c == '.' && i > name_start {
            last_dot = Some(i);
        }
        i += 1;
    }
    proof {
        if name_start > 0 {
            lemma_after_last_split(path@, '/', name_start - 1);
        } else {
            lemma_after_last_absent(path@, '/');
        }
        assert(spec_file_name(path@) =~= path@.subrange(name_start as int, length as int));
    }
    let ghost name = spec_file_name(path@);
    match last_dot {
        Some(j) => {
            proof {
                lemma_after_last_split(name, '.', j - name_start);
                assert(name[j - name_start] == '.');
                assert(after_last(name, '.') =~= path@.subrange(j + 1, length as int));
            }
            Some(path.substring_char(j + 1, length))
        },
        None => {
            proof {
                assert forall|k: int| 1 <= k < name.len() implies name[k] != '.' by {
                    assert(name[k] == path@[name_start + k]);
                }
            }
            None
        },
    }
}

/// Whether an extension names an image format the image library knows.
/// The lookup is a fixed, case-insensitive table, so its outcome is a
/// function of the extension alone.
pub uninterp spec fn ext_recognized(ext: Seq<char>) -> bool;

/// Whether an extension names an image format the image library can
/// encode, with the encoders compiled into this build.
pub uninterp spec fn ext_writable(ext: Seq<char>) -> bool;

/// Whether an extension names the OpenEXR format, the one output format
/// written as linear high-dynamic-range data instead of gamma-encoded
/// 8-bit channels.
pub uninterp spec fn ext_openexr(ext: Seq<char>) -> bool;

/// Relies on `image::ImageFormat::from_extension`: a case-insensitive table
/// from extensions to formats, returning `None` for an unknown extension.
#[verifier::external_body]
fn format_recognized(ext: &str) -> (recognized: bool)
    ensures
        recognized == ext_recognized(ext@),
{
    image::ImageFormat::from_extension(ext).is_some()
}

/// Relies on `image::ImageFormat::from_extension` and
/// `image::ImageFormat::writing_enabled`: whether the format named by the
/// extension has an encoder compiled into this build of the image library.
#[verifier::external_body]
fn format_writable(ext: &str) -> (writable: bool)
    ensures
        writable == ext_writable(ext@),
{
    match image::ImageFormat::from_extension(ext) {
        Some(format) => format.writing_enabled(),
        None => false,
    }
}

/// Relies on `image::ImageFormat::from_extension`: whether the extension
/// names `image::ImageFormat::OpenExr`.
#[verifier::external_body]
fn format_openexr(ext: &str) -> (openexr: bool)
    ensures
        openexr == ext_openexr(ext@),
{
    matches!(image::ImageFormat::from_extension(ext), Some(image::ImageFormat::OpenExr))
}

/// Checks that an output file extension names a format that can be
/// written.
pub fn valid_image_format(ext: &str) -> (checked: Result<(), String>)
    ensures
        checked is Ok <==> ext_writable(ext@),
        checked matches Err(m) ==> m@ == "image format cannot be written"@,
{
    if format_writable(ext) {
        Ok(())
    } else {
        Err("image format cannot be written".to_owned())
    }
}

/// Checks whether the given output file path is valid: it must carry a
/// file extension, the extension must name a known image format, and that
/// format must be writable.
///
/// Returns the path unchanged on success; the error text says which of the
/// three checks failed.
pub fn valid_image_file(path: &str) -> (checked: Result<String, String>)
    ensures
        checked is Ok <==> (spec_extension(path@) matches Some(e) && ext_recognized(e)
            && ext_writable(e)),
        checked matches Ok(p) ==> p@ == path@,
        spec_extension(path@) is None ==> (checked matches Err(m) && m@
            == "the output path has no file extension"@),
        (spec_extension(path@) matches Some(e) && !ext_recognized(e)) ==> (checked matches Err(m)
            && m@ == "unrecognized image format"@),
        (spec_extension(path@) matches Some(e) && ext_recognized(e) && !ext_writable(e)) ==> (
        checked matches Err(m) && m@ == "image format cannot be written"@),
{
    match extension_of(path) {
        None => Err("the output path has no file extension".to_owned()),
        Some(ext) => {
            if !format_recognized(ext) {
                Err("unrecognized image format".to_owned())
            } else {
                match valid_image_format(ext) {
                    Ok(()) => Ok(path.to_owned()),
                    Err(message) => Err(message),
                }
            }
        },
    }
}

/// Returns whether rendering should write linear high-dynamic-range
/// output: exactly when the output path's extension names the OpenEXR
/// format. Every other supported format is written gamma-encoded.
pub fn output_is_hdr(path: &str) -> (hdr: bool)
    ensures
        hdr == (spec_extension(path@) matches Some(e) && ext_openexr(e)),
{
    match extension_of(path) {
        Some(ext) => format_openexr(ext),
        None => false,
    }
}

// ------------------------------------------------------------------
// The validated argument set
// ------------------------------------------------------------------

/// The renderer's command-line arguments, after validation.
///
/// The binary's argument parser fills this in; the rules its values must
/// satisfy are [`valid_arguments`], enforced field by field through
/// [`valid_count_u32`], [`valid_count_u16`] and [`valid_image_file`].
pub struct Arguments {
    /// The path to the file to write the resulting image into.
    pub output: String,
    /// The width of the generated image.
    pub image_width: u32,
    /// Samples per pixel: more rays per pixel, higher visual fidelity.
    pub samples_per_pixel: u32,
    /// Number of light contribution bounces for a single ray.
    pub bounce_depth: u16,
    /// The hard-coded scene to render.
    pub scene: SceneType,
    /// The seed used for pseudorandom number generation, if fixed.
    pub seed: Option<u64>,
}

/// What argument validation guarantees: positive counts, and an output
/// path whose extension names a writable image format.
pub open spec fn valid_arguments(args: Arguments) -> bool {
    &&& args.image_width > 0
    &&& args.samples_per_pixel > 0
    &&& args.bounce_depth > 0
    &&& spec_extension(args.output@) matches Some(e) && ext_recognized(e) && ext_writable(e)
}

} // verus!

