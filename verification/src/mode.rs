//! File modes: the octal text of a manifest and the type bits of a mode.

use vstd::prelude::*;

verus! {

/// The bits of a mode that say what kind of file it is.
pub const S_IFMT: usize = 0o170000;

/// The type bits of a directory.
pub const S_IFDIR: usize = 0o040000;

/// The type bits of a regular file.
pub const S_IFREG: usize = 0o100000;

/// Whether `c` is one of the digits `0` to `7`.
pub open spec fn is_octal_digit(c: char) -> bool {
    '0' <= c <= '7'
}

/// Whether `digits` is made of octal digits only.
pub open spec fn all_octal(digits: Seq<char>) -> bool {
    forall|i: int| 0 <= i < digits.len() ==> is_octal_digit(#[trigger] digits[i])
}

/// The number that `digits` writes in base eight, the last digit counting least.
pub open spec fn octal_value(digits: Seq<char>) -> nat
    decreases digits.len(),
{
    if digits.len() == 0 {
        0
    } else {
        (8 * octal_value(digits.drop_last()) + (digits.last() as int - '0' as int)) as nat
    }
}

/// The digits of an octal numeral: the text without a leading `+`.
pub open spec fn unsigned_part(text: Seq<char>) -> Seq<char> {
    if text.len() > 0 && text[0] == '+' {
        text.skip(1)
    } else {
        text
    }
}

/// The number that `text` denotes as an octal numeral: one or more octal
/// digits, with or without a `+` before them, whose value fits a `usize`.
/// Any other text denotes nothing.
pub open spec fn parse_octal(text: Seq<char>) -> Option<usize> {
    let digits = unsigned_part(text);
    if digits.len() > 0 && all_octal(digits) && octal_value(digits) <= usize::MAX {
        Some(octal_value(digits) as usize)
    } else {
        None
    }
}

/// Whether `source` names a directory: its last character is `/`.
pub open spec fn ends_with_separator(source: Seq<char>) -> bool {
    source.len() > 0 && source.last() == '/'
}

/// The mode of an asset with the type bits filled in.  Type bits that `given`
/// already has stay as they are.  Where it has none, they are those of a
/// directory if the asset's source ends with `/`, else those of a regular file.
pub open spec fn with_type_bits(given: usize, source: Seq<char>) -> usize {
    if given & S_IFMT != 0 {
        given
    } else if ends_with_separator(source) {
        S_IFDIR | given
    } else {
        S_IFREG | given
    }
}

/// Type bits that a mode already has are kept: the mode stays as it is,
/// whatever the source.
pub proof fn lemma_type_bits_kept(given: usize, source: Seq<char>)
    requires
        given & S_IFMT != 0,
    ensures
        with_type_bits(given, source) == given,
{
}

/// A mode without type bits gets those of a directory or of a regular file,
/// as the source says, and keeps every other bit.
pub proof fn lemma_type_bits_filled(given: usize, source: Seq<char>)
    requires
        given & S_IFMT == 0,
    ensures
        with_type_bits(given, source) & S_IFMT == if ends_with_separator(source) {
            S_IFDIR
        } else {
            S_IFREG
        },
        with_type_bits(given, source) & !S_IFMT == given,
{
    assert((0o040000usize | given) & 0o170000usize == 0o040000usize && (0o040000usize | given)
        & !0o170000usize == given) by (bit_vector)
        requires
            given & 0o170000usize == 0,
    ;
    assert((0o100000usize | given) & 0o170000usize == 0o100000usize && (0o100000usize | given)
        & !0o170000usize == given) by (bit_vector)
        requires
            given & 0o170000usize == 0,
    ;
}

/// A resolved mode always has type bits.
pub proof fn lemma_mode_has_type_bits(given: usize, source: Seq<char>)
    ensures
        with_type_bits(given, source) & S_IFMT != 0,
{
    if given & S_IFMT == 0 {
        lemma_type_bits_filled(given, source);
    }
}

/// A numeral is worth at least as much as each of its beginnings.
proof fn lemma_octal_value_grows(digits: Seq<char>, k: int)
    requires
        all_octal(digits),
        0 <= k <= digits.len(),
    ensures
        octal_value(digits.take(k)) <= octal_value(digits),
    decreases digits.len() - k,
{
    if k < digits.len() {
        lemma_octal_value_grows(digits, k + 1);
        assert(digits.take(k + 1).drop_last() == digits.take(k));
        assert(is_octal_digit(digits[k]));
    } else {
        assert(digits.take(k) == digits);
    }
}

/// Reads an octal numeral.
pub fn parse_octal_str(text: &str) -> (parsed: Option<usize>)
    ensures
        parsed == parse_octal(text@),
{
    let len = text.unicode_len();
    let start: usize = if len > 0 && text.get_char(0) == '+' {
        1
    } else {
        0
    };
    let ghost digits = unsigned_part(text@);
    assert(digits == text@.skip(start as int));
    if start == len {
        return None;
    }
    let mut value: usize = 0;
    let mut i: usize = start;
    while i < len
        invariant
            start <= i <= len,
            len == text@.len(),
            digits == unsigned_part(text@),
            digits == text@.skip(start as int),
            all_octal(digits.take(i - start)),
            value == octal_value(digits.take(i - start)),
        decreases len - i,
    {
        let c = text.get_char(i);
        assert(digits[i - start] == c);
        if c < '0' || c > '7' {
            assert(!is_octal_digit(digits[i - start]));
            return None;
        }
        let digit: usize = (c as u32 - '0' as u32) as usize;
        proof {
            assert(digits.take(i - start + 1).drop_last() == digits.take(i - start));
            assert(digits.take(i - start + 1).last() == c);
            assert forall|j: int| 0 <= j < i - start + 1 implies is_octal_digit(
                #[trigger] digits.take(i - start + 1)[j],
            ) by {
                if j < i - start {
                    assert(digits.take(i - start)[j] == digits[j]);
                }
            }
        }
        assert(octal_value(digits.take(i - start + 1)) == 8 * value + digit);
        if value > (usize::MAX - digit) / 8 {
            proof {
                if all_octal(digits) {
                    lemma_octal_value_grows(digits, i - start + 1);
                }
            }
            return None;
        }
        value = value * 8 + digit;
        i = i + 1;
    }
    assert(digits.take(i - start) == digits);
    Some(value)
}

/// Whether the last character of `source` is `/`.
pub fn names_directory(source: &str) -> (is_dir: bool)
    ensures
        is_dir == ends_with_separator(source@),
{
    let len = source.unicode_len();
    len > 0 && source.get_char(len - 1) == '/'
}

/// Fills in the type bits of an asset's mode.
pub fn resolve_mode(given: usize, source: &str) -> (mode: usize)
    ensures
        mode == with_type_bits(given, source@),
{
    if given & S_IFMT != 0 {
        given
    } else if names_directory(source) {
        S_IFDIR | given
    } else {
        S_IFREG | given
    }
}

} // verus!
