//! Button selector parsing. A selector is the text "left", "middle" or
//! "right" (in any letter case), or a decimal number between 1 and 9 as
//! the standard library's unsigned parser reads it: optional leading '+',
//! then one or more digits. Anything else is rejected; the actuation
//! generator falls back to the primary button rather than skipping a cycle.

use vstd::prelude::*;

verus! {

/// Why a button selector was rejected.
#[derive(Clone, Copy, Debug, PartialEq, Eq, Structural)]
pub enum ButtonError {
    /// Not one of the known names and not a decimal number.
    Unrecognized,
    /// A decimal number, but outside 1..=9.
    OutOfRange,
}

/// ASCII lowercasing of one character; every other character is kept.
/// (No non-ASCII text lowercases to one of the known button names, so
/// this matches full Unicode lowercasing on every selector that counts.)
pub open spec fn lower_char(c: char) -> char {
    if 65 <= c as u32 <= 90 {
        ((c as u32 + 32) as u8) as char
    } else {
        c
    }
}

/// ASCII lowercasing of a whole selector.
pub open spec fn lowered(s: Seq<char>) -> Seq<char> {
    s.map_values(|c: char| lower_char(c))
}

/// Is `c` a decimal digit?
pub open spec fn is_digit(c: char) -> bool {
    48 <= c as u32 <= 57
}

/// The numeric value of a digit character.
pub open spec fn digit_val(c: char) -> int {
    c as u32 - 48
}

/// Does `s` consist of decimal digits only?
pub open spec fn all_digits(s: Seq<char>) -> bool {
    forall|i: int| 0 <= i < s.len() ==> is_digit(#[trigger] s[i])
}

/// The value of a digit string read in base ten.
pub open spec fn digits_value(s: Seq<char>) -> int
    decreases s.len(),
{
    if s.len() == 0 {
        0
    } else {
        digits_value(s.drop_last()) * 10 + digit_val(s.last())
    }
}

/// A number as the standard unsigned parser reads it may carry one
/// leading '+'; this is the part the digits must fill.
pub open spec fn numeric_body(s: Seq<char>) -> Seq<char> {
    if s.len() > 0 && s[0] == '+' {
        s.drop_first()
    } else {
        s
    }
}

/// Does `s` read as an unsigned 32-bit decimal number?
pub open spec fn parses_to_u32(s: Seq<char>) -> bool {
    &&& numeric_body(s).len() > 0
    &&& all_digits(numeric_body(s))
    &&& digits_value(numeric_body(s)) <= u32::MAX
}

/// What parsing a button selector returns: the lowercased text matched
/// against the known names first, then read as a number and held to 1..=9.
pub open spec fn spec_parse_button(s: Seq<char>) -> Result<u32, ButtonError> {
    let low = lowered(s);
    if low == "left"@ {
        Ok(1u32)
    } else if low == "middle"@ {
        Ok(2u32)
    } else if low == "right"@ {
        Ok(3u32)
    } else if parses_to_u32(low) {
        let v = digits_value(numeric_body(low));
        if 1 <= v <= 9 {
            Ok(v as u32)
        } else {
            Err(ButtonError::OutOfRange)
        }
    } else {
        Err(ButtonError::Unrecognized)
    }
}

/// The selector the generator actually uses: parse failures degrade to
/// the primary button.
pub open spec fn spec_button_or_primary(s: Seq<char>) -> u32 {
    match spec_parse_button(s) {
        Ok(v) => v,
        Err(_) => 1u32,
    }
}

/// A digit string's value is never negative.
proof fn lemma_digits_value_nonneg(s: Seq<char>)
    requires
        all_digits(s),
    ensures
        digits_value(s) >= 0,
    decreases s.len(),
{
    if s.len() > 0 {
        lemma_digits_value_nonneg(s.drop_last());
    }
}

/// Reading more digits never shrinks the value: the whole string's value
/// is at least any prefix's value.
proof fn lemma_digits_value_prefix_le(s: Seq<char>, k: int)
    requires
        all_digits(s),
        0 <= k <= s.len(),
    ensures
        digits_value(s.take(k)) <= digits_value(s),
    decreases s.len() - k,
{
    if k == s.len() {
        assert(s.take(k) =~= s);
    } else {
        assert(s.take(k + 1).drop_last() =~= s.take(k));
        assert(s.take(k + 1).last() == s[k]);
        assert(all_digits(s.take(k))) by {
            assert(forall|i: int|
                0 <= i < k ==> #[trigger] s.take(k)[i] == s[i] && is_digit(s[i]));
        }
        lemma_digits_value_nonneg(s.take(k));
        assert(digits_value(s.take(k + 1)) == digits_value(s.take(k)) * 10 + digit_val(s[k]));
        lemma_digits_value_prefix_le(s, k + 1);
    }
}

/// Lowercase one character.
fn lower_char_x(c: char) -> (r: char)
    ensures
        r == lower_char(c),
{
    let u = c as u32;
    if 65 <= u && u <= 90 {
        ((u as u8) + 32) as char
    } else {
        c
    }
}

/// Do the characters in `v` spell exactly the text `t`?
fn chars_eq(v: &Vec<char>, t: &str) -> (r: bool)
    ensures
        r == (v@ == t@),
{
    let m = t.unicode_len();
    if v.len() != m {
        return false;
    }
    let mut i: usize = 0;
    while i < m
        invariant
            i <= m,
            m == t@.len(),
            v@.len() == m,
            forall|j: int| 0 <= j < i ==> v@[j] == t@[j],
        decreases m - i,
    {
        if v[i] != t.get_char(i) {
            return false;
        }
        i += 1;
    }
    proof {
        assert(v@ =~= t@);
    }
    true
}

/// Parse a button selector: a known name or a number in 1..=9.
pub fn parse_button(name: &str) -> (r: Result<u32, ButtonError>)
    ensures
        r == spec_parse_button(name@),
        r is Ok ==> 1 <= r->Ok_0 <= 9,
{
    let n = name.unicode_len();
    let mut low: Vec<char> = Vec::new();
    let mut i: usize = 0;
    while i < n
        invariant
            i <= n,
            n == name@.len(),
            low@ =~= lowered(name@).take(i as int),
        decreases n - i,
    {
        let c = name.get_char(i);
        low.push(lower_char_x(c));
        i += 1;
    }
    proof {
        assert(low@ =~= lowered(name@));
    }
    if chars_eq(&low, "left") {
        return Ok(1);
    }
    if chars_eq(&low, "middle") {
        return Ok(2);
    }
    if chars_eq(&low, "right") {
        return Ok(3);
    }
    let ghost lowseq = lowered(name@);
    let ghost body = numeric_body(lowseq);
    let mut j: usize = 0;
    if low.len() > 0 && low[0] == '+' {
        j = 1;
    }
    let ghost start = j as int;
    proof {
        assert(body =~= lowseq.skip(start));
    }
    if j == low.len() {
        // No digits at all: not a number.
        assert(body.len() == 0);
        return Err(ButtonError::Unrecognized);
    }
    let mut acc: u64 = 0;
    while j < low.len()
        invariant
            start <= j <= low@.len(),
            start == 0 || start == 1,
            lowseq == lowered(name@),
            lowseq != "left"@,
            lowseq != "middle"@,
            lowseq != "right"@,
            low@ =~= lowseq,
            body == numeric_body(lowseq),
            body =~= lowseq.skip(start),
            body.len() > 0,
            all_digits(body.take(j - start)),
            acc == digits_value(body.take(j - start)),
            acc <= u32::MAX as u64 * 10 + 9,
        decreases low@.len() - j,
    {
        let c = low[j];
        let u = c as u32;
        if u < 48 || u > 57 {
            // A non-digit: the selector is not a number.
            proof {
                assert(body[j - start] == lowseq[j as int]);
                assert(!all_digits(body));
            }
            return Err(ButtonError::Unrecognized);
        }
        if acc > u32::MAX as u64 {
            // The digits read so far already exceed what a 32-bit number
            // can hold; more digits can only grow the value.
            proof {
                if all_digits(body) {
                    lemma_digits_value_prefix_le(body, j - start);
                }
            }
            return Err(ButtonError::Unrecognized);
        }
        proof {
            assert(body.take(j + 1 - start).drop_last() =~= body.take(j - start));
            assert(body.take(j + 1 - start).last() == body[j - start]);
            assert(body[j - start] == lowseq[j as int]);
        }
        acc = acc * 10 + ((u - 48) as u64);
        j += 1;
    }
    proof {
        assert(body.take(j - start) =~= body);
    }
    if acc > u32::MAX as u64 {
        // All digits, but the value does not fit a 32-bit number.
        return Err(ButtonError::Unrecognized);
    }
    let v = acc as u32;
    if 1 <= v && v <= 9 {
        Ok(v)
    } else {
        Err(ButtonError::OutOfRange)
    }
}

/// Parse a button selector, degrading failures to the primary button.
pub fn button_or_primary(name: &str) -> (b: u32)
    ensures
        b == spec_button_or_primary(name@),
        1 <= b <= 9,
{
    match parse_button(name) {
        Ok(v) => v,
        Err(_) => 1,
    }
}

} // verus!
