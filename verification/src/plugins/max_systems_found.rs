//! Sets the number of systems after which a search ends, once and for the
//! whole session.

use crate::memory::views;
use crate::memory::MemoryOp;
use crate::plugin::Plugin;
use crate::plugin::PluginError;
use crate::plugin::PluginPass;
use crate::plugins::no_max_systems_found::load_value;
use crate::plugins::no_max_systems_found::spec_load;
use vstd::prelude::*;
use vstd::string::*;

verus! {

/// Whether `c` is white space.
pub open spec fn is_whitespace(c: char) -> bool {
    let u = c as u32;
    ||| 0x09 <= u <= 0x0d
    ||| u == 0x20
    ||| u == 0x85
    ||| u == 0xa0
    ||| u == 0x1680
    ||| 0x2000 <= u <= 0x200a
    ||| u == 0x2028
    ||| u == 0x2029
    ||| u == 0x202f
    ||| u == 0x205f
    ||| u == 0x3000
}

/// Whether `c` is a decimal digit.
pub open spec fn is_digit(c: char) -> bool {
    0x30 <= c as u32 <= 0x39
}

/// How many characters of white space `text` starts with.
pub open spec fn leading_space(text: Seq<char>) -> nat
    decreases text.len(),
{
    if text.len() > 0 && is_whitespace(text[0]) {
        1 + leading_space(text.skip(1))
    } else {
        0
    }
}

/// How many characters of white space `text` ends with.
pub open spec fn trailing_space(text: Seq<char>) -> nat
    decreases text.len(),
{
    if text.len() > 0 && is_whitespace(text.last()) {
        1 + trailing_space(text.drop_last())
    } else {
        0
    }
}

/// `text` without the white space at its start and at its end.
pub open spec fn spec_trim(text: Seq<char>) -> Seq<char> {
    let rest = text.skip(leading_space(text) as int);
    rest.take(rest.len() - trailing_space(rest))
}

/// Whether `text` is made of decimal digits.
pub open spec fn all_digits(text: Seq<char>) -> bool {
    forall|i: int| 0 <= i < text.len() ==> is_digit(#[trigger] text[i])
}

/// The number that the decimal digits `digits` stand for.
pub open spec fn decimal(digits: Seq<char>) -> nat
    decreases digits.len(),
{
    if digits.len() == 0 {
        0
    } else {
        decimal(digits.drop_last()) * 10 + (digits.last() as u32 - 0x30) as nat
    }
}

/// The number that `digits` stand for, where they are one decimal digit
/// or more and stand for a number of at most 32 bits.
pub open spec fn spec_number(digits: Seq<char>) -> Option<u32> {
    if digits.len() == 0 || !all_digits(digits) || decimal(digits) > u32::MAX {
        None
    } else {
        Some(decimal(digits) as u32)
    }
}

/// The number that `text` stands for: white space around it is passed
/// over, a plus sign may come first, and what is left must be a number.
pub open spec fn spec_parse(text: Seq<char>) -> Option<u32> {
    let trimmed = spec_trim(text);
    if trimmed.len() > 0 && trimmed[0] == '+' {
        spec_number(trimmed.skip(1))
    } else {
        spec_number(trimmed)
    }
}

/// More digits never stand for less.
pub proof fn lemma_decimal_monotonic(digits: Seq<char>, k: int)
    requires
        0 <= k <= digits.len(),
        all_digits(digits),
    ensures
        decimal(digits.take(k)) <= decimal(digits),
    decreases digits.len() - k,
{
    if k < digits.len() {
        lemma_decimal_monotonic(digits.drop_last(), k);
        assert(digits.drop_last().take(k) =~= digits.take(k));
        assert(is_digit(digits[digits.len() - 1]));
    } else {
        assert(digits.take(k) =~= digits);
    }
}

/// Whether `c` is white space.
fn whitespace(c: char) -> (space: bool)
    ensures
        space == is_whitespace(c),
{
    let u = c as u32;
    (0x09 <= u && u <= 0x0d) || u == 0x20 || u == 0x85 || u == 0xa0 || u == 0x1680 || (0x2000 <= u
        && u <= 0x200a) || u == 0x2028 || u == 0x2029 || u == 0x202f || u == 0x205f || u == 0x3000
}

/// Where `text` starts and ends once the white space around it is passed
/// over.
fn trim_bounds(text: &str) -> (bounds: (usize, usize))
    ensures
        bounds.0 <= bounds.1 <= text@.len(),
        text@.subrange(bounds.0 as int, bounds.1 as int) == spec_trim(text@),
{
    let len = text.unicode_len();
    let mut start: usize = 0;
    proof {
        assert(text@.skip(0) =~= text@);
    }
    while start < len && whitespace(text.get_char(start))
        invariant
            len == text@.len(),
            start <= len,
            leading_space(text@) == start + leading_space(text@.skip(start as int)),
        decreases len - start,
    {
        proof {
            assert(text@.skip(start as int).skip(1) =~= text@.skip(start + 1));
        }
        start = start + 1;
    }
    let ghost rest = text@.skip(start as int);
    proof {
        if start < len {
            assert(rest[0] == text@[start as int]);
        }
        assert(leading_space(rest) == 0);
        assert(rest.take(rest.len() as int) =~= rest);
    }
    let mut end: usize = len;
    while end > start && whitespace(text.get_char(end - 1))
        invariant
            len == text@.len(),
            start <= end <= len,
            rest == text@.skip(start as int),
            trailing_space(rest) == (len - end) + trailing_space(rest.take(end - start)),
        decreases end,
    {
        proof {
            assert(rest.take(end - start).drop_last() =~= rest.take(end - start - 1));
            assert(rest.take(end - start).last() == text@[end - 1]);
        }
        end = end - 1;
    }
    proof {
        let trimmed = rest.take(end - start);
        if end > start {
            assert(trimmed.last() == text@[end - 1]);
        }
        assert(trailing_space(trimmed) == 0);
        assert(text@.subrange(start as int, end as int) =~= trimmed);
    }
    (start, end)
}

/// The number that the characters of `text` from `from` up to `to` stand
/// for.
fn number(text: &str, from: usize, to: usize) -> (value: Option<u32>)
    requires
        from <= to <= text@.len(),
    ensures
        value == spec_number(text@.subrange(from as int, to as int)),
{
    let ghost digits = text@.subrange(from as int, to as int);
    if from == to {
        return None;
    }
    let mut at: usize = from;
    let mut value: u64 = 0;
    proof {
        assert(digits.take(0) =~= Seq::<char>::empty());
    }
    while at < to
        invariant
            from <= at <= to <= text@.len(),
            digits == text@.subrange(from as int, to as int),
            all_digits(digits.take(at - from)),
            value == decimal(digits.take(at - from)),
            value <= u32::MAX,
        decreases to - at,
    {
        let u = text.get_char(at) as u32;
        let ghost seen = digits.take(at - from);
        let ghost next = digits.take(at - from + 1);
        proof {
            assert(next.drop_last() =~= seen);
            assert(digits[at - from] == text@[at as int]);
            assert(next.last() == text@[at as int]);
        }
        if u < 0x30 || u > 0x39 {
            proof {
                assert(!is_digit(digits[at - from]));
            }
            return None;
        }
        value = value * 10 + (u - 0x30) as u64;
        proof {
            assert forall|i: int| 0 <= i < next.len() implies is_digit(#[trigger] next[i]) by {
                if i < seen.len() {
                    assert(seen[i] == next[i]);
                }
            }
        }
        if value > u32::MAX as u64 {
            proof {
                if all_digits(digits) {
                    lemma_decimal_monotonic(digits, at - from + 1);
                }
            }
            return None;
        }
        at = at + 1;
    }
    proof {
        assert(digits.take(at - from) =~= digits);
    }
    Some(value as u32)
}

/// The feature: the number that is in force.
#[derive(Clone, Copy, Debug, PartialEq, Eq, Structural)]
pub struct MaxSystemsFound(pub u32);

impl MaxSystemsFound {
    /// Reads the number that the user has put in a file of their own.
    pub fn parse(text: &str) -> (value: Option<u32>)
        ensures
            value == spec_parse(text@),
    {
        let (start, end) = trim_bounds(text);
        if start < end && text.get_char(start) == '+' {
            proof {
                assert(text@.subrange(start + 1, end as int) =~= text@.subrange(
                    start as int,
                    end as int,
                ).skip(1));
            }
            number(text, start + 1, end)
        } else {
            number(text, start, end)
        }
    }

    /// Loads the feature with the number `value`. `first` and `second`
    /// are the numbers that the module holds in the two places.
    pub fn load(value: u32, first: u32, second: u32, base: usize) -> (r: Result<
        (MaxSystemsFound, Vec<MemoryOp>, bool),
        PluginError,
    >)
        ensures
            match spec_load(value, first, second, base) {
                Ok((ops, modified)) => {
                    &&& r is Ok
                    &&& r->Ok_0.0 == MaxSystemsFound(value)
                    &&& views(r->Ok_0.1@) == ops
                    &&& r->Ok_0.2 == modified
                },
                Err(e) => r is Err && r->Err_0 == e,
            },
    {
        match load_value(value, first, second, base) {
            Ok((ops, modified)) => Ok((MaxSystemsFound(value), ops, modified)),
            Err(e) => Err(e),
        }
    }
}

impl Plugin for MaxSystemsFound {
    open spec fn spec_pass(&self) -> PluginPass {
        PluginPass::Early
    }

    open spec fn spec_name(&self) -> Seq<char> {
        "Custom max systems found"@
    }

    open spec fn spec_priority(&self) -> Option<usize> {
        Some(1usize)
    }

    fn pass(&self) -> (pass: PluginPass) {
        PluginPass::Early
    }

    fn name(&self) -> (name: String) {
        String::from_str("Custom max systems found")
    }

    fn section(&self) -> (section: Option<String>) {
        None
    }

    fn priority(&self) -> (priority: Option<usize>) {
        Some(1usize)
    }
}

} // verus!
