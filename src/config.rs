//! The command-line configuration: decimal counts and the initial-weight
//! distribution, written `name,param1,param2`.
use vstd::prelude::*;
use vstd::string::{StrSliceExecFns, StringExecFns};
use crate::bits32::{le, le_spec, ZERO};

verus! {

pub open spec fn is_digit(c: char) -> bool {
    '0' <= c && c <= '9'
}

pub open spec fn digit_value(c: char) -> int {
    (c as int) - ('0' as int)
}

pub open spec fn all_digits(s: Seq<char>) -> bool {
    forall|i: int| 0 <= i < s.len() ==> is_digit(#[trigger] s[i])
}

/// The value of a string of decimal digits, most significant first.
pub open spec fn digits_value(s: Seq<char>) -> int
    decreases s.len(),
{
    if s.len() == 0 {
        0
    } else {
        digits_value(s.drop_last()) * 10 + digit_value(s.last())
    }
}

/// The digits of a count: the text without an optional leading `+`.
pub open spec fn count_digits(s: Seq<char>) -> Seq<char> {
    if s.len() > 0 && s[0] == '+' {
        s.skip(1)
    } else {
        s
    }
}

/// The count a text denotes: an optional `+`, then one or more decimal
/// digits whose value fits in `usize`.
pub open spec fn count_of(s: Seq<char>) -> Option<usize> {
    let d = count_digits(s);
    if d.len() > 0 && all_digits(d) && digits_value(d) <= usize::MAX {
        Some(digits_value(d) as usize)
    } else {
        None
    }
}

proof fn lemma_digits_value_nonneg(s: Seq<char>)
    requires
        all_digits(s),
    ensures
        digits_value(s) >= 0,
    decreases s.len(),
{
    if s.len() > 0 {
        lemma_digits_value_nonneg(s.drop_last());
    }
}

/// Appending digits never lowers the value.
proof fn lemma_digits_value_prefix(s: Seq<char>, j: int)
    requires
        all_digits(s),
        0 <= j <= s.len(),
    ensures
        digits_value(s.take(j)) <= digits_value(s),
    decreases s.len(),
{
    if j < s.len() {
        assert(s.drop_last().take(j) =~= s.take(j));
        lemma_digits_value_prefix(s.drop_last(), j);
        lemma_digits_value_nonneg(s.drop_last());
    } else {
        assert(s.take(j) =~= s);
    }
}

/// Reads a count (a number of epochs or samples).
pub fn parse_count(s: &str) -> (r: Option<usize>)
    ensures
        r == count_of(s@),
{
    let n = s.unicode_len();
    let mut i: usize = 0;
    if n > 0 && s.get_char(0) == '+' {
        i = 1;
    }
    let start = i;
    let ghost d = count_digits(s@);
    assert(d =~= s@.subrange(start as int, n as int));
    if start == n {
        return None;
    }
    let mut acc: usize = 0;
    while i < n
        invariant
            start <= i <= n,
            n == s@.len(),
            d =~= s@.subrange(start as int, n as int),
            d == count_digits(s@),
            all_digits(d.take(i - start)),
            acc as int == digits_value(d.take(i - start)),
        decreases n - i,
    {
        let c = s.get_char(i);
        assert(d[i - start] == c);
        if c < '0' || c > '9' {
            return None;
        }
        let dv = (c as u32 - '0' as u32) as usize;
        proof {
            assert(d.take(i + 1 - start).drop_last() =~= d.take(i - start));
            assert(d.take(i + 1 - start).last() == c);
            assert forall|k: int| 0 <= k < d.take(i + 1 - start).len() implies is_digit(
                #[trigger] d.take(i + 1 - start)[k],
            ) by {
                if k < i - start {
                    assert(d.take(i + 1 - start)[k] == d.take(i - start)[k]);
                }
            }
            assert(digits_value(d.take(i + 1 - start)) == acc * 10 + dv);
        }
        match acc.checked_mul(10) {
            Some(m) => match m.checked_add(dv) {
                Some(v) => {
                    acc = v;
                },
                None => {
                    proof { overflow_or_not_digits(d, i + 1 - start) }
                    return None;
                },
            },
            None => {
                proof { overflow_or_not_digits(d, i + 1 - start) }
                return None;
            },
        }
        i = i + 1;
    }
    assert(d.take(n - start) =~= d);
    Some(acc)
}

/// A prefix whose value exceeds `usize::MAX` leaves no valid count.
proof fn overflow_or_not_digits(d: Seq<char>, j: int)
    requires
        0 < j <= d.len(),
        all_digits(d.take(j)),
        digits_value(d.take(j)) > usize::MAX,
    ensures
        !(all_digits(d) && digits_value(d) <= usize::MAX),
{
    if all_digits(d) {
        lemma_digits_value_prefix(d, j);
    }
}

pub open spec fn malformed_value_message(tok: Seq<char>) -> Seq<char> {
    "malformed value: "@ + tok
}

/// Accepts a count, or names the text that is not one.
pub fn validator(tok: String) -> (r: Result<(), String>)
    ensures
        count_of(tok@) is Some <==> r is Ok,
        r is Err ==> r->Err_0@ == malformed_value_message(tok@),
{
    match parse_count(tok.as_str()) {
        Some(_) => Ok(()),
        None => Err(String::from_str("malformed value: ").concat(tok.as_str())),
    }
}

/// The end of the comma-separated field that starts at `a`: the first comma
/// at or after `a`, or the end of the text.
pub open spec fn field_end(s: Seq<char>, a: int) -> int
    decreases s.len() - a,
{
    if a >= s.len() {
        s.len() as int
    } else if s[a] == ',' {
        a
    } else {
        field_end(s, a + 1)
    }
}

proof fn lemma_field_end_bounds(s: Seq<char>, a: int)
    requires
        0 <= a <= s.len(),
    ensures
        a <= field_end(s, a) <= s.len(),
        field_end(s, a) < s.len() ==> s[field_end(s, a)] == ',',
    decreases s.len() - a,
{
    if a < s.len() && s[a] != ',' {
        lemma_field_end_bounds(s, a + 1);
    }
}

fn find_field_end(s: &str, n: usize, a: usize) -> (r: usize)
    requires
        n == s@.len(),
        a <= n,
    ensures
        r == field_end(s@, a as int),
        a <= r <= n,
{
    let mut i: usize = a;
    while i < n && s.get_char(i) != ','
        invariant
            a <= i <= n,
            n == s@.len(),
            field_end(s@, i as int) == field_end(s@, a as int),
        decreases n - i,
    {
        i = i + 1;
    }
    proof { lemma_field_end_bounds(s@, a as int); }
    i
}

/// The family of distribution that initial weights are drawn from.
#[derive(Clone, Copy, Debug, PartialEq, Eq, Structural)]
pub enum DistKind {
    /// `normal,mean,stddev`
    Normal,
    /// `uniform,min,max`
    Uniform,
}

/// The distribution a name denotes.
pub open spec fn kind_of(name: Seq<char>) -> Option<DistKind> {
    if name == "normal"@ {
        Some(DistKind::Normal)
    } else if name == "uniform"@ {
        Some(DistKind::Uniform)
    } else {
        None
    }
}

/// The fields of a distribution definition: the name's distribution, and the
/// second and third comma-separated fields where the text has them, and
/// whether a comma follows the third field (a definition has three fields).
pub struct DistDefFields {
    pub kind: Option<DistKind>,
    pub param1: Option<String>,
    pub param2: Option<String>,
    pub extra: bool,
}

pub open spec fn name_field(s: Seq<char>) -> Seq<char> {
    s.subrange(0, field_end(s, 0))
}

pub open spec fn second_field(s: Seq<char>) -> Option<Seq<char>> {
    let e0 = field_end(s, 0);
    if e0 < s.len() {
        Some(s.subrange(e0 + 1, field_end(s, e0 + 1)))
    } else {
        None
    }
}

pub open spec fn third_field(s: Seq<char>) -> Option<Seq<char>> {
    let e0 = field_end(s, 0);
    let e1 = field_end(s, e0 + 1);
    if e0 < s.len() && e1 < s.len() {
        Some(s.subrange(e1 + 1, field_end(s, e1 + 1)))
    } else {
        None
    }
}

/// Whether a comma follows the third field.
pub open spec fn has_extra_field(s: Seq<char>) -> bool {
    let e0 = field_end(s, 0);
    let e1 = field_end(s, e0 + 1);
    e0 < s.len() && e1 < s.len() && field_end(s, e1 + 1) < s.len()
}

pub open spec fn opt_view(o: Option<String>) -> Option<Seq<char>> {
    match o {
        Some(t) => Some(t@),
        None => None,
    }
}

fn equals_word(s: &str, from: usize, to: usize, word: &str) -> (r: bool)
    requires
        from <= to <= s@.len(),
    ensures
        r == (s@.subrange(from as int, to as int) == word@),
{
    let w = word.unicode_len();
    if to - from != w {
        return false;
    }
    let mut i: usize = 0;
    while i < w
        invariant
            i <= w,
            w == word@.len(),
            to - from == w,
            from <= to <= s@.len(),
            forall|k: int| 0 <= k < i ==> s@[from + k] == word@[k],
        decreases w - i,
    {
        if s.get_char(from + i) != word.get_char(i) {
            assert(s@.subrange(from as int, to as int)[i as int] != word@[i as int]);
            return false;
        }
        i = i + 1;
    }
    assert(s@.subrange(from as int, to as int) =~= word@);
    true
}

/// Splits a distribution definition `name,param1,param2` into its fields.
pub fn split_dist_def(val: &str) -> (r: DistDefFields)
    ensures
        r.kind == kind_of(name_field(val@)),
        opt_view(r.param1) == second_field(val@),
        opt_view(r.param2) == third_field(val@),
        r.extra == has_extra_field(val@),
{
    let n = val.unicode_len();
    let e0 = find_field_end(val, n, 0);
    let kind = if equals_word(val, 0, e0, "normal") {
        Some(DistKind::Normal)
    } else if equals_word(val, 0, e0, "uniform") {
        Some(DistKind::Uniform)
    } else {
        None
    };
    if e0 == n {
        return DistDefFields { kind, param1: None, param2: None, extra: false };
    }
    let e1 = find_field_end(val, n, e0 + 1);
    let param1 = Some(String::from_str(val.substring_char(e0 + 1, e1)));
    if e1 == n {
        return DistDefFields { kind, param1, param2: None, extra: false };
    }
    let e2 = find_field_end(val, n, e1 + 1);
    let param2 = Some(String::from_str(val.substring_char(e1 + 1, e2)));
    DistDefFields { kind, param1, param2, extra: e2 < n }
}

/// A validated distribution definition; the parameters are single-precision
/// bit patterns: mean and standard deviation, or minimum and maximum.
#[derive(Clone, Copy, Debug, PartialEq, Eq, Structural)]
pub struct DistSpec {
    pub kind: DistKind,
    pub param1: u32,
    pub param2: u32,
}

/// Why a distribution definition was refused.
#[derive(Clone, Copy, Debug, PartialEq, Eq, Structural)]
pub enum DistDefError {
    NameMalformed,
    Param1Malformed,
    Param2Malformed,
    ExtraFields,
    UniformMalformed,
    NormalMalformed,
}

/// A uniform distribution needs `min <= max`, a normal one `stddev >= 0`;
/// NaN parameters satisfy neither.
pub open spec fn params_valid(kind: DistKind, lo_or_mean: u32, hi_or_stddev: u32) -> bool {
    match kind {
        DistKind::Uniform => le_spec(lo_or_mean, hi_or_stddev),
        DistKind::Normal => le_spec(ZERO, hi_or_stddev),
    }
}

pub open spec fn dist_def_spec(
    kind: Option<DistKind>,
    lo_or_mean: Option<u32>,
    hi_or_stddev: Option<u32>,
    extra: bool,
) -> Result<DistSpec, DistDefError> {
    match (kind, lo_or_mean, hi_or_stddev) {
        (None, _, _) => Err(DistDefError::NameMalformed),
        (Some(_), None, _) => Err(DistDefError::Param1Malformed),
        (Some(_), Some(_), None) => Err(DistDefError::Param2Malformed),
        (Some(k), Some(a), Some(b)) => if extra {
            Err(DistDefError::ExtraFields)
        } else if params_valid(k, a, b) {
            Ok(DistSpec { kind: k, param1: a, param2: b })
        } else if k == DistKind::Uniform {
            Err(DistDefError::UniformMalformed)
        } else {
            Err(DistDefError::NormalMalformed)
        },
    }
}

/// Validates a distribution definition from its recognised name, its two
/// parameters as read (`None` where a parameter is missing or is no number)
/// and whether it has fields beyond the third.
pub fn dist_def_validator(
    kind: Option<DistKind>,
    param1: Option<u32>,
    param2: Option<u32>,
    extra: bool,
) -> (r: Result<DistSpec, DistDefError>)
    ensures
        r == dist_def_spec(kind, param1, param2, extra),
{
    let k = match kind {
        None => return Err(DistDefError::NameMalformed),
        Some(k) => k,
    };
    let a = match param1 {
        None => return Err(DistDefError::Param1Malformed),
        Some(a) => a,
    };
    let b = match param2 {
        None => return Err(DistDefError::Param2Malformed),
        Some(b) => b,
    };
    if extra {
        return Err(DistDefError::ExtraFields);
    }
    match k {
        DistKind::Uniform => if le(a, b) {
            Ok(DistSpec { kind: k, param1: a, param2: b })
        } else {
            Err(DistDefError::UniformMalformed)
        },
        DistKind::Normal => if le(ZERO, b) {
            Ok(DistSpec { kind: k, param1: a, param2: b })
        } else {
            Err(DistDefError::NormalMalformed)
        },
    }
}

impl DistDefError {
    pub open spec fn message_spec(self) -> Seq<char> {
        match self {
            DistDefError::NameMalformed => "distribution name malformed"@,
            DistDefError::Param1Malformed => "distribution parameter 1 malformed"@,
            DistDefError::Param2Malformed => "distribution parameter 2 malformed"@,
            DistDefError::ExtraFields => "distribution definition has more than three fields"@,
            DistDefError::UniformMalformed => "malformed uniform distribution specified"@,
            DistDefError::NormalMalformed => "malformed normal distribution specified"@,
        }
    }

    /// The text reported for this error.
    pub fn message(&self) -> (r: String)
        ensures
            r@ == self.message_spec(),
    {
        match self {
            DistDefError::NameMalformed => String::from_str("distribution name malformed"),
            DistDefError::Param1Malformed => String::from_str("distribution parameter 1 malformed"),
            DistDefError::Param2Malformed => String::from_str("distribution parameter 2 malformed"),
            DistDefError::ExtraFields => String::from_str(
                "distribution definition has more than three fields",
            ),
            DistDefError::UniformMalformed => String::from_str(
                "malformed uniform distribution specified",
            ),
            DistDefError::NormalMalformed => String::from_str(
                "malformed normal distribution specified",
            ),
        }
    }
}

} // verus!
