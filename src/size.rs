//! Device size strings: a decimal number of megabytes, or of gigabytes with a
//! `G`/`GB` suffix (`M`/`MB` may be written too), case-insensitive.

use vstd::prelude::*;
use vstd::utf8::encode_utf8;

verus! {

/// Bytes in a megabyte.
pub const MIB: u64 = 1048576;

/// Bytes in a gigabyte.
pub const GIB: u64 = 1073741824;

/// Why a size string was refused.
#[derive(Debug, Clone, Copy, PartialEq, Eq, Structural)]
pub enum SizeError {
    /// No digits at the front, or a number too large for 64 bits.
    InvalidNumber,
    /// Something other than nothing, `M`, `MB`, `G` or `GB` after the number.
    InvalidSuffix,
    /// The size in bytes does not fit in 64 bits.
    TooLarge,
}

impl SizeError {
    pub fn message(&self) -> (r: String)
        ensures
            r@ == match self {
                SizeError::InvalidNumber => "Invalid size number"@,
                SizeError::InvalidSuffix => "Invalid size suffix. Use M/MB or G/GB."@,
                SizeError::TooLarge => "Size does not fit in 64 bits"@,
            },
    {
        match self {
            SizeError::InvalidNumber => "Invalid size number".to_string(),
            SizeError::InvalidSuffix => "Invalid size suffix. Use M/MB or G/GB.".to_string(),
            SizeError::TooLarge => "Size does not fit in 64 bits".to_string(),
        }
    }
}

/// What `str::trim` leaves of a string.
pub uninterp spec fn trim_of(s: Seq<char>) -> Seq<char>;

/// What `str::to_uppercase` makes of a string.
pub uninterp spec fn upper_of(s: Seq<char>) -> Seq<char>;

/// Relies on `str::trim`: the string without leading and trailing white space,
/// which depends on the characters alone.
#[verifier::external_body]
fn trimmed(s: &str) -> (r: &str)
    ensures
        r@ == trim_of(s@),
{
    s.trim()
}

/// Relies on `str::to_uppercase`: the upper-case form, which depends on the
/// characters alone.
#[verifier::external_body]
fn uppercased(s: &str) -> (r: String)
    ensures
        r@ == upper_of(s@),
{
    s.to_uppercase()
}

pub open spec fn is_digit(c: u8) -> bool {
    48 <= c <= 57
}

/// The length of the run of ASCII digits at the front of `b`.
pub open spec fn digit_run(b: Seq<u8>) -> nat
    decreases b.len(),
{
    if b.len() == 0 || !is_digit(b[0]) {
        0
    } else {
        1 + digit_run(b.drop_first())
    }
}

/// The number that a run of decimal digits spells.
pub open spec fn decimal_value(d: Seq<u8>) -> nat
    decreases d.len(),
{
    if d.len() == 0 {
        0
    } else {
        decimal_value(d.drop_last()) * 10 + (d.last() - 48) as nat
    }
}

/// How many bytes one unit of the suffix stands for, if it is a suffix at all.
pub open spec fn suffix_unit(suffix: Seq<u8>) -> Option<u64> {
    if suffix.len() == 0 || suffix == seq![77u8] || suffix == seq![77u8, 66u8] {
        Some(MIB)
    } else if suffix == seq![71u8] || suffix == seq![71u8, 66u8] {
        Some(GIB)
    } else {
        None
    }
}

/// The size that an upper-case, trimmed size string stands for.
pub open spec fn spec_size_of(b: Seq<u8>) -> Result<u64, SizeError> {
    let k = digit_run(b);
    let v = decimal_value(b.take(k as int));
    if k == 0 || v > u64::MAX {
        Err(SizeError::InvalidNumber)
    } else {
        match suffix_unit(b.skip(k as int)) {
            None => Err(SizeError::InvalidSuffix),
            Some(unit) => if v * unit > u64::MAX {
                Err(SizeError::TooLarge)
            } else {
                Ok((v * unit) as u64)
            },
        }
    }
}

proof fn lemma_digit_run(b: Seq<u8>, i: int)
    requires
        0 <= i <= b.len(),
        forall|j: int| 0 <= j < i ==> is_digit(b[j]),
        i == b.len() || !is_digit(b[i]),
    ensures
        digit_run(b) == i,
    decreases i,
{
    if i > 0 {
        lemma_digit_run(b.drop_first(), i - 1);
    }
}

proof fn lemma_run_facts(b: Seq<u8>)
    ensures
        digit_run(b) <= b.len(),
        forall|j: int| 0 <= j < digit_run(b) ==> is_digit(b[j]),
        digit_run(b) == b.len() || !is_digit(b[digit_run(b) as int]),
    decreases b.len(),
{
    if b.len() > 0 && is_digit(b[0]) {
        lemma_run_facts(b.drop_first());
        assert forall|j: int| 0 <= j < digit_run(b) implies is_digit(b[j]) by {
            if j > 0 {
                assert(b[j] == b.drop_first()[j - 1]);
            }
        }
    }
}

proof fn lemma_value_grows(d: Seq<u8>, i: int, j: int)
    requires
        0 <= i <= j <= d.len(),
        forall|t: int| 0 <= t < d.len() ==> is_digit(d[t]),
    ensures
        decimal_value(d.take(i)) <= decimal_value(d.take(j)),
    decreases j - i,
{
    if i < j {
        lemma_value_grows(d, i, j - 1);
        assert(d.take(j).drop_last() =~= d.take(j - 1));
    }
}

/// The size in bytes that the bytes of a trimmed, upper-case size string stand
/// for: the leading decimal digits, times the unit that the rest names.
pub fn size_from_text(b: &[u8]) -> (r: Result<u64, SizeError>)
    ensures
        r == spec_size_of(b@),
{
    let mut i: usize = 0;
    let mut v: u64 = 0;
    while i < b.len() && 48 <= b[i] && b[i] <= 57
        invariant
            i <= b@.len(),
            forall|j: int| 0 <= j < i ==> is_digit(b@[j]),
            v == decimal_value(b@.take(i as int)),
        decreases b@.len() - i,
    {
        let d = (b[i] - 48) as u64;
        assert(b@.take(i + 1).drop_last() =~= b@.take(i as int));
        if v > (u64::MAX - d) / 10 {
            proof {
                lemma_run_facts(b@);
                let e = digit_run(b@) as int;
                let run = b@.take(e);
                assert(run.take(i + 1) =~= b@.take(i + 1));
                assert(run.take(e) =~= run);
                lemma_value_grows(run, i + 1, e);
                assert(decimal_value(b@.take(i + 1)) > u64::MAX) by (nonlinear_arith)
                    requires
                        decimal_value(b@.take(i + 1)) == v * 10 + d,
                        v > (u64::MAX - d) / 10,
                        d <= 9,
                ;
            }
            return Err(SizeError::InvalidNumber);
        }
        v = v * 10 + d;
        i = i + 1;
    }
    proof {
        lemma_digit_run(b@, i as int);
    }
    if i == 0 {
        return Err(SizeError::InvalidNumber);
    }
    let suffix = vstd::slice::slice_subrange(b, i, b.len());
    assert(suffix@ =~= b@.skip(i as int));
    let n = suffix.len();
    let m = n >= 1 && suffix[0] == 77u8;
    let g = n >= 1 && suffix[0] == 71u8;
    let with_b = n == 2 && suffix[1] == 66u8;
    let unit: u64 = if n == 0 || (m && n == 1) || (m && with_b) {
        proof {
            if n == 1 {
                assert(suffix@ =~= seq![77u8]);
            } else if n == 2 {
                assert(suffix@ =~= seq![77u8, 66u8]);
            }
        }
        MIB
    } else if (g && n == 1) || (g && with_b) {
        proof {
            if n == 1 {
                assert(suffix@ =~= seq![71u8]);
            } else {
                assert(suffix@ =~= seq![71u8, 66u8]);
            }
        }
        GIB
    } else {
        return Err(SizeError::InvalidSuffix);
    };
    if v > u64::MAX / unit {
        proof {
            assert(v * unit > u64::MAX) by (nonlinear_arith)
                requires
                    v > u64::MAX / unit,
                    unit > 0,
            ;
        }
        return Err(SizeError::TooLarge);
    }
    proof {
        assert(v * unit <= u64::MAX) by (nonlinear_arith)
            requires
                v <= u64::MAX / unit,
                unit > 0,
        ;
    }
    Ok(v * unit)
}

/// Parses a size string such as `512M`, `2G` or `1024` into bytes: white
/// space around it is ignored, the suffix is read without regard to case,
/// and a bare number counts megabytes.
pub fn parse_size_string(s: &str) -> (r: Result<u64, SizeError>)
    ensures
        r == spec_size_of(encode_utf8(upper_of(trim_of(s@)))),
{
    let t = trimmed(s);
    let u = uppercased(t);
    let b = u.as_str().as_bytes();
    size_from_text(b)
}

} // verus!
