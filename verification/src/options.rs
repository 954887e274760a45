//! Resolution of the effective validation limits from the raw command-line
//! input.
//!
//! `max_depth` and `max_errors` arrive as optional decimal strings; `0` (or
//! an absent flag) means unbounded.  Quiet mode forces `max_errors` to `1`
//! when the flag was not given explicitly: no point collecting more than one
//! error when none will be printed.

use vstd::prelude::*;
use vstd::string::StrSliceExecFns;

verus! {

/// Which limit flag a value belongs to, for error reporting.
#[derive(Clone, Copy, PartialEq, Eq, Structural, Debug)]
pub enum LimitFlag {
    MaxDepth,
    MaxErrors,
}

/// A limit flag whose value did not parse as a non-negative integer.
#[derive(Debug)]
pub struct InvalidLimit {
    pub flag: LimitFlag,
    pub raw: String,
}

/// The effective validation limits and verbosity for one run.
/// A limit of `0` means unbounded.
#[derive(Debug)]
pub struct ValidationOptions {
    pub max_depth: usize,
    pub max_errors: usize,
    pub quiet: bool,
}

pub open spec fn is_dec_digit(c: char) -> bool {
    '0' as u32 <= c as u32 && c as u32 <= '9' as u32
}

pub open spec fn digit_val(c: char) -> nat {
    (c as u32 - '0' as u32) as nat
}

pub open spec fn all_dec_digits(s: Seq<char>) -> bool {
    forall|i: int| 0 <= i < s.len() ==> is_dec_digit(s[i])
}

/// The numeric value of a string of decimal digits.
pub open spec fn dec_value(s: Seq<char>) -> nat
    decreases s.len(),
{
    if s.len() == 0 {
        0
    } else {
        dec_value(s.drop_last()) * 10 + digit_val(s.last())
    }
}

/// A limit string is accepted when it is a non-empty run of decimal digits
/// whose value fits the machine word.
pub open spec fn limit_parses(s: Seq<char>) -> bool {
    s.len() > 0 && all_dec_digits(s) && dec_value(s) <= usize::MAX as nat
}

/// The views of an optional raw flag value.
pub open spec fn raw_view(o: Option<&str>) -> Option<Seq<char>> {
    match o {
        Some(s) => Some(s@),
        None => None,
    }
}

/// The effective `max_depth`: the explicit value, or unbounded.
pub open spec fn resolved_max_depth(explicit: Option<Seq<char>>) -> nat {
    match explicit {
        Some(s) => dec_value(s),
        None => 0,
    }
}

/// The effective `max_errors`: an explicit value always wins; an absent one
/// becomes `1` under quiet mode and unbounded otherwise.
pub open spec fn resolved_max_errors(explicit: Option<Seq<char>>, quiet: bool) -> nat {
    match explicit {
        Some(s) => dec_value(s),
        None => if quiet {
            1
        } else {
            0
        },
    }
}

proof fn lemma_dec_value_grows(s: Seq<char>, i: int)
    requires
        0 <= i <= s.len(),
    ensures
        dec_value(s.subrange(0, i)) <= dec_value(s),
    decreases s.len() - i,
{
    if i < s.len() {
        let a = s.subrange(0, i);
        let b = s.subrange(0, i + 1);
        assert(b.drop_last() =~= a);
        assert(b.last() == s[i]);
        assert(dec_value(b) == dec_value(a) * 10 + digit_val(s[i]));
        assert(dec_value(a) * 10 >= dec_value(a));
        lemma_dec_value_grows(s, i + 1);
    } else {
        assert(s.subrange(0, i) =~= s);
    }
}

/// Parse a limit flag's value: `Some` exactly on a non-empty all-digit
/// string whose value fits, and then the decimal value itself.
pub fn parse_limit(s: &str) -> (r: Option<usize>)
    ensures
        r is Some <==> limit_parses(s@),
        r matches Some(v) ==> v as nat == dec_value(s@),
{
    let len: usize = s.unicode_len();
    if len == 0 {
        return None;
    }
    let mut acc: usize = 0;
    let mut i: usize = 0;
    while i < len
        invariant
            0 < len == s@.len(),
            i <= len,
            all_dec_digits(s@.subrange(0, i as int)),
            acc as nat == dec_value(s@.subrange(0, i as int)),
        decreases len - i,
    {
        let c = s.get_char(i);
        let d: u32 = c as u32;
        if d < 48 || d > 57 {
            assert(!is_dec_digit(s@[i as int]));
            return None;
        }
        let dv: u32 = d - 48;
        proof {
            assert(s@.subrange(0, i as int + 1).drop_last() =~= s@.subrange(
                0,
                i as int,
            ));
            assert(s@.subrange(0, i as int + 1).last() == s@[i as int]);
        }
        if acc > (usize::MAX - dv as usize) / 10 {
            proof {
                let b = s@.subrange(0, i as int + 1);
                assert(dec_value(b) == acc * 10 + dv) by {
                    assert(digit_val(s@[i as int]) == dv);
                };
                assert(acc * 10 + dv > usize::MAX as nat) by (nonlinear_arith)
                    requires
                        acc > (usize::MAX - dv as usize) / 10,
                        dv <= 9,
                ;
                lemma_dec_value_grows(s@, i as int + 1);
                assert(dec_value(s@) > usize::MAX as nat);
            }
            return None;
        }
        proof {
            assert(acc * 10 + dv <= usize::MAX as nat) by (nonlinear_arith)
                requires
                    acc <= (usize::MAX - dv as usize) / 10,
                    dv <= 9,
            ;
        }
        acc = acc * 10 + dv as usize;
        i = i + 1;
    }
    proof {
        assert(s@.subrange(0, len as int) =~= s@);
    }
    Some(acc)
}

/// Derive the effective options from the raw flag values.
///
/// `max-depth` is checked first, then `max-errors`, matching the order the
/// flags are read; an explicit `max-errors` always wins, an absent one
/// resolves to `1` under quiet mode and to unbounded otherwise.
pub fn resolve_options(max_depth: Option<&str>, max_errors: Option<&str>, quiet: bool) -> (r:
    Result<ValidationOptions, InvalidLimit>)
    ensures
        (r is Err) <==> ((max_depth matches Some(s) && !limit_parses(s@)) || (
        max_errors matches Some(s) && !limit_parses(s@))),
        r matches Ok(o) ==> {
            &&& o.quiet == quiet
            &&& o.max_depth as nat == resolved_max_depth(raw_view(max_depth))
            &&& o.max_errors as nat == resolved_max_errors(raw_view(max_errors), quiet)
        },
        r matches Err(e) ==> {
            &&& (e.flag == LimitFlag::MaxDepth ==> (max_depth matches Some(s)
                && !limit_parses(s@) && e.raw@ == s@))
            &&& (e.flag == LimitFlag::MaxErrors ==> (max_errors matches Some(s)
                && !limit_parses(s@) && e.raw@ == s@ && (max_depth matches Some(
                d,
            ) ==> limit_parses(d@))))
        },
{
    let max_depth_val: usize = match max_depth {
        Some(s) => match parse_limit(s) {
            Some(v) => v,
            None => {
                return Err(InvalidLimit { flag: LimitFlag::MaxDepth, raw: s.to_owned() });
            },
        },
        None => 0,
    };
    let max_errors_val: usize = match max_errors {
        Some(s) => match parse_limit(s) {
            Some(v) => v,
            None => {
                return Err(InvalidLimit { flag: LimitFlag::MaxErrors, raw: s.to_owned() });
            },
        },
        None => if quiet {
            1
        } else {
            0
        },
    };
    Ok(ValidationOptions { max_depth: max_depth_val, max_errors: max_errors_val, quiet })
}

} // verus!
