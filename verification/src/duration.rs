//! Parsing of human duration strings (`25m`, `30s`, `1m30s`, bare minutes)
//! into seconds, and rendering of second counts back into words and into a
//! `MM:SS` clock.

use crate::chars::{is_space, is_space_char, lower_chars, lower_seq, trim_bounds, trim_spec};
use vstd::prelude::*;
use vstd::string::*;

verus! {

pub open spec fn is_digit(c: char) -> bool {
    '0' as u32 <= c as u32 && c as u32 <= '9' as u32
}

pub open spec fn digit_val(c: char) -> nat {
    (c as u32 - '0' as u32) as nat
}

pub open spec fn all_digits(s: Seq<char>) -> bool {
    forall|i: int| 0 <= i < s.len() ==> is_digit(s[i])
}

/// The value of a string of decimal digits, most significant first.
pub open spec fn digits_val(s: Seq<char>) -> nat
    decreases s.len(),
{
    if s.len() == 0 {
        0
    } else {
        digits_val(s.drop_last()) * 10 + digit_val(s.last())
    }
}

/// The decimal rendering of `n`, most significant digit first.
pub open spec fn dec_digit_char(d: nat) -> char {
    if d == 0 {
        '0'
    } else if d == 1 {
        '1'
    } else if d == 2 {
        '2'
    } else if d == 3 {
        '3'
    } else if d == 4 {
        '4'
    } else if d == 5 {
        '5'
    } else if d == 6 {
        '6'
    } else if d == 7 {
        '7'
    } else if d == 8 {
        '8'
    } else {
        '9'
    }
}

pub open spec fn dec_rep(n: nat) -> Seq<char>
    decreases n,
{
    if n < 10 {
        seq![dec_digit_char(n)]
    } else {
        dec_rep(n / 10) + seq![dec_digit_char(n % 10)]
    }
}

/// One decimal digit as a string slice.
pub fn digit_str(d: u64) -> (r: &'static str)
    requires
        d < 10,
    ensures
        r@ =~= seq![dec_digit_char(d as nat)],
{
    proof {
        reveal_strlit("0");
        reveal_strlit("1");
        reveal_strlit("2");
        reveal_strlit("3");
        reveal_strlit("4");
        reveal_strlit("5");
        reveal_strlit("6");
        reveal_strlit("7");
        reveal_strlit("8");
        reveal_strlit("9");
    }
    if d == 0 {
        "0"
    } else if d == 1 {
        "1"
    } else if d == 2 {
        "2"
    } else if d == 3 {
        "3"
    } else if d == 4 {
        "4"
    } else if d == 5 {
        "5"
    } else if d == 6 {
        "6"
    } else if d == 7 {
        "7"
    } else if d == 8 {
        "8"
    } else {
        "9"
    }
}

/// The decimal rendering of `n` as a `String`.
pub fn u64_string(n: u64) -> (r: String)
    ensures
        r@ == dec_rep(n as nat),
    decreases n,
{
    if n < 10 {
        String::from_str(digit_str(n))
    } else {
        let mut s = u64_string(n / 10);
        s.append(digit_str(n % 10));
        proof {
            assert(s@ =~= dec_rep(n as nat));
        }
        s
    }
}

/// The plural suffix for a count: empty for one, `s` otherwise.
pub open spec fn plural_suffix(n: nat) -> Seq<char> {
    if n == 1 {
        Seq::<char>::empty()
    } else {
        "s"@
    }
}

pub fn plural_str(n: u64) -> (r: &'static str)
    ensures
        r@ =~= plural_suffix(n as nat),
{
    proof {
        reveal_strlit("");
        reveal_strlit("s");
    }
    if n == 1 {
        ""
    } else {
        "s"
    }
}

/// A second count in words: minutes and seconds, each with its plural suffix,
/// parts of zero size left out (except that zero seconds alone still reads
/// `0 seconds`).
pub open spec fn format_duration_spec(seconds: nat) -> Seq<char> {
    let m = seconds / 60;
    let s = seconds % 60;
    if m > 0 && s > 0 {
        dec_rep(m) + " minute"@ + plural_suffix(m) + " "@ + dec_rep(s) + " second"@
            + plural_suffix(s)
    } else if m > 0 {
        dec_rep(m) + " minute"@ + plural_suffix(m)
    } else {
        dec_rep(s) + " second"@ + plural_suffix(s)
    }
}

/// Render a second count in words, exactly as `format_duration_spec` says.
pub fn format_duration(seconds: u64) -> (r: String)
    ensures
        r@ == format_duration_spec(seconds as nat),
{
    let m = seconds / 60;
    let s = seconds % 60;
    if m > 0 && s > 0 {
        let mut out = u64_string(m);
        out.append(" minute");
        out.append(plural_str(m));
        out.append(" ");
        out.append(u64_string(s).as_str());
        out.append(" second");
        out.append(plural_str(s));
        proof {
            assert(out@ =~= format_duration_spec(seconds as nat));
        }
        out
    } else if m > 0 {
        let mut out = u64_string(m);
        out.append(" minute");
        out.append(plural_str(m));
        proof {
            assert(out@ =~= format_duration_spec(seconds as nat));
        }
        out
    } else {
        let mut out = u64_string(s);
        out.append(" second");
        out.append(plural_str(s));
        proof {
            assert(out@ =~= format_duration_spec(seconds as nat));
        }
        out
    }
}

/// A number padded to at least two digits, as the clock shows it.
pub open spec fn two_digit(n: nat) -> Seq<char> {
    if n < 10 {
        "0"@ + dec_rep(n)
    } else {
        dec_rep(n)
    }
}

/// The `MM:SS` clock face for a remaining second count.
pub open spec fn clock_spec(remaining: nat) -> Seq<char> {
    two_digit(remaining / 60) + ":"@ + two_digit(remaining % 60)
}

fn two_digit_string(n: u64) -> (r: String)
    ensures
        r@ == two_digit(n as nat),
{
    if n < 10 {
        let mut out = String::from_str("0");
        out.append(digit_str(n));
        proof {
            assert(out@ =~= two_digit(n as nat));
        }
        out
    } else {
        u64_string(n)
    }
}

/// Render the `MM:SS` clock for a remaining second count.
pub fn format_clock(remaining: u64) -> (r: String)
    ensures
        r@ == clock_spec(remaining as nat),
{
    let mut out = two_digit_string(remaining / 60);
    out.append(":");
    out.append(two_digit_string(remaining % 60).as_str());
    proof {
        assert(out@ =~= clock_spec(remaining as nat));
    }
    out
}

/// How a duration string parses: a second count, or one of the five errors.
#[derive(PartialEq, Eq, Structural)]
pub enum ParseOutcome {
    /// The total in seconds.
    Seconds(u64),
    /// A unit letter arrived with no digits pending before it.
    EmptyNumber,
    /// A number in the string does not fit, or the total does not fit, in 64
    /// bits.
    InvalidNumber,
    /// A character that is not a digit, a unit letter, or whitespace.
    InvalidChar,
    /// The string ends with digits that no unit letter follows.
    MissingUnit,
    /// The total is zero seconds.
    Zero,
}

/// One pass of the scanner from position `i`: digits accumulate into `pend`,
/// `m` adds sixty times the pending number to `total`, `s` adds it directly,
/// whitespace is skipped, anything else is an error.
pub open spec fn scan(s: Seq<char>, i: int, have_digits: bool, pend: nat, total: nat) -> ParseOutcome
    decreases s.len() - i,
{
    if i < 0 || i >= s.len() {
        if have_digits {
            ParseOutcome::MissingUnit
        } else if total == 0 {
            ParseOutcome::Zero
        } else {
            ParseOutcome::Seconds(total as u64)
        }
    } else {
        let c = s[i];
        if is_digit(c) {
            scan(s, i + 1, true, pend * 10 + digit_val(c), total)
        } else if c == 'm' {
            if !have_digits {
                ParseOutcome::EmptyNumber
            } else if pend > u64::MAX {
                ParseOutcome::InvalidNumber
            } else if pend * 60 + total > u64::MAX {
                ParseOutcome::InvalidNumber
            } else {
                scan(s, i + 1, false, 0, total + pend * 60)
            }
        } else if c == 's' {
            if !have_digits {
                ParseOutcome::EmptyNumber
            } else if pend > u64::MAX {
                ParseOutcome::InvalidNumber
            } else if pend + total > u64::MAX {
                ParseOutcome::InvalidNumber
            } else {
                scan(s, i + 1, false, 0, total + pend)
            }
        } else if is_space(c) {
            scan(s, i + 1, have_digits, pend, total)
        } else {
            ParseOutcome::InvalidChar
        }
    }
}

/// The digits of a trimmed bare integer, with an optional leading plus sign
/// removed.
pub open spec fn bare_digits(t: Seq<char>) -> Seq<char> {
    if t.len() > 0 && t[0] == '+' {
        t.drop_first()
    } else {
        t
    }
}

/// Whether the trimmed input is a plain non-negative integer that fits in 64
/// bits, read as minutes for backward compatibility.
pub open spec fn is_bare_minutes(t: Seq<char>) -> bool {
    let d = bare_digits(t);
    d.len() > 0 && all_digits(d) && digits_val(d) <= u64::MAX
}

/// What a duration string parses to: a bare integer is minutes; otherwise the
/// scanner reads digit groups with `m` and `s` unit letters; a zero total is
/// an error.
pub open spec fn parse_duration_spec(raw: Seq<char>) -> ParseOutcome {
    let s = lower_seq(raw);
    let t = trim_spec(s);
    if is_bare_minutes(t) {
        let mins = digits_val(bare_digits(t));
        if mins * 60 > u64::MAX {
            ParseOutcome::InvalidNumber
        } else if mins == 0 {
            ParseOutcome::Zero
        } else {
            ParseOutcome::Seconds((mins * 60) as u64)
        }
    } else {
        scan(s, 0, false, 0, 0)
    }
}

/// The message each parse error carries.
pub open spec fn parse_error_message(o: ParseOutcome) -> Seq<char> {
    match o {
        ParseOutcome::Seconds(_) => Seq::<char>::empty(),
        ParseOutcome::EmptyNumber => "Invalid duration format. Use formats like: 25m, 30s, 1m30s"@,
        ParseOutcome::InvalidNumber => "Invalid number in duration"@,
        ParseOutcome::InvalidChar => "Invalid character in duration. Use formats like: 25m, 30s, 1m30s"@,
        ParseOutcome::MissingUnit => "Duration must end with 'm' (minutes) or 's' (seconds)"@,
        ParseOutcome::Zero => "Duration must be greater than 0"@,
    }
}

/// The bare-minutes value of `cs[a..b]`, when that segment is shaped like a
/// plain integer whose value fits in 64 bits.
fn bare_minutes(cs: &Vec<char>, a: usize, b: usize) -> (r: Option<u64>)
    requires
        a <= b <= cs@.len(),
    ensures
        ({
            let t = cs@.subrange(a as int, b as int);
            match r {
                Option::Some(v) => is_bare_minutes(t) && v as nat == digits_val(bare_digits(t)),
                Option::None => !is_bare_minutes(t),
            }
        }),
{
    let ghost t = cs@.subrange(a as int, b as int);
    let mut p = a;
    if p < b && cs[p] == '+' {
        p = p + 1;
    }
    proof {
        assert(bare_digits(t) =~= cs@.subrange(p as int, b as int));
    }
    let ghost d = cs@.subrange(p as int, b as int);
    if p == b {
        return Option::None;
    }
    let mut i = p;
    let mut val: u64 = 0;
    let mut overflow = false;
    let ghost mut gval: nat = 0nat;
    while i < b
        invariant
            a <= p <= i <= b <= cs@.len(),
            d == cs@.subrange(p as int, b as int),
            bare_digits(cs@.subrange(a as int, b as int)) == d,
            all_digits(cs@.subrange(p as int, i as int)),
            gval == digits_val(cs@.subrange(p as int, i as int)),
            !overflow ==> gval == val as nat,
            overflow ==> gval > u64::MAX,
        decreases b - i,
    {
        let c = cs[i];
        if !('0' as u32 <= c as u32 && c as u32 <= '9' as u32) {
            assert(!is_digit(d[i - p]));
            return Option::None;
        }
        let dv: u64 = (c as u32 - '0' as u32) as u64;
        proof {
            assert(cs@.subrange(p as int, i + 1 as int).drop_last() =~= cs@.subrange(
                p as int,
                i as int,
            ));
            gval = gval * 10 + digit_val(c);
        }
        if overflow {
        } else {
            let wide: u128 = (val as u128) * 10 + (dv as u128);
            if wide > u64::MAX as u128 {
                overflow = true;
            } else {
                val = wide as u64;
            }
        }
        i = i + 1;
    }
    proof {
        assert(cs@.subrange(p as int, b as int) =~= d);
    }
    if overflow {
        Option::None
    } else {
        Option::Some(val)
    }
}

/// The scanner half of parsing: digit groups with unit letters, exactly as
/// `scan` says.
fn scan_duration(cs: &Vec<char>) -> (r: Result<u64, String>)
    ensures
        ({
            let o = scan(cs@, 0, false, 0, 0);
            match r {
                Result::Ok(n) => o == ParseOutcome::Seconds(n),
                Result::Err(m) => !(o is Seconds) && m@ == parse_error_message(o),
            }
        }),
{
    let ghost s = cs@;
    let n = cs.len();
    let mut i: usize = 0;
    let mut have_digits = false;
    let mut pend: u64 = 0;
    let mut pflow = false;
    let ghost mut gpend: nat = 0nat;
    let mut total: u64 = 0;
    while i < n
        invariant
            i <= n,
            n == s.len(),
            s == cs@,
            scan(s, 0, false, 0, 0) == scan(s, i as int, have_digits, gpend, total as nat),
            !pflow ==> gpend == pend as nat,
            pflow ==> gpend > u64::MAX,
        decreases n - i,
    {
        let c = cs[i];
        if '0' as u32 <= c as u32 && c as u32 <= '9' as u32 {
            let dv: u64 = (c as u32 - '0' as u32) as u64;
            proof {
                gpend = gpend * 10 + digit_val(c);
            }
            if !pflow {
                let wide: u128 = (pend as u128) * 10 + (dv as u128);
                if wide > u64::MAX as u128 {
                    pflow = true;
                } else {
                    pend = wide as u64;
                }
            }
            have_digits = true;
        } else if c == 'm' {
            if !have_digits {
                return Result::Err(String::from_str(
                    "Invalid duration format. Use formats like: 25m, 30s, 1m30s",
                ));
            }
            if pflow {
                return Result::Err(String::from_str("Invalid number in duration"));
            }
            let wide: u128 = (pend as u128) * 60 + (total as u128);
            if wide > u64::MAX as u128 {
                return Result::Err(String::from_str("Invalid number in duration"));
            }
            total = wide as u64;
            pend = 0;
            have_digits = false;
            proof {
                gpend = 0nat;
            }
        } else if c == 's' {
            if !have_digits {
                return Result::Err(String::from_str(
                    "Invalid duration format. Use formats like: 25m, 30s, 1m30s",
                ));
            }
            if pflow {
                return Result::Err(String::from_str("Invalid number in duration"));
            }
            let wide: u128 = (pend as u128) + (total as u128);
            if wide > u64::MAX as u128 {
                return Result::Err(String::from_str("Invalid number in duration"));
            }
            total = wide as u64;
            pend = 0;
            have_digits = false;
            proof {
                gpend = 0nat;
            }
        } else if is_space_char(c) {
        } else {
            return Result::Err(String::from_str(
                "Invalid character in duration. Use formats like: 25m, 30s, 1m30s",
            ));
        }
        i = i + 1;
    }
    if have_digits {
        Result::Err(String::from_str("Duration must end with 'm' (minutes) or 's' (seconds)"))
    } else if total == 0 {
        Result::Err(String::from_str("Duration must be greater than 0"))
    } else {
        Result::Ok(total)
    }
}

/// Parse a human duration string into seconds, exactly as
/// `parse_duration_spec` says: `Ok` with the total on success, `Err` with the
/// matching message otherwise.
pub fn parse_duration(input: &str) -> (r: Result<u64, String>)
    ensures
        ({
            let o = parse_duration_spec(input@);
            match r {
                Result::Ok(n) => o == ParseOutcome::Seconds(n),
                Result::Err(m) => !(o is Seconds) && m@ == parse_error_message(o),
            }
        }),
{
    let cs = lower_chars(input);
    let (a, b) = trim_bounds(&cs);
    match bare_minutes(&cs, a, b) {
        Option::Some(mins) => {
            let wide: u128 = (mins as u128) * 60;
            if wide > u64::MAX as u128 {
                Result::Err(String::from_str("Invalid number in duration"))
            } else if mins == 0 {
                Result::Err(String::from_str("Duration must be greater than 0"))
            } else {
                Result::Ok(wide as u64)
            }
        },
        Option::None => scan_duration(&cs),
    }
}

} // verus!
