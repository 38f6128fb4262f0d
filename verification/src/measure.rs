use vstd::prelude::*;

use crate::text::{append_decimal_nat, magnitude, spec_decimal_nat, spec_magnitude};

verus! {

/// The whole hours in `seconds`, rounded toward zero.
pub open spec fn spec_whole_hours(seconds: int) -> int {
    if seconds >= 0 {
        seconds / 3600
    } else {
        -((-seconds) / 3600)
    }
}

/// The whole hours in `seconds`, rounded toward zero.
pub fn whole_hours(seconds: i128) -> (hours: i128)
    ensures
        hours == spec_whole_hours(seconds as int),
{
    seconds / 3600
}

/// The largest magnitude of a part or a total of which `percent_tenths`
/// takes the share: ten to the power 35.
pub open spec fn share_limit() -> int {
    100_000_000_000_000_000_000_000_000_000_000_000
}

/// `n / d` rounded to the nearest whole number, a half rounded up, for `n`
/// not negative and `d` positive.
pub open spec fn spec_round_div(n: int, d: int) -> int {
    if 2 * (n % d) >= d {
        n / d + 1
    } else {
        n / d
    }
}

/// The share of `part` in `total` in tenths of a percent, rounded to the
/// nearest tenth, a half away from zero. A total of 0 has no shares.
pub open spec fn spec_percent_tenths(part: int, total: int) -> Option<int> {
    if total == 0 {
        None
    } else {
        let tenths = spec_round_div(
            1000 * (spec_magnitude(part) as int),
            spec_magnitude(total) as int,
        );
        if (part < 0) == (total < 0) {
            Some(tenths)
        } else {
            Some(-tenths)
        }
    }
}

/// The share of `part` in `total` in tenths of a percent.
pub fn percent_tenths(part: i128, total: i128) -> (r: Option<i128>)
    requires
        -share_limit() <= part <= share_limit(),
        -share_limit() <= total <= share_limit(),
    ensures
        match r {
            Some(tenths) => spec_percent_tenths(part as int, total as int) == Some(tenths as int),
            None => spec_percent_tenths(part as int, total as int) is None,
        },
{
    if total == 0 {
        return None;
    }
    let n: u128 = 1000 * magnitude(part);
    let d: u128 = magnitude(total);
    let q: u128 = n / d;
    let rem: u128 = n % d;
    let tenths: u128 = if 2 * rem >= d {
        q + 1
    } else {
        q
    };
    if (part < 0) == (total < 0) {
        Some(tenths as i128)
    } else {
        Some(-(tenths as i128))
    }
}

/// A number of tenths as a decimal with one place, as in `66.7`.
pub open spec fn spec_tenths_text(tenths: int) -> Seq<char> {
    let m = spec_magnitude(tenths);
    let digits = spec_decimal_nat(m / 10) + seq!['.'] + spec_decimal_nat(m % 10);
    if tenths < 0 {
        seq!['-'] + digits
    } else {
        digits
    }
}

/// Appends a number of tenths to `out` as a decimal with one place.
pub fn append_tenths(out: &mut String, tenths: i128)
    ensures
        final(out)@ == old(out)@ + spec_tenths_text(tenths as int),
{
    proof {
        reveal_strlit("-");
        reveal_strlit(".");
    }
    let m = magnitude(tenths);
    if tenths < 0 {
        out.append("-");
    }
    append_decimal_nat(out, m / 10);
    out.append(".");
    append_decimal_nat(out, m % 10);
    proof {
        assert("-"@ =~= seq!['-']);
        assert("."@ =~= seq!['.']);
        assert(out@ =~= old(out)@ + spec_tenths_text(tenths as int));
    }
}

/// The share of `part` in `total` for a reader: the percentage with one
/// decimal place and a percent sign, or `N/A` where the total is 0.
pub open spec fn spec_percent_text(part: int, total: int) -> Seq<char> {
    match spec_percent_tenths(part, total) {
        Some(tenths) => spec_tenths_text(tenths) + "%"@,
        None => "N/A"@,
    }
}

/// Appends the share of `part` in `total`, written for a reader, to `out`.
pub fn append_percent(out: &mut String, part: i128, total: i128)
    requires
        -share_limit() <= part <= share_limit(),
        -share_limit() <= total <= share_limit(),
    ensures
        final(out)@ == old(out)@ + spec_percent_text(part as int, total as int),
{
    match percent_tenths(part, total) {
        Some(tenths) => {
            append_tenths(out, tenths);
            out.append("%");
            proof {
                assert(out@ =~= old(out)@ + spec_percent_text(part as int, total as int));
            }
        },
        None => {
            out.append("N/A");
        },
    }
}

/// The share of `part` in `total`, written for a reader.
pub fn percent_text(part: i128, total: i128) -> (r: String)
    requires
        -share_limit() <= part <= share_limit(),
        -share_limit() <= total <= share_limit(),
    ensures
        r@ == spec_percent_text(part as int, total as int),
{
    let mut out = String::new();
    append_percent(&mut out, part, total);
    proof {
        assert(out@ =~= spec_percent_text(part as int, total as int));
    }
    out
}

} // verus!
