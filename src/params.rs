//! Validation and normalisation of the raw command-line values.
use vstd::prelude::*;
use crate::text::{chars_of, eq_str, push_prefix, push_str, string_of};

verus! {

/// The service's name for a listening period: a trailing `d` turns the
/// numeric prefix into days, a trailing `m` into months, anything else is
/// the whole history.
pub open spec fn period_token(t: Seq<char>) -> Seq<char> {
    if t.len() > 0 && t.last() == 'd' {
        t.drop_last() + "day"@
    } else if t.len() > 0 && t.last() == 'm' {
        t.drop_last() + "month"@
    } else {
        "overall"@
    }
}

/// The service's name for a flag value: `true` when it ends in `t`.
pub open spec fn flag_token(s: Seq<char>) -> Seq<char> {
    if s.len() > 0 && s.last() == 't' {
        "true"@
    } else {
        "false"@
    }
}

/// The grid size as the service writes it: `n` becomes `nxn`.
pub open spec fn size_token(n: Seq<char>) -> Seq<char> {
    n + "x"@ + n
}

/// The grid sizes the service draws.
pub open spec fn is_size(s: Seq<char>) -> bool {
    s == "3"@ || s == "4"@ || s == "5"@ || s == "10"@
}

/// The listening periods the service knows.
pub open spec fn is_period(s: Seq<char>) -> bool {
    s == "7d"@ || s == "1m"@ || s == "3m"@ || s == "6m"@ || s == "12m"@ || s == "all"@
}

/// The one-letter values of the caption and play-count flags.
pub open spec fn is_flag(s: Seq<char>) -> bool {
    s == "t"@ || s == "f"@
}

/// Whether `s` is a non-empty run of decimal digits.
pub open spec fn is_number(s: Seq<char>) -> bool {
    s.len() > 0 && forall|i: int| 0 <= i < s.len() ==> '0' <= #[trigger] s[i] <= '9'
}

/// A period written as a number and `d` becomes `<number>day`, one written as
/// a number and `m` becomes `<number>month`, and `all` becomes `overall`.
pub proof fn lemma_period_forms(n: Seq<char>)
    requires
        is_number(n),
    ensures
        period_token(n.push('d')) == n + "day"@,
        period_token(n.push('m')) == n + "month"@,
        period_token("all"@) == "overall"@,
{
    reveal_strlit("all");
    assert(n.push('d').drop_last() =~= n);
    assert(n.push('m').drop_last() =~= n);
}

/// Maps a period such as `7d`, `1m` or `all` to the service's vocabulary.
pub fn parse_time(time: &str) -> (r: String)
    requires
        time@.len() > 0,
    ensures
        r@ == period_token(time@),
{
    let v = chars_of(time);
    let n = v.len();
    let last = v[n - 1];
    let mut out: Vec<char> = Vec::new();
    if last == 'd' {
        push_prefix(&mut out, &v, n - 1);
        push_str(&mut out, "day");
    } else if last == 'm' {
        push_prefix(&mut out, &v, n - 1);
        push_str(&mut out, "month");
    } else {
        push_str(&mut out, "overall");
    }
    assert(v@.take(n - 1) =~= v@.drop_last());
    string_of(&out)
}

/// Maps a flag value to `"true"` when it ends in `t`, else to `"false"`.
pub fn str_to_bool(s: &String) -> (r: String)
    requires
        s@.len() > 0,
    ensures
        r@ == flag_token(s@),
{
    let v = chars_of(s.as_str());
    let mut out: Vec<char> = Vec::new();
    if v[v.len() - 1] == 't' {
        push_str(&mut out, "true");
    } else {
        push_str(&mut out, "false");
    }
    string_of(&out)
}

/// Formats a grid size `n` as `nxn`.
pub fn size_param(size: &str) -> (r: String)
    ensures
        r@ == size_token(size@),
{
    let mut out = chars_of(size);
    push_str(&mut out, "x");
    push_str(&mut out, size);
    string_of(&out)
}

/// Whether `s` is one of the grid sizes 3, 4, 5 and 10.
pub fn valid_size(s: &str) -> (r: bool)
    ensures
        r == is_size(s@),
{
    eq_str(s, "3") || eq_str(s, "4") || eq_str(s, "5") || eq_str(s, "10")
}

/// Whether `s` is one of the periods 7d, 1m, 3m, 6m, 12m and all.
pub fn valid_period(s: &str) -> (r: bool)
    ensures
        r == is_period(s@),
{
    eq_str(s, "7d") || eq_str(s, "1m") || eq_str(s, "3m") || eq_str(s, "6m") || eq_str(s, "12m")
        || eq_str(s, "all")
}

/// Whether `s` is `t` or `f`.
pub fn valid_flag(s: &str) -> (r: bool)
    ensures
        r == is_flag(s@),
{
    eq_str(s, "t") || eq_str(s, "f")
}

} // verus!
