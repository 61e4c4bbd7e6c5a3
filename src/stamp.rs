//! Local wall-clock times and their `YYYY-MM-DD_HHMMSS` rendering.
use vstd::prelude::*;

verus! {

/// A local wall-clock time, to the second.
#[derive(Clone, Copy, Debug, PartialEq, Eq)]
pub struct LocalTime {
    pub year: i32,
    pub month: u32,
    pub day: u32,
    pub hour: u32,
    pub minute: u32,
    pub second: u32,
}

impl LocalTime {
    /// Every field lies in its calendar or clock range.
    pub open spec fn wf(&self) -> bool {
        &&& 1 <= self.month <= 12
        &&& 1 <= self.day <= 31
        &&& self.hour < 24
        &&& self.minute < 60
        &&& self.second < 60
    }
}

/// Relies on chrono's `Local::now` and the `Datelike` / `Timelike` accessors,
/// which give the month from 1 to 12, the day from 1 to 31, the hour from 0 to
/// 23, and the minute and second from 0 to 59.
#[verifier::external_body]
pub(crate) fn local_now() -> (r: LocalTime)
    ensures
        r.wf(),
{
    let now = chrono::Local::now();
    LocalTime {
        year: chrono::Datelike::year(&now),
        month: chrono::Datelike::month(&now),
        day: chrono::Datelike::day(&now),
        hour: chrono::Timelike::hour(&now),
        minute: chrono::Timelike::minute(&now),
        second: chrono::Timelike::second(&now),
    }
}

/// The character of a decimal digit.
pub open spec fn digit(d: nat) -> char {
    if d == 0 {
        '0'
    } else if d == 1 {
        '1'
    } else if d == 2 {
        '2'
    } else if d == 3 {
        '3'
    } else if d == 4 {
        '4'
    } else if d == 5 {
        '5'
    } else if d == 6 {
        '6'
    } else if d == 7 {
        '7'
    } else if d == 8 {
        '8'
    } else {
        '9'
    }
}

/// The value of a digit character.
pub open spec fn digit_value(c: char) -> nat {
    if c == '1' {
        1
    } else if c == '2' {
        2
    } else if c == '3' {
        3
    } else if c == '4' {
        4
    } else if c == '5' {
        5
    } else if c == '6' {
        6
    } else if c == '7' {
        7
    } else if c == '8' {
        8
    } else if c == '9' {
        9
    } else {
        0
    }
}

/// `n` in decimal, padded on the left with zeros to at least `w` digits.
pub open spec fn padded(n: nat, w: nat) -> Seq<char>
    decreases n + w,
{
    if n < 10 && w <= 1 {
        seq![digit(n)]
    } else {
        padded(n / 10, if w > 0 { (w - 1) as nat } else { 0 }).push(digit(n % 10))
    }
}

/// The number a string of digits denotes.
pub open spec fn value(s: Seq<char>) -> nat
    decreases s.len(),
{
    if s.len() == 0 {
        0
    } else {
        value(s.drop_last()) * 10 + digit_value(s.last())
    }
}

/// A year as four digits, with a sign in front when it lies outside 0 to 9999.
pub open spec fn year_text(y: int) -> Seq<char> {
    if 0 <= y <= 9999 {
        padded(y as nat, 4)
    } else if y > 9999 {
        seq!['+'] + padded(y as nat, 4)
    } else {
        seq!['-'] + padded((-y) as nat, 4)
    }
}

/// `t` written as `YYYY-MM-DD_HHMMSS`, the layout of strftime's `%Y-%m-%d_%H%M%S`.
pub open spec fn stamp_text(t: LocalTime) -> Seq<char> {
    year_text(t.year as int) + seq!['-'] + padded(t.month as nat, 2) + seq!['-'] + padded(
        t.day as nat,
        2,
    ) + seq!['_'] + padded(t.hour as nat, 2) + padded(t.minute as nat, 2) + padded(
        t.second as nat,
        2,
    )
}

proof fn lemma_value_padded(n: nat, w: nat)
    ensures
        value(padded(n, w)) == n,
        padded(n, w).len() >= 1,
        forall|i: int| 0 <= i < padded(n, w).len() ==> #[trigger] padded(n, w)[i] != '+'
            && padded(n, w)[i] != '-',
    decreases n + w,
{
    if n < 10 && w <= 1 {
        assert(seq![digit(n)].drop_last() =~= Seq::<char>::empty());
        assert(value(seq![digit(n)]) == value(Seq::<char>::empty()) * 10 + digit_value(digit(n)));
    } else {
        let w2: nat = if w > 0 { (w - 1) as nat } else { 0 };
        lemma_value_padded(n / 10, w2);
        let p = padded(n / 10, w2);
        assert(p.push(digit(n % 10)).drop_last() =~= p);
        assert(n == (n / 10) * 10 + n % 10);
        assert(value(padded(n, w)) == value(p) * 10 + digit_value(digit(n % 10)));
        assert forall|i: int| 0 <= i < padded(n, w).len() implies #[trigger] padded(n, w)[i]
            != '+' && padded(n, w)[i] != '-' by {
            if i < p.len() {
                assert(padded(n, w)[i] == p[i]);
            }
        }
    }
}

proof fn lemma_padded_len_two(n: nat)
    requires
        n < 100,
    ensures
        padded(n, 2).len() == 2,
{
    reveal_with_fuel(padded, 3);
}

/// Two padded numbers with the same digits are the same number.
pub proof fn lemma_padded_injective(a: nat, wa: nat, b: nat, wb: nat)
    requires
        padded(a, wa) == padded(b, wb),
    ensures
        a == b,
{
    lemma_value_padded(a, wa);
    lemma_value_padded(b, wb);
}

proof fn lemma_year_injective(a: int, b: int)
    requires
        year_text(a) == year_text(b),
    ensures
        a == b,
{
    lemma_value_padded(if a >= 0 { a as nat } else { (-a) as nat }, 4);
    lemma_value_padded(if b >= 0 { b as nat } else { (-b) as nat }, 4);
    let ta = year_text(a);
    let tb = year_text(b);
    if 0 <= a <= 9999 {
        assert(ta[0] != '+' && ta[0] != '-');
    } else if a > 9999 {
        assert(ta[0] == '+');
    } else {
        assert(ta[0] == '-');
    }
    if 0 <= b <= 9999 {
        assert(tb[0] != '+' && tb[0] != '-');
    } else if b > 9999 {
        assert(tb[0] == '+');
    } else {
        assert(tb[0] == '-');
    }
    if !(0 <= a <= 9999) && !(0 <= b <= 9999) {
        assert(ta.drop_first() == tb.drop_first());
        if a > 9999 {
            assert(ta.drop_first() =~= padded(a as nat, 4));
        } else {
            assert(ta.drop_first() =~= padded((-a) as nat, 4));
        }
        if b > 9999 {
            assert(tb.drop_first() =~= padded(b as nat, 4));
        } else {
            assert(tb.drop_first() =~= padded((-b) as nat, 4));
        }
    }
}

/// Distinct wall-clock times are written differently.
pub proof fn lemma_stamp_injective(t1: LocalTime, t2: LocalTime)
    requires
        t1.wf(),
        t2.wf(),
        stamp_text(t1) == stamp_text(t2),
    ensures
        t1 == t2,
{
    lemma_padded_len_two(t1.month as nat);
    lemma_padded_len_two(t1.day as nat);
    lemma_padded_len_two(t1.hour as nat);
    lemma_padded_len_two(t1.minute as nat);
    lemma_padded_len_two(t1.second as nat);
    lemma_padded_len_two(t2.month as nat);
    lemma_padded_len_two(t2.day as nat);
    lemma_padded_len_two(t2.hour as nat);
    lemma_padded_len_two(t2.minute as nat);
    lemma_padded_len_two(t2.second as nat);
    let s = stamp_text(t1);
    let y1 = year_text(t1.year as int);
    let y2 = year_text(t2.year as int);
    let k = y1.len() as int;
    assert(stamp_text(t1).len() == y1.len() + 13);
    assert(stamp_text(t2).len() == y2.len() + 13);
    assert(y2.len() == k);
    assert(s.subrange(0, k) =~= y1);
    assert(s.subrange(0, k) =~= y2);
    lemma_year_injective(t1.year as int, t2.year as int);
    assert(s.subrange(k + 1, k + 3) =~= padded(t1.month as nat, 2));
    assert(s.subrange(k + 1, k + 3) =~= padded(t2.month as nat, 2));
    lemma_padded_injective(t1.month as nat, 2, t2.month as nat, 2);
    assert(s.subrange(k + 4, k + 6) =~= padded(t1.day as nat, 2));
    assert(s.subrange(k + 4, k + 6) =~= padded(t2.day as nat, 2));
    lemma_padded_injective(t1.day as nat, 2, t2.day as nat, 2);
    assert(s.subrange(k + 7, k + 9) =~= padded(t1.hour as nat, 2));
    assert(s.subrange(k + 7, k + 9) =~= padded(t2.hour as nat, 2));
    lemma_padded_injective(t1.hour as nat, 2, t2.hour as nat, 2);
    assert(s.subrange(k + 9, k + 11) =~= padded(t1.minute as nat, 2));
    assert(s.subrange(k + 9, k + 11) =~= padded(t2.minute as nat, 2));
    lemma_padded_injective(t1.minute as nat, 2, t2.minute as nat, 2);
    assert(s.subrange(k + 11, k + 13) =~= padded(t1.second as nat, 2));
    assert(s.subrange(k + 11, k + 13) =~= padded(t2.second as nat, 2));
    lemma_padded_injective(t1.second as nat, 2, t2.second as nat, 2);
}

fn digit_char(d: u32) -> (r: char)
    requires
        d < 10,
    ensures
        r == digit(d as nat),
{
    if d == 0 {
        '0'
    } else if d == 1 {
        '1'
    } else if d == 2 {
        '2'
    } else if d == 3 {
        '3'
    } else if d == 4 {
        '4'
    } else if d == 5 {
        '5'
    } else if d == 6 {
        '6'
    } else if d == 7 {
        '7'
    } else if d == 8 {
        '8'
    } else {
        '9'
    }
}

/// Appends `n` in decimal, zero-padded to at least `w` digits.
pub fn push_padded(out: &mut Vec<char>, n: u32, w: u32)
    ensures
        final(out)@ == old(out)@ + padded(n as nat, w as nat),
    decreases n + w,
{
    if n < 10 && w <= 1 {
        out.push(digit_char(n));
    } else {
        let w2: u32 = if w > 0 { w - 1 } else { 0 };
        push_padded(out, n / 10, w2);
        out.push(digit_char(n % 10));
    }
}

/// Appends `t` as `YYYY-MM-DD_HHMMSS`.
pub fn push_stamp(out: &mut Vec<char>, t: &LocalTime)
    ensures
        final(out)@ == old(out)@ + stamp_text(*t),
{
    let ghost start = out@;
    let y = t.year;
    if 0 <= y && y <= 9999 {
        push_padded(out, y as u32, 4);
    } else if y > 9999 {
        out.push('+');
        push_padded(out, y as u32, 4);
    } else {
        out.push('-');
        let a: i64 = -(y as i64);
        push_padded(out, a as u32, 4);
    }
    assert(out@ =~= start + year_text(y as int));
    out.push('-');
    push_padded(out, t.month, 2);
    out.push('-');
    push_padded(out, t.day, 2);
    out.push('_');
    push_padded(out, t.hour, 2);
    push_padded(out, t.minute, 2);
    push_padded(out, t.second, 2);
    assert(out@ =~= start + stamp_text(*t));
}

} // verus!
