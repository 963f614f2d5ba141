//! Durations written as groups of a number and a unit, such as `1h30m`.

use crate::number::{all_digits, digits_value, is_digit, lemma_digits_value_grows, Malformed};
use crate::text::to_chars;
use vstd::prelude::*;

verus! {

/// A span of time, in nanoseconds.
#[derive(Debug, Clone, Copy, PartialEq, Eq, Structural)]
pub struct Duration {
    pub nanos: u64,
}

/// The longest duration that can be written.
pub const MAX_NANOS: u64 = 0x7fff_ffff_ffff_ffff;

/// The nanoseconds in one second.
pub const NANOS_PER_SECOND: u64 = 1_000_000_000;

/// How many characters at the front of `s` are digits.
pub open spec fn digit_run(s: Seq<char>) -> nat
    decreases s.len(),
{
    if s.len() > 0 && is_digit(s[0]) {
        1 + digit_run(s.drop_first())
    } else {
        0
    }
}

/// How many characters at the front of `s` are no digits.
pub open spec fn unit_run(s: Seq<char>) -> nat
    decreases s.len(),
{
    if s.len() > 0 && !is_digit(s[0]) {
        1 + unit_run(s.drop_first())
    } else {
        0
    }
}

/// The nanoseconds in one of the unit `u`: `ns`, `us` (also written with the
/// micro sign or the Greek mu), `ms`, `s`, `m` or `h`.
pub open spec fn unit_nanos(u: Seq<char>) -> Option<int> {
    if u =~= seq!['n', 's'] {
        Some(1int)
    } else if u =~= seq!['u', 's'] || u =~= seq!['\u{b5}', 's'] || u =~= seq!['\u{3bc}', 's'] {
        Some(1_000int)
    } else if u =~= seq!['m', 's'] {
        Some(1_000_000int)
    } else if u =~= seq!['s'] {
        Some(1_000_000_000int)
    } else if u =~= seq!['m'] {
        Some(60_000_000_000int)
    } else if u =~= seq!['h'] {
        Some(3_600_000_000_000int)
    } else {
        None
    }
}

/// The sum of the groups that `s` is made of, each a run of digits and then a
/// unit; `None` where `s` is not made of such groups. The empty text sums to 0.
pub open spec fn groups_nanos(s: Seq<char>) -> Option<int>
    decreases s.len(),
{
    if s.len() == 0 {
        Some(0int)
    } else {
        let d = digit_run(s) as int;
        let u = unit_run(s.skip(d)) as int;
        if d == 0 || u == 0 || d + u > s.len() {
            None
        } else {
            match (unit_nanos(s.subrange(d, d + u)), groups_nanos(s.skip(d + u))) {
                (Some(f), Some(rest)) => Some(digits_value(s.take(d)) * f + rest),
                _ => None,
            }
        }
    }
}

/// The nanoseconds that `s` writes: `0` alone, or one or more groups that sum to
/// at most `MAX_NANOS`. There is no sign and no fraction.
pub open spec fn duration_nanos(s: Seq<char>) -> Option<int> {
    if s =~= seq!['0'] {
        Some(0int)
    } else if s.len() == 0 {
        None
    } else {
        match groups_nanos(s) {
            Some(n) => if n <= MAX_NANOS {
                Some(n)
            } else {
                None
            },
            None => None,
        }
    }
}

/// A run of digits ends where the first character stands that is no digit.
pub proof fn lemma_digit_run_is(s: Seq<char>, d: int)
    requires
        0 <= d <= s.len(),
        forall|i: int| 0 <= i < d ==> is_digit(#[trigger] s[i]),
        d == s.len() || !is_digit(s[d]),
    ensures
        digit_run(s) == d,
    decreases d,
{
    if d > 0 {
        let t = s.drop_first();
        assert forall|i: int| 0 <= i < d - 1 implies is_digit(#[trigger] t[i]) by {
            assert(t[i] == s[i + 1]);
        }
        lemma_digit_run_is(t, d - 1);
    }
}

/// A unit ends where the first digit stands.
pub proof fn lemma_unit_run_is(s: Seq<char>, u: int)
    requires
        0 <= u <= s.len(),
        forall|i: int| 0 <= i < u ==> !is_digit(#[trigger] s[i]),
        u == s.len() || is_digit(s[u]),
    ensures
        unit_run(s) == u,
    decreases u,
{
    if u > 0 {
        let t = s.drop_first();
        assert forall|i: int| 0 <= i < u - 1 implies !is_digit(#[trigger] t[i]) by {
            assert(t[i] == s[i + 1]);
        }
        lemma_unit_run_is(t, u - 1);
    }
}

/// A run of digits is no longer than its text, and holds digits only.
pub proof fn lemma_digit_run_digits(s: Seq<char>)
    ensures
        digit_run(s) <= s.len(),
        all_digits(s.take(digit_run(s) as int)),
    decreases s.len(),
{
    if s.len() > 0 && is_digit(s[0]) {
        let t = s.drop_first();
        lemma_digit_run_digits(t);
        let d = digit_run(s) as int;
        assert forall|i: int| 0 <= i < d implies is_digit(#[trigger] s.take(d)[i]) by {
            if i > 0 {
                assert(s.take(d)[i] == t.take(d - 1)[i - 1]);
            }
        }
    }
}

/// The groups of a text never sum to less than nothing.
pub proof fn lemma_groups_nonnegative(s: Seq<char>)
    ensures
        groups_nanos(s) matches Some(n) ==> n >= 0,
    decreases s.len(),
{
    if s.len() > 0 {
        let d = digit_run(s) as int;
        let u = unit_run(s.skip(d)) as int;
        if !(d == 0 || u == 0 || d + u > s.len()) {
            lemma_groups_nonnegative(s.skip(d + u));
            lemma_digit_run_digits(s);
            lemma_digits_value_grows(s.take(d), 0);
            if groups_nanos(s) is Some {
                let f = unit_nanos(s.subrange(d, d + u))->Some_0;
                assert(digits_value(s.take(d)) * f >= 0) by (nonlinear_arith)
                    requires
                        digits_value(s.take(d)) >= 0,
                        f >= 0,
                ;
            }
        }
    }
}

/// The end of the run of digits that begins at `from`.
fn digits_end(v: &Vec<char>, from: usize) -> (r: usize)
    requires
        from <= v.len(),
    ensures
        from <= r <= v.len(),
        r - from == digit_run(v@.skip(from as int)),
{
    let n: usize = v.len();
    let mut i: usize = from;
    while i < n && '0' <= v[i] && v[i] <= '9'
        invariant
            from <= i <= n,
            n == v.len(),
            forall|j: int| from <= j < i ==> is_digit(#[trigger] v@[j]),
        decreases n - i,
    {
        i += 1;
    }
    proof {
        lemma_digit_run_is(v@.skip(from as int), i - from);
    }
    i
}

/// The end of the run of characters other than digits that begins at `from`.
fn unit_end(v: &Vec<char>, from: usize) -> (r: usize)
    requires
        from <= v.len(),
    ensures
        from <= r <= v.len(),
        r - from == unit_run(v@.skip(from as int)),
{
    let n: usize = v.len();
    let mut i: usize = from;
    while i < n && !('0' <= v[i] && v[i] <= '9')
        invariant
            from <= i <= n,
            n == v.len(),
            forall|j: int| from <= j < i ==> !is_digit(#[trigger] v@[j]),
        decreases n - i,
    {
        i += 1;
    }
    proof {
        lemma_unit_run_is(v@.skip(from as int), i - from);
    }
    i
}

/// The nanoseconds in one of the unit that stands in `v` from `from` to `to`.
fn unit_factor(v: &Vec<char>, from: usize, to: usize) -> (r: Option<u64>)
    requires
        from <= to <= v.len(),
    ensures
        r is Some <==> unit_nanos(v@.subrange(from as int, to as int)) is Some,
        r matches Some(f) ==> f == unit_nanos(v@.subrange(from as int, to as int))->Some_0,
{
    let ghost u = v@.subrange(from as int, to as int);
    if to - from == 1 {
        let a: char = v[from];
        assert(u[0] == a);
        if a == 's' {
            assert(u =~= seq!['s']);
            Some(1_000_000_000)
        } else if a == 'm' {
            assert(u =~= seq!['m']);
            Some(60_000_000_000)
        } else if a == 'h' {
            assert(u =~= seq!['h']);
            Some(3_600_000_000_000)
        } else {
            None
        }
    } else if to - from == 2 {
        let a: char = v[from];
        let b: char = v[from + 1];
        assert(u[0] == a && u[1] == b);
        if b != 's' {
            None
        } else if a == 'n' {
            assert(u =~= seq!['n', 's']);
            Some(1)
        } else if a == 'u' || a == '\u{b5}' || a == '\u{3bc}' {
            assert(u =~= seq![a, 's']);
            Some(1_000)
        } else if a == 'm' {
            assert(u =~= seq!['m', 's']);
            Some(1_000_000)
        } else {
            None
        }
    } else {
        None
    }
}

/// The value of the digits that stand in `v` from `from` to `to`, where it is
/// at most `MAX_NANOS`.
fn digits_upto(v: &Vec<char>, from: usize, to: usize) -> (r: Option<u64>)
    requires
        from <= to <= v.len(),
        all_digits(v@.subrange(from as int, to as int)),
    ensures
        r is Some <==> digits_value(v@.subrange(from as int, to as int)) <= MAX_NANOS,
        r matches Some(n) ==> n == digits_value(v@.subrange(from as int, to as int)),
{
    let ghost run = v@.subrange(from as int, to as int);
    let mut acc: u64 = 0;
    let mut i: usize = from;
    assert(run.take(0) =~= Seq::<char>::empty());
    while i < to
        invariant
            from <= i <= to <= v.len(),
            run == v@.subrange(from as int, to as int),
            all_digits(run),
            acc == digits_value(run.take(i - from)),
            acc <= MAX_NANOS,
        decreases to - i,
    {
        let c: char = v[i];
        assert(run[i - from] == c);
        assert(is_digit(c));
        let d: u64 = (c as u32 - '0' as u32) as u64;
        proof {
            let t = run.take(i - from + 1);
            assert(t.drop_last() =~= run.take(i - from));
            assert(t.last() == c);
            lemma_digits_value_grows(run, i - from + 1);
        }
        if acc > (MAX_NANOS - d) / 10 {
            return None;
        }
        acc = acc * 10 + d;
        i += 1;
    }
    assert(run.take(to - from) =~= run);
    Some(acc)
}

/// Reads a duration.
pub fn parse_duration(s: &str) -> (r: Result<Duration, Malformed>)
    ensures
        r is Ok <==> duration_nanos(s@) is Some,
        r matches Ok(d) ==> d.nanos == duration_nanos(s@)->Some_0,
        r matches Err(e) ==> e.value@ == s@ && e.target@ == "duration"@,
{
    let v = to_chars(s);
    let n: usize = v.len();
    if n == 1 && v[0] == '0' {
        assert(s@ =~= seq!['0']);
        return Ok(Duration { nanos: 0 });
    }
    assert(!(s@ =~= seq!['0'])) by {
        if s@ =~= seq!['0'] {
            assert(s@[0] == '0');
        }
    }
    if n == 0 {
        return Err(Malformed { value: s.to_owned(), target: "duration".to_owned() });
    }
    let mut total: u64 = 0;
    let mut pos: usize = 0;
    assert(v@.skip(0) =~= v@);
    while pos < n
        invariant
            pos <= n,
            n == v.len(),
            v@ == s@,
            n > 0,
            !(s@ =~= seq!['0']),
            total <= MAX_NANOS,
            groups_nanos(v@) is Some <==> groups_nanos(v@.skip(pos as int)) is Some,
            groups_nanos(v@) matches Some(all) ==> all == total + groups_nanos(
                v@.skip(pos as int),
            )->Some_0,
        decreases n - pos,
    {
        let ghost rest = v@.skip(pos as int);
        let digits: usize = digits_end(&v, pos);
        assert(rest.skip(digits - pos) =~= v@.skip(digits as int));
        let unit: usize = unit_end(&v, digits);
        if digits == pos || unit == digits {
            return Err(Malformed { value: s.to_owned(), target: "duration".to_owned() });
        }
        proof {
            assert(rest.subrange(digits - pos, unit - pos) =~= v@.subrange(
                digits as int,
                unit as int,
            ));
            assert(rest.take(digits - pos) =~= v@.subrange(pos as int, digits as int));
            assert(rest.skip(unit - pos) =~= v@.skip(unit as int));
            lemma_digit_run_digits(rest);
            lemma_groups_nonnegative(v@.skip(unit as int));
        }
        let factor: u64 = match unit_factor(&v, digits, unit) {
            Some(f) => f,
            None => {
                return Err(Malformed { value: s.to_owned(), target: "duration".to_owned() });
            },
        };
        let count: u64 = match digits_upto(&v, pos, digits) {
            Some(c) => c,
            None => {
                proof {
                    let c = digits_value(v@.subrange(pos as int, digits as int));
                    let f = factor as int;
                    assert(c * f >= c) by (nonlinear_arith)
                        requires
                            c >= 0,
                            f >= 1,
                    ;
                }
                return Err(Malformed { value: s.to_owned(), target: "duration".to_owned() });
            },
        };
        assert(0 <= count * factor <= MAX_NANOS * 3_600_000_000_000) by (nonlinear_arith)
            requires
                0 <= count <= MAX_NANOS,
                0 <= factor <= 3_600_000_000_000,
        ;
        let group: u128 = (count as u128) * (factor as u128);
        if group > (MAX_NANOS - total) as u128 {
            return Err(Malformed { value: s.to_owned(), target: "duration".to_owned() });
        }
        total = total + group as u64;
        pos = unit;
    }
    assert(v@.skip(n as int) =~= Seq::<char>::empty());
    Ok(Duration { nanos: total })
}

impl Duration {
    /// The whole seconds of the span.
    pub fn seconds(&self) -> (r: u64)
        ensures
            r == self.nanos / NANOS_PER_SECOND,
    {
        self.nanos / NANOS_PER_SECOND
    }
}

} // verus!
