//! Conversion of decimal text to the machine integer types.

use crate::text::to_chars;
use vstd::prelude::*;

verus! {

/// An integer type that decimal text can be converted to.
pub trait Number: Sized {
    /// The least value of the type.
    spec fn lowest() -> int;

    /// The greatest value of the type.
    spec fn highest() -> int;

    /// The mathematical value of `self`.
    spec fn value(self) -> int;

    /// The name of the type, as diagnostics print it.
    spec fn target_name() -> Seq<char>;

    /// Every type lies within the 64-bit integers, and holds 0.
    proof fn lemma_range()
        ensures
            -0x8000_0000_0000_0000 <= Self::lowest() <= 0,
            0 <= Self::highest() <= 0xffff_ffff_ffff_ffff,
    ;

    /// The least value of the type.
    fn low() -> (r: i128)
        ensures
            r == Self::lowest(),
    ;

    /// The greatest value of the type.
    fn high() -> (r: i128)
        ensures
            r == Self::highest(),
    ;

    /// The name of the type.
    fn name() -> (r: &'static str)
        ensures
            r@ == Self::target_name(),
    ;

    /// The value of the type that is `v`.
    fn from_wide(v: i128) -> (r: Self)
        requires
            Self::lowest() <= v <= Self::highest(),
        ensures
            r.value() == v,
    ;

    /// The value of `self`, widened.
    fn wide(&self) -> (r: i128)
        ensures
            r == self.value(),
    ;
}

impl Number for i8 {
    open spec fn lowest() -> int {
        i8::MIN as int
    }

    open spec fn highest() -> int {
        i8::MAX as int
    }

    open spec fn value(self) -> int {
        self as int
    }

    open spec fn target_name() -> Seq<char> {
        "i8"@
    }

    proof fn lemma_range() {
    }

    fn low() -> (r: i128) {
        i8::MIN as i128
    }

    fn high() -> (r: i128) {
        i8::MAX as i128
    }

    fn name() -> (r: &'static str) {
        "i8"
    }

    fn from_wide(v: i128) -> (r: Self) {
        v as i8
    }

    fn wide(&self) -> (r: i128) {
        *self as i128
    }
}

impl Number for i16 {
    open spec fn lowest() -> int {
        i16::MIN as int
    }

    open spec fn highest() -> int {
        i16::MAX as int
    }

    open spec fn value(self) -> int {
        self as int
    }

    open spec fn target_name() -> Seq<char> {
        "i16"@
    }

    proof fn lemma_range() {
    }

    fn low() -> (r: i128) {
        i16::MIN as i128
    }

    fn high() -> (r: i128) {
        i16::MAX as i128
    }

    fn name() -> (r: &'static str) {
        "i16"
    }

    fn from_wide(v: i128) -> (r: Self) {
        v as i16
    }

    fn wide(&self) -> (r: i128) {
        *self as i128
    }
}

impl Number for i32 {
    open spec fn lowest() -> int {
        i32::MIN as int
    }

    open spec fn highest() -> int {
        i32::MAX as int
    }

    open spec fn value(self) -> int {
        self as int
    }

    open spec fn target_name() -> Seq<char> {
        "i32"@
    }

    proof fn lemma_range() {
    }

    fn low() -> (r: i128) {
        i32::MIN as i128
    }

    fn high() -> (r: i128) {
        i32::MAX as i128
    }

    fn name() -> (r: &'static str) {
        "i32"
    }

    fn from_wide(v: i128) -> (r: Self) {
        v as i32
    }

    fn wide(&self) -> (r: i128) {
        *self as i128
    }
}

impl Number for i64 {
    open spec fn lowest() -> int {
        i64::MIN as int
    }

    open spec fn highest() -> int {
        i64::MAX as int
    }

    open spec fn value(self) -> int {
        self as int
    }

    open spec fn target_name() -> Seq<char> {
        "i64"@
    }

    proof fn lemma_range() {
    }

    fn low() -> (r: i128) {
        i64::MIN as i128
    }

    fn high() -> (r: i128) {
        i64::MAX as i128
    }

    fn name() -> (r: &'static str) {
        "i64"
    }

    fn from_wide(v: i128) -> (r: Self) {
        v as i64
    }

    fn wide(&self) -> (r: i128) {
        *self as i128
    }
}

impl Number for u8 {
    open spec fn lowest() -> int {
        u8::MIN as int
    }

    open spec fn highest() -> int {
        u8::MAX as int
    }

    open spec fn value(self) -> int {
        self as int
    }

    open spec fn target_name() -> Seq<char> {
        "u8"@
    }

    proof fn lemma_range() {
    }

    fn low() -> (r: i128) {
        u8::MIN as i128
    }

    fn high() -> (r: i128) {
        u8::MAX as i128
    }

    fn name() -> (r: &'static str) {
        "u8"
    }

    fn from_wide(v: i128) -> (r: Self) {
        v as u8
    }

    fn wide(&self) -> (r: i128) {
        *self as i128
    }
}

impl Number for u16 {
    open spec fn lowest() -> int {
        u16::MIN as int
    }

    open spec fn highest() -> int {
        u16::MAX as int
    }

    open spec fn value(self) -> int {
        self as int
    }

    open spec fn target_name() -> Seq<char> {
        "u16"@
    }

    proof fn lemma_range() {
    }

    fn low() -> (r: i128) {
        u16::MIN as i128
    }

    fn high() -> (r: i128) {
        u16::MAX as i128
    }

    fn name() -> (r: &'static str) {
        "u16"
    }

    fn from_wide(v: i128) -> (r: Self) {
        v as u16
    }

    fn wide(&self) -> (r: i128) {
        *self as i128
    }
}

impl Number for u32 {
    open spec fn lowest() -> int {
        u32::MIN as int
    }

    open spec fn highest() -> int {
        u32::MAX as int
    }

    open spec fn value(self) -> int {
        self as int
    }

    open spec fn target_name() -> Seq<char> {
        "u32"@
    }

    proof fn lemma_range() {
    }

    fn low() -> (r: i128) {
        u32::MIN as i128
    }

    fn high() -> (r: i128) {
        u32::MAX as i128
    }

    fn name() -> (r: &'static str) {
        "u32"
    }

    fn from_wide(v: i128) -> (r: Self) {
        v as u32
    }

    fn wide(&self) -> (r: i128) {
        *self as i128
    }
}

impl Number for u64 {
    open spec fn lowest() -> int {
        u64::MIN as int
    }

    open spec fn highest() -> int {
        u64::MAX as int
    }

    open spec fn value(self) -> int {
        self as int
    }

    open spec fn target_name() -> Seq<char> {
        "u64"@
    }

    proof fn lemma_range() {
    }

    fn low() -> (r: i128) {
        u64::MIN as i128
    }

    fn high() -> (r: i128) {
        u64::MAX as i128
    }

    fn name() -> (r: &'static str) {
        "u64"
    }

    fn from_wide(v: i128) -> (r: Self) {
        v as u64
    }

    fn wide(&self) -> (r: i128) {
        *self as i128
    }
}

/// Whether `c` is one of the digits `0` to `9`.
pub open spec fn is_digit(c: char) -> bool {
    '0' <= c <= '9'
}

/// The number that the digit `c` writes.
pub open spec fn digit_value(c: char) -> int {
    c as int - '0' as int
}

/// Whether `s` holds nothing but digits.
pub open spec fn all_digits(s: Seq<char>) -> bool {
    forall|i: int| 0 <= i < s.len() ==> is_digit(#[trigger] s[i])
}

/// The number that a run of decimal digits writes; 0 for the empty run.
pub open spec fn digits_value(s: Seq<char>) -> int
    decreases s.len(),
{
    if s.len() == 0 {
        0
    } else {
        digits_value(s.drop_last()) * 10 + digit_value(s.last())
    }
}

/// Whether `s` begins with `+` or `-`.
pub open spec fn has_sign(s: Seq<char>) -> bool {
    s.len() > 0 && (s[0] == '+' || s[0] == '-')
}

/// Whether `s` begins with `-`.
pub open spec fn is_negative(s: Seq<char>) -> bool {
    s.len() > 0 && s[0] == '-'
}

/// What follows the sign, or all of `s` where it has none.
pub open spec fn magnitude(s: Seq<char>) -> Seq<char> {
    if has_sign(s) {
        s.drop_first()
    } else {
        s
    }
}

/// Decimal text: an optional `+` or `-`, then one or more digits.
pub open spec fn is_decimal(s: Seq<char>) -> bool {
    magnitude(s).len() > 0 && all_digits(magnitude(s))
}

/// The integer that decimal text writes.
pub open spec fn decimal_value(s: Seq<char>) -> int {
    if is_negative(s) {
        -digits_value(magnitude(s))
    } else {
        digits_value(magnitude(s))
    }
}

/// Whether `s` converts to `T`: it is decimal text, a `-` stands only before a
/// signed type, and the value lies in the type's range.
pub open spec fn converts<T: Number>(s: Seq<char>) -> bool {
    &&& is_decimal(s)
    &&& is_negative(s) ==> T::lowest() < 0
    &&& T::lowest() <= decimal_value(s) <= T::highest()
}

/// A text that is no number of the type asked for.
#[derive(Debug, PartialEq, Eq)]
pub struct Malformed {
    /// The text as it was given.
    pub value: String,
    /// The name of the type it was to become.
    pub target: String,
}

/// The value of a run of digits is no less than that of any front part of it.
pub proof fn lemma_digits_value_grows(s: Seq<char>, k: int)
    requires
        all_digits(s),
        0 <= k <= s.len(),
    ensures
        0 <= digits_value(s.take(k)) <= digits_value(s),
    decreases s.len() - k,
{
    if k == s.len() {
        assert(s.take(k) =~= s);
        lemma_digits_value_nonnegative(s);
    } else {
        lemma_digits_value_grows(s, k + 1);
        let t = s.take(k + 1);
        assert(t.drop_last() =~= s.take(k));
        assert(is_digit(s[k]));
        assert(t.last() == s[k]);
        assert forall|i: int| 0 <= i < k implies is_digit(#[trigger] s.take(k)[i]) by {
            assert(s.take(k)[i] == s[i]);
        }
        lemma_digits_value_nonnegative(s.take(k));
    }
}

/// A run of digits writes no negative number.
pub proof fn lemma_digits_value_nonnegative(s: Seq<char>)
    requires
        all_digits(s),
    ensures
        0 <= digits_value(s),
    decreases s.len(),
{
    if s.len() > 0 {
        let t = s.drop_last();
        assert forall|i: int| 0 <= i < t.len() implies is_digit(#[trigger] t[i]) by {
            assert(t[i] == s[i]);
        }
        lemma_digits_value_nonnegative(t);
        assert(is_digit(s[s.len() - 1]));
    }
}

/// Converts decimal text to `T`, or says that it is none.
pub fn string_to_num<T: Number>(s: &str) -> (r: Result<T, Malformed>)
    ensures
        r is Ok <==> converts::<T>(s@),
        r matches Ok(v) ==> v.value() == decimal_value(s@),
        r matches Err(e) ==> e.value@ == s@ && e.target@ == T::target_name(),
{
    let chars = to_chars(s);
    let n: usize = chars.len();
    let low: i128 = T::low();
    let high: i128 = T::high();
    proof {
        T::lemma_range();
    }
    let signed: bool = n > 0 && (chars[0] == '+' || chars[0] == '-');
    let negative: bool = n > 0 && chars[0] == '-';
    let first: usize = if signed {
        1
    } else {
        0
    };
    if first == n || (negative && low == 0) {
        return Err(Malformed { value: s.to_owned(), target: T::name().to_owned() });
    }
    let limit: i128 = if negative {
        -low
    } else {
        high
    };
    let ghost digits = magnitude(s@);
    assert(digits =~= s@.subrange(first as int, n as int));
    let mut acc: i128 = 0;
    let mut i: usize = first;
    assert(digits.take(0) =~= Seq::<char>::empty());
    while i < n
        invariant
            first <= i <= n,
            n == chars.len(),
            chars@ == s@,
            digits == s@.subrange(first as int, n as int),
            digits == magnitude(s@),
            negative == is_negative(s@),
            limit == if negative {
                -T::lowest()
            } else {
                T::highest()
            },
            forall|j: int| 0 <= j < i - first ==> is_digit(#[trigger] digits[j]),
            acc == digits_value(digits.take(i - first)),
            0 <= acc <= limit <= 0xffff_ffff_ffff_ffff,
        decreases n - i,
    {
        let c: char = chars[i];
        assert(digits[i - first] == c);
        if !('0' <= c && c <= '9') {
            return Err(Malformed { value: s.to_owned(), target: T::name().to_owned() });
        }
        let d: i128 = (c as u32 - '0' as u32) as i128;
        let next: i128 = acc * 10 + d;
        proof {
            let t = digits.take(i - first + 1);
            assert(t.drop_last() =~= digits.take(i - first));
            assert(t.last() == c);
            assert(next == digits_value(t));
        }
        if next > limit {
            proof {
                if all_digits(digits) {
                    lemma_digits_value_grows(digits, i - first + 1);
                }
            }
            return Err(Malformed { value: s.to_owned(), target: T::name().to_owned() });
        }
        acc = next;
        i += 1;
    }
    proof {
        assert(digits.take(n - first) =~= digits);
    }
    let wide: i128 = if negative {
        -acc
    } else {
        acc
    };
    Ok(T::from_wide(wide))
}

/// Converts decimal text that is known to be a number of `T`.
pub fn string_to_num_must<T: Number>(s: &str) -> (r: T)
    requires
        converts::<T>(s@),
    ensures
        r.value() == decimal_value(s@),
{
    string_to_num::<T>(s).unwrap()
}

/// The character that writes the digit `d`.
pub open spec fn digit_char(d: int) -> char {
    seq!['0', '1', '2', '3', '4', '5', '6', '7', '8', '9'][d]
}

/// The decimal digits of `n`, without leading zeros; `0` for zero.
pub open spec fn natural_text(n: nat) -> Seq<char>
    decreases n,
{
    if n < 10 {
        seq![digit_char(n as int)]
    } else {
        natural_text(n / 10).push(digit_char((n % 10) as int))
    }
}

/// The decimal text of `n`, with a `-` before a negative number.
pub open spec fn decimal_text(n: int) -> Seq<char> {
    if n < 0 {
        seq!['-'] + natural_text((-n) as nat)
    } else {
        natural_text(n as nat)
    }
}

/// The text of one digit.
fn digit_str(d: u64) -> (r: &'static str)
    requires
        d < 10,
    ensures
        r@ == seq![digit_char(d as int)],
{
    proof {
        reveal_strlit("0");
        reveal_strlit("1");
        reveal_strlit("2");
        reveal_strlit("3");
        reveal_strlit("4");
        reveal_strlit("5");
        reveal_strlit("6");
        reveal_strlit("7");
        reveal_strlit("8");
        reveal_strlit("9");
    }
    let r = if d == 0 {
        "0"
    } else if d == 1 {
        "1"
    } else if d == 2 {
        "2"
    } else if d == 3 {
        "3"
    } else if d == 4 {
        "4"
    } else if d == 5 {
        "5"
    } else if d == 6 {
        "6"
    } else if d == 7 {
        "7"
    } else if d == 8 {
        "8"
    } else {
        "9"
    };
    assert(r@ =~= seq![digit_char(d as int)]);
    r
}

/// Writes `n` in decimal.
pub fn natural_to_string(n: u64) -> (r: String)
    ensures
        r@ == natural_text(n as nat),
    decreases n,
{
    if n < 10 {
        digit_str(n).to_owned()
    } else {
        let front = natural_to_string(n / 10);
        let last = digit_str(n % 10);
        let r = front.concat(last);
        assert(r@ =~= natural_text((n / 10) as nat).push(digit_char((n % 10) as int)));
        r
    }
}

/// Writes `n` in decimal, with a `-` before a negative number.
pub fn integer_to_string(n: i64) -> (r: String)
    ensures
        r@ == decimal_text(n as int),
{
    if n < 0 {
        let magnitude: u64 = if n == i64::MIN {
            0x8000_0000_0000_0000
        } else {
            (-n) as u64
        };
        proof {
            reveal_strlit("-");
        }
        let r = "-".to_owned().concat(natural_to_string(magnitude).as_str());
        assert(r@ =~= seq!['-'] + natural_text((-n) as nat));
        r
    } else {
        natural_to_string(n as u64)
    }
}

/// The character of a digit writes that digit.
pub proof fn lemma_digit_char(d: int)
    requires
        0 <= d <= 9,
    ensures
        is_digit(digit_char(d)),
        digit_value(digit_char(d)) == d,
{
    let digits = seq!['0', '1', '2', '3', '4', '5', '6', '7', '8', '9'];
    assert(digits[0] == '0' && digits[1] == '1' && digits[2] == '2' && digits[3] == '3'
        && digits[4] == '4');
    assert(digits[5] == '5' && digits[6] == '6' && digits[7] == '7' && digits[8] == '8'
        && digits[9] == '9');
}

/// The decimal digits of a number write that number.
pub proof fn lemma_natural_text(n: nat)
    ensures
        natural_text(n).len() > 0,
        all_digits(natural_text(n)),
        digits_value(natural_text(n)) == n,
    decreases n,
{
    let text = natural_text(n);
    if n < 10 {
        lemma_digit_char(n as int);
        assert(text.drop_last() =~= Seq::<char>::empty());
        assert(text.last() == digit_char(n as int));
        assert(digits_value(text) == digits_value(text.drop_last()) * 10 + digit_value(
            text.last(),
        ));
    } else {
        lemma_natural_text(n / 10);
        lemma_digit_char((n % 10) as int);
        assert(text.drop_last() =~= natural_text(n / 10));
        assert(text.last() == digit_char((n % 10) as int));
        assert(digits_value(text) == digits_value(text.drop_last()) * 10 + digit_value(
            text.last(),
        ));
        assert forall|i: int| 0 <= i < text.len() implies is_digit(#[trigger] text[i]) by {
            if i < text.len() - 1 {
                assert(text[i] == natural_text(n / 10)[i]);
            }
        }
    }
}

/// A number that is written and then read is the number again, for every type
/// that holds it.
pub proof fn lemma_written_number_reads_back<T: Number>(n: int)
    requires
        T::lowest() <= n <= T::highest(),
    ensures
        converts::<T>(decimal_text(n)),
        decimal_value(decimal_text(n)) == n,
{
    let text = decimal_text(n);
    if n < 0 {
        lemma_natural_text((-n) as nat);
        assert(text[0] == '-');
        assert(text.drop_first() =~= natural_text((-n) as nat));
    } else {
        lemma_natural_text(n as nat);
        assert(is_digit(text[0]));
    }
}

} // verus!
