//! Decimal numbers: printing integers and reading signed 64-bit integers.

use crate::text::text_chars;
use vstd::prelude::*;
use vstd::string::*;

verus! {

broadcast use vstd::string::group_string_axioms;

/// Why a text is not a signed 64-bit integer.
#[derive(Clone, Copy, Debug, PartialEq, Eq, Structural)]
pub enum IntError {
    /// The text is empty.
    Empty,
    /// A character that is no digit stands where a digit must.
    InvalidDigit,
    /// The number is above `i64::MAX`.
    TooLarge,
    /// The number is below `i64::MIN`.
    TooSmall,
}

/// The character of the decimal digit `d`.
pub open spec fn digit_char(d: int) -> char {
    ('0' as int + d) as char
}

/// Whether `c` is one of the ten ASCII digits.
pub open spec fn is_digit(c: char) -> bool {
    '0' <= c && c <= '9'
}

/// The value of the digit `c`.
pub open spec fn digit_value(c: char) -> int {
    c as int - '0' as int
}

/// The decimal digits of `n`, most significant first.
pub open spec fn digits_of(n: nat) -> Seq<char>
    decreases n,
{
    if n < 10 {
        seq![digit_char(n as int)]
    } else {
        digits_of(n / 10).push(digit_char((n % 10) as int))
    }
}

/// The decimal text of `n`, with a leading `-` where it is negative.
pub open spec fn int_text(n: int) -> Seq<char> {
    if n < 0 {
        seq!['-'] + digits_of((-n) as nat)
    } else {
        digits_of(n as nat)
    }
}

/// The number that a sequence of digits writes.
pub open spec fn value_of(s: Seq<char>) -> int
    decreases s.len(),
{
    if s.len() == 0 {
        0
    } else {
        value_of(s.drop_last()) * 10 + digit_value(s.last())
    }
}

/// How many characters at the start of `s`, from `i` on, are digits.
pub open spec fn digit_run(s: Seq<char>, i: int) -> int
    decreases s.len() - i,
{
    if 0 <= i < s.len() && is_digit(s[i]) {
        digit_run(s, i + 1)
    } else {
        i
    }
}

/// Whether `s` starts with a sign.
pub open spec fn has_sign(s: Seq<char>) -> bool {
    s.len() > 0 && (s[0] == '+' || s[0] == '-')
}

/// `s` without its sign, where it has one.
pub open spec fn unsigned_part(s: Seq<char>) -> Seq<char> {
    if has_sign(s) {
        s.skip(1)
    } else {
        s
    }
}

/// The integer that `s` writes: an optional sign and one or more digits. The
/// leading digits decide first: where they already leave the range, a later
/// character that is no digit does not matter.
pub open spec fn int_of(s: Seq<char>) -> Result<i64, IntError> {
    let body = unsigned_part(s);
    let run = digit_run(body, 0);
    let value = value_of(body.take(run));
    let negative = s.len() > 0 && s[0] == '-';
    if s.len() == 0 {
        Err(IntError::Empty)
    } else if body.len() == 0 {
        Err(IntError::InvalidDigit)
    } else if !negative && value > i64::MAX {
        Err(IntError::TooLarge)
    } else if negative && -value < i64::MIN {
        Err(IntError::TooSmall)
    } else if run < body.len() {
        Err(IntError::InvalidDigit)
    } else if negative {
        Ok((-value) as i64)
    } else {
        Ok(value as i64)
    }
}

/// The words for an [`IntError`].
pub open spec fn int_error_text(e: IntError) -> Seq<char> {
    match e {
        IntError::Empty => "cannot parse integer from empty string"@,
        IntError::InvalidDigit => "invalid digit found in string"@,
        IntError::TooLarge => "number too large to fit in target type"@,
        IntError::TooSmall => "number too small to fit in target type"@,
    }
}

impl IntError {
    /// The words for this error.
    pub fn to_string(&self) -> (r: String)
        ensures
            r@ == int_error_text(*self),
    {
        match self {
            IntError::Empty => "cannot parse integer from empty string".to_string(),
            IntError::InvalidDigit => "invalid digit found in string".to_string(),
            IntError::TooLarge => "number too large to fit in target type".to_string(),
            IntError::TooSmall => "number too small to fit in target type".to_string(),
        }
    }
}

fn digit_text(d: u64) -> (r: &'static str)
    requires
        d < 10,
    ensures
        r@ == seq![digit_char(d as int)],
{
    proof {
        reveal_strlit("0");
        reveal_strlit("1");
        reveal_strlit("2");
        reveal_strlit("3");
        reveal_strlit("4");
        reveal_strlit("5");
        reveal_strlit("6");
        reveal_strlit("7");
        reveal_strlit("8");
        reveal_strlit("9");
    }
    let r: &'static str = if d == 0 {
        "0"
    } else if d == 1 {
        "1"
    } else if d == 2 {
        "2"
    } else if d == 3 {
        "3"
    } else if d == 4 {
        "4"
    } else if d == 5 {
        "5"
    } else if d == 6 {
        "6"
    } else if d == 7 {
        "7"
    } else if d == 8 {
        "8"
    } else {
        "9"
    };
    r
}

/// The decimal text of an unsigned integer.
pub fn u64_text(n: u64) -> (r: String)
    ensures
        r@ == int_text(n as int),
    decreases n,
{
    if n < 10 {
        digit_text(n).to_string()
    } else {
        let mut r = u64_text(n / 10);
        r.append(digit_text(n % 10));
        r
    }
}

/// The decimal text of a signed integer.
pub fn i64_text(n: i64) -> (r: String)
    ensures
        r@ == int_text(n as int),
{
    if n < 0 {
        let magnitude: u64 = if n == i64::MIN {
            9223372036854775808u64
        } else {
            (-n) as u64
        };
        let mut r = "-".to_string();
        let tail = u64_text(magnitude);
        r.append(tail.as_str());
        proof {
            reveal_strlit("-");
        }
        r
    } else {
        u64_text(n as u64)
    }
}

proof fn lemma_digit_run_bounds(s: Seq<char>, i: int)
    requires
        0 <= i <= s.len(),
    ensures
        i <= digit_run(s, i) <= s.len(),
        forall|j: int| i <= j < digit_run(s, i) ==> is_digit(s[j]),
        digit_run(s, i) < s.len() ==> !is_digit(s[digit_run(s, i)]),
    decreases s.len() - i,
{
    if i < s.len() && is_digit(s[i]) {
        lemma_digit_run_bounds(s, i + 1);
    }
}

proof fn lemma_value_grows(s: Seq<char>, i: int, j: int)
    requires
        0 <= i <= j <= s.len(),
        forall|k: int| 0 <= k < j ==> is_digit(s[k]),
    ensures
        0 <= value_of(s.take(i)) <= value_of(s.take(j)),
    decreases j,
{
    if j > 0 {
        assert(s.take(j).drop_last() =~= s.take(j - 1));
        if i < j {
            lemma_value_grows(s, i, j - 1);
        } else {
            lemma_value_grows(s, i - 1, j - 1);
        }
    }
}

/// Reads a signed 64-bit integer in decimal.
pub fn parse_i64(s: &str) -> (r: Result<i64, IntError>)
    ensures
        r == int_of(s@),
{
    let chars = text_chars(s);
    if chars.len() == 0 {
        return Err(IntError::Empty);
    }
    let negative = chars[0] == '-';
    let start: usize = if negative || chars[0] == '+' { 1 } else { 0 };
    let ghost body = unsigned_part(s@);
    let ghost run = digit_run(body, 0);
    proof {
        lemma_digit_run_bounds(body, 0);
        assert forall|j: int| 0 <= j < body.len() implies body[j] == s@[start + j] by {}
    }
    if start == chars.len() {
        return Err(IntError::InvalidDigit);
    }
    // The magnitude so far, at most that of `i64::MIN`.
    let limit: u64 = if negative { 9223372036854775808u64 } else { 9223372036854775807u64 };
    let mut value: u64 = 0;
    let mut i: usize = start;
    while i < chars.len()
        invariant
            chars@ == s@,
            s@.len() > 0,
            start == (if has_sign(s@) { 1int } else { 0int }),
            negative == (s@[0] == '-'),
            start <= i <= s@.len(),
            start < s@.len(),
            body == unsigned_part(s@),
            body.len() == s@.len() - start,
            forall|j: int| 0 <= j < body.len() ==> body[j] == s@[start + j],
            run == digit_run(body, 0),
            0 <= i - start <= run <= body.len(),
            forall|j: int| 0 <= j < run ==> is_digit(body[j]),
            run < body.len() ==> !is_digit(body[run]),
            value == value_of(body.take(i - start)),
            value <= limit,
            limit == (if negative { 9223372036854775808u64 } else { 9223372036854775807u64 }),
        decreases s@.len() - i,
    {
        let c = chars[i];
        assert(c == body[i - start]);
        if !('0' <= c && c <= '9') {
            return Err(IntError::InvalidDigit);
        }
        let d: u64 = (c as u32 - '0' as u32) as u64;
        proof {
            assert(body.take(i - start + 1).drop_last() =~= body.take(i - start));
            lemma_value_grows(body, i - start + 1, run);
        }
        if value > (limit - d) / 10 {
            return Err(if negative { IntError::TooSmall } else { IntError::TooLarge });
        }
        value = value * 10 + d;
        i += 1;
    }
    if negative {
        if value == 9223372036854775808u64 {
            Ok(i64::MIN)
        } else {
            Ok(-(value as i64))
        }
    } else {
        Ok(value as i64)
    }
}

proof fn lemma_digits(n: nat)
    ensures
        digits_of(n).len() > 0,
        forall|j: int| 0 <= j < digits_of(n).len() ==> is_digit(#[trigger] digits_of(n)[j]),
        value_of(digits_of(n)) == n,
    decreases n,
{
    if n < 10 {
        assert(digits_of(n).drop_last() =~= Seq::<char>::empty());
        assert(value_of(Seq::<char>::empty()) == 0);
    } else {
        lemma_digits(n / 10);
        assert(digits_of(n).drop_last() =~= digits_of(n / 10));
    }
}

proof fn lemma_all_digits_run(s: Seq<char>, i: int)
    requires
        0 <= i <= s.len(),
        forall|j: int| 0 <= j < s.len() ==> is_digit(s[j]),
    ensures
        digit_run(s, i) == s.len(),
    decreases s.len() - i,
{
    if i < s.len() {
        lemma_all_digits_run(s, i + 1);
    }
}

/// Reading the decimal text of a number gives the number back.
pub proof fn read_back(n: i64)
    ensures
        int_of(int_text(n as int)) == Ok::<i64, IntError>(n),
{
    let s = int_text(n as int);
    let magnitude = if n < 0 {
        (-n) as nat
    } else {
        n as nat
    };
    lemma_digits(magnitude);
    let body = unsigned_part(s);
    assert(body =~= digits_of(magnitude));
    lemma_all_digits_run(body, 0);
    assert(body.take(digit_run(body, 0)) =~= body);
}

/// Different numbers have different decimal texts.
pub proof fn int_text_injective(m: i64, n: i64)
    requires
        int_text(m as int) == int_text(n as int),
    ensures
        m == n,
{
    read_back(m);
    read_back(n);
}

/// A number of at most five digits is written in as many bytes, at most five.
pub proof fn short_numbers_are_short(n: i64)
    requires
        0 <= n <= 99999,
    ensures
        vstd::utf8::encode_utf8(int_text(n as int)).len() <= 5,
{
    let text = int_text(n as int);
    reveal_with_fuel(digits_of, 5);
    lemma_digits(n as nat);
    assert(vstd::utf8::is_ascii_chars(text));
    vstd::utf8::is_ascii_chars_encode_utf8(text);
}

/// In decimal, a number below ten is its digit, any other is the text of its
/// tenth with its last digit behind it, and a negative one has a dash before
/// it.
pub proof fn decimal_texts(n: int)
    ensures
        0 <= n < 10 ==> int_text(n) == seq![('0' as int + n) as char],
        n >= 10 ==> int_text(n) == int_text(n / 10).push(('0' as int + n % 10) as char),
        n < 0 ==> int_text(n) == seq!['-'] + int_text(-n),
{
}

/// Digits are worth ten times what stands before them, and themselves.
pub proof fn digits_are_worth_their_place(s: Seq<char>, c: char)
    ensures
        value_of(Seq::<char>::empty()) == 0,
        value_of(s.push(c)) == 10 * value_of(s) + (c as int - '0' as int),
{
    assert(s.push(c).drop_last() =~= s);
}

/// A text that is read as a number is a sign or none and then digits only, at
/// least one, which are worth that number.
pub proof fn read_numbers_are_written_there(s: Seq<char>, n: i64)
    requires
        int_of(s) == Ok::<i64, IntError>(n),
    ensures
        s.len() > 0,
        s[0] == '-' ==> s.len() > 1 && value_of(s.skip(1)) == -n,
        s[0] == '+' ==> s.len() > 1 && value_of(s.skip(1)) == n,
        s[0] != '-' && s[0] != '+' ==> '0' <= s[0] <= '9' && value_of(s) == n,
        forall|i: int| 0 < i < s.len() ==> '0' <= #[trigger] s[i] <= '9',
{
    let body = unsigned_part(s);
    lemma_digit_run_bounds(body, 0);
    assert(body.take(digit_run(body, 0)) =~= body);
    lemma_value_grows(body, 0, body.len() as int);
    if has_sign(s) {
        assert forall|i: int| 0 < i < s.len() implies '0' <= #[trigger] s[i] <= '9' by {
            assert(s[i] == body[i - 1]);
            assert(is_digit(body[i - 1]));
        }
    } else {
        assert forall|i: int| 0 <= i < s.len() implies '0' <= #[trigger] s[i] <= '9' by {
            assert(is_digit(body[i]));
        }
    }
}

/// Digits, with a sign or none, are read as what they are worth wherever that
/// fits, and else the error says at which end it does not.
pub proof fn digits_are_read_as_their_worth(digits: Seq<char>)
    requires
        digits.len() > 0,
        forall|i: int| 0 <= i < digits.len() ==> '0' <= #[trigger] digits[i] <= '9',
    ensures
        value_of(digits) <= i64::MAX ==> {
            &&& int_of(digits) == Ok::<i64, IntError>(value_of(digits) as i64)
            &&& int_of(seq!['+'] + digits) == Ok::<i64, IntError>(value_of(digits) as i64)
        },
        value_of(digits) > i64::MAX ==> {
            &&& int_of(digits) == Err::<i64, IntError>(IntError::TooLarge)
            &&& int_of(seq!['+'] + digits) == Err::<i64, IntError>(IntError::TooLarge)
        },
        -value_of(digits) >= i64::MIN ==> int_of(seq!['-'] + digits) == Ok::<i64, IntError>(
            (-value_of(digits)) as i64,
        ),
        -value_of(digits) < i64::MIN ==> int_of(seq!['-'] + digits) == Err::<i64, IntError>(
            IntError::TooSmall,
        ),
{
    assert forall|i: int| 0 <= i < digits.len() implies is_digit(#[trigger] digits[i]) by {}
    assert(unsigned_part(digits) == digits);
    assert((seq!['+'] + digits).skip(1) =~= digits);
    assert((seq!['-'] + digits).skip(1) =~= digits);
    lemma_all_digits_run(digits, 0);
    assert(digits.take(digit_run(digits, 0)) =~= digits);
    lemma_value_grows(digits, 0, digits.len() as int);
}

/// What holds anything but digits behind its sign is no number, and neither is
/// a sign alone or nothing.
pub proof fn other_texts_are_no_numbers(s: Seq<char>, i: int)
    ensures
        0 < i < s.len() && !('0' <= s[i] <= '9') ==> int_of(s) is Err,
        s.len() > 0 && s[0] != '+' && s[0] != '-' && !('0' <= s[0] <= '9') ==> int_of(s) == Err::<
            i64,
            IntError,
        >(IntError::InvalidDigit),
        s.len() == 1 && (s[0] == '+' || s[0] == '-') ==> int_of(s) == Err::<i64, IntError>(
            IntError::InvalidDigit,
        ),
        s.len() == 0 ==> int_of(s) == Err::<i64, IntError>(IntError::Empty),
{
    if int_of(s) is Ok {
        read_numbers_are_written_there(s, int_of(s)->Ok_0);
    }
    if s.len() > 0 && s[0] != '+' && s[0] != '-' && !('0' <= s[0] <= '9') {
        assert(!is_digit(s[0]));
        assert(s.take(0) =~= Seq::<char>::empty());
    }
}

/// What is said of a text that is no number.
pub proof fn errors_have_their_words()
    ensures
        int_error_text(IntError::Empty) == "cannot parse integer from empty string"@,
        int_error_text(IntError::InvalidDigit) == "invalid digit found in string"@,
        int_error_text(IntError::TooLarge) == "number too large to fit in target type"@,
        int_error_text(IntError::TooSmall) == "number too small to fit in target type"@,
{
}

} // verus!
