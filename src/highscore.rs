use vstd::prelude::*;

verus! {

/// The code point of `'0'`.
pub const ZERO_DIGIT: u32 = 48;

/// The minus sign.
pub const MINUS_SIGN: char = '-';

/// The plus sign.
pub const PLUS_SIGN: char = '+';

/// Parsed magnitudes are capped here: one past the largest magnitude an `i32`
/// can hold, so any larger value is known to be out of range.
pub const MAGNITUDE_CAP: i64 = 2147483649;

/// Whitespace as Unicode's White_Space property lists it: tab to carriage
/// return, space, next line, no-break space, ogham space mark, the spaces from
/// en quad to hair space, line and paragraph separators, narrow no-break
/// space, medium mathematical space and ideographic space.
pub open spec fn is_space(c: char) -> bool {
    let u = c as u32;
    ||| 0x9 <= u <= 0xd
    ||| u == 0x20
    ||| u == 0x85
    ||| u == 0xa0
    ||| u == 0x1680
    ||| 0x2000 <= u <= 0x200a
    ||| u == 0x2028
    ||| u == 0x2029
    ||| u == 0x202f
    ||| u == 0x205f
    ||| u == 0x3000
}

/// An ASCII decimal digit.
pub open spec fn is_digit(c: char) -> bool {
    ZERO_DIGIT <= c as u32 <= ZERO_DIGIT + 9
}

/// The character of decimal digit `d`.
pub open spec fn digit_char(d: int) -> char {
    if d == 0 {
        '0'
    } else if d == 1 {
        '1'
    } else if d == 2 {
        '2'
    } else if d == 3 {
        '3'
    } else if d == 4 {
        '4'
    } else if d == 5 {
        '5'
    } else if d == 6 {
        '6'
    } else if d == 7 {
        '7'
    } else if d == 8 {
        '8'
    } else {
        '9'
    }
}

/// Whether `c` is whitespace.
fn is_space_char(c: char) -> (r: bool)
    ensures
        r == is_space(c),
{
    let u = c as u32;
    (0x9 <= u && u <= 0xd) || u == 0x20 || u == 0x85 || u == 0xa0 || u == 0x1680 || (0x2000 <= u
        && u <= 0x200a) || u == 0x2028 || u == 0x2029 || u == 0x202f || u == 0x205f || u == 0x3000
}

/// The character of decimal digit `d`.
fn digit_char_of(d: u32) -> (r: char)
    requires
        d < 10,
    ensures
        r == digit_char(d as int),
        r as u32 == ZERO_DIGIT + d,
{
    if d == 0 {
        '0'
    } else if d == 1 {
        '1'
    } else if d == 2 {
        '2'
    } else if d == 3 {
        '3'
    } else if d == 4 {
        '4'
    } else if d == 5 {
        '5'
    } else if d == 6 {
        '6'
    } else if d == 7 {
        '7'
    } else if d == 8 {
        '8'
    } else {
        '9'
    }
}

/// The text with its leading whitespace removed.
pub open spec fn trim_start(s: Seq<char>) -> Seq<char>
    decreases s.len(),
{
    if s.len() > 0 && is_space(s[0]) {
        trim_start(s.drop_first())
    } else {
        s
    }
}

/// The text with its trailing whitespace removed.
pub open spec fn trim_end(s: Seq<char>) -> Seq<char>
    decreases s.len(),
{
    if s.len() > 0 && is_space(s.last()) {
        trim_end(s.drop_last())
    } else {
        s
    }
}

/// The text with whitespace removed at both ends.
pub open spec fn trimmed(s: Seq<char>) -> Seq<char> {
    trim_end(trim_start(s))
}

/// The value of a string of decimal digits, most significant first.
pub open spec fn digits_value(s: Seq<char>) -> int
    decreases s.len(),
{
    if s.len() == 0 {
        0
    } else {
        digits_value(s.drop_last()) * 10 + (s.last() as u32 - ZERO_DIGIT)
    }
}

/// The decimal digits of `n`, without leading zeros (`0` is one digit).
pub open spec fn decimal(n: nat) -> Seq<char>
    decreases n,
{
    if n < 10 {
        seq![digit_char(n as int)]
    } else {
        decimal(n / 10).push(digit_char((n % 10) as int))
    }
}

/// The text of an integer: an optional `-` and its decimal digits.
pub open spec fn integer_text(n: int) -> Seq<char> {
    if n < 0 {
        seq![MINUS_SIGN].add(decimal((-n) as nat))
    } else {
        decimal(n as nat)
    }
}

/// The digits after an optional sign, and whether the sign was `-`.
pub open spec fn split_sign(t: Seq<char>) -> (bool, Seq<char>) {
    if t.len() > 0 && t[0] == MINUS_SIGN {
        (true, t.drop_first())
    } else if t.len() > 0 && t[0] == PLUS_SIGN {
        (false, t.drop_first())
    } else {
        (false, t)
    }
}

/// The `i32` that `t` spells: an optional sign then one or more decimal
/// digits, and a value in range; `None` for anything else.
pub open spec fn parse_i32(t: Seq<char>) -> Option<int> {
    let (neg, body) = split_sign(t);
    let v = if neg { -digits_value(body) } else { digits_value(body) };
    if body.len() > 0 && (forall|i: int| 0 <= i < body.len() ==> is_digit(#[trigger] body[i]))
        && i32::MIN <= v <= i32::MAX {
        Some(v)
    } else {
        None
    }
}

/// The high score read from a file's text: the integer it holds once
/// trimmed, and zero when it holds none.
pub open spec fn high_score_of(text: Seq<char>) -> int {
    match parse_i32(trimmed(text)) {
        Some(v) => v,
        None => 0,
    }
}

/// The decimal digits of `n`.
fn decimal_digits(n: u32) -> (r: Vec<char>)
    ensures
        r@ == decimal(n as nat),
    decreases n,
{
    if n < 10 {
        vec![digit_char_of(n)]
    } else {
        let mut v = decimal_digits(n / 10);
        v.push(digit_char_of(n % 10));
        v
    }
}

/// The text written to the high-score file for `score`.
pub fn high_score_text(score: i32) -> (r: Vec<char>)
    ensures
        r@ == integer_text(score as int),
{
    if score < 0 {
        let magnitude: u32 = (-(score as i64)) as u32;
        let digits = decimal_digits(magnitude);
        let mut out: Vec<char> = vec![MINUS_SIGN];
        let mut i: usize = 0;
        while i < digits.len()
            invariant
                i <= digits@.len(),
                out@ == seq![MINUS_SIGN].add(digits@.subrange(0, i as int)),
            decreases digits.len() - i,
        {
            out.push(digits[i]);
            assert(digits@.subrange(0, i + 1) == digits@.subrange(0, i as int).push(digits@[i as int]));
            i = i + 1;
        }
        assert(digits@.subrange(0, digits@.len() as int) == digits@);
        out
    } else {
        decimal_digits(score as u32)
    }
}

/// Index of the first byte that is not whitespace.
fn skip_spaces(s: &[char]) -> (r: usize)
    ensures
        r <= s@.len(),
        trim_start(s@) == s@.subrange(r as int, s@.len() as int),
{
    let mut i: usize = 0;
    assert(s@.subrange(0, s@.len() as int) == s@);
    while i < s.len() && is_space_char(s[i])
        invariant
            i <= s@.len(),
            trim_start(s@) == trim_start(s@.subrange(i as int, s@.len() as int)),
        decreases s.len() - i,
    {
        assert(s@.subrange(i as int, s@.len() as int).drop_first() == s@.subrange(
            i + 1,
            s@.len() as int,
        ));
        i = i + 1;
    }
    assert(s@.subrange(0, s@.len() as int) == s@);
    i
}

/// The magnitude of a run of digits, capped at `MAGNITUDE_CAP`, or `None`
/// when the run is empty or holds a byte that is not a digit.
fn capped_digits_value(s: &[char], lo: usize, hi: usize) -> (r: Option<i64>)
    requires
        lo <= hi <= s@.len(),
    ensures
        ({
            let body = s@.subrange(lo as int, hi as int);
            &&& r is Some <==> body.len() > 0 && forall|i: int|
                0 <= i < body.len() ==> is_digit(#[trigger] body[i])
            &&& r matches Some(v) ==> 0 <= v <= MAGNITUDE_CAP
            &&& r matches Some(v) ==> v == (if digits_value(body) < MAGNITUDE_CAP {
                digits_value(body)
            } else {
                MAGNITUDE_CAP as int
            })
        }),
{
    if lo == hi {
        return None;
    }
    let mut v: i64 = 0;
    let mut k: usize = lo;
    while k < hi
        invariant
            lo <= k <= hi <= s@.len(),
            forall|i: int| lo <= i < k ==> is_digit(#[trigger] s@[i]),
            0 <= v <= MAGNITUDE_CAP,
            v == (if digits_value(s@.subrange(lo as int, k as int)) < MAGNITUDE_CAP {
                digits_value(s@.subrange(lo as int, k as int))
            } else {
                MAGNITUDE_CAP as int
            }),
            digits_value(s@.subrange(lo as int, k as int)) >= 0,
        decreases hi - k,
    {
        let b = s[k] as u32;
        if b < ZERO_DIGIT || b > ZERO_DIGIT + 9 {
            assert(s@.subrange(lo as int, hi as int)[k - lo] == s@[k as int]);
            return None;
        }
        assert(s@.subrange(lo as int, k + 1).drop_last() == s@.subrange(lo as int, k as int));
        let next: i64 = v * 10 + (b - ZERO_DIGIT) as i64;
        v = if next > MAGNITUDE_CAP {
            MAGNITUDE_CAP
        } else {
            next
        };
        k = k + 1;
    }
    assert forall|i: int| 0 <= i < hi - lo implies is_digit(
        #[trigger] s@.subrange(lo as int, hi as int)[i],
    ) by {
        assert(s@.subrange(lo as int, hi as int)[i] == s@[lo + i]);
    }
    Some(v)
}

/// The high score held by the file text `text`: the trimmed text parsed as
/// an `i32`, or zero when it is not one.
pub fn load_high_score(text: &[char]) -> (r: i32)
    ensures
        r == high_score_of(text@),
{
    let start = skip_spaces(text);
    let mut end: usize = text.len();
    while end > start && is_space_char(text[end - 1])
        invariant
            start <= end <= text@.len(),
            trim_start(text@) == text@.subrange(start as int, text@.len() as int),
            trimmed(text@) == trim_end(text@.subrange(start as int, end as int)),
        decreases end,
    {
        assert(text@.subrange(start as int, end as int).drop_last() == text@.subrange(
            start as int,
            end - 1,
        ));
        end = end - 1;
    }
    let t = Ghost(text@.subrange(start as int, end as int));
    assert(trimmed(text@) == t@);
    let mut lo: usize = start;
    let mut neg = false;
    if start < end && text[start] == MINUS_SIGN {
        neg = true;
        lo = start + 1;
    } else if start < end && text[start] == PLUS_SIGN {
        lo = start + 1;
    }
    assert(split_sign(t@) == (neg, text@.subrange(lo as int, end as int)));
    match capped_digits_value(text, lo, end) {
        None => 0,
        Some(v) => {
            if neg {
                if v <= -(i32::MIN as i64) {
                    (-v) as i32
                } else {
                    0
                }
            } else if v <= i32::MAX as i64 {
                v as i32
            } else {
                0
            }
        },
    }
}

} // verus!
