use vstd::prelude::*;

verus! {

/// One whole unit in fixed point: the fixed-point numbers of this crate keep
/// six decimal places, so a value `v` stands for `v / 10^6`.
pub const UNIT: i64 = 1_000_000;

/// Largest magnitude of a parsed fixed-point number: larger ones saturate here.
pub const DECIMAL_CAP: u64 = 1_000_000_000_000_000_000;

pub open spec fn is_digit(c: char) -> bool {
    '0' <= c && c <= '9'
}

pub open spec fn digit_value(c: char) -> int {
    (c as int) - ('0' as int)
}

pub open spec fn all_digits(s: Seq<char>) -> bool {
    forall|i: int| 0 <= i < s.len() ==> is_digit(#[trigger] s[i])
}

/// The number written by a string of decimal digits.
pub open spec fn digits_value(s: Seq<char>) -> int
    decreases s.len(),
{
    if s.len() == 0 {
        0
    } else {
        digits_value(s.drop_last()) * 10 + digit_value(s.last())
    }
}

/// Length of a leading `+` or `-`.
pub open spec fn sign_len(s: Seq<char>) -> int {
    if s.len() > 0 && (s[0] == '+' || s[0] == '-') {
        1
    } else {
        0
    }
}

pub open spec fn is_negative_text(s: Seq<char>) -> bool {
    s.len() > 0 && s[0] == '-'
}

/// What the text after the sign is made of.
pub open spec fn unsigned_part(s: Seq<char>) -> Seq<char> {
    s.subrange(sign_len(s), s.len() as int)
}

/// The integer that a text of the form `[+|-]digits` writes, if it has that form.
pub open spec fn integer_text_value(s: Seq<char>) -> Option<int> {
    let body = unsigned_part(s);
    if body.len() > 0 && all_digits(body) {
        Some(if is_negative_text(s) { -digits_value(body) } else { digits_value(body) })
    } else {
        None
    }
}

/// The `i32` that a text writes, if it is an integer text in range.
pub open spec fn i32_text_value(s: Seq<char>) -> Option<i32> {
    match integer_text_value(s) {
        Some(v) => if i32::MIN <= v && v <= i32::MAX {
            Some(v as i32)
        } else {
            None
        },
        None => None,
    }
}

/// The value of an optional integer field, 0 when absent or not an `i32`.
pub open spec fn i32_field_value(field: Option<String>) -> i32 {
    match field {
        Some(s) => match i32_text_value(s@) {
            Some(v) => v,
            None => 0,
        },
        None => 0,
    }
}

/// Index of the first `.` in `s`, or `s.len()` if there is none.
pub open spec fn first_dot(s: Seq<char>) -> int
    decreases s.len(),
{
    if s.len() == 0 {
        0
    } else if s[0] == '.' {
        0
    } else {
        1 + first_dot(s.drop_first())
    }
}

/// The digits before the decimal point.
pub open spec fn whole_digits(body: Seq<char>) -> Seq<char> {
    body.subrange(0, first_dot(body))
}

/// The digits after the decimal point (empty if there is no point).
pub open spec fn fraction_text(body: Seq<char>) -> Seq<char> {
    if first_dot(body) < body.len() {
        body.subrange(first_dot(body) + 1, body.len() as int)
    } else {
        Seq::empty()
    }
}

/// The first six fractional digits, padded with zeros.
pub open spec fn fraction_six(frac: Seq<char>) -> Seq<char> {
    if frac.len() >= 6 {
        frac.subrange(0, 6)
    } else {
        frac + Seq::new((6 - frac.len()) as nat, |i: int| '0')
    }
}

/// Whether an unsigned text is `digits`, `digits.`, `.digits` or
/// `digits.digits` with at least one digit.
pub open spec fn is_decimal_body(body: Seq<char>) -> bool {
    &&& all_digits(whole_digits(body))
    &&& all_digits(fraction_text(body))
    &&& whole_digits(body).len() + fraction_text(body).len() > 0
}

/// The value of a decimal text in millionths, truncated toward zero and
/// saturated at `DECIMAL_CAP` in magnitude; `None` when the text is not a
/// plain decimal (an exponent, `inf` or `NaN` is not accepted).
pub open spec fn decimal_text_value(s: Seq<char>) -> Option<int> {
    let body = unsigned_part(s);
    if is_decimal_body(body) {
        let m = min_int(
            digits_value(whole_digits(body) + fraction_six(fraction_text(body))),
            DECIMAL_CAP as int,
        );
        Some(if is_negative_text(s) { -m } else { m })
    } else {
        None
    }
}

/// The value of an optional decimal field in millionths, 0 when absent or unreadable.
pub open spec fn decimal_field_value(field: Option<String>) -> int {
    match field {
        Some(s) => match decimal_text_value(s@) {
            Some(v) => v,
            None => 0,
        },
        None => 0,
    }
}

pub open spec fn min_int(a: int, b: int) -> int {
    if a <= b {
        a
    } else {
        b
    }
}

proof fn lemma_saturated_step(a: int, d: int, cap: int)
    requires
        a >= 0,
        0 <= d <= 9,
        cap >= 0,
    ensures
        min_int(min_int(a, cap) * 10 + d, cap) == min_int(a * 10 + d, cap),
{
    if a >= cap {
        assert(a * 10 + d >= cap) by (nonlinear_arith)
            requires
                a >= cap,
                cap >= 0,
                d >= 0,
        ;
        assert(cap * 10 + d >= cap) by (nonlinear_arith)
            requires
                cap >= 0,
                d >= 0,
        ;
    }
}

proof fn lemma_digits_value_nonneg(s: Seq<char>)
    requires
        all_digits(s),
    ensures
        digits_value(s) >= 0,
    decreases s.len(),
{
    if s.len() > 0 {
        assert(all_digits(s.drop_last()));
        lemma_digits_value_nonneg(s.drop_last());
        assert(is_digit(s[s.len() - 1]));
    }
}

/// The characters `s[from..to]`.
fn chars_between(s: &str, from: usize, to: usize) -> (r: Vec<char>)
    requires
        from <= to <= s@.len(),
    ensures
        r@ == s@.subrange(from as int, to as int),
{
    let mut r: Vec<char> = Vec::new();
    let mut i: usize = from;
    while i < to
        invariant
            from <= i <= to <= s@.len(),
            r@ == s@.subrange(from as int, i as int),
        decreases to - i,
    {
        r.push(s.get_char(i));
        i = i + 1;
    }
    r
}

fn is_digit_char(c: char) -> (r: bool)
    ensures
        r == is_digit(c),
{
    '0' <= c && c <= '9'
}

fn all_digit_chars(ds: &Vec<char>) -> (r: bool)
    ensures
        r == all_digits(ds@),
{
    let mut i: usize = 0;
    while i < ds.len()
        invariant
            i <= ds@.len(),
            forall|j: int| 0 <= j < i ==> is_digit(#[trigger] ds@[j]),
        decreases ds@.len() - i,
    {
        if !is_digit_char(ds[i]) {
            return false;
        }
        i = i + 1;
    }
    true
}

/// The number written by `ds`, saturated at `cap`.
fn saturated_digits_value(ds: &Vec<char>, cap: u64) -> (r: u64)
    requires
        all_digits(ds@),
        cap <= DECIMAL_CAP,
    ensures
        r as int == min_int(digits_value(ds@), cap as int),
{
    let mut acc: u64 = 0;
    let mut i: usize = 0;
    while i < ds.len()
        invariant
            i <= ds@.len(),
            all_digits(ds@),
            cap <= DECIMAL_CAP,
            acc as int == min_int(digits_value(ds@.subrange(0, i as int)), cap as int),
        decreases ds@.len() - i,
    {
        let c = ds[i];
        let d: u64 = (c as u64) - ('0' as u64);
        proof {
            let pre = ds@.subrange(0, i as int);
            let next = ds@.subrange(0, i + 1);
            assert(next.drop_last() =~= pre);
            assert(all_digits(pre));
            lemma_digits_value_nonneg(pre);
            assert(is_digit(ds@[i as int]));
            lemma_saturated_step(digits_value(pre), d as int, cap as int);
        }
        let grown: u64 = acc * 10 + d;
        acc = if grown <= cap { grown } else { cap };
        i = i + 1;
    }
    assert(ds@.subrange(0, ds@.len() as int) =~= ds@);
    acc
}

/// Reads a text of the form `[+|-]digits` as an `i32`; `None` when the text
/// has another form or its value is out of range.
pub fn parse_i32_text(s: &str) -> (r: Option<i32>)
    ensures
        r == i32_text_value(s@),
{
    let n = s.unicode_len();
    let mut start: usize = 0;
    let mut negative = false;
    if n > 0 {
        let c0 = s.get_char(0);
        if c0 == '+' || c0 == '-' {
            start = 1;
            negative = c0 == '-';
        }
    }
    assert(start as int == sign_len(s@));
    let body = chars_between(s, start, n);
    assert(body@ == unsigned_part(s@));
    if body.len() == 0 || !all_digit_chars(&body) {
        return None;
    }
    let limit: u64 = 2147483648;
    let m = saturated_digits_value(&body, limit + 1);
    proof {
        lemma_digits_value_nonneg(body@);
    }
    if negative && m <= limit {
        Some((0i64 - (m as i64)) as i32)
    } else if !negative && m < limit {
        Some(m as i32)
    } else {
        None
    }
}

/// Reads an optional integer field: its value when it is an `i32` text, else 0.
pub fn parse_i32_field(field: &Option<String>) -> (r: i32)
    ensures
        r == i32_field_value(*field),
{
    match field {
        Some(value) => match parse_i32_text(value.as_str()) {
            Some(v) => v,
            None => 0,
        },
        None => 0,
    }
}

proof fn lemma_first_dot_at(s: Seq<char>, k: int)
    requires
        0 <= k <= s.len(),
        forall|j: int| 0 <= j < k ==> s[j] != '.',
        k == s.len() || s[k] == '.',
    ensures
        first_dot(s) == k,
    decreases k,
{
    if k > 0 {
        assert(s[0] != '.');
        let t = s.drop_first();
        assert forall|j: int| 0 <= j < k - 1 implies t[j] != '.' by {
            assert(t[j] == s[j + 1]);
        }
        if k < s.len() {
            assert(t[k - 1] == s[k]);
        }
        lemma_first_dot_at(t, k - 1);
    }
}

/// The characters `v[from..to]`.
fn chars_of_range(v: &Vec<char>, from: usize, to: usize) -> (r: Vec<char>)
    requires
        from <= to <= v@.len(),
    ensures
        r@ == v@.subrange(from as int, to as int),
{
    let mut r: Vec<char> = Vec::new();
    let mut i: usize = from;
    while i < to
        invariant
            from <= i <= to <= v@.len(),
            r@ == v@.subrange(from as int, i as int),
        decreases to - i,
    {
        r.push(v[i]);
        i = i + 1;
    }
    r
}

/// The six fractional digits that a fixed-point value keeps.
fn fraction_six_chars(frac: &Vec<char>) -> (r: Vec<char>)
    ensures
        r@ == fraction_six(frac@),
{
    if frac.len() >= 6 {
        return chars_of_range(frac, 0, 6);
    }
    let mut r = chars_of_range(frac, 0, frac.len());
    let mut i: usize = frac.len();
    while i < 6
        invariant
            frac@.len() <= i <= 6,
            r@ == frac@ + Seq::new((i - frac@.len()) as nat, |j: int| '0'),
        decreases 6 - i,
    {
        r.push('0');
        i = i + 1;
        assert(r@ =~= frac@ + Seq::new((i - frac@.len()) as nat, |j: int| '0'));
    }
    r
}

/// Reads a plain decimal text (`[+|-]` then `digits`, `digits.`, `.digits` or
/// `digits.digits`) as a fixed-point number in millionths, truncating further
/// digits toward zero and saturating at `DECIMAL_CAP` in magnitude.
pub fn parse_decimal_text(s: &str) -> (r: Option<i64>)
    ensures
        r matches Some(v) ==> decimal_text_value(s@) == Some(v as int),
        r is None ==> decimal_text_value(s@) is None,
{
    let n = s.unicode_len();
    let mut start: usize = 0;
    let mut negative = false;
    if n > 0 {
        let c0 = s.get_char(0);
        if c0 == '+' || c0 == '-' {
            start = 1;
            negative = c0 == '-';
        }
    }
    let body = chars_between(s, start, n);
    assert(body@ == unsigned_part(s@));
    let mut k: usize = 0;
    while k < body.len() && body[k] != '.'
        invariant
            k <= body@.len(),
            forall|j: int| 0 <= j < k ==> body@[j] != '.',
        decreases body@.len() - k,
    {
        k = k + 1;
    }
    proof {
        lemma_first_dot_at(body@, k as int);
    }
    let whole = chars_of_range(&body, 0, k);
    let frac = if k < body.len() {
        chars_of_range(&body, k + 1, body.len())
    } else {
        Vec::new()
    };
    assert(whole@ == whole_digits(body@));
    assert(frac@ =~= fraction_text(body@));
    if !all_digit_chars(&whole) || !all_digit_chars(&frac) || whole.len() + frac.len() == 0 {
        return None;
    }
    let six = fraction_six_chars(&frac);
    let mut digits = whole;
    let mut tail = six;
    digits.append(&mut tail);
    assert(all_digits(digits@)) by {
        assert forall|i: int| 0 <= i < digits@.len() implies is_digit(#[trigger] digits@[i]) by {
            if i >= whole_digits(body@).len() {
                let j = i - whole_digits(body@).len();
                if frac@.len() < 6 && j >= frac@.len() {
                } else {
                    assert(is_digit(frac@[j]));
                }
            }
        }
    }
    let m = saturated_digits_value(&digits, DECIMAL_CAP);
    if negative {
        Some(0i64 - (m as i64))
    } else {
        Some(m as i64)
    }
}

/// Reads an optional decimal field in millionths: 0 when absent or unreadable.
pub fn parse_decimal_field(field: &Option<String>) -> (r: i64)
    ensures
        r as int == decimal_field_value(*field),
{
    match field {
        Some(value) => match parse_decimal_text(value.as_str()) {
            Some(v) => v,
            None => 0,
        },
        None => 0,
    }
}

} // verus!
