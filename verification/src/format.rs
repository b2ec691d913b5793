//! Decimal parsing and fixed-point formatting for table cells: a cell value
//! is parseable when it is an optional minus sign followed by digits with at
//! most one decimal point (at least one digit, at most 18 digits on either
//! side); formatting rounds half away from zero to the requested precision.

use vstd::prelude::*;
use crate::geometry::Color;

verus! {

pub open spec fn is_ascii_digit(c: char) -> bool {
    48 <= c as int <= 57
}

pub open spec fn digit_val(c: char) -> int {
    c as int - 48
}

pub open spec fn all_digits(s: Seq<char>) -> bool {
    forall|i: int| 0 <= i < s.len() ==> is_ascii_digit(#[trigger] s[i])
}

/// Numeric value of a digit string, most significant digit first.
pub open spec fn digits_val(s: Seq<char>) -> int
    decreases s.len(),
{
    if s.len() == 0 {
        0
    } else {
        digits_val(s.drop_last()) * 10 + digit_val(s.last())
    }
}

/// Index of the first decimal point, or the length when there is none.
pub open spec fn first_dot(s: Seq<char>) -> int
    decreases s.len(),
{
    if s.len() == 0 {
        0
    } else if s[0] == '.' {
        0
    } else {
        1 + first_dot(s.drop_first())
    }
}

pub proof fn lemma_first_dot_at(s: Seq<char>, j: int)
    requires
        0 <= j < s.len(),
        s[j] == '.',
        forall|k: int| 0 <= k < j ==> s[k] != '.',
    ensures
        first_dot(s) == j,
    decreases j,
{
    if j > 0 {
        lemma_first_dot_at(s.drop_first(), j - 1);
    }
}

pub proof fn lemma_first_dot_none(s: Seq<char>)
    requires
        forall|k: int| 0 <= k < s.len() ==> s[k] != '.',
    ensures
        first_dot(s) == s.len(),
    decreases s.len(),
{
    if s.len() > 0 {
        lemma_first_dot_none(s.drop_first());
    }
}

/// Whether the text carries a leading minus sign.
pub open spec fn dec_neg(s: Seq<char>) -> bool {
    s.len() > 0 && s[0] == '-'
}

/// The text with any leading minus sign removed.
pub open spec fn dec_body(s: Seq<char>) -> Seq<char> {
    if dec_neg(s) {
        s.drop_first()
    } else {
        s
    }
}

/// The digits before the decimal point.
pub open spec fn int_part(s: Seq<char>) -> Seq<char> {
    dec_body(s).take(first_dot(dec_body(s)))
}

/// The digits after the decimal point.
pub open spec fn frac_part(s: Seq<char>) -> Seq<char> {
    let b = dec_body(s);
    let d = first_dot(b);
    if d < b.len() {
        b.skip(d + 1)
    } else {
        Seq::<char>::empty()
    }
}

/// The decimal grammar this library accepts.
pub open spec fn valid_decimal(s: Seq<char>) -> bool {
    &&& dec_body(s).len() > 0
    &&& all_digits(int_part(s))
    &&& all_digits(frac_part(s))
    &&& int_part(s).len() + frac_part(s).len() >= 1
    &&& int_part(s).len() <= 18
    &&& frac_part(s).len() <= 18
}

pub open spec fn pow10(k: nat) -> nat
    decreases k,
{
    if k == 0 {
        1
    } else {
        10 * pow10((k - 1) as nat)
    }
}

pub proof fn lemma_pow10_pos(a: nat)
    ensures
        pow10(a) >= 1,
    decreases a,
{
    if a > 0 {
        lemma_pow10_pos((a - 1) as nat);
    }
}

pub proof fn lemma_pow10_mono(a: nat, b: nat)
    requires
        a <= b,
    ensures
        pow10(a) <= pow10(b),
        pow10(a) >= 1,
    decreases b,
{
    lemma_pow10_pos(a);
    if a < b {
        lemma_pow10_mono(a, (b - 1) as nat);
    }
}

/// A digit string's value stays below ten to its length.
pub proof fn lemma_digits_val_bound(s: Seq<char>)
    requires
        all_digits(s),
    ensures
        0 <= digits_val(s) < pow10(s.len()),
    decreases s.len(),
{
    if s.len() > 0 {
        assert(all_digits(s.drop_last())) by {
            assert(forall|i: int|
                0 <= i < s.len() - 1 ==> s.drop_last()[i] == #[trigger] s[i]);
        }
        lemma_digits_val_bound(s.drop_last());
        assert(pow10(s.len()) == 10 * pow10((s.len() - 1) as nat));
    }
}

pub open spec fn digit_char(d: int) -> char {
    if d == 0 {
        '0'
    } else if d == 1 {
        '1'
    } else if d == 2 {
        '2'
    } else if d == 3 {
        '3'
    } else if d == 4 {
        '4'
    } else if d == 5 {
        '5'
    } else if d == 6 {
        '6'
    } else if d == 7 {
        '7'
    } else if d == 8 {
        '8'
    } else {
        '9'
    }
}

/// Decimal digits of a number, most significant first, no leading zeros
/// (a single zero for 0).
pub open spec fn dec_digits(n: nat) -> Seq<char>
    decreases n,
{
    if n < 10 {
        seq![digit_char(n as int)]
    } else {
        dec_digits(n / 10).push(digit_char((n % 10) as int))
    }
}

/// Exactly `width` decimal digits of a number, left-padded with zeros.
pub open spec fn padded_digits(n: nat, width: nat) -> Seq<char>
    decreases width,
{
    if width == 0 {
        Seq::<char>::empty()
    } else {
        padded_digits(n / 10, (width - 1) as nat).push(digit_char((n % 10) as int))
    }
}

/// Digits with a comma before every group of three, counted from the right.
pub open spec fn grouped_digits(n: nat) -> Seq<char>
    decreases n,
{
    if n < 1000 {
        dec_digits(n)
    } else {
        grouped_digits(n / 1000) + seq![','] + padded_digits(n % 1000, 3)
    }
}

/// The fraction digits' value after rounding half away from zero to `p`
/// digits; may reach ten to the `p` (a carry into the integer part).
pub open spec fn round_frac(fv: nat, flen: nat, p: nat) -> nat {
    if flen <= p {
        fv * pow10((p - flen) as nat)
    } else {
        (fv + pow10((flen - p) as nat) / 2) / pow10((flen - p) as nat)
    }
}

/// Integer part of a parsed value after rounding its fraction to `p` digits.
pub open spec fn fixed_int(iv: nat, fv: nat, flen: nat, p: nat) -> nat {
    if round_frac(fv, flen, p) >= pow10(p) {
        iv + 1
    } else {
        iv
    }
}

/// Fraction part (as a `p`-digit value) after rounding to `p` digits.
pub open spec fn fixed_frac(fv: nat, flen: nat, p: nat) -> nat {
    if round_frac(fv, flen, p) >= pow10(p) {
        (round_frac(fv, flen, p) - pow10(p)) as nat
    } else {
        round_frac(fv, flen, p)
    }
}

/// The fixed-point rendering of a parsed magnitude to `p` digits: the
/// rounded integer digits, and for positive `p` a point and exactly `p`
/// fraction digits.
pub open spec fn fixed_output(iv: nat, fv: nat, flen: nat, p: nat) -> Seq<char> {
    if p == 0 {
        dec_digits(fixed_int(iv, fv, flen, p))
    } else {
        dec_digits(fixed_int(iv, fv, flen, p)) + seq!['.'] + padded_digits(
            fixed_frac(fv, flen, p),
            p,
        )
    }
}

/// A value below ten to the `k` renders in at most `k` digits.
pub proof fn lemma_dec_digits_len(n: nat, k: nat)
    requires
        n < pow10(k),
        k >= 1,
    ensures
        1 <= dec_digits(n).len() <= k,
    decreases k,
{
    if n >= 10 {
        assert(pow10(k) == 10 * pow10((k - 1) as nat));
        lemma_dec_digits_len(n / 10, (k - 1) as nat);
    }
}

/// Padded renderings have exactly the requested width.
pub proof fn lemma_padded_digits_len(n: nat, w: nat)
    ensures
        padded_digits(n, w).len() == w,
    decreases w,
{
    if w > 0 {
        lemma_padded_digits_len(n / 10, (w - 1) as nat);
    }
}

/// A fixed-point rendering of an in-range magnitude stays short.
pub proof fn lemma_fixed_output_len(iv: nat, fv: nat, flen: nat, p: nat)
    requires
        iv < pow10(18),
        fv < pow10(flen),
        flen <= 18,
        p <= 18,
    ensures
        fixed_output(iv, fv, flen, p).len() <= 40,
{
    lemma_pow10_mono(18, 19);
    assert(pow10(19) == 10 * pow10(18));
    lemma_dec_digits_len(fixed_int(iv, fv, flen, p), 19);
    if p > 0 {
        lemma_padded_digits_len(fixed_frac(fv, flen, p), p);
    }
}

/// A parsed decimal magnitude: sign, integer digits' value, fraction
/// digits' value and the fraction's digit count.
#[derive(Clone, Copy, Debug, PartialEq, Eq, Structural)]
pub struct ParsedDecimal {
    pub neg: bool,
    pub int_val: u64,
    pub frac_val: u64,
    pub frac_len: usize,
}

/// One digit as a string slice.
fn digit_str(d: u64) -> (r: &'static str)
    requires
        d < 10,
    ensures
        r@ == seq![digit_char(d as int)],
{
    proof {
        reveal_strlit("0");
        reveal_strlit("1");
        reveal_strlit("2");
        reveal_strlit("3");
        reveal_strlit("4");
        reveal_strlit("5");
        reveal_strlit("6");
        reveal_strlit("7");
        reveal_strlit("8");
        reveal_strlit("9");
    }
    if d == 0 {
        "0"
    } else if d == 1 {
        "1"
    } else if d == 2 {
        "2"
    } else if d == 3 {
        "3"
    } else if d == 4 {
        "4"
    } else if d == 5 {
        "5"
    } else if d == 6 {
        "6"
    } else if d == 7 {
        "7"
    } else if d == 8 {
        "8"
    } else {
        "9"
    }
}

/// Append the decimal digits of `n`.
pub fn push_dec_digits(s: &mut String, n: u64)
    ensures
        final(s)@ == old(s)@ + dec_digits(n as nat),
    decreases n,
{
    if n < 10 {
        s.append(digit_str(n));
    } else {
        push_dec_digits(s, n / 10);
        s.append(digit_str(n % 10));
    }
}

/// Append exactly `width` digits of `n`, left-padded with zeros.
pub fn push_padded_digits(s: &mut String, n: u64, width: usize)
    ensures
        final(s)@ == old(s)@ + padded_digits(n as nat, width as nat),
    decreases width,
{
    if width > 0 {
        push_padded_digits(s, n / 10, width - 1);
        s.append(digit_str(n % 10));
    } else {
        proof {
            assert(old(s)@ + padded_digits(n as nat, 0) =~= old(s)@);
        }
    }
}

/// Append the digits of `n` with comma grouping.
pub fn push_grouped_digits(s: &mut String, n: u64)
    ensures
        final(s)@ == old(s)@ + grouped_digits(n as nat),
    decreases n,
{
    if n < 1000 {
        push_dec_digits(s, n);
    } else {
        push_grouped_digits(s, n / 1000);
        proof {
            reveal_strlit(",");
        }
        s.append(",");
        push_padded_digits(s, n % 1000, 3);
    }
}

/// Ten to the `k`, for exponents small enough to fit.
pub fn pow10_u64(k: usize) -> (r: u64)
    requires
        k <= 18,
    ensures
        r == pow10(k as nat),
        r >= 1,
{
    proof {
        reveal_with_fuel(pow10, 20);
    }
    let mut r: u64 = 1;
    let mut i: usize = 0;
    while i < k
        invariant
            i <= k <= 18,
            r == pow10(i as nat),
        decreases k - i,
    {
        proof {
            lemma_pow10_mono((i + 1) as nat, 18);
            reveal_with_fuel(pow10, 20);
        }
        r = r * 10;
        i = i + 1;
    }
    r
}

/// Parse a cell's text as a decimal number. Returns the parsed magnitude,
/// or nothing exactly when the text is not a decimal this library accepts.
#[verifier::rlimit(60)]
pub fn parse_decimal(text: &str) -> (r: Option<ParsedDecimal>)
    ensures
        r is Some <==> valid_decimal(text@),
        r matches Some(pd) ==> {
            &&& pd.neg == dec_neg(text@)
            &&& pd.int_val == digits_val(int_part(text@))
            &&& pd.frac_val == digits_val(frac_part(text@))
            &&& pd.frac_len == frac_part(text@).len()
        },
{
    let ghost s = text@;
    let n = text.unicode_len();
    if n == 0 {
        return None;
    }
    let neg = text.get_char(0) == '-';
    let start: usize = if neg {
        1
    } else {
        0
    };
    let ghost b = s.skip(start as int);
    proof {
        assert(b =~= dec_body(s));
    }
    if start == n {
        // a lone minus sign has an empty body
        return None;
    }
    let mut i: usize = start;
    while i < n && text.get_char(i) != '.'
        invariant
            start <= i <= n,
            n == s.len(),
            s == text@,
            forall|k: int| start <= k < i ==> s[k] != '.',
        decreases n - i,
    {
        i = i + 1;
    }
    let dot_idx = i;
    proof {
        if dot_idx < n {
            lemma_first_dot_at(b, dot_idx - start as int);
        } else {
            lemma_first_dot_none(b);
        }
        assert(int_part(s) =~= s.subrange(start as int, dot_idx as int));
        if dot_idx < n {
            assert(frac_part(s) =~= s.subrange(dot_idx + 1, n as int));
        } else {
            assert(frac_part(s) =~= Seq::<char>::empty());
        }
    }
    let int_len = dot_idx - start;
    let frac_len: usize = if dot_idx < n {
        n - dot_idx - 1
    } else {
        0
    };
    if int_len > 18 || frac_len > 18 {
        return None;
    }
    if int_len == 0 && frac_len == 0 {
        return None;
    }
    proof {
        reveal_with_fuel(pow10, 20);
    }
    let mut iv: u64 = 0;
    let mut k: usize = start;
    while k < dot_idx
        invariant
            start <= k <= dot_idx <= n,
            n == s.len(),
            s == text@,
            dot_idx - start <= 18,
            int_part(s) == s.subrange(start as int, dot_idx as int),
            forall|q: int| start <= q < k ==> is_ascii_digit(#[trigger] s[q]),
            iv == digits_val(s.subrange(start as int, k as int)),
            iv < pow10((k - start) as nat),
        decreases dot_idx - k,
    {
        let c = text.get_char(k);
        let d = c as u32;
        if d < 48 || d > 57 {
            proof {
                assert(int_part(s)[k - start as int] == s[k as int]);
                assert(!is_ascii_digit(s[k as int]));
            }
            return None;
        }
        proof {
            assert(s.subrange(start as int, k + 1).drop_last() =~= s.subrange(
                start as int,
                k as int,
            ));
            lemma_pow10_mono((k + 1 - start) as nat, 18);
            reveal_with_fuel(pow10, 20);
        }
        iv = iv * 10 + ((d - 48) as u64);
        k = k + 1;
    }
    proof {
        assert(s.subrange(start as int, dot_idx as int) == int_part(s));
    }
    let mut fv: u64 = 0;
    if dot_idx < n {
        let mut k2: usize = dot_idx + 1;
        while k2 < n
            invariant
                dot_idx + 1 <= k2 <= n,
                n == s.len(),
                s == text@,
                n - dot_idx - 1 <= 18,
                frac_part(s) == s.subrange(dot_idx + 1, n as int),
                forall|q: int| dot_idx + 1 <= q < k2 ==> is_ascii_digit(#[trigger] s[q]),
                fv == digits_val(s.subrange(dot_idx + 1, k2 as int)),
                fv < pow10((k2 - dot_idx - 1) as nat),
            decreases n - k2,
        {
            let c = text.get_char(k2);
            let d = c as u32;
            if d < 48 || d > 57 {
                proof {
                    assert(frac_part(s)[k2 - dot_idx - 1] == s[k2 as int]);
                    assert(!is_ascii_digit(s[k2 as int]));
                }
                return None;
            }
            proof {
                assert(s.subrange(dot_idx + 1, k2 + 1).drop_last() =~= s.subrange(
                    dot_idx + 1,
                    k2 as int,
                ));
                lemma_pow10_mono((k2 - dot_idx) as nat, 18);
                reveal_with_fuel(pow10, 20);
            }
            fv = fv * 10 + ((d - 48) as u64);
            k2 = k2 + 1;
        }
    }
    Some(ParsedDecimal { neg, int_val: iv, frac_val: fv, frac_len })
}

/// Render a parsed magnitude with exactly `precision` fraction digits,
/// rounding half away from zero.
pub fn format_fixed(pd: &ParsedDecimal, precision: usize) -> (r: String)
    requires
        precision <= 18,
        pd.frac_len <= 18,
        pd.int_val < pow10(18),
        pd.frac_val < pow10(pd.frac_len as nat),
    ensures
        r@ == fixed_output(
            pd.int_val as nat,
            pd.frac_val as nat,
            pd.frac_len as nat,
            precision as nat,
        ),
{
    proof {
        reveal_with_fuel(pow10, 20);
    }
    let p10 = pow10_u64(precision);
    let fr: u64 = if pd.frac_len <= precision {
        let scale = pow10_u64(precision - pd.frac_len);
        proof {
            crate::geometry::lemma_mul_le(
                pd.frac_val as int,
                scale as int,
                pow10(pd.frac_len as nat) as int - 1,
                pow10((precision - pd.frac_len) as nat) as int,
            );
            assert(pow10(pd.frac_len as nat) * pow10((precision - pd.frac_len) as nat) == pow10(
                precision as nat,
            )) by {
                lemma_pow10_add(pd.frac_len as nat, (precision - pd.frac_len) as nat);
            }
            assert((pow10(pd.frac_len as nat) - 1) * pow10((precision - pd.frac_len) as nat)
                <= pow10(precision as nat) - 1) by (nonlinear_arith)
                requires
                    pow10(pd.frac_len as nat) * pow10((precision - pd.frac_len) as nat) == pow10(
                        precision as nat,
                    ),
                    pow10((precision - pd.frac_len) as nat) >= 1,
            ;
            lemma_pow10_mono(precision as nat, 18);
        }
        pd.frac_val * scale
    } else {
        let d = pow10_u64(pd.frac_len - precision);
        proof {
            lemma_pow10_mono(pd.frac_len as nat, 18);
        }
        (pd.frac_val + d / 2) / d
    };
    let carry = fr >= p10;
    let int_out: u64 = if carry {
        pd.int_val + 1
    } else {
        pd.int_val
    };
    let frac_out: u64 = if carry {
        proof {
            lemma_round_frac_carry_bound(
                pd.frac_val as nat,
                pd.frac_len as nat,
                precision as nat,
            );
        }
        fr - p10
    } else {
        fr
    };
    let mut out = String::new();
    push_dec_digits(&mut out, int_out);
    if precision > 0 {
        proof {
            reveal_strlit(".");
        }
        out.append(".");
        push_padded_digits(&mut out, frac_out, precision);
    } else {
        proof {
            assert(out@ + Seq::<char>::empty() =~= out@);
        }
    }
    out
}

/// Ten-powers multiply by adding exponents.
pub proof fn lemma_pow10_add(a: nat, b: nat)
    ensures
        pow10(a) * pow10(b) == pow10(a + b),
    decreases a,
{
    if a == 0 {
        assert(pow10(0) == 1);
    } else {
        lemma_pow10_add((a - 1) as nat, b);
        assert(pow10(a) * pow10(b) == 10 * pow10((a - 1) as nat) * pow10(b));
        assert(10 * pow10((a - 1) as nat) * pow10(b) == 10 * (pow10((a - 1) as nat) * pow10(b)))
            by (nonlinear_arith);
    }
}

/// A rounded fraction exceeds `pow10(p)` by less than `pow10(p)`: the carry
/// leaves a valid `p`-digit fraction behind.
pub proof fn lemma_round_frac_carry_bound(fv: nat, flen: nat, p: nat)
    requires
        fv < pow10(flen),
    ensures
        round_frac(fv, flen, p) < 2 * pow10(p),
{
    if flen <= p {
        lemma_pow10_add(flen, (p - flen) as nat);
        lemma_pow10_pos((p - flen) as nat);
        lemma_pow10_pos(flen);
        assert(fv * pow10((p - flen) as nat) < pow10(flen) * pow10((p - flen) as nat))
            by (nonlinear_arith)
            requires
                fv < pow10(flen),
                pow10((p - flen) as nat) >= 1,
        ;
    } else {
        let d = pow10((flen - p) as nat);
        lemma_pow10_add(p, (flen - p) as nat);
        lemma_pow10_mono(0, (flen - p) as nat);
        assert((fv + d / 2) / d < 2 * pow10(p)) by (nonlinear_arith)
            requires
                fv < pow10(flen),
                d >= 1,
                pow10(p) * d == pow10(flen),
                pow10(p) >= 1,
        ;
    }
}


/// How a column's cell values are rendered: as-is, as currency with a fixed
/// number of decimals, or as a fixed-point number.
#[derive(Clone, Copy, Debug, PartialEq, Eq, Structural)]
pub enum TypeOfItem {
    Currency(usize),
    Number(usize),
    String,
}

impl TypeOfItem {
    /// Precisions stay within the number of decimal digits a cell value
    /// can carry.
    pub open spec fn wf(&self) -> bool {
        match *self {
            TypeOfItem::Currency(p) => p <= 18,
            TypeOfItem::Number(p) => p <= 18,
            TypeOfItem::String => true,
        }
    }
}

/// Whether a cell's text names a negative non-zero number.
pub open spec fn spec_is_negative(s: Seq<char>) -> bool {
    dec_neg(s) && (digits_val(int_part(s)) > 0 || digits_val(frac_part(s)) > 0)
}

/// The rendered text of a parseable cell value at precision `p`.
pub open spec fn spec_fixed_of(s: Seq<char>, p: nat) -> Seq<char> {
    fixed_output(
        digits_val(int_part(s)) as nat,
        digits_val(frac_part(s)) as nat,
        frac_part(s).len(),
        p,
    )
}

/// Format one cell per its column's value type: currency(p) renders a
/// parseable number as `$` plus fixed(p), negatives as `($amount)` in the
/// alert color; number(p) renders fixed(p), negatives in the alert color;
/// unparseable text renders as `NAN` in the warning color; header cells are
/// never reformatted.
pub fn format_column(
    type_of_item: &TypeOfItem,
    text: &String,
    default_color: Color,
    is_header_row: bool,
) -> (r: (String, Color))
    requires
        type_of_item.wf(),
        text@.len() <= crate::geometry::MAX_TEXT,
    ensures
        r.0@.len() <= crate::geometry::MAX_TEXT,
        is_header_row ==> r.0@ == text@ && r.1 == default_color,
        !is_header_row ==> match *type_of_item {
            TypeOfItem::String => r.0@ == text@ && r.1 == default_color,
            TypeOfItem::Currency(p) => {
                if valid_decimal(text@) {
                    if spec_is_negative(text@) {
                        &&& r.0@ == seq!['(', '$'] + spec_fixed_of(text@, p as nat) + seq![')']
                        &&& r.1 == (Color { r: 1000, g: 0, b: 0 })
                    } else {
                        &&& r.0@ == seq!['$'] + spec_fixed_of(text@, p as nat)
                        &&& r.1 == default_color
                    }
                } else {
                    r.0@ == "NAN"@ && r.1 == (Color { r: 500, g: 300, b: 500 })
                }
            },
            TypeOfItem::Number(p) => {
                if valid_decimal(text@) {
                    if spec_is_negative(text@) {
                        &&& r.0@ == seq!['-'] + spec_fixed_of(text@, p as nat)
                        &&& r.1 == (Color { r: 1000, g: 0, b: 0 })
                    } else {
                        &&& r.0@ == spec_fixed_of(text@, p as nat)
                        &&& r.1 == default_color
                    }
                } else {
                    r.0@ == "NAN"@ && r.1 == (Color { r: 500, g: 300, b: 500 })
                }
            },
        },
{
    if is_header_row {
        return (text.clone(), default_color);
    }
    let nan_color = Color { r: 500, g: 300, b: 500 };
    let alert_color = Color { r: 1000, g: 0, b: 0 };
    match type_of_item {
        TypeOfItem::String => (text.clone(), default_color),
        TypeOfItem::Currency(precision) => {
            match parse_decimal(text.as_str()) {
                Some(pd) => {
                    proof {
                        lemma_digits_val_bound(int_part(text@));
                        lemma_digits_val_bound(frac_part(text@));
                        lemma_pow10_mono(int_part(text@).len(), 18);
                    }
                    let body = format_fixed(&pd, *precision);
                    proof {
                        lemma_fixed_output_len(
                            pd.int_val as nat,
                            pd.frac_val as nat,
                            pd.frac_len as nat,
                            *precision as nat,
                        );
                    }
                    if pd.neg && (pd.int_val > 0 || pd.frac_val > 0) {
                        proof {
                            reveal_strlit("($");
                            reveal_strlit(")");
                            assert("($"@ =~= seq!['(', '$']);
                            assert(")"@ =~= seq![')']);
                        }
                        let mut out = String::from_str("($");
                        out.append(body.as_str());
                        out.append(")");
                        (out, alert_color)
                    } else {
                        proof {
                            reveal_strlit("$");
                            assert("$"@ =~= seq!['$']);
                        }
                        let mut out = String::from_str("$");
                        out.append(body.as_str());
                        (out, default_color)
                    }
                },
                None => {
                    proof {
                        reveal_strlit("NAN");
                    }
                    (String::from_str("NAN"), nan_color)
                },
            }
        },
        TypeOfItem::Number(precision) => {
            match parse_decimal(text.as_str()) {
                Some(pd) => {
                    proof {
                        lemma_digits_val_bound(int_part(text@));
                        lemma_digits_val_bound(frac_part(text@));
                        lemma_pow10_mono(int_part(text@).len(), 18);
                    }
                    let body = format_fixed(&pd, *precision);
                    proof {
                        lemma_fixed_output_len(
                            pd.int_val as nat,
                            pd.frac_val as nat,
                            pd.frac_len as nat,
                            *precision as nat,
                        );
                    }
                    if pd.neg && (pd.int_val > 0 || pd.frac_val > 0) {
                        proof {
                            reveal_strlit("-");
                            assert("-"@ =~= seq!['-']);
                        }
                        let mut out = String::from_str("-");
                        out.append(body.as_str());
                        (out, alert_color)
                    } else {
                        (body, default_color)
                    }
                },
                None => {
                    proof {
                        reveal_strlit("NAN");
                    }
                    (String::from_str("NAN"), nan_color)
                },
            }
        },
    }
}

} // verus!
