//! Decimal notation of amounts in base units: reading amount texts and
//! writing scaled amounts.

use vstd::prelude::*;
use vstd::string::*;
use vstd::arithmetic::div_mod::lemma_div_denominator;
use crate::text::chars_of;

verus! {

/// One of the ten ASCII digits.
pub open spec fn is_digit(c: char) -> bool {
    '0' <= c && c <= '9'
}

/// The number that an ASCII digit stands for.
pub open spec fn digit_value(c: char) -> int {
    c as int - '0' as int
}

/// The ASCII digit of a number below ten.
pub open spec fn digit_char(d: int) -> char {
    if d == 0 {
        '0'
    } else if d == 1 {
        '1'
    } else if d == 2 {
        '2'
    } else if d == 3 {
        '3'
    } else if d == 4 {
        '4'
    } else if d == 5 {
        '5'
    } else if d == 6 {
        '6'
    } else if d == 7 {
        '7'
    } else if d == 8 {
        '8'
    } else {
        '9'
    }
}

/// Every character is an ASCII digit.
pub open spec fn all_digits(text: Seq<char>) -> bool {
    forall|i: int| 0 <= i < text.len() ==> is_digit(#[trigger] text[i])
}

/// The number that a run of digits denotes; 0 for the empty run.
pub open spec fn digits_value(text: Seq<char>) -> int
    decreases text.len(),
{
    if text.len() == 0 {
        0
    } else {
        digits_value(text.drop_last()) * 10 + digit_value(text.last())
    }
}

/// An amount text without its optional leading plus sign.
pub open spec fn unsigned_body(text: Seq<char>) -> Seq<char> {
    if text.len() > 0 && text[0] == '+' {
        text.drop_first()
    } else {
        text
    }
}

/// The amount that a text encodes: the value of its digits where it is a
/// non-empty run of ASCII digits, after an optional plus sign, that denotes
/// at most `i128::MAX`; zero for every other text.
pub open spec fn amount_value(text: Seq<char>) -> int {
    let body = unsigned_body(text);
    if body.len() > 0 && all_digits(body) && digits_value(body) <= i128::MAX {
        digits_value(body)
    } else {
        0
    }
}

/// The amount of an optional text: zero where the text is absent.
pub open spec fn optional_amount(text: Option<String>) -> int {
    match text {
        Some(t) => amount_value(t@),
        None => 0,
    }
}

/// Ten to the power `e`.
pub open spec fn pow10(e: nat) -> nat
    decreases e,
{
    if e == 0 {
        1
    } else {
        10 * pow10((e - 1) as nat)
    }
}

/// The decimal notation of a natural number, without leading zeros.
pub open spec fn decimal_text(n: nat) -> Seq<char>
    decreases n,
{
    if n < 10 {
        seq![digit_char(n as int)]
    } else {
        decimal_text(n / 10).push(digit_char((n % 10) as int))
    }
}

/// The `width` lowest decimal digits of `n`, highest first.
pub open spec fn low_digits(n: nat, width: nat) -> Seq<char>
    decreases width,
{
    if width == 0 {
        Seq::empty()
    } else {
        low_digits(n / 10, (width - 1) as nat).push(digit_char((n % 10) as int))
    }
}

/// A run of digits without its trailing zeros.
pub open spec fn without_trailing_zeros(digits: Seq<char>) -> Seq<char>
    decreases digits.len(),
{
    if digits.len() > 0 && digits.last() == '0' {
        without_trailing_zeros(digits.drop_last())
    } else {
        digits
    }
}

/// The absolute value.
pub open spec fn magnitude(n: int) -> nat {
    if n < 0 {
        (-n) as nat
    } else {
        n as nat
    }
}

/// A minus sign for negative numbers, nothing otherwise.
pub open spec fn sign_text(n: int) -> Seq<char> {
    if n < 0 {
        seq!['-']
    } else {
        Seq::empty()
    }
}

/// A decimal point and the fraction digits, or nothing where there are none.
pub open spec fn fraction_text(digits: Seq<char>) -> Seq<char> {
    if digits.len() == 0 {
        Seq::empty()
    } else {
        seq!['.'] + digits
    }
}

/// `n / 10^decimals` in decimal notation with exactly `decimals` fraction
/// digits.
pub open spec fn fixed_decimal(n: int, decimals: nat) -> Seq<char> {
    let m = magnitude(n);
    sign_text(n) + decimal_text(m / pow10(decimals)) + fraction_text(low_digits(m, decimals))
}

/// `n / 10^decimals` in decimal notation with as many fraction digits as the
/// value needs, and no decimal point where it needs none.
pub open spec fn plain_decimal(n: int, decimals: nat) -> Seq<char> {
    let m = magnitude(n);
    sign_text(n) + decimal_text(m / pow10(decimals)) + fraction_text(
        without_trailing_zeros(low_digits(m, decimals)),
    )
}

/// The characters of digit values that are held lowest digit first.
pub open spec fn rendered(digits: Seq<u8>) -> Seq<char> {
    Seq::new(digits.len(), |i: int| digit_char(digits[digits.len() - 1 - i] as int))
}

proof fn lemma_rendered_push(digits: Seq<u8>, d: u8)
    ensures
        rendered(digits.push(d)) == seq![digit_char(d as int)] + rendered(digits),
{
    assert(rendered(digits.push(d)) =~= seq![digit_char(d as int)] + rendered(digits));
}

proof fn lemma_rendered_front(digits: Seq<u8>)
    requires
        digits.len() > 0,
    ensures
        rendered(digits) == rendered(digits.drop_first()).push(digit_char(digits[0] as int)),
{
    assert(rendered(digits) =~= rendered(digits.drop_first()).push(digit_char(digits[0] as int)));
}

/// A run of digits denotes at least what each of its prefixes denotes.
pub proof fn lemma_digits_value_grows(text: Seq<char>, k: int)
    requires
        all_digits(text),
        0 <= k <= text.len(),
    ensures
        0 <= digits_value(text.take(k)) <= digits_value(text),
    decreases text.len(),
{
    if text.len() == 0 {
        assert(text.take(k) =~= text);
    } else if k == text.len() {
        assert(text.take(k) =~= text);
        lemma_digits_value_grows(text.drop_last(), k - 1);
        assert(is_digit(text.last()));
    } else {
        lemma_digits_value_grows(text.drop_last(), k);
        assert(text.drop_last().take(k) =~= text.take(k));
        assert(is_digit(text.last()));
    }
}

/// The value of an ASCII digit, or nothing for any other character.
pub fn digit_of(c: char) -> (digit: Option<u8>)
    ensures
        digit is Some <==> is_digit(c),
        digit matches Some(d) ==> d as int == digit_value(c) && d < 10,
{
    if '0' <= c && c <= '9' {
        let d: u32 = c as u32 - '0' as u32;
        Some(d as u8)
    } else {
        None
    }
}

/// Reads an amount in base units: a run of ASCII digits, which a plus sign
/// may precede. Any other text, and a number above `i128::MAX`, counts as
/// zero.
pub fn parse_amount(text: &str) -> (amount: i128)
    ensures
        amount as int == amount_value(text@),
        amount >= 0,
{
    let chars = chars_of(text);
    let start: usize = if chars.len() > 0 && chars[0] == '+' {
        1
    } else {
        0
    };
    let ghost body = unsigned_body(text@);
    assert(body =~= chars@.subrange(start as int, chars.len() as int));
    if start == chars.len() {
        return 0;
    }
    let mut value: i128 = 0;
    let mut i: usize = start;
    while i < chars.len()
        invariant
            start <= i <= chars.len(),
            body == unsigned_body(text@),
            body == chars@.subrange(start as int, chars.len() as int),
            all_digits(body.take(i - start)),
            value as int == digits_value(body.take(i - start)),
            value >= 0,
        decreases chars.len() - i,
    {
        let ghost seen = body.take(i - start);
        let ghost next = body.take(i - start + 1);
        proof {
            assert(next.drop_last() =~= seen);
            assert(next.last() == chars@[i as int]);
        }
        match digit_of(chars[i]) {
            None => {
                assert(body[i - start] == chars@[i as int]);
                return 0;
            },
            Some(d) => {
                assert(all_digits(next)) by {
                    assert forall|j: int| 0 <= j < next.len() implies is_digit(
                        #[trigger] next[j],
                    ) by {
                        if j < seen.len() {
                            assert(next[j] == seen[j]);
                        }
                    }
                }
                if value > (i128::MAX - d as i128) / 10 {
                    proof {
                        if all_digits(body) {
                            lemma_digits_value_grows(body, i - start + 1);
                        }
                    }
                    return 0;
                }
                value = value * 10 + d as i128;
            },
        }
        i += 1;
    }
    assert(body.take(i - start) =~= body);
    value
}

/// The absolute value of a signed amount.
pub fn magnitude_of(n: i128) -> (m: u128)
    ensures
        m as nat == magnitude(n as int),
{
    if n >= 0 {
        n as u128
    } else if n == i128::MIN {
        170141183460469231731687303715884105728u128
    } else {
        (-n) as u128
    }
}

/// The one-character text of a digit value.
fn digit_str(d: u8) -> (s: &'static str)
    requires
        d < 10,
    ensures
        s@ == seq![digit_char(d as int)],
{
    proof {
        reveal_strlit("0");
        reveal_strlit("1");
        reveal_strlit("2");
        reveal_strlit("3");
        reveal_strlit("4");
        reveal_strlit("5");
        reveal_strlit("6");
        reveal_strlit("7");
        reveal_strlit("8");
        reveal_strlit("9");
    }
    let s = if d == 0 {
        "0"
    } else if d == 1 {
        "1"
    } else if d == 2 {
        "2"
    } else if d == 3 {
        "3"
    } else if d == 4 {
        "4"
    } else if d == 5 {
        "5"
    } else if d == 6 {
        "6"
    } else if d == 7 {
        "7"
    } else if d == 8 {
        "8"
    } else {
        "9"
    };
    assert(s@ =~= seq![digit_char(d as int)]);
    s
}

/// The digit values of `n`, lowest first, without leading zeros.
fn digits_of(n: u128) -> (digits: Vec<u8>)
    ensures
        rendered(digits@) == decimal_text(n as nat),
        forall|i: int| 0 <= i < digits.len() ==> digits[i] < 10,
{
    let mut digits: Vec<u8> = Vec::new();
    let mut rest: u128 = n;
    assert(rendered(digits@) =~= Seq::<char>::empty());
    while rest >= 10
        invariant
            decimal_text(n as nat) == decimal_text(rest as nat) + rendered(digits@),
            forall|i: int| 0 <= i < digits.len() ==> digits[i] < 10,
        decreases rest,
    {
        let d: u8 = (rest % 10) as u8;
        proof {
            lemma_rendered_push(digits@, d);
            assert(decimal_text(rest as nat) + rendered(digits@) =~= decimal_text(
                (rest / 10) as nat,
            ) + rendered(digits@.push(d)));
        }
        digits.push(d);
        rest = rest / 10;
    }
    let d: u8 = rest as u8;
    proof {
        lemma_rendered_push(digits@, d);
    }
    digits.push(d);
    digits
}

/// Writes a natural number in decimal notation.
pub fn natural_text(n: u128) -> (text: String)
    ensures
        text@ == decimal_text(n as nat),
{
    let digits = digits_of(n);
    let mut text = String::new();
    assert(digits@.subrange(0, digits.len() as int) =~= digits@);
    push_rendered(&mut text, &digits, 0);
    assert(text@ =~= decimal_text(n as nat));
    text
}

/// Splits off the `count` lowest decimal digits of `n`: returns what is
/// left of `n` above them, and their values, lowest first.
fn split_low(n: u128, count: u32) -> (parts: (u128, Vec<u8>))
    ensures
        parts.0 as nat == (n as nat) / pow10(count as nat),
        rendered(parts.1@) == low_digits(n as nat, count as nat),
        parts.1.len() == count,
        forall|i: int| 0 <= i < parts.1.len() ==> parts.1[i] < 10,
{
    let mut digits: Vec<u8> = Vec::new();
    let mut rest: u128 = n;
    let mut i: u32 = 0;
    assert(rendered(digits@) =~= Seq::<char>::empty());
    while i < count
        invariant
            i <= count,
            digits.len() == i,
            pow10(i as nat) > 0,
            rest as nat == (n as nat) / pow10(i as nat),
            low_digits(n as nat, count as nat) == low_digits(
                rest as nat,
                (count - i) as nat,
            ) + rendered(digits@),
            forall|j: int| 0 <= j < digits.len() ==> digits[j] < 10,
        decreases count - i,
    {
        let d: u8 = (rest % 10) as u8;
        proof {
            lemma_rendered_push(digits@, d);
            assert(low_digits(rest as nat, (count - i) as nat) + rendered(digits@) =~= low_digits(
                (rest / 10) as nat,
                (count - i - 1) as nat,
            ) + rendered(digits@.push(d)));
            lemma_div_denominator(n as int, pow10(i as nat) as int, 10);
        }
        digits.push(d);
        rest = rest / 10;
        i += 1;
    }
    (rest, digits)
}

/// Appends the characters of `digits[from..]`, which are held lowest digit
/// first, highest digit first.
fn push_rendered(out: &mut String, digits: &Vec<u8>, from: usize)
    requires
        from <= digits.len(),
        forall|i: int| 0 <= i < digits.len() ==> digits[i] < 10,
    ensures
        final(out)@ == old(out)@ + rendered(digits@.subrange(from as int, digits.len() as int)),
{
    let mut k: usize = digits.len();
    assert(rendered(digits@.subrange(k as int, digits.len() as int)) =~= Seq::<char>::empty());
    assert(out@ + Seq::<char>::empty() =~= out@);
    while k > from
        invariant
            from <= k <= digits.len(),
            forall|i: int| 0 <= i < digits.len() ==> digits[i] < 10,
            out@ == old(out)@ + rendered(digits@.subrange(k as int, digits.len() as int)),
        decreases k,
    {
        k -= 1;
        proof {
            let wider = digits@.subrange(k as int, digits.len() as int);
            lemma_rendered_front(wider);
            assert(wider.drop_first() =~= digits@.subrange(k + 1, digits.len() as int));
        }
        let ghost before = out@;
        out.append(digit_str(digits[k]));
        assert(out@ =~= old(out)@ + rendered(digits@.subrange(k as int, digits.len() as int)));
    }
}

/// Among digit values held lowest first, the index of the first that is
/// not zero: the rest renders as the digits without their trailing zeros.
fn skip_low_zeros(digits: &Vec<u8>) -> (from: usize)
    requires
        forall|i: int| 0 <= i < digits.len() ==> digits[i] < 10,
    ensures
        from <= digits.len(),
        rendered(digits@.subrange(from as int, digits.len() as int)) == without_trailing_zeros(
            rendered(digits@),
        ),
{
    let mut from: usize = 0;
    assert(digits@.subrange(0, digits.len() as int) =~= digits@);
    while from < digits.len() && digits[from] == 0
        invariant
            from <= digits.len(),
            forall|i: int| 0 <= i < digits.len() ==> digits[i] < 10,
            without_trailing_zeros(rendered(digits@.subrange(from as int, digits.len() as int)))
                == without_trailing_zeros(rendered(digits@)),
        decreases digits.len() - from,
    {
        proof {
            let wider = digits@.subrange(from as int, digits.len() as int);
            lemma_rendered_front(wider);
            assert(wider.drop_first() =~= digits@.subrange(from + 1, digits.len() as int));
            assert(rendered(wider).drop_last() =~= rendered(wider.drop_first()));
        }
        from += 1;
    }
    proof {
        let kept = digits@.subrange(from as int, digits.len() as int);
        if from < digits.len() {
            lemma_rendered_front(kept);
            assert(rendered(kept).last() == digit_char(digits[from as int] as int));
        } else {
            assert(rendered(kept) =~= Seq::<char>::empty());
        }
    }
    from
}

/// Appends the sign and the whole part of an amount scaled by
/// `10^decimals`, and returns its fraction digits, lowest first.
fn push_whole_part(out: &mut String, n: i128, decimals: u32) -> (low: Vec<u8>)
    ensures
        final(out)@ == old(out)@ + sign_text(n as int) + decimal_text(
            magnitude(n as int) / pow10(decimals as nat),
        ),
        rendered(low@) == low_digits(magnitude(n as int), decimals as nat),
        forall|i: int| 0 <= i < low.len() ==> low[i] < 10,
{
    if n < 0 {
        proof {
            reveal_strlit("-");
        }
        out.append("-");
        assert(out@ =~= old(out)@ + sign_text(n as int));
    } else {
        assert(out@ =~= old(out)@ + sign_text(n as int));
    }
    let (whole, low) = split_low(magnitude_of(n), decimals);
    let whole_digits = digits_of(whole);
    assert(whole_digits@.subrange(0, whole_digits.len() as int) =~= whole_digits@);
    push_rendered(out, &whole_digits, 0);
    low
}

/// Appends a decimal point and `digits[from..]`, highest digit first, or
/// nothing where that range is empty.
fn push_fraction(out: &mut String, digits: &Vec<u8>, from: usize)
    requires
        from <= digits.len(),
        forall|i: int| 0 <= i < digits.len() ==> digits[i] < 10,
    ensures
        final(out)@ == old(out)@ + fraction_text(
            rendered(digits@.subrange(from as int, digits.len() as int)),
        ),
{
    if from < digits.len() {
        proof {
            reveal_strlit(".");
        }
        out.append(".");
        push_rendered(out, digits, from);
        assert(out@ =~= old(out)@ + fraction_text(
            rendered(digits@.subrange(from as int, digits.len() as int)),
        ));
    } else {
        assert(out@ =~= old(out)@ + fraction_text(
            rendered(digits@.subrange(from as int, digits.len() as int)),
        ));
    }
}

/// Writes `n / 10^decimals` with exactly `decimals` fraction digits.
pub fn fixed_text(n: i128, decimals: u32) -> (text: String)
    ensures
        text@ == fixed_decimal(n as int, decimals as nat),
{
    let mut text = String::new();
    let low = push_whole_part(&mut text, n, decimals);
    assert(low@.subrange(0, low.len() as int) =~= low@);
    push_fraction(&mut text, &low, 0);
    assert(text@ =~= fixed_decimal(n as int, decimals as nat));
    text
}

/// Writes `n / 10^decimals` with no more fraction digits than it needs.
pub fn plain_text(n: i128, decimals: u32) -> (text: String)
    ensures
        text@ == plain_decimal(n as int, decimals as nat),
{
    let mut text = String::new();
    let low = push_whole_part(&mut text, n, decimals);
    let from = skip_low_zeros(&low);
    push_fraction(&mut text, &low, from);
    assert(text@ =~= plain_decimal(n as int, decimals as nat));
    text
}

} // verus!
