//! Decimal numerals: writing an unsigned number and reading one.
use vstd::prelude::*;

verus! {

/// The character of a decimal digit.
pub open spec fn digit_char(d: int) -> char {
    (d + 48) as char
}

/// A decimal digit.
pub open spec fn is_digit(c: char) -> bool {
    '0' <= c <= '9'
}

/// The value of a decimal digit.
pub open spec fn digit_value(c: char) -> int {
    c as int - 48
}

/// The decimal numeral of a number, without leading zeros.
pub open spec fn decimal_text(n: nat) -> Seq<char>
    decreases n,
{
    if n < 10 {
        seq![digit_char(n as int)]
    } else {
        decimal_text(n / 10).push(digit_char((n % 10) as int))
    }
}

/// Every character of the text is a decimal digit.
pub open spec fn all_digits(s: Seq<char>) -> bool {
    forall|i: int| 0 <= i < s.len() ==> is_digit(#[trigger] s[i])
}

/// The number that a text of decimal digits denotes.
pub open spec fn digits_value(s: Seq<char>) -> nat
    decreases s.len(),
{
    if s.len() == 0 {
        0
    } else {
        (digits_value(s.drop_last()) * 10 + digit_value(s.last())) as nat
    }
}

/// A numeral without its plus sign, if it has one.
pub open spec fn unsigned_part(s: Seq<char>) -> Seq<char> {
    if s.len() > 0 && s[0] == '+' {
        s.drop_first()
    } else {
        s
    }
}

/// The 32-bit number that a text denotes: an optional plus sign and at least
/// one decimal digit, with a value that fits. Any other text denotes none.
pub open spec fn parse_u32_text(s: Seq<char>) -> Option<u32> {
    let body = unsigned_part(s);
    if body.len() > 0 && all_digits(body) && digits_value(body) <= u32::MAX {
        Some(digits_value(body) as u32)
    } else {
        None
    }
}

/// A longer numeral denotes no smaller number than its prefixes.
pub proof fn lemma_digits_value_grows(s: Seq<char>, k: int)
    requires
        all_digits(s),
        0 <= k <= s.len(),
    ensures
        digits_value(s.take(k)) <= digits_value(s),
    decreases s.len(),
{
    if k == s.len() {
        assert(s.take(k) =~= s);
    } else {
        let front = s.drop_last();
        assert(front.take(k) =~= s.take(k));
        assert(is_digit(s.last()));
        lemma_digits_value_grows(front, k);
    }
}

/// A numeral consists of digits and denotes the number it was written for.
pub proof fn lemma_decimal_text(n: nat)
    ensures
        decimal_text(n).len() > 0,
        all_digits(decimal_text(n)),
        digits_value(decimal_text(n)) == n,
    decreases n,
{
    if n < 10 {
        let s = decimal_text(n);
        assert(s.drop_last() =~= Seq::<char>::empty());
        assert(digits_value(s.drop_last()) == 0);
    } else {
        lemma_decimal_text(n / 10);
        let front = decimal_text(n / 10);
        let s = decimal_text(n);
        assert(s.drop_last() =~= front);
        assert(s.last() == digit_char((n % 10) as int));
    }
}

/// Reading the numeral of a 32-bit number gives the number back.
pub proof fn lemma_parse_decimal(n: u32)
    ensures
        parse_u32_text(decimal_text(n as nat)) == Some(n),
{
    lemma_decimal_text(n as nat);
    let s = decimal_text(n as nat);
    assert(is_digit(s[0]));
}

/// The decimal numeral of a number.
pub fn decimal(n: u64) -> (r: Vec<char>)
    ensures
        r@ == decimal_text(n as nat),
{
    let mut digits: Vec<char> = Vec::new();
    let mut rest: u64 = n;
    let ghost mut done: Seq<char> = Seq::empty();
    while rest >= 10
        invariant
            decimal_text(n as nat) == decimal_text(rest as nat) + done,
            done.len() == digits.len(),
            forall|i: int| 0 <= i < done.len() ==> done[i] == digits@[done.len() - 1 - i],
        decreases rest,
    {
        let d: u8 = (rest % 10) as u8;
        let c: char = (d + 48) as char;
        proof {
            let ghost longer = seq![c] + done;
            assert(decimal_text(rest as nat) == decimal_text((rest / 10) as nat).push(c));
            assert(decimal_text((rest / 10) as nat).push(c) + done =~= decimal_text(
                (rest / 10) as nat,
            ) + longer);
            done = longer;
        }
        digits.push(c);
        rest = rest / 10;
    }
    let d: u8 = rest as u8;
    let mut out: Vec<char> = Vec::new();
    out.push((d + 48) as char);
    let mut k: usize = digits.len();
    while k > 0
        invariant
            k <= digits.len(),
            done.len() == digits.len(),
            forall|i: int| 0 <= i < done.len() ==> done[i] == digits@[done.len() - 1 - i],
            out@ == decimal_text(rest as nat) + done.take(digits.len() - k),
            rest < 10,
        decreases k,
    {
        k -= 1;
        out.push(digits[k]);
        assert(done.take(digits.len() - k) =~= done.take(digits.len() - k - 1).push(digits@[k as int]));
    }
    assert(done.take(digits.len() as int) =~= done);
    out
}

/// The 32-bit number that a text denotes, if it denotes one.
pub fn parse_u32(src: &Vec<char>) -> (r: Option<u32>)
    ensures
        r == parse_u32_text(src@),
{
    let start: usize = if src.len() > 0 && src[0] == '+' {
        1
    } else {
        0
    };
    let ghost body = unsigned_part(src@);
    assert(body =~= src@.skip(start as int));
    if start == src.len() {
        return None;
    }
    let mut acc: u64 = 0;
    let mut i: usize = start;
    assert(body.take(0) =~= Seq::<char>::empty());
    while i < src.len()
        invariant
            start <= i <= src.len(),
            body == src@.skip(start as int),
            body == unsigned_part(src@),
            all_digits(body.take(i - start)),
            acc == digits_value(body.take(i - start)),
            acc <= u32::MAX,
        decreases src.len() - i,
    {
        let c = src[i];
        let ghost seen = body.take(i - start + 1);
        proof {
            assert(seen.drop_last() =~= body.take(i - start));
            assert(seen.last() == c);
        }
        if !('0' <= c && c <= '9') {
            assert(body[i - start] == c);
            return None;
        }
        let d: u64 = (c as u8 - 48) as u64;
        acc = acc * 10 + d;
        assert forall|j: int| 0 <= j < seen.len() implies is_digit(#[trigger] seen[j]) by {
            if j < seen.len() - 1 {
                assert(seen[j] == body.take(i - start)[j]);
            }
        }
        if acc > 0xFFFF_FFFF {
            proof {
                assert(body.take(i - start + 1) == seen);
                if all_digits(body) {
                    lemma_digits_value_grows(body, i - start + 1);
                }
            }
            return None;
        }
        i += 1;
    }
    assert(body.take(body.len() as int) =~= body);
    Some(acc as u32)
}

} // verus!
