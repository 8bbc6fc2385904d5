//! Decimal integers as `str::parse` reads them, and the fixed-point numbers
//! (`Floating`) that the relay derives from the text of a JSON number.

use vstd::prelude::*;
use crate::text::chars_of;

verus! {

/// An ASCII decimal digit.
pub open spec fn is_digit(c: char) -> bool {
    '0' <= c && c <= '9'
}

/// The value of a decimal digit.
pub open spec fn digit_value(c: char) -> int {
    (c as int) - ('0' as int)
}

/// Every character is a decimal digit.
pub open spec fn all_digits(s: Seq<char>) -> bool {
    forall|i: int| 0 <= i < s.len() ==> is_digit(#[trigger] s[i])
}

/// The value of a string of decimal digits, most significant first.
pub open spec fn digits_value(s: Seq<char>) -> int
    decreases s.len(),
{
    if s.len() == 0 {
        0
    } else {
        digits_value(s.drop_last()) * 10 + digit_value(s.last())
    }
}

/// The integer written in `s` with an optional leading `+` or `-` and at
/// least one digit, before any range check: what `FromStr` accepts for a
/// signed integer type.
pub open spec fn signed_decimal(s: Seq<char>) -> Option<int> {
    if s.len() > 0 && (s[0] == '-' || s[0] == '+') {
        let d = s.drop_first();
        if d.len() > 0 && all_digits(d) {
            Some(if s[0] == '-' { -digits_value(d) } else { digits_value(d) })
        } else {
            None
        }
    } else if s.len() > 0 && all_digits(s) {
        Some(digits_value(s))
    } else {
        None
    }
}

/// The same for an unsigned integer type: an optional leading `+`, no `-`.
pub open spec fn unsigned_decimal(s: Seq<char>) -> Option<int> {
    if s.len() > 0 && s[0] == '-' {
        None
    } else {
        signed_decimal(s)
    }
}

/// `v` if it lies in `lo..=hi`.
pub open spec fn within(v: Option<int>, lo: int, hi: int) -> Option<int> {
    match v {
        Some(x) => if lo <= x && x <= hi { Some(x) } else { None },
        None => None,
    }
}

/// What `s.parse::<i128>()` gives, as an integer.
pub open spec fn parsed_i128(s: Seq<char>) -> Option<int> {
    within(signed_decimal(s), i128::MIN as int, i128::MAX as int)
}

/// What `s.parse::<i32>()` gives, as an integer.
pub open spec fn parsed_i32(s: Seq<char>) -> Option<int> {
    within(signed_decimal(s), i32::MIN as int, i32::MAX as int)
}

/// What `s.parse::<u64>()` gives, as an integer.
pub open spec fn parsed_u64(s: Seq<char>) -> Option<int> {
    within(unsigned_decimal(s), 0, u64::MAX as int)
}

/// A prefix of a digit string never has a larger value.
pub proof fn lemma_digits_prefix(s: Seq<char>, k: int)
    requires
        all_digits(s),
        0 <= k <= s.len(),
    ensures
        0 <= digits_value(s.take(k)) <= digits_value(s),
    decreases s.len(),
{
    if s.len() == 0 {
        assert(s.take(k) =~= s);
    } else if k == s.len() {
        assert(s.take(k) =~= s);
        lemma_digits_prefix(s.drop_last(), k - 1);
        assert(is_digit(s[s.len() - 1]));
    } else {
        assert(s.take(k) =~= s.drop_last().take(k));
        lemma_digits_prefix(s.drop_last(), k);
        assert(is_digit(s[s.len() - 1]));
    }
}

/// Reads the digits `v[start..]` into a `u128`; `None` when one of them is
/// not a digit or the value does not fit.
fn read_digits(v: &Vec<char>, start: usize) -> (r: Option<u128>)
    requires
        start <= v.len(),
    ensures
        match r {
            Some(m) => all_digits(v@.skip(start as int)) && m == digits_value(v@.skip(start as int)),
            None => !all_digits(v@.skip(start as int)) || digits_value(v@.skip(start as int))
                > u128::MAX,
        },
{
    let ghost rest = v@.skip(start as int);
    let mut acc: u128 = 0;
    let mut i: usize = start;
    assert(rest.take(0) =~= Seq::<char>::empty());
    while i < v.len()
        invariant
            start <= i <= v.len(),
            rest == v@.skip(start as int),
            all_digits(rest.take(i - start)),
            acc == digits_value(rest.take(i - start)),
        decreases v.len() - i,
    {
        let c = v[i];
        assert(rest[i - start] == c);
        if !('0' <= c && c <= '9') {
            assert(!is_digit(rest[i - start]));
            return None;
        }
        let d: u128 = (c as u32 - '0' as u32) as u128;
        assert(rest.take(i - start + 1).drop_last() =~= rest.take(i - start));
        assert(all_digits(rest.take(i - start + 1)));
        match acc.checked_mul(10) {
            Some(t) => match t.checked_add(d) {
                Some(n) => {
                    acc = n;
                },
                None => {
                    proof {
                        if all_digits(rest) {
                            lemma_digits_prefix(rest, i - start + 1);
                        }
                    }
                    return None;
                },
            },
            None => {
                proof {
                    if all_digits(rest) {
                        lemma_digits_prefix(rest, i - start + 1);
                    }
                }
                return None;
            },
        }
        i = i + 1;
    }
    assert(rest.take(i - start) =~= rest);
    Some(acc)
}

/// `s.parse::<i128>().ok()`.
pub fn parse_i128(s: &str) -> (r: Option<i128>)
    ensures
        match r {
            Some(x) => parsed_i128(s@) == Some(x as int),
            None => parsed_i128(s@) is None,
        },
{
    let v = chars_of(s);
    parse_i128_chars(&v)
}

fn parse_i128_chars(v: &Vec<char>) -> (r: Option<i128>)
    ensures
        match r {
            Some(x) => parsed_i128(v@) == Some(x as int),
            None => parsed_i128(v@) is None,
        },
{
    if v.len() == 0 {
        return None;
    }
    let negative = v[0] == '-';
    let start: usize = if v[0] == '-' || v[0] == '+' { 1 } else { 0 };
    if start == v.len() {
        return None;
    }
    assert(start == 1 ==> v@.skip(1) =~= v@.drop_first());
    assert(v@.skip(0) =~= v@);
    match read_digits(v, start) {
        None => None,
        Some(m) => {
            if negative {
                if m < 170141183460469231731687303715884105728u128 {
                    Some(-(m as i128))
                } else if m == 170141183460469231731687303715884105728u128 {
                    Some(i128::MIN)
                } else {
                    None
                }
            } else if m <= 170141183460469231731687303715884105727u128 {
                Some(m as i128)
            } else {
                None
            }
        },
    }
}

/// `s.parse::<i32>().ok()`.
pub fn parse_i32(s: &str) -> (r: Option<i32>)
    ensures
        match r {
            Some(x) => parsed_i32(s@) == Some(x as int),
            None => parsed_i32(s@) is None,
        },
{
    match parse_i128(s) {
        Some(x) => if -2147483648i128 <= x && x <= 2147483647i128 {
            Some(x as i32)
        } else {
            None
        },
        None => None,
    }
}

/// `s.parse::<u64>().ok()`.
pub fn parse_u64(s: &str) -> (r: Option<u64>)
    ensures
        match r {
            Some(x) => parsed_u64(s@) == Some(x as int),
            None => parsed_u64(s@) is None,
        },
{
    let v = chars_of(s);
    if v.len() > 0 && v[0] == '-' {
        return None;
    }
    match parse_i128_chars(&v) {
        Some(x) => if 0i128 <= x && x <= 18446744073709551615i128 {
            Some(x as u64)
        } else {
            None
        },
        None => None,
    }
}


/// The pieces of `s` between the `'.'` characters, as `str::split('.')` yields them.
pub open spec fn dot_pieces(s: Seq<char>) -> Seq<Seq<char>>
    decreases s.len(),
{
    if s.len() == 0 {
        seq![Seq::<char>::empty()]
    } else {
        let p = dot_pieces(s.drop_last());
        if s.last() == '.' {
            p.push(Seq::<char>::empty())
        } else {
            p.update(p.len() - 1, p.last().push(s.last()))
        }
    }
}

/// `s` with every `'.'` removed, as `str::replace('.', "")` gives it.
pub open spec fn without_dots(s: Seq<char>) -> Seq<char>
    decreases s.len(),
{
    if s.len() == 0 {
        s
    } else if s.last() == '.' {
        without_dots(s.drop_last())
    } else {
        without_dots(s.drop_last()).push(s.last())
    }
}

/// The number of bytes of the UTF-8 encoding of a character.
pub open spec fn utf8_width(c: char) -> int {
    if (c as u32) <= 0x7f {
        1
    } else if (c as u32) <= 0x7ff {
        2
    } else if (c as u32) <= 0xffff {
        3
    } else {
        4
    }
}

/// The number of bytes of the UTF-8 encoding of `s`, what `str::len` counts.
pub open spec fn utf8_len(s: Seq<char>) -> int
    decreases s.len(),
{
    if s.len() == 0 {
        0
    } else {
        utf8_len(s.drop_last()) + utf8_width(s.last())
    }
}

/// The piece after the first `'.'` and before the second one, or the empty
/// piece when there is no `'.'`: `split('.').nth(1).unwrap_or("")`.
pub open spec fn fraction_piece(s: Seq<char>) -> Seq<char> {
    let p = dot_pieces(s);
    if p.len() > 1 {
        p[1]
    } else {
        Seq::<char>::empty()
    }
}

/// The number of fraction digits that the relay records for a number's text:
/// the byte length of `fraction_piece`, cast to `u8`.
pub open spec fn fraction_width(s: Seq<char>) -> u8 {
    (utf8_len(fraction_piece(s)) % 256) as u8
}

/// A fixed-point number: `decimal` scaled down by `10^floating_point`.
#[derive(Debug, Clone, Copy, PartialEq, Eq)]
pub struct Floating {
    pub decimal: i128,
    pub floating_point: u8,
}

proof fn lemma_dot_pieces_len(s: Seq<char>)
    ensures
        dot_pieces(s).len() >= 1,
    decreases s.len(),
{
    if s.len() > 0 {
        lemma_dot_pieces_len(s.drop_last());
    }
}

fn char_width(c: char) -> (w: u16)
    ensures
        w == utf8_width(c),
{
    let u = c as u32;
    if u <= 0x7f {
        1
    } else if u <= 0x7ff {
        2
    } else if u <= 0xffff {
        3
    } else {
        4
    }
}

/// `floating_point` of the relay's conversion: `split('.').nth(1).unwrap_or("").len() as u8`.
pub fn fraction_digits(text: &str) -> (r: u8)
    ensures
        r == fraction_width(text@),
{
    let v = chars_of(text);
    let mut dots: usize = 0;
    let mut width: u16 = 0;
    let mut i: usize = 0;
    proof {
        assert(v@.take(0) =~= Seq::<char>::empty());
    }
    while i < v.len()
        invariant
            v@ == text@,
            i <= v.len(),
            dots <= i,
            width < 256,
            dot_pieces(v@.take(i as int)).len() == dots + 1,
            width == (if dots >= 1 { utf8_len(dot_pieces(v@.take(i as int))[1]) } else { 0 }) % 256,
        decreases v.len() - i,
    {
        let c = v[i];
        let ghost before = v@.take(i as int);
        let ghost p = dot_pieces(before);
        assert(v@.take(i + 1).drop_last() =~= before);
        assert(v@.take(i + 1).last() == c);
        if c == '.' {
            dots = dots + 1;
        } else if dots == 1 {
            let w = char_width(c);
            let ghost a = utf8_len(p[1]);
            assert(p[1].push(c).drop_last() =~= p[1]);
            assert(utf8_len(p[1].push(c)) == a + utf8_width(c));
            assert((a % 256 + w) % 256 == (a + w) % 256) by {
                vstd::arithmetic::div_mod::lemma_add_mod_noop(a, w as int, 256);
                vstd::arithmetic::div_mod::lemma_small_mod(w as nat, 256);
            }
            width = (width + w) % 256;
        }
        i = i + 1;
    }
    assert(v@.take(v.len() as int) =~= v@);
    width as u8
}

/// `text.replace('.', "")`, as characters.
fn chars_without_dots(text: &str) -> (r: Vec<char>)
    ensures
        r@ == without_dots(text@),
{
    let v = chars_of(text);
    let mut out: Vec<char> = Vec::new();
    let mut i: usize = 0;
    proof {
        assert(v@.take(0) =~= Seq::<char>::empty());
    }
    while i < v.len()
        invariant
            v@ == text@,
            i <= v.len(),
            out@ == without_dots(v@.take(i as int)),
        decreases v.len() - i,
    {
        assert(v@.take(i + 1).drop_last() =~= v@.take(i as int));
        if v[i] != '.' {
            out.push(v[i]);
        }
        i = i + 1;
    }
    assert(v@.take(v.len() as int) =~= v@);
    out
}

/// `text.replace('.', "").parse::<i128>().ok()`: the digits of a number's
/// text read as one integer.
pub fn decimal_digits(text: &str) -> (r: Option<i128>)
    ensures
        match r {
            Some(x) => parsed_i128(without_dots(text@)) == Some(x as int),
            None => parsed_i128(without_dots(text@)) is None,
        },
{
    let v = chars_without_dots(text);
    parse_i128_chars(&v)
}

/// The `Floating` for a number's text, or `None` where its digits do not
/// read as an integer (where the relay stops on `unwrap`).
pub fn parse_floating(text: &str) -> (r: Option<Floating>)
    ensures
        match r {
            Some(f) => parsed_i128(without_dots(text@)) == Some(f.decimal as int)
                && f.floating_point == fraction_width(text@),
            None => parsed_i128(without_dots(text@)) is None,
        },
{
    match decimal_digits(text) {
        Some(d) => Some(Floating { decimal: d, floating_point: fraction_digits(text) }),
        None => None,
    }
}

/// The `Floating` for a number's text, with `decimal` 0 where the digits do
/// not read as an integer (`unwrap_or(0)`).
pub fn floating_or_zero(text: &str) -> (f: Floating)
    ensures
        f.floating_point == fraction_width(text@),
        f.decimal as int == match parsed_i128(without_dots(text@)) {
            Some(x) => x,
            None => 0,
        },
{
    let d = match decimal_digits(text) {
        Some(d) => d,
        None => 0,
    };
    Floating { decimal: d, floating_point: fraction_digits(text) }
}


/// No character is a `'.'`.
pub open spec fn dot_free(s: Seq<char>) -> bool {
    forall|i: int| 0 <= i < s.len() ==> s[i] != '.'
}

proof fn lemma_without_dots_concat(s: Seq<char>, t: Seq<char>)
    ensures
        without_dots(s + t) == without_dots(s) + without_dots(t),
    decreases t.len(),
{
    if t.len() == 0 {
        assert(s + t =~= s);
        assert(without_dots(s) + without_dots(t) =~= without_dots(s));
    } else {
        assert((s + t).drop_last() =~= s + t.drop_last());
        lemma_without_dots_concat(s, t.drop_last());
        if t.last() == '.' {
        } else {
            assert(without_dots(s) + without_dots(t.drop_last()).push(t.last()) =~= (without_dots(s)
                + without_dots(t.drop_last())).push(t.last()));
        }
    }
}

proof fn lemma_without_dots_dot_free(s: Seq<char>)
    requires
        dot_free(s),
    ensures
        without_dots(s) == s,
    decreases s.len(),
{
    if s.len() > 0 {
        lemma_without_dots_dot_free(s.drop_last());
        assert(s.drop_last().push(s.last()) =~= s);
    }
}

proof fn lemma_dot_pieces_dot_free(s: Seq<char>)
    requires
        dot_free(s),
    ensures
        dot_pieces(s) == seq![s],
    decreases s.len(),
{
    if s.len() == 0 {
        assert(s =~= Seq::<char>::empty());
        assert(seq![Seq::<char>::empty()] =~= seq![s]);
    } else {
        lemma_dot_pieces_dot_free(s.drop_last());
        assert(s.drop_last().push(s.last()) =~= s);
        assert(seq![s.drop_last()].update(0, s.drop_last().push(s.last())) =~= seq![s]);
    }
}

proof fn lemma_dot_pieces_split(a: Seq<char>, f: Seq<char>)
    requires
        dot_free(a),
        dot_free(f),
    ensures
        dot_pieces(a + seq!['.'] + f) == seq![a, f],
    decreases f.len(),
{
    if f.len() == 0 {
        lemma_dot_pieces_dot_free(a);
        assert((a + seq!['.'] + f).drop_last() =~= a);
        assert(f =~= Seq::<char>::empty());
        assert(seq![a].push(Seq::<char>::empty()) =~= seq![a, f]);
    } else {
        lemma_dot_pieces_split(a, f.drop_last());
        assert((a + seq!['.'] + f).drop_last() =~= a + seq!['.'] + f.drop_last());
        assert(f.drop_last().push(f.last()) =~= f);
        assert(seq![a, f.drop_last()].update(1, f.drop_last().push(f.last())) =~= seq![a, f]);
    }
}

proof fn lemma_utf8_len_digits(f: Seq<char>)
    requires
        all_digits(f),
    ensures
        utf8_len(f) == f.len(),
    decreases f.len(),
{
    if f.len() > 0 {
        assert(all_digits(f.drop_last()));
        lemma_utf8_len_digits(f.drop_last());
        assert(is_digit(f[f.len() - 1]));
    }
}

/// The fixed-point form of a number's text: for the text of a number with a
/// fraction, `[-]digits.fraction`, the `Floating` holds the digits of both
/// parts as one integer (negated after a `-`) and the number of fraction
/// digits, so that it stands for `decimal / 10^floating_point`, the number
/// that the text writes.
pub proof fn lemma_floating_is_fixed_point(negative: bool, whole: Seq<char>, fraction: Seq<char>)
    requires
        whole.len() > 0,
        all_digits(whole),
        all_digits(fraction),
        fraction.len() < 256,
        digits_value(whole + fraction) <= i128::MAX,
    ensures
        ({
            let text = (if negative { seq!['-'] } else { Seq::<char>::empty() }) + whole + seq!['.']
                + fraction;
            &&& parsed_i128(without_dots(text)) == Some(
                if negative { -digits_value(whole + fraction) } else { digits_value(whole + fraction) },
            )
            &&& fraction_width(text) as int == fraction.len()
        }),
{
    let sign = if negative { seq!['-'] } else { Seq::<char>::empty() };
    let a = sign + whole;
    let text = a + seq!['.'] + fraction;
    assert(sign + whole + seq!['.'] + fraction =~= text);
    assert(dot_free(a)) by {
        assert forall|i: int| 0 <= i < a.len() implies a[i] != '.' by {
            if i >= sign.len() {
                assert(is_digit(whole[i - sign.len()]));
            }
        }
    }
    assert(dot_free(fraction)) by {
        assert forall|i: int| 0 <= i < fraction.len() implies fraction[i] != '.' by {
            assert(is_digit(fraction[i]));
        }
    }
    lemma_without_dots_concat(a + seq!['.'], fraction);
    lemma_without_dots_concat(a, seq!['.']);
    lemma_without_dots_dot_free(a);
    lemma_without_dots_dot_free(fraction);
    assert(without_dots(seq!['.']) =~= Seq::<char>::empty()) by {
        assert(seq!['.'].drop_last() =~= Seq::<char>::empty());
        assert(seq!['.'].last() == '.');
        assert(without_dots(Seq::<char>::empty()) == Seq::<char>::empty());
    }
    assert(a + Seq::<char>::empty() =~= a);
    assert(without_dots(text) =~= a + fraction);
    lemma_dot_pieces_split(a, fraction);
    lemma_utf8_len_digits(fraction);
    let digits = whole + fraction;
    assert(all_digits(digits)) by {
        assert forall|i: int| 0 <= i < digits.len() implies is_digit(#[trigger] digits[i]) by {
            if i < whole.len() {
                assert(is_digit(whole[i]));
            } else {
                assert(is_digit(fraction[i - whole.len()]));
            }
        }
    }
    lemma_digits_prefix(digits, 0);
    if negative {
        assert(a + fraction =~= seq!['-'] + digits);
        assert((seq!['-'] + digits).drop_first() =~= digits);
    } else {
        assert(a + fraction =~= digits);
        assert(is_digit(digits[0]));
    }
}

} // verus!
