//! Text helpers shared by the labels the interface shows: Unicode white-space
//! trimming and decimal rendering of integers.
use vstd::prelude::*;

verus! {

/// The Unicode `White_Space` property, the set that `char::is_whitespace`
/// tests for.
pub open spec fn is_white_space(c: char) -> bool {
    let u = c as u32;
    ||| 0x9 <= u <= 0xD
    ||| u == 0x20
    ||| u == 0x85
    ||| u == 0xA0
    ||| u == 0x1680
    ||| 0x2000 <= u <= 0x200A
    ||| u == 0x2028
    ||| u == 0x2029
    ||| u == 0x202F
    ||| u == 0x205F
    ||| u == 0x3000
}

/// The number of white-space characters `s` starts with.
pub open spec fn leading_white_space(s: Seq<char>) -> nat
    decreases s.len(),
{
    if s.len() > 0 && is_white_space(s[0]) {
        1 + leading_white_space(s.drop_first())
    } else {
        0
    }
}

/// The number of white-space characters `s` ends with.
pub open spec fn trailing_white_space(s: Seq<char>) -> nat
    decreases s.len(),
{
    if s.len() > 0 && is_white_space(s.last()) {
        1 + trailing_white_space(s.drop_last())
    } else {
        0
    }
}

/// `s` without its leading and trailing white space, as `str::trim` gives it.
pub open spec fn trimmed(s: Seq<char>) -> Seq<char> {
    let rest = s.subrange(leading_white_space(s) as int, s.len() as int);
    rest.subrange(0, rest.len() - trailing_white_space(rest))
}

/// Whether `s` holds nothing but white space.
pub open spec fn is_blank(s: Seq<char>) -> bool {
    trimmed(s).len() == 0
}

/// The decimal digit for `d` (taken modulo ten).
pub open spec fn digit_char(d: nat) -> char {
    let r = d % 10;
    if r == 0 { '0' }
    else if r == 1 { '1' }
    else if r == 2 { '2' }
    else if r == 3 { '3' }
    else if r == 4 { '4' }
    else if r == 5 { '5' }
    else if r == 6 { '6' }
    else if r == 7 { '7' }
    else if r == 8 { '8' }
    else { '9' }
}

/// The decimal digits of `n`, most significant first, without leading zeros.
pub open spec fn decimal_digits(n: nat) -> Seq<char>
    decreases n,
{
    if n < 10 {
        seq![digit_char(n)]
    } else {
        decimal_digits(n / 10).push(digit_char(n % 10))
    }
}

/// `n` written in decimal, with a leading `-` when negative, as `Display`
/// prints integers.
pub open spec fn decimal(n: int) -> Seq<char> {
    if n < 0 {
        seq!['-'] + decimal_digits((-n) as nat)
    } else {
        decimal_digits(n as nat)
    }
}

proof fn lemma_leading_bound(s: Seq<char>)
    ensures
        leading_white_space(s) <= s.len(),
        leading_white_space(s) < s.len() ==> !is_white_space(s[leading_white_space(s) as int]),
    decreases s.len(),
{
    if s.len() > 0 && is_white_space(s[0]) {
        lemma_leading_bound(s.drop_first());
    }
}

proof fn lemma_trailing_bound(s: Seq<char>)
    ensures
        trailing_white_space(s) <= s.len(),
        trailing_white_space(s) < s.len() ==> !is_white_space(
            s[s.len() - 1 - trailing_white_space(s)],
        ),
    decreases s.len(),
{
    if s.len() > 0 && is_white_space(s.last()) {
        lemma_trailing_bound(s.drop_last());
    }
}

proof fn lemma_leading_all(s: Seq<char>)
    ensures
        (leading_white_space(s) == s.len()) <==> (forall|i: int|
            0 <= i < s.len() ==> is_white_space(#[trigger] s[i])),
    decreases s.len(),
{
    lemma_leading_bound(s);
    if s.len() > 0 && is_white_space(s[0]) {
        lemma_leading_all(s.drop_first());
        if forall|i: int| 0 <= i < s.drop_first().len() ==> is_white_space(#[trigger] s.drop_first()[i]) {
            assert forall|i: int| 0 <= i < s.len() implies is_white_space(#[trigger] s[i]) by {
                if i > 0 {
                    assert(s[i] == s.drop_first()[i - 1]);
                }
            }
        }
        if forall|i: int| 0 <= i < s.len() ==> is_white_space(#[trigger] s[i]) {
            assert forall|i: int| 0 <= i < s.drop_first().len() implies is_white_space(
                #[trigger] s.drop_first()[i],
            ) by {
                assert(s.drop_first()[i] == s[i + 1]);
            }
        }
    }
}

proof fn lemma_trailing_all(s: Seq<char>)
    ensures
        (trailing_white_space(s) == s.len()) <==> (forall|i: int|
            0 <= i < s.len() ==> is_white_space(#[trigger] s[i])),
    decreases s.len(),
{
    lemma_trailing_bound(s);
    if s.len() > 0 && is_white_space(s.last()) {
        lemma_trailing_all(s.drop_last());
        if forall|i: int| 0 <= i < s.drop_last().len() ==> is_white_space(#[trigger] s.drop_last()[i]) {
            assert forall|i: int| 0 <= i < s.len() implies is_white_space(#[trigger] s[i]) by {
                if i < s.len() - 1 {
                    assert(s[i] == s.drop_last()[i]);
                }
            }
        }
        if forall|i: int| 0 <= i < s.len() ==> is_white_space(#[trigger] s[i]) {
            assert forall|i: int| 0 <= i < s.drop_last().len() implies is_white_space(
                #[trigger] s.drop_last()[i],
            ) by {
                assert(s.drop_last()[i] == s[i]);
            }
        }
    }
}

/// A text is blank exactly when every character of it is white space.
pub proof fn lemma_blank_iff_all_white_space(s: Seq<char>)
    ensures
        is_blank(s) <==> (forall|i: int| 0 <= i < s.len() ==> is_white_space(#[trigger] s[i])),
{
    let a = leading_white_space(s);
    lemma_leading_bound(s);
    lemma_leading_all(s);
    let rest = s.subrange(a as int, s.len() as int);
    lemma_trailing_bound(rest);
    lemma_trailing_all(rest);
    if a < s.len() {
        assert(rest[0] == s[a as int]);
        assert(!is_white_space(rest[0]));
    }
}

/// A text that is not blank stays not blank whatever follows it.
pub proof fn lemma_not_blank_prefix(a: Seq<char>, b: Seq<char>)
    requires
        !is_blank(a),
    ensures
        !is_blank(a + b),
{
    lemma_blank_iff_all_white_space(a);
    lemma_blank_iff_all_white_space(a + b);
    let i = choose|i: int| 0 <= i < a.len() && !is_white_space(#[trigger] a[i]);
    assert((a + b)[i] == a[i]);
}

/// Trimming what is already trimmed changes nothing.
pub proof fn lemma_trimmed_idempotent(s: Seq<char>)
    ensures
        trimmed(trimmed(s)) == trimmed(s),
{
    let a = leading_white_space(s);
    lemma_leading_bound(s);
    let rest = s.subrange(a as int, s.len() as int);
    let b = trailing_white_space(rest);
    lemma_trailing_bound(rest);
    let t = trimmed(s);
    assert(t == rest.subrange(0, rest.len() - b));
    if t.len() > 0 {
        assert(t[0] == s[a as int]);
        assert(t.last() == rest[rest.len() - 1 - b]);
        assert(leading_white_space(t) == 0);
        assert(trailing_white_space(t) == 0);
        assert(t.subrange(0, t.len() as int) =~= t);
    } else {
        assert(t.subrange(0, 0) =~= t);
    }
}

/// Whether `c` is white space.
pub fn is_whitespace(c: char) -> (b: bool)
    ensures
        b == is_white_space(c),
        b <==> (c == '\t' || c == '\n' || c == '\u{0B}' || c == '\u{0C}' || c == '\r' || c == ' '
            || c == '\u{85}' || c == '\u{A0}' || c == '\u{1680}' || c == '\u{2000}' || c == '\u{2001}'
            || c == '\u{2002}' || c == '\u{2003}' || c == '\u{2004}' || c == '\u{2005}' || c == '\u{2006}'
            || c == '\u{2007}' || c == '\u{2008}' || c == '\u{2009}' || c == '\u{200A}' || c == '\u{2028}'
            || c == '\u{2029}' || c == '\u{202F}' || c == '\u{205F}' || c == '\u{3000}'),
{
    let u = c as u32;
    (0x9 <= u && u <= 0xD) || u == 0x20 || u == 0x85 || u == 0xA0 || u == 0x1680 || (0x2000 <= u
        && u <= 0x200A) || u == 0x2028 || u == 0x2029 || u == 0x202F || u == 0x205F || u == 0x3000
}

proof fn lemma_leading_step(s: Seq<char>, i: int)
    requires
        0 <= i < s.len(),
        is_white_space(s[i]),
    ensures
        leading_white_space(s.subrange(i, s.len() as int)) == 1 + leading_white_space(
            s.subrange(i + 1, s.len() as int),
        ),
{
    assert(s.subrange(i, s.len() as int).drop_first() =~= s.subrange(i + 1, s.len() as int));
}

proof fn lemma_trailing_step(s: Seq<char>, j: int)
    requires
        0 < j <= s.len(),
        is_white_space(s[j - 1]),
    ensures
        trailing_white_space(s.subrange(0, j)) == 1 + trailing_white_space(s.subrange(0, j - 1)),
{
    assert(s.subrange(0, j).drop_last() =~= s.subrange(0, j - 1));
}

/// `s` without leading and trailing white space.
pub fn trim(s: &str) -> (r: String)
    ensures
        r@ == trimmed(s@),
        exists|a: int, b: int|
            {
                &&& 0 <= a <= b <= s@.len()
                &&& r@ == s@.subrange(a, b)
                &&& forall|i: int| 0 <= i < a ==> is_white_space(#[trigger] s@[i])
                &&& forall|i: int| b <= i < s@.len() ==> is_white_space(#[trigger] s@[i])
                &&& a < b ==> !is_white_space(s@[a]) && !is_white_space(s@[b - 1])
            },
{
    proof {
        lemma_trimmed_shape(s@);
    }
    let n = s.unicode_len();
    proof {
        assert(s@.subrange(0, n as int) =~= s@);
    }
    let mut i: usize = 0;
    while i < n && is_whitespace(s.get_char(i))
        invariant
            n == s@.len(),
            i <= n,
            leading_white_space(s@) == i + leading_white_space(s@.subrange(i as int, n as int)),
        decreases n - i,
    {
        proof {
            lemma_leading_step(s@, i as int);
        }
        i = i + 1;
    }
    proof {
        if i < n {
            assert(s@.subrange(i as int, n as int)[0] == s@[i as int]);
        }
    }
    let ghost rest = s@.subrange(i as int, n as int);
    proof {
        assert(rest.subrange(0, n - i) =~= rest);
    }
    let mut j: usize = n;
    while j > i && is_whitespace(s.get_char(j - 1))
        invariant
            n == s@.len(),
            i <= j <= n,
            rest == s@.subrange(i as int, n as int),
            trailing_white_space(rest) == (n - j) + trailing_white_space(
                rest.subrange(0, j - i),
            ),
        decreases j - i,
    {
        proof {
            lemma_trailing_step(rest, (j - i) as int);
        }
        j = j - 1;
    }
    proof {
        assert(rest.subrange(0, rest.len() as int) =~= rest);
        if j > i {
            assert(rest.subrange(0, j - i).last() == s@[j - 1]);
        }
        assert(s@.subrange(i as int, j as int) =~= rest.subrange(0, rest.len() - trailing_white_space(rest)));
    }
    let piece = s.substring_char(i, j);
    String::from_str(piece)
}

fn digit_str(d: u64) -> (r: &'static str)
    requires
        d < 10,
    ensures
        r@ == seq![digit_char(d as nat)],
{
    proof {
        reveal_strlit("0");
        reveal_strlit("1");
        reveal_strlit("2");
        reveal_strlit("3");
        reveal_strlit("4");
        reveal_strlit("5");
        reveal_strlit("6");
        reveal_strlit("7");
        reveal_strlit("8");
        reveal_strlit("9");
    }
    if d == 0 {
        "0"
    } else if d == 1 {
        "1"
    } else if d == 2 {
        "2"
    } else if d == 3 {
        "3"
    } else if d == 4 {
        "4"
    } else if d == 5 {
        "5"
    } else if d == 6 {
        "6"
    } else if d == 7 {
        "7"
    } else if d == 8 {
        "8"
    } else {
        "9"
    }
}

fn append_decimal_digits(out: &mut String, n: u64)
    ensures
        final(out)@ == old(out)@ + decimal_digits(n as nat),
    decreases n,
{
    if n >= 10 {
        append_decimal_digits(out, n / 10);
    }
    out.append(digit_str(n % 10));
    proof {
        if n >= 10 {
            assert(decimal_digits(n as nat) == decimal_digits((n / 10) as nat).push(
                digit_char((n % 10) as nat),
            ));
        }
    }
}

/// `n` in decimal, as `n.to_string()` gives it.
pub fn decimal_string(n: i64) -> (r: String)
    ensures
        r@ == decimal(n as int),
        (r@.len() > 0 && r@[0] == '-') <==> n < 0,
        digits_value(if n < 0 { r@.drop_first() } else { r@ }) == if n < 0 { -n } else { n as int },
        forall|i: int| (if n < 0 { 1int } else { 0int }) <= i < r@.len() ==> is_digit(#[trigger] r@[i]),
        r@.len() > (if n < 0 { 1int } else { 0int }),
{
    proof {
        lemma_decimal_reads_back(n as int);
        if n < 0 {
            let t = decimal(n as int);
            let m = (-n) as nat;
            lemma_digits_read_back(m);
            assert(t.drop_first() =~= decimal_digits(m));
            assert forall|i: int| 1 <= i < t.len() implies is_digit(#[trigger] t[i]) by {
                assert(t[i] == decimal_digits(m)[i - 1]);
            }
        } else {
            lemma_digits_read_back(n as nat);
        }
    }
    let mut out = String::new();
    if n < 0 {
        proof {
            reveal_strlit("-");
        }
        out.append("-");
        let magnitude: u64 = if n == i64::MIN {
            0x8000_0000_0000_0000u64
        } else {
            (-n) as u64
        };
        append_decimal_digits(&mut out, magnitude);
    } else {
        append_decimal_digits(&mut out, n as u64);
    }
    out
}

proof fn lemma_leading_prefix_white(s: Seq<char>)
    ensures
        forall|i: int| 0 <= i < leading_white_space(s) ==> is_white_space(#[trigger] s[i]),
    decreases s.len(),
{
    if s.len() > 0 && is_white_space(s[0]) {
        lemma_leading_prefix_white(s.drop_first());
        lemma_leading_bound(s.drop_first());
        assert forall|i: int| 0 <= i < leading_white_space(s) implies is_white_space(#[trigger] s[i]) by {
            if i > 0 {
                assert(s[i] == s.drop_first()[i - 1]);
            }
        }
    }
}

proof fn lemma_trailing_suffix_white(s: Seq<char>)
    ensures
        forall|i: int| s.len() - trailing_white_space(s) <= i < s.len() ==> is_white_space(#[trigger] s[i]),
    decreases s.len(),
{
    if s.len() > 0 && is_white_space(s.last()) {
        lemma_trailing_suffix_white(s.drop_last());
        lemma_trailing_bound(s.drop_last());
        assert forall|i: int| s.len() - trailing_white_space(s) <= i < s.len() implies is_white_space(
            #[trigger] s[i],
        ) by {
            if i < s.len() - 1 {
                assert(s[i] == s.drop_last()[i]);
            }
        }
    }
}

/// Trimming cuts a run of white space off each end and nothing else: the
/// result is a contiguous piece of the text, everything cut off is white
/// space, and the result neither starts nor ends with white space.
pub proof fn lemma_trimmed_shape(s: Seq<char>)
    ensures
        exists|a: int, b: int|
            {
                &&& 0 <= a <= b <= s.len()
                &&& trimmed(s) == s.subrange(a, b)
                &&& forall|i: int| 0 <= i < a ==> is_white_space(#[trigger] s[i])
                &&& forall|i: int| b <= i < s.len() ==> is_white_space(#[trigger] s[i])
                &&& a < b ==> !is_white_space(s[a]) && !is_white_space(s[b - 1])
            },
{
    let a = leading_white_space(s) as int;
    lemma_leading_bound(s);
    lemma_leading_prefix_white(s);
    let rest = s.subrange(a, s.len() as int);
    let t = trailing_white_space(rest) as int;
    lemma_trailing_bound(rest);
    lemma_trailing_suffix_white(rest);
    let b = s.len() - t;
    assert(trimmed(s) =~= s.subrange(a, b));
    assert forall|i: int| b <= i < s.len() implies is_white_space(#[trigger] s[i]) by {
        assert(s[i] == rest[i - a]);
    }
    if a < b {
        assert(s[a] == rest[0]);
        assert(s[b - 1] == rest[rest.len() - 1 - t]);
    }
}

/// The value of a run of decimal digits, most significant first.
pub open spec fn digits_value(s: Seq<char>) -> int
    decreases s.len(),
{
    if s.len() == 0 {
        0
    } else {
        digits_value(s.drop_last()) * 10 + (s.last() as int - '0' as int)
    }
}

/// Whether `c` is one of the ten decimal digits.
pub open spec fn is_digit(c: char) -> bool {
    '0' as int <= c as int <= '9' as int
}

proof fn lemma_digit_char_value(d: nat)
    ensures
        digit_char(d) as int - '0' as int == d % 10,
        is_digit(digit_char(d)),
{
}

proof fn lemma_digits_read_back(n: nat)
    ensures
        digits_value(decimal_digits(n)) == n,
        forall|i: int| 0 <= i < decimal_digits(n).len() ==> is_digit(#[trigger] decimal_digits(n)[i]),
        decimal_digits(n).len() > 0,
        decimal_digits(n)[0] == '0' ==> n == 0,
    decreases n,
{
    lemma_digit_char_value(n % 10);
    lemma_digit_char_value(n);
    if n < 10 {
        let d = decimal_digits(n);
        assert(d.drop_last() =~= Seq::<char>::empty());
        assert(d.last() == digit_char(n));
        assert(digits_value(Seq::<char>::empty()) == 0);
        assert(digits_value(d) == digits_value(d.drop_last()) * 10 + (d.last() as int - '0' as int));
    } else {
        lemma_digits_read_back(n / 10);
        let d = decimal_digits(n);
        assert(d.drop_last() =~= decimal_digits(n / 10));
        assert(d[0] == decimal_digits(n / 10)[0]);
        assert(d.last() == digit_char(n % 10));
        assert(digits_value(d) == digits_value(d.drop_last()) * 10 + (d.last() as int - '0' as int));
        assert(n == (n / 10) * 10 + n % 10);
        assert forall|i: int| 0 <= i < d.len() implies is_digit(#[trigger] d[i]) by {
            if i < d.len() - 1 {
                assert(d[i] == decimal_digits(n / 10)[i]);
            }
        }
    }
}

/// Decimal text reads back as the number it was written from: a `-` exactly
/// for negative numbers, then digits only, with no leading zero, whose value is
/// the number's magnitude.
pub proof fn lemma_decimal_reads_back(n: int)
    ensures
        ({
            let text = decimal(n);
            let digits = if n < 0 { text.drop_first() } else { text };
            &&& (text.len() > 0 && text[0] == '-') <==> n < 0
            &&& digits.len() > 0
            &&& forall|i: int| 0 <= i < digits.len() ==> is_digit(#[trigger] digits[i])
            &&& digits[0] == '0' ==> n == 0
            &&& digits_value(digits) == if n < 0 { -n } else { n }
        }),
{
    if n < 0 {
        lemma_digits_read_back((-n) as nat);
        assert(decimal(n).drop_first() =~= decimal_digits((-n) as nat));
    } else {
        lemma_digits_read_back(n as nat);
    }
}

} // verus!
