//! Decimal text for the numbers that appear in tool arguments and file names.

use vstd::prelude::*;

verus! {

/// The character of one decimal digit.
pub open spec fn digit_char(d: int) -> char {
    if d == 0 {
        '0'
    } else if d == 1 {
        '1'
    } else if d == 2 {
        '2'
    } else if d == 3 {
        '3'
    } else if d == 4 {
        '4'
    } else if d == 5 {
        '5'
    } else if d == 6 {
        '6'
    } else if d == 7 {
        '7'
    } else if d == 8 {
        '8'
    } else {
        '9'
    }
}

/// Whether `c` is one of the ten decimal digits.
pub open spec fn is_digit(c: char) -> bool {
    c == '0' || c == '1' || c == '2' || c == '3' || c == '4' || c == '5' || c == '6' || c == '7'
        || c == '8' || c == '9'
}

/// The decimal numeral of `n`, without leading zeros.
pub open spec fn decimal(n: nat) -> Seq<char>
    decreases n,
{
    if n < 10 {
        seq![digit_char(n as int)]
    } else {
        decimal(n / 10).push(digit_char((n % 10) as int))
    }
}

/// The decimal numeral of `v`, with a leading minus sign when negative.
pub open spec fn signed_decimal(v: int) -> Seq<char> {
    if v < 0 {
        seq!['-'] + decimal((-v) as nat)
    } else {
        decimal(v as nat)
    }
}

/// The last `width` decimal digits of `f`, zero padded on the left.
pub open spec fn zero_padded(f: nat, width: nat) -> Seq<char>
    decreases width,
{
    if width == 0 {
        Seq::empty()
    } else {
        zero_padded(f / 10, (width - 1) as nat).push(digit_char((f % 10) as int))
    }
}

/// The digits after the decimal point of `f / 10^width`, without trailing
/// zeros. Empty when the fraction is zero.
pub open spec fn fraction_digits(f: nat, width: nat) -> Seq<char>
    decreases width,
{
    if width == 0 {
        Seq::empty()
    } else if f % 10 == 0 {
        fraction_digits(f / 10, (width - 1) as nat)
    } else {
        zero_padded(f, width)
    }
}

/// The shortest decimal text of `v` millionths: `2500000` is `2.5`, `5000000`
/// is `5`, `1` is `0.000001`.
pub open spec fn millionths(v: nat) -> Seq<char> {
    if v % 1_000_000 == 0 {
        decimal(v / 1_000_000)
    } else {
        decimal(v / 1_000_000) + seq!['.'] + fraction_digits(v % 1_000_000, 6)
    }
}

/// The shortest decimal text of a signed count of millionths.
pub open spec fn signed_millionths(v: int) -> Seq<char> {
    if v < 0 {
        seq!['-'] + millionths((-v) as nat)
    } else {
        millionths(v as nat)
    }
}

/// A decimal numeral is not empty and holds digits only.
pub proof fn lemma_decimal_is_digits(n: nat)
    ensures
        decimal(n).len() >= 1,
        forall|i: int| 0 <= i < decimal(n).len() ==> is_digit(#[trigger] decimal(n)[i]),
    decreases n,
{
    if n >= 10 {
        lemma_decimal_is_digits(n / 10);
    }
}

proof fn lemma_digit_injective(x: int, y: int)
    requires
        0 <= x < 10,
        0 <= y < 10,
        digit_char(x) == digit_char(y),
    ensures
        x == y,
{
}

/// Different numbers have different numerals.
pub proof fn lemma_decimal_injective(a: nat, b: nat)
    requires
        decimal(a) == decimal(b),
    ensures
        a == b,
    decreases a,
{
    lemma_decimal_is_digits(a / 10);
    lemma_decimal_is_digits(b / 10);
    if a < 10 && b < 10 {
        assert(decimal(a)[0] == digit_char(a as int));
        assert(decimal(b)[0] == digit_char(b as int));
        lemma_digit_injective(a as int, b as int);
    } else if a < 10 {
        assert(decimal(a).len() == 1);
        assert(decimal(b).len() == decimal(b / 10).len() + 1);
    } else if b < 10 {
        assert(decimal(b).len() == 1);
        assert(decimal(a).len() == decimal(a / 10).len() + 1);
    } else {
        let da = decimal(a / 10);
        let db = decimal(b / 10);
        assert(decimal(a) == da.push(digit_char((a % 10) as int)));
        assert(decimal(b) == db.push(digit_char((b % 10) as int)));
        assert(decimal(a).last() == digit_char((a % 10) as int));
        assert(decimal(b).last() == digit_char((b % 10) as int));
        lemma_digit_injective((a % 10) as int, (b % 10) as int);
        assert(decimal(a).drop_last() =~= da);
        assert(decimal(b).drop_last() =~= db);
        lemma_decimal_injective(a / 10, b / 10);
    }
}

/// A numeral between fixed words tells its number: texts of that shape
/// agree only when their numbers agree.
pub proof fn lemma_numbered_injective(prefix: Seq<char>, a: nat, b: nat, suffix: Seq<char>)
    requires
        prefix + decimal(a) + suffix == prefix + decimal(b) + suffix,
    ensures
        a == b,
{
    let x = prefix + decimal(a) + suffix;
    let y = prefix + decimal(b) + suffix;
    assert(x.len() == y.len());
    assert(decimal(a).len() == decimal(b).len());
    assert forall|i: int| 0 <= i < decimal(a).len() implies decimal(a)[i] == decimal(b)[i] by {
        assert(x[prefix.len() + i] == decimal(a)[i]);
        assert(y[prefix.len() + i] == decimal(b)[i]);
    }
    assert(decimal(a) =~= decimal(b));
    lemma_decimal_injective(a, b);
}

/// A numeral followed by a character that is no digit tells its number,
/// whatever comes after: `head + decimal(a) + [stop] + ...` and
/// `head + decimal(b) + [stop] + ...` agree only when `a` is `b`.
pub proof fn lemma_stopped_numeral_injective(
    head: Seq<char>,
    a: nat,
    b: nat,
    stop: char,
    rest_a: Seq<char>,
    rest_b: Seq<char>,
)
    requires
        !is_digit(stop),
        head + decimal(a) + seq![stop] + rest_a == head + decimal(b) + seq![stop] + rest_b,
    ensures
        a == b,
{
    let x = head + decimal(a) + seq![stop] + rest_a;
    let y = head + decimal(b) + seq![stop] + rest_b;
    let la = decimal(a).len() as int;
    let lb = decimal(b).len() as int;
    lemma_decimal_is_digits(a);
    lemma_decimal_is_digits(b);
    assert(x[head.len() + la] == stop);
    assert(y[head.len() + lb] == stop);
    if la < lb {
        assert(y[head.len() + la] == decimal(b)[la]);
        assert(is_digit(decimal(b)[la]));
    } else if lb < la {
        assert(x[head.len() + lb] == decimal(a)[lb]);
        assert(is_digit(decimal(a)[lb]));
    }
    assert forall|i: int| 0 <= i < la implies decimal(a)[i] == decimal(b)[i] by {
        assert(x[head.len() + i] == decimal(a)[i]);
        assert(y[head.len() + i] == decimal(b)[i]);
    }
    assert(decimal(a) =~= decimal(b));
    lemma_decimal_injective(a, b);
}

/// The contents of an optional text.
pub open spec fn option_text(o: Option<String>) -> Option<Seq<char>> {
    match o {
        Some(s) => Some(s@),
        None => None,
    }
}

/// The text that a run of bytes stands for when every ill-formed UTF-8
/// sequence in it is read as U+FFFD.
pub uninterp spec fn lossy_text(bytes: Seq<u8>) -> Seq<char>;

/// `String::from_utf8_lossy` of std: the bytes decoded as UTF-8, with the
/// replacement character in place of each ill-formed sequence. The result
/// depends on the bytes alone.
#[verifier::external_body]
pub(crate) fn decode_lossy(bytes: &Vec<u8>) -> (text: String)
    ensures
        text@ == lossy_text(bytes@),
{
    String::from_utf8_lossy(bytes).into_owned()
}

/// The text without the white space at its two ends, white space being what
/// Unicode marks as such.
pub uninterp spec fn trimmed(text: Seq<char>) -> Seq<char>;

/// `str::trim` of std: the text with leading and trailing white space
/// removed. The result depends on the text alone.
#[verifier::external_body]
pub(crate) fn trim_text(text: &str) -> (r: String)
    ensures
        r@ == trimmed(text@),
{
    text.trim().to_string()
}

fn digit_str(d: u8) -> (s: &'static str)
    requires
        d < 10,
    ensures
        s@ == seq![digit_char(d as int)],
{
    proof {
        reveal_strlit("0");
        reveal_strlit("1");
        reveal_strlit("2");
        reveal_strlit("3");
        reveal_strlit("4");
        reveal_strlit("5");
        reveal_strlit("6");
        reveal_strlit("7");
        reveal_strlit("8");
        reveal_strlit("9");
    }
    let s = if d == 0 {
        "0"
    } else if d == 1 {
        "1"
    } else if d == 2 {
        "2"
    } else if d == 3 {
        "3"
    } else if d == 4 {
        "4"
    } else if d == 5 {
        "5"
    } else if d == 6 {
        "6"
    } else if d == 7 {
        "7"
    } else if d == 8 {
        "8"
    } else {
        "9"
    };
    assert(s@ =~= seq![digit_char(d as int)]);
    s
}

/// Renders `n` as a decimal numeral.
pub fn render_decimal(n: u128) -> (s: String)
    ensures
        s@ == decimal(n as nat),
    decreases n,
{
    if n < 10 {
        String::from_str(digit_str(n as u8))
    } else {
        let mut s = render_decimal(n / 10);
        s.append(digit_str((n % 10) as u8));
        assert(s@ =~= decimal(n as nat));
        s
    }
}

/// Renders a position in a list as a decimal numeral.
pub fn render_index(i: usize) -> (s: String)
    ensures
        s@ == decimal(i as nat),
{
    render_decimal(i as u128)
}

/// Renders a signed integer as a decimal numeral.
pub fn render_signed(v: i64) -> (s: String)
    ensures
        s@ == signed_decimal(v as int),
{
    if v < 0 {
        let m: u128 = ((-(v + 1)) as u128) + 1;
        let digits = render_decimal(m);
        let mut s = String::from_str("-");
        s.append(digits.as_str());
        proof {
            reveal_strlit("-");
            assert(s@ =~= signed_decimal(v as int));
        }
        s
    } else {
        render_decimal(v as u128)
    }
}

/// Renders `prefix`, the decimal numeral of `i`, and `suffix`, in a row.
pub fn numbered(prefix: &str, i: usize, suffix: &str) -> (s: String)
    ensures
        s@ == prefix@ + decimal(i as nat) + suffix@,
{
    let mut s = String::from_str(prefix);
    let digits = render_index(i);
    s.append(digits.as_str());
    s.append(suffix);
    s
}

fn render_zero_padded(f: u32, width: u8) -> (s: String)
    ensures
        s@ == zero_padded(f as nat, width as nat),
    decreases width,
{
    if width == 0 {
        String::new()
    } else {
        let mut s = render_zero_padded(f / 10, width - 1);
        s.append(digit_str((f % 10) as u8));
        assert(s@ =~= zero_padded(f as nat, width as nat));
        s
    }
}

fn render_fraction(f: u32, width: u8) -> (s: String)
    ensures
        s@ == fraction_digits(f as nat, width as nat),
    decreases width,
{
    if width == 0 {
        String::new()
    } else if f % 10 == 0 {
        render_fraction(f / 10, width - 1)
    } else {
        render_zero_padded(f, width)
    }
}

fn render_unsigned_millionths(v: u128) -> (s: String)
    ensures
        s@ == millionths(v as nat),
{
    let mut s = render_decimal(v / 1_000_000);
    let f: u32 = (v % 1_000_000) as u32;
    if f != 0 {
        let digits = render_fraction(f, 6);
        s.append(".");
        s.append(digits.as_str());
        proof {
            reveal_strlit(".");
            assert(s@ =~= millionths(v as nat));
        }
    }
    s
}

/// Renders a signed count of millionths as the shortest decimal text.
pub fn render_millionths(v: i128) -> (s: String)
    ensures
        s@ == signed_millionths(v as int),
{
    if v < 0 {
        let m: u128 = ((-(v + 1)) as u128) + 1;
        let digits = render_unsigned_millionths(m);
        let mut s = String::from_str("-");
        s.append(digits.as_str());
        proof {
            reveal_strlit("-");
            assert(s@ =~= signed_millionths(v as int));
        }
        s
    } else {
        render_unsigned_millionths(v as u128)
    }
}

} // verus!
