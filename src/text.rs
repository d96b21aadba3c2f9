//! Decimal text of integers, and text comparison, over `Seq<char>` views.
use vstd::prelude::*;
use vstd::string::*;

verus! {

/// The character of the decimal digit `d` (0 to 9).
pub open spec fn digit_char(d: int) -> char {
    ((d + 48) as u8) as char
}

/// Whether `c` is an ASCII decimal digit.
pub open spec fn is_digit(c: char) -> bool {
    '0' <= c && c <= '9'
}

/// The value of an ASCII decimal digit.
pub open spec fn digit_value(c: char) -> int {
    (c as int) - 48
}

/// The digits of `n` in base ten, most significant first, with no leading zero.
pub open spec fn decimal_digits(n: nat) -> Seq<char>
    decreases n,
{
    if n < 10 {
        seq![digit_char(n as int)]
    } else {
        decimal_digits(n / 10).push(digit_char((n % 10) as int))
    }
}

/// The decimal text of `n`: a minus sign for negative values, then its digits.
pub open spec fn decimal(n: int) -> Seq<char> {
    if n < 0 {
        seq!['-'] + decimal_digits((-n) as nat)
    } else {
        decimal_digits(n as nat)
    }
}

/// `n` in at least `width` digits, padded on the left with zeros.
pub open spec fn zero_padded(n: nat, width: nat) -> Seq<char> {
    let digits = decimal_digits(n);
    if digits.len() < width {
        Seq::new((width - digits.len()) as nat, |i: int| '0') + digits
    } else {
        digits
    }
}

/// Whether `s` is a non-empty run of ASCII digits.
pub open spec fn all_digits(s: Seq<char>) -> bool {
    s.len() > 0 && forall|i: int| 0 <= i < s.len() ==> is_digit(#[trigger] s[i])
}

/// The value of a run of decimal digits.
pub open spec fn digits_value(s: Seq<char>) -> int
    decreases s.len(),
{
    if s.len() == 0 {
        0
    } else {
        10 * digits_value(s.drop_last()) + digit_value(s.last())
    }
}

/// The integer that `s` writes: an optional `+` or `-` sign, then one or more
/// ASCII digits; `None` for any other text.
pub open spec fn integer_value(s: Seq<char>) -> Option<int> {
    if s.len() > 0 && s[0] == '-' && all_digits(s.drop_first()) {
        Some(-digits_value(s.drop_first()))
    } else if s.len() > 0 && s[0] == '+' && all_digits(s.drop_first()) {
        Some(digits_value(s.drop_first()))
    } else if all_digits(s) {
        Some(digits_value(s))
    } else {
        None
    }
}

/// The `i64` that `s` writes in decimal, if the text is an integer in range.
pub open spec fn i64_value(s: Seq<char>) -> Option<i64> {
    match integer_value(s) {
        Some(v) => if i64::MIN <= v <= i64::MAX {
            Some(v as i64)
        } else {
            None
        },
        None => None,
    }
}

fn digit_text(d: u8) -> (r: &'static str)
    requires
        d < 10,
    ensures
        r@ == seq![digit_char(d as int)],
{
    proof {
        reveal_strlit("0");
        reveal_strlit("1");
        reveal_strlit("2");
        reveal_strlit("3");
        reveal_strlit("4");
        reveal_strlit("5");
        reveal_strlit("6");
        reveal_strlit("7");
        reveal_strlit("8");
        reveal_strlit("9");
    }
    match d {
        0 => "0",
        1 => "1",
        2 => "2",
        3 => "3",
        4 => "4",
        5 => "5",
        6 => "6",
        7 => "7",
        8 => "8",
        _ => "9",
    }
}

/// Appends the decimal digits of `n` to `s`.
pub fn append_digits(s: &mut String, n: u128)
    ensures
        final(s)@ == old(s)@ + decimal_digits(n as nat),
    decreases n,
{
    if n >= 10 {
        append_digits(s, n / 10);
    }
    s.append(digit_text((n % 10) as u8));
    proof {
        if n >= 10 {
            assert(old(s)@ + decimal_digits(n as nat) =~= old(s)@ + decimal_digits((n / 10) as nat)
                + seq![digit_char((n % 10) as int)]);
        } else {
            assert(n % 10 == n);
        }
    }
}

/// Appends `n` to `s` in at least `width` digits, zero-padded on the left.
pub fn append_zero_padded(s: &mut String, n: u32, width: usize)
    ensures
        final(s)@ == old(s)@ + zero_padded(n as nat, width as nat),
{
    let mut digits = String::new();
    append_digits(&mut digits, n as u128);
    assert(digits@ =~= decimal_digits(n as nat));
    let count: usize = digits.as_str().unicode_len();
    let mut pad: usize = count;
    let ghost start = s@;
    while pad < width
        invariant
            count <= pad,
            count < width ==> pad <= width,
            count >= width ==> pad == count,
            s@ == start + Seq::new((pad - count) as nat, |i: int| '0'),
        decreases width - pad,
    {
        s.append("0");
        proof {
            reveal_strlit("0");
            assert(s@ =~= start + Seq::new((pad + 1 - count) as nat, |i: int| '0'));
        }
        pad = pad + 1;
    }
    s.append(digits.as_str());
    proof {
        if count < width {
            assert(pad == width);
        } else {
            assert(pad == count);
            assert(Seq::new((pad - count) as nat, |i: int| '0') =~= Seq::<char>::empty());
        }
        assert(final(s)@ =~= old(s)@ + zero_padded(n as nat, width as nat));
    }
}

/// The decimal text of `n`.
pub fn decimal_text(n: i128) -> (r: String)
    ensures
        r@ == decimal(n as int),
{
    let mut s = String::new();
    if n < 0 {
        s.append("-");
        proof {
            reveal_strlit("-");
        }
        let magnitude: u128 = ((-(n + 1)) as u128) + 1;
        append_digits(&mut s, magnitude);
    } else {
        append_digits(&mut s, n as u128);
    }
    s
}

/// Whether two texts are the same sequence of characters.
pub fn same_text(a: &str, b: &str) -> (r: bool)
    ensures
        r == (a@ == b@),
{
    let n: usize = a.unicode_len();
    if n != b.unicode_len() {
        return false;
    }
    let mut i: usize = 0;
    while i < n
        invariant
            n == a@.len() == b@.len(),
            i <= n,
            forall|j: int| 0 <= j < i ==> a@[j] == b@[j],
        decreases n - i,
    {
        if a.get_char(i) != b.get_char(i) {
            return false;
        }
        i = i + 1;
    }
    assert(a@ =~= b@);
    true
}

/// A bound past every `i64` magnitude: digit runs whose value reaches it are
/// tracked as the bound itself.
const MAGNITUDE_CAP: u128 = 0x1_0000_0000_0000_0000;

/// Reads `s` as a decimal `i64`: an optional `+` or `-` sign, then one or more ASCII
/// digits, with a value in range.
pub fn parse_i64(s: &str) -> (r: Option<i64>)
    ensures
        r == i64_value(s@),
{
    let n: usize = s.unicode_len();
    if n == 0 {
        return None;
    }
    let first = s.get_char(0);
    let negative = first == '-';
    let start: usize = if first == '-' || first == '+' {
        1
    } else {
        0
    };
    if start == n {
        return None;
    }
    let mut acc: u128 = 0;
    let mut k: usize = start;
    while k < n
        invariant
            n == s@.len(),
            start <= k <= n,
            start == 0 || start == 1,
            n > 0 && first == s@[0],
            start == 1 <==> (first == '-' || first == '+'),
            acc <= MAGNITUDE_CAP,
            forall|j: int| start <= j < k ==> is_digit(#[trigger] s@[j]),
            digits_value(s@.subrange(start as int, k as int)) < MAGNITUDE_CAP ==> acc == digits_value(
                s@.subrange(start as int, k as int),
            ),
            digits_value(s@.subrange(start as int, k as int)) >= MAGNITUDE_CAP ==> acc
                == MAGNITUDE_CAP,
        decreases n - k,
    {
        let c = s.get_char(k);
        if !('0' <= c && c <= '9') {
            proof {
                assert(!is_digit(s@[k as int]));
                if start == 1 {
                    assert(s@.drop_first()[k - 1] == c);
                    assert(!all_digits(s@.drop_first()));
                }
                assert(!all_digits(s@));
            }
            return None;
        }
        let d: u128 = (c as u32 - 48) as u128;
        let ghost before = s@.subrange(start as int, k as int);
        proof {
            assert(s@.subrange(start as int, k + 1).drop_last() =~= before);
            assert(digits_value(s@.subrange(start as int, k + 1)) == 10 * digits_value(before) + d);
        }
        if acc >= MAGNITUDE_CAP {
            acc = MAGNITUDE_CAP;
        } else {
            let v: u128 = acc * 10 + d;
            acc = if v > MAGNITUDE_CAP {
                MAGNITUDE_CAP
            } else {
                v
            };
        }
        k = k + 1;
    }
    let ghost body = s@.subrange(start as int, n as int);
    proof {
        if start == 1 {
            assert(body =~= s@.drop_first());
        } else {
            assert(body =~= s@);
        }
    }
    if negative {
        if acc <= 0x8000_0000_0000_0000 {
            Some((-(acc as i128)) as i64)
        } else {
            None
        }
    } else if acc <= 0x7fff_ffff_ffff_ffff {
        Some(acc as i64)
    } else {
        None
    }
}

} // verus!
