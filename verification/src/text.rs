//! Text: decimal numbers and a comparison that ignores ASCII case.

use vstd::prelude::*;

verus! {

/// The decimal digit for a number below ten.
pub open spec fn digit(d: nat) -> char {
    ((48 + d) as u8) as char
}

/// A number in decimal notation, without leading zeros.
pub open spec fn decimal(n: nat) -> Seq<char>
    decreases n,
{
    if n < 10 {
        seq![digit(n)]
    } else {
        decimal(n / 10).push(digit(n % 10))
    }
}

/// The decimal digit for a number below ten, as a string.
fn digit_text(d: u32) -> (text: &'static str)
    requires
        d < 10,
    ensures
        text@ == seq![digit(d as nat)],
{
    proof {
        reveal_strlit("0");
        reveal_strlit("1");
        reveal_strlit("2");
        reveal_strlit("3");
        reveal_strlit("4");
        reveal_strlit("5");
        reveal_strlit("6");
        reveal_strlit("7");
        reveal_strlit("8");
        reveal_strlit("9");
    }
    match d {
        0 => "0",
        1 => "1",
        2 => "2",
        3 => "3",
        4 => "4",
        5 => "5",
        6 => "6",
        7 => "7",
        8 => "8",
        _ => "9",
    }
}

/// Appends a number in decimal notation.
pub fn append_decimal(text: &mut String, n: u32)
    ensures
        final(text)@ == old(text)@ + decimal(n as nat),
    decreases n,
{
    if n >= 10 {
        append_decimal(text, n / 10);
    }
    text.append(digit_text(n % 10));
    assert(text@ =~= old(text)@ + decimal(n as nat));
}

/// An ASCII upper case letter in lower case, and any other character as it is.
pub open spec fn ascii_lower(c: char) -> char {
    if 'A' <= c && c <= 'Z' {
        ((c as u8 + 32) as u8) as char
    } else {
        c
    }
}

/// Whether two texts agree but for the case of ASCII letters.
pub open spec fn same_ignoring_ascii_case(a: Seq<char>, b: Seq<char>) -> bool {
    &&& a.len() == b.len()
    &&& forall|i: int| 0 <= i < a.len() ==> ascii_lower(#[trigger] a[i]) == ascii_lower(b[i])
}

/// An ASCII upper case letter in lower case, and any other character as it is.
fn to_ascii_lower(c: char) -> (lower: char)
    ensures
        lower == ascii_lower(c),
{
    if 'A' <= c && c <= 'Z' {
        (c as u8 + 32) as char
    } else {
        c
    }
}

/// Whether two texts agree but for the case of ASCII letters.
pub fn eq_ignore_ascii_case(a: &str, b: &str) -> (result: bool)
    ensures
        result == same_ignoring_ascii_case(a@, b@),
{
    let n: usize = a.unicode_len();
    if n != b.unicode_len() {
        return false;
    }
    let mut i: usize = 0;
    while i < n
        invariant
            i <= n,
            n == a@.len(),
            n == b@.len(),
            forall|j: int| 0 <= j < i ==> ascii_lower(#[trigger] a@[j]) == ascii_lower(b@[j]),
        decreases n - i,
    {
        if to_ascii_lower(a.get_char(i)) != to_ascii_lower(b.get_char(i)) {
            assert(ascii_lower(a@[i as int]) != ascii_lower(b@[i as int]));
            return false;
        }
        i = i + 1;
    }
    true
}

/// Different numbers are written differently.
pub proof fn law_decimal_tells_numbers_apart(m: nat, n: nat)
    requires
        decimal(m) == decimal(n),
    ensures
        m == n,
    decreases m,
{
    let a = decimal(m);
    let b = decimal(n);
    assert(a.last() == digit(m % 10));
    assert(b.last() == digit(n % 10));
    if m >= 10 {
        assert(decimal(m / 10).len() > 0);
    }
    if n >= 10 {
        assert(decimal(n / 10).len() > 0);
    }
    if m >= 10 && n >= 10 {
        assert(a.drop_last() =~= decimal(m / 10));
        assert(b.drop_last() =~= decimal(n / 10));
        law_decimal_tells_numbers_apart(m / 10, n / 10);
    }
}

/// A number is written digit by digit: its last digit is what is left of it by ten, and the digits
/// before are its tenth. A number below ten is one digit.
pub proof fn law_decimal_digits(n: nat)
    ensures
        decimal(n).len() > 0,
        decimal(n).last() as int == '0' as int + n % 10,
        n < 10 ==> decimal(n).len() == 1,
        n >= 10 ==> decimal(n).drop_last() == decimal(n / 10),
{
    if n >= 10 {
        assert(decimal(n).drop_last() =~= decimal(n / 10));
    }
}

/// Two texts agree but for ASCII case if and only if they are equally long and, at each place,
/// hold the same character, or the two forms of one letter from A to Z.
pub proof fn law_same_but_for_case(a: Seq<char>, b: Seq<char>)
    ensures
        same_ignoring_ascii_case(a, b) <==> a.len() == b.len() && forall|i: int|
            0 <= i < a.len() ==> {
                ||| #[trigger] a[i] == b[i]
                ||| 'A' <= a[i] <= 'Z' && b[i] as int == a[i] as int + 32
                ||| 'A' <= b[i] <= 'Z' && a[i] as int == b[i] as int + 32
            },
{
    if same_ignoring_ascii_case(a, b) {
        assert forall|i: int| 0 <= i < a.len() implies {
            ||| #[trigger] a[i] == b[i]
            ||| 'A' <= a[i] <= 'Z' && b[i] as int == a[i] as int + 32
            ||| 'A' <= b[i] <= 'Z' && a[i] as int == b[i] as int + 32
        } by {
            assert(ascii_lower(a[i]) == ascii_lower(b[i]));
        }
    }
}

} // verus!
