//! Text helpers shared by the other modules: character access, equality of
//! string slices and decimal rendering of numbers.

use vstd::prelude::*;
use vstd::string::StringExecFns;
use vstd::utf8::encode_utf8;
use vstd::utf8::encode_utf8_decode_utf8;

verus! {

/// The characters of `s`, in order.
pub fn chars_of(s: &str) -> (v: Vec<char>)
    ensures
        v@ == s@,
{
    let mut v: Vec<char> = Vec::new();
    for c in it: s.chars()
        invariant
            v@ == it.seq().take(it.index() as int),
    {
        v.push(c);
    }
    v
}

/// Two character sequences with the same UTF-8 encoding are the same sequence.
pub proof fn lemma_encoding_is_injective(a: Seq<char>, b: Seq<char>)
    requires
        encode_utf8(a) == encode_utf8(b),
    ensures
        a == b,
{
    encode_utf8_decode_utf8(a);
    encode_utf8_decode_utf8(b);
}

/// Whether `a` and `b` hold the same characters.
pub fn same_text(a: &str, b: &str) -> (r: bool)
    ensures
        r == (a@ == b@),
{
    let x = a.as_bytes();
    let y = b.as_bytes();
    if x.len() != y.len() {
        return false;
    }
    let n = x.len();
    let mut i: usize = 0;
    while i < n
        invariant
            i <= n,
            n == x@.len(),
            n == y@.len(),
            x@ == encode_utf8(a@),
            y@ == encode_utf8(b@),
            x@.take(i as int) == y@.take(i as int),
        decreases n - i,
    {
        if x[i] != y[i] {
            assert(x@[i as int] != y@[i as int]);
            return false;
        }
        assert(x@.take(i + 1) == x@.take(i as int).push(x@[i as int]));
        assert(y@.take(i + 1) == y@.take(i as int).push(y@[i as int]));
        i += 1;
    }
    proof {
        assert(x@ == x@.take(n as int));
        assert(y@ == y@.take(n as int));
        lemma_encoding_is_injective(a@, b@);
    }
    true
}

/// The character that writes the digit `d`.
pub open spec fn spec_digit(d: nat) -> char {
    if d == 0 {
        '0'
    } else if d == 1 {
        '1'
    } else if d == 2 {
        '2'
    } else if d == 3 {
        '3'
    } else if d == 4 {
        '4'
    } else if d == 5 {
        '5'
    } else if d == 6 {
        '6'
    } else if d == 7 {
        '7'
    } else if d == 8 {
        '8'
    } else {
        '9'
    }
}

/// `n` in decimal, without sign or leading zeros.
pub open spec fn spec_decimal(n: nat) -> Seq<char>
    decreases n,
{
    if n < 10 {
        seq![spec_digit(n)]
    } else {
        spec_decimal(n / 10).push(spec_digit(n % 10))
    }
}

/// The text that writes the digit `d`.
fn digit_text(d: u64) -> (s: &'static str)
    requires
        d < 10,
    ensures
        s@ == seq![spec_digit(d as nat)],
{
    proof {
        reveal_strlit("0");
        reveal_strlit("1");
        reveal_strlit("2");
        reveal_strlit("3");
        reveal_strlit("4");
        reveal_strlit("5");
        reveal_strlit("6");
        reveal_strlit("7");
        reveal_strlit("8");
        reveal_strlit("9");
    }
    let s = if d == 0 {
        "0"
    } else if d == 1 {
        "1"
    } else if d == 2 {
        "2"
    } else if d == 3 {
        "3"
    } else if d == 4 {
        "4"
    } else if d == 5 {
        "5"
    } else if d == 6 {
        "6"
    } else if d == 7 {
        "7"
    } else if d == 8 {
        "8"
    } else {
        "9"
    };
    assert(s@ =~= seq![spec_digit(d as nat)]);
    s
}

/// Renders `n` in decimal.
pub fn decimal(n: u64) -> (s: String)
    ensures
        s@ == spec_decimal(n as nat),
    decreases n,
{
    if n < 10 {
        digit_text(n).to_owned()
    } else {
        let mut s = decimal(n / 10);
        s.append(digit_text(n % 10));
        s
    }
}

/// The text in an optional string.
pub open spec fn spec_text(value: Option<String>) -> Option<Seq<char>> {
    match value {
        Some(s) => Some(s@),
        None => None,
    }
}

/// A copy of an optional string.
pub fn copy_text(value: &Option<String>) -> (r: Option<String>)
    ensures
        spec_text(r) == spec_text(*value),
{
    match value {
        Some(s) => Some(s.clone()),
        None => None,
    }
}

/// The digit that `c` writes; 0 where it writes none.
pub open spec fn spec_digit_value(c: char) -> nat {
    if c == '1' {
        1
    } else if c == '2' {
        2
    } else if c == '3' {
        3
    } else if c == '4' {
        4
    } else if c == '5' {
        5
    } else if c == '6' {
        6
    } else if c == '7' {
        7
    } else if c == '8' {
        8
    } else if c == '9' {
        9
    } else {
        0
    }
}

/// The number that a run of digits writes in decimal.
pub open spec fn spec_decimal_value(digits: Seq<char>) -> nat
    decreases digits.len(),
{
    if digits.len() == 0 {
        0
    } else {
        10 * spec_decimal_value(digits.drop_last()) + spec_digit_value(digits.last())
    }
}

/// The decimal rendering of a number reads back as that number.
pub proof fn decimal_reads_back(n: nat)
    ensures
        spec_decimal_value(spec_decimal(n)) == n,
    decreases n,
{
    if n < 10 {
        let digits = seq![spec_digit(n)];
        assert(spec_decimal_value(digits.drop_last()) == 0);
        assert(spec_digit_value(digits.last()) == n);
    } else {
        decimal_reads_back(n / 10);
        let digits = spec_decimal(n / 10).push(spec_digit(n % 10));
        assert(digits.drop_last() == spec_decimal(n / 10));
        assert(spec_digit_value(digits.last()) == n % 10);
    }
}

/// Two numbers with the same decimal rendering are the same number.
pub proof fn decimal_is_injective(a: nat, b: nat)
    requires
        spec_decimal(a) == spec_decimal(b),
    ensures
        a == b,
{
    decimal_reads_back(a);
    decimal_reads_back(b);
}

} // verus!
