//! Comparisons of texts by their characters.
use vstd::prelude::*;

verus! {

/// Whether two texts hold the same characters.
pub fn str_eq(a: &str, b: &str) -> (r: bool)
    ensures
        r == (a@ == b@),
{
    let n = a.unicode_len();
    if n != b.unicode_len() {
        return false;
    }
    for i in 0..n
        invariant
            n == a@.len(),
            n == b@.len(),
            forall|j: int| 0 <= j < i ==> a@[j] == b@[j],
    {
        if a.get_char(i) != b.get_char(i) {
            return false;
        }
    }
    assert(a@ =~= b@);
    true
}

/// Whether `text` begins with `prefix`.
pub fn starts_with(text: &str, prefix: &str) -> (r: bool)
    ensures
        r == (prefix@.len() <= text@.len() && text@.subrange(0, prefix@.len() as int) == prefix@),
{
    let n = prefix.unicode_len();
    if n > text.unicode_len() {
        return false;
    }
    for i in 0..n
        invariant
            n == prefix@.len(),
            n <= text@.len(),
            forall|j: int| 0 <= j < i ==> text@[j] == prefix@[j],
    {
        if text.get_char(i) != prefix.get_char(i) {
            assert(text@.subrange(0, n as int)[i as int] != prefix@[i as int]);
            return false;
        }
    }
    assert(text@.subrange(0, n as int) =~= prefix@);
    true
}

/// The decimal digits of a byte value, without leading zeros.
pub open spec fn decimal_text(n: u8) -> Seq<char> {
    if n < 10 {
        seq![(48 + n) as char]
    } else if n < 100 {
        seq![(48 + n / 10) as char, (48 + n % 10) as char]
    } else {
        seq![(48 + n / 100) as char, (48 + (n / 10) % 10) as char, (48 + n % 10) as char]
    }
}

fn digit_str(d: u8) -> (r: &'static str)
    requires
        d < 10,
    ensures
        r@ == seq![(48 + d) as char],
{
    proof {
        reveal_strlit("0");
        reveal_strlit("1");
        reveal_strlit("2");
        reveal_strlit("3");
        reveal_strlit("4");
        reveal_strlit("5");
        reveal_strlit("6");
        reveal_strlit("7");
        reveal_strlit("8");
        reveal_strlit("9");
    }
    let r = match d {
        0 => "0",
        1 => "1",
        2 => "2",
        3 => "3",
        4 => "4",
        5 => "5",
        6 => "6",
        7 => "7",
        8 => "8",
        _ => "9",
    };
    assert(r@ =~= seq![(48 + d) as char]);
    r
}

pub fn decimal_string(n: u8) -> (r: String)
    ensures
        r@ == decimal_text(n),
{
    let mut out = String::new();
    if n >= 100 {
        out.append(digit_str(n / 100));
    }
    if n >= 10 {
        out.append(digit_str((n / 10) % 10));
    }
    out.append(digit_str(n % 10));
    assert(out@ =~= decimal_text(n));
    out
}

/// The decimal digits of a natural number, without leading zeros.
pub open spec fn nat_text(n: nat) -> Seq<char>
    decreases n,
{
    if n < 10 {
        seq![(48 + n) as char]
    } else {
        nat_text(n / 10).push((48 + n % 10) as char)
    }
}

/// The decimal text of an integer: a minus sign before the digits of a negative one.
pub open spec fn i64_text(n: i64) -> Seq<char> {
    if n < 0 {
        seq!['-'] + nat_text((0 - n) as nat)
    } else {
        nat_text(n as nat)
    }
}

fn u64_string(n: u64) -> (r: String)
    ensures
        r@ == nat_text(n as nat),
    decreases n,
{
    if n < 10 {
        let d = digit_str(n as u8);
        String::from_str(d)
    } else {
        let mut out = u64_string(n / 10);
        out.append(digit_str((n % 10) as u8));
        assert(out@ =~= nat_text(n as nat));
        out
    }
}

/// The decimal text of an integer.
pub fn i64_string(n: i64) -> (r: String)
    ensures
        r@ == i64_text(n),
{
    if n < 0 {
        let magnitude: u64 = (0i128 - n as i128) as u64;
        let digits = u64_string(magnitude);
        let mut out = String::from_str("-");
        proof {
            reveal_strlit("-");
        }
        out.append(digits.as_str());
        assert(out@ =~= i64_text(n));
        out
    } else {
        u64_string(n as u64)
    }
}

} // verus!
