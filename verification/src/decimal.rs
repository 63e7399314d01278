//! Decimal text of unsigned integers: the form in which numbers travel
//! between the harness and the Lean model.
use vstd::prelude::*;
use vstd::string::StrSliceExecFns;

verus! {

/// The character of decimal digit `d`.
pub open spec fn digit_char(d: nat) -> char {
    (d + 48) as char
}

/// Whether `c` is one of the ASCII digits `0` to `9`.
pub open spec fn is_digit(c: char) -> bool {
    48 <= (c as u32) <= 57
}

/// The value of the ASCII digit `c`.
pub open spec fn digit_value(c: char) -> nat {
    ((c as u32) - 48) as nat
}

/// The decimal text of `n`: its digits, most significant first, without
/// leading zeros ("0" for zero).
pub open spec fn decimal(n: nat) -> Seq<char>
    decreases n,
{
    if n < 10 {
        seq![digit_char(n)]
    } else {
        decimal(n / 10).push(digit_char(n % 10))
    }
}

/// Whether every character of `s` is an ASCII digit.
pub open spec fn all_digits(s: Seq<char>) -> bool {
    forall|i: int| 0 <= i < s.len() ==> is_digit(#[trigger] s[i])
}

/// The number that the digits `s` spell, most significant first.
pub open spec fn digits_value(s: Seq<char>) -> nat
    decreases s.len(),
{
    if s.len() == 0 {
        0
    } else {
        digits_value(s.drop_last()) * 10 + digit_value(s.last())
    }
}

/// `s` without the one `+` sign that may lead an unsigned number.
pub open spec fn unsigned_digits(s: Seq<char>) -> Seq<char> {
    if s.len() > 0 && s[0] == '+' {
        s.drop_first()
    } else {
        s
    }
}

/// The unsigned 64-bit number that the text `s` denotes, if any: an optional
/// `+`, then at least one ASCII digit and nothing else, of a value that fits.
pub open spec fn parsed_u64(s: Seq<char>) -> Option<u64> {
    let d = unsigned_digits(s);
    if d.len() > 0 && all_digits(d) && digits_value(d) <= u64::MAX {
        Some(digits_value(d) as u64)
    } else {
        None
    }
}

/// The number that `s` denotes, or zero when it denotes none.
pub open spec fn parsed_or_zero(s: Seq<char>) -> u64 {
    match parsed_u64(s) {
        Some(v) => v,
        None => 0,
    }
}

/// Appends `c` to `s` (std's `String::push`).
#[verifier::external_body]
fn string_push(s: &mut String, c: char)
    ensures
        final(s)@ == old(s)@.push(c),
{
    s.push(c)
}

fn digit_to_char(d: u64) -> (c: char)
    requires
        d < 10,
    ensures
        c == digit_char(d as nat),
        is_digit(c),
        digit_value(c) == d,
{
    let b: u8 = (d as u8) + 48;
    b as char
}

/// The decimal text of `n`, as `n.to_string()` writes it.
pub fn u64_to_decimal(n: u64) -> (s: String)
    ensures
        s@ == decimal(n as nat),
{
    let mut m: u64 = n;
    let mut tail: Vec<char> = Vec::new();
    while m >= 10
        invariant
            decimal(n as nat) == decimal(m as nat) + tail@,
        decreases m,
    {
        let c = digit_to_char(m % 10);
        let ghost old_tail = tail@;
        tail.insert(0, c);
        proof {
            assert(decimal(m as nat) == decimal((m / 10) as nat).push(c));
            assert(tail@ == seq![c] + old_tail);
            assert(decimal(m as nat) + old_tail == decimal((m / 10) as nat) + tail@);
        }
        m = m / 10;
    }
    let first = digit_to_char(m);
    let mut s = String::new();
    string_push(&mut s, first);
    let mut i: usize = 0;
    while i < tail.len()
        invariant
            i <= tail@.len(),
            decimal(n as nat) == seq![first] + tail@,
            s@ == seq![first] + tail@.subrange(0, i as int),
        decreases tail@.len() - i,
    {
        string_push(&mut s, tail[i]);
        proof {
            assert(tail@.subrange(0, i as int + 1) == tail@.subrange(0, i as int).push(tail@[i as int]));
        }
        i = i + 1;
    }
    assert(tail@.subrange(0, tail@.len() as int) == tail@);
    s
}

/// A longer run of digits never spells a smaller number than its prefix.
proof fn lemma_digits_value_prefix_monotone(s: Seq<char>, i: int, j: int)
    requires
        0 <= i <= j <= s.len(),
    ensures
        digits_value(s.subrange(0, i)) <= digits_value(s.subrange(0, j)),
    decreases j - i,
{
    if i < j {
        lemma_digits_value_prefix_monotone(s, i, j - 1);
        assert(s.subrange(0, j).drop_last() == s.subrange(0, j - 1));
    }
}

/// The number that the text `s` denotes, as `s.parse::<u64>()` reads it:
/// `None` for text that is not an optional `+` followed by one or more ASCII
/// digits, or whose value does not fit in 64 bits.
pub fn parse_u64(s: &str) -> (r: Option<u64>)
    ensures
        r == parsed_u64(s@),
{
    let len = s.unicode_len();
    let mut start: usize = 0;
    if len > 0 && s.get_char(0) == '+' {
        start = 1;
    }
    let ghost d = unsigned_digits(s@);
    assert(d == s@.subrange(start as int, len as int));
    if start == len {
        return None;
    }
    let mut acc: u64 = 0;
    let mut i: usize = start;
    while i < len
        invariant
            start <= i <= len,
            len == s@.len(),
            d == s@.subrange(start as int, len as int),
            d == unsigned_digits(s@),
            all_digits(d.subrange(0, i - start)),
            acc as nat == digits_value(d.subrange(0, i - start)),
        decreases len - i,
    {
        let c = s.get_char(i);
        let k: Ghost<int> = Ghost(i - start);
        assert(d[k@] == c);
        assert(d.subrange(0, k@ + 1).drop_last() == d.subrange(0, k@));
        assert(d.subrange(0, k@ + 1).last() == c);
        let code = c as u32;
        if code < 48 || code > 57 {
            assert(!all_digits(d)) by {
                assert(!is_digit(d[k@]));
            }
            return None;
        }
        let digit = (code - 48) as u64;
        assert(digits_value(d.subrange(0, k@ + 1)) == acc * 10 + digit);
        match acc.checked_mul(10) {
            None => {
                proof {
                    lemma_digits_value_prefix_monotone(d, k@ + 1, d.len() as int);
                    assert(d.subrange(0, d.len() as int) == d);
                }
                return None;
            },
            Some(t) => match t.checked_add(digit) {
                None => {
                    proof {
                        lemma_digits_value_prefix_monotone(d, k@ + 1, d.len() as int);
                        assert(d.subrange(0, d.len() as int) == d);
                    }
                    return None;
                },
                Some(v) => {
                    acc = v;
                },
            },
        }
        proof {
            assert forall|j: int| 0 <= j < k@ + 1 implies is_digit(#[trigger] d.subrange(0, k@ + 1)[j]) by {
                if j < k@ {
                    assert(d.subrange(0, k@ + 1)[j] == d.subrange(0, k@)[j]);
                }
            }
        }
        i = i + 1;
    }
    assert(d.subrange(0, len - start) == d);
    Some(acc)
}

/// The number that `s` denotes, or zero where it denotes none, as
/// `s.parse::<u64>().unwrap_or_else(|_| 0)` reads it.
pub fn parse_u64_or_zero(s: &str) -> (r: u64)
    ensures
        r == parsed_or_zero(s@),
{
    match parse_u64(s) {
        Some(v) => v,
        None => 0,
    }
}

/// The decimal text of a number is all digits, and spells the number.
proof fn lemma_decimal_digits(n: nat)
    ensures
        decimal(n).len() > 0,
        all_digits(decimal(n)),
        digits_value(decimal(n)) == n,
        decimal(n)[0] != '+',
    decreases n,
{
    if n < 10 {
        assert(decimal(n).drop_last() == Seq::<char>::empty());
        assert(digits_value(Seq::<char>::empty()) == 0);
        assert(digit_value(digit_char(n)) == n);
        assert(digits_value(decimal(n)) == n);
    } else {
        lemma_decimal_digits(n / 10);
        let p = decimal(n / 10);
        assert(decimal(n).drop_last() == p);
        assert(decimal(n).last() == digit_char(n % 10));
        assert(digit_value(digit_char(n % 10)) == n % 10);
        assert(digits_value(decimal(n)) == digits_value(p) * 10 + n % 10);
        assert((n / 10) * 10 + n % 10 == n);
        assert forall|i: int| 0 <= i < decimal(n).len() implies is_digit(#[trigger] decimal(n)[i]) by {
            if i < p.len() {
                assert(decimal(n)[i] == p[i]);
            }
        }
        assert(decimal(n)[0] == p[0]);
    }
}

/// Reading back the decimal text of a number gives the number: what the
/// harness writes into a request, the reply's reader reads back unchanged.
pub proof fn lemma_parse_decimal_roundtrip(n: u64)
    ensures
        parsed_u64(decimal(n as nat)) == Some(n),
        parsed_or_zero(decimal(n as nat)) == n,
{
    lemma_decimal_digits(n as nat);
}

} // verus!
