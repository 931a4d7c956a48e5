//! Decimal text: parsing integers the way `str::parse` does for the
//! integer types, and rendering non-negative integers as decimal digits.
use vstd::prelude::*;

verus! {

pub open spec fn is_digit(c: char) -> bool {
    '0' <= c && c <= '9'
}

pub open spec fn digit_value(c: char) -> nat {
    (c as int - '0' as int) as nat
}

pub open spec fn all_digits(s: Seq<char>) -> bool {
    forall|i: int| 0 <= i < s.len() ==> is_digit(#[trigger] s[i])
}

/// The number that a sequence of decimal digits denotes.
pub open spec fn digits_value(s: Seq<char>) -> nat
    decreases s.len(),
{
    if s.len() == 0 {
        0
    } else {
        digits_value(s.drop_last()) * 10 + digit_value(s.last())
    }
}

/// The magnitude that unsigned integer text denotes: an optional leading `+`
/// followed by at least one decimal digit, and nothing else.
pub open spec fn unsigned_magnitude(s: Seq<char>) -> Option<nat> {
    let body = if s.len() > 0 && s[0] == '+' {
        s.drop_first()
    } else {
        s
    };
    if body.len() > 0 && all_digits(body) {
        Some(digits_value(body))
    } else {
        None
    }
}

/// The value that signed integer text denotes: an optional leading `+` or `-`
/// followed by at least one decimal digit, and nothing else.
pub open spec fn signed_value(s: Seq<char>) -> Option<int> {
    if s.len() > 0 && s[0] == '-' {
        let body = s.drop_first();
        if body.len() > 0 && all_digits(body) {
            Some(-(digits_value(body) as int))
        } else {
            None
        }
    } else {
        match unsigned_magnitude(s) {
            Some(v) => Some(v as int),
            None => None,
        }
    }
}

/// What `s.parse::<u32>()` gives, as an `Option`.
pub open spec fn spec_parse_u32(s: Seq<char>) -> Option<u32> {
    match unsigned_magnitude(s) {
        Some(v) => if v <= u32::MAX {
            Some(v as u32)
        } else {
            None
        },
        None => None,
    }
}

/// What `s.parse::<u64>()` gives, as an `Option`.
pub open spec fn spec_parse_u64(s: Seq<char>) -> Option<u64> {
    match unsigned_magnitude(s) {
        Some(v) => if v <= u64::MAX {
            Some(v as u64)
        } else {
            None
        },
        None => None,
    }
}

/// What `s.parse::<i64>()` gives, as an `Option`.
pub open spec fn spec_parse_i64(s: Seq<char>) -> Option<i64> {
    match signed_value(s) {
        Some(v) => if i64::MIN <= v && v <= i64::MAX {
            Some(v as i64)
        } else {
            None
        },
        None => None,
    }
}

pub open spec fn digit_char(d: nat) -> char {
    if d == 0 {
        '0'
    } else if d == 1 {
        '1'
    } else if d == 2 {
        '2'
    } else if d == 3 {
        '3'
    } else if d == 4 {
        '4'
    } else if d == 5 {
        '5'
    } else if d == 6 {
        '6'
    } else if d == 7 {
        '7'
    } else if d == 8 {
        '8'
    } else {
        '9'
    }
}

/// The shortest decimal rendering of `n` (no sign, no leading zeros).
pub open spec fn decimal_chars(n: nat) -> Seq<char>
    decreases n,
{
    if n < 10 {
        seq![digit_char(n)]
    } else {
        decimal_chars(n / 10).push(digit_char(n % 10))
    }
}

proof fn lemma_digit_char(d: nat)
    requires
        d < 10,
    ensures
        is_digit(digit_char(d)),
        digit_value(digit_char(d)) == d,
{
}

proof fn lemma_digits_value_push(s: Seq<char>, c: char)
    ensures
        digits_value(s.push(c)) == digits_value(s) * 10 + digit_value(c),
{
    assert(s.push(c).drop_last() =~= s);
}

/// A digit string denotes at least what any of its prefixes denotes.
proof fn lemma_digits_value_prefix(s: Seq<char>, j: int)
    requires
        0 <= j <= s.len(),
        all_digits(s),
    ensures
        digits_value(s.subrange(0, j)) <= digits_value(s),
    decreases s.len(),
{
    if j < s.len() {
        let t = s.drop_last();
        assert(t.subrange(0, j) =~= s.subrange(0, j));
        assert(all_digits(t));
        lemma_digits_value_prefix(t, j);
    } else {
        assert(s.subrange(0, j) =~= s);
    }
}

proof fn lemma_decimal_chars(n: nat)
    ensures
        decimal_chars(n).len() > 0,
        all_digits(decimal_chars(n)),
        is_digit(decimal_chars(n)[0]),
        digits_value(decimal_chars(n)) == n,
    decreases n,
{
    if n < 10 {
        lemma_digit_char(n);
        assert(seq![digit_char(n)] =~= Seq::<char>::empty().push(digit_char(n)));
        lemma_digits_value_push(Seq::<char>::empty(), digit_char(n));
    } else {
        lemma_decimal_chars(n / 10);
        lemma_digit_char(n % 10);
        lemma_digits_value_push(decimal_chars(n / 10), digit_char(n % 10));
        assert((n / 10) * 10 + n % 10 == n);
        let s = decimal_chars(n);
        assert forall|i: int| 0 <= i < s.len() implies is_digit(#[trigger] s[i]) by {
            if i < s.len() - 1 {
                assert(s[i] == decimal_chars(n / 10)[i]);
            }
        }
    }
}

/// Parsing the decimal rendering of a number gives the number back.
pub proof fn lemma_parse_u64_of_decimal(n: u64)
    ensures
        spec_parse_u64(decimal_chars(n as nat)) == Some(n),
{
    lemma_decimal_chars(n as nat);
}

/// Parsing the decimal rendering of a number in `u32`'s range gives it back.
pub proof fn lemma_parse_u32_of_decimal(n: u32)
    ensures
        spec_parse_u32(decimal_chars(n as nat)) == Some(n),
{
    lemma_decimal_chars(n as nat);
}

/// Reads the digits of `s` from char position `start` to its end; `None` unless
/// there is at least one and all are decimal digits whose value is at most `bound`.
fn digits_up_to(s: &str, start: usize, bound: u64) -> (r: Option<u64>)
    requires
        start <= s@.len(),
        bound >= 9,
    ensures
        ({
            let body = s@.subrange(start as int, s@.len() as int);
            r == if body.len() > 0 && all_digits(body) && digits_value(body) <= bound {
                Some(digits_value(body) as u64)
            } else {
                None::<u64>
            }
        }),
{
    let len = s.unicode_len();
    if start >= len {
        return None;
    }
    let ghost body = s@.subrange(start as int, s@.len() as int);
    let mut acc: u64 = 0;
    let mut i: usize = start;
    while i < len
        invariant
            len == s@.len(),
            start <= i <= len,
            start < len,
            body == s@.subrange(start as int, s@.len() as int),
            all_digits(s@.subrange(start as int, i as int)),
            acc as nat == digits_value(s@.subrange(start as int, i as int)),
            acc <= bound,
            bound >= 9,
        decreases len - i,
    {
        let c = s.get_char(i);
        let ghost pre = s@.subrange(start as int, i as int);
        assert(s@.subrange(start as int, i + 1) =~= pre.push(c));
        assert(body[i - start] == c);
        if !('0' <= c && c <= '9') {
            return None;
        }
        let d: u64 = (c as u32 - '0' as u32) as u64;
        proof {
            lemma_digits_value_push(pre, c);
        }
        if acc > (bound - d) / 10 {
            proof {
                assert(acc * 10 + d > bound) by (nonlinear_arith)
                    requires
                        acc > (bound - d) / 10,
                        d <= bound,
                ;
                let p = s@.subrange(start as int, i + 1);
                assert(body.subrange(0, i + 1 - start) =~= p);
                if all_digits(body) {
                    lemma_digits_value_prefix(body, i + 1 - start);
                }
            }
            return None;
        }
        proof {
            assert(acc * 10 + d <= bound) by (nonlinear_arith)
                requires
                    acc <= (bound - d) / 10,
                    d <= bound,
            ;
        }
        acc = acc * 10 + d;
        i = i + 1;
    }
    assert(s@.subrange(start as int, i as int) =~= body);
    Some(acc)
}

/// `text.parse::<u32>()`, as an `Option`.
pub fn parse_u32(text: &str) -> (r: Option<u32>)
    ensures
        r == spec_parse_u32(text@),
{
    let len = text.unicode_len();
    let start: usize = if len > 0 && text.get_char(0) == '+' {
        1
    } else {
        0
    };
    let body_ghost = Ghost(text@.subrange(start as int, text@.len() as int));
    proof {
        if start == 1 {
            assert(body_ghost@ =~= text@.drop_first());
        } else {
            assert(body_ghost@ =~= text@);
        }
    }
    match digits_up_to(text, start, 0xffff_ffff) {
        Some(v) => Some(v as u32),
        None => None,
    }
}

/// `text.parse::<u64>()`, as an `Option`.
pub fn parse_u64(text: &str) -> (r: Option<u64>)
    ensures
        r == spec_parse_u64(text@),
{
    let len = text.unicode_len();
    let start: usize = if len > 0 && text.get_char(0) == '+' {
        1
    } else {
        0
    };
    let body_ghost = Ghost(text@.subrange(start as int, text@.len() as int));
    proof {
        if start == 1 {
            assert(body_ghost@ =~= text@.drop_first());
        } else {
            assert(body_ghost@ =~= text@);
        }
    }
    digits_up_to(text, start, 0xffff_ffff_ffff_ffff)
}

/// `text.parse::<i64>()`, as an `Option`.
pub fn parse_i64(text: &str) -> (r: Option<i64>)
    ensures
        r == spec_parse_i64(text@),
{
    let len = text.unicode_len();
    if len > 0 && text.get_char(0) == '-' {
        proof {
            assert(text@.subrange(1, text@.len() as int) =~= text@.drop_first());
        }
        match digits_up_to(text, 1, 0x8000_0000_0000_0000) {
            Some(m) => {
                if m == 0x8000_0000_0000_0000 {
                    Some(i64::MIN)
                } else {
                    Some(-(m as i64))
                }
            },
            None => None,
        }
    } else {
        let start: usize = if len > 0 && text.get_char(0) == '+' {
            1
        } else {
            0
        };
        let body_ghost = Ghost(text@.subrange(start as int, text@.len() as int));
        proof {
            if start == 1 {
                assert(body_ghost@ =~= text@.drop_first());
            } else {
                assert(body_ghost@ =~= text@);
            }
        }
        match digits_up_to(text, start, 0x7fff_ffff_ffff_ffff) {
            Some(v) => Some(v as i64),
            None => None,
        }
    }
}

fn digit_str(d: u64) -> (r: &'static str)
    requires
        d < 10,
    ensures
        r@ == seq![digit_char(d as nat)],
{
    proof {
        reveal_strlit("0");
        reveal_strlit("1");
        reveal_strlit("2");
        reveal_strlit("3");
        reveal_strlit("4");
        reveal_strlit("5");
        reveal_strlit("6");
        reveal_strlit("7");
        reveal_strlit("8");
        reveal_strlit("9");
    }
    if d == 0 {
        "0"
    } else if d == 1 {
        "1"
    } else if d == 2 {
        "2"
    } else if d == 3 {
        "3"
    } else if d == 4 {
        "4"
    } else if d == 5 {
        "5"
    } else if d == 6 {
        "6"
    } else if d == 7 {
        "7"
    } else if d == 8 {
        "8"
    } else {
        "9"
    }
}

/// Appends the decimal rendering of `n` to `out`.
pub fn push_decimal(out: &mut String, n: u64)
    ensures
        final(out)@ == old(out)@ + decimal_chars(n as nat),
    decreases n,
{
    if n < 10 {
        out.append(digit_str(n));
    } else {
        push_decimal(out, n / 10);
        out.append(digit_str(n % 10));
        proof {
            assert(old(out)@ + decimal_chars(n as nat) =~= old(out)@ + decimal_chars(
                (n / 10) as nat,
            ) + seq![digit_char((n % 10) as nat)]);
        }
    }
}

/// The decimal rendering of `n`, as `n.to_string()` gives it.
pub fn decimal_string(n: u64) -> (s: String)
    ensures
        s@ == decimal_chars(n as nat),
{
    let mut s = String::new();
    push_decimal(&mut s, n);
    proof {
        assert(Seq::<char>::empty() + decimal_chars(n as nat) =~= decimal_chars(n as nat));
    }
    s
}

} // verus!
