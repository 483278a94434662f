//! Decimal numbers as text: reading them and writing them.

use vstd::prelude::*;
use vstd::string::*;

verus! {

/// Whether `c` is one of the ten ASCII digits.
pub open spec fn is_digit(c: char) -> bool {
    '0' <= c && c <= '9'
}

/// The number that the digit `c` stands for; 0 for any other character.
pub open spec fn digit_value(c: char) -> nat {
    if is_digit(c) {
        (c as int - '0' as int) as nat
    } else {
        0
    }
}

/// Whether `s` holds digits only.
pub open spec fn all_digits(s: Seq<char>) -> bool {
    forall|i: int| 0 <= i < s.len() ==> is_digit(#[trigger] s[i])
}

/// The number that a run of digits stands for, leading zeros allowed.
pub open spec fn digits_value(s: Seq<char>) -> nat
    decreases s.len(),
{
    if s.len() == 0 {
        0
    } else {
        digits_value(s.drop_last()) * 10 + digit_value(s.last())
    }
}

/// The number that a run of digits stands for, where it is one: not empty,
/// and digits only.
pub open spec fn run_value(s: Seq<char>) -> Option<nat> {
    if s.len() > 0 && all_digits(s) {
        Some(digits_value(s))
    } else {
        None
    }
}

/// What `s` says as a number without sign: digits, with one `+` allowed
/// before them.
pub open spec fn unsigned_reading(s: Seq<char>) -> Option<nat> {
    if s.len() > 1 && s[0] == '+' {
        run_value(s.skip(1))
    } else {
        run_value(s)
    }
}

/// What `s` says as a number with sign: digits, with one `+` or `-` allowed
/// before them.
pub open spec fn signed_reading(s: Seq<char>) -> Option<int> {
    if s.len() > 1 && s[0] == '-' {
        match run_value(s.skip(1)) {
            Some(v) => Some(-(v as int)),
            None => None,
        }
    } else {
        match unsigned_reading(s) {
            Some(v) => Some(v as int),
            None => None,
        }
    }
}

/// The digit for `d`, which is below ten.
pub open spec fn digit_char(d: nat) -> char {
    if d == 0 {
        '0'
    } else if d == 1 {
        '1'
    } else if d == 2 {
        '2'
    } else if d == 3 {
        '3'
    } else if d == 4 {
        '4'
    } else if d == 5 {
        '5'
    } else if d == 6 {
        '6'
    } else if d == 7 {
        '7'
    } else if d == 8 {
        '8'
    } else {
        '9'
    }
}

/// The digits of `n`, most significant first, without leading zeros.
pub open spec fn digits_of(n: nat) -> Seq<char>
    decreases n,
{
    if n < 10 {
        seq![digit_char(n)]
    } else {
        digits_of(n / 10).push(digit_char(n % 10))
    }
}

/// `n` written in decimal, with `-` before a negative number.
pub open spec fn decimal(n: int) -> Seq<char> {
    if n < 0 {
        seq!['-'] + digits_of((-n) as nat)
    } else {
        digits_of(n as nat)
    }
}

/// A run of digits is worth at least as much as any of its beginnings.
pub proof fn lemma_prefix_value(s: Seq<char>, k: int)
    requires
        0 <= k <= s.len(),
    ensures
        digits_value(s.take(k)) <= digits_value(s),
    decreases s.len(),
{
    if k == s.len() {
        assert(s.take(k) =~= s);
    } else {
        lemma_prefix_value(s.drop_last(), k);
        assert(s.drop_last().take(k) =~= s.take(k));
    }
}

/// Writing a number and reading the digits back gives the number.
pub proof fn lemma_digits_round_trip(n: nat)
    ensures
        digits_of(n).len() > 0,
        all_digits(digits_of(n)),
        digits_value(digits_of(n)) == n,
    decreases n,
{
    if n < 10 {
        let s = digits_of(n);
        assert(s.drop_last() =~= Seq::<char>::empty());
        assert(digits_value(s.drop_last()) == 0);
        assert(s.last() == digit_char(n));
    } else {
        lemma_digits_round_trip(n / 10);
        let s = digits_of(n);
        assert(s.drop_last() =~= digits_of(n / 10));
        assert(s.last() == digit_char(n % 10));
        assert forall|i: int| 0 <= i < s.len() implies is_digit(#[trigger] s[i]) by {
            if i < s.len() - 1 {
                assert(s[i] == digits_of(n / 10)[i]);
            }
        }
    }
}

/// Reading back what `decimal` wrote gives the number.
pub proof fn lemma_decimal_round_trip(n: int)
    ensures
        signed_reading(decimal(n)) == Some(n),
{
    if n < 0 {
        let m = (-n) as nat;
        lemma_digits_round_trip(m);
        assert(decimal(n).skip(1) =~= digits_of(m));
    } else {
        lemma_digits_round_trip(n as nat);
        assert(is_digit(digits_of(n as nat)[0]));
    }
}

/// Reads the characters of `text` from `from` on as a run of digits worth at
/// most `limit`.
fn read_run(text: &str, from: usize, limit: u64) -> (value: Option<u64>)
    requires
        from <= text@.len(),
    ensures
        value == match run_value(text@.skip(from as int)) {
            Some(v) => if v <= limit {
                Some(v as u64)
            } else {
                None
            },
            None => None,
        },
{
    let len = text.unicode_len();
    if from == len {
        return None;
    }
    let ghost run = text@.skip(from as int);
    let mut acc: u128 = 0;
    let mut i: usize = from;
    while i < len
        invariant
            from <= i <= len,
            len == text@.len(),
            run == text@.skip(from as int),
            acc <= limit,
            all_digits(run.take(i - from)),
            acc == digits_value(run.take(i - from)),
        decreases len - i,
    {
        let c = text.get_char(i);
        assert(c == run[i - from]);
        if c < '0' || c > '9' {
            return None;
        }
        let d: u128 = (c as u32 - '0' as u32) as u128;
        let next: u128 = acc * 10 + d;
        proof {
            let longer = run.take(i - from + 1);
            assert(longer.drop_last() =~= run.take(i - from));
            assert(longer.last() == c);
            assert(digits_value(longer) == next);
            assert forall|k: int| 0 <= k < longer.len() implies is_digit(#[trigger] longer[k]) by {
                if k < longer.len() - 1 {
                    assert(longer[k] == run.take(i - from)[k]);
                }
            }
            lemma_prefix_value(run, i - from + 1);
        }
        if next > limit as u128 {
            return None;
        }
        acc = next;
        i += 1;
    }
    proof {
        assert(run.take(len - from) =~= run);
    }
    Some(acc as u64)
}

/// Reads `text` as a number without sign that fits 32 bits: digits, with one
/// `+` allowed before them. Anything else, and a number too large, is `None`.
pub fn parse_u32(text: &str) -> (value: Option<u32>)
    ensures
        value == match unsigned_reading(text@) {
            Some(v) => if v <= u32::MAX {
                Some(v as u32)
            } else {
                None
            },
            None => None,
        },
{
    let len = text.unicode_len();
    let from: usize = if len > 1 && text.get_char(0) == '+' {
        1
    } else {
        0
    };
    proof {
        assert(text@.skip(0) =~= text@);
    }
    match read_run(text, from, 0xffff_ffff) {
        Some(v) => Some(v as u32),
        None => None,
    }
}

/// Reads `text` as a number without sign that fits 64 bits: digits, with one
/// `+` allowed before them. Anything else, and a number too large, is `None`.
pub fn parse_u64(text: &str) -> (value: Option<u64>)
    ensures
        value == match unsigned_reading(text@) {
            Some(v) => if v <= u64::MAX {
                Some(v as u64)
            } else {
                None
            },
            None => None,
        },
{
    let len = text.unicode_len();
    let from: usize = if len > 1 && text.get_char(0) == '+' {
        1
    } else {
        0
    };
    proof {
        assert(text@.skip(0) =~= text@);
    }
    read_run(text, from, 0xffff_ffff_ffff_ffff)
}

/// Reads `text` as a number with sign that fits 32 bits: digits, with one `+`
/// or `-` allowed before them. Anything else, and a number out of range, is
/// `None`.
pub fn parse_i32(text: &str) -> (value: Option<i32>)
    ensures
        value == match signed_reading(text@) {
            Some(v) => if i32::MIN <= v <= i32::MAX {
                Some(v as i32)
            } else {
                None
            },
            None => None,
        },
{
    let len = text.unicode_len();
    proof {
        assert(text@.skip(0) =~= text@);
    }
    if len > 1 && text.get_char(0) == '-' {
        match read_run(text, 1, 0x8000_0000) {
            Some(v) => {
                let negated: i64 = -(v as i64);
                Some(negated as i32)
            },
            None => None,
        }
    } else {
        let from: usize = if len > 1 && text.get_char(0) == '+' {
            1
        } else {
            0
        };
        match read_run(text, from, 0x7fff_ffff) {
            Some(v) => Some(v as i32),
            None => None,
        }
    }
}

/// The text of one digit.
fn digit_text(d: u32) -> (text: &'static str)
    requires
        d < 10,
    ensures
        text@ == seq![digit_char(d as nat)],
{
    proof {
        reveal_strlit("0");
        reveal_strlit("1");
        reveal_strlit("2");
        reveal_strlit("3");
        reveal_strlit("4");
        reveal_strlit("5");
        reveal_strlit("6");
        reveal_strlit("7");
        reveal_strlit("8");
        reveal_strlit("9");
    }
    let text = if d == 0 {
        "0"
    } else if d == 1 {
        "1"
    } else if d == 2 {
        "2"
    } else if d == 3 {
        "3"
    } else if d == 4 {
        "4"
    } else if d == 5 {
        "5"
    } else if d == 6 {
        "6"
    } else if d == 7 {
        "7"
    } else if d == 8 {
        "8"
    } else {
        "9"
    };
    proof {
        assert(text@ =~= seq![digit_char(d as nat)]);
    }
    text
}

/// Writes `n` in decimal.
pub fn unsigned_text(n: u32) -> (text: String)
    ensures
        text@ == digits_of(n as nat),
    decreases n,
{
    if n < 10 {
        String::from_str(digit_text(n))
    } else {
        let mut text = unsigned_text(n / 10);
        text.append(digit_text(n % 10));
        proof {
            let d = digit_char((n % 10) as nat);
            assert(digits_of((n / 10) as nat) + seq![d] =~= digits_of((n / 10) as nat).push(d));
        }
        text
    }
}

/// Writes `n` in decimal, with `-` before a negative number.
pub fn decimal_text(n: i32) -> (text: String)
    ensures
        text@ == decimal(n as int),
{
    if n < 0 {
        let magnitude: i64 = -(n as i64);
        let digits = unsigned_text(magnitude as u32);
        let mut text = String::from_str("-");
        text.append(digits.as_str());
        proof {
            reveal_strlit("-");
            assert("-"@ =~= seq!['-']);
        }
        text
    } else {
        unsigned_text(n as u32)
    }
}

} // verus!
