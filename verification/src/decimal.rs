//! Decimal text of integers, written and read back.
//!
//! The functions here say what the digits of a number are, write them to a
//! text buffer and read them back, and the lemmas relate the two directions.

use vstd::prelude::*;

verus! {

/// The character that shows the digit `d`, for `0 <= d <= 9`.
pub open spec fn digit_char(d: int) -> char {
    ((48 + d) as u8) as char
}

/// Whether `c` is one of the ten ASCII digits.
pub open spec fn is_digit(c: char) -> bool {
    '0' <= c <= '9'
}

/// The number that the digit `c` stands for.
pub open spec fn digit_value(c: char) -> int {
    c as int - 48
}

/// The digits of `n` in base ten, most significant first, without leading
/// zeros; zero is the single digit `0`.
pub open spec fn nat_text(n: nat) -> Seq<char>
    decreases n,
{
    if n < 10 {
        seq![digit_char(n as int)]
    } else {
        nat_text(n / 10).push(digit_char((n % 10) as int))
    }
}

/// `v` in base ten, with a minus sign where it is negative.
pub open spec fn int_text(v: int) -> Seq<char> {
    if v < 0 {
        seq!['-'] + nat_text((-v) as nat)
    } else {
        nat_text(v as nat)
    }
}

/// `v` in base ten with its sign always written: `+` for zero and above.
pub open spec fn signed_text(v: int) -> Seq<char> {
    if v < 0 {
        seq!['-'] + nat_text((-v) as nat)
    } else {
        seq!['+'] + nat_text(v as nat)
    }
}

/// Whether every character of `s` is a digit.
pub open spec fn all_digits(s: Seq<char>) -> bool {
    forall|i: int| 0 <= i < s.len() ==> is_digit(#[trigger] s[i])
}

/// The number that a run of digits stands for; leading zeros count for
/// nothing, and the empty run stands for zero.
pub open spec fn digits_value(s: Seq<char>) -> int
    decreases s.len(),
{
    if s.len() == 0 {
        0
    } else {
        digits_value(s.drop_last()) * 10 + digit_value(s.last())
    }
}

/// What a run of characters reads as: a natural number where it is one or
/// more digits and nothing else.
pub open spec fn parse_nat(s: Seq<char>) -> Option<nat> {
    if s.len() > 0 && all_digits(s) {
        Some(digits_value(s) as nat)
    } else {
        None
    }
}

/// What a run of characters reads as: an integer where it is one or more
/// digits, with at most one `+` or `-` in front.
pub open spec fn parse_int(s: Seq<char>) -> Option<int> {
    if s.len() > 0 && s[0] == '-' {
        match parse_nat(s.skip(1)) {
            Some(n) => Some(-(n as int)),
            None => None,
        }
    } else if s.len() > 0 && s[0] == '+' {
        match parse_nat(s.skip(1)) {
            Some(n) => Some(n as int),
            None => None,
        }
    } else {
        match parse_nat(s) {
            Some(n) => Some(n as int),
            None => None,
        }
    }
}

/// `parse_int`, kept to the numbers from `low` to `high`.
pub open spec fn parse_int_within(s: Seq<char>, low: int, high: int) -> Option<int> {
    match parse_int(s) {
        Some(v) => if low <= v <= high {
            Some(v)
        } else {
            None
        },
        None => None,
    }
}

/// `parse_nat`, kept to the numbers up to `high`.
pub open spec fn parse_nat_within(s: Seq<char>, high: int) -> Option<nat> {
    match parse_nat(s) {
        Some(n) => if n <= high {
            Some(n)
        } else {
            None
        },
        None => None,
    }
}

/// The digits of a number are digits, there is at least one, and they stand
/// for that number.
pub proof fn lemma_nat_text_reads_back(n: nat)
    ensures
        nat_text(n).len() >= 1,
        all_digits(nat_text(n)),
        digits_value(nat_text(n)) == n,
        parse_nat(nat_text(n)) == Some(n),
    decreases n,
{
    if n < 10 {
        let s = nat_text(n);
        assert(s.drop_last() =~= Seq::<char>::empty());
        assert(digits_value(s.drop_last()) == 0);
    } else {
        let head = nat_text(n / 10);
        let s = nat_text(n);
        lemma_nat_text_reads_back(n / 10);
        assert(s.drop_last() =~= head);
        assert(s.last() == digit_char((n % 10) as int));
        assert forall|i: int| 0 <= i < s.len() implies is_digit(#[trigger] s[i]) by {
            if i < head.len() {
                assert(s[i] == head[i]);
            }
        }
    }
}

/// A number has one digit where it is below ten, and otherwise one more
/// than its tenth.
pub proof fn lemma_nat_text_len(n: nat)
    ensures
        nat_text(n).len() >= 1,
        n < 10 <==> nat_text(n).len() == 1,
        n >= 10 ==> nat_text(n).len() == nat_text(n / 10).len() + 1,
    decreases n,
{
    if n >= 10 {
        lemma_nat_text_len(n / 10);
    }
}

/// The text of an integer reads back as that integer.
pub proof fn lemma_int_text_reads_back(v: int)
    ensures
        parse_int(int_text(v)) == Some(v),
{
    if v < 0 {
        let digits = nat_text((-v) as nat);
        lemma_nat_text_reads_back((-v) as nat);
        assert(int_text(v).skip(1) =~= digits);
    } else {
        let digits = nat_text(v as nat);
        lemma_nat_text_reads_back(v as nat);
        assert(is_digit(digits[0]));
    }
}

/// The text of an integer holds digits and, in front of a negative one, a
/// minus sign: no other character, so no space.
pub proof fn lemma_int_text_chars(v: int)
    ensures
        int_text(v).len() >= 1,
        forall|i: int| 0 <= i < int_text(v).len() ==> is_digit(#[trigger] int_text(v)[i]) || int_text(v)[i] == '-',
{
    if v < 0 {
        let digits = nat_text((-v) as nat);
        lemma_nat_text_reads_back((-v) as nat);
        assert forall|i: int| 0 <= i < int_text(v).len() implies is_digit(
            #[trigger] int_text(v)[i],
        ) || int_text(v)[i] == '-' by {
            if i > 0 {
                assert(int_text(v)[i] == digits[i - 1]);
            }
        }
    } else {
        lemma_nat_text_reads_back(v as nat);
    }
}

/// The character of one digit.
pub fn digit_of(d: u8) -> (c: char)
    requires
        d < 10,
    ensures
        c == digit_char(d as int),
        is_digit(c),
        digit_value(c) == d,
{
    (48u8 + d) as char
}

/// The digits of `value`.
pub fn nat_chars(value: u128) -> (out: Vec<char>)
    ensures
        out@ == nat_text(value as nat),
{
    let mut low_first: Vec<char> = Vec::new();
    let mut rest: u128 = value;
    while rest >= 10
        invariant
            nat_text(value as nat) == nat_text(rest as nat) + low_first@.reverse(),
        decreases rest,
    {
        let d: u8 = (rest % 10) as u8;
        let ghost before = low_first@;
        low_first.push(digit_of(d));
        proof {
            assert(low_first@.reverse() =~= seq![digit_char(d as int)] + before.reverse());
            assert(nat_text(rest as nat) == nat_text((rest / 10) as nat).push(digit_char(d as int)));
            assert(nat_text((rest / 10) as nat).push(digit_char(d as int)) + before.reverse()
                =~= nat_text((rest / 10) as nat) + (seq![digit_char(d as int)] + before.reverse()));
        }
        rest = rest / 10;
    }
    let ghost before = low_first@;
    low_first.push(digit_of(rest as u8));
    proof {
        assert(low_first@.reverse() =~= seq![digit_char(rest as int)] + before.reverse());
        assert(nat_text(rest as nat) + before.reverse() =~= low_first@.reverse());
    }
    let mut out: Vec<char> = Vec::new();
    let mut i: usize = low_first.len();
    while i > 0
        invariant
            i <= low_first.len(),
            out@ == low_first@.reverse().take(low_first.len() - i),
        decreases i,
    {
        i -= 1;
        out.push(low_first[i]);
        assert(low_first@.reverse().take(low_first.len() - i) =~= low_first@.reverse().take(
            low_first.len() - i - 1,
        ).push(low_first@[i as int]));
    }
    assert(low_first@.reverse().take(low_first.len() as int) =~= low_first@.reverse());
    out
}

/// The magnitude of `value`.
pub fn magnitude(value: i128) -> (m: u128)
    ensures
        m == if value < 0 {
            -value
        } else {
            value as int
        },
{
    if value >= 0 {
        value as u128
    } else {
        let above: i128 = value + 1;
        ((-above) as u128) + 1
    }
}

/// The text of `value`: its digits, after a minus sign where it is negative.
pub fn int_chars(value: i128) -> (out: Vec<char>)
    ensures
        out@ == int_text(value as int),
{
    let digits = nat_chars(magnitude(value));
    if value < 0 {
        let mut out: Vec<char> = Vec::new();
        out.push('-');
        crate::text::push_all(&mut out, &digits);
        assert(out@ =~= seq!['-'] + digits@);
        out
    } else {
        digits
    }
}

/// The text of `value` with its sign always written.
pub fn signed_chars(value: i128) -> (out: Vec<char>)
    ensures
        out@ == signed_text(value as int),
{
    let digits = nat_chars(magnitude(value));
    let mut out: Vec<char> = Vec::new();
    if value < 0 {
        out.push('-');
    } else {
        out.push('+');
    }
    crate::text::push_all(&mut out, &digits);
    assert(out@ =~= seq![if value < 0 { '-' } else { '+' }] + digits@);
    out
}

/// A run of digits stands for no less than any of its prefixes, and for
/// nothing below zero.
pub proof fn lemma_digits_value_prefix(s: Seq<char>, k: int)
    requires
        all_digits(s),
        0 <= k <= s.len(),
    ensures
        0 <= digits_value(s.take(k)) <= digits_value(s),
    decreases s.len(),
{
    if k == s.len() {
        assert(s.take(k) =~= s);
        if k > 0 {
            assert(s.drop_last() =~= s.take(k - 1));
            assert(all_digits(s.drop_last()));
            lemma_digits_value_prefix(s.drop_last(), k - 1);
            assert(s.drop_last().take(k - 1) =~= s.drop_last());
            assert(is_digit(s[k - 1]));
        }
    } else {
        let front = s.drop_last();
        assert(all_digits(front));
        assert(front.take(k) =~= s.take(k));
        lemma_digits_value_prefix(front, k);
        lemma_digits_value_prefix(front, front.len() as int);
        assert(front.take(front.len() as int) =~= front);
        assert(is_digit(s[s.len() - 1]));
    }
}

/// Reads `text[from..to]` as a natural number of at most `high`.
pub fn read_nat(text: &Vec<char>, from: usize, to: usize, high: u128) -> (r: Option<u128>)
    requires
        from <= to <= text.len(),
    ensures
        match r {
            Some(n) => parse_nat_within(text@.subrange(from as int, to as int), high as int)
                == Some(n as nat),
            None => parse_nat_within(text@.subrange(from as int, to as int), high as int) is None,
        },
{
    let ghost s = text@.subrange(from as int, to as int);
    if from == to {
        return None;
    }
    let mut acc: u128 = 0;
    let mut i: usize = from;
    while i < to
        invariant
            from <= i <= to <= text.len(),
            s == text@.subrange(from as int, to as int),
            all_digits(s.take(i - from)),
            acc == digits_value(s.take(i - from)),
            acc <= high,
        decreases to - i,
    {
        let c = text[i];
        let ghost seen = s.take(i - from);
        let ghost next = s.take(i - from + 1);
        proof {
            assert(next.drop_last() =~= seen);
            assert(next.last() == c);
            assert(s[i - from] == c);
        }
        if c < '0' || c > '9' {
            return None;
        }
        let d: u128 = (c as u32 - 48) as u128;
        proof {
            assert forall|k: int| 0 <= k < next.len() implies is_digit(#[trigger] next[k]) by {
                if k < seen.len() {
                    assert(next[k] == seen[k]);
                }
            }
        }
        if d > high || acc > (high - d) / 10 {
            proof {
                assert(digits_value(next) > high);
                if all_digits(s) {
                    lemma_digits_value_prefix(s, i - from + 1);
                }
            }
            return None;
        }
        acc = acc * 10 + d;
        i += 1;
    }
    assert(s.take(to - from) =~= s);
    Some(acc)
}

/// Reads `text[from..to]` as an integer of 32 bits, with at most one sign
/// in front.
pub fn read_i32(text: &Vec<char>, from: usize, to: usize) -> (r: Option<i32>)
    requires
        from <= to <= text.len(),
    ensures
        match r {
            Some(v) => parse_int_within(
                text@.subrange(from as int, to as int),
                i32::MIN as int,
                i32::MAX as int,
            ) == Some(v as int),
            None => parse_int_within(
                text@.subrange(from as int, to as int),
                i32::MIN as int,
                i32::MAX as int,
            ) is None,
        },
{
    let ghost s = text@.subrange(from as int, to as int);
    if from < to && text[from] == '-' {
        assert(s[0] == '-');
        assert(s.skip(1) =~= text@.subrange(from + 1, to as int));
        match read_nat(text, from + 1, to, 2147483648) {
            Some(n) => Some((-(n as i64)) as i32),
            None => None,
        }
    } else if from < to && text[from] == '+' {
        assert(s[0] == '+');
        assert(s.skip(1) =~= text@.subrange(from + 1, to as int));
        match read_nat(text, from + 1, to, 2147483647) {
            Some(n) => Some(n as i32),
            None => None,
        }
    } else {
        assert(from < to ==> s[0] == text@[from as int]);
        match read_nat(text, from, to, 2147483647) {
            Some(n) => Some(n as i32),
            None => None,
        }
    }
}

/// How many characters the text of `value` has, the minus sign counted.
pub fn int_width(value: i128) -> (width: usize)
    ensures
        width == int_text(value as int).len(),
        1 <= width <= 40,
{
    let mut rest: u128 = magnitude(value);
    let mut width: usize = if value < 0 { 2 } else { 1 };
    let ghost sign: int = if value < 0 { 1 } else { 0 };
    let ghost all: nat = rest as nat;
    proof {
        lemma_nat_text_len_u128(all);
    }
    while rest >= 10
        invariant
            width + nat_text(rest as nat).len() == sign + 1 + nat_text(all).len(),
            nat_text(rest as nat).len() >= 1,
            nat_text(all).len() <= 39,
            0 <= sign <= 1,
        decreases rest,
    {
        proof {
            lemma_nat_text_len(rest as nat);
            lemma_nat_text_len((rest / 10) as nat);
        }
        rest = rest / 10;
        width += 1;
    }
    proof {
        lemma_nat_text_len(rest as nat);
    }
    width
}

/// Ten to the `k`.
pub open spec fn pow10(k: nat) -> nat
    decreases k,
{
    if k == 0 {
        1
    } else {
        10 * pow10((k - 1) as nat)
    }
}

/// A number below ten to the `k` has at most `k` digits.
pub proof fn lemma_nat_text_len_below(n: nat, k: nat)
    requires
        k >= 1,
        n < pow10(k),
    ensures
        nat_text(n).len() <= k,
    decreases k,
{
    if n >= 10 {
        assert(pow10(1) == 10) by {
            reveal_with_fuel(pow10, 2);
        }
        if k == 1 {
        } else {
            lemma_nat_text_len_below(n / 10, (k - 1) as nat);
        }
    }
}

/// A number that fits in 128 bits has at most 39 digits.
pub proof fn lemma_nat_text_len_u128(n: nat)
    requires
        n <= u128::MAX,
    ensures
        nat_text(n).len() <= 39,
{
    assert(pow10(39) == 1000000000000000000000000000000000000000) by {
        reveal_with_fuel(pow10, 40);
    }
    lemma_nat_text_len_below(n, 39);
}

} // verus!
