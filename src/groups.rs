use vstd::prelude::*;
use vstd::string::StrSliceExecFns;

verus! {

/// Number of decimal digits needed to write `n` (one for zero).
pub open spec fn decimal_digits(n: nat) -> nat
    decreases n,
{
    if n < 10 {
        1
    } else {
        1 + decimal_digits(n / 10)
    }
}

proof fn lemma_decimal_digits_bounds(n: nat)
    ensures
        1 <= decimal_digits(n),
        n >= 1 ==> decimal_digits(n) <= n,
        n >= 10 ==> decimal_digits(n) >= 2,
    decreases n,
{
    if n >= 10 {
        lemma_decimal_digits_bounds(n / 10);
    }
}

/// Width of the widest index when `number` items are listed from zero,
/// i.e. the number of decimal digits of `number`.
pub fn get_amount_of_digits_for_number(number: usize) -> (r: usize)
    ensures
        r == decimal_digits(number as nat),
{
    let mut n: usize = number;
    let mut count: usize = 1;
    proof {
        lemma_decimal_digits_bounds(number as nat);
    }
    while n >= 10
        invariant
            count + decimal_digits(n as nat) == 1 + decimal_digits(number as nat),
            number >= 10 ==> decimal_digits(number as nat) <= number,
            n < 10 || number >= 10,
        decreases n,
    {
        proof {
            lemma_decimal_digits_bounds(n as nat);
        }
        n = n / 10;
        count = count + 1;
    }
    count
}

/// What `str::trim` leaves of `s`.
pub uninterp spec fn trimmed(s: Seq<char>) -> Seq<char>;

/// Relies on `str::trim`: the text without the whitespace around it, a
/// function of the text alone.
#[verifier::external_body]
fn trim_reply<'a>(s: &'a str) -> (r: &'a str)
    ensures
        r@ == trimmed(s@),
{
    s.trim()
}

pub open spec fn is_digit(c: char) -> bool {
    '0' <= c && c <= '9'
}

pub open spec fn digit_value(c: char) -> nat {
    (c as u32 - '0' as u32) as nat
}

/// The number that the decimal digits `s` write.
pub open spec fn decimal_value(s: Seq<char>) -> nat
    decreases s.len(),
{
    if s.len() == 0 {
        0
    } else {
        decimal_value(s.drop_last()) * 10 + digit_value(s.last())
    }
}

/// `s` without one leading plus sign, which an unsigned number may carry.
pub open spec fn unsigned_part(s: Seq<char>) -> Seq<char> {
    if s.len() > 0 && s[0] == '+' {
        s.subrange(1, s.len() as int)
    } else {
        s
    }
}

/// One or more decimal digits and nothing else.
pub open spec fn is_decimal(s: Seq<char>) -> bool {
    s.len() > 0 && forall|i: int| 0 <= i < s.len() ==> is_digit(#[trigger] s[i])
}

/// `s` writes an unsigned integer below `n_groups`, the index of a group.
pub open spec fn is_group_choice(s: Seq<char>, n_groups: nat) -> bool {
    is_decimal(unsigned_part(s)) && decimal_value(unsigned_part(s)) < n_groups
}

/// The index that `reply` selects among `n_groups` groups listed from zero:
/// `None` where it is no unsigned integer, or not below `n_groups`.
pub fn parse_group_index(reply: &str, n_groups: usize) -> (r: Option<usize>)
    ensures
        r is Some <==> is_group_choice(reply@, n_groups as nat),
        r matches Some(i) ==> i as nat == decimal_value(unsigned_part(reply@)),
{
    let len = reply.unicode_len();
    let mut start: usize = 0;
    if len > 0 && reply.get_char(0) == '+' {
        start = 1;
    }
    if start >= len {
        return None;
    }
    let ghost digits = unsigned_part(reply@);
    assert(digits =~= reply@.subrange(start as int, len as int));
    // `value` is the number read so far, or `n_groups` once that is reached.
    let mut value: usize = 0;
    let mut i: usize = start;
    assert(digits.subrange(0, 0) =~= Seq::<char>::empty());
    while i < len
        invariant
            start <= i <= len,
            len == reply@.len(),
            digits == reply@.subrange(start as int, len as int),
            digits == unsigned_part(reply@),
            forall|j: int| 0 <= j < i - start ==> is_digit(#[trigger] digits[j]),
            value == if decimal_value(digits.subrange(0, i - start)) < n_groups {
                decimal_value(digits.subrange(0, i - start))
            } else {
                n_groups as nat
            },
        decreases len - i,
    {
        let c = reply.get_char(i);
        if !('0' <= c && c <= '9') {
            assert(digits[i - start] == c);
            assert(!is_digit(digits[i - start]));
            return None;
        }
        let d: usize = (c as u32 - '0' as u32) as usize;
        let ghost prefix = digits.subrange(0, i - start);
        let ghost next_prefix = digits.subrange(0, i + 1 - start);
        assert(next_prefix.drop_last() =~= prefix);
        assert(next_prefix.last() == c);
        if value < n_groups {
            let next: u128 = value as u128 * 10 + d as u128;
            if next >= n_groups as u128 {
                value = n_groups;
            } else {
                value = next as usize;
            }
        }
        i = i + 1;
    }
    assert(digits.subrange(0, len - start) =~= digits);
    if value < n_groups {
        Some(value)
    } else {
        None
    }
}

/// The group that the line `reply` selects among `n_groups` groups listed
/// from zero, once the whitespace around it is trimmed.
pub fn ask_group(reply: &str, n_groups: usize) -> (r: Option<usize>)
    ensures
        r is Some <==> is_group_choice(trimmed(reply@), n_groups as nat),
        r matches Some(i) ==> i as nat == decimal_value(unsigned_part(trimmed(reply@))),
{
    let text = trim_reply(reply);
    parse_group_index(text, n_groups)
}

} // verus!
