use vstd::prelude::*;
use vstd::string::StrSliceExecFns;

use crate::errors::TxError;

verus! {

/// A character with the Unicode `White_Space` property — the set that
/// `str::trim` removes: the ASCII whitespace characters, next line, no-break
/// space, ogham space mark, the en-quad–hair-space block, line and paragraph
/// separators, narrow no-break space, medium mathematical space, and
/// ideographic space.
pub open spec fn is_space(c: char) -> bool {
    ||| c == ' '
    ||| ('\u{9}' <= c && c <= '\u{d}')
    ||| c == '\u{85}'
    ||| c == '\u{a0}'
    ||| c == '\u{1680}'
    ||| ('\u{2000}' <= c && c <= '\u{200a}')
    ||| c == '\u{2028}'
    ||| c == '\u{2029}'
    ||| c == '\u{202f}'
    ||| c == '\u{205f}'
    ||| c == '\u{3000}'
}

/// `s` without its leading whitespace.
pub open spec fn ltrim(s: Seq<char>) -> Seq<char>
    decreases s.len(),
{
    if s.len() > 0 && is_space(s[0]) {
        ltrim(s.subrange(1, s.len() as int))
    } else {
        s
    }
}

/// `s` without its trailing whitespace.
pub open spec fn rtrim(s: Seq<char>) -> Seq<char>
    decreases s.len(),
{
    if s.len() > 0 && is_space(s[s.len() - 1]) {
        rtrim(s.subrange(0, s.len() - 1))
    } else {
        s
    }
}

/// `s` without its surrounding whitespace.
pub open spec fn trimmed(s: Seq<char>) -> Seq<char> {
    rtrim(ltrim(s))
}

/// A decimal digit.
pub open spec fn is_digit(c: char) -> bool {
    '0' <= c && c <= '9'
}

/// Every character of `s` is a decimal digit.
pub open spec fn all_digits(s: Seq<char>) -> bool {
    forall|i: int| 0 <= i < s.len() ==> is_digit(s[i])
}

/// The numeric value of one decimal digit.
pub open spec fn digit_val(c: char) -> int
    recommends
        is_digit(c),
{
    c as int - '0' as int
}

/// The base-10 value of a digit string, most significant digit first.
pub open spec fn digits_value(s: Seq<char>) -> int
    recommends
        all_digits(s),
    decreases s.len(),
{
    if s.len() == 0 {
        0
    } else {
        digits_value(s.drop_last()) * 10 + digit_val(s.last())
    }
}

/// The texts that parse as a satoshi amount: after trimming whitespace, a
/// non-empty run of decimal digits whose value fits in a `u64`.
pub open spec fn valid_amount(s: Seq<char>) -> bool {
    let t = trimmed(s);
    t.len() > 0 && all_digits(t) && digits_value(t) <= u64::MAX
}

proof fn lemma_ltrim_at(s: Seq<char>, k: int)
    requires
        0 <= k <= s.len(),
        forall|j: int| 0 <= j < k ==> is_space(s[j]),
        k == s.len() || !is_space(s[k]),
    ensures
        ltrim(s) == s.subrange(k, s.len() as int),
    decreases k,
{
    if k == 0 {
        assert(s.subrange(0, s.len() as int) =~= s);
    } else {
        let rest = s.subrange(1, s.len() as int);
        lemma_ltrim_at(rest, k - 1);
        assert(rest.subrange(k - 1, rest.len() as int) =~= s.subrange(k, s.len() as int));
    }
}

proof fn lemma_rtrim_at(s: Seq<char>, e: int)
    requires
        0 <= e <= s.len(),
        forall|j: int| e <= j < s.len() ==> is_space(s[j]),
        e == 0 || !is_space(s[e - 1]),
    ensures
        rtrim(s) == s.subrange(0, e),
    decreases s.len(),
{
    if e == s.len() {
        assert(s.subrange(0, e) =~= s);
    } else {
        let rest = s.subrange(0, s.len() - 1);
        lemma_rtrim_at(rest, e);
        assert(rest.subrange(0, e) =~= s.subrange(0, e));
    }
}

proof fn lemma_digits_value_nonneg(s: Seq<char>)
    requires
        all_digits(s),
    ensures
        digits_value(s) >= 0,
    decreases s.len(),
{
    if s.len() > 0 {
        assert(all_digits(s.drop_last()));
        lemma_digits_value_nonneg(s.drop_last());
    }
}

/// The value of a digit string is at least the value of any of its prefixes:
/// appending digits never decreases the value.
proof fn lemma_digits_value_prefix(s: Seq<char>, k: int)
    requires
        all_digits(s),
        0 <= k <= s.len(),
    ensures
        digits_value(s.subrange(0, k)) <= digits_value(s),
    decreases s.len(),
{
    if k == s.len() {
        assert(s.subrange(0, k) =~= s);
    } else {
        let init = s.drop_last();
        assert(all_digits(init));
        assert(init.subrange(0, k) =~= s.subrange(0, k));
        lemma_digits_value_prefix(init, k);
        lemma_digits_value_nonneg(init);
    }
}

fn is_space_exec(c: char) -> (r: bool)
    ensures
        r == is_space(c),
{
    let u = c as u32;
    u == 0x20 || (0x9 <= u && u <= 0xd) || u == 0x85 || u == 0xa0 || u == 0x1680 || (0x2000 <= u
        && u <= 0x200a) || u == 0x2028 || u == 0x2029 || u == 0x202f || u == 0x205f || u == 0x3000
}

fn digit_val_exec(c: char) -> (r: Option<u64>)
    ensures
        is_digit(c) ==> r == Some(digit_val(c) as u64),
        !is_digit(c) ==> r is None,
{
    let u = c as u32;
    if 48 <= u && u <= 57 {
        Some((u - 48) as u64)
    } else {
        None
    }
}

/// Parses a satoshi amount: surrounding whitespace is trimmed, and what
/// remains must be a non-empty string of decimal digits whose value fits in
/// an unsigned 64-bit integer. Anything else — an empty or all-whitespace
/// input, a sign, a decimal point, any other non-digit, or a value beyond
/// `u64::MAX` — fails with `InvalidAmount`.
pub fn parse_satoshis(input: &str) -> (r: Result<u64, TxError>)
    ensures
        valid_amount(input@) ==> r == Result::<u64, TxError>::Ok(
            digits_value(trimmed(input@)) as u64,
        ),
        !valid_amount(input@) ==> r == Result::<u64, TxError>::Err(TxError::InvalidAmount),
{
    let ghost s = input@;
    let n = input.unicode_len();
    let mut chars: Vec<char> = Vec::new();
    let mut i: usize = 0;
    while i < n
        invariant
            n == s.len(),
            s == input@,
            i <= n,
            chars@ == s.subrange(0, i as int),
        decreases n - i,
    {
        chars.push(input.get_char(i));
        proof {
            assert(chars@ =~= s.subrange(0, i + 1 as int));
        }
        i += 1;
    }
    proof {
        assert(chars@ =~= s);
    }

    let mut start: usize = 0;
    while start < n && is_space_exec(chars[start])
        invariant
            n == s.len(),
            s == input@,
            chars@ == s,
            start <= n,
            forall|j: int| 0 <= j < start ==> is_space(s[j]),
        decreases n - start,
    {
        start += 1;
    }
    proof {
        lemma_ltrim_at(s, start as int);
    }

    let mut end: usize = n;
    while end > start && is_space_exec(chars[end - 1])
        invariant
            n == s.len(),
            s == input@,
            chars@ == s,
            start <= end <= n,
            forall|j: int| end <= j < n ==> is_space(s[j]),
        decreases end,
    {
        end -= 1;
    }
    proof {
        let lt = s.subrange(start as int, n as int);
        lemma_rtrim_at(lt, end - start);
        assert(lt.subrange(0, end - start) =~= s.subrange(start as int, end as int));
        assert(trimmed(s) == s.subrange(start as int, end as int));
    }

    if start == end {
        return Err(TxError::InvalidAmount);
    }

    let mut acc: u64 = 0;
    let mut i: usize = start;
    while i < end
        invariant
            n == s.len(),
            s == input@,
            chars@ == s,
            start <= i <= end <= n,
            trimmed(s) == s.subrange(start as int, end as int),
            forall|j: int| start <= j < i ==> is_digit(s[j]),
            acc == digits_value(s.subrange(start as int, i as int)),
        decreases end - i,
    {
        let c = chars[i];
        let d = match digit_val_exec(c) {
            Some(d) => d,
            None => {
                proof {
                    assert(trimmed(s)[i - start as int] == s[i as int]);
                    assert(!all_digits(trimmed(s)));
                }
                return Err(TxError::InvalidAmount);
            },
        };
        proof {
            let here = s.subrange(start as int, i + 1 as int);
            assert(here.drop_last() =~= s.subrange(start as int, i as int));
            assert(here.last() == s[i as int]);
            assert(digits_value(here) == acc * 10 + d);
        }
        let next = match acc.checked_mul(10) {
            Some(m) => m.checked_add(d),
            None => None,
        };
        match next {
            Some(v) => {
                acc = v;
            },
            None => {
                proof {
                    let t = trimmed(s);
                    if all_digits(t) {
                        assert(t.subrange(0, i + 1 - start as int) =~= s.subrange(
                            start as int,
                            i + 1 as int,
                        ));
                        lemma_digits_value_prefix(t, i + 1 - start as int);
                        assert(digits_value(t) > u64::MAX);
                    }
                }
                return Err(TxError::InvalidAmount);
            },
        }
        i += 1;
    }
    Ok(acc)
}

} // verus!
