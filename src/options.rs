use vstd::prelude::*;

verus! {

/// Options as the host hands them over: name and value pairs, each name at
/// most once (they come from a map). Lookups take the first pair of a name.
pub type OptionList = Vec<(String, String)>;

/// The value of the first option called `name`, if any.
pub open spec fn lookup(opts: Seq<(String, String)>, name: Seq<char>) -> Option<Seq<char>>
    decreases opts.len(),
{
    if opts.len() == 0 {
        None
    } else if opts[0].0@ == name {
        Some(opts[0].1@)
    } else {
        lookup(opts.drop_first(), name)
    }
}

/// Looks up the option called `name`.
pub fn get_option(opts: &OptionList, name: &str) -> (r: Option<String>)
    ensures
        r matches Some(v) ==> lookup(opts@, name@) == Some(v@),
        r is None ==> lookup(opts@, name@) is None,
{
    let wanted = name.to_owned();
    let mut i: usize = 0;
    assert(opts@.subrange(0, opts@.len() as int) =~= opts@);
    while i < opts.len()
        invariant
            i <= opts.len(),
            wanted@ == name@,
            lookup(opts@, name@) == lookup(opts@.subrange(i as int, opts@.len() as int), name@),
        decreases opts.len() - i,
    {
        let ghost rest = opts@.subrange(i as int, opts@.len() as int);
        assert(rest.drop_first() =~= opts@.subrange(i + 1, opts@.len() as int));
        if opts[i].0 == wanted {
            return Some(opts[i].1.clone());
        }
        i += 1;
    }
    None
}

} // verus!

verus! {

pub open spec fn is_digit(c: char) -> bool {
    '0' <= c && c <= '9'
}

pub open spec fn all_digits(s: Seq<char>) -> bool {
    forall|i: int| 0 <= i < s.len() ==> is_digit(#[trigger] s[i])
}

/// The number that a string of decimal digits spells.
pub open spec fn digits_value(s: Seq<char>) -> nat
    decreases s.len(),
{
    if s.len() == 0 {
        0
    } else {
        digits_value(s.drop_last()) * 10 + ((s.last() as nat) - ('0' as nat)) as nat
    }
}

/// Decimal text as an unsigned 64-bit number: an optional `+`, then at least
/// one digit, and a value that fits.
pub open spec fn parse_u64_spec(s: Seq<char>) -> Option<u64> {
    let d = if s.len() > 0 && s[0] == '+' { s.drop_first() } else { s };
    if d.len() > 0 && all_digits(d) && digits_value(d) <= u64::MAX {
        Some(digits_value(d) as u64)
    } else {
        None
    }
}

/// Decimal text as a signed 64-bit number: an optional `+` or `-`, then at
/// least one digit, and a value that fits.
pub open spec fn parse_i64_spec(s: Seq<char>) -> Option<i64> {
    let neg = s.len() > 0 && s[0] == '-';
    let d = if s.len() > 0 && (s[0] == '+' || s[0] == '-') { s.drop_first() } else { s };
    if d.len() == 0 || !all_digits(d) {
        None
    } else if neg && digits_value(d) <= i64::MAX + 1 {
        Some((0 - digits_value(d)) as i64)
    } else if !neg && digits_value(d) <= i64::MAX {
        Some(digits_value(d) as i64)
    } else {
        None
    }
}

proof fn lemma_digits_value_prefix(s: Seq<char>, k: int)
    requires
        all_digits(s),
        0 <= k <= s.len(),
    ensures
        digits_value(s.subrange(0, k)) <= digits_value(s),
    decreases s.len(),
{
    if k < s.len() {
        let t = s.drop_last();
        assert(t.subrange(0, k) =~= s.subrange(0, k));
        assert(all_digits(t)) by {
            assert forall|i: int| 0 <= i < t.len() implies is_digit(#[trigger] t[i]) by {
                assert(t[i] == s[i]);
            }
        }
        lemma_digits_value_prefix(t, k);
    } else {
        assert(s.subrange(0, k) =~= s);
    }
}

/// Reads the digits of `s` from `start` on; `None` where one is not a digit,
/// there is none, or the number does not fit in 64 bits.
fn parse_digits(s: &str, start: usize) -> (r: Option<u64>)
    requires
        start <= s@.len(),
    ensures
        ({
            let d = s@.subrange(start as int, s@.len() as int);
            r == (if d.len() > 0 && all_digits(d) && digits_value(d) <= u64::MAX {
                Some(digits_value(d) as u64)
            } else {
                None
            })
        }),
{
    let n = s.unicode_len();
    let ghost full = s@.subrange(start as int, s@.len() as int);
    if start == n {
        return None;
    }
    let mut acc: u64 = 0;
    let mut i: usize = start;
    while i < n
        invariant
            n == s@.len(),
            start <= i <= n,
            full == s@.subrange(start as int, n as int),
            all_digits(s@.subrange(start as int, i as int)),
            acc as nat == digits_value(s@.subrange(start as int, i as int)),
        decreases n - i,
    {
        let c = s.get_char(i);
        let ghost pre = s@.subrange(start as int, i as int);
        let ghost next = s@.subrange(start as int, i + 1);
        assert(next.drop_last() =~= pre);
        assert(next.last() == c);
        if !('0' <= c && c <= '9') {
            assert(full[i - start] == c);
            return None;
        }
        assert(all_digits(next)) by {
            assert forall|j: int| 0 <= j < next.len() implies is_digit(#[trigger] next[j]) by {
                if j < pre.len() {
                    assert(next[j] == pre[j]);
                }
            }
        }
        let d = (c as u32 - '0' as u32) as u64;
        if acc > (u64::MAX - d) / 10 {
            proof {
                assert(digits_value(next) > u64::MAX) by (nonlinear_arith)
                    requires
                        digits_value(next) == acc * 10 + d,
                        acc > (u64::MAX - d) / 10,
                        d <= 9,
                ;
                if all_digits(full) {
                    assert(full.subrange(0, i + 1 - start) =~= next);
                    lemma_digits_value_prefix(full, i + 1 - start);
                }
            }
            return None;
        }
        assert(acc * 10 + d <= u64::MAX) by (nonlinear_arith)
            requires
                acc <= (u64::MAX - d) / 10,
                d <= 9,
        ;
        acc = acc * 10 + d;
        i += 1;
    }
    Some(acc)
}

/// Parses decimal text as a `u64`, as the standard library's `u64::from_str` does.
pub fn parse_u64(s: &str) -> (r: Option<u64>)
    ensures
        r == parse_u64_spec(s@),
{
    let n = s.unicode_len();
    if n > 0 && s.get_char(0) == '+' {
        assert(s@.drop_first() =~= s@.subrange(1, s@.len() as int));
        parse_digits(s, 1)
    } else {
        assert(s@ =~= s@.subrange(0, s@.len() as int));
        parse_digits(s, 0)
    }
}

/// Parses decimal text as an `i64`, as the standard library's `i64::from_str` does.
pub fn parse_i64(s: &str) -> (r: Option<i64>)
    ensures
        r == parse_i64_spec(s@),
{
    let n = s.unicode_len();
    let neg = n > 0 && s.get_char(0) == '-';
    let start: usize = if n > 0 && (s.get_char(0) == '+' || s.get_char(0) == '-') {
        1
    } else {
        0
    };
    assert(s@.drop_first() =~= s@.subrange(1, s@.len() as int));
    assert(s@ =~= s@.subrange(0, s@.len() as int));
    match parse_digits(s, start) {
        None => None,
        Some(m) => {
            if neg {
                if m <= 9223372036854775808 {
                    if m == 9223372036854775808 {
                        Some(i64::MIN)
                    } else {
                        Some(0 - (m as i64))
                    }
                } else {
                    None
                }
            } else if m <= 9223372036854775807 {
                Some(m as i64)
            } else {
                None
            }
        },
    }
}

} // verus!
