//! String operations of std that the validator relies on, and the literal
//! forms of script values.
use vstd::prelude::*;

verus! {

/// What `str::to_lowercase` makes of a string.
pub uninterp spec fn lower_of(s: Seq<char>) -> Seq<char>;

/// Relies on `str::to_lowercase`: its result depends on the characters alone.
#[verifier::external_body]
pub(crate) fn lowercase(s: &str) -> (r: String)
    ensures
        r@ == lower_of(s@),
{
    s.to_lowercase()
}

/// Relies on `PartialEq for str`: two strings are equal when their characters are.
#[verifier::external_body]
pub(crate) fn str_eq(a: &str, b: &str) -> (r: bool)
    ensures
        r == (a@ == b@),
{
    a == b
}

/// Relies on `str::strip_prefix`: the rest of `s` after `prefix`, if `s` starts with it.
#[verifier::external_body]
pub(crate) fn strip_prefix<'a>(s: &'a str, prefix: &str) -> (r: Option<&'a str>)
    ensures
        r is Some <==> prefix@.is_prefix_of(s@),
        r matches Some(t) ==> t@ == s@.subrange(prefix@.len() as int, s@.len() as int),
{
    s.strip_prefix(prefix)
}

/// `suffix` ends `s`.
pub open spec fn is_suffix_of(suffix: Seq<char>, s: Seq<char>) -> bool {
    suffix.len() <= s.len() && s.subrange(s.len() - suffix.len(), s.len() as int) == suffix
}

/// Relies on `str::strip_suffix`: `s` without `suffix`, if `s` ends with it.
#[verifier::external_body]
pub(crate) fn strip_suffix<'a>(s: &'a str, suffix: &str) -> (r: Option<&'a str>)
    ensures
        r is Some <==> is_suffix_of(suffix@, s@),
        r matches Some(t) ==> t@ == s@.subrange(0, s@.len() - suffix@.len()),
{
    s.strip_suffix(suffix)
}

/// `name` with `prefix` and `suffix` taken off, if it has both.
pub open spec fn strip_both(name: Seq<char>, prefix: Seq<char>, suffix: Seq<char>) -> Option<
    Seq<char>,
> {
    if is_suffix_of(suffix, name) && prefix.is_prefix_of(name.subrange(0, name.len() - suffix.len())) {
        Some(name.subrange(prefix.len() as int, name.len() - suffix.len()))
    } else {
        None
    }
}

/// `name` with `prefix` taken off, if it has it.
pub open spec fn strip_front(name: Seq<char>, prefix: Seq<char>) -> Option<Seq<char>> {
    if prefix.is_prefix_of(name) {
        Some(name.subrange(prefix.len() as int, name.len() as int))
    } else {
        None
    }
}

pub open spec fn is_digit(c: char) -> bool {
    '0' <= c <= '9'
}

/// Every character of `s` is a decimal digit, and there is one at least.
pub open spec fn all_digits(s: Seq<char>) -> bool {
    s.len() >= 1 && forall|i: int| 0 <= i < s.len() ==> is_digit(#[trigger] s[i])
}

/// A whole number: digits, perhaps after a minus sign.
pub open spec fn is_integer_literal(s: Seq<char>) -> bool {
    all_digits(s) || (s.len() >= 1 && s[0] == '-' && all_digits(s.subrange(1, s.len() as int)))
}

/// The unsigned part of a number: digits, perhaps with a point and more digits.
pub open spec fn is_unsigned_number(s: Seq<char>) -> bool {
    all_digits(s) || exists|p: int|
        0 < p < s.len() - 1 && s[p] == '.' && all_digits(s.subrange(0, p)) && all_digits(
            #[trigger] s.subrange(p + 1, s.len() as int),
        )
}

/// A number: an unsigned number, perhaps after a minus sign.
pub open spec fn is_number_literal(s: Seq<char>) -> bool {
    is_unsigned_number(s) || (s.len() >= 1 && s[0] == '-' && is_unsigned_number(
        s.subrange(1, s.len() as int),
    ))
}

/// Whether the characters of `s` from `from` to `to` are all digits, and there is one at least.
fn digits_between(s: &str, from: usize, to: usize) -> (r: bool)
    requires
        from <= to <= s@.len(),
    ensures
        r == all_digits(s@.subrange(from as int, to as int)),
{
    if from == to {
        return false;
    }
    let mut i: usize = from;
    while i < to
        invariant
            from <= i <= to <= s@.len(),
            forall|k: int| from <= k < i ==> is_digit(s@[k]),
        decreases to - i,
    {
        let c = s.get_char(i);
        if !('0' <= c && c <= '9') {
            assert(!is_digit(s@.subrange(from as int, to as int)[i - from]));
            return false;
        }
        i = i + 1;
    }
    assert forall|k: int| 0 <= k < (to - from) implies is_digit(
        #[trigger] s@.subrange(from as int, to as int)[k],
    ) by {
        assert(s@.subrange(from as int, to as int)[k] == s@[from + k]);
    }
    true
}

/// Whether `s@.subrange(from, len)` is an unsigned number.
fn unsigned_number_from(s: &str, from: usize) -> (r: bool)
    requires
        from <= s@.len(),
    ensures
        r == is_unsigned_number(s@.subrange(from as int, s@.len() as int)),
{
    let n = s.unicode_len();
    let ghost t = s@.subrange(from as int, n as int);
    if digits_between(s, from, n) {
        return true;
    }
    let mut p: usize = from;
    while p < n
        invariant
            from <= p <= n,
            n == s@.len(),
            t == s@.subrange(from as int, n as int),
            forall|q: int| from <= q < p ==> s@[q] != '.',
        decreases n - p,
    {
        if s.get_char(p) == '.' {
            let before = digits_between(s, from, p);
            let after = p + 1 < n && digits_between(s, p + 1, n);
            proof {
                let k = p - from;
                assert(t.subrange(0, k) =~= s@.subrange(from as int, p as int));
                if p + 1 <= n {
                    assert(t.subrange(k + 1, t.len() as int) =~= s@.subrange(p + 1, n as int));
                }
                assert(t[k] == '.');
                if before && after {
                    assert(all_digits(t.subrange(k + 1, t.len() as int)));
                }
                if is_unsigned_number(t) && !all_digits(t) {
                    let q = choose|q: int|
                        0 < q < t.len() - 1 && t[q] == '.' && all_digits(t.subrange(0, q))
                            && all_digits(#[trigger] t.subrange(q + 1, t.len() as int));
                    if q < k {
                        assert(s@[from + q] == t[q]);
                    } else if q > k {
                        assert(t.subrange(0, q)[k] == '.');
                    }
                }
            }
            return before && after;
        }
        p = p + 1;
    }
    proof {
        if is_unsigned_number(t) && !all_digits(t) {
            let q = choose|q: int|
                0 < q < t.len() - 1 && t[q] == '.' && all_digits(t.subrange(0, q)) && all_digits(
                    #[trigger] t.subrange(q + 1, t.len() as int),
                );
            assert(s@[from + q] == t[q]);
        }
    }
    false
}

/// Whether `s` is a whole number.
pub fn is_integer(s: &str) -> (r: bool)
    ensures
        r == is_integer_literal(s@),
{
    let n = s.unicode_len();
    proof {
        assert(s@.subrange(0, n as int) =~= s@);
    }
    if digits_between(s, 0, n) {
        return true;
    }
    if n >= 1 && s.get_char(0) == '-' {
        return digits_between(s, 1, n);
    }
    false
}

/// Whether `s` is a number, whole or with a fractional part.
pub fn is_number(s: &str) -> (r: bool)
    ensures
        r == is_number_literal(s@),
{
    let n = s.unicode_len();
    proof {
        assert(s@.subrange(0, n as int) =~= s@);
    }
    if unsigned_number_from(s, 0) {
        return true;
    }
    if n >= 1 && s.get_char(0) == '-' {
        return unsigned_number_from(s, 1);
    }
    false
}

} // verus!
