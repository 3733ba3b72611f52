use vstd::prelude::*;

verus! {

/// The text of an optional string.
pub open spec fn opt_view(o: Option<String>) -> Option<Seq<char>> {
    match o {
        Some(s) => Some(s@),
        None => None,
    }
}

/// Compares two strings character by character.
pub fn str_eq(a: &str, b: &str) -> (r: bool)
    ensures
        r == (a@ == b@),
{
    let n = a.unicode_len();
    let m = b.unicode_len();
    if n != m {
        return false;
    }
    let mut i: usize = 0;
    while i < n
        invariant
            n == a@.len(),
            m == b@.len(),
            n == m,
            i <= n,
            forall|j: int| 0 <= j < i ==> a@[j] == b@[j],
        decreases n - i,
    {
        if a.get_char(i) != b.get_char(i) {
            return false;
        }
        i = i + 1;
    }
    assert(a@ =~= b@);
    true
}

/// The position of the first `c` in `s`, if there is one.
pub fn find_char(s: &str, c: char) -> (r: Option<usize>)
    ensures
        match r {
            Some(i) => i < s@.len() && s@[i as int] == c && forall|j: int| 0 <= j < i ==> s@[j] != c,
            None => forall|j: int| 0 <= j < s@.len() ==> s@[j] != c,
        },
{
    let n = s.unicode_len();
    let mut i: usize = 0;
    while i < n
        invariant
            n == s@.len(),
            i <= n,
            forall|j: int| 0 <= j < i ==> s@[j] != c,
        decreases n - i,
    {
        if s.get_char(i) == c {
            return Some(i);
        }
        i = i + 1;
    }
    None
}

/// Whether `c` has Unicode's White_Space property, which is what `char::is_whitespace` tests.
pub open spec fn is_white_space(c: char) -> bool {
    let u = c as u32;
    (9 <= u <= 13) || u == 32 || u == 0x85 || u == 0xa0 || u == 0x1680 || (0x2000 <= u <= 0x200a)
        || u == 0x2028 || u == 0x2029 || u == 0x202f || u == 0x205f || u == 0x3000
}

/// `s` without its leading white space.
pub open spec fn trim_start_of(s: Seq<char>) -> Seq<char>
    decreases s.len(),
{
    if s.len() > 0 && is_white_space(s[0]) {
        trim_start_of(s.skip(1))
    } else {
        s
    }
}

/// `s` without its trailing white space.
pub open spec fn trim_end_of(s: Seq<char>) -> Seq<char>
    decreases s.len(),
{
    if s.len() > 0 && is_white_space(s.last()) {
        trim_end_of(s.drop_last())
    } else {
        s
    }
}

/// `s` without its leading and trailing white space.
pub open spec fn trim_of(s: Seq<char>) -> Seq<char> {
    trim_end_of(trim_start_of(s))
}

/// Relies on `str::trim`: it returns the string with the leading and trailing characters
/// removed for which `char::is_whitespace` holds, that is those with the White_Space property.
#[verifier::external_body]
pub(crate) fn trim(s: &str) -> (r: &str)
    ensures
        r@ == trim_of(s@),
{
    s.trim()
}

/// Whether `s` is a non-empty run of ASCII digits.
pub open spec fn is_digits(s: Seq<char>) -> bool {
    s.len() > 0 && forall|i: int| 0 <= i < s.len() ==> '0' <= #[trigger] s[i] <= '9'
}

/// The number that the ASCII digits `s` spell in base ten.
pub open spec fn digits_value(s: Seq<char>) -> int
    decreases s.len(),
{
    if s.len() == 0 {
        0
    } else {
        digits_value(s.drop_last()) * 10 + (s.last() as int - '0' as int)
    }
}

/// The integer that `s` spells in base ten: digits, with an optional `+` or `-` in front.
pub open spec fn decimal_value(s: Seq<char>) -> Option<int> {
    if s.len() > 0 && s[0] == '-' && is_digits(s.skip(1)) {
        Some(-digits_value(s.skip(1)))
    } else if s.len() > 0 && s[0] == '+' && is_digits(s.skip(1)) {
        Some(digits_value(s.skip(1)))
    } else if is_digits(s) {
        Some(digits_value(s))
    } else {
        None
    }
}

/// The ASCII digit for `d`, which lies between 0 and 9.
pub open spec fn digit_char(d: int) -> char {
    if d == 0 {
        '0'
    } else if d == 1 {
        '1'
    } else if d == 2 {
        '2'
    } else if d == 3 {
        '3'
    } else if d == 4 {
        '4'
    } else if d == 5 {
        '5'
    } else if d == 6 {
        '6'
    } else if d == 7 {
        '7'
    } else if d == 8 {
        '8'
    } else {
        '9'
    }
}

/// The base-ten digits of `n`, without leading zeros.
pub open spec fn digits_text(n: nat) -> Seq<char>
    decreases n,
{
    if n < 10 {
        seq![digit_char(n as int)]
    } else {
        digits_text(n / 10).push(digit_char((n % 10) as int))
    }
}

/// The base-ten text of `v`, with a `-` in front when it is negative.
pub open spec fn decimal_text(v: int) -> Seq<char> {
    if v < 0 {
        seq!['-'] + digits_text((-v) as nat)
    } else {
        digits_text(v as nat)
    }
}

proof fn lemma_digit_char(d: int)
    requires
        0 <= d < 10,
    ensures
        '0' <= digit_char(d) <= '9',
        digit_char(d) as int - '0' as int == d,
        !is_white_space(digit_char(d)),
{
}

proof fn lemma_digits_text(n: nat)
    ensures
        is_digits(digits_text(n)),
        digits_value(digits_text(n)) == n,
    decreases n,
{
    let t = digits_text(n);
    if n < 10 {
        lemma_digit_char(n as int);
        assert(t.drop_last() =~= Seq::<char>::empty());
        assert(digits_value(t.drop_last()) == 0);
        assert(t.last() == digit_char(n as int));
    } else {
        lemma_digits_text(n / 10);
        lemma_digit_char((n % 10) as int);
        assert(t.drop_last() =~= digits_text(n / 10));
        assert(t.last() == digit_char((n % 10) as int));
        assert(n == (n / 10) * 10 + n % 10) by (nonlinear_arith);
        assert forall|i: int| 0 <= i < t.len() implies '0' <= #[trigger] t[i] <= '9' by {
            if i < t.len() - 1 {
                assert(t[i] == digits_text(n / 10)[i]);
            }
        }
    }
}

/// The decimal text of an integer reads back as that integer, and trimming leaves it as it is.
pub proof fn lemma_decimal_text(v: int)
    ensures
        decimal_value(decimal_text(v)) == Some(v),
        trim_of(decimal_text(v)) == decimal_text(v),
        decimal_text(v).len() > 0,
        decimal_text(v)[0] == '-' || '0' <= decimal_text(v)[0] <= '9',
{
    let t = decimal_text(v);
    if v < 0 {
        let d = digits_text((-v) as nat);
        lemma_digits_text((-v) as nat);
        assert(t.skip(1) =~= d);
        assert(t.last() == d.last());
        assert(d.contains(d.last()));
        assert('0' <= d[d.len() - 1] <= '9');
    } else {
        lemma_digits_text(v as nat);
        assert('0' <= t[t.len() - 1] <= '9');
        assert('0' <= t[0] <= '9');
    }
    assert(!is_white_space(t[0]));
    assert(!is_white_space(t.last()));
    assert(trim_start_of(t) == t);
    assert(trim_end_of(t) == t);
}

/// Relies on `i32::from_str`: it accepts an optional sign followed by decimal digits, and
/// fails on anything else or on a value out of the range of `i32`.
#[verifier::external_body]
pub(crate) fn parse_i32(s: &str) -> (r: Result<i32, ()>)
    ensures
        match r {
            Ok(v) => decimal_value(s@) == Some(v as int),
            Err(_) => !(decimal_value(s@) matches Some(v) && i32::MIN <= v <= i32::MAX),
        },
{
    s.parse::<i32>().map_err(|_| ())
}

} // verus!
