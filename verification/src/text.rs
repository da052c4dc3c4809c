//! Reading and writing the small text forms the client exchanges with people, settings
//! files and environment variables.

use vstd::prelude::*;
use vstd::string::*;

verus! {

/// `String::push` appends one character.
pub assume_specification[ String::push ](s: &mut String, c: char)
    ensures
        final(s)@ == old(s)@.push(c),
;

/// The characters that count as white space at the ends of a value (Unicode `White_Space`).
pub open spec fn is_space(c: char) -> bool {
    let n = c as u32;
    ||| 0x9 <= n <= 0xd
    ||| n == 0x20
    ||| n == 0x85
    ||| n == 0xa0
    ||| n == 0x1680
    ||| 0x2000 <= n <= 0x200a
    ||| n == 0x2028
    ||| n == 0x2029
    ||| n == 0x202f
    ||| n == 0x205f
    ||| n == 0x3000
}

/// Whether `c` is white space.
pub fn char_is_space(c: char) -> (r: bool)
    ensures
        r == is_space(c),
        r == (0x9 <= c as u32 <= 0xd || c as u32 == 0x20 || c as u32 == 0x85 || c as u32 == 0xa0 || c as u32
            == 0x1680 || 0x2000 <= c as u32 <= 0x200a || c as u32 == 0x2028 || c as u32 == 0x2029
            || c as u32 == 0x202f || c as u32 == 0x205f || c as u32 == 0x3000),
{
    let n: u32 = c as u32;
    (0x9 <= n && n <= 0xd) || n == 0x20 || n == 0x85 || n == 0xa0 || n == 0x1680 || (0x2000 <= n
        && n <= 0x200a) || n == 0x2028 || n == 0x2029 || n == 0x202f || n == 0x205f || n
        == 0x3000
}

/// `s` without leading white space.
pub open spec fn trimmed_start(s: Seq<char>) -> Seq<char>
    decreases s.len(),
{
    if s.len() > 0 && is_space(s.first()) {
        trimmed_start(s.drop_first())
    } else {
        s
    }
}

/// `s` without trailing white space.
pub open spec fn trimmed_end(s: Seq<char>) -> Seq<char>
    decreases s.len(),
{
    if s.len() > 0 && is_space(s.last()) {
        trimmed_end(s.drop_last())
    } else {
        s
    }
}

/// `s` without white space at either end.
pub open spec fn trimmed(s: Seq<char>) -> Seq<char> {
    trimmed_end(trimmed_start(s))
}

/// Trimming takes white space off both ends and nothing else: what is left stands in the text
/// between two runs of white space, and neither begins nor ends with any.
pub proof fn trimming_takes_only_white_space(s: Seq<char>) -> (ends: (int, int))
    ensures
        ({
            let t = trimmed(s);
            let (a, b) = ends;
            &&& 0 <= a <= b <= s.len()
            &&& t == s.subrange(a, b)
            &&& forall|i: int| 0 <= i < a ==> is_space(#[trigger] s[i])
            &&& forall|i: int| b <= i < s.len() ==> is_space(#[trigger] s[i])
            &&& t.len() > 0 ==> !is_space(t.first()) && !is_space(t.last())
        }),
{
    let a = start_of(s);
    let r = trimmed_start(s);
    let n = end_of(r);
    assert(trimmed(s) =~= s.subrange(a, a + n));
    assert forall|i: int| a + n <= i < s.len() implies is_space(#[trigger] s[i]) by {
        assert(r[i - a] == s[i]);
    }
    (a, a + n)
}

proof fn start_of(s: Seq<char>) -> (a: int)
    ensures
        0 <= a <= s.len(),
        trimmed_start(s) == s.subrange(a, s.len() as int),
        forall|i: int| 0 <= i < a ==> is_space(#[trigger] s[i]),
        trimmed_start(s).len() > 0 ==> !is_space(trimmed_start(s).first()),
    decreases s.len(),
{
    if s.len() > 0 && is_space(s.first()) {
        let rest = s.drop_first();
        let a = start_of(rest);
        assert(trimmed_start(s) =~= s.subrange(a + 1, s.len() as int));
        assert forall|i: int| 0 <= i < a + 1 implies is_space(#[trigger] s[i]) by {
            if i > 0 {
                assert(rest[i - 1] == s[i]);
            }
        }
        a + 1
    } else {
        assert(s =~= s.subrange(0, s.len() as int));
        0
    }
}

proof fn end_of(s: Seq<char>) -> (n: int)
    ensures
        0 <= n <= s.len(),
        trimmed_end(s) == s.subrange(0, n),
        forall|i: int| n <= i < s.len() ==> is_space(#[trigger] s[i]),
        trimmed_end(s).len() > 0 ==> !is_space(trimmed_end(s).last()),
    decreases s.len(),
{
    if s.len() > 0 && is_space(s.last()) {
        let rest = s.drop_last();
        let n = end_of(rest);
        assert(trimmed_end(s) =~= s.subrange(0, n));
        assert forall|i: int| n <= i < s.len() implies is_space(#[trigger] s[i]) by {
            if i < rest.len() {
                assert(rest[i] == s[i]);
            }
        }
        n
    } else {
        assert(s =~= s.subrange(0, s.len() as int));
        s.len() as int
    }
}

/// Whether two strings hold the same characters.
pub fn same(a: &str, b: &str) -> (r: bool)
    ensures
        r == (a@ == b@),
{
    let n: usize = a.unicode_len();
    if n != b.unicode_len() {
        return false;
    }
    let mut i: usize = 0;
    while i < n
        invariant
            n == a@.len(),
            n == b@.len(),
            i <= n,
            forall|j: int| 0 <= j < i ==> a@[j] == b@[j],
        decreases n - i,
    {
        if a.get_char(i) != b.get_char(i) {
            return false;
        }
        i = i + 1;
    }
    assert(a@ =~= b@);
    true
}

/// `s` without white space at either end.
pub fn trim(s: &str) -> (r: String)
    ensures
        r@ == trimmed(s@),
{
    let n: usize = s.unicode_len();
    let mut a: usize = 0;
    assert(s@.subrange(0, n as int) =~= s@);
    while a < n && char_is_space(s.get_char(a))
        invariant
            n == s@.len(),
            a <= n,
            trimmed_start(s@) == trimmed_start(s@.subrange(a as int, n as int)),
        decreases n - a,
    {
        assert(s@.subrange(a as int, n as int).drop_first() =~= s@.subrange(a + 1, n as int));
        a = a + 1;
    }
    let mut b: usize = n;
    while b > a && char_is_space(s.get_char(b - 1))
        invariant
            n == s@.len(),
            a <= b <= n,
            trimmed_end(s@.subrange(a as int, n as int)) == trimmed_end(
                s@.subrange(a as int, b as int),
            ),
        decreases b,
    {
        assert(s@.subrange(a as int, b as int).drop_last() =~= s@.subrange(a as int, b - 1));
        b = b - 1;
    }
    s.substring_char(a, b).to_owned()
}

/// An ASCII letter's lower case; any other character unchanged.
pub open spec fn lower_char(c: char) -> char {
    if 'A' <= c && c <= 'Z' {
        (c as u8 + 32) as u8 as char
    } else {
        c
    }
}

/// `s` with its ASCII letters in lower case.
pub open spec fn lowered(s: Seq<char>) -> Seq<char> {
    s.map_values(|c: char| lower_char(c))
}

/// `s` with its ASCII letters in lower case.
pub fn lower(s: &str) -> (r: String)
    ensures
        r@ == lowered(s@),
        r@.len() == s@.len(),
        forall|i: int|
            0 <= i < s@.len() && 'A' <= s@[i] && s@[i] <= 'Z' ==> #[trigger] r@[i] as u32 == s@[i] as u32
                + 32,
        forall|i: int|
            0 <= i < s@.len() && !('A' <= s@[i] && s@[i] <= 'Z') ==> #[trigger] r@[i] == s@[i],
{
    let n: usize = s.unicode_len();
    let mut out: String = String::new();
    let mut i: usize = 0;
    assert(out@ =~= lowered(s@.take(0)));
    while i < n
        invariant
            n == s@.len(),
            i <= n,
            out@ == lowered(s@.take(i as int)),
        decreases n - i,
    {
        let c: char = s.get_char(i);
        if 'A' <= c && c <= 'Z' {
            let low: u8 = c as u8 + 32;
            out.push(low as char);
        } else {
            out.push(c);
        }
        assert(lowered(s@.take(i + 1)) =~= lowered(s@.take(i as int)).push(lower_char(c)));
        i = i + 1;
    }
    assert(s@.take(n as int) =~= s@);
    out
}

/// What `split_once` answers: the parts before and after the first `c`, or nothing where
/// there is none.
pub open spec fn splits(s: Seq<char>, c: char, r: Option<(Seq<char>, Seq<char>)>) -> bool {
    match r {
        Some((a, b)) => {
            &&& s == a + seq![c] + b
            &&& !a.contains(c)
        },
        None => !s.contains(c),
    }
}

/// The parts before and after the first `c`.
pub fn split_once(s: &str, c: char) -> (r: Option<(String, String)>)
    ensures
        splits(s@, c, (match r {
            Some((a, b)) => Some((a@, b@)),
            None => None,
        })),
{
    let n: usize = s.unicode_len();
    let mut i: usize = 0;
    while i < n
        invariant
            n == s@.len(),
            i <= n,
            forall|j: int| 0 <= j < i ==> s@[j] != c,
        decreases n - i,
    {
        if s.get_char(i) == c {
            let a: String = s.substring_char(0, i).to_owned();
            let b: String = s.substring_char(i + 1, n).to_owned();
            assert(s@ =~= a@ + seq![c] + b@);
            return Some((a, b));
        }
        i = i + 1;
    }
    None
}

/// A split at a character has one answer.
pub proof fn split_is_unique(
    s: Seq<char>,
    c: char,
    x: Option<(Seq<char>, Seq<char>)>,
    y: Option<(Seq<char>, Seq<char>)>,
)
    requires
        splits(s, c, x),
        splits(s, c, y),
    ensures
        x == y,
{
    if let Some((a, b)) = x {
        assert(s[a.len() as int] == c);
        assert(s.contains(c));
        if let Some((d, e)) = y {
            assert(s[d.len() as int] == c);
            if a.len() < d.len() {
                assert(d[a.len() as int] == s[a.len() as int]);
                assert(d.contains(c));
            }
            if d.len() < a.len() {
                assert(a[d.len() as int] == s[d.len() as int]);
                assert(a.contains(c));
            }
            assert(a =~= s.take(a.len() as int));
            assert(d =~= s.take(a.len() as int));
            assert(b =~= s.skip(a.len() as int + 1));
            assert(e =~= s.skip(a.len() as int + 1));
        }
    } else if let Some((d, e)) = y {
        assert(s[d.len() as int] == c);
        assert(s.contains(c));
    }
}

/// A decimal digit.
pub open spec fn is_digit(c: char) -> bool {
    '0' <= c && c <= '9'
}

/// Whether every character of `s` is a decimal digit.
pub open spec fn all_digits(s: Seq<char>) -> bool {
    forall|i: int| 0 <= i < s.len() ==> is_digit(#[trigger] s[i])
}

/// The number a run of decimal digits spells.
pub open spec fn digits_value(s: Seq<char>) -> nat
    decreases s.len(),
{
    if s.len() == 0 {
        0
    } else {
        digits_value(s.drop_last()) * 10 + (s.last() as u32 - '0' as u32) as nat
    }
}

/// `s` without one leading plus sign.
pub open spec fn unsigned_part(s: Seq<char>) -> Seq<char> {
    if s.len() > 0 && s[0] == '+' {
        s.skip(1)
    } else {
        s
    }
}

/// The number `s` spells where it is an unsigned decimal no greater than `max`: digits, at
/// least one, with an optional plus sign before them.
pub open spec fn parsed(s: Seq<char>, max: int) -> Option<int> {
    let d = unsigned_part(s);
    if d.len() > 0 && all_digits(d) && digits_value(d) <= max {
        Some(digits_value(d) as int)
    } else {
        None
    }
}

/// A digit more weighs a tenth of what stands before it; a number may carry one plus sign, and
/// has at least one digit and nothing but digits behind it.
pub proof fn digits_weigh_by_ten(s: Seq<char>, c: char, max: int)
    ensures
        digits_value(Seq::empty()) == 0,
        '0' <= c && c <= '9' ==> digits_value(s.push(c)) == 10 * digits_value(s) + (c as int - 48),
        parsed(Seq::empty(), max) is None,
        s.len() > 0 && s[0] != '+' && (forall|i: int|
            0 <= i < s.len() ==> '0' <= #[trigger] s[i] && s[i] <= '9') && digits_value(s) <= max
            ==> parsed(s, max) == Some(digits_value(s) as int),
        (exists|i: int| 0 < i < s.len() && !('0' <= #[trigger] s[i] && s[i] <= '9')) ==> parsed(
            s,
            max,
        ) is None,
        parsed(s, max) is Some ==> 0 <= parsed(s, max)->Some_0 <= max,
{
    assert(s.push(c).drop_last() =~= s);
    if s.len() > 0 && s[0] != '+' && (forall|i: int|
        0 <= i < s.len() ==> '0' <= #[trigger] s[i] && s[i] <= '9') {
        assert(all_digits(s));
    }
    if exists|i: int| 0 < i < s.len() && !('0' <= #[trigger] s[i] && s[i] <= '9') {
        let i = choose|i: int| 0 < i < s.len() && !('0' <= #[trigger] s[i] && s[i] <= '9');
        let d = unsigned_part(s);
        if s[0] == '+' {
            assert(!is_digit(d[i - 1]));
        } else {
            assert(!is_digit(d[i]));
        }
    }
}

proof fn digits_value_grows(s: Seq<char>, k: int)
    requires
        0 <= k <= s.len(),
    ensures
        digits_value(s.take(k)) <= digits_value(s),
    decreases s.len() - k,
{
    if k < s.len() {
        digits_value_grows(s, k + 1);
        assert(s.take(k + 1).drop_last() =~= s.take(k));
    } else {
        assert(s.take(k) =~= s);
    }
}

/// Reads an unsigned decimal no greater than `max`.
pub fn parse_uint(s: &str, max: u64) -> (r: Option<u64>)
    ensures
        (match r {
            Some(v) => parsed(s@, max as int) == Some(v as int),
            None => parsed(s@, max as int) is None,
        }),
{
    let n: usize = s.unicode_len();
    let mut i: usize = 0;
    if n > 0 && s.get_char(0) == '+' {
        i = 1;
    }
    let ghost d = unsigned_part(s@);
    let start: usize = i;
    assert(d =~= s@.skip(start as int));
    if i == n {
        return None;
    }
    let mut v: u64 = 0;
    while i < n
        invariant
            n == s@.len(),
            start <= i <= n,
            d == unsigned_part(s@),
            d == s@.skip(start as int),
            all_digits(d.take(i - start)),
            v == digits_value(d.take(i - start)),
            v <= max,
        decreases n - i,
    {
        let c: char = s.get_char(i);
        assert(c == d[i - start]);
        if !('0' <= c && c <= '9') {
            assert(!is_digit(d[i - start]));
            return None;
        }
        let x: u64 = c as u64 - '0' as u64;
        assert(d.take(i + 1 - start).drop_last() =~= d.take(i - start));
        assert(digits_value(d.take(i + 1 - start)) == v * 10 + x);
        if x > max || v > (max - x) / 10 {
            proof {
                digits_value_grows(d, i + 1 - start);
            }
            return None;
        }
        v = v * 10 + x;
        i = i + 1;
    }
    assert(d.take(n - start) =~= d);
    Some(v)
}

/// The decimal spelling of `n`.
pub open spec fn decimal(n: nat) -> Seq<char>
    decreases n,
{
    if n < 10 {
        seq![(n + '0' as u32) as char]
    } else {
        decimal(n / 10).push((n % 10 + '0' as u32) as char)
    }
}

/// The decimal spelling of `n`.
pub fn to_decimal(n: u64) -> (r: String)
    ensures
        r@ == decimal(n as nat),
    decreases n,
{
    let d: u8 = (n % 10) as u8 + 48;
    let mut out: String = if n < 10 {
        String::new()
    } else {
        to_decimal(n / 10)
    };
    out.push(d as char);
    assert(out@ =~= decimal(n as nat));
    out
}

/// A decimal spelling is digits, and reads back as the number it spells.
pub proof fn decimal_reads_back(n: nat)
    ensures
        decimal(n).len() > 0,
        all_digits(decimal(n)),
        digits_value(decimal(n)) == n,
        parsed(decimal(n), n as int) == Some(n as int),
    decreases n,
{
    let s = decimal(n);
    if n < 10 {
        assert(s.drop_last() =~= Seq::<char>::empty());
        assert(digits_value(s.drop_last()) == 0);
    } else {
        decimal_reads_back(n / 10);
        assert(s.drop_last() =~= decimal(n / 10));
    }
    assert(is_digit(s[0]));
    assert(unsigned_part(s) == s);
}

/// `a` followed by `b`.
pub fn join(a: &str, b: &str) -> (r: String)
    ensures
        r@ == a@ + b@,
{
    let mut out: String = a.to_owned();
    out.append(b);
    out
}

/// Whether `s` holds `c`.
pub fn has_char(s: &str, c: char) -> (r: bool)
    ensures
        r == s@.contains(c),
{
    let n: usize = s.unicode_len();
    let mut i: usize = 0;
    while i < n
        invariant
            n == s@.len(),
            i <= n,
            forall|j: int| 0 <= j < i ==> s@[j] != c,
        decreases n - i,
    {
        if s.get_char(i) == c {
            return true;
        }
        i = i + 1;
    }
    false
}

/// The view of an optional string.
pub open spec fn opt_view(s: Option<String>) -> Option<Seq<char>> {
    match s {
        Some(t) => Some(t@),
        None => None,
    }
}

/// A copy of an optional string.
pub fn copy_opt(s: &Option<String>) -> (r: Option<String>)
    ensures
        opt_view(r) == opt_view(*s),
        r is Some == s is Some,
{
    match s {
        Some(t) => Some(t.as_str().to_owned()),
        None => None,
    }
}

} // verus!
