//! Character-level helpers: UTF-8 byte counts, Unicode whitespace trimming,
//! decimal parsing and formatting, and string building.
use vstd::prelude::*;

verus! {

/// Number of bytes in the UTF-8 encoding of `c`.
pub open spec fn spec_char_utf8_len(c: char) -> nat {
    let u = c as u32;
    if u < 0x80 {
        1
    } else if u < 0x800 {
        2
    } else if u < 0x10000 {
        3
    } else {
        4
    }
}

/// Number of bytes in the UTF-8 encoding of `s` (what `String::len` reports).
pub open spec fn spec_utf8_len(s: Seq<char>) -> nat
    decreases s.len(),
{
    if s.len() == 0 {
        0
    } else {
        spec_utf8_len(s.drop_last()) + spec_char_utf8_len(s.last())
    }
}

/// The number of bytes `c` takes in UTF-8.
pub fn char_utf8_len(c: char) -> (n: usize)
    ensures
        n == spec_char_utf8_len(c),
        1 <= n <= 4,
{
    let u = c as u32;
    if u < 0x80 {
        1
    } else if u < 0x800 {
        2
    } else if u < 0x10000 {
        3
    } else {
        4
    }
}

/// Unicode `White_Space`, the set that `char::is_whitespace` and `str::trim` use.
pub open spec fn spec_is_whitespace(c: char) -> bool {
    let u = c as u32;
    ||| 0x09 <= u <= 0x0D
    ||| u == 0x20
    ||| u == 0x85
    ||| u == 0xA0
    ||| u == 0x1680
    ||| 0x2000 <= u <= 0x200A
    ||| u == 0x2028
    ||| u == 0x2029
    ||| u == 0x202F
    ||| u == 0x205F
    ||| u == 0x3000
}

/// Whether `c` is Unicode white space.
pub fn is_whitespace(c: char) -> (b: bool)
    ensures
        b == spec_is_whitespace(c),
{
    let u = c as u32;
    (0x09 <= u && u <= 0x0D) || u == 0x20 || u == 0x85 || u == 0xA0 || u == 0x1680 || (0x2000 <= u
        && u <= 0x200A) || u == 0x2028 || u == 0x2029 || u == 0x202F || u == 0x205F || u == 0x3000
}

/// `s` without its leading white space.
pub open spec fn spec_trim_start(s: Seq<char>) -> Seq<char>
    decreases s.len(),
{
    if s.len() > 0 && spec_is_whitespace(s[0]) {
        spec_trim_start(s.drop_first())
    } else {
        s
    }
}

/// `s` without its trailing white space.
pub open spec fn spec_trim_end(s: Seq<char>) -> Seq<char>
    decreases s.len(),
{
    if s.len() > 0 && spec_is_whitespace(s.last()) {
        spec_trim_end(s.drop_last())
    } else {
        s
    }
}

/// `s` without leading and trailing white space, as `str::trim` gives it.
pub open spec fn spec_trim(s: Seq<char>) -> Seq<char> {
    spec_trim_end(spec_trim_start(s))
}

proof fn lemma_trim_start_skip(s: Seq<char>, i: int)
    requires
        0 <= i <= s.len(),
        forall|j: int| 0 <= j < i ==> spec_is_whitespace(#[trigger] s[j]),
    ensures
        spec_trim_start(s) == spec_trim_start(s.subrange(i, s.len() as int)),
    decreases i,
{
    if i > 0 {
        assert(s.drop_first().subrange(i - 1, s.drop_first().len() as int) =~= s.subrange(
            i,
            s.len() as int,
        ));
        lemma_trim_start_skip(s.drop_first(), i - 1);
    } else {
        assert(s.subrange(0, s.len() as int) =~= s);
    }
}

proof fn lemma_trim_end_take(s: Seq<char>, k: int)
    requires
        0 <= k <= s.len(),
        forall|j: int| k <= j < s.len() ==> spec_is_whitespace(#[trigger] s[j]),
    ensures
        spec_trim_end(s) == spec_trim_end(s.subrange(0, k)),
    decreases s.len() - k,
{
    if k < s.len() {
        assert(s.drop_last().subrange(0, k) =~= s.subrange(0, k));
        lemma_trim_end_take(s.drop_last(), k);
    } else {
        assert(s.subrange(0, k) =~= s);
    }
}

/// `s` with leading and trailing Unicode white space removed (`str::trim`).
pub fn trim(s: &Vec<char>) -> (r: Vec<char>)
    ensures
        r@ == spec_trim(s@),
{
    let n = s.len();
    let mut i: usize = 0;
    while i < n && is_whitespace(s[i])
        invariant
            n == s@.len(),
            0 <= i <= n,
            forall|j: int| 0 <= j < i ==> spec_is_whitespace(#[trigger] s@[j]),
        decreases n - i,
    {
        i = i + 1;
    }
    let ghost start = s@.subrange(i as int, n as int);
    proof {
        lemma_trim_start_skip(s@, i as int);
        if i < n {
            assert(start[0] == s@[i as int]);
        }
        assert(spec_trim_start(start) == start);
    }
    let mut k: usize = n;
    while k > i && is_whitespace(s[k - 1])
        invariant
            n == s@.len(),
            i <= k <= n,
            forall|j: int| k <= j < n ==> spec_is_whitespace(#[trigger] s@[j]),
        decreases k,
    {
        k = k - 1;
    }
    proof {
        lemma_trim_end_take(start, k - i);
        let e = start.subrange(0, k - i);
        assert(e =~= s@.subrange(i as int, k as int));
        if k > i {
            assert(e.last() == s@[k - 1]);
        }
        assert(spec_trim_end(e) == e);
    }
    let mut r: Vec<char> = Vec::new();
    let mut p: usize = i;
    while p < k
        invariant
            n == s@.len(),
            i <= p <= k <= n,
            r@ =~= s@.subrange(i as int, p as int),
        decreases k - p,
    {
        r.push(s[p]);
        p = p + 1;
    }
    r
}

/// The value of an ASCII decimal digit.
pub open spec fn spec_digit_value(c: char) -> nat {
    ((c as u32) - ('0' as u32)) as nat
}

/// Whether `c` is one of `'0'..='9'`.
pub open spec fn spec_is_digit(c: char) -> bool {
    '0' <= c <= '9'
}

/// The number that the decimal digits `d` spell.
pub open spec fn spec_decimal_value(d: Seq<char>) -> nat
    decreases d.len(),
{
    if d.len() == 0 {
        0
    } else {
        spec_decimal_value(d.drop_last()) * 10 + spec_digit_value(d.last())
    }
}

/// The digits that `str::parse::<usize>` reads: everything after an optional leading `+`.
pub open spec fn spec_unsigned_digits(s: Seq<char>) -> Seq<char> {
    if s.len() > 0 && s[0] == '+' {
        s.drop_first()
    } else {
        s
    }
}

/// What `str::parse::<usize>` gives: an optional `+`, then at least one ASCII digit
/// and nothing else, with a value that fits in `usize`.
pub open spec fn spec_parse_usize(s: Seq<char>) -> Option<usize> {
    let d = spec_unsigned_digits(s);
    if d.len() > 0 && (forall|j: int| 0 <= j < d.len() ==> spec_is_digit(#[trigger] d[j]))
        && spec_decimal_value(d) <= usize::MAX {
        Some(spec_decimal_value(d) as usize)
    } else {
        None
    }
}

proof fn lemma_decimal_value_prefix_monotone(d: Seq<char>, i: int)
    requires
        0 <= i <= d.len(),
        forall|j: int| 0 <= j < d.len() ==> spec_is_digit(#[trigger] d[j]),
    ensures
        spec_decimal_value(d.subrange(0, i)) <= spec_decimal_value(d),
    decreases d.len() - i,
{
    if i < d.len() {
        assert(d.drop_last().subrange(0, i) =~= d.subrange(0, i));
        assert forall|j: int| 0 <= j < d.drop_last().len() implies spec_is_digit(
            #[trigger] d.drop_last()[j],
        ) by {
            assert(d.drop_last()[j] == d[j]);
        }
        lemma_decimal_value_prefix_monotone(d.drop_last(), i);
    } else {
        assert(d.subrange(0, i) =~= d);
    }
}

/// Parses a decimal `usize` as `str::parse::<usize>` does.
pub fn parse_usize(s: &Vec<char>) -> (r: Option<usize>)
    ensures
        r == spec_parse_usize(s@),
{
    let n = s.len();
    let mut i: usize = 0;
    if n > 0 && s[0] == '+' {
        i = 1;
    }
    let ghost d = spec_unsigned_digits(s@);
    assert(d =~= s@.subrange(i as int, n as int));
    if i == n {
        return None;
    }
    let mut v: usize = 0;
    let mut p: usize = i;
    while p < n
        invariant
            n == s@.len(),
            i <= p <= n,
            i < n,
            d == spec_unsigned_digits(s@),
            d =~= s@.subrange(i as int, n as int),
            forall|j: int| i <= j < p ==> spec_is_digit(#[trigger] s@[j]),
            v == spec_decimal_value(s@.subrange(i as int, p as int)),
        decreases n - p,
    {
        let c = s[p];
        if !('0' <= c && c <= '9') {
            proof {
                assert(d[p - i] == c);
                assert(!spec_is_digit(d[p - i]));
            }
            return None;
        }
        let dv = (c as u32 - '0' as u32) as usize;
        assert(s@.subrange(i as int, p + 1).drop_last() =~= s@.subrange(i as int, p as int));
        let ghost next = s@.subrange(i as int, p + 1);
        assert(next.drop_last() =~= s@.subrange(i as int, p as int));
        let step = match v.checked_mul(10) {
            Some(m) => m.checked_add(dv),
            None => None,
        };
        match step {
            Some(w) => {
                v = w;
            },
            None => {
                proof {
                    assert(spec_decimal_value(next) > usize::MAX);
                    if forall|j: int| 0 <= j < d.len() ==> spec_is_digit(#[trigger] d[j]) {
                        assert(d.subrange(0, p + 1 - i) =~= next);
                        lemma_decimal_value_prefix_monotone(d, p + 1 - i);
                    }
                }
                return None;
            },
        }
        p = p + 1;
    }
    assert(s@.subrange(i as int, n as int) =~= d);
    Some(v)
}


/// `String::push`, which appends `c` to the end of `s`.
#[verifier::external_body]
pub(crate) fn push_char(s: &mut String, c: char)
    ensures
        final(s)@ == old(s)@.push(c),
{
    s.push(c);
}

/// A `String` holding the characters of `v`.
pub fn string_of_chars(v: &Vec<char>) -> (s: String)
    ensures
        s@ == v@,
{
    let mut s = String::new();
    let n = v.len();
    let mut i: usize = 0;
    while i < n
        invariant
            n == v@.len(),
            0 <= i <= n,
            s@ =~= v@.subrange(0, i as int),
        decreases n - i,
    {
        push_char(&mut s, v[i]);
        i = i + 1;
    }
    s
}

/// The characters of `s`, in order.
pub fn chars_of(s: &str) -> (v: Vec<char>)
    ensures
        v@ == s@,
{
    let mut v: Vec<char> = Vec::new();
    broadcast use vstd::string::group_string_axioms;

    for c in it: s.chars()
        invariant
            v@ =~= it.seq().take(it.index() as int),
            it.seq() == s@,
    {
        v.push(c);
    }
    v
}

/// The ASCII digit for `d`, which is below 10.
pub open spec fn spec_digit_char(d: nat) -> char {
    if d == 0 {
        '0'
    } else if d == 1 {
        '1'
    } else if d == 2 {
        '2'
    } else if d == 3 {
        '3'
    } else if d == 4 {
        '4'
    } else if d == 5 {
        '5'
    } else if d == 6 {
        '6'
    } else if d == 7 {
        '7'
    } else if d == 8 {
        '8'
    } else {
        '9'
    }
}

/// The decimal digits of `n`, without leading zeros.
pub open spec fn spec_nat_decimal(n: nat) -> Seq<char>
    decreases n,
{
    if n < 10 {
        seq![spec_digit_char(n)]
    } else {
        spec_nat_decimal(n / 10).push(spec_digit_char(n % 10))
    }
}

/// The decimal text of `i`, with a leading `-` when it is negative (what `Display` prints).
pub open spec fn spec_int_decimal(i: int) -> Seq<char> {
    if i < 0 {
        seq!['-'] + spec_nat_decimal((-i) as nat)
    } else {
        spec_nat_decimal(i as nat)
    }
}

fn digit_char(d: u64) -> (c: char)
    requires
        d < 10,
    ensures
        c == spec_digit_char(d as nat),
{
    if d == 0 {
        '0'
    } else if d == 1 {
        '1'
    } else if d == 2 {
        '2'
    } else if d == 3 {
        '3'
    } else if d == 4 {
        '4'
    } else if d == 5 {
        '5'
    } else if d == 6 {
        '6'
    } else if d == 7 {
        '7'
    } else if d == 8 {
        '8'
    } else {
        '9'
    }
}

fn push_decimal(out: &mut String, n: u64)
    ensures
        final(out)@ == old(out)@ + spec_nat_decimal(n as nat),
    decreases n,
{
    if n < 10 {
        push_char(out, digit_char(n));
        assert(final(out)@ =~= old(out)@ + spec_nat_decimal(n as nat));
    } else {
        push_decimal(out, n / 10);
        push_char(out, digit_char(n % 10));
        assert(final(out)@ =~= old(out)@ + spec_nat_decimal(n as nat));
    }
}

/// The decimal text of `i`, as `i.to_string()` gives it.
pub fn int_to_decimal(i: i64) -> (s: String)
    ensures
        s@ == spec_int_decimal(i as int),
{
    let mut s = String::new();
    if i < 0 {
        push_char(&mut s, '-');
        let m = (-(i as i128)) as u64;
        push_decimal(&mut s, m);
    } else {
        push_decimal(&mut s, i as u64);
    }
    assert(s@ =~= spec_int_decimal(i as int));
    s
}

/// Appends the text `t` to `s`.
pub fn append_str(s: &mut String, t: &str)
    ensures
        final(s)@ == old(s)@ + t@,
{
    s.append(t);
}

proof fn lemma_digit_char(d: nat)
    requires
        d < 10,
    ensures
        spec_is_digit(spec_digit_char(d)),
        spec_digit_value(spec_digit_char(d)) == d,
        !spec_is_whitespace(spec_digit_char(d)),
        spec_digit_char(d) != '+',
        spec_digit_char(d) != '\n',
{
}

/// The decimal digits of `n` are digits that spell `n`.
pub proof fn lemma_nat_decimal(n: nat)
    ensures
        spec_nat_decimal(n).len() > 0,
        forall|i: int|
            0 <= i < spec_nat_decimal(n).len() ==> spec_is_digit(#[trigger] spec_nat_decimal(n)[i])
                && !spec_is_whitespace(spec_nat_decimal(n)[i]) && spec_nat_decimal(n)[i] != '+'
                && spec_nat_decimal(n)[i] != '\n',
        spec_decimal_value(spec_nat_decimal(n)) == n,
    decreases n,
{
    if n < 10 {
        lemma_digit_char(n);
        let d = spec_nat_decimal(n);
        assert(d.drop_last() =~= Seq::<char>::empty());
        assert(spec_decimal_value(d.drop_last()) == 0);
        assert(d.last() == spec_digit_char(n));
    } else {
        lemma_nat_decimal(n / 10);
        lemma_digit_char(n % 10);
        let d = spec_nat_decimal(n);
        assert(d.drop_last() =~= spec_nat_decimal(n / 10));
        assert(d.last() == spec_digit_char(n % 10));
        assert((n / 10) * 10 + n % 10 == n);
        assert forall|i: int| 0 <= i < d.len() implies spec_is_digit(#[trigger] d[i]) && !spec_is_whitespace(
            d[i],
        ) && d[i] != '+' && d[i] != '\n' by {
            if i < d.len() - 1 {
                assert(d[i] == spec_nat_decimal(n / 10)[i]);
            }
        }
    }
}

/// The text of a `Content-Length` value as a header line leaves it (decimal digits
/// and a carriage return) reads back as the number.
pub proof fn lemma_parse_decimal_line(n: usize)
    ensures
        spec_parse_usize(spec_trim(spec_nat_decimal(n as nat).push('\r'))) == Some(n),
{
    let d = spec_nat_decimal(n as nat);
    lemma_nat_decimal(n as nat);
    let line = d.push('\r');
    assert(line[0] == d[0]);
    assert(spec_trim_start(line) == line);
    assert(line.drop_last() =~= d);
    assert(spec_trim_end(d) == d) by {
        assert(d.last() == d[d.len() - 1]);
    }
    assert(spec_trim(line) == d);
    assert(spec_unsigned_digits(d) == d);
}

proof fn lemma_utf8_len_positive(s: Seq<char>)
    ensures
        spec_utf8_len(s) >= s.len(),
    decreases s.len(),
{
    if s.len() > 0 {
        lemma_utf8_len_positive(s.drop_last());
    }
}

/// Appending characters adds their byte length.
pub proof fn lemma_utf8_len_concat(a: Seq<char>, b: Seq<char>)
    ensures
        spec_utf8_len(a + b) == spec_utf8_len(a) + spec_utf8_len(b),
    decreases b.len(),
{
    if b.len() == 0 {
        assert(a + b =~= a);
    } else {
        assert((a + b).drop_last() =~= a + b.drop_last());
        lemma_utf8_len_concat(a, b.drop_last());
    }
}

/// A proper prefix takes fewer bytes.
pub proof fn lemma_utf8_len_prefix(s: Seq<char>, k: int)
    requires
        0 <= k < s.len(),
    ensures
        spec_utf8_len(s.take(k)) < spec_utf8_len(s),
{
    assert(s =~= s.take(k) + s.skip(k));
    lemma_utf8_len_concat(s.take(k), s.skip(k));
    lemma_utf8_len_positive(s.skip(k));
}

} // verus!
