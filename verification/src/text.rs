//! Text primitives shared by the rest of the library: trimming, searching, splitting and the
//! decimal notation of unsigned integers, each stated over the characters of a string.
use vstd::prelude::*;

verus! {

/// `String::push` appends the given character.
pub assume_specification[ String::push ](s: &mut String, c: char)
    ensures
        final(s)@ == old(s)@.push(c),
;

/// The characters of `s`, in order.
pub fn chars_of(s: &str) -> (r: Vec<char>)
    ensures
        r@ == s@,
{
    let mut v: Vec<char> = Vec::new();
    for c in it: s.chars()
        invariant
            v@ == it.seq().take(it.index()),
            it.seq() == s@,
    {
        v.push(c);
        assert(it.seq().take(it.index() + 1) =~= it.seq().take(it.index()).push(c));
    }
    assert(v@ =~= s@);
    v
}

/// Whether two strings hold the same characters.
pub fn same(a: &str, b: &str) -> (r: bool)
    ensures
        r == (a@ == b@),
{
    let x: String = a.to_string();
    let y: String = b.to_string();
    x == y
}

/// The characters `from..to` of `s` as a string of their own.
pub fn slice_string(v: &Vec<char>, from: usize, to: usize) -> (r: String)
    requires
        from <= to <= v@.len(),
    ensures
        r@ == v@.subrange(from as int, to as int),
{
    let mut out: String = String::new();
    let mut i: usize = from;
    while i < to
        invariant
            from <= i <= to <= v@.len(),
            out@ == v@.subrange(from as int, i as int),
        decreases to - i,
    {
        out.push(v[i]);
        i = i + 1;
        assert(v@.subrange(from as int, i as int) =~= v@.subrange(from as int, i - 1).push(v@[i - 1]));
    }
    out
}

// ---------------------------------------------------------------------------
// White space
// ---------------------------------------------------------------------------

/// The characters that have the Unicode property `White_Space`.
pub open spec fn white_space(c: char) -> bool {
    let n = c as u32;
    ||| 0x9 <= n <= 0xD
    ||| n == 0x20
    ||| n == 0x85
    ||| n == 0xA0
    ||| n == 0x1680
    ||| 0x2000 <= n <= 0x200A
    ||| n == 0x2028
    ||| n == 0x2029
    ||| n == 0x202F
    ||| n == 0x205F
    ||| n == 0x3000
}

/// Whether `c` is white space.
pub fn is_white_space(c: char) -> (r: bool)
    ensures
        r == white_space(c),
{
    let n: u32 = c as u32;
    (0x9 <= n && n <= 0xD) || n == 0x20 || n == 0x85 || n == 0xA0 || n == 0x1680 || (0x2000 <= n
        && n <= 0x200A) || n == 0x2028 || n == 0x2029 || n == 0x202F || n == 0x205F || n == 0x3000
}

/// `s` without its leading white space.
pub open spec fn trimmed_start(s: Seq<char>) -> Seq<char>
    decreases s.len(),
{
    if s.len() > 0 && white_space(s.first()) {
        trimmed_start(s.drop_first())
    } else {
        s
    }
}

/// `s` without its trailing white space.
pub open spec fn trimmed_end(s: Seq<char>) -> Seq<char>
    decreases s.len(),
{
    if s.len() > 0 && white_space(s.last()) {
        trimmed_end(s.drop_last())
    } else {
        s
    }
}

/// `s` without the white space at its two ends.
pub open spec fn trimmed(s: Seq<char>) -> Seq<char> {
    trimmed_end(trimmed_start(s))
}

/// `s` without the white space at its two ends.
pub fn trim<'a>(s: &'a str) -> (r: &'a str)
    ensures
        r@ == trimmed(s@),
{
    let v: Vec<char> = chars_of(s);
    let n: usize = v.len();
    let mut from: usize = 0;
    assert(v@.subrange(0, n as int) =~= v@);
    while from < n && is_white_space(v[from])
        invariant
            from <= n,
            n == v@.len(),
            trimmed_start(v@.subrange(from as int, n as int)) == trimmed_start(v@),
        decreases n - from,
    {
        assert(v@.subrange(from as int, n as int).drop_first() =~= v@.subrange(
            from + 1,
            n as int,
        ));
        from = from + 1;
    }
    assert(trimmed_start(v@) == v@.subrange(from as int, n as int));
    let mut to: usize = n;
    while to > from && is_white_space(v[to - 1])
        invariant
            from <= to <= n,
            n == v@.len(),
            trimmed_end(v@.subrange(from as int, to as int)) == trimmed(v@),
        decreases to - from,
    {
        assert(v@.subrange(from as int, to as int).drop_last() =~= v@.subrange(
            from as int,
            to - 1,
        ));
        to = to - 1;
    }
    s.substring_char(from, to)
}

/// What trimming leaves does not begin or end with white space.
pub proof fn lemma_trimmed_ends(s: Seq<char>)
    ensures
        trimmed(s).len() > 0 ==> !white_space(trimmed(s).first()) && !white_space(
            trimmed(s).last(),
        ),
        trimmed(s).len() <= s.len(),
    decreases s.len(),
{
    lemma_trimmed_start_first(s);
    lemma_trimmed_end_last(trimmed_start(s));
}

proof fn lemma_trimmed_start_first(s: Seq<char>)
    ensures
        trimmed_start(s).len() <= s.len(),
        trimmed_start(s).len() > 0 ==> !white_space(trimmed_start(s).first()),
    decreases s.len(),
{
    if s.len() > 0 && white_space(s.first()) {
        lemma_trimmed_start_first(s.drop_first());
    }
}

proof fn lemma_trimmed_end_last(s: Seq<char>)
    ensures
        trimmed_end(s).len() <= s.len(),
        trimmed_end(s).len() > 0 ==> !white_space(trimmed_end(s).last()) && trimmed_end(s).first()
            == s.first(),
    decreases s.len(),
{
    if s.len() > 0 && white_space(s.last()) {
        lemma_trimmed_end_last(s.drop_last());
    }
}

/// Trimming a second time changes nothing.
pub proof fn law_trim_idempotent(s: Seq<char>)
    ensures
        trimmed(trimmed(s)) == trimmed(s),
{
    lemma_trimmed_ends(s);
}

// ---------------------------------------------------------------------------
// Searching and splitting
// ---------------------------------------------------------------------------

/// Whether `needle` occurs in `s`.
pub open spec fn occurs(s: Seq<char>, needle: Seq<char>) -> bool {
    exists|i: int|
        0 <= i <= s.len() - needle.len() && #[trigger] s.subrange(i, i + needle.len()) == needle
}

/// Whether the characters of `v` from `at` on begin with `p`.
fn begins_at(v: &Vec<char>, at: usize, p: &Vec<char>) -> (r: bool)
    requires
        at <= v@.len(),
    ensures
        r == (at + p@.len() <= v@.len() && v@.subrange(at as int, at + p@.len()) == p@),
{
    let n: usize = v.len();
    if p.len() > n - at {
        return false;
    }
    let mut i: usize = 0;
    while i < p.len()
        invariant
            i <= p@.len(),
            n == v@.len(),
            at + p@.len() <= n,
            forall|j: int| 0 <= j < i ==> v@[at + j] == p@[j],
        decreases p@.len() - i,
    {
        if v[at + i] != p[i] {
            assert(v@.subrange(at as int, at + p@.len())[i as int] != p@[i as int]);
            return false;
        }
        i = i + 1;
    }
    assert(v@.subrange(at as int, at + p@.len()) =~= p@);
    true
}

/// Whether `needle` occurs in `s`.
pub fn contains(s: &str, needle: &str) -> (r: bool)
    ensures
        r == occurs(s@, needle@),
{
    let v: Vec<char> = chars_of(s);
    let p: Vec<char> = chars_of(needle);
    if p.len() > v.len() {
        return false;
    }
    let last: usize = v.len() - p.len();
    let mut at: usize = 0;
    while at <= last
        invariant
            at <= last + 1,
            last == v@.len() - p@.len(),
            v@ == s@,
            p@ == needle@,
            forall|j: int| 0 <= j < at ==> #[trigger] v@.subrange(j, j + p@.len()) != p@,
        decreases last + 1 - at,
    {
        if begins_at(&v, at, &p) {
            return true;
        }
        if at == last {
            assert(!occurs(s@, needle@));
            return false;
        }
        at = at + 1;
    }
    false
}

/// What follows `prefix` in `s`, where `s` begins with `prefix`.
pub open spec fn after_prefix(s: Seq<char>, prefix: Seq<char>) -> Option<Seq<char>> {
    if prefix.is_prefix_of(s) {
        Some(s.skip(prefix.len() as int))
    } else {
        None
    }
}

/// The view of an optional string slice.
pub open spec fn opt_view(s: Option<&str>) -> Option<Seq<char>> {
    match s {
        Some(x) => Some(x@),
        None => None,
    }
}

/// The view of an optional string.
pub open spec fn opt_string_view(s: Option<String>) -> Option<Seq<char>> {
    match s {
        Some(x) => Some(x@),
        None => None,
    }
}

/// What follows `prefix` in `s`, where `s` begins with `prefix`.
pub fn strip_prefix<'a>(s: &'a str, prefix: &str) -> (r: Option<&'a str>)
    ensures
        opt_view(r) == after_prefix(s@, prefix@),
{
    let v: Vec<char> = chars_of(s);
    let p: Vec<char> = chars_of(prefix);
    let n: usize = v.len();
    let k: usize = p.len();
    if begins_at(&v, 0, &p) {
        assert(prefix@ =~= s@.subrange(0, prefix@.len() as int));
        let rest = s.substring_char(k, n);
        assert(rest@ =~= s@.skip(prefix@.len() as int));
        Some(rest)
    } else {
        proof {
            if prefix@.is_prefix_of(s@) {
                assert(s@.subrange(0, prefix@.len() as int) =~= prefix@);
            }
        }
        None
    }
}

/// The index of the first `c` in `s`, or the length of `s` where there is none.
pub open spec fn until(s: Seq<char>, c: char) -> nat
    decreases s.len(),
{
    if s.len() == 0 || s.first() == c {
        0
    } else {
        1 + until(s.drop_first(), c)
    }
}

/// What `until` finds: no `c` before the index, and a `c` at it unless it is the length.
pub proof fn lemma_until(s: Seq<char>, c: char)
    ensures
        until(s, c) <= s.len(),
        until(s, c) < s.len() ==> s[until(s, c) as int] == c,
        forall|i: int| 0 <= i < until(s, c) ==> s[i] != c,
    decreases s.len(),
{
    if s.len() > 0 && s.first() != c {
        lemma_until(s.drop_first(), c);
        assert forall|i: int| 0 <= i < until(s, c) implies s[i] != c by {
            if i > 0 {
                assert(s[i] == s.drop_first()[i - 1]);
            }
        }
    }
}

/// The index that `lemma_until` describes is the only one.
pub proof fn lemma_until_unique(s: Seq<char>, c: char, n: nat)
    requires
        n <= s.len(),
        n < s.len() ==> s[n as int] == c,
        forall|i: int| 0 <= i < n ==> s[i] != c,
    ensures
        until(s, c) == n,
{
    lemma_until(s, c);
    if until(s, c) < n {
        assert(s[until(s, c) as int] != c);
    }
}

/// The index of the first `c` at or after `from`, or the length where there is none.
pub fn find_from(v: &Vec<char>, from: usize, c: char) -> (r: usize)
    requires
        from <= v@.len(),
    ensures
        from <= r <= v@.len(),
        r == from + until(v@.skip(from as int), c),
        forall|i: int| from <= i < r ==> v@[i] != c,
        r < v@.len() ==> v@[r as int] == c,
{
    let mut i: usize = from;
    while i < v.len() && v[i] != c
        invariant
            from <= i <= v@.len(),
            forall|j: int| from <= j < i ==> v@[j] != c,
        decreases v@.len() - i,
    {
        i = i + 1;
    }
    proof {
        lemma_until_unique(v@.skip(from as int), c, (i - from) as nat);
    }
    i
}

/// The two sides of the first `c` in `s`.
pub open spec fn sides(s: Seq<char>, c: char) -> Option<(Seq<char>, Seq<char>)> {
    let n = until(s, c);
    if n < s.len() {
        Some((s.take(n as int), s.skip(n as int + 1)))
    } else {
        None
    }
}

/// The two sides of the first `c` in `s`.
pub fn split_once<'a>(s: &'a str, c: char) -> (r: Option<(&'a str, &'a str)>)
    ensures
        match r {
            Some(p) => sides(s@, c) == Some((p.0@, p.1@)),
            None => sides(s@, c) is None,
        },
{
    let v: Vec<char> = chars_of(s);
    let k: usize = v.len();
    let n: usize = find_from(&v, 0, c);
    assert(v@.skip(0) =~= s@);
    if n < k {
        let a = s.substring_char(0, n);
        let b = s.substring_char(n + 1, k);
        assert(a@ =~= s@.take(n as int));
        assert(b@ =~= s@.skip(n + 1));
        Some((a, b))
    } else {
        None
    }
}

/// The part of `s` before its first `c`, or all of it.
pub open spec fn head(s: Seq<char>, c: char) -> Seq<char> {
    s.take(until(s, c) as int)
}

/// The part of `s` before its first `c`, or all of it.
pub fn before<'a>(s: &'a str, c: char) -> (r: &'a str)
    ensures
        r@ == head(s@, c),
{
    let v: Vec<char> = chars_of(s);
    let n: usize = find_from(&v, 0, c);
    assert(v@.skip(0) =~= s@);
    let a = s.substring_char(0, n);
    assert(a@ =~= s@.take(n as int));
    a
}

/// The part of `s` after its last `c`, or all of it.
pub open spec fn tail(s: Seq<char>, c: char) -> Seq<char>
    decreases s.len(),
{
    if until(s, c) < s.len() {
        tail(s.skip(until(s, c) as int + 1), c)
    } else {
        s
    }
}

/// The part of `s` after its last `c`, or all of it.
pub fn after_last<'a>(s: &'a str, c: char) -> (r: &'a str)
    ensures
        r@ == tail(s@, c),
{
    let v: Vec<char> = chars_of(s);
    let k: usize = v.len();
    let mut from: usize = 0;
    let mut n: usize = find_from(&v, 0, c);
    assert(v@.skip(0) =~= s@);
    while n < k
        invariant
            from <= n <= k,
            k == v@.len(),
            v@ == s@,
            n == from + until(v@.skip(from as int), c),
            tail(v@.skip(from as int), c) == tail(s@, c),
        decreases k - from,
    {
        assert(v@.skip(from as int).skip(until(v@.skip(from as int), c) as int + 1) =~= v@.skip(n + 1));
        from = n + 1;
        n = find_from(&v, from, c);
    }
    let r = s.substring_char(from, k);
    assert(r@ =~= s@.skip(from as int));
    r
}

/// `s` without the `c`s that it begins with.
pub open spec fn skip_leading(s: Seq<char>, c: char) -> Seq<char>
    decreases s.len(),
{
    if s.len() > 0 && s.first() == c {
        skip_leading(s.drop_first(), c)
    } else {
        s
    }
}

/// `s` without the `c`s that it begins with.
pub fn trim_leading<'a>(s: &'a str, c: char) -> (r: &'a str)
    ensures
        r@ == skip_leading(s@, c),
{
    let v: Vec<char> = chars_of(s);
    let n: usize = v.len();
    let mut from: usize = 0;
    assert(v@.skip(0) =~= s@);
    while from < n && v[from] == c
        invariant
            from <= n,
            n == v@.len(),
            v@ == s@,
            skip_leading(v@.skip(from as int), c) == skip_leading(s@, c),
        decreases n - from,
    {
        assert(v@.skip(from as int).drop_first() =~= v@.skip(from + 1));
        from = from + 1;
    }
    let r = s.substring_char(from, n);
    assert(r@ =~= s@.skip(from as int));
    r
}

// ---------------------------------------------------------------------------
// Decimal notation
// ---------------------------------------------------------------------------

/// Whether `c` is one of `0` to `9`.
pub open spec fn is_digit(c: char) -> bool {
    '0' <= c <= '9'
}

/// Whether every character of `s` is a decimal digit.
pub open spec fn all_digits(s: Seq<char>) -> bool {
    forall|i: int| 0 <= i < s.len() ==> is_digit(#[trigger] s[i])
}

/// The number that the decimal digits `s` write.
pub open spec fn decimal_value(s: Seq<char>) -> nat
    decreases s.len(),
{
    if s.len() == 0 {
        0
    } else {
        10 * decimal_value(s.drop_last()) + ((s.last() as int - '0' as int) as nat)
    }
}

/// The digits of an unsigned number in `s`: what is left after an optional plus sign.
pub open spec fn unsigned_digits(s: Seq<char>) -> Seq<char> {
    if s.len() > 0 && s.first() == '+' {
        s.drop_first()
    } else {
        s
    }
}

/// The `u64` that `s` writes: one or more decimal digits, after an optional plus sign, whose
/// value fits.
pub open spec fn u64_of(s: Seq<char>) -> Option<u64> {
    let d = unsigned_digits(s);
    if d.len() > 0 && all_digits(d) && decimal_value(d) <= u64::MAX {
        Some(decimal_value(d) as u64)
    } else {
        None
    }
}

/// A longer run of digits writes a number that is at least as large.
proof fn lemma_decimal_value_monotone(s: Seq<char>, i: int)
    requires
        0 <= i <= s.len(),
    ensures
        decimal_value(s.take(i)) <= decimal_value(s),
    decreases s.len() - i,
{
    if i < s.len() {
        lemma_decimal_value_monotone(s, i + 1);
        assert(s.take(i + 1).drop_last() =~= s.take(i));
    } else {
        assert(s.take(i) =~= s);
    }
}

/// The `u64` that `s` writes in decimal, if it writes one.
pub fn parse_u64(s: &str) -> (r: Option<u64>)
    ensures
        r == u64_of(s@),
{
    let v: Vec<char> = chars_of(s);
    let n: usize = v.len();
    let start: usize = if n > 0 && v[0] == '+' {
        1
    } else {
        0
    };
    let ghost d = unsigned_digits(s@);
    assert(d =~= v@.skip(start as int));
    if start == n {
        return None;
    }
    let mut value: u64 = 0;
    let mut i: usize = start;
    assert(d.take(0) =~= Seq::<char>::empty());
    while i < n
        invariant
            start <= i <= n,
            n == v@.len(),
            d == unsigned_digits(s@),
            d == v@.skip(start as int),
            d.len() == n - start,
            d.len() > 0,
            forall|j: int| 0 <= j < i - start ==> is_digit(#[trigger] d[j]),
            value == decimal_value(d.take(i - start)),
        decreases n - i,
    {
        let c: char = v[i];
        assert(c == d[i - start]);
        if !('0' <= c && c <= '9') {
            assert(!is_digit(d[i - start]));
            return None;
        }
        let digit: u64 = (c as u32 - '0' as u32) as u64;
        assert(d.take(i - start + 1).drop_last() =~= d.take(i - start));
        assert(d.take(i - start + 1).last() == c);
        proof {
            lemma_decimal_value_monotone(d, i - start + 1);
        }
        if value > (u64::MAX - digit) / 10 {
            assert(10 * value + digit > u64::MAX);
            return None;
        }
        value = value * 10 + digit;
        i = i + 1;
    }
    assert(d.take(n - start) =~= d);
    Some(value)
}

/// The decimal digit that writes `n`.
pub open spec fn digit(n: nat) -> char {
    (('0' as u32) + n) as char
}

/// `n` in decimal notation, without leading zeros.
pub open spec fn decimal(n: nat) -> Seq<char>
    decreases n,
{
    if n < 10 {
        seq![digit(n)]
    } else {
        decimal(n / 10).push(digit(n % 10))
    }
}

/// The decimal digit that writes `n`.
fn digit_char(n: u8) -> (r: char)
    requires
        n < 10,
    ensures
        r == digit(n as nat),
{
    (48u8 + n) as char
}

/// `n` in decimal notation.
pub fn decimal_string(n: u128) -> (r: String)
    ensures
        r@ == decimal(n as nat),
    decreases n,
{
    let mut out: String = if n < 10 {
        String::new()
    } else {
        decimal_string(n / 10)
    };
    out.push(digit_char((n % 10) as u8));
    assert(n < 10 ==> out@ =~= seq![digit(n as nat)]);
    out
}

/// The decimal notation of a number is made of digits and writes that number.
pub proof fn lemma_decimal(n: nat)
    ensures
        decimal(n).len() > 0,
        all_digits(decimal(n)),
        decimal_value(decimal(n)) == n,
    decreases n,
{
    if n < 10 {
        let s = seq![digit(n)];
        assert(s.drop_last() =~= Seq::<char>::empty());
        assert(decimal_value(s.drop_last()) == 0);
    } else {
        lemma_decimal(n / 10);
        assert(decimal(n).drop_last() =~= decimal(n / 10));
    }
}

/// Reading back the decimal notation of a `u64` gives that `u64`.
pub proof fn law_decimal_round_trip(n: u64)
    ensures
        u64_of(decimal(n as nat)) == Some(n),
{
    lemma_decimal(n as nat);
    assert(is_digit(decimal(n as nat)[0]));
}

// ---------------------------------------------------------------------------
// Laws
// ---------------------------------------------------------------------------

/// Whether a text is made of white space.
pub open spec fn blank(s: Seq<char>) -> bool {
    forall|i: int| 0 <= i < s.len() ==> white_space(#[trigger] s[i])
}

proof fn lemma_trimmed_start_blank(a: Seq<char>, t: Seq<char>)
    requires
        blank(a),
        t.len() > 0 ==> !white_space(t[0]),
    ensures
        trimmed_start(a + t) == t,
    decreases a.len(),
{
    if a.len() == 0 {
        assert(a + t =~= t);
    } else {
        let rest = a.drop_first();
        assert forall|i: int| 0 <= i < rest.len() implies white_space(#[trigger] rest[i]) by {
            assert(rest[i] == a[i + 1]);
        }
        assert(white_space(a[0]));
        assert((a + t).drop_first() =~= rest + t);
        lemma_trimmed_start_blank(rest, t);
    }
}

proof fn lemma_trimmed_end_blank(t: Seq<char>, a: Seq<char>)
    requires
        blank(a),
        t.len() > 0 ==> !white_space(t.last()),
    ensures
        trimmed_end(t + a) == t,
    decreases a.len(),
{
    if a.len() == 0 {
        assert(t + a =~= t);
    } else {
        let rest = a.drop_last();
        assert forall|i: int| 0 <= i < rest.len() implies white_space(#[trigger] rest[i]) by {
            assert(rest[i] == a[i]);
        }
        assert(white_space(a[a.len() - 1]));
        assert((t + a).drop_last() =~= t + rest);
        assert((t + a).last() == a.last());
        lemma_trimmed_end_blank(t, rest);
    }
}

/// Trimming takes away the white space around a text and nothing of the text itself: whatever
/// stands between its first and its last character that is not white space stays.
pub proof fn law_trim_takes_the_ends(before: Seq<char>, s: Seq<char>, after: Seq<char>)
    requires
        blank(before),
        blank(after),
        s.len() > 0 ==> !white_space(s[0]) && !white_space(s.last()),
    ensures
        trimmed(before + s + after) == s,
{
    if s.len() == 0 {
        let all = before + s + after;
        assert forall|i: int| 0 <= i < all.len() implies white_space(#[trigger] all[i]) by {
            if i < before.len() {
                assert(all[i] == before[i]);
            } else {
                assert(all[i] == after[i - before.len()]);
            }
        }
        assert(all + s =~= all);
        lemma_trimmed_start_blank(all, s);
    } else {
        assert((s + after)[0] == s[0]);
        assert(before + s + after =~= before + (s + after));
        lemma_trimmed_start_blank(before, s + after);
        lemma_trimmed_end_blank(s, after);
    }
}

/// Taking a prefix off undoes putting it on, and finds it only where it was put on.
pub proof fn law_prefix_taken_off(s: Seq<char>, prefix: Seq<char>, rest: Seq<char>)
    ensures
        after_prefix(s, prefix) == Some(rest) <==> s == prefix + rest,
        after_prefix(prefix + rest, prefix) == Some(rest),
{
    assert((prefix + rest).take(prefix.len() as int) =~= prefix);
    assert((prefix + rest).skip(prefix.len() as int) =~= rest);
    if after_prefix(s, prefix) == Some(rest) {
        assert(s =~= prefix + rest);
    }
}

/// A text occurs in another exactly if the other can be written with it in the middle.
pub proof fn law_occurs_in_the_middle(a: Seq<char>, needle: Seq<char>, b: Seq<char>, s: Seq<char>)
    ensures
        occurs(a + needle + b, needle),
        occurs(s, needle) ==> exists|x: Seq<char>, y: Seq<char>| s == #[trigger] (x + needle + y),
{
    let all = a + needle + b;
    assert(all.subrange(a.len() as int, a.len() as int + needle.len()) =~= needle);
    if occurs(s, needle) {
        let i = choose|i: int|
            0 <= i <= s.len() - needle.len() && #[trigger] s.subrange(i, i + needle.len())
                == needle;
        let x = s.subrange(0, i);
        let y = s.subrange(i + needle.len(), s.len() as int);
        let mid = s.subrange(i, i + needle.len());
        assert(s =~= x + mid + y);
        assert(s == x + needle + y);
    }
}

/// A text is split at the first of a character: what stands before it, which does not hold the
/// character, and all that stands behind it. A text without the character is not split.
pub proof fn law_split_at_first(a: Seq<char>, c: char, b: Seq<char>)
    requires
        !a.contains(c),
    ensures
        sides(a + seq![c] + b, c) == Some((a, b)),
        sides(a, c) is None,
        head(a + seq![c] + b, c) == a,
        head(a, c) == a,
{
    let s = a + seq![c] + b;
    assert forall|i: int| 0 <= i < a.len() implies s[i] != c && a[i] != c by {
        assert(a.contains(a[i]));
    }
    lemma_until_unique(s, c, a.len());
    lemma_until_unique(a, c, a.len());
    assert(s.take(a.len() as int) =~= a);
    assert(a.take(a.len() as int) =~= a);
    assert(s.skip(a.len() as int + 1) =~= b);
}

/// What follows the last of a character is all that stands behind it, and a text without the
/// character is left as it is.
pub proof fn law_after_last(a: Seq<char>, c: char, b: Seq<char>)
    requires
        !b.contains(c),
    ensures
        tail(a + seq![c] + b, c) == b,
        tail(b, c) == b,
    decreases a.len(),
{
    let s = a + seq![c] + b;
    assert forall|i: int| 0 <= i < b.len() implies b[i] != c by {
        assert(b.contains(b[i]));
    }
    lemma_until_unique(b, c, b.len());
    lemma_until(s, c);
    let n = until(s, c) as int;
    assert(s[a.len() as int] == c);
    if n < a.len() {
        let rest = a.skip(n + 1);
        assert(s.skip(n + 1) =~= rest + seq![c] + b);
        law_after_last(rest, c, b);
    } else {
        assert(n == a.len());
        assert(s.skip(n + 1) =~= b);
        reveal_with_fuel(tail, 2);
    }
}

/// Leading characters are all taken away, and nothing else is.
pub proof fn law_leading_taken_away(n: nat, c: char, s: Seq<char>)
    requires
        s.len() > 0 ==> s[0] != c,
    ensures
        skip_leading(Seq::new(n, |i: int| c) + s, c) == s,
    decreases n,
{
    let front = Seq::new(n, |i: int| c);
    if n == 0 {
        assert(front + s =~= s);
    } else {
        let fewer = Seq::new((n - 1) as nat, |i: int| c);
        assert((front + s).drop_first() =~= fewer + s);
        assert((front + s).first() == c);
        law_leading_taken_away((n - 1) as nat, c, s);
    }
}

/// Decimal notation is positional: a number below ten is one digit, and a digit behind a number
/// adds itself to ten times the number.
pub proof fn law_decimal_is_positional(n: nat, k: nat)
    requires
        k < 10,
    ensures
        decimal(k) == seq![((48 + k) as char)],
        n > 0 ==> decimal(10 * n + k) == decimal(n) + decimal(k),
{
    if n > 0 {
        assert((10 * n + k) / 10 == n);
        assert((10 * n + k) % 10 == k);
        assert(decimal(10 * n + k) =~= decimal(n) + decimal(k));
    }
}

/// A number is read as it is written: a plus sign and leading zeros do not count, an empty text and
/// a text with anything but digits writes no number, and a number that is too large is not read.
pub proof fn law_numbers_are_read(n: nat, s: Seq<char>)
    ensures
        u64_of(decimal(n)) == (if n <= u64::MAX {
            Some(n as u64)
        } else {
            None
        }),
        u64_of(s) is Some ==> s.len() > 0 && (is_digit(s[0]) || s[0] == '+' && s.len() > 1) && forall|
            i: int,
        |
            1 <= i < s.len() ==> is_digit(#[trigger] s[i]),
        s.len() > 0 && all_digits(s) ==> u64_of(seq!['+'] + s) == u64_of(s) && u64_of(
            seq!['0'] + s,
        ) == u64_of(s),
{
    lemma_decimal(n);
    assert(is_digit(decimal(n)[0]));
    if u64_of(s) is Some {
        let d = unsigned_digits(s);
        assert(is_digit(d[0]));
        assert forall|i: int| 1 <= i < s.len() implies is_digit(#[trigger] s[i]) by {
            if s.first() == '+' {
                assert(d[i - 1] == s[i]);
            } else {
                assert(d[i] == s[i]);
            }
        }
    }
    if s.len() > 0 && all_digits(s) {
        assert(is_digit(s[0]));
        let plus = seq!['+'] + s;
        assert(plus.drop_first() =~= s);
        let zero = seq!['0'] + s;
        assert forall|i: int| 0 <= i < zero.len() implies is_digit(#[trigger] zero[i]) by {
            if i > 0 {
                assert(zero[i] == s[i - 1]);
            }
        }
        lemma_leading_zero(s);
    }
}

proof fn lemma_leading_zero(s: Seq<char>)
    ensures
        decimal_value(seq!['0'] + s) == decimal_value(s),
    decreases s.len(),
{
    let zero = seq!['0'] + s;
    if s.len() == 0 {
        assert(zero.drop_last() =~= Seq::<char>::empty());
        reveal_with_fuel(decimal_value, 2);
    } else {
        assert(zero.drop_last() =~= seq!['0'] + s.drop_last());
        lemma_leading_zero(s.drop_last());
    }
}

/// Any digits without a leading zero are the decimal notation of the number that they write.
pub proof fn law_digits_are_decimal(d: Seq<char>)
    requires
        d.len() > 0,
        all_digits(d),
        d.len() > 1 ==> d[0] != '0',
    ensures
        decimal(decimal_value(d)) == d,
    decreases d.len(),
{
    let last = d.last();
    assert(is_digit(d[d.len() - 1]));
    let k = (last as int - '0' as int) as nat;
    assert(k < 10);
    if d.len() == 1 {
        assert(d.drop_last() =~= Seq::<char>::empty());
        reveal_with_fuel(decimal_value, 2);
        assert(decimal(k) =~= d);
    } else {
        let front = d.drop_last();
        assert forall|i: int| 0 <= i < front.len() implies is_digit(#[trigger] front[i]) by {
            assert(front[i] == d[i]);
        }
        law_digits_are_decimal(front);
        assert(decimal_value(front) > 0) by {
            lemma_value_positive(front);
        }
        law_decimal_is_positional(decimal_value(front), k);
        assert(decimal(decimal_value(d)) =~= d);
    }
}

proof fn lemma_value_positive(d: Seq<char>)
    requires
        d.len() > 0,
        all_digits(d),
        d[0] != '0',
    ensures
        decimal_value(d) > 0,
    decreases d.len(),
{
    assert(is_digit(d[0]));
    if d.len() > 1 {
        let front = d.drop_last();
        assert forall|i: int| 0 <= i < front.len() implies is_digit(#[trigger] front[i]) by {
            assert(front[i] == d[i]);
        }
        lemma_value_positive(front);
    }
}

/// The model of an optional text is the text's characters.
pub proof fn law_models(a: Option<&str>, b: Option<String>)
    ensures
        opt_view(a) is Some <==> a is Some,
        a matches Some(x) ==> opt_view(a) == Some(x@),
        opt_string_view(b) is Some <==> b is Some,
        b matches Some(x) ==> opt_string_view(b) == Some(x@),
{
}

} // verus!
