//! Character-level helpers: decimal rendering, Unicode whitespace, word
//! splitting and `u32` parsing, all stated over `Seq<char>`.

use vstd::prelude::*;

verus! {

/// `String::push` from std: appends one character at the end.
#[verifier::external_body]
pub(crate) fn push_char(s: &mut String, c: char)
    ensures
        final(s)@ == old(s)@.push(c),
{
    s.push(c);
}

/// The ASCII digit for a value below ten.
pub open spec fn digit_char(d: nat) -> char
    recommends
        d < 10,
{
    if d == 0 { '0' } else if d == 1 { '1' } else if d == 2 { '2' } else if d == 3 { '3' }
    else if d == 4 { '4' } else if d == 5 { '5' } else if d == 6 { '6' } else if d == 7 { '7' }
    else if d == 8 { '8' } else { '9' }
}

/// Decimal rendering of a natural number, most significant digit first,
/// without sign or leading zeros (as `u64::to_string` writes it).
pub open spec fn decimal(n: nat) -> Seq<char>
    decreases n,
{
    if n < 10 {
        seq![digit_char(n)]
    } else {
        decimal(n / 10).push(digit_char(n % 10))
    }
}

fn digit_of(d: u64) -> (c: char)
    requires
        d < 10,
    ensures
        c == digit_char(d as nat),
{
    if d == 0 { '0' } else if d == 1 { '1' } else if d == 2 { '2' } else if d == 3 { '3' }
    else if d == 4 { '4' } else if d == 5 { '5' } else if d == 6 { '6' } else if d == 7 { '7' }
    else if d == 8 { '8' } else { '9' }
}

/// Appends the decimal rendering of `n` to `s`.
pub fn write_decimal(s: &mut String, n: u64)
    ensures
        final(s)@ == old(s)@ + decimal(n as nat),
    decreases n,
{
    if n >= 10 {
        write_decimal(s, n / 10);
    }
    let c = digit_of(n % 10);
    push_char(s, c);
}

/// The decimal rendering of `n` as a new string.
pub fn decimal_string(n: u64) -> (r: String)
    ensures
        r@ == decimal(n as nat),
{
    let mut s = String::new();
    write_decimal(&mut s, n);
    assert(s@ =~= decimal(n as nat));
    s
}


/// The characters of a string slice, in order.
pub fn chars_of(s: &str) -> (v: Vec<char>)
    ensures
        v@ == s@,
{
    let n = s.unicode_len();
    let mut v: Vec<char> = Vec::new();
    let mut i: usize = 0;
    while i < n
        invariant
            n == s@.len(),
            i <= n,
            v@ == s@.take(i as int),
        decreases n - i,
    {
        let c = s.get_char(i);
        v.push(c);
        i = i + 1;
        assert(v@ =~= s@.take(i as int));
    }
    assert(v@ =~= s@);
    v
}

/// Whether two strings hold the same characters.
pub fn same_text(a: &str, b: &str) -> (r: bool)
    ensures
        r == (a@ == b@),
{
    let x = chars_of(a);
    let y = chars_of(b);
    if x.len() != y.len() {
        return false;
    }
    let mut i: usize = 0;
    while i < x.len()
        invariant
            x@ == a@,
            y@ == b@,
            x.len() == y.len(),
            i <= x.len(),
            forall|k: int| 0 <= k < i ==> x@[k] == y@[k],
        decreases x.len() - i,
    {
        if x[i] != y[i] {
            assert(a@[i as int] != b@[i as int]);
            return false;
        }
        i = i + 1;
    }
    assert(a@ =~= b@);
    true
}

/// The string made of `cs[lo..hi]`.
pub fn string_of_range(cs: &Vec<char>, lo: usize, hi: usize) -> (r: String)
    requires
        lo <= hi <= cs@.len(),
    ensures
        r@ == cs@.subrange(lo as int, hi as int),
{
    let mut r = String::new();
    let mut i = lo;
    while i < hi
        invariant
            lo <= i <= hi <= cs@.len(),
            r@ == cs@.subrange(lo as int, i as int),
        decreases hi - i,
    {
        push_char(&mut r, cs[i]);
        i = i + 1;
        assert(r@ =~= cs@.subrange(lo as int, i as int));
    }
    r
}

/// Unicode `White_Space`, the property behind `char::is_whitespace`.
pub open spec fn is_whitespace(c: char) -> bool {
    let u = c as u32;
    ||| 0x09 <= u <= 0x0d
    ||| u == 0x20
    ||| u == 0x85
    ||| u == 0xa0
    ||| u == 0x1680
    ||| 0x2000 <= u <= 0x200a
    ||| u == 0x2028
    ||| u == 0x2029
    ||| u == 0x202f
    ||| u == 0x205f
    ||| u == 0x3000
}

/// Decides `is_whitespace`.
pub fn is_whitespace_char(c: char) -> (b: bool)
    ensures
        b == is_whitespace(c),
{
    let u = c as u32;
    (0x09 <= u && u <= 0x0d) || u == 0x20 || u == 0x85 || u == 0xa0 || u == 0x1680 || (0x2000
        <= u && u <= 0x200a) || u == 0x2028 || u == 0x2029 || u == 0x202f || u == 0x205f || u
        == 0x3000
}

/// `s` without its leading whitespace.
pub open spec fn skip_whitespace(s: Seq<char>) -> Seq<char>
    decreases s.len(),
{
    if s.len() > 0 && is_whitespace(s[0]) {
        skip_whitespace(s.drop_first())
    } else {
        s
    }
}

/// The longest prefix of `s` that holds no whitespace.
pub open spec fn leading_word(s: Seq<char>) -> Seq<char>
    decreases s.len(),
{
    if s.len() > 0 && !is_whitespace(s[0]) {
        seq![s[0]] + leading_word(s.drop_first())
    } else {
        Seq::empty()
    }
}

pub proof fn lemma_skip_whitespace(s: Seq<char>)
    ensures
        skip_whitespace(s).len() <= s.len(),
        skip_whitespace(s) == s.skip(s.len() - skip_whitespace(s).len()),
        skip_whitespace(s).len() > 0 ==> !is_whitespace(skip_whitespace(s)[0]),
    decreases s.len(),
{
    if s.len() > 0 && is_whitespace(s[0]) {
        lemma_skip_whitespace(s.drop_first());
        let t = skip_whitespace(s.drop_first());
        assert(s.drop_first().skip(s.drop_first().len() - t.len()) =~= s.skip(s.len() - t.len()));
    } else {
        assert(s.skip(0) =~= s);
    }
}

pub proof fn lemma_leading_word(s: Seq<char>)
    ensures
        leading_word(s).len() <= s.len(),
        leading_word(s) == s.take(leading_word(s).len() as int),
        s.len() > 0 && !is_whitespace(s[0]) ==> leading_word(s).len() >= 1,
        forall|i: int| 0 <= i < leading_word(s).len() ==> !is_whitespace(#[trigger] leading_word(s)[i]),
        leading_word(s).len() < s.len() ==> is_whitespace(s[leading_word(s).len() as int]),
    decreases s.len(),
{
    if s.len() > 0 && !is_whitespace(s[0]) {
        lemma_leading_word(s.drop_first());
        let w = leading_word(s.drop_first());
        assert((seq![s[0]] + w) =~= s.take(w.len() + 1 as int));
    } else {
        assert(s.take(0) =~= Seq::<char>::empty());
    }
}

#[via_fn]
proof fn words_decreases(s: Seq<char>) {
    lemma_skip_whitespace(s);
    let t = skip_whitespace(s);
    if t.len() > 0 {
        lemma_leading_word(t);
    }
}

/// The maximal runs of non-whitespace characters of `s`, in order: what
/// `str::split_whitespace` yields.
pub open spec fn words(s: Seq<char>) -> Seq<Seq<char>>
    decreases s.len(),
    via words_decreases
{
    let t = skip_whitespace(s);
    if t.len() == 0 {
        Seq::empty()
    } else {
        let w = leading_word(t);
        seq![w] + words(t.skip(w.len() as int))
    }
}

/// The index of the first non-whitespace character of `cs` at or after `i`.
fn skip_whitespace_from(cs: &Vec<char>, i: usize) -> (j: usize)
    requires
        i <= cs@.len(),
    ensures
        i <= j <= cs@.len(),
        cs@.skip(j as int) == skip_whitespace(cs@.skip(i as int)),
{
    let mut j = i;
    while j < cs.len() && is_whitespace_char(cs[j])
        invariant
            i <= j <= cs@.len(),
            skip_whitespace(cs@.skip(j as int)) == skip_whitespace(cs@.skip(i as int)),
        decreases cs@.len() - j,
    {
        assert(cs@.skip(j as int).drop_first() =~= cs@.skip(j + 1));
        j = j + 1;
    }
    j
}

/// The end of the word of `cs` that starts at `i`.
fn word_end(cs: &Vec<char>, i: usize) -> (k: usize)
    requires
        i <= cs@.len(),
    ensures
        i <= k <= cs@.len(),
        cs@.subrange(i as int, k as int) == leading_word(cs@.skip(i as int)),
        i < cs@.len() && !is_whitespace(cs@[i as int]) ==> k > i,
{
    let mut k = i;
    while k < cs.len() && !is_whitespace_char(cs[k])
        invariant
            i <= k <= cs@.len(),
            leading_word(cs@.skip(i as int)) == cs@.subrange(i as int, k as int) + leading_word(
                cs@.skip(k as int),
            ),
        decreases cs@.len() - k,
    {
        assert(cs@.skip(k as int).drop_first() =~= cs@.skip(k + 1));
        assert(cs@.subrange(i as int, k as int) + seq![cs@[k as int]] =~= cs@.subrange(
            i as int,
            k + 1,
        ));
        k = k + 1;
    }
    assert(cs@.subrange(i as int, k as int) + Seq::<char>::empty() =~= cs@.subrange(
        i as int,
        k as int,
    ));
    k
}

/// The whitespace-separated words of `cs[start..]`.
pub fn words_from(cs: &Vec<char>, start: usize) -> (r: Vec<String>)
    requires
        start <= cs@.len(),
    ensures
        r@.map_values(|w: String| w@) == words(cs@.skip(start as int)),
{
    let mut out: Vec<String> = Vec::new();
    let mut i = start;
    proof {
        assert(out@.map_values(|w: String| w@) + words(cs@.skip(i as int)) =~= words(
            cs@.skip(start as int),
        ));
    }
    while i < cs.len()
        invariant
            start <= i <= cs@.len(),
            out@.map_values(|w: String| w@) + words(cs@.skip(i as int)) == words(
                cs@.skip(start as int),
            ),
        decreases cs@.len() - i,
    {
        let j = skip_whitespace_from(cs, i);
        let ghost rest = cs@.skip(i as int);
        if j < cs.len() {
            let k = word_end(cs, j);
            let w = string_of_range(cs, j, k);
            proof {
                let t = skip_whitespace(rest);
                assert(t == cs@.skip(j as int));
                assert(t.skip(w@.len() as int) =~= cs@.skip(k as int));
                assert(words(rest) == seq![w@] + words(cs@.skip(k as int)));
            }
            let ghost before = out@.map_values(|w: String| w@);
            out.push(w);
            proof {
                assert(out@.map_values(|w: String| w@) =~= before.push(w@));
                assert(before.push(w@) + words(cs@.skip(k as int)) =~= before + (seq![w@] + words(
                    cs@.skip(k as int),
                )));
            }
            i = k;
        } else {
            proof {
                assert(skip_whitespace(rest).len() == 0);
                assert(words(rest) =~= Seq::<Seq<char>>::empty());
                assert(cs@.skip(j as int).len() == 0);
                assert(words(cs@.skip(j as int)) =~= Seq::<Seq<char>>::empty());
            }
            i = j;
        }
    }
    proof {
        assert(cs@.skip(i as int).len() == 0);
        assert(words(cs@.skip(i as int)) =~= Seq::<Seq<char>>::empty());
        assert(out@.map_values(|w: String| w@) + Seq::<Seq<char>>::empty() =~= out@.map_values(
            |w: String| w@,
        ));
    }
    out
}


/// `s` with every leading `c` removed (`str::trim_start_matches` with a char).
pub open spec fn trim_leading(s: Seq<char>, c: char) -> Seq<char>
    decreases s.len(),
{
    if s.len() > 0 && s[0] == c {
        trim_leading(s.drop_first(), c)
    } else {
        s
    }
}

/// The index of the first character of `cs` that is not `c`.
pub fn count_leading(cs: &Vec<char>, c: char) -> (i: usize)
    ensures
        i <= cs@.len(),
        cs@.skip(i as int) == trim_leading(cs@, c),
{
    let mut i: usize = 0;
    assert(cs@.skip(0) =~= cs@);
    while i < cs.len() && cs[i] == c
        invariant
            i <= cs@.len(),
            trim_leading(cs@.skip(i as int), c) == trim_leading(cs@, c),
        decreases cs@.len() - i,
    {
        assert(cs@.skip(i as int).drop_first() =~= cs@.skip(i + 1));
        i = i + 1;
    }
    i
}

/// Whether `c` is one of `0`..`9`.
pub open spec fn is_ascii_digit(c: char) -> bool {
    48 <= (c as u32) <= 57
}

/// The number that a string of ASCII digits denotes in base ten.
pub open spec fn digits_value(s: Seq<char>) -> nat
    decreases s.len(),
{
    if s.len() == 0 {
        0
    } else {
        digits_value(s.drop_last()) * 10 + ((s.last() as u32) - 48) as nat
    }
}

/// A non-empty run of ASCII digits whose value fits in a `u32`.
pub open spec fn parse_digits_u32(d: Seq<char>) -> Option<u32> {
    if d.len() > 0 && (forall|i: int| 0 <= i < d.len() ==> is_ascii_digit(#[trigger] d[i]))
        && digits_value(d) <= u32::MAX {
        Some(digits_value(d) as u32)
    } else {
        None
    }
}

/// What `str::parse::<u32>` gives: an optional leading `+`, then one or
/// more ASCII digits whose value fits in a `u32`; anything else is refused.
pub open spec fn parse_u32(s: Seq<char>) -> Option<u32> {
    if s.len() > 0 && s[0] == '+' {
        parse_digits_u32(s.drop_first())
    } else {
        parse_digits_u32(s)
    }
}

proof fn lemma_digits_value_prefix(d: Seq<char>, i: int)
    requires
        0 <= i <= d.len(),
        forall|k: int| 0 <= k < d.len() ==> is_ascii_digit(#[trigger] d[k]),
    ensures
        digits_value(d.take(i)) <= digits_value(d),
    decreases d.len() - i,
{
    if i < d.len() {
        lemma_digits_value_prefix(d, i + 1);
        assert(d.take(i + 1).drop_last() =~= d.take(i));
        assert(d.take(i + 1).last() == d[i]);
    } else {
        assert(d.take(i) =~= d);
    }
}

/// Parses a `u32` the way `str::parse::<u32>` does.
pub fn parse_u32_chars(s: &Vec<char>) -> (r: Option<u32>)
    ensures
        r == parse_u32(s@),
{
    let start: usize = if s.len() > 0 && s[0] == '+' {
        1
    } else {
        0
    };
    let ghost d = s@.skip(start as int);
    proof {
        if start == 1 {
            assert(d =~= s@.drop_first());
        } else {
            assert(d =~= s@);
        }
        assert(parse_u32(s@) == parse_digits_u32(d));
    }
    if start == s.len() {
        return None;
    }
    let mut acc: u64 = 0;
    let mut i = start;
    while i < s.len()
        invariant
            start <= i <= s@.len(),
            d == s@.skip(start as int),
            parse_u32(s@) == parse_digits_u32(d),
            acc == digits_value(d.take(i - start)),
            acc <= u32::MAX,
            forall|k: int| 0 <= k < i - start ==> is_ascii_digit(#[trigger] d[k]),
        decreases s@.len() - i,
    {
        let c = s[i];
        let u = c as u32;
        if u < 48 || u > 57 {
            assert(!is_ascii_digit(d[i - start]));
            return None;
        }
        let ghost prev = d.take(i - start);
        acc = acc * 10 + (u - 48) as u64;
        proof {
            assert(d.take(i - start + 1).drop_last() =~= prev);
            assert(d.take(i - start + 1).last() == c);
        }
        i = i + 1;
        if acc > 0xffff_ffff {
            proof {
                if forall|k: int| 0 <= k < d.len() ==> is_ascii_digit(#[trigger] d[k]) {
                    lemma_digits_value_prefix(d, i - start);
                }
            }
            return None;
        }
    }
    assert(d.take(i - start) =~= d);
    Some(acc as u32)
}

pub proof fn lemma_decimal_digits(n: nat)
    ensures
        decimal(n).len() > 0,
        forall|i: int| 0 <= i < decimal(n).len() ==> is_ascii_digit(#[trigger] decimal(n)[i]),
        digits_value(decimal(n)) == n,
    decreases n,
{
    if n >= 10 {
        lemma_decimal_digits(n / 10);
        let p = decimal(n / 10);
        assert(decimal(n).drop_last() =~= p);
        let c = digit_char(n % 10);
        assert(decimal(n).last() == c);
        assert(((c as u32) - 48) as nat == n % 10);
        assert(digits_value(decimal(n)) == digits_value(p) * 10 + n % 10);
        assert forall|i: int| 0 <= i < decimal(n).len() implies is_ascii_digit(
            #[trigger] decimal(n)[i],
        ) by {
            if i < p.len() {
                assert(decimal(n)[i] == p[i]);
            }
        }
    } else {
        assert(seq![digit_char(n)].drop_last() =~= Seq::<char>::empty());
        assert(digits_value(Seq::<char>::empty()) == 0);
    }
}

/// Parsing the decimal rendering of any `u32` gives that number back.
pub proof fn lemma_parse_decimal(n: u32)
    ensures
        parse_u32(decimal(n as nat)) == Some(n),
{
    lemma_decimal_digits(n as nat);
    let d = decimal(n as nat);
    assert(is_ascii_digit(d[0]));
}


proof fn lemma_skip_whitespace_idempotent(s: Seq<char>)
    ensures
        skip_whitespace(skip_whitespace(s)) == skip_whitespace(s),
{
    lemma_skip_whitespace(s);
}

/// Leading whitespace does not change the words.
pub proof fn lemma_words_skip(s: Seq<char>)
    ensures
        words(skip_whitespace(s)) == words(s),
{
    lemma_skip_whitespace_idempotent(s);
}

proof fn lemma_skip_whitespace_append(a: Seq<char>, b: Seq<char>)
    ensures
        skip_whitespace(a + b) == if skip_whitespace(a).len() > 0 {
            skip_whitespace(a) + b
        } else {
            skip_whitespace(b)
        },
    decreases a.len(),
{
    if a.len() == 0 {
        assert(a + b =~= b);
    } else if is_whitespace(a[0]) {
        assert((a + b).drop_first() =~= a.drop_first() + b);
        lemma_skip_whitespace_append(a.drop_first(), b);
    }
}

proof fn lemma_leading_word_append(t: Seq<char>, b: Seq<char>)
    requires
        leading_word(t).len() < t.len() || b.len() == 0 || is_whitespace(b[0]),
    ensures
        leading_word(t + b) == leading_word(t),
    decreases t.len(),
{
    if t.len() == 0 {
        assert(t + b =~= b);
    } else if !is_whitespace(t[0]) {
        assert((t + b).drop_first() =~= t.drop_first() + b);
        lemma_leading_word_append(t.drop_first(), b);
    }
}

/// Words do not run across a whitespace boundary: the words of `a + b`,
/// where `b` is empty or starts with whitespace, are those of `a` followed
/// by those of `b`.
pub proof fn lemma_words_append(a: Seq<char>, b: Seq<char>)
    requires
        b.len() == 0 || is_whitespace(b[0]),
    ensures
        words(a + b) == words(a) + words(b),
    decreases a.len(),
{
    lemma_skip_whitespace(a);
    lemma_skip_whitespace_append(a, b);
    let t = skip_whitespace(a);
    if t.len() == 0 {
        lemma_words_skip(a + b);
        lemma_words_skip(b);
        assert(words(a) == Seq::<Seq<char>>::empty());
        assert(words(a) + words(b) =~= words(b));
    } else {
        lemma_leading_word(t);
        lemma_leading_word_append(t, b);
        let w = leading_word(t);
        let rest = t.skip(w.len() as int);
        assert((t + b).skip(w.len() as int) =~= rest + b);
        lemma_words_append(rest, b);
        assert(words(a) == seq![w] + words(rest));
        assert(words(a + b) == seq![w] + words(rest + b));
        assert(seq![w] + (words(rest) + words(b)) =~= (seq![w] + words(rest)) + words(b));
    }
}

/// A run of whitespace in front of `b` does not change its words.
pub proof fn lemma_words_after_whitespace(r: Seq<char>, b: Seq<char>)
    requires
        forall|i: int| 0 <= i < r.len() ==> is_whitespace(#[trigger] r[i]),
    ensures
        words(r + b) == words(b),
{
    lemma_skip_whitespace(r);
    if skip_whitespace(r).len() > 0 {
        let k = r.len() - skip_whitespace(r).len();
        assert(skip_whitespace(r)[0] == r[k]);
    }
    lemma_skip_whitespace_append(r, b);
    lemma_words_skip(r + b);
    lemma_words_skip(b);
}

/// Removing leading `c`s stops at the first other character.
pub proof fn lemma_trim_leading_append(s: Seq<char>, rest: Seq<char>, c: char)
    requires
        rest.len() > 0,
        rest[0] != c,
    ensures
        trim_leading(s + rest, c) == trim_leading(s, c) + rest,
    decreases s.len(),
{
    if s.len() == 0 {
        assert(s + rest =~= rest);
        assert(trim_leading(s, c) + rest =~= rest);
    } else if s[0] == c {
        assert((s + rest).drop_first() =~= s.drop_first() + rest);
        lemma_trim_leading_append(s.drop_first(), rest, c);
    }
}

/// The strings of `list` joined with `sep` between neighbours
/// (`[String]::join`).
pub open spec fn join(list: Seq<Seq<char>>, sep: Seq<char>) -> Seq<char>
    decreases list.len(),
{
    if list.len() == 0 {
        Seq::empty()
    } else if list.len() == 1 {
        list[0]
    } else {
        join(list.drop_last(), sep) + sep + list.last()
    }
}

pub open spec fn strings_view(list: Seq<String>) -> Seq<Seq<char>> {
    list.map_values(|s: String| s@)
}

/// Joins `list` with `sep`.
pub fn join_strings(list: &Vec<String>, sep: &str) -> (r: String)
    ensures
        r@ == join(strings_view(list@), sep@),
{
    let mut r = String::new();
    let mut i: usize = 0;
    let ghost v = strings_view(list@);
    while i < list.len()
        invariant
            i <= list@.len(),
            v == strings_view(list@),
            r@ == join(v.take(i as int), sep@),
        decreases list@.len() - i,
    {
        if i > 0 {
            r.append(sep);
        }
        r.append(list[i].as_str());
        proof {
            assert(v.take(i + 1).drop_last() =~= v.take(i as int));
            if i == 0 {
                assert(v.take(1) =~= seq![v[0]]);
            }
        }
        i = i + 1;
    }
    assert(v.take(i as int) =~= v);
    r
}

/// `s` with every occurrence of `c` removed.
pub open spec fn without_char(s: Seq<char>, c: char) -> Seq<char>
    decreases s.len(),
{
    if s.len() == 0 {
        Seq::empty()
    } else if s.last() == c {
        without_char(s.drop_last(), c)
    } else {
        without_char(s.drop_last(), c).push(s.last())
    }
}

/// Removes every `c` from `s` (`str::replace` with an empty replacement).
pub fn remove_char(s: &str, c: char) -> (r: String)
    ensures
        r@ == without_char(s@, c),
{
    let cs = chars_of(s);
    let mut r = String::new();
    let mut i: usize = 0;
    while i < cs.len()
        invariant
            i <= cs@.len(),
            cs@ == s@,
            r@ == without_char(cs@.take(i as int), c),
        decreases cs@.len() - i,
    {
        if cs[i] != c {
            push_char(&mut r, cs[i]);
        }
        assert(cs@.take(i + 1).drop_last() =~= cs@.take(i as int));
        i = i + 1;
    }
    assert(cs@.take(i as int) =~= cs@);
    r
}

} // verus!
