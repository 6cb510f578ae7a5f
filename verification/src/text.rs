//! Text handling shared by the service: splitting, joining, trimming,
//! decimal numbers and JSON string escaping, each over the characters of a string.
use vstd::prelude::*;

verus! {

// ---------------------------------------------------------------------------
// Conversions between `&str`, `Vec<char>` and `String`
// ---------------------------------------------------------------------------

/// `String::push`: appends one character.
#[verifier::external_body]
pub(crate) fn push_char(s: &mut String, c: char)
    ensures
        final(s)@ == old(s)@.push(c),
{
    s.push(c);
}

/// The characters of `s`, in order.
pub fn chars_of(s: &str) -> (v: Vec<char>)
    ensures
        v@ == s@,
{
    let mut v: Vec<char> = Vec::new();
    broadcast use vstd::string::group_string_axioms;
    for c in it: s.chars()
        invariant
            v@ == it.seq().take(it.index()),
            it.seq() == s@,
    {
        v.push(c);
        assert(v@ =~= it.seq().take(it.index() + 1));
    }
    assert(v@ =~= s@);
    v
}

// ---------------------------------------------------------------------------
// ASCII whitespace, words and joining
// ---------------------------------------------------------------------------

/// The ASCII whitespace characters of `u8::is_ascii_whitespace`:
/// space, horizontal tab, line feed, form feed and carriage return.
pub open spec fn is_ascii_ws(c: char) -> bool {
    c == ' ' || c == '\t' || c == '\n' || c == '\x0C' || c == '\r'
}

/// Whether `c` is ASCII whitespace.
pub fn ascii_ws(c: char) -> (r: bool)
    ensures
        r == is_ascii_ws(c),
{
    c == ' ' || c == '\t' || c == '\n' || c == '\x0C' || c == '\r'
}

/// The words of `s`: its maximal runs of characters that are not ASCII whitespace,
/// in order (what `str::split_ascii_whitespace` yields).
pub open spec fn ascii_words(s: Seq<char>) -> Seq<Seq<char>>
    decreases s.len(),
{
    if s.len() == 0 {
        seq![]
    } else {
        let prev = ascii_words(s.drop_last());
        let c = s.last();
        if is_ascii_ws(c) {
            prev
        } else if s.len() == 1 || is_ascii_ws(s[s.len() - 2]) {
            prev.push(seq![c])
        } else {
            prev.drop_last().push(prev.last().push(c))
        }
    }
}

/// The items of `parts` with `sep` between each two neighbours.
pub open spec fn join(parts: Seq<Seq<char>>, sep: Seq<char>) -> Seq<char>
    decreases parts.len(),
{
    if parts.len() == 0 {
        seq![]
    } else if parts.len() == 1 {
        parts[0]
    } else {
        join(parts.drop_last(), sep) + sep + parts.last()
    }
}

/// A prefix of `s` that ends in a character that is not whitespace has at least one word.
proof fn lemma_words_nonempty(s: Seq<char>)
    requires
        s.len() > 0,
        !is_ascii_ws(s.last()),
    ensures
        ascii_words(s).len() > 0,
{
}

/// Growing the last part by one character grows the joined text by that character.
proof fn lemma_join_extend_last(parts: Seq<Seq<char>>, sep: Seq<char>, c: char)
    requires
        parts.len() > 0,
    ensures
        join(parts.drop_last().push(parts.last().push(c)), sep) == join(parts, sep).push(c),
{
    let q = parts.drop_last().push(parts.last().push(c));
    assert(q.drop_last() =~= parts.drop_last());
    if parts.len() == 1 {
        assert(join(q, sep) == q[0]);
    } else {
        assert(join(q, sep) =~= join(parts, sep).push(c));
    }
}

/// Adding a part adds the separator (when there was a part before) and the part.
proof fn lemma_join_push(parts: Seq<Seq<char>>, sep: Seq<char>, p: Seq<char>)
    ensures
        join(parts.push(p), sep) == if parts.len() == 0 {
            p
        } else {
            join(parts, sep) + sep + p
        },
{
    assert(parts.push(p).drop_last() =~= parts);
    if parts.len() == 0 {
        assert(join(parts.push(p), sep) == parts.push(p)[0]);
    }
}

/// Text without ASCII whitespace is a single word.
proof fn lemma_single_word(v: Seq<char>)
    requires
        v.len() > 0,
        forall|i: int| 0 <= i < v.len() ==> !is_ascii_ws(#[trigger] v[i]),
    ensures
        ascii_words(v) == seq![v],
    decreases v.len(),
{
    if v.len() == 1 {
        assert(v.drop_last() =~= Seq::<char>::empty());
        assert(ascii_words(v.drop_last()) =~= Seq::<Seq<char>>::empty());
        assert(seq![v.last()] =~= v);
        assert(Seq::<Seq<char>>::empty().push(seq![v.last()]) =~= seq![v]);
    } else {
        let p = v.drop_last();
        assert(forall|i: int| 0 <= i < p.len() ==> p[i] == v[i]);
        lemma_single_word(p);
        assert(!is_ascii_ws(v[v.len() - 2]));
        assert(p.push(v.last()) =~= v);
        assert(seq![p].drop_last().push(seq![p].last().push(v.last())) =~= seq![v]);
    }
}

/// Joining the words of text without whitespace gives the text back.
pub proof fn lemma_join_single_word(v: Seq<char>, sep: Seq<char>)
    requires
        v.len() > 0,
        forall|i: int| 0 <= i < v.len() ==> !is_ascii_ws(#[trigger] v[i]),
    ensures
        join(ascii_words(v), sep) == v,
{
    lemma_single_word(v);
    assert(join(seq![v], sep) == seq![v][0]);
}

/// Whether `w` can be a word: not empty and without ASCII whitespace.
pub open spec fn is_word(w: Seq<char>) -> bool {
    w.len() > 0 && forall|i: int| 0 <= i < w.len() ==> !is_ascii_ws(#[trigger] w[i])
}

/// A word written after text and one whitespace character becomes one more word.
proof fn lemma_words_after_space(s: Seq<char>, c: char, w: Seq<char>)
    requires
        is_ascii_ws(c),
        is_word(w),
    ensures
        ascii_words(s + seq![c] + w) == ascii_words(s).push(w),
    decreases w.len(),
{
    let t = s + seq![c] + w;
    if w.len() == 1 {
        assert(t.drop_last() =~= s + seq![c]);
        assert((s + seq![c]).drop_last() =~= s);
        assert((s + seq![c]).last() == c);
        assert(ascii_words(s + seq![c]) == ascii_words(s));
        assert(t[t.len() - 2] == c);
        assert(t.last() == w[0]);
        assert(!is_ascii_ws(t.last()));
        assert(seq![t.last()] =~= w);
        assert(ascii_words(t) == ascii_words(t.drop_last()).push(seq![t.last()]));
    } else {
        let v = w.drop_last();
        assert(is_word(v)) by {
            assert(forall|i: int| 0 <= i < v.len() ==> v[i] == w[i]);
        }
        lemma_words_after_space(s, c, v);
        assert(t.drop_last() =~= s + seq![c] + v);
        assert(t[t.len() - 2] == w[w.len() - 2]);
        assert(!is_ascii_ws(t.last())) by {
            assert(t.last() == w[w.len() - 1]);
        }
        assert(v.push(t.last()) =~= w);
        let prev = ascii_words(s).push(v);
        assert(ascii_words(t.drop_last()) == prev);
        assert(prev.drop_last() =~= ascii_words(s));
        assert(prev.last() == v);
        assert(ascii_words(t) == prev.drop_last().push(prev.last().push(t.last())));
    }
}

/// Splitting words joined by a whitespace character gives the words back, so joining them
/// again with `sep` puts exactly one `sep` between each two neighbours: for any words
/// `w1 .. wk`, the words of `w1 c w2 c .. c wk` are `w1 .. wk`, and `join_ascii_words` of
/// that text gives `w1 sep w2 sep .. sep wk`.
pub proof fn lemma_words_of_joined_words(ws: Seq<Seq<char>>, c: char, sep: Seq<char>)
    requires
        is_ascii_ws(c),
        forall|i: int| 0 <= i < ws.len() ==> is_word(#[trigger] ws[i]),
    ensures
        ascii_words(join(ws, seq![c])) == ws,
        join(ascii_words(join(ws, seq![c])), sep) == join(ws, sep),
    decreases ws.len(),
{
    if ws.len() == 0 {
    } else if ws.len() == 1 {
        lemma_single_word(ws[0]);
        assert(seq![ws[0]] =~= ws);
    } else {
        let p = ws.drop_last();
        assert(forall|i: int| 0 <= i < p.len() ==> p[i] == ws[i]);
        lemma_words_of_joined_words(p, c, sep);
        assert(is_word(ws[ws.len() - 1]));
        lemma_words_after_space(join(p, seq![c]), c, ws.last());
        assert(p.push(ws.last()) =~= ws);
    }
}

/// The words of `s` joined by `sep`: `s.split_ascii_whitespace()` collected and joined.
pub fn join_ascii_words(s: &str, sep: char) -> (r: String)
    ensures
        r@ == join(ascii_words(s@), seq![sep]),
{
    let cs = chars_of(s);
    let mut out = String::new();
    let mut i: usize = 0;
    let mut in_word = false;
    let mut any_word = false;
    while i < cs.len()
        invariant
            i <= cs.len(),
            cs@ == s@,
            out@ == join(ascii_words(cs@.take(i as int)), seq![sep]),
            in_word == (i > 0 && !is_ascii_ws(cs@[i - 1])),
            any_word == (ascii_words(cs@.take(i as int)).len() > 0),
        decreases cs.len() - i,
    {
        let c = cs[i];
        let ghost pre = cs@.take(i as int);
        let ghost now = cs@.take(i + 1);
        assert(now.drop_last() =~= pre);
        assert(now.last() == c);
        if ascii_ws(c) {
            in_word = false;
        } else {
            let ghost ws = ascii_words(pre);
            if in_word {
                assert(now[now.len() - 2] == cs@[i - 1]);
                proof {
                    lemma_words_nonempty(pre);
                    lemma_join_extend_last(ws, seq![sep], c);
                }
                push_char(&mut out, c);
            } else {
                proof {
                    if i > 0 {
                        assert(now[now.len() - 2] == cs@[i - 1]);
                    }
                    lemma_join_push(ws, seq![sep], seq![c]);
                }
                if any_word {
                    push_char(&mut out, sep);
                }
                any_word = true;
                push_char(&mut out, c);
                assert(out@ =~= join(ascii_words(now), seq![sep]));
            }
            in_word = true;
        }
        i = i + 1;
    }
    assert(cs@.take(cs.len() as int) =~= cs@);
    out
}


// ---------------------------------------------------------------------------
// Decimal numbers
// ---------------------------------------------------------------------------

/// The character of the decimal digit `d` (`0 <= d < 10`).
pub open spec fn digit_char(d: int) -> char {
    if d == 0 { '0' }
    else if d == 1 { '1' }
    else if d == 2 { '2' }
    else if d == 3 { '3' }
    else if d == 4 { '4' }
    else if d == 5 { '5' }
    else if d == 6 { '6' }
    else if d == 7 { '7' }
    else if d == 8 { '8' }
    else { '9' }
}

/// Whether `c` is one of the ASCII digits `0` to `9`.
pub open spec fn is_digit(c: char) -> bool {
    '0' <= c <= '9'
}

/// The value of the ASCII digit `c`.
pub open spec fn digit_value(c: char) -> int {
    c as int - '0' as int
}

/// The decimal digits of `n`, most significant first, without leading zeros.
pub open spec fn nat_digits(n: nat) -> Seq<char>
    decreases n,
{
    if n < 10 {
        seq![digit_char(n as int)]
    } else {
        nat_digits(n / 10).push(digit_char((n % 10) as int))
    }
}

/// The decimal text of `n`, as `Display` writes an integer: a `-` before negative numbers.
pub open spec fn decimal(n: int) -> Seq<char> {
    if n < 0 {
        seq!['-'] + nat_digits((-n) as nat)
    } else {
        nat_digits(n as nat)
    }
}

/// The value of a string of decimal digits, read most significant first.
pub open spec fn digits_value(s: Seq<char>) -> int
    decreases s.len(),
{
    if s.len() == 0 {
        0
    } else {
        digits_value(s.drop_last()) * 10 + digit_value(s.last())
    }
}

/// Whether every character of `s` is an ASCII digit.
pub open spec fn all_digits(s: Seq<char>) -> bool {
    forall|i: int| 0 <= i < s.len() ==> is_digit(#[trigger] s[i])
}

fn digit_to_char(d: u64) -> (c: char)
    requires
        d < 10,
    ensures
        c == digit_char(d as int),
{
    if d == 0 { '0' }
    else if d == 1 { '1' }
    else if d == 2 { '2' }
    else if d == 3 { '3' }
    else if d == 4 { '4' }
    else if d == 5 { '5' }
    else if d == 6 { '6' }
    else if d == 7 { '7' }
    else if d == 8 { '8' }
    else { '9' }
}

/// Appends the decimal digits of `n` to `out`.
pub fn push_nat_digits(out: &mut String, n: u64)
    ensures
        final(out)@ == old(out)@ + nat_digits(n as nat),
    decreases n,
{
    if n < 10 {
        push_char(out, digit_to_char(n));
        assert(final(out)@ =~= old(out)@ + nat_digits(n as nat));
    } else {
        push_nat_digits(out, n / 10);
        push_char(out, digit_to_char(n % 10));
        assert(final(out)@ =~= old(out)@ + nat_digits(n as nat));
    }
}

/// `n.to_string()` for an `i64`.
pub fn i64_to_string(n: i64) -> (s: String)
    ensures
        s@ == decimal(n as int),
{
    let mut s = String::new();
    if n < 0 {
        push_char(&mut s, '-');
        let m: u64 = if n == i64::MIN {
            9223372036854775808u64
        } else {
            (-n) as u64
        };
        push_nat_digits(&mut s, m);
    } else {
        push_nat_digits(&mut s, n as u64);
    }
    assert(s@ =~= decimal(n as int));
    s
}

/// What `str::parse::<i64>` gives for `s`: an optional `+` or `-`, then one or more
/// ASCII digits whose value, with that sign, lies in the range of `i64`.
pub open spec fn parse_i64_spec(s: Seq<char>) -> Option<i64> {
    let neg = s.len() > 0 && s[0] == '-';
    let signed = s.len() > 0 && (s[0] == '-' || s[0] == '+');
    let digits = if signed { s.skip(1) } else { s };
    let v = if neg { -digits_value(digits) } else { digits_value(digits) };
    if digits.len() > 0 && all_digits(digits) && i64::MIN <= v <= i64::MAX {
        Some(v as i64)
    } else {
        None
    }
}

/// The value of a prefix of a digit string is at most the value of the whole.
proof fn lemma_digits_value_prefix(s: Seq<char>, k: int)
    requires
        0 <= k <= s.len(),
        all_digits(s),
    ensures
        0 <= digits_value(s.take(k)) <= digits_value(s),
    decreases s.len(),
{
    if s.len() > 0 {
        assert(all_digits(s.drop_last()));
        if k == s.len() {
            assert(s.take(k) =~= s);
            lemma_digits_value_prefix(s.drop_last(), k - 1);
        } else {
            assert(s.drop_last().take(k) =~= s.take(k));
            lemma_digits_value_prefix(s.drop_last(), k);
        }
        assert(is_digit(s[s.len() - 1]));
    }
}

fn char_digit(c: char) -> (d: Option<i64>)
    ensures
        d matches Some(v) ==> is_digit(c) && v == digit_value(c),
        d is None ==> !is_digit(c),
{
    if '0' <= c && c <= '9' {
        Some((c as u32 - '0' as u32) as i64)
    } else {
        None
    }
}

/// The decimal digits of a number are digits, start with a digit, and have its value.
proof fn lemma_nat_digits(n: nat)
    ensures
        nat_digits(n).len() > 0,
        all_digits(nat_digits(n)),
        digits_value(nat_digits(n)) == n,
    decreases n,
{
    if n >= 10 {
        lemma_nat_digits(n / 10);
        let d = nat_digits(n);
        assert(d.drop_last() == nat_digits(n / 10));
        let k = (n % 10) as int;
        assert(digit_value(digit_char(k)) == k);
        assert((n / 10) * 10 + n % 10 == n) by (nonlinear_arith);
        assert(d.last() == digit_char(k));
        assert(digits_value(d) == digits_value(d.drop_last()) * 10 + digit_value(d.last()));
        assert(digits_value(d) == n);
        assert forall|i: int| 0 <= i < d.len() implies is_digit(#[trigger] d[i]) by {
            if i < d.len() - 1 {
                assert(d[i] == nat_digits(n / 10)[i]);
            }
        }
    } else {
        let d = nat_digits(n);
        assert(d.drop_last() =~= Seq::<char>::empty());
        assert(digit_value(digit_char(n as int)) == n);
        assert(d.last() == digit_char(n as int));
        assert(digits_value(d.drop_last()) == 0);
        assert(digits_value(d) == n);
    }
}

/// A number written in decimal reads back as itself: `n.to_string().parse::<i64>()`
/// gives `n` for every `i64`.
pub proof fn lemma_decimal_parses_back(n: i64)
    ensures
        parse_i64_spec(decimal(n as int)) == Some(n),
{
    let s = decimal(n as int);
    if n < 0 {
        let m = (-(n as int)) as nat;
        lemma_nat_digits(m);
        assert(s.skip(1) =~= nat_digits(m));
    } else {
        lemma_nat_digits(n as nat);
        let d = nat_digits(n as nat);
        assert(is_digit(d[0]));
    }
}

/// `s.parse::<i64>().ok()`.
pub fn parse_i64(s: &str) -> (r: Option<i64>)
    ensures
        r == parse_i64_spec(s@),
{
    let cs = chars_of(s);
    let n = cs.len();
    let neg = n > 0 && cs[0] == '-';
    let signed = n > 0 && (cs[0] == '-' || cs[0] == '+');
    let start: usize = if signed { 1 } else { 0 };
    let ghost digits = if signed { cs@.skip(1) } else { cs@ };
    assert(digits =~= cs@.skip(start as int));
    if start == n {
        return None;
    }
    let mut acc: i64 = 0;
    let mut i: usize = start;
    while i < n
        invariant
            start <= i <= n,
            cs@ == s@,
            n == cs.len(),
            neg == (s@.len() > 0 && s@[0] == '-'),
            signed == (s@.len() > 0 && (s@[0] == '-' || s@[0] == '+')),
            start == if signed { 1usize } else { 0usize },
            digits == if signed { s@.skip(1) } else { s@ },
            digits =~= cs@.skip(start as int),
            all_digits(cs@.subrange(start as int, i as int)),
            acc == if neg {
                -digits_value(cs@.subrange(start as int, i as int))
            } else {
                digits_value(cs@.subrange(start as int, i as int))
            },
        decreases n - i,
    {
        let ghost pre = cs@.subrange(start as int, i as int);
        let ghost now = cs@.subrange(start as int, i + 1);
        assert(now.drop_last() =~= pre);
        match char_digit(cs[i]) {
            None => {
                assert(!all_digits(digits)) by {
                    assert(digits[i - start] == cs@[i as int]);
                }
                return None;
            },
            Some(d) => {
                let next = if neg {
                    match acc.checked_mul(10) {
                        Some(m) => m.checked_sub(d),
                        None => None,
                    }
                } else {
                    match acc.checked_mul(10) {
                        Some(m) => m.checked_add(d),
                        None => None,
                    }
                };
                match next {
                    None => {
                        proof {
                            if all_digits(digits) {
                                assert(now =~= digits.take(i + 1 - start));
                                lemma_digits_value_prefix(digits, i + 1 - start);
                                assert(digits_value(now) == digits_value(pre) * 10 + d);
                            }
                        }
                        return None;
                    },
                    Some(v) => {
                        acc = v;
                    },
                }
            },
        }
        i = i + 1;
        assert(all_digits(now)) by {
            assert forall|j: int| 0 <= j < now.len() implies is_digit(#[trigger] now[j]) by {
                if j < now.len() - 1 {
                    assert(now[j] == pre[j]);
                }
            }
        }
    }
    assert(cs@.subrange(start as int, n as int) =~= digits);
    Some(acc)
}


// ---------------------------------------------------------------------------
// Unicode whitespace and trimming
// ---------------------------------------------------------------------------

/// The characters with the Unicode `White_Space` property, which `char::is_whitespace`
/// and `str::trim` use.
pub open spec fn is_unicode_ws(c: char) -> bool {
    ||| '\t' <= c <= '\r'
    ||| c == ' '
    ||| c == '\u{85}'
    ||| c == '\u{A0}'
    ||| c == '\u{1680}'
    ||| '\u{2000}' <= c <= '\u{200A}'
    ||| c == '\u{2028}'
    ||| c == '\u{2029}'
    ||| c == '\u{202F}'
    ||| c == '\u{205F}'
    ||| c == '\u{3000}'
}

/// Whether `c` is Unicode whitespace.
pub fn unicode_ws(c: char) -> (r: bool)
    ensures
        r == is_unicode_ws(c),
{
    ('\t' <= c && c <= '\r') || c == ' ' || c == '\u{85}' || c == '\u{A0}' || c == '\u{1680}'
        || ('\u{2000}' <= c && c <= '\u{200A}') || c == '\u{2028}' || c == '\u{2029}'
        || c == '\u{202F}' || c == '\u{205F}' || c == '\u{3000}'
}

/// `s` without its leading whitespace.
pub open spec fn trim_start_ws(s: Seq<char>) -> Seq<char>
    decreases s.len(),
{
    if s.len() > 0 && is_unicode_ws(s[0]) {
        trim_start_ws(s.drop_first())
    } else {
        s
    }
}

/// `s` without its trailing whitespace.
pub open spec fn trim_end_ws(s: Seq<char>) -> Seq<char>
    decreases s.len(),
{
    if s.len() > 0 && is_unicode_ws(s.last()) {
        trim_end_ws(s.drop_last())
    } else {
        s
    }
}

/// `str::trim`: `s` without leading and trailing whitespace.
pub open spec fn trim_ws(s: Seq<char>) -> Seq<char> {
    trim_end_ws(trim_start_ws(s))
}

/// `str::trim_start_matches` with a non-empty pattern: `s` with every leading copy
/// of `p` removed, one after another.
pub open spec fn strip_prefixes(s: Seq<char>, p: Seq<char>) -> Seq<char>
    decreases s.len(),
{
    if p.len() > 0 && p.len() <= s.len() && s.take(p.len() as int) == p {
        strip_prefixes(s.skip(p.len() as int), p)
    } else {
        s
    }
}

/// The text `Bearer`.
pub open spec fn bearer() -> Seq<char> {
    seq!['B', 'e', 'a', 'r', 'e', 'r']
}

/// The token carried by an `Authorization` value: every leading `Bearer` removed,
/// then surrounding whitespace.
pub open spec fn bearer_token(s: Seq<char>) -> Seq<char> {
    trim_ws(strip_prefixes(s, bearer()))
}

/// A token sent as `Bearer <token>` is read back as itself, for any token that does not
/// itself start with `Bearer`, is not empty and has no whitespace at either end.
pub proof fn lemma_bearer_token_read_back(t: Seq<char>)
    requires
        t.len() > 0,
        !is_unicode_ws(t[0]),
        !is_unicode_ws(t.last()),
        !(t.len() >= 6 && t.take(6) == bearer()),
    ensures
        bearer_token(bearer() + seq![' '] + t) == t,
{
    let s = bearer() + seq![' '] + t;
    let rest = seq![' '] + t;
    assert(s.take(6) =~= bearer());
    assert(s.skip(6) =~= rest);
    if rest.len() >= 6 {
        assert(rest.take(6)[0] == ' ');
        assert(rest.take(6) != bearer());
    }
    assert(strip_prefixes(rest, bearer()) == rest);
    assert(rest.drop_first() =~= t);
    assert(trim_start_ws(t) == t);
    assert(trim_end_ws(t) == t);
}

/// The forms an `Authorization` value may take carry the same token: the bare token,
/// `Bearer<token>`, and the token between whitespace, for any token that does not itself
/// start with `Bearer`, is not empty and has no whitespace at either end.
pub proof fn lemma_bearer_forms(t: Seq<char>)
    requires
        t.len() > 0,
        !is_unicode_ws(t[0]),
        !is_unicode_ws(t.last()),
        !(t.len() >= 6 && t.take(6) == bearer()),
    ensures
        bearer_token(t) == t,
        bearer_token(bearer() + t) == t,
        bearer_token(seq![' '] + t + seq!['\n']) == t,
{
    assert(strip_prefixes(t, bearer()) == t);
    assert(trim_start_ws(t) == t);
    assert(trim_end_ws(t) == t);
    let b = bearer() + t;
    assert(b.take(6) =~= bearer());
    assert(b.skip(6) =~= t);
    let w = seq![' '] + t + seq!['\n'];
    if w.len() >= 6 {
        assert(w.take(6)[0] == ' ');
        assert(w.take(6) != bearer());
    }
    assert(strip_prefixes(w, bearer()) == w);
    let u = t + seq!['\n'];
    assert(w.drop_first() =~= u);
    assert(u[0] == t[0]);
    assert(trim_start_ws(u) == u);
    assert(u.drop_last() =~= t);
}

/// Whether `cs[at..at + 6]` spells `Bearer`.
fn bearer_at(cs: &Vec<char>, at: usize) -> (r: bool)
    requires
        at + 6 <= cs.len(),
    ensures
        r == (cs@.subrange(at as int, at + 6) == bearer()),
{
    let r = cs[at] == 'B' && cs[at + 1] == 'e' && cs[at + 2] == 'a' && cs[at + 3] == 'r'
        && cs[at + 4] == 'e' && cs[at + 5] == 'r';
    proof {
        let w = cs@.subrange(at as int, at + 6);
        if r {
            assert(w =~= bearer());
        } else {
            assert(w != bearer()) by {
                if w == bearer() {
                    assert(w[0] == cs@[at as int]);
                    assert(w[1] == cs@[at + 1]);
                    assert(w[2] == cs@[at + 2]);
                    assert(w[3] == cs@[at + 3]);
                    assert(w[4] == cs@[at + 4]);
                    assert(w[5] == cs@[at + 5]);
                }
            }
        }
    }
    r
}

/// The characters `cs[lo..hi]` as a `String`.
pub fn string_of_range(cs: &Vec<char>, lo: usize, hi: usize) -> (s: String)
    requires
        lo <= hi <= cs.len(),
    ensures
        s@ == cs@.subrange(lo as int, hi as int),
{
    let mut s = String::new();
    let mut i: usize = lo;
    while i < hi
        invariant
            lo <= i <= hi <= cs.len(),
            s@ == cs@.subrange(lo as int, i as int),
        decreases hi - i,
    {
        push_char(&mut s, cs[i]);
        i = i + 1;
        assert(s@ =~= cs@.subrange(lo as int, i as int));
    }
    s
}

/// `s.trim_start_matches("Bearer").trim()`: the token of an `Authorization` value.
pub fn strip_bearer(s: &str) -> (r: String)
    ensures
        r@ == bearer_token(s@),
{
    let cs = chars_of(s);
    let n = cs.len();
    let mut lo: usize = 0;
    assert(cs@.skip(0) =~= s@);
    while lo < n && 6 <= n - lo && bearer_at(&cs, lo)
        invariant
            lo <= n == cs.len(),
            cs@ == s@,
            strip_prefixes(cs@.skip(lo as int), bearer()) == strip_prefixes(s@, bearer()),
        decreases n - lo,
    {
        let ghost rest = cs@.skip(lo as int);
        assert(rest.take(6) =~= cs@.subrange(lo as int, lo + 6));
        assert(rest.skip(6) =~= cs@.skip(lo + 6));
        lo = lo + 6;
    }
    proof {
        let rest = cs@.skip(lo as int);
        if lo < n && 6 <= n - lo {
            assert(rest.take(6) =~= cs@.subrange(lo as int, lo + 6));
        }
        assert(strip_prefixes(rest, bearer()) == rest);
    }
    let ghost stripped = cs@.skip(lo as int);
    let mut hi: usize = n;
    while lo < hi && unicode_ws(cs[lo])
        invariant
            lo <= hi == n == cs.len(),
            trim_start_ws(cs@.skip(lo as int)) == trim_start_ws(stripped),
        decreases hi - lo,
    {
        assert(cs@.skip(lo as int).drop_first() =~= cs@.skip(lo + 1));
        lo = lo + 1;
    }
    proof {
        assert(trim_start_ws(cs@.skip(lo as int)) == cs@.skip(lo as int));
        assert(cs@.skip(lo as int) =~= cs@.subrange(lo as int, hi as int));
    }
    let ghost started = cs@.subrange(lo as int, hi as int);
    while hi > lo && unicode_ws(cs[hi - 1])
        invariant
            lo <= hi <= n == cs.len(),
            trim_end_ws(cs@.subrange(lo as int, hi as int)) == trim_end_ws(started),
        decreases hi - lo,
    {
        assert(cs@.subrange(lo as int, hi as int).drop_last() =~= cs@.subrange(lo as int, hi - 1));
        hi = hi - 1;
    }
    string_of_range(&cs, lo, hi)
}


// ---------------------------------------------------------------------------
// JSON strings
// ---------------------------------------------------------------------------

/// The lower-case hexadecimal digit of `d` (`0 <= d < 16`).
pub open spec fn hex_char(d: int) -> char {
    if d < 10 {
        digit_char(d)
    } else if d == 10 { 'a' }
    else if d == 11 { 'b' }
    else if d == 12 { 'c' }
    else if d == 13 { 'd' }
    else if d == 14 { 'e' }
    else { 'f' }
}

/// How a compact JSON writer (`serde_json`) writes the character `c` inside a string:
/// quote and backslash escaped, the control characters below U+0020 as `\b`, `\f`, `\n`,
/// `\r`, `\t` or `\u00XX` (lower-case hex), every other character as itself.
pub open spec fn json_escape_char(c: char) -> Seq<char> {
    if c == '"' {
        seq!['\\', '"']
    } else if c == '\\' {
        seq!['\\', '\\']
    } else if c == '\x08' {
        seq!['\\', 'b']
    } else if c == '\x0C' {
        seq!['\\', 'f']
    } else if c == '\n' {
        seq!['\\', 'n']
    } else if c == '\r' {
        seq!['\\', 'r']
    } else if c == '\t' {
        seq!['\\', 't']
    } else if (c as int) < 0x20 {
        seq!['\\', 'u', '0', '0', hex_char((c as int) / 16), hex_char((c as int) % 16)]
    } else {
        seq![c]
    }
}

/// The escaped body of a JSON string holding `s`.
pub open spec fn json_escaped(s: Seq<char>) -> Seq<char>
    decreases s.len(),
{
    if s.len() == 0 {
        seq![]
    } else {
        json_escaped(s.drop_last()) + json_escape_char(s.last())
    }
}

/// The JSON string literal for `s`, quotes included.
pub open spec fn json_string(s: Seq<char>) -> Seq<char> {
    seq!['"'] + json_escaped(s) + seq!['"']
}

fn hex_digit_char(d: u32) -> (c: char)
    requires
        d < 16,
    ensures
        c == hex_char(d as int),
{
    if d < 10 {
        digit_to_char(d as u64)
    } else if d == 10 { 'a' }
    else if d == 11 { 'b' }
    else if d == 12 { 'c' }
    else if d == 13 { 'd' }
    else if d == 14 { 'e' }
    else { 'f' }
}

/// Appends the escaped form of `c` to `out`.
fn push_json_escaped_char(out: &mut String, c: char)
    ensures
        final(out)@ == old(out)@ + json_escape_char(c),
{
    if c == '"' {
        push_char(out, '\\');
        push_char(out, '"');
    } else if c == '\\' {
        push_char(out, '\\');
        push_char(out, '\\');
    } else if c == '\x08' {
        push_char(out, '\\');
        push_char(out, 'b');
    } else if c == '\x0C' {
        push_char(out, '\\');
        push_char(out, 'f');
    } else if c == '\n' {
        push_char(out, '\\');
        push_char(out, 'n');
    } else if c == '\r' {
        push_char(out, '\\');
        push_char(out, 'r');
    } else if c == '\t' {
        push_char(out, '\\');
        push_char(out, 't');
    } else if (c as u32) < 0x20 {
        let code = c as u32;
        push_char(out, '\\');
        push_char(out, 'u');
        push_char(out, '0');
        push_char(out, '0');
        push_char(out, hex_digit_char(code / 16));
        push_char(out, hex_digit_char(code % 16));
    } else {
        push_char(out, c);
    }
    assert(final(out)@ =~= old(out)@ + json_escape_char(c));
}

/// Appends the JSON string literal for `s` to `out`.
pub fn push_json_string(out: &mut String, s: &str)
    ensures
        final(out)@ == old(out)@ + json_string(s@),
{
    let cs = chars_of(s);
    push_char(out, '"');
    let ghost start = out@;
    let mut i: usize = 0;
    while i < cs.len()
        invariant
            i <= cs.len(),
            cs@ == s@,
            out@ == start + json_escaped(cs@.take(i as int)),
        decreases cs.len() - i,
    {
        assert(cs@.take(i + 1).drop_last() =~= cs@.take(i as int));
        push_json_escaped_char(out, cs[i]);
        i = i + 1;
        assert(out@ =~= start + json_escaped(cs@.take(i as int)));
    }
    assert(cs@.take(cs.len() as int) =~= cs@);
    push_char(out, '"');
    assert(final(out)@ =~= old(out)@ + json_string(s@));
}

} // verus!
