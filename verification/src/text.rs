//! Character-level text handling shared by search, filtering and sorting.
//!
//! Search text is normalized by collapsing every run of whitespace to a single
//! space (dropping leading and trailing whitespace) and then lowercasing the
//! result.  Terms are the whitespace separated words of a normalized query, and
//! a haystack matches a query when it contains every term as a substring.
use vstd::prelude::*;

verus! {

/// Whether a character has the Unicode `White_Space` property, which is what
/// `char::is_whitespace` answers: U+0009 to U+000D, U+0020, U+0085, U+00A0, U+1680,
/// U+2000 to U+200A, U+2028, U+2029, U+202F, U+205F and U+3000.
pub open spec fn spec_char_is_whitespace(c: char) -> bool {
    ||| '\u{9}' <= c <= '\u{d}'
    ||| c == ' '
    ||| c == '\u{85}'
    ||| c == '\u{a0}'
    ||| c == '\u{1680}'
    ||| '\u{2000}' <= c <= '\u{200a}'
    ||| c == '\u{2028}'
    ||| c == '\u{2029}'
    ||| c == '\u{202f}'
    ||| c == '\u{205f}'
    ||| c == '\u{3000}'
}

/// What `str::to_lowercase` returns for a string, given by its characters.
pub uninterp spec fn spec_lowercase(s: Seq<char>) -> Seq<char>;

/// Whether a character is Unicode whitespace, as `spec_char_is_whitespace` lists.
pub(crate) fn char_is_whitespace(c: char) -> (r: bool)
    ensures
        r == spec_char_is_whitespace(c),
{
    ('\u{9}' <= c && c <= '\u{d}') || c == ' ' || c == '\u{85}' || c == '\u{a0}' || c == '\u{1680}'
        || ('\u{2000}' <= c && c <= '\u{200a}') || c == '\u{2028}' || c == '\u{2029}' || c == '\u{202f}'
        || c == '\u{205f}' || c == '\u{3000}'
}

/// Trusted: `str::to_lowercase`; its result is named `spec_lowercase` of the input.
#[verifier::external_body]
pub(crate) fn lowercase(s: &str) -> (r: String)
    ensures
        r@ == spec_lowercase(s@),
{
    s.to_lowercase()
}

/// Trusted: `String::push`, which appends one character.
#[verifier::external_body]
pub(crate) fn push_char(s: &mut String, c: char)
    ensures
        final(s)@ == old(s)@.push(c),
{
    s.push(c)
}

/// Trusted: `String::push_str`, which appends a string slice.
#[verifier::external_body]
pub(crate) fn push_text(s: &mut String, t: &str)
    ensures
        final(s)@ == old(s)@ + t@,
{
    s.push_str(t)
}

/// Trusted: `String::pop`, which removes and returns the last character.
#[verifier::external_body]
pub(crate) fn pop_char(s: &mut String) -> (r: Option<char>)
    ensures
        old(s)@.len() == 0 ==> r is None && final(s)@ == old(s)@,
        old(s)@.len() > 0 ==> r == Some(old(s)@.last()) && final(s)@ == old(s)@.drop_last(),
{
    s.pop()
}

/// Trusted: `String::clear`, which empties the string.
#[verifier::external_body]
pub(crate) fn clear_text(s: &mut String)
    ensures
        final(s)@ == Seq::<char>::empty(),
{
    s.clear()
}

/// The characters of a string, in order.
pub fn chars_of(s: &str) -> (v: Vec<char>)
    ensures
        v@ == s@,
{
    let n = s.unicode_len();
    let mut v: Vec<char> = Vec::new();
    let mut i: usize = 0;
    while i < n
        invariant
            n == s@.len(),
            i <= n,
            v@ == s@.subrange(0, i as int),
        decreases n - i,
    {
        let c = s.get_char(i);
        v.push(c);
        assert(v@ =~= s@.subrange(0, i + 1));
        i = i + 1;
    }
    assert(v@ =~= s@);
    v
}

/// A string holding exactly the given characters.
pub fn string_from_chars(v: &Vec<char>) -> (s: String)
    ensures
        s@ == v@,
{
    let mut s = String::new();
    let mut i: usize = 0;
    while i < v.len()
        invariant
            i <= v.len(),
            s@ == v@.subrange(0, i as int),
        decreases v.len() - i,
    {
        push_char(&mut s, v[i]);
        assert(s@ =~= v@.subrange(0, i + 1));
        i = i + 1;
    }
    assert(s@ =~= v@);
    s
}

/// One step of whitespace collapsing: the output so far, whether a separating space is
/// owed before the next word, and the next input character.
pub open spec fn collapse_step(out: Seq<char>, pending: bool, c: char) -> (Seq<char>, bool) {
    if spec_char_is_whitespace(c) {
        (out, out.len() > 0)
    } else if pending {
        (out.push(' ').push(c), false)
    } else {
        (out.push(c), false)
    }
}

/// Whitespace collapsing applied to the first `n` characters of `s`.
pub open spec fn collapse_prefix(s: Seq<char>, n: nat) -> (Seq<char>, bool)
    decreases n,
{
    if n == 0 || n > s.len() {
        (Seq::empty(), false)
    } else {
        let prev = collapse_prefix(s, (n - 1) as nat);
        collapse_step(prev.0, prev.1, s[n - 1])
    }
}

/// The words of `s` joined by single spaces: leading, trailing and repeated whitespace is gone.
pub open spec fn collapse_whitespace(s: Seq<char>) -> Seq<char> {
    collapse_prefix(s, s.len()).0
}

/// The normalized form used for every local search and filter comparison.
pub open spec fn spec_normalize(s: Seq<char>) -> Seq<char> {
    spec_lowercase(collapse_whitespace(s))
}

/// Collapses whitespace runs in `v` as `collapse_whitespace` describes.
pub fn collapse_whitespace_chars(v: &Vec<char>) -> (r: Vec<char>)
    ensures
        r@ == collapse_whitespace(v@),
{
    let mut out: Vec<char> = Vec::new();
    let mut pending = false;
    let mut i: usize = 0;
    while i < v.len()
        invariant
            i <= v.len(),
            (out@, pending) == collapse_prefix(v@, i as nat),
        decreases v.len() - i,
    {
        let c = v[i];
        if char_is_whitespace(c) {
            pending = out.len() > 0;
        } else {
            if pending {
                out.push(' ');
            }
            out.push(c);
            pending = false;
        }
        i = i + 1;
    }
    out
}

/// Lowercases the whitespace-collapsed form of `value`.
pub fn normalize_search_text(value: &str) -> (r: String)
    ensures
        r@ == spec_normalize(value@),
{
    let chars = chars_of(value);
    let collapsed = collapse_whitespace_chars(&chars);
    let collapsed_text = string_from_chars(&collapsed);
    lowercase(collapsed_text.as_str())
}

/// One step of word splitting: completed words, the word being read, and the next character.
pub open spec fn split_step(words: Seq<Seq<char>>, current: Seq<char>, c: char) -> (
    Seq<Seq<char>>,
    Seq<char>,
) {
    if spec_char_is_whitespace(c) {
        if current.len() > 0 {
            (words.push(current), Seq::empty())
        } else {
            (words, current)
        }
    } else {
        (words, current.push(c))
    }
}

/// Word splitting applied to the first `n` characters of `s`.
pub open spec fn split_prefix(s: Seq<char>, n: nat) -> (Seq<Seq<char>>, Seq<char>)
    decreases n,
{
    if n == 0 || n > s.len() {
        (Seq::empty(), Seq::empty())
    } else {
        let prev = split_prefix(s, (n - 1) as nat);
        split_step(prev.0, prev.1, s[n - 1])
    }
}

/// The maximal runs of non-whitespace characters of `s`, in order.
pub open spec fn spec_words(s: Seq<char>) -> Seq<Seq<char>> {
    let r = split_prefix(s, s.len());
    if r.1.len() > 0 {
        r.0.push(r.1)
    } else {
        r.0
    }
}

/// The whitespace separated words of `s`.
pub fn split_words(s: &Vec<char>) -> (r: Vec<Vec<char>>)
    ensures
        r@.len() == spec_words(s@).len(),
        forall|k: int| 0 <= k < r@.len() ==> #[trigger] r@[k]@ == spec_words(s@)[k],
{
    let mut words: Vec<Vec<char>> = Vec::new();
    let mut current: Vec<char> = Vec::new();
    let ghost mut gwords: Seq<Seq<char>> = Seq::empty();
    let mut i: usize = 0;
    while i < s.len()
        invariant
            i <= s.len(),
            (gwords, current@) == split_prefix(s@, i as nat),
            words@.len() == gwords.len(),
            forall|k: int| 0 <= k < words@.len() ==> #[trigger] words@[k]@ == gwords[k],
        decreases s.len() - i,
    {
        let c = s[i];
        if char_is_whitespace(c) {
            if current.len() > 0 {
                proof {
                    gwords = gwords.push(current@);
                }
                words.push(current);
                current = Vec::new();
            }
        } else {
            current.push(c);
        }
        i = i + 1;
    }
    if current.len() > 0 {
        proof {
            gwords = gwords.push(current@);
        }
        words.push(current);
    }
    words
}

/// `needle` occurs in `hay` starting at position `i`.
pub open spec fn occurs_at(hay: Seq<char>, needle: Seq<char>, i: int) -> bool {
    0 <= i && i + needle.len() <= hay.len() && hay.subrange(i, i + needle.len()) == needle
}

/// `needle` is a substring of `hay` (the empty string is a substring of everything).
pub open spec fn seq_contains(hay: Seq<char>, needle: Seq<char>) -> bool {
    exists|i: int| occurs_at(hay, needle, i)
}

/// Whether `needle` occurs in `hay` at position `i`, compared character by character.
pub fn matches_at(hay: &Vec<char>, needle: &Vec<char>, i: usize) -> (r: bool)
    requires
        i + needle@.len() <= hay@.len(),
    ensures
        r == occurs_at(hay@, needle@, i as int),
{
    let mut j: usize = 0;
    while j < needle.len()
        invariant
            i + needle@.len() <= hay@.len(),
            j <= needle@.len(),
            forall|k: int| 0 <= k < j ==> hay@[i + k] == needle@[k],
        decreases needle.len() - j,
    {
        assert(i + j < hay.len());
        if hay[i + j] != needle[j] {
            assert(hay@.subrange(i as int, i + needle@.len())[j as int] != needle@[j as int]);
            return false;
        }
        j = j + 1;
    }
    assert(hay@.subrange(i as int, i + needle@.len()) =~= needle@);
    true
}

/// `s` with every occurrence of `pat` replaced by `with`, scanning from the left and
/// resuming after each replaced occurrence.
pub open spec fn spec_replace(s: Seq<char>, pat: Seq<char>, with: Seq<char>) -> Seq<char>
    decreases s.len(),
{
    if pat.len() == 0 || s.len() < pat.len() {
        s
    } else if s.take(pat.len() as int) == pat {
        with + spec_replace(s.skip(pat.len() as int), pat, with)
    } else {
        seq![s[0]] + spec_replace(s.drop_first(), pat, with)
    }
}

/// Replaces every occurrence of a nonempty `pat` in `s` by `with`, as `spec_replace` says.
pub fn replace_text(s: &str, pat: &str, with: &str) -> (r: String)
    requires
        pat@.len() > 0,
    ensures
        r@ == spec_replace(s@, pat@, with@),
{
    let sc = chars_of(s);
    let pc = chars_of(pat);
    let mut out = String::new();
    let mut i: usize = 0;
    assert(sc@.skip(0) =~= sc@);
    while i < sc.len()
        invariant
            sc@ == s@,
            pc@ == pat@,
            pc@.len() > 0,
            i <= sc@.len(),
            out@ + spec_replace(sc@.skip(i as int), pc@, with@) == spec_replace(sc@, pc@, with@),
        decreases sc.len() - i,
    {
        let ghost rest = sc@.skip(i as int);
        let ghost before = out@;
        if pc.len() <= sc.len() - i && matches_at(&sc, &pc, i) {
            assert(rest.take(pc@.len() as int) =~= sc@.subrange(i as int, i + pc@.len()));
            assert(rest.skip(pc@.len() as int) =~= sc@.skip(i + pc@.len()));
            push_text(&mut out, with);
            assert(out@ + spec_replace(sc@.skip(i + pc@.len()), pc@, with@) =~= before + spec_replace(rest, pc@, with@));
            i = i + pc.len();
        } else {
            proof {
                if pc@.len() <= rest.len() {
                    assert(rest.take(pc@.len() as int) =~= sc@.subrange(i as int, i + pc@.len()));
                }
            }
            assert(rest.drop_first() =~= sc@.skip(i + 1));
            assert(rest =~= seq![rest[0]] + rest.drop_first());
            push_char(&mut out, sc[i]);
            assert(out@ + spec_replace(sc@.skip(i + 1), pc@, with@) =~= before + spec_replace(rest, pc@, with@));
            i = i + 1;
        }
    }
    assert(sc@.skip(i as int) =~= Seq::<char>::empty());
    assert(out@ + Seq::<char>::empty() =~= out@);
    out
}

/// Substring search.
pub fn contains_chars(hay: &Vec<char>, needle: &Vec<char>) -> (r: bool)
    ensures
        r == seq_contains(hay@, needle@),
{
    if needle.len() > hay.len() {
        return false;
    }
    let last = hay.len() - needle.len();
    let mut i: usize = 0;
    while i < last
        invariant
            last == hay@.len() - needle@.len(),
            needle@.len() <= hay@.len(),
            i <= last,
            forall|k: int| 0 <= k < i ==> !occurs_at(hay@, needle@, k),
        decreases last - i,
    {
        if matches_at(hay, needle, i) {
            return true;
        }
        i = i + 1;
    }
    let found = matches_at(hay, needle, last);
    assert(!found ==> forall|k: int| !occurs_at(hay@, needle@, k)) by {
        if !found {
            assert forall|k: int| !occurs_at(hay@, needle@, k) by {
                if k > last {
                    assert(k + needle@.len() > hay@.len());
                }
            }
        }
    }
    found
}

/// Every term occurs in the haystack.
pub open spec fn contains_all(hay: Seq<char>, terms: Seq<Seq<char>>) -> bool {
    forall|k: int| 0 <= k < terms.len() ==> #[trigger] seq_contains(hay, terms[k])
}

/// Whether every term occurs in `hay`.
pub fn contains_all_terms(hay: &Vec<char>, terms: &Vec<Vec<char>>) -> (r: bool)
    ensures
        r == contains_all(hay@, terms@.map_values(|t: Vec<char>| t@)),
{
    let ghost ts = terms@.map_values(|t: Vec<char>| t@);
    let mut k: usize = 0;
    while k < terms.len()
        invariant
            k <= terms@.len(),
            ts == terms@.map_values(|t: Vec<char>| t@),
            forall|j: int| 0 <= j < k ==> #[trigger] seq_contains(hay@, ts[j]),
        decreases terms.len() - k,
    {
        if !contains_chars(hay, &terms[k]) {
            assert(!seq_contains(hay@, ts[k as int]));
            return false;
        }
        k = k + 1;
    }
    true
}

/// `prefix` is a prefix of `s`.
pub open spec fn has_prefix(s: Seq<char>, prefix: Seq<char>) -> bool {
    prefix.len() <= s.len() && s.subrange(0, prefix.len() as int) == prefix
}

/// Whether `s` starts with `prefix`.
pub fn starts_with_text(s: &str, prefix: &str) -> (r: bool)
    ensures
        r == has_prefix(s@, prefix@),
{
    let sc = chars_of(s);
    let pc = chars_of(prefix);
    if pc.len() > sc.len() {
        return false;
    }
    matches_at(&sc, &pc, 0)
}

/// Lexicographic comparison by code point: -1, 0 or 1.
pub open spec fn lex_order(a: Seq<char>, b: Seq<char>) -> int
    decreases a.len(),
{
    if a.len() == 0 {
        if b.len() == 0 {
            0
        } else {
            -1
        }
    } else if b.len() == 0 {
        1
    } else if a[0] < b[0] {
        -1
    } else if a[0] > b[0] {
        1
    } else {
        lex_order(a.drop_first(), b.drop_first())
    }
}

/// Comparing in the other order flips the sign.
pub proof fn lemma_lex_order_flip(a: Seq<char>, b: Seq<char>)
    ensures
        lex_order(a, b) == -lex_order(b, a),
    decreases a.len(),
{
    if a.len() > 0 && b.len() > 0 && a[0] == b[0] {
        lemma_lex_order_flip(a.drop_first(), b.drop_first());
    }
}

/// Equal comparison means equal sequences.
pub proof fn lemma_lex_order_zero(a: Seq<char>, b: Seq<char>)
    ensures
        lex_order(a, b) == 0 <==> a == b,
    decreases a.len(),
{
    if a.len() > 0 && b.len() > 0 {
        if a[0] == b[0] {
            lemma_lex_order_zero(a.drop_first(), b.drop_first());
            assert(a[0] == b[0]);
            if a.drop_first() == b.drop_first() {
                assert(a =~= seq![a[0]] + a.drop_first());
                assert(b =~= seq![b[0]] + b.drop_first());
            }
            if a == b {
                assert(a.drop_first() =~= b.drop_first());
            }
        } else {
            if a == b {
                assert(a[0] == b[0]);
            }
        }
    } else if a.len() == 0 && b.len() == 0 {
        assert(a =~= b);
    }
}

/// The result of `lex_order` is -1, 0 or 1.
pub proof fn lemma_lex_order_range(a: Seq<char>, b: Seq<char>)
    ensures
        -1 <= lex_order(a, b) <= 1,
    decreases a.len(),
{
    if a.len() > 0 && b.len() > 0 && a[0] == b[0] {
        lemma_lex_order_range(a.drop_first(), b.drop_first());
    }
}

/// Lexicographic order is transitive.
pub proof fn lemma_lex_order_trans(a: Seq<char>, b: Seq<char>, c: Seq<char>)
    requires
        lex_order(a, b) < 0,
        lex_order(b, c) < 0,
    ensures
        lex_order(a, c) < 0,
    decreases a.len(),
{
    if a.len() > 0 && b.len() > 0 && c.len() > 0 && a[0] == b[0] && b[0] == c[0] {
        lemma_lex_order_trans(a.drop_first(), b.drop_first(), c.drop_first());
    }
}

/// The facts about lexicographic order that sorting by it needs, for three sequences.
pub proof fn lemma_lex_order_facts(a: Seq<char>, b: Seq<char>, c: Seq<char>)
    ensures
        -1 <= lex_order(a, b) <= 1,
        lex_order(a, b) == -lex_order(b, a),
        lex_order(a, b) == 0 <==> a == b,
        lex_order(a, b) < 0 && lex_order(b, c) < 0 ==> lex_order(a, c) < 0,
{
    lemma_lex_order_range(a, b);
    lemma_lex_order_flip(a, b);
    lemma_lex_order_zero(a, b);
    if lex_order(a, b) < 0 && lex_order(b, c) < 0 {
        lemma_lex_order_trans(a, b, c);
    }
}

/// Lexicographic comparison of two character sequences by code point.
pub fn compare_chars(a: &Vec<char>, b: &Vec<char>) -> (r: i8)
    ensures
        r as int == lex_order(a@, b@),
{
    let mut i: usize = 0;
    assert(a@.subrange(0, a@.len() as int) =~= a@);
    assert(b@.subrange(0, b@.len() as int) =~= b@);
    while i < a.len() && i < b.len()
        invariant
            i <= a@.len(),
            i <= b@.len(),
            lex_order(a@, b@) == lex_order(a@.subrange(i as int, a@.len() as int), b@.subrange(i as int, b@.len() as int)),
        decreases a.len() - i,
    {
        let x = a[i];
        let y = b[i];
        let ghost sa = a@.subrange(i as int, a@.len() as int);
        let ghost sb = b@.subrange(i as int, b@.len() as int);
        assert(sa[0] == a@[i as int]);
        assert(sb[0] == b@[i as int]);
        if x < y {
            return -1;
        }
        if x > y {
            return 1;
        }
        assert(sa.drop_first() =~= a@.subrange(i + 1, a@.len() as int));
        assert(sb.drop_first() =~= b@.subrange(i + 1, b@.len() as int));
        i = i + 1;
    }
    let ghost sa = a@.subrange(i as int, a@.len() as int);
    let ghost sb = b@.subrange(i as int, b@.len() as int);
    if i < a.len() {
        assert(sa.len() > 0 && sb.len() == 0);
        1
    } else if i < b.len() {
        assert(sa.len() == 0 && sb.len() > 0);
        -1
    } else {
        assert(sa.len() == 0 && sb.len() == 0);
        0
    }
}

/// Lexicographic comparison of two strings by code point.
pub fn compare_text(a: &str, b: &str) -> (r: i8)
    ensures
        r as int == lex_order(a@, b@),
{
    let ac = chars_of(a);
    let bc = chars_of(b);
    compare_chars(&ac, &bc)
}

/// Whether two strings hold the same characters.
pub fn same_text(a: &str, b: &str) -> (r: bool)
    ensures
        r == (a@ == b@),
{
    proof {
        lemma_lex_order_zero(a@, b@);
    }
    compare_text(a, b) == 0
}

/// The character of a decimal digit.
pub open spec fn digit_char(d: int) -> char {
    if d == 0 {
        '0'
    } else if d == 1 {
        '1'
    } else if d == 2 {
        '2'
    } else if d == 3 {
        '3'
    } else if d == 4 {
        '4'
    } else if d == 5 {
        '5'
    } else if d == 6 {
        '6'
    } else if d == 7 {
        '7'
    } else if d == 8 {
        '8'
    } else {
        '9'
    }
}

/// The decimal digits of a number, most significant first, without leading zeros.
pub open spec fn spec_decimal(n: nat) -> Seq<char>
    decreases n,
{
    if n < 10 {
        seq![digit_char(n as int)]
    } else {
        spec_decimal(n / 10).push(digit_char((n % 10) as int))
    }
}

fn push_digit(s: &mut String, d: u64)
    requires
        d < 10,
    ensures
        final(s)@ == old(s)@.push(digit_char(d as int)),
{
    let c = if d == 0 {
        '0'
    } else if d == 1 {
        '1'
    } else if d == 2 {
        '2'
    } else if d == 3 {
        '3'
    } else if d == 4 {
        '4'
    } else if d == 5 {
        '5'
    } else if d == 6 {
        '6'
    } else if d == 7 {
        '7'
    } else if d == 8 {
        '8'
    } else {
        '9'
    };
    push_char(s, c);
}

/// Appends the decimal digits of `n`.
pub fn push_decimal(s: &mut String, n: u64)
    ensures
        final(s)@ == old(s)@ + spec_decimal(n as nat),
    decreases n,
{
    if n < 10 {
        push_digit(s, n);
        assert(final(s)@ =~= old(s)@ + spec_decimal(n as nat));
    } else {
        push_decimal(s, n / 10);
        push_digit(s, n % 10);
        assert(final(s)@ =~= old(s)@ + spec_decimal(n as nat));
    }
}

/// Appends the decimal digits of a wide number.
pub fn push_decimal_wide(s: &mut String, n: u128)
    ensures
        final(s)@ == old(s)@ + spec_decimal(n as nat),
    decreases n,
{
    if n < 10 {
        push_digit(s, n as u64);
        assert(final(s)@ =~= old(s)@ + spec_decimal(n as nat));
    } else {
        push_decimal_wide(s, n / 10);
        push_digit(s, (n % 10) as u64);
        assert(final(s)@ =~= old(s)@ + spec_decimal(n as nat));
    }
}

/// The decimal text of a signed number: a minus sign before the digits of its magnitude
/// when it is negative.
pub open spec fn signed_decimal(n: int) -> Seq<char> {
    if n < 0 {
        seq!['-'] + spec_decimal((-n) as nat)
    } else {
        spec_decimal(n as nat)
    }
}

/// Appends the decimal text of a signed number.
pub fn push_signed_decimal(s: &mut String, n: i64)
    ensures
        final(s)@ == old(s)@ + signed_decimal(n as int),
{
    if n < 0 {
        push_char(s, '-');
        let magnitude: u64 = if n == i64::MIN {
            9_223_372_036_854_775_808u64
        } else {
            (-n) as u64
        };
        push_decimal(s, magnitude);
        assert(final(s)@ =~= old(s)@ + signed_decimal(n as int));
    } else {
        push_decimal(s, n as u64);
    }
}

/// The concatenation of `parts`.
pub open spec fn concat_all(parts: Seq<Seq<char>>) -> Seq<char>
    decreases parts.len(),
{
    if parts.len() == 0 {
        Seq::empty()
    } else {
        concat_all(parts.drop_last()) + parts.last()
    }
}

pub proof fn lemma_concat_three(a: Seq<char>, b: Seq<char>, c: Seq<char>)
    ensures
        concat_all(seq![a, b, c]) == a + b + c,
{
    assert(seq![a, b, c].drop_last() =~= seq![a, b]);
    assert(seq![a, b].drop_last() =~= seq![a]);
    assert(seq![a].drop_last() =~= Seq::<Seq<char>>::empty());
    assert(concat_all(Seq::<Seq<char>>::empty()) =~= Seq::<char>::empty());
    assert(concat_all(seq![a]) == concat_all(Seq::<Seq<char>>::empty()) + a);
    assert(concat_all(seq![a]) =~= a);
    assert(concat_all(seq![a, b]) =~= a + b);
}

/// The concatenation of `parts` with a single space between consecutive parts.
pub open spec fn join_space(parts: Seq<Seq<char>>) -> Seq<char>
    decreases parts.len(),
{
    if parts.len() == 0 {
        Seq::empty()
    } else if parts.len() == 1 {
        parts[0]
    } else {
        join_space(parts.drop_last()) + seq![' '] + parts.last()
    }
}

/// `a` and `b` joined with one space.
pub fn join_two(a: &str, b: &str) -> (r: String)
    ensures
        r@ == join_space(seq![a@, b@]),
{
    let mut s = a.to_owned();
    push_char(&mut s, ' ');
    push_text(&mut s, b);
    assert(seq![a@, b@].drop_last() =~= seq![a@]);
    assert(join_space(seq![a@]) == a@);
    assert(s@ =~= join_space(seq![a@]) + seq![' '] + b@);
    s
}

/// The text of an optional string, empty when absent.
pub open spec fn opt_text(o: Option<String>) -> Seq<char> {
    match o {
        Some(s) => s@,
        None => Seq::empty(),
    }
}

/// The contents of an optional string as a slice, empty when absent.
pub fn opt_str(o: &Option<String>) -> (r: &str)
    ensures
        r@ == opt_text(*o),
{
    match o {
        Some(s) => s.as_str(),
        None => {
            proof {
                reveal_strlit("");
            }
            ""
        },
    }
}

} // verus!
