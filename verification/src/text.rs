//! Verified text utilities: decimal parsing and formatting, ASCII case
//! folding, substring search, whitespace trimming and string equality.
//!
//! Everything here works on `Seq<char>` views, so the rest of the crate can
//! state its contracts directly over the characters of its inputs.
use vstd::prelude::*;

verus! {

// ---------------------------------------------------------------------------
// Character classes
// ---------------------------------------------------------------------------

pub open spec fn is_digit_char(c: char) -> bool {
    '0' <= c && c <= '9'
}

pub open spec fn digit_val(c: char) -> nat
    recommends
        is_digit_char(c),
{
    (c as u32 - 48) as nat
}

/// Whether `c` has the Unicode `White_Space` property, as `char::is_whitespace`
/// decides it.
pub uninterp spec fn char_white(c: char) -> bool;

/// Whether `c` has the Unicode `Alphabetic` property, as `char::is_alphabetic`
/// decides it.
pub uninterp spec fn char_alphabetic(c: char) -> bool;

/// Whether `c` is Unicode alphanumeric, as `char::is_alphanumeric` decides it.
pub uninterp spec fn char_alphanumeric(c: char) -> bool;

/// Relies on `char::is_whitespace`: true exactly for characters with the
/// Unicode `White_Space` property; on ASCII these are space and the five
/// control characters from tab through carriage return.
#[verifier::external_body]
pub(crate) fn is_whitespace_char(c: char) -> (r: bool)
    ensures
        r == char_white(c),
        (c as u32) < 128 ==> (r <==> (c == ' ' || ('\u{9}' <= c && c <= '\u{D}'))),
{
    c.is_whitespace()
}

/// Relies on `char::is_alphabetic`: true exactly for characters with the
/// Unicode `Alphabetic` property; on ASCII these are the letters a-z and A-Z.
#[verifier::external_body]
pub(crate) fn is_alphabetic_char(c: char) -> (r: bool)
    ensures
        r == char_alphabetic(c),
        (c as u32) < 128 ==> (r <==> (('a' <= c && c <= 'z') || ('A' <= c && c <= 'Z'))),
{
    c.is_alphabetic()
}

/// Relies on `char::is_alphanumeric`: true exactly for Unicode alphabetic or
/// numeric characters; on ASCII these are the letters and the digits.
#[verifier::external_body]
pub(crate) fn is_alphanumeric_char(c: char) -> (r: bool)
    ensures
        r == char_alphanumeric(c),
        (c as u32) < 128 ==> (r <==> (('a' <= c && c <= 'z') || ('A' <= c && c <= 'Z')
            || ('0' <= c && c <= '9'))),
{
    c.is_alphanumeric()
}

// ---------------------------------------------------------------------------
// ASCII case folding
// ---------------------------------------------------------------------------

pub open spec fn spec_lower_char(c: char) -> char {
    if 'A' <= c && c <= 'Z' {
        ((c as u8 + 32) as u8) as char
    } else {
        c
    }
}

/// ASCII-lowercased view of a character sequence.
pub open spec fn spec_lower(s: Seq<char>) -> Seq<char> {
    s.map_values(|c: char| spec_lower_char(c))
}

/// Lower-cases an ASCII capital letter; every other character is unchanged.
pub fn lower_char(c: char) -> (r: char)
    ensures
        r == spec_lower_char(c),
{
    if c >= 'A' && c <= 'Z' {
        let b: u8 = c as u8 + 32;
        b as char
    } else {
        c
    }
}

// ---------------------------------------------------------------------------
// Decimal parsing (the semantics of `str::parse` for unsigned integers)
// ---------------------------------------------------------------------------

/// Value of a sequence of decimal digits, most significant first.
pub open spec fn dec_val(s: Seq<char>) -> nat
    decreases s.len(),
{
    if s.len() == 0 {
        0
    } else {
        dec_val(s.drop_last()) * 10 + digit_val(s.last())
    }
}

pub open spec fn all_digits(s: Seq<char>) -> bool {
    forall|i: int| 0 <= i < s.len() ==> is_digit_char(s[i])
}

/// The digits of a decimal literal: everything after an optional leading `+`.
pub open spec fn numeric_body(s: Seq<char>) -> Seq<char> {
    if s.len() > 0 && s[0] == '+' {
        s.skip(1)
    } else {
        s
    }
}

/// Whether `str::parse::<u64>` accepts `s`: an optional `+`, then at least
/// one digit, nothing else, and a value within range.
pub open spec fn parses_as_u64(s: Seq<char>) -> bool {
    let b = numeric_body(s);
    b.len() > 0 && all_digits(b) && dec_val(b) <= u64::MAX
}

proof fn lemma_dec_val_take_step(s: Seq<char>, k: int)
    requires
        0 <= k < s.len(),
    ensures
        dec_val(s.take(k)) <= dec_val(s.take(k + 1)),
{
    assert(s.take(k + 1).drop_last() =~= s.take(k));
    assert(dec_val(s.take(k + 1)) == dec_val(s.take(k)) * 10 + digit_val(s.take(k + 1).last()));
}

proof fn lemma_dec_val_take_le(s: Seq<char>, k: int)
    requires
        0 <= k <= s.len(),
    ensures
        dec_val(s.take(k)) <= dec_val(s),
    decreases s.len() - k,
{
    if k == s.len() {
        assert(s.take(k) =~= s);
    } else {
        lemma_dec_val_take_step(s, k);
        lemma_dec_val_take_le(s, k + 1);
    }
}

/// Parses a decimal `u64` with the same acceptance rule as `str::parse`:
/// an optional leading `+`, then one or more digits, and no overflow.
pub fn parse_u64(s: &str) -> (r: Option<u64>)
    ensures
        parses_as_u64(s@) ==> r == Some((dec_val(numeric_body(s@)) as u64)),
        !parses_as_u64(s@) ==> r is None,
{
    let n = s.unicode_len();
    let start: usize = if n > 0 && s.get_char(0) == '+' {
        1
    } else {
        0
    };
    let ghost body = numeric_body(s@);
    proof {
        assert(body =~= s@.skip(start as int));
    }
    if start >= n {
        return None;
    }
    let mut acc: u64 = 0;
    let mut i: usize = start;
    while i < n
        invariant
            start <= i <= n,
            n == s@.len(),
            start < n,
            body == s@.skip(start as int),
            body == numeric_body(s@),
            body.len() == n - start,
            forall|j: int| 0 <= j < i - start ==> is_digit_char(body[j]),
            acc == dec_val(body.take(i - start)),
        decreases n - i,
    {
        let c = s.get_char(i);
        proof {
            assert(body[i - start] == s@[i as int]);
        }
        if !(c >= '0' && c <= '9') {
            proof {
                assert(!is_digit_char(body[i - start]));
                assert(!all_digits(body)) by {
                    assert(0 <= i - start < body.len() && !is_digit_char(body[i - start]));
                }
            }
            return None;
        }
        let d: u64 = (c as u32 - 48) as u64;
        let ghost k = i - start;
        proof {
            assert(body.take(k + 1).drop_last() =~= body.take(k));
            assert(body.take(k + 1).last() == body[k]);
        }
        let step = match acc.checked_mul(10) {
            Some(v) => v.checked_add(d),
            None => None,
        };
        match step {
            Some(v) => {
                acc = v;
            },
            None => {
                proof {
                    assert(dec_val(body.take(k + 1)) == dec_val(body.take(k)) * 10 + digit_val(
                        body[k],
                    ));
                    assert(digit_val(body[k]) == d);
                    assert(dec_val(body.take(k + 1)) > u64::MAX);
                    lemma_dec_val_take_le(body, k + 1);
                    assert(dec_val(body) > u64::MAX);
                    assert(!parses_as_u64(s@));
                }
                return None;
            },
        }
        i += 1;
    }
    proof {
        assert(body.take(n - start) =~= body);
    }
    Some(acc)
}

// ---------------------------------------------------------------------------
// String equality and substring search
// ---------------------------------------------------------------------------

/// Character-wise string equality: true exactly when the two views agree.
pub fn str_eq(a: &str, b: &str) -> (r: bool)
    ensures
        r == (a@ == b@),
{
    let alen = a.unicode_len();
    let blen = b.unicode_len();
    if alen != blen {
        return false;
    }
    let mut i: usize = 0;
    while i < alen
        invariant
            i <= alen,
            alen == a@.len(),
            alen == b@.len(),
            forall|j: int| 0 <= j < i ==> a@[j] == b@[j],
        decreases alen - i,
    {
        if a.get_char(i) != b.get_char(i) {
            return false;
        }
        i += 1;
    }
    proof {
        assert(a@ =~= b@);
    }
    true
}

/// Whether `n` occurs as a contiguous subsequence of `h`.
pub open spec fn spec_contains(h: Seq<char>, n: Seq<char>) -> bool {
    exists|i: int| 0 <= i && i + n.len() <= h.len() && #[trigger] h.subrange(i, i + n.len()) == n
}

fn lowered_match_at(h: &str, i: usize, n: &str) -> (r: bool)
    requires
        i + n@.len() <= h@.len(),
    ensures
        r == (spec_lower(h@).subrange(i as int, i + n@.len()) == n@),
{
    let nlen = n.unicode_len();
    let hlen = h.unicode_len();
    let ghost sub = spec_lower(h@).subrange(i as int, i + n@.len());
    let mut k: usize = 0;
    while k < nlen
        invariant
            k <= nlen,
            nlen == n@.len(),
            hlen == h@.len(),
            i + nlen <= hlen,
            sub == spec_lower(h@).subrange(i as int, i + nlen),
            sub.len() == nlen,
            forall|j: int| 0 <= j < k ==> sub[j] == n@[j],
        decreases nlen - k,
    {
        let hc = lower_char(h.get_char(i + k));
        let nc = n.get_char(k);
        proof {
            assert(sub[k as int] == spec_lower(h@)[i + k]);
            assert(spec_lower(h@)[i + k] == spec_lower_char(h@[i + k]));
        }
        if hc != nc {
            proof {
                assert(sub[k as int] != n@[k as int]);
            }
            return false;
        }
        k += 1;
    }
    proof {
        assert(sub =~= n@);
    }
    true
}

/// Whether the ASCII-lowercased form of `h` contains `n` as a substring.
pub fn lowered_contains(h: &str, n: &str) -> (r: bool)
    ensures
        r == spec_contains(spec_lower(h@), n@),
{
    let hlen = h.unicode_len();
    let nlen = n.unicode_len();
    proof {
        assert(spec_lower(h@).len() == h@.len());
    }
    if nlen > hlen {
        return false;
    }
    let last = hlen - nlen;
    let mut i: usize = 0;
    while i < last
        invariant
            nlen <= hlen,
            hlen == h@.len(),
            nlen == n@.len(),
            last == hlen - nlen,
            i <= last,
            spec_lower(h@).len() == hlen,
            forall|j: int|
                0 <= j < i ==> #[trigger] spec_lower(h@).subrange(j, j + nlen) != n@,
        decreases last - i,
    {
        if lowered_match_at(h, i, n) {
            return true;
        }
        i += 1;
    }
    if lowered_match_at(h, last, n) {
        return true;
    }
    proof {
        assert(!spec_contains(spec_lower(h@), n@)) by {
            if spec_contains(spec_lower(h@), n@) {
                let w = choose|w: int|
                    0 <= w && w + n@.len() <= spec_lower(h@).len() && #[trigger] spec_lower(
                        h@,
                    ).subrange(w, w + n@.len()) == n@;
                assert(0 <= w <= last as int);
                assert(spec_lower(h@).subrange(w, w + nlen as int) != n@);
            }
        }
    }
    false
}

// ---------------------------------------------------------------------------
// Trimming and character search
// ---------------------------------------------------------------------------

/// `s` without its leading whitespace, as `str::trim_start` strips it.
pub open spec fn spec_trim_start(s: Seq<char>) -> Seq<char>
    decreases s.len(),
{
    if s.len() > 0 && char_white(s[0]) {
        spec_trim_start(s.skip(1))
    } else {
        s
    }
}

/// `s` without its trailing whitespace, as `str::trim_end` strips it.
pub open spec fn spec_trim_end(s: Seq<char>) -> Seq<char>
    decreases s.len(),
{
    if s.len() > 0 && char_white(s.last()) {
        spec_trim_end(s.drop_last())
    } else {
        s
    }
}

/// `s` without leading and trailing whitespace, as `str::trim` strips it.
pub open spec fn spec_trim(s: Seq<char>) -> Seq<char> {
    spec_trim_end(spec_trim_start(s))
}

/// Strips leading and trailing whitespace, matching `str::trim`.
pub fn trim_str<'a>(s: &'a str) -> (r: &'a str)
    ensures
        r@ == spec_trim(s@),
{
    let n = s.unicode_len();
    let mut a: usize = 0;
    proof {
        assert(s@.skip(0) =~= s@);
    }
    while a < n && is_whitespace_char(s.get_char(a))
        invariant
            a <= n,
            n == s@.len(),
            spec_trim_start(s@) == spec_trim_start(s@.skip(a as int)),
        decreases n - a,
    {
        proof {
            assert(s@.skip(a as int)[0] == s@[a as int]);
            assert(s@.skip(a as int).skip(1) =~= s@.skip(a + 1));
        }
        a += 1;
    }
    proof {
        if a < n {
            assert(s@.skip(a as int)[0] == s@[a as int]);
        }
        assert(spec_trim_start(s@) == s@.skip(a as int));
    }
    let mut b: usize = n;
    while b > a && is_whitespace_char(s.get_char(b - 1))
        invariant
            a <= b <= n,
            n == s@.len(),
            spec_trim_start(s@) == s@.skip(a as int),
            spec_trim_end(s@.skip(a as int)) == spec_trim_end(s@.subrange(a as int, b as int)),
        decreases b,
    {
        proof {
            let t = s@.subrange(a as int, b as int);
            assert(t.last() == s@[b - 1]);
            assert(t.drop_last() =~= s@.subrange(a as int, b - 1));
        }
        b -= 1;
    }
    proof {
        let t = s@.subrange(a as int, b as int);
        if b > a {
            assert(t.last() == s@[b - 1]);
        }
        assert(spec_trim_end(t) == t);
        if a == n {
            assert(s@.skip(a as int) =~= s@.subrange(a as int, n as int));
        }
    }
    s.substring_char(a, b)
}

/// The index of the first occurrence of `c` in `s` at or after `from`, or
/// `s.len()` if there is none.
pub open spec fn find_char(s: Seq<char>, c: char, from: int) -> int
    recommends
        0 <= from <= s.len(),
    decreases s.len() - from,
{
    if from < 0 || from >= s.len() {
        s.len() as int
    } else if s[from] == c {
        from
    } else {
        find_char(s, c, from + 1)
    }
}

pub proof fn lemma_find_char_props(s: Seq<char>, c: char, from: int)
    requires
        0 <= from <= s.len(),
    ensures
        from <= find_char(s, c, from) <= s.len(),
        find_char(s, c, from) < s.len() ==> s[find_char(s, c, from)] == c,
        forall|j: int| from <= j < find_char(s, c, from) ==> s[j] != c,
    decreases s.len() - from,
{
    if from < s.len() && s[from] != c {
        lemma_find_char_props(s, c, from + 1);
    }
}

/// Finds the first occurrence of `c` at or after `from`, or returns the
/// length if there is none.
pub fn find_char_from(s: &str, c: char, from: usize) -> (r: usize)
    requires
        from <= s@.len(),
    ensures
        r == find_char(s@, c, from as int),
{
    let n = s.unicode_len();
    let mut i: usize = from;
    while i < n
        invariant
            from <= i <= n,
            n == s@.len(),
            find_char(s@, c, from as int) == find_char(s@, c, i as int),
        decreases n - i,
    {
        if s.get_char(i) == c {
            return i;
        }
        i += 1;
    }
    n
}

/// `s` without its trailing alphabetic characters, as
/// `str::trim_end_matches(char::is_alphabetic)` strips them.
pub open spec fn spec_trim_end_alpha(s: Seq<char>) -> Seq<char>
    decreases s.len(),
{
    if s.len() > 0 && char_alphabetic(s.last()) {
        spec_trim_end_alpha(s.drop_last())
    } else {
        s
    }
}

/// Strips the trailing alphabetic characters.
pub fn trim_end_alphabetic<'a>(s: &'a str) -> (r: &'a str)
    ensures
        r@ == spec_trim_end_alpha(s@),
{
    let n = s.unicode_len();
    let mut b: usize = n;
    proof {
        assert(s@.take(n as int) =~= s@);
    }
    while b > 0 && is_alphabetic_char(s.get_char(b - 1))
        invariant
            b <= n,
            n == s@.len(),
            spec_trim_end_alpha(s@) == spec_trim_end_alpha(s@.take(b as int)),
        decreases b,
    {
        proof {
            let t = s@.take(b as int);
            assert(t.last() == s@[b - 1]);
            assert(t.drop_last() =~= s@.take(b - 1));
        }
        b -= 1;
    }
    proof {
        let t = s@.take(b as int);
        if b > 0 {
            assert(t.last() == s@[b - 1]);
        }
        assert(spec_trim_end_alpha(t) == t);
        assert(s@.take(b as int) =~= s@.subrange(0, b as int));
    }
    s.substring_char(0, b)
}

/// Strips trailing whitespace, matching `str::trim_end`.
pub fn trim_end_str<'a>(s: &'a str) -> (r: &'a str)
    ensures
        r@ == spec_trim_end(s@),
{
    let n = s.unicode_len();
    let mut b: usize = n;
    proof {
        assert(s@.take(n as int) =~= s@);
    }
    while b > 0 && is_whitespace_char(s.get_char(b - 1))
        invariant
            b <= n,
            n == s@.len(),
            spec_trim_end(s@) == spec_trim_end(s@.take(b as int)),
        decreases b,
    {
        proof {
            let t = s@.take(b as int);
            assert(t.last() == s@[b - 1]);
            assert(t.drop_last() =~= s@.take(b - 1));
        }
        b -= 1;
    }
    proof {
        let t = s@.take(b as int);
        if b > 0 {
            assert(t.last() == s@[b - 1]);
        }
        assert(spec_trim_end(t) == t);
        assert(s@.take(b as int) =~= s@.subrange(0, b as int));
    }
    s.substring_char(0, b)
}

// ---------------------------------------------------------------------------
// Splitting into lines
// ---------------------------------------------------------------------------

/// A line with one carriage return stripped from its end, as `str::lines`
/// strips it before a line feed.
pub open spec fn strip_cr(l: Seq<char>) -> Seq<char> {
    if l.len() > 0 && l.last() == '\r' {
        l.drop_last()
    } else {
        l
    }
}

/// The lines of `s`, as `str::lines` splits them: pieces separated by `\n`,
/// with a `\r` immediately before a `\n` stripped, and no final empty piece
/// after a trailing line feed.
pub open spec fn spec_lines(s: Seq<char>) -> Seq<Seq<char>>
    decreases s.len(),
    via spec_lines_decreases
{
    if s.len() == 0 {
        Seq::empty()
    } else {
        let j = find_char(s, '\n', 0);
        if j == s.len() {
            seq![s]
        } else {
            seq![strip_cr(s.take(j))] + spec_lines(s.skip(j + 1))
        }
    }
}

#[via_fn]
proof fn spec_lines_decreases(s: Seq<char>) {
    if s.len() > 0 {
        lemma_find_char_props(s, '\n', 0);
    }
}

proof fn lemma_find_char_shift(s: Seq<char>, c: char, a: int, i: int)
    requires
        0 <= a <= a + i <= s.len(),
    ensures
        find_char(s.skip(a), c, i) == find_char(s, c, a + i) - a,
    decreases s.len() - a - i,
{
    assert(s.skip(a).len() == s.len() - a);
    if a + i < s.len() {
        assert(s.skip(a)[i] == s[a + i]);
        if s[a + i] != c {
            lemma_find_char_shift(s, c, a, i + 1);
        }
    }
}

/// Splits into lines, matching `str::lines`.
pub fn split_lines(s: &str) -> (r: Vec<String>)
    ensures
        r.deep_view() == spec_lines(s@),
{
    let n = s.unicode_len();
    let mut out: Vec<String> = Vec::new();
    let mut from: usize = 0;
    proof {
        assert(s@.skip(0) =~= s@);
        assert(out.deep_view() =~= Seq::<Seq<char>>::empty());
    }
    while from < n
        invariant
            from <= n,
            n == s@.len(),
            spec_lines(s@) == out.deep_view() + spec_lines(s@.skip(from as int)),
        decreases n - from,
    {
        let ghost suffix = s@.skip(from as int);
        let ghost old_dv = out.deep_view();
        let j = find_char_from(s, '\n', from);
        proof {
            lemma_find_char_props(s@, '\n', from as int);
            lemma_find_char_shift(s@, '\n', from as int, 0);
            assert(find_char(suffix, '\n', 0) == j - from);
        }
        if j == n {
            let piece = s.substring_char(from, n);
            out.push(String::from_str(piece));
            proof {
                assert(suffix =~= s@.subrange(from as int, n as int));
                assert(spec_lines(suffix) =~= seq![suffix]);
                assert(out.deep_view() =~= old_dv + seq![piece@]);
                assert(out.deep_view() + spec_lines(s@.skip(n as int)) =~= out.deep_view());
            }
            from = n;
        } else {
            let mut end = j;
            if end > from && s.get_char(end - 1) == '\r' {
                end = end - 1;
            }
            let piece = s.substring_char(from, end);
            out.push(String::from_str(piece));
            proof {
                let head = suffix.take(j - from);
                assert(head =~= s@.subrange(from as int, j as int));
                if j > from && s@[j - 1] == '\r' {
                    assert(head.last() == s@[j - 1]);
                    assert(strip_cr(head) =~= s@.subrange(from as int, j - 1));
                } else {
                    if head.len() > 0 {
                        assert(head.last() == s@[j - 1]);
                    }
                    assert(strip_cr(head) =~= s@.subrange(from as int, j as int));
                }
                assert(piece@ == strip_cr(head));
                assert(suffix.skip(j - from + 1) =~= s@.skip(j + 1));
                assert(spec_lines(suffix) == seq![strip_cr(head)] + spec_lines(s@.skip(j + 1)));
                assert(out.deep_view() =~= old_dv + seq![piece@]);
                assert(out.deep_view() + spec_lines(s@.skip(j + 1)) =~= old_dv + spec_lines(
                    suffix,
                ));
            }
            from = j + 1;
        }
    }
    proof {
        assert(s@.skip(from as int) =~= Seq::<char>::empty());
        assert(out.deep_view() + spec_lines(s@.skip(from as int)) =~= out.deep_view());
    }
    out
}

/// Whether `c` occurs in `s`.
pub fn contains_char(s: &str, c: char) -> (r: bool)
    ensures
        r == s@.contains(c),
{
    let n = s.unicode_len();
    let j = find_char_from(s, c, 0);
    proof {
        lemma_find_char_props(s@, c, 0);
        if j < n {
            assert(s@[j as int] == c);
        } else {
            assert(forall|i: int| 0 <= i < s@.len() ==> s@[i] != c);
        }
    }
    j < n
}

/// The pieces of `s` between commas, each trimmed of whitespace; an empty
/// string yields one empty piece, as `str::split` does.
pub open spec fn spec_split_commas(s: Seq<char>) -> Seq<Seq<char>>
    decreases s.len(),
    via spec_split_commas_decreases
{
    let j = find_char(s, ',', 0);
    if j == s.len() {
        seq![spec_trim(s)]
    } else {
        seq![spec_trim(s.take(j))] + spec_split_commas(s.skip(j + 1))
    }
}

#[via_fn]
proof fn spec_split_commas_decreases(s: Seq<char>) {
    lemma_find_char_props(s, ',', 0);
}

/// Splits on commas and trims each piece.
pub fn split_commas_trimmed(s: &str) -> (r: Vec<String>)
    ensures
        r.deep_view() == spec_split_commas(s@),
{
    let n = s.unicode_len();
    let mut out: Vec<String> = Vec::new();
    let mut from: usize = 0;
    let mut done = false;
    proof {
        assert(s@.skip(0) =~= s@);
        assert(out.deep_view() =~= Seq::<Seq<char>>::empty());
    }
    while !done
        invariant
            from <= n,
            n == s@.len(),
            !done ==> spec_split_commas(s@) == out.deep_view() + spec_split_commas(
                s@.skip(from as int),
            ),
            done ==> spec_split_commas(s@) == out.deep_view(),
        decreases n - from + (if done { 0int } else { 1 }),
    {
        let ghost suffix = s@.skip(from as int);
        let ghost old_dv = out.deep_view();
        let j = find_char_from(s, ',', from);
        proof {
            lemma_find_char_props(s@, ',', from as int);
            lemma_find_char_shift(s@, ',', from as int, 0);
            assert(find_char(suffix, ',', 0) == j - from);
        }
        if j == n {
            let piece = trim_str(s.substring_char(from, n));
            out.push(String::from_str(piece));
            proof {
                assert(suffix =~= s@.subrange(from as int, n as int));
                assert(spec_split_commas(suffix) =~= seq![spec_trim(suffix)]);
                assert(out.deep_view() =~= old_dv + seq![piece@]);
            }
            done = true;
        } else {
            let piece = trim_str(s.substring_char(from, j));
            out.push(String::from_str(piece));
            proof {
                let head = suffix.take(j - from);
                assert(head =~= s@.subrange(from as int, j as int));
                assert(suffix.skip(j - from + 1) =~= s@.skip(j + 1));
                assert(spec_split_commas(suffix) == seq![spec_trim(head)] + spec_split_commas(
                    s@.skip(j + 1),
                ));
                assert(out.deep_view() =~= old_dv + seq![piece@]);
                assert(out.deep_view() + spec_split_commas(s@.skip(j + 1)) =~= old_dv
                    + spec_split_commas(suffix));
            }
            from = j + 1;
        }
    }
    out
}

// ---------------------------------------------------------------------------
// Joining
// ---------------------------------------------------------------------------

/// `parts` joined by `sep`, as `slice::join` renders it.
pub open spec fn spec_join(parts: Seq<Seq<char>>, sep: Seq<char>) -> Seq<char>
    decreases parts.len(),
{
    if parts.len() == 0 {
        Seq::empty()
    } else if parts.len() == 1 {
        parts[0]
    } else {
        spec_join(parts.drop_last(), sep) + sep + parts.last()
    }
}

/// Joins strings with a separator, as `slice::join` does.
pub fn join_with(parts: &Vec<String>, sep: &str) -> (r: String)
    ensures
        r@ == spec_join(parts.deep_view(), sep@),
{
    let ghost dv = parts.deep_view();
    let mut out = String::new();
    let mut i: usize = 0;
    proof {
        assert(dv.take(0) =~= Seq::<Seq<char>>::empty());
    }
    while i < parts.len()
        invariant
            i <= parts.len(),
            dv == parts.deep_view(),
            dv.len() == parts.len(),
            out@ == spec_join(dv.take(i as int), sep@),
        decreases parts.len() - i,
    {
        if i > 0 {
            out.append(sep);
        }
        out.append(parts[i].as_str());
        proof {
            assert(dv[i as int] == parts@[i as int]@);
            let t = dv.take(i + 1);
            assert(t.drop_last() =~= dv.take(i as int));
            assert(t.last() == dv[i as int]);
            if i == 0 {
                assert(out@ =~= spec_join(t, sep@));
            }
        }
        i += 1;
    }
    proof {
        assert(dv.take(parts.len() as int) =~= dv);
    }
    out
}

// ---------------------------------------------------------------------------
// Decimal formatting
// ---------------------------------------------------------------------------

pub open spec fn spec_digit_char(d: nat) -> char
    recommends
        d < 10,
{
    ((48 + d) as u8) as char
}

/// The decimal digits of `n`, most significant first, as `{}` formatting
/// renders an unsigned integer.
pub open spec fn spec_dec_str(n: nat) -> Seq<char>
    decreases n,
{
    if n < 10 {
        seq![spec_digit_char(n)]
    } else {
        spec_dec_str(n / 10) + seq![spec_digit_char(n % 10)]
    }
}

/// The rendering of a signed integer: a minus sign, then the magnitude.
pub open spec fn spec_int_str(n: int) -> Seq<char> {
    if n < 0 {
        seq!['-'] + spec_dec_str((-n) as nat)
    } else {
        spec_dec_str(n as nat)
    }
}

fn digit_str(d: u64) -> (r: &'static str)
    requires
        d < 10,
    ensures
        r@ =~= seq![spec_digit_char(d as nat)],
{
    proof {
        reveal_strlit("0");
        reveal_strlit("1");
        reveal_strlit("2");
        reveal_strlit("3");
        reveal_strlit("4");
        reveal_strlit("5");
        reveal_strlit("6");
        reveal_strlit("7");
        reveal_strlit("8");
        reveal_strlit("9");
    }
    match d {
        0 => "0",
        1 => "1",
        2 => "2",
        3 => "3",
        4 => "4",
        5 => "5",
        6 => "6",
        7 => "7",
        8 => "8",
        _ => "9",
    }
}

/// Renders `n` in decimal, as `{}` formatting would.
pub fn u64_to_string(n: u64) -> (r: String)
    ensures
        r@ == spec_dec_str(n as nat),
    decreases n,
{
    if n < 10 {
        String::from_str(digit_str(n))
    } else {
        let mut s = u64_to_string(n / 10);
        s.append(digit_str(n % 10));
        s
    }
}

/// Whether `str::parse::<i32>` accepts `s`, and the value it yields: an
/// optional sign, then at least one digit, nothing else, within range.
pub open spec fn spec_parse_i32(s: Seq<char>) -> Option<i32> {
    if s.len() > 0 && s[0] == '-' {
        let b = s.skip(1);
        if b.len() > 0 && all_digits(b) && dec_val(b) <= 0x8000_0000 {
            Some((-(dec_val(b) as int)) as i32)
        } else {
            None
        }
    } else {
        let b = numeric_body(s);
        if b.len() > 0 && all_digits(b) && dec_val(b) <= 0x7fff_ffff {
            Some(dec_val(b) as i32)
        } else {
            None
        }
    }
}

/// Parses a decimal `i32` with the same acceptance rule as `str::parse`.
pub fn parse_i32(s: &str) -> (r: Option<i32>)
    ensures
        r == spec_parse_i32(s@),
{
    let n = s.unicode_len();
    if n > 0 && s.get_char(0) == '-' {
        let rest = s.substring_char(1, n);
        proof {
            assert(rest@ =~= s@.skip(1));
        }
        if rest.unicode_len() == 0 {
            return None;
        }
        if rest.get_char(0) == '+' {
            proof {
                assert(!is_digit_char(s@.skip(1)[0]));
            }
            return None;
        }
        proof {
            assert(numeric_body(rest@) =~= rest@);
        }
        match parse_u64(rest) {
            Some(v) => {
                if v <= 0x8000_0000 {
                    Some((-(v as i64)) as i32)
                } else {
                    None
                }
            },
            None => {
                proof {
                    if all_digits(s@.skip(1)) && dec_val(s@.skip(1)) <= 0x8000_0000 {
                        assert(parses_as_u64(rest@));
                    }
                }
                None
            },
        }
    } else {
        match parse_u64(s) {
            Some(v) => {
                if v <= 0x7fff_ffff {
                    Some(v as i32)
                } else {
                    None
                }
            },
            None => {
                proof {
                    let b = numeric_body(s@);
                    if b.len() > 0 && all_digits(b) && dec_val(b) <= 0x7fff_ffff {
                        assert(parses_as_u64(s@));
                    }
                }
                None
            },
        }
    }
}

/// Renders `n` in decimal with a leading minus sign when negative.
pub fn i64_to_string(n: i64) -> (r: String)
    ensures
        r@ == spec_int_str(n as int),
{
    if n < 0 {
        let mag: u64 = (-(n as i128)) as u64;
        let mut s = String::from_str("-");
        let rest = u64_to_string(mag);
        s.append(rest.as_str());
        proof {
            reveal_strlit("-");
            assert(s@ =~= seq!['-'] + spec_dec_str(mag as nat));
        }
        s
    } else {
        u64_to_string(n as u64)
    }
}

// ---------------------------------------------------------------------------
// Small rendering and search helpers
// ---------------------------------------------------------------------------

/// How `{}` formatting renders a boolean.
pub open spec fn spec_bool_str(b: bool) -> Seq<char> {
    if b {
        "true"@
    } else {
        "false"@
    }
}

/// Renders a boolean as `{}` formatting would.
pub fn bool_str(b: bool) -> (r: &'static str)
    ensures
        r@ == spec_bool_str(b),
{
    if b {
        "true"
    } else {
        "false"
    }
}

/// Whether some element of `items` equals `wanted`.
pub fn contains_str(items: &Vec<String>, wanted: &str) -> (r: bool)
    ensures
        r == items.deep_view().contains(wanted@),
{
    let ghost dv = items.deep_view();
    let mut i: usize = 0;
    while i < items.len()
        invariant
            i <= items@.len(),
            dv == items.deep_view(),
            dv.len() == items@.len(),
            forall|j: int| 0 <= j < i ==> dv[j] != wanted@,
        decreases items@.len() - i,
    {
        proof {
            assert(dv[i as int] == items@[i as int]@);
        }
        if str_eq(items[i].as_str(), wanted) {
            return true;
        }
        i += 1;
    }
    false
}

} // verus!
