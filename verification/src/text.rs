//! Character-level text helpers: the mathematical model of the std string
//! operations that the header and token logic relies on (`trim`, `split`,
//! `splitn`, `trim_matches`, `split_whitespace`), with verified implementations.

use vstd::prelude::*;
use vstd::string::*;

verus! {

/// Unicode `White_Space`, the set that `char::is_whitespace` tests.
pub open spec fn is_ws(c: char) -> bool {
    c == '\t' || c == '\n' || c == '\u{0B}' || c == '\u{0C}' || c == '\r' || c == ' '
        || c == '\u{85}' || c == '\u{A0}' || c == '\u{1680}'
        || ('\u{2000}' <= c && c <= '\u{200A}')
        || c == '\u{2028}' || c == '\u{2029}' || c == '\u{202F}' || c == '\u{205F}'
        || c == '\u{3000}'
}

pub fn char_is_ws(c: char) -> (b: bool)
    ensures
        b == is_ws(c),
{
    c == '\t' || c == '\n' || c == '\u{0B}' || c == '\u{0C}' || c == '\r' || c == ' '
        || c == '\u{85}' || c == '\u{A0}' || c == '\u{1680}'
        || ('\u{2000}' <= c && c <= '\u{200A}')
        || c == '\u{2028}' || c == '\u{2029}' || c == '\u{202F}' || c == '\u{205F}'
        || c == '\u{3000}'
}

/// The characters of a string slice, as a vector.
pub fn chars_of(s: &str) -> (v: Vec<char>)
    ensures
        v@ == s@,
{
    let mut v: Vec<char> = Vec::new();
    for c in it: s.chars()
        invariant
            v@ == it.seq().take(it.index() as int),
    {
        v.push(c);
    }
    v
}


/// The characters stripped by `trim` (`quote == false`) or by
/// `trim_matches('"')` (`quote == true`).
pub open spec fn strip_char(quote: bool, c: char) -> bool {
    if quote {
        c == '"'
    } else {
        is_ws(c)
    }
}

pub open spec fn trim_start_by(s: Seq<char>, quote: bool) -> Seq<char>
    decreases s.len(),
{
    if s.len() > 0 && strip_char(quote, s[0]) {
        trim_start_by(s.drop_first(), quote)
    } else {
        s
    }
}

pub open spec fn trim_end_by(s: Seq<char>, quote: bool) -> Seq<char>
    decreases s.len(),
{
    if s.len() > 0 && strip_char(quote, s.last()) {
        trim_end_by(s.drop_last(), quote)
    } else {
        s
    }
}

/// `str::trim`: leading and trailing white space removed.
pub open spec fn trim(s: Seq<char>) -> Seq<char> {
    trim_end_by(trim_start_by(s, false), false)
}

/// `str::trim_matches('"')`: leading and trailing double quotes removed.
pub open spec fn trim_quotes(s: Seq<char>) -> Seq<char> {
    trim_end_by(trim_start_by(s, true), true)
}

pub fn is_strip_char(quote: bool, c: char) -> (b: bool)
    ensures
        b == strip_char(quote, c),
{
    if quote {
        c == '"'
    } else {
        char_is_ws(c)
    }
}

/// The bounds, within `lo..hi` of `v`, of that range with the stripped
/// characters removed from both ends.
pub fn trim_range(v: &Vec<char>, lo: usize, hi: usize, quote: bool) -> (r: (usize, usize))
    requires
        lo <= hi <= v@.len(),
    ensures
        lo <= r.0 <= r.1 <= hi,
        v@.subrange(r.0 as int, r.1 as int) == trim_end_by(
            trim_start_by(v@.subrange(lo as int, hi as int), quote),
            quote,
        ),
{
    let mut a = lo;
    while a < hi && is_strip_char(quote, v[a])
        invariant
            lo <= a <= hi <= v@.len(),
            trim_start_by(v@.subrange(lo as int, hi as int), quote) == trim_start_by(
                v@.subrange(a as int, hi as int),
                quote,
            ),
        decreases hi - a,
    {
        assert(v@.subrange(a as int, hi as int).drop_first() =~= v@.subrange(a + 1, hi as int));
        a = a + 1;
    }
    let mut b = hi;
    while b > a && is_strip_char(quote, v[b - 1])
        invariant
            lo <= a <= b <= hi <= v@.len(),
            trim_start_by(v@.subrange(lo as int, hi as int), quote) == v@.subrange(
                a as int,
                hi as int,
            ),
            trim_end_by(v@.subrange(a as int, hi as int), quote) == trim_end_by(
                v@.subrange(a as int, b as int),
                quote,
            ),
        decreases b - a,
    {
        assert(v@.subrange(a as int, b as int).drop_last() =~= v@.subrange(a as int, b - 1));
        b = b - 1;
    }
    (a, b)
}


/// The index of the first occurrence of `c` in `s` (`str::find`).
pub open spec fn find_char(s: Seq<char>, c: char) -> Option<int>
    decreases s.len(),
{
    if s.len() == 0 {
        None
    } else if s[0] == c {
        Some(0)
    } else {
        match find_char(s.drop_first(), c) {
            Some(i) => Some(i + 1),
            None => None,
        }
    }
}

/// `find_char` is the first occurrence of `c`, or `None` where `c` does not occur.
pub proof fn lemma_find_char(s: Seq<char>, c: char, k: int)
    requires
        0 <= k <= s.len(),
        forall|j: int| 0 <= j < k ==> s[j] != c,
    ensures
        k < s.len() && s[k] == c ==> find_char(s, c) == Some(k),
        k == s.len() ==> find_char(s, c) is None,
    decreases k,
{
    if k > 0 {
        lemma_find_char(s.drop_first(), c, k - 1);
    }
}

/// What `find_char` returns is an occurrence of `c`, with none before it.
pub proof fn lemma_find_char_found(s: Seq<char>, c: char)
    ensures
        find_char(s, c) matches Some(i) ==> 0 <= i < s.len() && s[i] == c && forall|j: int|
            0 <= j < i ==> s[j] != c,
        find_char(s, c) is None ==> forall|j: int| 0 <= j < s.len() ==> s[j] != c,
    decreases s.len(),
{
    if s.len() > 0 {
        lemma_find_char_found(s.drop_first(), c);
        if s[0] != c {
            assert forall|j: int| 1 <= j < s.len() implies s[j] == s.drop_first()[j - 1] by {}
        }
    }
}

/// `str::split(c)`: the pieces of `s` between the occurrences of `c`.
pub open spec fn split_char(s: Seq<char>, c: char) -> Seq<Seq<char>>
    decreases s.len(),
{
    match find_char(s, c) {
        Some(i) => {
            proof {
                lemma_find_char_found(s, c);
            }
            seq![s.take(i)] + split_char(s.skip(i + 1), c)
        },
        None => seq![s],
    }
}

/// The characters that the ranges `r` cover in `v`.
pub open spec fn ranges_view(v: Seq<char>, r: Seq<(usize, usize)>) -> Seq<Seq<char>> {
    r.map_values(|p: (usize, usize)| v.subrange(p.0 as int, p.1 as int))
}

pub open spec fn ranges_within(r: Seq<(usize, usize)>, lo: int, hi: int) -> bool {
    forall|k: int| 0 <= k < r.len() ==> lo <= (#[trigger] r[k]).0 <= r[k].1 <= hi
}

/// The first occurrence of `c` in `lo..hi` of `v`, as an index into `v`.
pub fn find_in_range(v: &Vec<char>, lo: usize, hi: usize, c: char) -> (r: Option<usize>)
    requires
        lo <= hi <= v@.len(),
    ensures
        match r {
            Some(i) => lo <= i < hi && find_char(v@.subrange(lo as int, hi as int), c) == Some(
                i - lo,
            ),
            None => find_char(v@.subrange(lo as int, hi as int), c) is None,
        },
{
    let mut i = lo;
    while i < hi
        invariant
            lo <= i <= hi <= v@.len(),
            forall|j: int| lo <= j < i ==> v@[j] != c,
        decreases hi - i,
    {
        if v[i] == c {
            proof {
                lemma_find_char(v@.subrange(lo as int, hi as int), c, i - lo);
            }
            return Some(i);
        }
        i = i + 1;
    }
    proof {
        lemma_find_char(v@.subrange(lo as int, hi as int), c, hi - lo);
    }
    None
}

/// The ranges of the pieces of `lo..hi` of `v` between the occurrences of `c`.
pub fn split_ranges(v: &Vec<char>, lo: usize, hi: usize, c: char) -> (r: Vec<(usize, usize)>)
    requires
        lo <= hi <= v@.len(),
    ensures
        r@.len() >= 1,
        ranges_within(r@, lo as int, hi as int),
        ranges_view(v@, r@) == split_char(v@.subrange(lo as int, hi as int), c),
{
    let mut r: Vec<(usize, usize)> = Vec::new();
    let mut start = lo;
    let mut i = lo;
    while i < hi
        invariant
            lo <= start <= i <= hi <= v@.len(),
            ranges_within(r@, lo as int, hi as int),
            forall|j: int| start <= j < i ==> v@[j] != c,
            split_char(v@.subrange(lo as int, hi as int), c) == ranges_view(v@, r@)
                + split_char(v@.subrange(start as int, hi as int), c),
        decreases hi - i,
    {
        if v[i] == c {
            let ghost rest = v@.subrange(start as int, hi as int);
            proof {
                lemma_find_char(rest, c, i - start);
                assert(rest.take(i - start) =~= v@.subrange(start as int, i as int));
                assert(rest.skip(i - start + 1) =~= v@.subrange(i + 1, hi as int));
            }
            let ghost before = ranges_view(v@, r@);
            r.push((start, i));
            assert(ranges_view(v@, r@) =~= before.push(v@.subrange(start as int, i as int)));
            start = i + 1;
        }
        i = i + 1;
    }
    proof {
        let rest = v@.subrange(start as int, hi as int);
        lemma_find_char(rest, c, hi - start);
    }
    let ghost before = ranges_view(v@, r@);
    r.push((start, hi));
    assert(ranges_view(v@, r@) =~= before.push(v@.subrange(start as int, hi as int)));
    r
}


/// The piece under construction, as a list of zero or one piece.
pub open spec fn flush(cur: Seq<char>) -> Seq<Seq<char>> {
    if cur.len() > 0 {
        seq![cur]
    } else {
        seq![]
    }
}

/// Splitting at spaces that stand outside double quotes: `cur` is the piece
/// read so far, `in_quotes` whether an odd number of quotes has been read.
/// Quotes stay in the pieces; empty pieces are dropped.
pub open spec fn quoted_words_from(s: Seq<char>, cur: Seq<char>, in_quotes: bool) -> Seq<Seq<char>>
    decreases s.len(),
{
    if s.len() == 0 {
        flush(cur)
    } else if s[0] == '"' {
        quoted_words_from(s.drop_first(), cur.push('"'), !in_quotes)
    } else if s[0] == ' ' && !in_quotes {
        flush(cur) + quoted_words_from(s.drop_first(), seq![], in_quotes)
    } else {
        quoted_words_from(s.drop_first(), cur.push(s[0]), in_quotes)
    }
}

pub open spec fn quoted_words(s: Seq<char>) -> Seq<Seq<char>> {
    quoted_words_from(s, seq![], false)
}

/// A run without double quotes (and, outside quotes, without spaces) joins
/// the piece under construction.
pub proof fn lemma_quoted_words_run(t: Seq<char>, s: Seq<char>, cur: Seq<char>, in_quotes: bool)
    requires
        forall|j: int| 0 <= j < t.len() ==> #[trigger] t[j] != '"' && (!in_quotes ==> t[j] != ' '),
    ensures
        quoted_words_from(t + s, cur, in_quotes) == quoted_words_from(s, cur + t, in_quotes),
    decreases t.len(),
{
    if t.len() == 0 {
        assert(t + s =~= s);
        assert(cur + t =~= cur);
    } else {
        let u = t + s;
        assert(u[0] == t[0]);
        assert(u.drop_first() =~= t.drop_first() + s);
        assert(cur.push(t[0]) + t.drop_first() =~= cur + t);
        assert forall|j: int| 0 <= j < t.drop_first().len() implies #[trigger] t.drop_first()[j]
            != '"' && (!in_quotes ==> t.drop_first()[j] != ' ') by {
            assert(t.drop_first()[j] == t[j + 1]);
        }
        lemma_quoted_words_run(t.drop_first(), s, cur.push(t[0]), in_quotes);
    }
}

/// A double quote joins the piece under construction and opens or closes a
/// quoted run.
pub proof fn lemma_quoted_words_quote(s: Seq<char>, cur: Seq<char>, in_quotes: bool)
    ensures
        quoted_words_from(seq!['"'] + s, cur, in_quotes) == quoted_words_from(
            s,
            cur.push('"'),
            !in_quotes,
        ),
{
    let u = seq!['"'] + s;
    assert(u[0] == '"');
    assert(u.drop_first() =~= s);
}

/// A space outside quotes ends the piece under construction.
pub proof fn lemma_quoted_words_space(s: Seq<char>, cur: Seq<char>)
    ensures
        quoted_words_from(seq![' '] + s, cur, false) == flush(cur) + quoted_words_from(
            s,
            seq![],
            false,
        ),
{
    let u = seq![' '] + s;
    assert(u[0] == ' ');
    assert(u.drop_first() =~= s);
}

/// The ranges of the `quoted_words` of `lo..hi` of `v`.
pub fn quoted_word_ranges(v: &Vec<char>, lo: usize, hi: usize) -> (r: Vec<(usize, usize)>)
    requires
        lo <= hi <= v@.len(),
    ensures
        ranges_within(r@, lo as int, hi as int),
        ranges_view(v@, r@) == quoted_words(v@.subrange(lo as int, hi as int)),
{
    let mut r: Vec<(usize, usize)> = Vec::new();
    let mut start = lo;
    let mut i = lo;
    let mut in_quotes = false;
    assert(v@.subrange(lo as int, lo as int) =~= Seq::<char>::empty());
    while i < hi
        invariant
            lo <= start <= i <= hi <= v@.len(),
            ranges_within(r@, lo as int, hi as int),
            quoted_words(v@.subrange(lo as int, hi as int)) == ranges_view(v@, r@)
                + quoted_words_from(
                v@.subrange(i as int, hi as int),
                v@.subrange(start as int, i as int),
                in_quotes,
            ),
        decreases hi - i,
    {
        let c = v[i];
        let ghost rest = v@.subrange(i as int, hi as int);
        let ghost cur = v@.subrange(start as int, i as int);
        assert(rest.drop_first() =~= v@.subrange(i + 1, hi as int));
        assert(rest[0] == c);
        if c == '"' {
            assert(cur.push('"') =~= v@.subrange(start as int, i + 1));
            in_quotes = !in_quotes;
        } else if c == ' ' && !in_quotes {
            let ghost before = ranges_view(v@, r@);
            if start < i {
                r.push((start, i));
                assert(ranges_view(v@, r@) =~= before + flush(cur));
            } else {
                assert(ranges_view(v@, r@) =~= before + flush(cur));
            }
            assert(v@.subrange(i + 1, i + 1) =~= Seq::<char>::empty());
            start = i + 1;
        } else {
            assert(cur.push(c) =~= v@.subrange(start as int, i + 1));
        }
        i = i + 1;
    }
    let ghost before = ranges_view(v@, r@);
    let ghost cur = v@.subrange(start as int, hi as int);
    if start < hi {
        r.push((start, hi));
        assert(ranges_view(v@, r@) =~= before + flush(cur));
    } else {
        assert(ranges_view(v@, r@) =~= before + flush(cur));
    }
    r
}


/// A new string holding the characters `a..b` of `s`.
pub fn substring(s: &str, a: usize, b: usize) -> (r: String)
    requires
        a <= b <= s@.len(),
    ensures
        r@ == s@.subrange(a as int, b as int),
{
    String::from_str(s.substring_char(a, b))
}

/// `prefix` followed by `s`, as a new string.
pub fn concat_str(prefix: &str, s: &str) -> (r: String)
    ensures
        r@ == prefix@ + s@,
{
    let mut r = String::from_str(prefix);
    r.append(s);
    r
}


/// `str::split_whitespace` continued from the word `cur` read so far.
pub open spec fn words_from(s: Seq<char>, cur: Seq<char>) -> Seq<Seq<char>>
    decreases s.len(),
{
    if s.len() == 0 {
        flush(cur)
    } else if is_ws(s[0]) {
        flush(cur) + words_from(s.drop_first(), seq![])
    } else {
        words_from(s.drop_first(), cur.push(s[0]))
    }
}

/// `str::split_whitespace`: the maximal runs of characters that are not white space.
pub open spec fn words(s: Seq<char>) -> Seq<Seq<char>> {
    words_from(s, seq![])
}

/// The words of `s`, as new strings.
pub fn split_whitespace(s: &str) -> (r: Vec<String>)
    ensures
        r@.map_values(|w: String| w@) == words(s@),
{
    let v = chars_of(s);
    let hi = v.len();
    let mut r: Vec<String> = Vec::new();
    let mut start: usize = 0;
    let mut i: usize = 0;
    assert(v@.subrange(0, 0) =~= Seq::<char>::empty());
    assert(v@.subrange(0, hi as int) =~= v@);
    while i < hi
        invariant
            v@ == s@,
            hi == v@.len(),
            start <= i <= hi,
            words(s@) == r@.map_values(|w: String| w@) + words_from(
                v@.subrange(i as int, hi as int),
                v@.subrange(start as int, i as int),
            ),
        decreases hi - i,
    {
        let c = v[i];
        let ghost rest = v@.subrange(i as int, hi as int);
        let ghost cur = v@.subrange(start as int, i as int);
        assert(rest.drop_first() =~= v@.subrange(i + 1, hi as int));
        assert(rest[0] == c);
        if char_is_ws(c) {
            let ghost before = r@.map_values(|w: String| w@);
            if start < i {
                r.push(substring(s, start, i));
            }
            assert(r@.map_values(|w: String| w@) =~= before + flush(cur));
            assert(v@.subrange(i + 1, i + 1) =~= Seq::<char>::empty());
            start = i + 1;
        } else {
            assert(cur.push(c) =~= v@.subrange(start as int, i + 1));
        }
        i = i + 1;
    }
    let ghost before = r@.map_values(|w: String| w@);
    let ghost cur = v@.subrange(start as int, hi as int);
    if start < hi {
        r.push(substring(s, start, hi));
    }
    assert(r@.map_values(|w: String| w@) =~= before + flush(cur));
    r
}

} // verus!
