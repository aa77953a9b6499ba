//! Character-level text helpers: whitespace classification, trimming,
//! token scanning and decimal rendering, each proved against a direct
//! mathematical statement over sequences of characters.

use vstd::prelude::*;

verus! {

/// The characters that count as whitespace when trimming and when
/// splitting the request line: the Unicode `White_Space` set.
pub open spec fn is_ws_char(c: char) -> bool {
    c == ' ' || c == '\t' || c == '\n' || c == '\r' || c == '\u{b}' || c == '\u{c}'
        || c == '\u{85}' || c == '\u{a0}' || c == '\u{1680}' || (0x2000 <= c as u32 && c as u32
        <= 0x200a) || c == '\u{2028}' || c == '\u{2029}' || c == '\u{202f}' || c == '\u{205f}'
        || c == '\u{3000}'
}

/// Decides `is_ws_char`.
pub fn is_ws(c: char) -> (r: bool)
    ensures
        r == is_ws_char(c),
{
    c == ' ' || c == '\t' || c == '\n' || c == '\r' || c == '\u{b}' || c == '\u{c}'
        || c == '\u{85}' || c == '\u{a0}' || c == '\u{1680}' || (0x2000 <= c as u32 && c as u32
        <= 0x200a) || c == '\u{2028}' || c == '\u{2029}' || c == '\u{202f}' || c == '\u{205f}'
        || c == '\u{3000}'
}

/// How many characters at the front of `s` satisfy `p`.
pub open spec fn count_while(s: Seq<char>, p: spec_fn(char) -> bool) -> int
    decreases s.len(),
{
    if s.len() > 0 && p(s[0]) {
        1 + count_while(s.drop_first(), p)
    } else {
        0
    }
}

/// How many characters at the back of `s` satisfy `p`.
pub open spec fn count_while_rev(s: Seq<char>, p: spec_fn(char) -> bool) -> int
    decreases s.len(),
{
    if s.len() > 0 && p(s.last()) {
        1 + count_while_rev(s.drop_last(), p)
    } else {
        0
    }
}

/// `count_while` stays within bounds, every counted character satisfies
/// `p`, and the first uncounted one does not.
pub proof fn lemma_count_while_bounds(s: Seq<char>, p: spec_fn(char) -> bool)
    ensures
        0 <= count_while(s, p) <= s.len(),
        forall|j: int| 0 <= j < count_while(s, p) ==> p(s[j]),
        count_while(s, p) < s.len() ==> !p(s[count_while(s, p)]),
    decreases s.len(),
{
    if s.len() > 0 && p(s[0]) {
        lemma_count_while_bounds(s.drop_first(), p);
        assert forall|j: int| 0 <= j < count_while(s, p) implies p(s[j]) by {
            if j > 0 {
                assert(p(s.drop_first()[j - 1]));
            }
        }
        if count_while(s, p) < s.len() {
            assert(!p(s.drop_first()[count_while(s, p) - 1]));
        }
    }
}

/// A prefix of characters satisfying `p`, bounded on the right by a
/// character that does not (or by the end), is exactly what
/// `count_while` counts.
pub proof fn lemma_count_while_is(s: Seq<char>, p: spec_fn(char) -> bool, i: int)
    requires
        0 <= i <= s.len(),
        forall|j: int| 0 <= j < i ==> p(s[j]),
        i < s.len() ==> !p(s[i]),
    ensures
        count_while(s, p) == i,
    decreases s.len(),
{
    if s.len() > 0 && p(s[0]) {
        assert(i >= 1);
        assert forall|j: int| 0 <= j < i - 1 implies p(s.drop_first()[j]) by {
            assert(p(s[j + 1]));
        }
        if i - 1 < s.drop_first().len() {
            assert(s.drop_first()[i - 1] == s[i]);
        }
        lemma_count_while_is(s.drop_first(), p, i - 1);
    }
}

/// The mirror image of `lemma_count_while_is`, for a suffix.
pub proof fn lemma_count_while_rev_is(s: Seq<char>, p: spec_fn(char) -> bool, k: int)
    requires
        0 <= k <= s.len(),
        forall|j: int| s.len() - k <= j < s.len() ==> p(s[j]),
        k < s.len() ==> !p(s[s.len() - k - 1]),
    ensures
        count_while_rev(s, p) == k,
    decreases s.len(),
{
    if s.len() > 0 && p(s.last()) {
        assert(k >= 1);
        let t = s.drop_last();
        assert forall|j: int| t.len() - (k - 1) <= j < t.len() implies p(t[j]) by {
            assert(t[j] == s[j]);
        }
        if k - 1 < t.len() {
            assert(t[t.len() - (k - 1) - 1] == s[s.len() - k - 1]);
        }
        lemma_count_while_rev_is(t, p, k - 1);
    }
}

/// The whitespace predicate, as a single function value shared by every
/// use, so that occurrences of `count_while` over it coincide.
pub open spec fn ws_pred() -> spec_fn(char) -> bool {
    |c: char| is_ws_char(c)
}

/// The complement of the whitespace predicate.
pub open spec fn tok_pred() -> spec_fn(char) -> bool {
    |c: char| !is_ws_char(c)
}

/// Everything-but-a-colon, for locating the first colon of a header line.
pub open spec fn not_colon_pred() -> spec_fn(char) -> bool {
    |c: char| c != ':'
}

/// The length of the run of whitespace at the front of `s`.
pub open spec fn ws_run_len(s: Seq<char>) -> int {
    count_while(s, ws_pred())
}

/// The length of the run of non-whitespace at the front of `s`.
pub open spec fn tok_run_len(s: Seq<char>) -> int {
    count_while(s, tok_pred())
}

/// The length of the run of whitespace at the back of `s`.
pub open spec fn ws_suffix_len(s: Seq<char>) -> int {
    count_while_rev(s, ws_pred())
}

/// The index of the first colon in `s`, or its length if there is none.
pub open spec fn colon_pos(s: Seq<char>) -> int {
    count_while(s, not_colon_pred())
}

/// `s` with surrounding whitespace removed.
pub open spec fn spec_trim(s: Seq<char>) -> Seq<char> {
    let a = ws_run_len(s);
    let b = s.len() - ws_suffix_len(s);
    if a <= b {
        s.subrange(a, b)
    } else {
        Seq::empty()
    }
}

/// Trims surrounding whitespace.
pub fn trim_str<'a>(s: &'a str) -> (r: &'a str)
    ensures
        r@ == spec_trim(s@),
{
    let n = s.unicode_len();
    let mut a: usize = 0;
    while a < n && is_ws(s.get_char(a))
        invariant
            a <= n,
            n == s@.len(),
            forall|j: int| 0 <= j < a ==> is_ws_char(s@[j]),
        decreases n - a,
    {
        a = a + 1;
    }
    let mut b: usize = n;
    while b > a && is_ws(s.get_char(b - 1))
        invariant
            a <= b <= n,
            n == s@.len(),
            forall|j: int| b <= j < n ==> is_ws_char(s@[j]),
            a < n ==> !is_ws_char(s@[a as int]),
        decreases b,
    {
        b = b - 1;
    }
    proof {
        if a == n {
            lemma_count_while_is(s@, ws_pred(), n as int);
            lemma_count_while_rev_is(s@, ws_pred(), n as int);
            assert(spec_trim(s@) =~= s@.subrange(a as int, b as int));
        } else {
            lemma_count_while_is(s@, ws_pred(), a as int);
            assert(b > a);
            lemma_count_while_rev_is(s@, ws_pred(), n - b);
            assert(spec_trim(s@) == s@.subrange(a as int, b as int));
        }
    }
    s.substring_char(a, b)
}

/// Whether a line is empty once surrounding whitespace is removed; the
/// first such line ends the header section of a request.
pub fn is_blank_line(s: &str) -> (r: bool)
    ensures
        r == (spec_trim(s@).len() == 0),
{
    trim_str(s).is_empty()
}

/// Where a header line splits: `None` when it has no colon (such a line
/// is ignored), otherwise the trimmed name before the first colon and
/// the trimmed value after it.
pub open spec fn spec_split_header_line(l: Seq<char>) -> Option<(Seq<char>, Seq<char>)> {
    let c = colon_pos(l);
    if c == l.len() {
        None
    } else {
        Some((spec_trim(l.subrange(0, c)), spec_trim(l.subrange(c + 1, l.len() as int))))
    }
}

/// Splits a header line on its first colon and trims name and value.
pub fn split_header_line(l: &str) -> (r: Option<(String, String)>)
    ensures
        match r {
            Some(kv) => spec_split_header_line(l@) == Some((kv.0@, kv.1@)),
            None => spec_split_header_line(l@) is None,
        },
{
    let n = l.unicode_len();
    let mut i: usize = 0;
    while i < n && l.get_char(i) != ':'
        invariant
            i <= n,
            n == l@.len(),
            forall|j: int| 0 <= j < i ==> l@[j] != ':',
        decreases n - i,
    {
        i = i + 1;
    }
    proof {
        lemma_count_while_is(l@, not_colon_pred(), i as int);
    }
    if i == n {
        None
    } else {
        let key = trim_str(l.substring_char(0, i)).to_owned();
        let value = trim_str(l.substring_char(i + 1, n)).to_owned();
        Some((key, value))
    }
}

/// The first index at or after `from` holding a non-whitespace
/// character, or the end of the string.
fn skip_ws_from(s: &str, from: usize) -> (r: usize)
    requires
        from <= s@.len(),
    ensures
        from <= r <= s@.len(),
        r - from == ws_run_len(s@.skip(from as int)),
        forall|j: int| from <= j < r ==> is_ws_char(s@[j]),
        r < s@.len() ==> !is_ws_char(s@[r as int]),
{
    let n = s.unicode_len();
    let mut r: usize = from;
    while r < n && is_ws(s.get_char(r))
        invariant
            from <= r <= n,
            n == s@.len(),
            forall|j: int| from <= j < r ==> is_ws_char(s@[j]),
        decreases n - r,
    {
        r = r + 1;
    }
    proof {
        let t = s@.skip(from as int);
        assert forall|j: int| 0 <= j < r - from implies (ws_pred())(t[j]) by {
            assert(t[j] == s@[j + from]);
        }
        if r - from < t.len() {
            assert(t[r - from] == s@[r as int]);
        }
        lemma_count_while_is(t, ws_pred(), r - from);
    }
    r
}

/// The first index at or after `from` holding a whitespace character, or
/// the end of the string.
fn skip_tok_from(s: &str, from: usize) -> (r: usize)
    requires
        from <= s@.len(),
    ensures
        from <= r <= s@.len(),
        r - from == tok_run_len(s@.skip(from as int)),
        forall|j: int| from <= j < r ==> !is_ws_char(s@[j]),
        r < s@.len() ==> is_ws_char(s@[r as int]),
{
    let n = s.unicode_len();
    let mut r: usize = from;
    while r < n && !is_ws(s.get_char(r))
        invariant
            from <= r <= n,
            n == s@.len(),
            forall|j: int| from <= j < r ==> !is_ws_char(s@[j]),
        decreases n - r,
    {
        r = r + 1;
    }
    proof {
        let t = s@.skip(from as int);
        assert forall|j: int| 0 <= j < r - from implies (tok_pred())(t[j]) by {
            assert(t[j] == s@[j + from]);
        }
        if r - from < t.len() {
            assert(t[r - from] == s@[r as int]);
        }
        lemma_count_while_is(t, tok_pred(), r - from);
    }
    r
}

/// The first three whitespace-separated tokens of `s`: the bounds of
/// token `k+1` pick up where token `k` ended.  A missing token is the
/// empty sequence.
pub open spec fn spec_split3(s: Seq<char>) -> (Seq<char>, Seq<char>, Seq<char>) {
    let a0 = ws_run_len(s);
    let b0 = a0 + tok_run_len(s.skip(a0));
    let a1 = b0 + ws_run_len(s.skip(b0));
    let b1 = a1 + tok_run_len(s.skip(a1));
    let a2 = b1 + ws_run_len(s.skip(b1));
    let b2 = a2 + tok_run_len(s.skip(a2));
    (s.subrange(a0, b0), s.subrange(a1, b1), s.subrange(a2, b2))
}

/// Splits a request line on whitespace into its first three tokens;
/// missing tokens come back empty.
pub fn split3(line: &str) -> (r: (String, String, String))
    ensures
        (r.0@, r.1@, r.2@) == spec_split3(line@),
{
    let a0 = skip_ws_from(line, 0);
    let b0 = skip_tok_from(line, a0);
    let a1 = skip_ws_from(line, b0);
    let b1 = skip_tok_from(line, a1);
    let a2 = skip_ws_from(line, b1);
    let b2 = skip_tok_from(line, a2);
    proof {
        assert(line@.skip(0) =~= line@);
    }
    (
        line.substring_char(a0, b0).to_owned(),
        line.substring_char(a1, b1).to_owned(),
        line.substring_char(a2, b2).to_owned(),
    )
}

/// The decimal digit characters.
pub open spec fn spec_digit(d: int) -> char {
    if d == 0 {
        '0'
    } else if d == 1 {
        '1'
    } else if d == 2 {
        '2'
    } else if d == 3 {
        '3'
    } else if d == 4 {
        '4'
    } else if d == 5 {
        '5'
    } else if d == 6 {
        '6'
    } else if d == 7 {
        '7'
    } else if d == 8 {
        '8'
    } else {
        '9'
    }
}

/// The usual decimal rendering of a nonnegative integer: no sign, no
/// leading zero except for zero itself.
pub open spec fn spec_dec(n: int) -> Seq<char>
    recommends
        n >= 0,
    decreases n,
{
    if n < 10 {
        seq![spec_digit(n)]
    } else {
        spec_dec(n / 10).push(spec_digit(n % 10))
    }
}

/// One decimal digit as a string slice.
fn digit_str(d: usize) -> (r: &'static str)
    requires
        d < 10,
    ensures
        r@ == seq![spec_digit(d as int)],
{
    proof {
        reveal_strlit("0");
        reveal_strlit("1");
        reveal_strlit("2");
        reveal_strlit("3");
        reveal_strlit("4");
        reveal_strlit("5");
        reveal_strlit("6");
        reveal_strlit("7");
        reveal_strlit("8");
        reveal_strlit("9");
    }
    let r = if d == 0 {
        "0"
    } else if d == 1 {
        "1"
    } else if d == 2 {
        "2"
    } else if d == 3 {
        "3"
    } else if d == 4 {
        "4"
    } else if d == 5 {
        "5"
    } else if d == 6 {
        "6"
    } else if d == 7 {
        "7"
    } else if d == 8 {
        "8"
    } else {
        "9"
    };
    proof {
        assert(r@ =~= seq![spec_digit(d as int)]);
    }
    r
}

/// Renders a number in decimal.
pub fn dec_string(n: usize) -> (r: String)
    ensures
        r@ == spec_dec(n as int),
    decreases n,
{
    if n < 10 {
        String::from_str(digit_str(n))
    } else {
        let mut s = dec_string(n / 10);
        s.append(digit_str(n % 10));
        proof {
            assert(s@ =~= spec_dec(n as int));
        }
        s
    }
}

/// Whether two string slices hold the same characters.
pub fn str_eq(a: &str, b: &str) -> (r: bool)
    ensures
        r == (a@ == b@),
{
    let alen = a.unicode_len();
    let blen = b.unicode_len();
    if alen != blen {
        return false;
    }
    let mut i: usize = 0;
    while i < alen
        invariant
            i <= alen,
            alen == a@.len(),
            alen == b@.len(),
            forall|j: int| 0 <= j < i ==> a@[j] == b@[j],
        decreases alen - i,
    {
        if a.get_char(i) != b.get_char(i) {
            return false;
        }
        i = i + 1;
    }
    proof {
        assert(a@ =~= b@);
    }
    true
}

} // verus!
