//! Reading the source duration out of the engine's diagnostic text.
//!
//! The engine reports a line of the shape
//! `  Duration: 00:01:23.45, start: 0.000000, bitrate: 128 kb/s`.
//! The first line that holds the marker `Duration:` is split on white space,
//! its second word is taken, and the commas around that word are stripped.
//! Whatever goes wrong on the way gives the fallback `"0"`.
use vstd::prelude::*;

verus! {

/// The marker that introduces the duration line.
pub open spec fn marker() -> Seq<char> {
    seq!['D', 'u', 'r', 'a', 't', 'i', 'o', 'n', ':']
}

/// The duration used when none can be read.
pub open spec fn fallback_duration() -> Seq<char> {
    seq!['0']
}

/// White space as Unicode's `White_Space` property defines it.
pub open spec fn is_space(c: char) -> bool {
    let u = c as u32;
    (0x09 <= u && u <= 0x0D) || u == 0x20 || u == 0x85 || u == 0xA0 || u == 0x1680 || (0x2000
        <= u && u <= 0x200A) || u == 0x2028 || u == 0x2029 || u == 0x202F || u == 0x205F || u
        == 0x3000
}

/// The end of the line that starts at `i`: the index of the next newline, or
/// the length of the text.
pub open spec fn line_end(s: Seq<char>, i: int) -> int
    decreases s.len() - i,
{
    if 0 <= i && i < s.len() && s[i] != '\n' {
        line_end(s, i + 1)
    } else {
        i
    }
}

/// The marker stands in `s` from index `k` on.
pub open spec fn marker_at(s: Seq<char>, k: int) -> bool {
    0 <= k && k + marker().len() <= s.len() && s.subrange(k, k + marker().len()) == marker()
}

/// The marker stands whole inside `s[a..e]`.
pub open spec fn has_marker(s: Seq<char>, a: int, e: int) -> bool {
    exists|k: int| a <= k && k + marker().len() <= e && #[trigger] marker_at(s, k)
}

/// Start and end of the first line, from the line that starts at `i` on, that
/// holds the marker.
pub open spec fn marked_line(s: Seq<char>, i: int) -> Option<(int, int)>
    decreases s.len() - i,
{
    if 0 <= i && i < s.len() {
        let e = line_end(s, i);
        if has_marker(s, i, e) {
            Some((i, e))
        } else if i <= e && e < s.len() {
            marked_line(s, e + 1)
        } else {
            None
        }
    } else {
        None
    }
}

/// The first index from `i` on, below `e`, that is not white space (or `e`).
pub open spec fn skip_space(s: Seq<char>, i: int, e: int) -> int
    decreases e - i,
{
    if 0 <= i && i < e && e <= s.len() && is_space(s[i]) {
        skip_space(s, i + 1, e)
    } else {
        i
    }
}

/// The first index from `i` on, below `e`, that is white space (or `e`).
pub open spec fn word_end(s: Seq<char>, i: int, e: int) -> int
    decreases e - i,
{
    if 0 <= i && i < e && e <= s.len() && !is_space(s[i]) {
        word_end(s, i + 1, e)
    } else {
        i
    }
}

/// Start and end of the second white-space separated word of `s[a..e]`.
pub open spec fn second_word(s: Seq<char>, a: int, e: int) -> Option<(int, int)> {
    let first_start = skip_space(s, a, e);
    let first_end = word_end(s, first_start, e);
    let start = skip_space(s, first_end, e);
    if start < e {
        Some((start, word_end(s, start, e)))
    } else {
        None
    }
}

/// The first index of `s[a..b]` that is not a comma (or `b`).
pub open spec fn trim_front(s: Seq<char>, a: int, b: int) -> int
    decreases b - a,
{
    if 0 <= a && a < b && b <= s.len() && s[a] == ',' {
        trim_front(s, a + 1, b)
    } else {
        a
    }
}

/// The end of `s[a..b]` once its trailing commas are dropped.
pub open spec fn trim_back(s: Seq<char>, a: int, b: int) -> int
    decreases b - a,
{
    if 0 <= a && a < b && b <= s.len() && s[b - 1] == ',' {
        trim_back(s, a, b - 1)
    } else {
        b
    }
}

/// The duration that the diagnostic text `s` reports.
pub open spec fn duration_text(s: Seq<char>) -> Seq<char> {
    match marked_line(s, 0) {
        Some((a, e)) => match second_word(s, a, e) {
            Some((b, f)) => {
                let x = trim_front(s, b, f);
                s.subrange(x, trim_back(s, x, f))
            },
            None => fallback_duration(),
        },
        None => fallback_duration(),
    }
}

/// The characters of `text`, in order.
fn chars_of(text: &str) -> (r: Vec<char>)
    ensures
        r@ == text@,
{
    let mut out: Vec<char> = Vec::new();
    for c in it: text.chars()
        invariant
            out@ == it.seq().take(it.index() as int),
    {
        out.push(c);
    }
    out
}

/// Whether `c` is white space.
pub fn is_space_char(c: char) -> (r: bool)
    ensures
        r == is_space(c),
{
    let u = c as u32;
    (0x09 <= u && u <= 0x0D) || u == 0x20 || u == 0x85 || u == 0xA0 || u == 0x1680 || (0x2000
        <= u && u <= 0x200A) || u == 0x2028 || u == 0x2029 || u == 0x202F || u == 0x205F || u
        == 0x3000
}

/// The `t`-th character of the marker.
fn marker_char(t: usize) -> (c: char)
    requires
        t < marker().len(),
    ensures
        c == marker()[t as int],
{
    if t == 0 {
        'D'
    } else if t == 1 {
        'u'
    } else if t == 2 {
        'r'
    } else if t == 3 {
        'a'
    } else if t == 4 {
        't'
    } else if t == 5 {
        'i'
    } else if t == 6 {
        'o'
    } else if t == 7 {
        'n'
    } else {
        ':'
    }
}

/// Whether the marker stands in `s` from index `k` on.
fn marker_at_index(s: &Vec<char>, k: usize) -> (r: bool)
    requires
        k + marker().len() <= s@.len(),
    ensures
        r == marker_at(s@, k as int),
{
    let n = s.len();
    let ghost m = marker();
    let ghost sub = s@.subrange(k as int, k + m.len());
    let mut t: usize = 0;
    while t < 9
        invariant
            m == marker(),
            m.len() == 9,
            n == s@.len(),
            sub == s@.subrange(k as int, k + m.len()),
            k + m.len() <= s@.len(),
            t <= 9,
            forall|u: int| 0 <= u < t ==> sub[u] == m[u],
        decreases 9 - t,
    {
        if s[k + t] != marker_char(t) {
            assert(sub[t as int] != m[t as int]);
            return false;
        }
        t = t + 1;
    }
    assert(sub =~= m);
    true
}

/// Whether the marker stands whole inside `s[a..e]`.
fn has_marker_in(s: &Vec<char>, a: usize, e: usize) -> (r: bool)
    requires
        a <= e <= s@.len(),
    ensures
        r == has_marker(s@, a as int, e as int),
{
    if e < 9 {
        return false;
    }
    let mut k: usize = a;
    while k <= e - 9
        invariant
            a <= k,
            9 <= e <= s@.len(),
            forall|j: int| a <= j < k ==> !#[trigger] marker_at(s@, j),
        decreases e - k,
    {
        if marker_at_index(s, k) {
            return true;
        }
        k = k + 1;
    }
    false
}

/// The end of the line that starts at `i`.
fn find_line_end(s: &Vec<char>, i: usize) -> (e: usize)
    requires
        i <= s@.len(),
    ensures
        e == line_end(s@, i as int),
        i <= e <= s@.len(),
{
    let mut j: usize = i;
    while j < s.len() && s[j] != '\n'
        invariant
            i <= j <= s@.len(),
            line_end(s@, j as int) == line_end(s@, i as int),
        decreases s@.len() - j,
    {
        j = j + 1;
    }
    j
}

/// The first index from `i` on, below `e`, that is not white space (or `e`).
fn skip_space_from(s: &Vec<char>, i: usize, e: usize) -> (r: usize)
    requires
        i <= e <= s@.len(),
    ensures
        r == skip_space(s@, i as int, e as int),
        i <= r <= e,
{
    let mut j: usize = i;
    while j < e && is_space_char(s[j])
        invariant
            i <= j <= e <= s@.len(),
            skip_space(s@, j as int, e as int) == skip_space(s@, i as int, e as int),
        decreases e - j,
    {
        j = j + 1;
    }
    j
}

/// The first index from `i` on, below `e`, that is white space (or `e`).
fn word_end_from(s: &Vec<char>, i: usize, e: usize) -> (r: usize)
    requires
        i <= e <= s@.len(),
    ensures
        r == word_end(s@, i as int, e as int),
        i <= r <= e,
{
    let mut j: usize = i;
    while j < e && !is_space_char(s[j])
        invariant
            i <= j <= e <= s@.len(),
            word_end(s@, j as int, e as int) == word_end(s@, i as int, e as int),
        decreases e - j,
    {
        j = j + 1;
    }
    j
}

/// The first index of `s[a..b]` that is not a comma (or `b`).
fn trim_front_from(s: &Vec<char>, a: usize, b: usize) -> (r: usize)
    requires
        a <= b <= s@.len(),
    ensures
        r == trim_front(s@, a as int, b as int),
        a <= r <= b,
{
    let mut j: usize = a;
    while j < b && s[j] == ','
        invariant
            a <= j <= b <= s@.len(),
            trim_front(s@, j as int, b as int) == trim_front(s@, a as int, b as int),
        decreases b - j,
    {
        j = j + 1;
    }
    j
}

/// The end of `s[a..b]` once its trailing commas are dropped.
fn trim_back_from(s: &Vec<char>, a: usize, b: usize) -> (r: usize)
    requires
        a <= b <= s@.len(),
    ensures
        r == trim_back(s@, a as int, b as int),
        a <= r <= b,
{
    let mut j: usize = b;
    while a < j && s[j - 1] == ','
        invariant
            a <= j <= b <= s@.len(),
            trim_back(s@, a as int, j as int) == trim_back(s@, a as int, b as int),
        decreases j - a,
    {
        j = j - 1;
    }
    j
}

/// The fallback duration, `"0"`.
pub fn fallback() -> (r: String)
    ensures
        r@ == fallback_duration(),
{
    let r = String::from_str("0");
    proof {
        reveal_strlit("0");
    }
    assert(r@ =~= fallback_duration());
    r
}

/// The duration that the diagnostic text reports: the second word of the
/// first line holding `Duration:`, with the commas around it stripped, or
/// `"0"` where there is no such line or word.
pub fn parse_duration(text: &str) -> (r: String)
    ensures
        r@ == duration_text(text@),
{
    let s = chars_of(text);
    let n = s.len();
    let mut i: usize = 0;
    while i < n
        invariant
            n == s@.len(),
            s@ == text@,
            i <= n,
            marked_line(s@, i as int) == marked_line(s@, 0),
        decreases n - i,
    {
        let e = find_line_end(&s, i);
        if has_marker_in(&s, i, e) {
            let first_start = skip_space_from(&s, i, e);
            let first_end = word_end_from(&s, first_start, e);
            let start = skip_space_from(&s, first_end, e);
            if start < e {
                let end = word_end_from(&s, start, e);
                let x = trim_front_from(&s, start, end);
                let y = trim_back_from(&s, x, end);
                return String::from_str(text.substring_char(x, y));
            }
            return fallback();
        }
        if e < n {
            i = e + 1;
        } else {
            i = n;
        }
    }
    fallback()
}

/// The duration of the source, from the probe's diagnostic text; `None`
/// stands for a probe that gave no readable text (it could not be launched,
/// or its text was not valid UTF-8), and gives `"0"`.
pub fn duration_from_probe(diagnostics: Option<&str>) -> (r: String)
    ensures
        r@ == match diagnostics {
            Some(t) => duration_text(t@),
            None => fallback_duration(),
        },
{
    match diagnostics {
        Some(t) => parse_duration(t),
        None => fallback(),
    }
}

/// From any line start `i` on, a text that holds the marker nowhere has no
/// marked line.
proof fn lemma_no_marked_line_from(s: Seq<char>, i: int)
    requires
        forall|k: int| !#[trigger] marker_at(s, k),
    ensures
        marked_line(s, i) is None,
    decreases s.len() - i,
{
    if 0 <= i && i < s.len() {
        let e = line_end(s, i);
        if i <= e && e < s.len() {
            lemma_no_marked_line_from(s, e + 1);
        }
    }
}

/// A diagnostic text that holds no `Duration:` marker reports the fallback
/// duration `"0"`.
pub proof fn lemma_no_marker_gives_fallback(s: Seq<char>)
    requires
        forall|k: int| !#[trigger] marker_at(s, k),
    ensures
        duration_text(s) == fallback_duration(),
{
    lemma_no_marked_line_from(s, 0);
}

} // verus!
