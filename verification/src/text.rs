//! Character-level text helpers shared by the whole library.
//!
//! All logic works on `Seq<char>` views; the only unverified pieces are the
//! conversions between `str`/`String` and `Vec<char>` and the Unicode tables
//! of std (case mapping and the alphanumeric property).

use vstd::prelude::*;

verus! {

/// Rust's `char::is_whitespace`: the Unicode `White_Space` property.
pub open spec fn is_ws(c: char) -> bool {
    let u = c as u32;
    ||| 9 <= u <= 13
    ||| u == 32
    ||| u == 0x85
    ||| u == 0xA0
    ||| u == 0x1680
    ||| 0x2000 <= u <= 0x200A
    ||| u == 0x2028
    ||| u == 0x2029
    ||| u == 0x202F
    ||| u == 0x205F
    ||| u == 0x3000
}

/// `s` with leading whitespace removed.
pub open spec fn trim_left(s: Seq<char>) -> Seq<char>
    decreases s.len(),
{
    if s.len() > 0 && is_ws(s[0]) {
        trim_left(s.drop_first())
    } else {
        s
    }
}

/// `s` with trailing whitespace removed.
pub open spec fn trim_right(s: Seq<char>) -> Seq<char>
    decreases s.len(),
{
    if s.len() > 0 && is_ws(s.last()) {
        trim_right(s.drop_last())
    } else {
        s
    }
}

/// Rust's `str::trim`.
pub open spec fn trim(s: Seq<char>) -> Seq<char> {
    trim_right(trim_left(s))
}

/// Every character is whitespace (so `trim` gives the empty text).
pub open spec fn blank(s: Seq<char>) -> bool {
    forall|i: int| 0 <= i < s.len() ==> is_ws(#[trigger] s[i])
}

pub fn is_ws_char(c: char) -> (r: bool)
    ensures
        r == is_ws(c),
{
    let u = c as u32;
    (9 <= u && u <= 13) || u == 32 || u == 0x85 || u == 0xA0 || u == 0x1680 || (0x2000 <= u && u
        <= 0x200A) || u == 0x2028 || u == 0x2029 || u == 0x202F || u == 0x205F || u == 0x3000
}

proof fn lemma_trim_left_skip(s: Seq<char>, i: int)
    requires
        0 <= i <= s.len(),
        forall|k: int| 0 <= k < i ==> is_ws(#[trigger] s[k]),
    ensures
        trim_left(s) == trim_left(s.subrange(i, s.len() as int)),
    decreases i,
{
    if i > 0 {
        assert(s.drop_first() =~= s.subrange(1, s.len() as int));
        let t = s.drop_first();
        assert forall|k: int| 0 <= k < i - 1 implies is_ws(#[trigger] t[k]) by {
            assert(t[k] == s[k + 1]);
        }
        lemma_trim_left_skip(t, i - 1);
        assert(t.subrange(i - 1, t.len() as int) =~= s.subrange(i, s.len() as int));
    } else {
        assert(s.subrange(0, s.len() as int) =~= s);
    }
}

proof fn lemma_trim_right_cut(s: Seq<char>, j: int)
    requires
        0 <= j <= s.len(),
        forall|k: int| j <= k < s.len() ==> is_ws(#[trigger] s[k]),
    ensures
        trim_right(s) == trim_right(s.subrange(0, j)),
    decreases s.len() - j,
{
    if j < s.len() {
        let t = s.drop_last();
        assert forall|k: int| j <= k < t.len() implies is_ws(#[trigger] t[k]) by {
            assert(t[k] == s[k]);
        }
        lemma_trim_right_cut(t, j);
        assert(t.subrange(0, j) =~= s.subrange(0, j));
    } else {
        assert(s.subrange(0, j) =~= s);
    }
}

/// Characters `lo..hi` of `s` as a new vector.
pub fn sub_chars(s: &Vec<char>, lo: usize, hi: usize) -> (r: Vec<char>)
    requires
        lo <= hi <= s.len(),
    ensures
        r@ == s@.subrange(lo as int, hi as int),
{
    let mut r: Vec<char> = Vec::new();
    let mut k = lo;
    while k < hi
        invariant
            lo <= k <= hi <= s.len(),
            r@ == s@.subrange(lo as int, k as int),
        decreases hi - k,
    {
        r.push(s[k]);
        k += 1;
        assert(r@ =~= s@.subrange(lo as int, k as int));
    }
    r
}

/// Rust's `str::trim` on a character vector.
pub fn trim_chars(s: &Vec<char>) -> (r: Vec<char>)
    ensures
        r@ == trim(s@),
{
    let n = s.len();
    let mut i: usize = 0;
    while i < n && is_ws_char(s[i])
        invariant
            i <= n == s@.len(),
            forall|k: int| 0 <= k < i ==> is_ws(#[trigger] s@[k]),
        decreases n - i,
    {
        i += 1;
    }
    proof {
        lemma_trim_left_skip(s@, i as int);
    }
    let ghost u = s@.subrange(i as int, n as int);
    assert(trim_left(u) == u);
    let mut j: usize = n;
    while j > i && is_ws_char(s[j - 1])
        invariant
            i <= j <= n == s@.len(),
            forall|k: int| j <= k < n ==> is_ws(#[trigger] s@[k]),
        decreases j - i,
    {
        j -= 1;
    }
    proof {
        assert forall|k: int| (j - i) <= k < u.len() implies is_ws(#[trigger] u[k]) by {
            assert(u[k] == s@[k + i]);
        }
        lemma_trim_right_cut(u, j - i);
        assert(u.subrange(0, j - i) =~= s@.subrange(i as int, j as int));
    }
    sub_chars(s, i, j)
}


/// The characters of `s`, in order, read through `str::chars`.
pub(crate) fn chars_of(s: &str) -> (r: Vec<char>)
    ensures
        r@ == s@,
{
    broadcast use vstd::string::axiom_spec_iter;
    let mut out: Vec<char> = Vec::new();
    for c in it: s.chars()
        invariant
            it.seq() == s@,
            out@ == it.seq().take(it.index() as int),
    {
        out.push(c);
        assert(out@ =~= it.seq().take(it.index() as int + 1));
    }
    assert(out@ =~= s@);
    out
}

/// A `String` built from characters (std's `FromIterator<&char> for String`).
#[verifier::external_body]
pub(crate) fn string_of(cs: &[char]) -> (r: String)
    ensures
        r@ == cs@,
{
    cs.iter().collect()
}

/// Equality of two strings: the same characters in the same order.
pub(crate) fn str_eq(a: &str, b: &str) -> (r: bool)
    ensures
        r == (a@ == b@),
{
    let ca = chars_of(a);
    let cb = chars_of(b);
    chars_eq(ca.as_slice(), cb.as_slice())
}

/// Equality of two character slices.
pub fn chars_eq(a: &[char], b: &[char]) -> (r: bool)
    ensures
        r == (a@ == b@),
{
    if a.len() != b.len() {
        return false;
    }
    let mut i: usize = 0;
    while i < a.len()
        invariant
            i <= a@.len() == b@.len(),
            forall|k: int| 0 <= k < i ==> a@[k] == b@[k],
        decreases a.len() - i,
    {
        if a[i] != b[i] {
            return false;
        }
        i += 1;
    }
    assert(a@ =~= b@);
    true
}

pub proof fn lemma_trim_empty_iff_blank(s: Seq<char>)
    ensures
        (trim(s).len() == 0) <==> blank(s),
    decreases s.len(),
{
    lemma_trim_left_blank(s);
    if trim_left(s).len() == 0 {
    } else {
        lemma_trim_left_first(s);
    }
}

proof fn lemma_trim_left_blank(s: Seq<char>)
    ensures
        (trim_left(s).len() == 0) <==> blank(s),
    decreases s.len(),
{
    if s.len() > 0 {
        lemma_trim_left_blank(s.drop_first());
        if blank(s) {
            assert forall|i: int| 0 <= i < s.drop_first().len() implies is_ws(
                #[trigger] s.drop_first()[i],
            ) by {
                assert(s.drop_first()[i] == s[i + 1]);
            }
        }
        if is_ws(s[0]) && blank(s.drop_first()) {
            assert forall|i: int| 0 <= i < s.len() implies is_ws(#[trigger] s[i]) by {
                if i > 0 {
                    assert(s[i] == s.drop_first()[i - 1]);
                }
            }
        }
    }
}

/// A non-empty left-trimmed text starts with a non-whitespace character, so
/// right-trimming keeps at least that character.
proof fn lemma_trim_left_first(s: Seq<char>)
    requires
        trim_left(s).len() > 0,
    ensures
        !is_ws(trim_left(s)[0]),
        trim(s).len() > 0,
    decreases s.len(),
{
    if s.len() > 0 && is_ws(s[0]) {
        lemma_trim_left_first(s.drop_first());
    } else {
        lemma_trim_right_keeps_head(s);
    }
}

proof fn lemma_trim_right_keeps_head(s: Seq<char>)
    requires
        s.len() > 0,
        !is_ws(s[0]),
    ensures
        trim_right(s).len() > 0,
        trim_right(s)[0] == s[0],
    decreases s.len(),
{
    if is_ws(s.last()) {
        assert(s.len() > 1);
        lemma_trim_right_keeps_head(s.drop_last());
    }
}

/// Whether `s` holds only whitespace (Rust's `s.trim().is_empty()`).
pub fn is_blank(s: &str) -> (r: bool)
    ensures
        r == (trim(s@).len() == 0),
        r == blank(s@),
{
    let cs = chars_of(s);
    let t = trim_chars(&cs);
    proof {
        lemma_trim_empty_iff_blank(s@);
    }
    t.len() == 0
}

/// Rust's `str::trim` returning an owned `String`.
pub fn trim_str(s: &str) -> (r: String)
    ensures
        r@ == trim(s@),
{
    let cs = chars_of(s);
    let t = trim_chars(&cs);
    string_of(t.as_slice())
}


/// `p` is a prefix of `s` (Rust's `starts_with`).
pub open spec fn has_prefix(s: Seq<char>, p: Seq<char>) -> bool {
    p.len() <= s.len() && s.subrange(0, p.len() as int) == p
}

/// `p` is a suffix of `s` (Rust's `ends_with`).
pub open spec fn has_suffix(s: Seq<char>, p: Seq<char>) -> bool {
    p.len() <= s.len() && s.subrange(s.len() - p.len(), s.len() as int) == p
}

/// `needle` occurs in `hay` starting at position `i`.
pub open spec fn occurs_at(hay: Seq<char>, needle: Seq<char>, i: int) -> bool {
    0 <= i && i + needle.len() <= hay.len() && hay.subrange(i, i + needle.len()) == needle
}

/// `needle` occurs somewhere in `hay` (Rust's `str::contains` with a `&str`).
pub open spec fn has_infix(hay: Seq<char>, needle: Seq<char>) -> bool {
    exists|i: int| occurs_at(hay, needle, i)
}

fn matches_at(hay: &[char], needle: &[char], i: usize) -> (r: bool)
    requires
        i + needle@.len() <= hay@.len(),
    ensures
        r == occurs_at(hay@, needle@, i as int),
{
    let n = hay.len();
    let mut k: usize = 0;
    while k < needle.len()
        invariant
            n == hay@.len(),
            k <= needle@.len(),
            i + needle@.len() <= hay@.len(),
            forall|m: int| 0 <= m < k ==> hay@[i + m] == needle@[m],
        decreases needle.len() - k,
    {
        assert(i + k < hay@.len());
        if hay[i + k] != needle[k] {
            assert(hay@.subrange(i as int, i + needle@.len())[k as int] != needle@[k as int]);
            return false;
        }
        k += 1;
    }
    assert(hay@.subrange(i as int, i + needle@.len()) =~= needle@);
    true
}

pub fn chars_starts_with(s: &[char], p: &[char]) -> (r: bool)
    ensures
        r == has_prefix(s@, p@),
{
    if p.len() > s.len() {
        return false;
    }
    matches_at(s, p, 0)
}

pub fn chars_ends_with(s: &[char], p: &[char]) -> (r: bool)
    ensures
        r == has_suffix(s@, p@),
{
    if p.len() > s.len() {
        return false;
    }
    matches_at(s, p, s.len() - p.len())
}

pub fn chars_contains(hay: &[char], needle: &[char]) -> (r: bool)
    ensures
        r == has_infix(hay@, needle@),
{
    if needle.len() > hay.len() {
        assert(!has_infix(hay@, needle@));
        return false;
    }
    let last = hay.len() - needle.len();
    let mut i: usize = 0;
    while i <= last
        invariant
            last == hay@.len() - needle@.len(),
            i <= last,
            forall|m: int| 0 <= m < i ==> !occurs_at(hay@, needle@, m),
        ensures
            forall|m: int| 0 <= m <= last ==> !occurs_at(hay@, needle@, m),
        decreases last - i,
    {
        if matches_at(hay, needle, i) {
            return true;
        }
        if i == last {
            i = last;
            break;
        }
        i += 1;
    }
    assert forall|m: int| !occurs_at(hay@, needle@, m) by {
        if 0 <= m && m + needle@.len() <= hay@.len() {
            assert(m <= last);
        }
    }
    false
}

pub fn str_contains(hay: &str, needle: &str) -> (r: bool)
    ensures
        r == has_infix(hay@, needle@),
{
    let h = chars_of(hay);
    let n = chars_of(needle);
    chars_contains(h.as_slice(), n.as_slice())
}

pub fn str_starts_with(s: &str, p: &str) -> (r: bool)
    ensures
        r == has_prefix(s@, p@),
{
    let h = chars_of(s);
    let n = chars_of(p);
    chars_starts_with(h.as_slice(), n.as_slice())
}

/// Rust's `[String]::join(sep)` over the views of the parts.
pub open spec fn join(parts: Seq<Seq<char>>, sep: Seq<char>) -> Seq<char>
    decreases parts.len(),
{
    if parts.len() == 0 {
        Seq::empty()
    } else if parts.len() == 1 {
        parts[0]
    } else {
        join(parts.drop_last(), sep) + sep + parts.last()
    }
}

/// The views of a vector of strings.
pub open spec fn views(v: Seq<String>) -> Seq<Seq<char>> {
    v.map_values(|s: String| s@)
}

/// Joins owned strings with a separator.
pub fn join_strings(parts: &Vec<String>, sep: &str) -> (r: String)
    ensures
        r@ == join(views(parts@), sep@),
{
    let mut out = String::new();
    let ghost vs = views(parts@);
    let mut i: usize = 0;
    while i < parts.len()
        invariant
            i <= parts@.len(),
            vs == views(parts@),
            out@ == join(vs.take(i as int), sep@),
        decreases parts.len() - i,
    {
        assert(vs.take((i + 1) as int).drop_last() =~= vs.take(i as int));
        if i > 0 {
            out.append(sep);
        }
        out.append(parts[i].as_str());
        i += 1;
        assert(vs.take(i as int).last() == parts@[i - 1]@);
    }
    assert(vs.take(parts@.len() as int) =~= vs);
    out
}

/// An ASCII character.
pub open spec fn is_ascii_char(c: char) -> bool {
    (c as u32) < 128
}

/// Text made of ASCII characters only.
pub open spec fn all_ascii(s: Seq<char>) -> bool {
    forall|i: int| 0 <= i < s.len() ==> is_ascii_char(#[trigger] s[i])
}

/// An ASCII letter or digit.
pub open spec fn ascii_alnum(c: char) -> bool {
    ('0' <= c <= '9') || ('a' <= c <= 'z') || ('A' <= c <= 'Z')
}

/// std's `str::to_lowercase` on text that is not all ASCII (full Unicode
/// case mapping), as a name: the mapping tables take pages to state.
pub uninterp spec fn str_lowercase_unicode(s: Seq<char>) -> Seq<char>;

/// std's `char::to_lowercase`, collected, on a character beyond ASCII: its
/// lowercase mapping (one to three characters), as a name.
pub uninterp spec fn char_lowercase_unicode(c: char) -> Seq<char>;

/// std's `char::is_alphanumeric` (Unicode `Alphabetic` or `Numeric`) on a
/// character beyond ASCII, as a name.
pub uninterp spec fn char_is_alphanumeric_unicode(c: char) -> bool;

/// std's `str::to_lowercase`: on ASCII text each letter is lowered and the
/// rest is kept; other text goes through the Unicode mapping.
pub open spec fn str_lowercase(s: Seq<char>) -> Seq<char> {
    if all_ascii(s) {
        s.map_values(|c: char| ascii_lower(c))
    } else {
        str_lowercase_unicode(s)
    }
}

/// std's `char::to_lowercase`, collected: an ASCII character gives its
/// ASCII lowercase; another goes through the Unicode mapping.
pub open spec fn char_lowercase(c: char) -> Seq<char> {
    if is_ascii_char(c) {
        seq![ascii_lower(c)]
    } else {
        char_lowercase_unicode(c)
    }
}

/// std's `char::is_alphanumeric`: among ASCII characters exactly the
/// letters and digits; beyond ASCII the Unicode properties decide.
pub open spec fn char_is_alphanumeric(c: char) -> bool {
    if is_ascii_char(c) {
        ascii_alnum(c)
    } else {
        char_is_alphanumeric_unicode(c)
    }
}

/// Calls `str::to_lowercase`. On ASCII text the result is the ASCII
/// lowercase (the Unicode lowercase mapping of an ASCII character is its
/// ASCII lowercase); on other text it is the named Unicode mapping of the
/// argument. Nothing more is claimed of the tables.
#[verifier::external_body]
pub(crate) fn lowercase(s: &str) -> (r: String)
    ensures
        r@ == str_lowercase(s@),
        !all_ascii(s@) ==> r@ == str_lowercase_unicode(s@),
{
    s.to_lowercase()
}

/// Calls `char::to_lowercase` and collects the characters it yields: the
/// ASCII lowercase for an ASCII character, the named mapping otherwise.
#[verifier::external_body]
pub(crate) fn lowercase_char(c: char) -> (r: Vec<char>)
    ensures
        r@ == char_lowercase(c),
        !is_ascii_char(c) ==> r@ == char_lowercase_unicode(c),
{
    c.to_lowercase().collect()
}

/// Calls `char::is_alphanumeric`: for an ASCII character, whether it is a
/// letter or a digit; otherwise the named Unicode property.
#[verifier::external_body]
pub(crate) fn is_alphanumeric(c: char) -> (r: bool)
    ensures
        r == char_is_alphanumeric(c),
        !is_ascii_char(c) ==> r == char_is_alphanumeric_unicode(c),
{
    c.is_alphanumeric()
}

/// Rust's `char::is_ascii_digit`.
pub open spec fn is_digit(c: char) -> bool {
    '0' <= c <= '9'
}

/// Value of an ASCII digit.
pub open spec fn digit_value(c: char) -> nat {
    (c as u32 - '0' as u32) as nat
}

/// Rust's `char::to_ascii_lowercase`.
pub open spec fn ascii_lower(c: char) -> char {
    if 'A' <= c <= 'Z' {
        ((c as u32) + 32) as char
    } else {
        c
    }
}

/// Rust's `char::to_ascii_uppercase`.
pub open spec fn ascii_upper(c: char) -> char {
    if 'a' <= c <= 'z' {
        ((c as u32) - 32) as char
    } else {
        c
    }
}

pub fn to_ascii_lowercase(s: &str) -> (r: String)
    ensures
        r@ == s@.map_values(|c: char| ascii_lower(c)),
{
    let cs = chars_of(s);
    let mut out: Vec<char> = Vec::new();
    let mut i: usize = 0;
    while i < cs.len()
        invariant
            i <= cs@.len(),
            out@ == cs@.take(i as int).map_values(|c: char| ascii_lower(c)),
        decreases cs.len() - i,
    {
        let c = cs[i];
        let l = if 'A' <= c && c <= 'Z' {
            (((c as u32) + 32) as u8) as char
        } else {
            c
        };
        out.push(l);
        i += 1;
        assert(out@ =~= cs@.take(i as int).map_values(|c: char| ascii_lower(c)));
    }
    assert(cs@.take(cs@.len() as int) =~= cs@);
    string_of(out.as_slice())
}

pub fn to_ascii_uppercase(s: &str) -> (r: String)
    ensures
        r@ == s@.map_values(|c: char| ascii_upper(c)),
{
    let cs = chars_of(s);
    let mut out: Vec<char> = Vec::new();
    let mut i: usize = 0;
    while i < cs.len()
        invariant
            i <= cs@.len(),
            out@ == cs@.take(i as int).map_values(|c: char| ascii_upper(c)),
        decreases cs.len() - i,
    {
        let c = cs[i];
        let l = if 'a' <= c && c <= 'z' {
            (((c as u32) - 32) as u8) as char
        } else {
            c
        };
        out.push(l);
        i += 1;
        assert(out@ =~= cs@.take(i as int).map_values(|c: char| ascii_upper(c)));
    }
    assert(cs@.take(cs@.len() as int) =~= cs@);
    string_of(out.as_slice())
}


/// The maximal runs of non-whitespace characters of `s`, in order.
pub open spec fn words(s: Seq<char>) -> Seq<Seq<char>>
    decreases s.len(),
{
    if s.len() == 0 {
        Seq::empty()
    } else if is_ws(s.last()) {
        words(s.drop_last())
    } else if s.len() > 1 && !is_ws(s[s.len() - 2]) {
        let w = words(s.drop_last());
        w.update(w.len() - 1, w.last().push(s.last()))
    } else {
        words(s.drop_last()).push(seq![s.last()])
    }
}

/// Rust's `s.split_whitespace().collect::<Vec<_>>().join(" ")`: the words of
/// `s` separated by single spaces.
pub open spec fn collapse(s: Seq<char>) -> Seq<char> {
    join(words(s), " "@)
}

/// Each word is non-empty and holds no whitespace.
pub open spec fn proper_words(w: Seq<Seq<char>>) -> bool {
    forall|k: int|
        #![trigger w[k]]
        0 <= k < w.len() ==> w[k].len() > 0 && forall|j: int|
            0 <= j < w[k].len() ==> !is_ws(#[trigger] w[k][j])
}

pub proof fn lemma_words_proper(s: Seq<char>)
    ensures
        proper_words(words(s)),
        s.len() > 0 && !is_ws(s.last()) ==> words(s).len() > 0,
        s.len() == 0 ==> words(s).len() == 0,
    decreases s.len(),
{
    if s.len() > 0 {
        lemma_words_proper(s.drop_last());
        let w = words(s.drop_last());
        if !is_ws(s.last()) && s.len() > 1 && !is_ws(s[s.len() - 2]) {
            assert(s.drop_last().last() == s[s.len() - 2]);
            let nw = w.update(w.len() - 1, w.last().push(s.last()));
            assert forall|k: int| 0 <= k < nw.len() implies nw[k].len() > 0 && forall|j: int|
                0 <= j < nw[k].len() ==> !is_ws(#[trigger] nw[k][j]) by {
                if k == w.len() - 1 {
                    assert forall|j: int| 0 <= j < nw[k].len() implies !is_ws(#[trigger] nw[k][j]) by {
                        if j < w[k].len() {
                            assert(nw[k][j] == w[k][j]);
                        }
                    }
                }
            }
        }
    }
}

pub(crate) proof fn lemma_join_push(w: Seq<Seq<char>>, x: Seq<char>, sep: Seq<char>)
    ensures
        w.len() == 0 ==> join(w.push(x), sep) == x,
        w.len() > 0 ==> join(w.push(x), sep) == join(w, sep) + sep + x,
{
    assert(w.push(x).drop_last() =~= w);
}

pub(crate) proof fn lemma_join_extend_last(w: Seq<Seq<char>>, c: char, sep: Seq<char>)
    requires
        w.len() > 0,
    ensures
        join(w.update(w.len() - 1, w.last().push(c)), sep) == join(w, sep).push(c),
{
    let nw = w.update(w.len() - 1, w.last().push(c));
    assert(nw.drop_last() =~= w.drop_last());
    if w.len() == 1 {
    } else {
        assert(join(nw, sep) == join(w.drop_last(), sep) + sep + w.last().push(c));
        assert(join(w, sep) == join(w.drop_last(), sep) + sep + w.last());
        assert((join(w.drop_last(), sep) + sep + w.last()).push(c) =~= join(w.drop_last(), sep)
            + sep + w.last().push(c));
    }
}

pub(crate) proof fn lemma_join_last(w: Seq<Seq<char>>, sep: Seq<char>)
    requires
        w.len() > 0,
        w.last().len() > 0,
    ensures
        join(w, sep).len() > 0,
        join(w, sep).last() == w.last().last(),
{
    if w.len() > 1 {
        assert(join(w, sep) == join(w.drop_last(), sep) + sep + w.last());
    }
}

/// `s` holds no whitespace.
pub open spec fn no_ws(s: Seq<char>) -> bool {
    forall|j: int| 0 <= j < s.len() ==> !is_ws(#[trigger] s[j])
}

proof fn lemma_words_of_word(y: Seq<char>)
    requires
        y.len() > 0,
        no_ws(y),
    ensures
        words(y) == seq![y],
    decreases y.len(),
{
    assert(!is_ws(y[y.len() - 1]));
    if y.len() > 1 {
        assert(y.drop_last().len() > 0);
        lemma_words_of_word(y.drop_last());
        assert(!is_ws(y[y.len() - 2]));
        assert(y.drop_last().last() == y[y.len() - 2]);
        assert(y.drop_last().push(y.last()) =~= y);
        assert(seq![y.drop_last()].update(0, y.drop_last().push(y.last())) =~= seq![y]);
        assert(words(y) == seq![y.drop_last()].update(0, y.drop_last().push(y.last())));
    } else {
        assert(y.drop_last() =~= Seq::<char>::empty());
        assert(words(y.drop_last()) == Seq::<Seq<char>>::empty());
        assert(seq![y.last()] =~= y);
        assert(words(y) == Seq::<Seq<char>>::empty().push(seq![y.last()]));
        assert(Seq::<Seq<char>>::empty().push(seq![y.last()]) =~= seq![y]);
    }
}

proof fn lemma_words_after_space(x: Seq<char>, y: Seq<char>)
    requires
        x.len() > 0,
        is_ws(x.last()),
        y.len() > 0,
        no_ws(y),
    ensures
        words(x + y) == words(x).push(y),
    decreases y.len(),
{
    let s = x + y;
    assert(s.last() == y[y.len() - 1]);
    if y.len() == 1 {
        assert(s.drop_last() =~= x);
        assert(s[s.len() - 2] == x.last());
        assert(seq![s.last()] =~= y);
    } else {
        assert(s.drop_last() =~= x + y.drop_last());
        lemma_words_after_space(x, y.drop_last());
        assert(s[s.len() - 2] == y[y.len() - 2]);
        let w = words(x).push(y.drop_last());
        assert(y.drop_last().push(y.last()) =~= y);
        assert(s.last() == y.last());
        assert(w.last() == y.drop_last());
        assert(w.update(w.len() - 1, w.last().push(s.last())) =~= words(x).push(y));
    }
}

proof fn lemma_words_join(w: Seq<Seq<char>>)
    requires
        proper_words(w),
    ensures
        words(join(w, " "@)) == w,
    decreases w.len(),
{
    reveal_strlit(" ");
    if w.len() == 0 {
        assert(words(Seq::<char>::empty()) =~= w);
    } else if w.len() == 1 {
        assert(w[0].len() > 0 && no_ws(w[0]));
        lemma_words_of_word(w[0]);
        assert(seq![w[0]] =~= w);
    } else {
        let init = w.drop_last();
        assert(proper_words(init)) by {
            assert forall|k: int| 0 <= k < init.len() implies init[k].len() > 0 && forall|j: int|
                0 <= j < init[k].len() ==> !is_ws(#[trigger] init[k][j]) by {
                assert(init[k] == w[k]);
            }
        }
        lemma_words_join(init);
        let a = join(init, " "@);
        let x = a + " "@;
        assert(x.last() == ' ');
        assert(x.drop_last() =~= a);
        assert(words(x) == words(a));
        assert(w.last() == w[w.len() - 1]);
        assert(w.last().len() > 0 && no_ws(w.last()));
        lemma_words_after_space(x, w.last());
        assert(join(w, " "@) == x + w.last());
        assert(init.push(w.last()) =~= w);
    }
}

/// Collapsing whitespace twice is collapsing it once.
pub proof fn lemma_collapse_idempotent(s: Seq<char>)
    ensures
        collapse(collapse(s)) == collapse(s),
{
    lemma_words_proper(s);
    lemma_words_join(words(s));
}

/// Collapses whitespace runs to single spaces and drops leading and
/// trailing whitespace.
pub fn collapse_ws(s: &str) -> (r: String)
    ensures
        r@ == collapse(s@),
{
    let cs = chars_of(s);
    let mut out: Vec<char> = Vec::new();
    let mut prev_space = true;
    let mut i: usize = 0;
    while i < cs.len()
        invariant
            i <= cs@.len(),
            prev_space == (i == 0 || is_ws(cs@[i - 1])),
            ({
                let w = words(cs@.take(i as int));
                out@ == join(w, " "@) + if w.len() > 0 && prev_space {
                    " "@
                } else {
                    Seq::empty()
                }
            }),
        decreases cs.len() - i,
    {
        let ghost p = cs@.take(i as int);
        let ghost w = words(p);
        assert(cs@.take(i + 1).drop_last() =~= p);
        assert(cs@.take(i + 1).last() == cs@[i as int]);
        proof {
            lemma_words_proper(p);
            reveal_strlit(" ");
        }
        let ch = cs[i];
        if is_ws_char(ch) {
            if !prev_space {
                out.push(' ');
                prev_space = true;
            }
        } else {
            if prev_space {
                proof {
                    lemma_join_push(w, seq![ch], " "@);
                }
                out.push(ch);
                assert(out@ =~= join(w.push(seq![ch]), " "@));
            } else {
                assert(p.len() > 0 && !is_ws(p.last()));
                assert(cs@.take(i + 1)[i - 1] == cs@[i - 1]);
                proof {
                    lemma_join_extend_last(w, ch, " "@);
                }
                out.push(ch);
            }
            prev_space = false;
        }
        i += 1;
    }
    assert(cs@.take(i as int) =~= cs@);
    proof {
        lemma_words_proper(cs@);
        reveal_strlit(" ");
        let w = words(cs@);
        if w.len() > 0 {
            lemma_join_last(w, " "@);
            assert(!is_ws(w.last().last()));
        }
    }
    if out.len() > 0 && out[out.len() - 1] == ' ' {
        out.pop();
    }
    assert(out@ =~= collapse(s@));
    string_of(out.as_slice())
}

} // verus!
