//! Saved and recent searches, kept as text: one search per line, its
//! fields separated by tabs, each field with `%`, tab, line feed and
//! carriage return escaped.

use vstd::prelude::*;
use crate::text::{blank, trim, join, views, chars_of, string_of, is_blank, trim_str, join_strings};
use crate::db_types::{Query, QueryModel, Filters, query_empty, filters_blank};
use crate::search::expr_empty;
use crate::cells::char_vecs;

verus! {

// ---------- escaping one field ----------

/// The escape of one character.
pub open spec fn escape_char(c: char) -> Seq<char> {
    if c == '%' {
        seq!['%', '2', '5']
    } else if c == '\t' {
        seq!['%', '0', '9']
    } else if c == '\n' {
        seq!['%', '0', 'A']
    } else if c == '\r' {
        seq!['%', '0', 'D']
    } else {
        seq![c]
    }
}

/// A field with each character escaped.
pub open spec fn encode_comp(s: Seq<char>) -> Seq<char>
    decreases s.len(),
{
    if s.len() == 0 {
        Seq::empty()
    } else {
        escape_char(s[0]) + encode_comp(s.drop_first())
    }
}

/// The character an escape `%ab` stands for.
pub open spec fn unescape(a: char, b: char) -> Option<char> {
    if a == '2' && b == '5' {
        Some('%')
    } else if a == '0' && b == '9' {
        Some('\t')
    } else if a == '0' && b == 'A' {
        Some('\n')
    } else if a == '0' && b == 'D' {
        Some('\r')
    } else {
        None
    }
}

/// Number of bytes of a character in UTF-8.
pub open spec fn utf8_len(c: char) -> nat {
    if (c as u32) < 0x80 {
        1
    } else if (c as u32) < 0x800 {
        2
    } else if (c as u32) < 0x10000 {
        3
    } else {
        4
    }
}

/// Reads a field back: `%25`, `%09`, `%0A` and `%0D` stand for their
/// characters; any other `%` makes the field unreadable.
pub open spec fn comp_decode(s: Seq<char>) -> Option<Seq<char>>
    decreases s.len(),
{
    if s.len() == 0 {
        Some(Seq::empty())
    } else if s[0] != '%' {
        match comp_decode(s.drop_first()) {
            Some(t) => Some(seq![s[0]] + t),
            None => None,
        }
    } else if s.len() >= 3 && utf8_len(s[1]) == 1 && utf8_len(s[2]) == 1 {
        match unescape(s[1], s[2]) {
            Some(c) => match comp_decode(s.skip(3)) {
                Some(t) => Some(seq![c] + t),
                None => None,
            },
            None => None,
        }
    } else {
        None
    }
}

/// Whether reading the field back would slice it inside a character: a `%`
/// reached by the reader is followed by a character of three or more UTF-8
/// bytes, or by an ASCII character and then a multi-byte one.
pub open spec fn comp_panics(s: Seq<char>) -> bool
    decreases s.len(),
{
    if s.len() == 0 {
        false
    } else if s[0] != '%' {
        comp_panics(s.drop_first())
    } else if s.len() == 1 || (s.len() == 2 && utf8_len(s[1]) == 1) {
        false
    } else if utf8_len(s[1]) == 2 {
        false
    } else if utf8_len(s[1]) == 1 && utf8_len(s[2]) == 1 {
        unescape(s[1], s[2]) is Some && comp_panics(s.skip(3))
    } else {
        true
    }
}

fn utf8_width(c: char) -> (r: usize)
    ensures
        r as nat == utf8_len(c),
{
    let u = c as u32;
    if u < 0x80 {
        1
    } else if u < 0x800 {
        2
    } else if u < 0x10000 {
        3
    } else {
        4
    }
}

proof fn lemma_encode_push(a: Seq<char>, c: char)
    ensures
        encode_comp(a.push(c)) == encode_comp(a) + escape_char(c),
    decreases a.len(),
{
    if a.len() == 0 {
        assert(a.push(c).drop_first() =~= Seq::<char>::empty());
        assert(encode_comp(a.push(c).drop_first()) == Seq::<char>::empty());
        assert(encode_comp(a.push(c)) == escape_char(c) + Seq::<char>::empty());
        assert(encode_comp(a.push(c)) =~= escape_char(c));
        assert(encode_comp(a) == Seq::<char>::empty());
    } else {
        assert(a.push(c).drop_first() =~= a.drop_first().push(c));
        lemma_encode_push(a.drop_first(), c);
        assert(encode_comp(a.push(c)) =~= encode_comp(a) + escape_char(c));
    }
}

/// Escapes `%`, tab, line feed and carriage return in one field.
pub fn encode_component(value: &str) -> (r: String)
    ensures
        r@ == encode_comp(value@),
{
    let cs = chars_of(value);
    let mut out: Vec<char> = Vec::new();
    let mut i: usize = 0;
    while i < cs.len()
        invariant
            i <= cs@.len(),
            out@ == encode_comp(cs@.take(i as int)),
        decreases cs.len() - i,
    {
        let ch = cs[i];
        proof {
            assert(cs@.take(i + 1) =~= cs@.take(i as int).push(ch));
            lemma_encode_push(cs@.take(i as int), ch);
        }
        if ch == '%' {
            out.push('%');
            out.push('2');
            out.push('5');
        } else if ch == '\t' {
            out.push('%');
            out.push('0');
            out.push('9');
        } else if ch == '\n' {
            out.push('%');
            out.push('0');
            out.push('A');
        } else if ch == '\r' {
            out.push('%');
            out.push('0');
            out.push('D');
        } else {
            out.push(ch);
        }
        i += 1;
        assert(out@ =~= encode_comp(cs@.take(i as int)));
    }
    assert(cs@.take(i as int) =~= cs@);
    string_of(out.as_slice())
}

/// Reads one escaped field back.
pub fn decode_component(value: &str) -> (r: Option<String>)
    requires
        !comp_panics(value@),
    ensures
        match r {
            Some(s) => comp_decode(value@) == Some(s@),
            None => comp_decode(value@) is None,
        },
{
    let cs = chars_of(value);
    let ghost s = value@;
    let mut out: Vec<char> = Vec::new();
    let mut i: usize = 0;
    proof {
        assert(s.skip(0) =~= s);
        match comp_decode(s) {
            Some(t) => {
                assert(Seq::<char>::empty() + t =~= t);
            },
            None => {},
        }
    }
    while i < cs.len()
        invariant
            i <= cs@.len(),
            cs@ == s,
            s == value@,
            !comp_panics(s.skip(i as int)),
            comp_decode(s) == match comp_decode(s.skip(i as int)) {
                Some(t) => Some(out@ + t),
                None => None,
            },
        decreases cs.len() - i,
    {
        let ghost rest = s.skip(i as int);
        assert(rest.len() == cs.len() - i);
        assert(rest[0] == cs@[i as int]);
        if cs[i] == '%' {
            if cs.len() - i <= 2 {
                assert(comp_decode(rest) is None);
                return None;
            }
            assert(rest[1] == cs@[i + 1]);
            assert(rest[2] == cs@[i + 2]);
            let a = cs[i + 1];
            let b = cs[i + 2];
            if utf8_width(a) != 1 || utf8_width(b) != 1 {
                assert(comp_decode(rest) is None);
                return None;
            }
            let c = if a == '2' && b == '5' {
                '%'
            } else if a == '0' && b == '9' {
                '\t'
            } else if a == '0' && b == 'A' {
                '\n'
            } else if a == '0' && b == 'D' {
                '\r'
            } else {
                assert(comp_decode(rest) is None);
                return None;
            };
            assert(rest.skip(3) =~= s.skip(i + 3));
            let ghost before = out@;
            out.push(c);
            proof {
                match comp_decode(s.skip(i + 3)) {
                    Some(t) => {
                        assert(before + (seq![c] + t) =~= out@ + t);
                    },
                    None => {},
                }
            }
            i += 3;
        } else {
            let c = cs[i];
            assert(rest.drop_first() =~= s.skip(i + 1));
            let ghost before = out@;
            out.push(c);
            proof {
                match comp_decode(s.skip(i + 1)) {
                    Some(t) => {
                        assert(before + (seq![c] + t) =~= out@ + t);
                    },
                    None => {},
                }
            }
            i += 1;
        }
    }
    assert(s.skip(i as int) =~= Seq::<char>::empty());
    assert(out@ + Seq::<char>::empty() =~= out@);
    Some(string_of(out.as_slice()))
}


// ---------- lines and fields ----------

/// `str::split` on one separator character: the pieces between separators,
/// in order; `n` separators give `n + 1` pieces.
pub open spec fn split_on(s: Seq<char>, sep: char) -> Seq<Seq<char>>
    decreases s.len(),
{
    if s.len() == 0 {
        seq![Seq::empty()]
    } else {
        let p = split_on(s.drop_last(), sep);
        if s.last() == sep {
            p.push(Seq::empty())
        } else {
            p.update(p.len() - 1, p.last().push(s.last()))
        }
    }
}

pub proof fn lemma_split_on_nonempty(s: Seq<char>, sep: char)
    ensures
        split_on(s, sep).len() >= 1,
    decreases s.len(),
{
    if s.len() > 0 {
        lemma_split_on_nonempty(s.drop_last(), sep);
    }
}

/// A line without the carriage return of a `\r\n` ending.
pub open spec fn strip_cr(l: Seq<char>) -> Seq<char> {
    if l.len() > 0 && l.last() == '\r' {
        l.drop_last()
    } else {
        l
    }
}

/// `str::lines`: the text split at line feeds; a carriage return right
/// before a line feed is dropped, and a final line ending adds no empty
/// line.
pub open spec fn text_lines(s: Seq<char>) -> Seq<Seq<char>> {
    let p = split_on(s, '\n');
    let body = Seq::new((p.len() - 1) as nat, |k: int| strip_cr(p[k]));
    if p.last().len() == 0 {
        body
    } else {
        body.push(p.last())
    }
}

fn split_chars(cs: &Vec<char>, sep: char) -> (r: Vec<Vec<char>>)
    ensures
        char_vecs(r@) == split_on(cs@, sep),
{
    let mut done: Vec<Vec<char>> = Vec::new();
    let mut cur: Vec<char> = Vec::new();
    let mut i: usize = 0;
    while i < cs.len()
        invariant
            i <= cs@.len(),
            char_vecs(done@).push(cur@) == split_on(cs@.take(i as int), sep),
        decreases cs.len() - i,
    {
        let ghost before = split_on(cs@.take(i as int), sep);
        assert(cs@.take(i + 1).drop_last() =~= cs@.take(i as int));
        let c = cs[i];
        if c == sep {
            let finished = cur;
            done.push(finished);
            cur = Vec::new();
            assert(char_vecs(done@) =~= before);
            assert(char_vecs(done@).push(cur@) =~= before.push(Seq::empty()));
        } else {
            cur.push(c);
            assert(char_vecs(done@).push(cur@) =~= before.update(
                before.len() - 1,
                before.last().push(c),
            ));
        }
        i += 1;
    }
    assert(cs@.take(i as int) =~= cs@);
    done.push(cur);
    assert(char_vecs(done@) =~= split_on(cs@, sep));
    done
}

fn lines_of(cs: &Vec<char>) -> (r: Vec<Vec<char>>)
    ensures
        char_vecs(r@) == text_lines(cs@),
{
    let parts = split_chars(cs, '\n');
    let ghost p = split_on(cs@, '\n');
    proof {
        lemma_split_on_nonempty(cs@, '\n');
    }
    let n = parts.len();
    let mut out: Vec<Vec<char>> = Vec::new();
    let mut k: usize = 0;
    while k + 1 < n
        invariant
            n == parts@.len(),
            n >= 1,
            k + 1 <= n,
            char_vecs(parts@) == p,
            char_vecs(out@) == Seq::new(k as nat, |j: int| strip_cr(p[j])),
        decreases n - k,
    {
        let line = &parts[k];
        let mut copy: Vec<char> = Vec::new();
        let len = if line.len() > 0 && line[line.len() - 1] == '\r' {
            line.len() - 1
        } else {
            line.len()
        };
        let mut j: usize = 0;
        while j < len
            invariant
                len <= line@.len(),
                j <= len,
                copy@ == line@.take(j as int),
            decreases len - j,
        {
            copy.push(line[j]);
            j += 1;
            assert(copy@ =~= line@.take(j as int));
        }
        assert(p[k as int] == line@);
        assert(copy@ =~= strip_cr(p[k as int]));
        let ghost before = out@;
        let ghost cv = copy@;
        out.push(copy);
        assert(char_vecs(out@) =~= char_vecs(before).push(cv));
        k += 1;
        assert(char_vecs(out@) =~= Seq::new(k as nat, |j: int| strip_cr(p[j])));
    }
    let last = &parts[n - 1];
    assert(p.last() == last@);
    if last.len() > 0 {
        let mut copy: Vec<char> = Vec::new();
        let mut j: usize = 0;
        while j < last.len()
            invariant
                j <= last@.len(),
                copy@ == last@.take(j as int),
            decreases last.len() - j,
        {
            copy.push(last[j]);
            j += 1;
            assert(copy@ =~= last@.take(j as int));
        }
        assert(copy@ =~= last@);
        let ghost before = out@;
        out.push(copy);
        assert(char_vecs(out@) =~= char_vecs(before).push(last@));
    }
    out
}

/// All fields of a line read back, or `None` when one cannot be.
pub open spec fn decode_fields(f: Seq<Seq<char>>) -> Option<Seq<Seq<char>>>
    decreases f.len(),
{
    if f.len() == 0 {
        Some(Seq::empty())
    } else {
        match comp_decode(f[0]) {
            Some(a) => match decode_fields(f.drop_first()) {
                Some(rest) => Some(seq![a] + rest),
                None => None,
            },
            None => None,
        }
    }
}

/// Reading the fields back in order reaches a field whose reading panics.
pub open spec fn fields_panic(f: Seq<Seq<char>>) -> bool
    decreases f.len(),
{
    if f.len() == 0 {
        false
    } else if comp_panics(f[0]) {
        true
    } else if comp_decode(f[0]) is None {
        false
    } else {
        fields_panic(f.drop_first())
    }
}

/// Some line of the text has a field whose reading panics.
pub open spec fn raw_panics(raw: Seq<char>) -> bool {
    exists|k: int|
        0 <= k < text_lines(raw).len() && #[trigger] fields_panic(
            split_on(text_lines(raw)[k], '\t'),
        )
}

fn decode_chars(cs: &Vec<char>) -> (r: Option<String>)
    requires
        !comp_panics(cs@),
    ensures
        match r {
            Some(s) => comp_decode(cs@) == Some(s@),
            None => comp_decode(cs@) is None,
        },
{
    let s = string_of(cs.as_slice());
    decode_component(s.as_str())
}

fn decode_field_list(fields: &Vec<Vec<char>>) -> (r: Option<Vec<String>>)
    requires
        !fields_panic(char_vecs(fields@)),
    ensures
        match r {
            Some(v) => decode_fields(char_vecs(fields@)) == Some(views(v@)),
            None => decode_fields(char_vecs(fields@)) is None,
        },
{
    let ghost f = char_vecs(fields@);
    let mut out: Vec<String> = Vec::new();
    let mut i: usize = 0;
    assert(f.skip(0) =~= f);
    proof {
        match decode_fields(f) {
            Some(t) => {
                assert(Seq::<Seq<char>>::empty() + t =~= t);
            },
            None => {},
        }
    }
    while i < fields.len()
        invariant
            i <= fields@.len(),
            f == char_vecs(fields@),
            out@.len() == i,
            !fields_panic(f.skip(i as int)),
            decode_fields(f) == match decode_fields(f.skip(i as int)) {
                Some(t) => Some(views(out@) + t),
                None => None,
            },
        decreases fields.len() - i,
    {
        let ghost rest = f.skip(i as int);
        assert(rest[0] == fields@[i as int]@);
        assert(rest.drop_first() =~= f.skip(i + 1));
        match decode_chars(&fields[i]) {
            Some(v) => {
                let ghost before = views(out@);
                out.push(v);
                assert(views(out@) =~= before.push(out@[i as int]@));
                proof {
                    match decode_fields(f.skip(i + 1)) {
                        Some(t2) => {
                            assert(before + (seq![out@[i as int]@] + t2) =~= views(out@) + t2);
                        },
                        None => {},
                    }
                }
            },
            None => {
                return None;
            },
        }
        i += 1;
    }
    assert(f.skip(i as int) =~= Seq::<Seq<char>>::empty());
    assert(views(out@) + Seq::<Seq<char>>::empty() =~= views(out@));
    Some(out)
}


// ---------- text that reads back without slicing inside a character ----------

fn comp_panics_chars(cs: &Vec<char>) -> (r: bool)
    ensures
        r == comp_panics(cs@),
{
    let ghost s = cs@;
    let mut i: usize = 0;
    assert(s.skip(0) =~= s);
    while i < cs.len()
        invariant
            i <= cs@.len(),
            s == cs@,
            comp_panics(s) == comp_panics(s.skip(i as int)),
        decreases cs.len() - i,
    {
        let ghost rest = s.skip(i as int);
        assert(rest.len() == cs.len() - i);
        assert(rest[0] == cs@[i as int]);
        if cs[i] != '%' {
            assert(rest.drop_first() =~= s.skip(i + 1));
            i += 1;
        } else {
            let left = cs.len() - i;
            if left == 1 {
                return false;
            }
            assert(rest[1] == cs@[i + 1]);
            let w1 = utf8_width(cs[i + 1]);
            if left == 2 && w1 == 1 {
                return false;
            }
            if w1 == 2 {
                return false;
            }
            if w1 == 1 {
                assert(left >= 3);
                assert(rest[2] == cs@[i + 2]);
                let w2 = utf8_width(cs[i + 2]);
                if w2 != 1 {
                    return true;
                }
                let a = cs[i + 1];
                let b = cs[i + 2];
                let known = (a == '2' && b == '5') || (a == '0' && b == '9') || (a == '0' && b
                    == 'A') || (a == '0' && b == 'D');
                if !known {
                    return false;
                }
                assert(rest.skip(3) =~= s.skip(i + 3));
                i += 3;
            } else {
                return true;
            }
        }
    }
    assert(s.skip(i as int) =~= Seq::<char>::empty());
    false
}

fn line_panics(fields: &Vec<Vec<char>>) -> (r: bool)
    ensures
        r == fields_panic(char_vecs(fields@)),
{
    let ghost f = char_vecs(fields@);
    let mut i: usize = 0;
    assert(f.skip(0) =~= f);
    while i < fields.len()
        invariant
            i <= fields@.len(),
            f == char_vecs(fields@),
            fields_panic(f) == fields_panic(f.skip(i as int)),
        decreases fields.len() - i,
    {
        let ghost rest = f.skip(i as int);
        assert(rest[0] == fields@[i as int]@);
        assert(rest.drop_first() =~= f.skip(i + 1));
        if comp_panics_chars(&fields[i]) {
            return true;
        }
        match decode_chars(&fields[i]) {
            None => {
                return false;
            },
            Some(_) => {},
        }
        i += 1;
    }
    assert(f.skip(i as int) =~= Seq::<Seq<char>>::empty());
    false
}

/// Whether stored searches in the line format can be read without slicing
/// a field inside a character (see `comp_panics`).
pub fn stored_text_readable(raw: &str) -> (r: bool)
    ensures
        r == !raw_panics(raw@),
{
    let cs = chars_of(raw);
    let lines = lines_of(&cs);
    let ghost ls = text_lines(raw@);
    let mut i: usize = 0;
    while i < lines.len()
        invariant
            i <= lines@.len(),
            ls == text_lines(raw@),
            char_vecs(lines@) == ls,
            forall|k: int| 0 <= k < i ==> !#[trigger] fields_panic(split_on(ls[k], '\t')),
        decreases lines.len() - i,
    {
        assert(ls[i as int] == lines@[i as int]@);
        let fields = split_chars(&lines[i], '\t');
        if line_panics(&fields) {
            return false;
        }
        i += 1;
    }
    true
}

/// Reads stored searches written one per line, or `None` when reading the
/// text would slice a field inside a character.
pub fn try_decode_stored_queries(raw: &str, t: &QueryLabels) -> (r: Option<Vec<StoredQuery>>)
    ensures
        match r {
            Some(v) => !raw_panics(raw@) && stored_view(v@) == decode_lines(text_lines(raw@), t@),
            None => raw_panics(raw@),
        },
{
    if stored_text_readable(raw) {
        Some(decode_stored_queries(raw, t))
    } else {
        None
    }
}

// ---------- summaries ----------

/// The interface texts a summary of a search uses: the label of each filter
/// (in the order of `Filters`' view), the hint shown for an empty search,
/// and the text that stands for an advanced expression.
pub struct QueryLabels {
    pub year: String,
    pub product_code: String,
    pub trademark: String,
    pub description: String,
    pub sender: String,
    pub recipient: String,
    pub edrpou: String,
    pub trade_country: String,
    pub dispatch_country: String,
    pub origin_country: String,
    pub enter_query_hint: String,
    pub advanced: String,
}

/// Abstract labels.
pub struct LabelsModel {
    pub fields: Seq<Seq<char>>,
    pub hint: Seq<char>,
    pub advanced: Seq<char>,
}

impl View for QueryLabels {
    type V = LabelsModel;

    open spec fn view(&self) -> LabelsModel {
        LabelsModel {
            fields: seq![
                self.year@,
                self.product_code@,
                self.trademark@,
                self.description@,
                self.sender@,
                self.recipient@,
                self.edrpou@,
                self.trade_country@,
                self.dispatch_country@,
                self.origin_country@,
            ],
            hint: self.enter_query_hint@,
            advanced: self.advanced@,
        }
    }
}

impl QueryLabels {
    /// The label of filter `i`.
    pub fn field_label(&self, i: usize) -> (r: &String)
        requires
            i < 10,
        ensures
            r@ == self@.fields[i as int],
    {
        match i {
            0 => &self.year,
            1 => &self.product_code,
            2 => &self.trademark,
            3 => &self.description,
            4 => &self.sender,
            5 => &self.recipient,
            6 => &self.edrpou,
            7 => &self.trade_country,
            8 => &self.dispatch_country,
            _ => &self.origin_country,
        }
    }
}

/// `label: value` for each of the first `k` filters that is set.
pub open spec fn filter_parts(f: Seq<Seq<char>>, labels: Seq<Seq<char>>, k: nat) -> Seq<Seq<char>>
    decreases k,
{
    if k == 0 {
        Seq::empty()
    } else {
        let p = filter_parts(f, labels, (k - 1) as nat);
        if blank(f[k - 1]) {
            p
        } else {
            p.push(labels[k - 1] + ": "@ + trim(f[k - 1]))
        }
    }
}

/// The parts of a summary: the trimmed text, each set filter, and the
/// advanced expression when it constrains something.
pub open spec fn summary_parts(q: QueryModel, l: LabelsModel) -> Seq<Seq<char>> {
    let head = if blank(q.text) {
        Seq::empty()
    } else {
        seq![trim(q.text)]
    };
    let tail = match q.advanced {
        Some(e) => if expr_empty(e) {
            Seq::empty()
        } else {
            seq![l.advanced]
        },
        None => Seq::empty(),
    };
    head + filter_parts(q.filters, l.fields, 10) + tail
}

/// The name given to a stored search that has none.
pub open spec fn legacy_summary(q: QueryModel, l: LabelsModel) -> Seq<char> {
    if query_empty(q) {
        l.hint
    } else {
        join(summary_parts(q, l), " В· "@)
    }
}

/// A one-line summary of a search, used to name stored searches that were
/// saved without a name.
pub fn legacy_query_summary(query: &Query, t: &QueryLabels) -> (r: String)
    ensures
        r@ == legacy_summary(query@, t@),
{
    if query.is_empty() {
        return t.enter_query_hint.clone();
    }
    let ghost q = query@;
    let mut parts: Vec<String> = Vec::new();
    if !is_blank(query.text.as_str()) {
        parts.push(trim_str(query.text.as_str()));
    }
    let ghost head = views(parts@);
    let mut k: usize = 0;
    while k < 10
        invariant
            k <= 10,
            q == query@,
            views(parts@) == head + filter_parts(q.filters, t@.fields, k as nat),
        decreases 10 - k,
    {
        let value = query.filters.get(k);
        if !is_blank(value.as_str()) {
            let mut part = t.field_label(k).clone();
            part.append(": ");
            let trimmed = trim_str(value.as_str());
            part.append(trimmed.as_str());
            let ghost before = views(parts@);
            parts.push(part);
            assert(views(parts@) =~= before.push(t@.fields[k as int] + ": "@ + trim(
                q.filters[k as int],
            )));
        }
        k += 1;
        assert(views(parts@) =~= head + filter_parts(q.filters, t@.fields, k as nat));
    }
    let ghost mid = views(parts@);
    match &query.advanced {
        Some(e) => {
            if !e.is_empty() {
                parts.push(t.advanced.clone());
                assert(views(parts@) =~= mid.push(t@.advanced));
            }
        },
        None => {},
    }
    assert(views(parts@) =~= summary_parts(q, t@));
    join_strings(&parts, " В· ")
}

// ---------- stored searches ----------

/// A search kept under a name.
#[derive(Debug, PartialEq, Eq)]
pub struct StoredQuery {
    pub name: String,
    pub query: Query,
}

/// Abstract stored search.
pub struct StoredModel {
    pub name: Seq<char>,
    pub query: QueryModel,
}

impl View for StoredQuery {
    type V = StoredModel;

    open spec fn view(&self) -> StoredModel {
        StoredModel { name: self.name@, query: self.query@ }
    }
}

pub open spec fn stored_view(v: Seq<StoredQuery>) -> Seq<StoredModel> {
    v.map_values(|s: StoredQuery| s@)
}

impl Clone for StoredQuery {
    fn clone(&self) -> (r: Self)
        ensures
            r@ == self@,
    {
        StoredQuery { name: self.name.clone(), query: self.query.clone() }
    }
}

/// The search held by twelve fields read back: name, text, and the ten
/// filters in the order of `Filters`' view.
pub open spec fn query_of_fields(f: Seq<Seq<char>>) -> QueryModel {
    QueryModel { text: f[1], filters: f.subrange(2, 12), advanced: None }
}

/// The stored search a line holds, if any: twelve readable fields holding
/// a search that constrains something. A blank name is replaced by the
/// search's summary.
pub open spec fn decode_line(line: Seq<char>, l: LabelsModel) -> Option<StoredModel> {
    match decode_fields(split_on(line, '\t')) {
        Some(f) => if f.len() != 12 {
            None
        } else {
            let q = query_of_fields(f);
            if query_empty(q) {
                None
            } else {
                Some(
                    StoredModel {
                        name: if blank(f[0]) {
                            legacy_summary(q, l)
                        } else {
                            f[0]
                        },
                        query: q,
                    },
                )
            }
        },
        None => None,
    }
}

/// The stored searches of a list of lines, in order.
pub open spec fn decode_lines(ls: Seq<Seq<char>>, l: LabelsModel) -> Seq<StoredModel>
    decreases ls.len(),
{
    if ls.len() == 0 {
        Seq::empty()
    } else {
        let p = decode_lines(ls.drop_last(), l);
        match decode_line(ls.last(), l) {
            Some(item) => p.push(item),
            None => p,
        }
    }
}

fn query_from_fields(f: &Vec<String>) -> (r: Query)
    requires
        f@.len() == 12,
    ensures
        r@ == query_of_fields(views(f@)),
{
    let r = Query {
        text: f[1].clone(),
        filters: Filters {
            year: f[2].clone(),
            product_code: f[3].clone(),
            trademark: f[4].clone(),
            description: f[5].clone(),
            sender: f[6].clone(),
            recipient: f[7].clone(),
            edrpou: f[8].clone(),
            trade_country: f[9].clone(),
            dispatch_country: f[10].clone(),
            origin_country: f[11].clone(),
        },
        advanced: None,
    };
    assert(r@.filters =~= views(f@).subrange(2, 12));
    r
}

fn decode_one_line(line: &Vec<char>, t: &QueryLabels) -> (r: Option<StoredQuery>)
    requires
        !fields_panic(split_on(line@, '\t')),
    ensures
        match r {
            Some(item) => decode_line(line@, t@) == Some(item@),
            None => decode_line(line@, t@) is None,
        },
{
    let fields = split_chars(line, '\t');
    let decoded = decode_field_list(&fields);
    match decoded {
        None => None,
        Some(f) => {
            if f.len() != 12 {
                return None;
            }
            let query = query_from_fields(&f);
            if query.is_empty() {
                return None;
            }
            let name = if is_blank(f[0].as_str()) {
                legacy_query_summary(&query, t)
            } else {
                f[0].clone()
            };
            Some(StoredQuery { name, query })
        },
    }
}

/// Reads stored searches written one per line; lines that do not hold a
/// search that constrains something are skipped.
pub fn decode_stored_queries(raw: &str, t: &QueryLabels) -> (r: Vec<StoredQuery>)
    requires
        !raw_panics(raw@),
    ensures
        stored_view(r@) == decode_lines(text_lines(raw@), t@),
{
    let cs = chars_of(raw);
    let lines = lines_of(&cs);
    let ghost ls = text_lines(raw@);
    let mut out: Vec<StoredQuery> = Vec::new();
    let mut i: usize = 0;
    while i < lines.len()
        invariant
            i <= lines@.len(),
            ls == text_lines(raw@),
            char_vecs(lines@) == ls,
            !raw_panics(raw@),
            stored_view(out@) == decode_lines(ls.take(i as int), t@),
        decreases lines.len() - i,
    {
        assert(ls[i as int] == lines@[i as int]@);
        assert(!fields_panic(split_on(ls[i as int], '\t')));
        assert(ls.take(i + 1).drop_last() =~= ls.take(i as int));
        match decode_one_line(&lines[i], t) {
            Some(item) => {
                let ghost before = stored_view(out@);
                out.push(item);
                assert(stored_view(out@) =~= before.push(out@.last()@));
            },
            None => {},
        }
        i += 1;
    }
    assert(ls.take(i as int) =~= ls);
    out
}


/// The twelve fields of a stored search: name, text, and the ten filters.
pub open spec fn item_fields(item: StoredModel) -> Seq<Seq<char>> {
    seq![item.name, item.query.text] + item.query.filters
}

/// One line per stored search: its fields escaped and separated by tabs.
/// The advanced expression is not part of this format.
pub open spec fn encode_line(item: StoredModel) -> Seq<char> {
    join(item_fields(item).map_values(|f: Seq<char>| encode_comp(f)), "\t"@)
}

pub open spec fn encode_all(items: Seq<StoredModel>) -> Seq<char> {
    join(items.map_values(|item: StoredModel| encode_line(item)), "\n"@)
}

fn encode_item(item: &StoredQuery) -> (r: String)
    ensures
        r@ == encode_line(item@),
{
    let mut fields: Vec<String> = Vec::new();
    fields.push(encode_component(item.name.as_str()));
    fields.push(encode_component(item.query.text.as_str()));
    let mut k: usize = 0;
    while k < 10
        invariant
            k <= 10,
            views(fields@) == item_fields(item@).take(k + 2).map_values(
                |f: Seq<char>| encode_comp(f),
            ),
        decreases 10 - k,
    {
        let ghost before = views(fields@);
        fields.push(encode_component(item.query.filters.get(k).as_str()));
        assert(views(fields@) =~= before.push(encode_comp(item_fields(item@)[k + 2])));
        k += 1;
        assert(views(fields@) =~= item_fields(item@).take(k + 2).map_values(
            |f: Seq<char>| encode_comp(f),
        ));
    }
    assert(item_fields(item@).take(12) =~= item_fields(item@));
    join_strings(&fields, "\t")
}

/// Writes stored searches one per line (see `encode_line`).
pub fn encode_stored_queries(items: &[StoredQuery]) -> (r: String)
    ensures
        r@ == encode_all(stored_view(items@)),
{
    let ghost its = stored_view(items@);
    let mut lines: Vec<String> = Vec::new();
    let mut i: usize = 0;
    while i < items.len()
        invariant
            i <= items@.len(),
            its == stored_view(items@),
            views(lines@) == its.take(i as int).map_values(|item: StoredModel| encode_line(item)),
        decreases items.len() - i,
    {
        let ghost before = views(lines@);
        assert(its[i as int] == items@[i as int]@);
        lines.push(encode_item(&items[i]));
        assert(views(lines@) =~= before.push(encode_line(its[i as int])));
        i += 1;
        assert(views(lines@) =~= its.take(i as int).map_values(
            |item: StoredModel| encode_line(item),
        ));
    }
    assert(its.take(i as int) =~= its);
    join_strings(&lines, "\n")
}

/// The stored searches that constrain something, in order.
pub open spec fn nonempty_items(v: Seq<StoredModel>) -> Seq<StoredModel>
    decreases v.len(),
{
    if v.len() == 0 {
        Seq::empty()
    } else if query_empty(v.last().query) {
        nonempty_items(v.drop_last())
    } else {
        nonempty_items(v.drop_last()).push(v.last())
    }
}

/// Keeps the stored searches that constrain something (what remains of a
/// list read from the JSON format).
pub fn keep_nonempty_queries(items: Vec<StoredQuery>) -> (r: Vec<StoredQuery>)
    ensures
        stored_view(r@) == nonempty_items(stored_view(items@)),
{
    let ghost its = stored_view(items@);
    let mut out: Vec<StoredQuery> = Vec::new();
    let mut i: usize = 0;
    while i < items.len()
        invariant
            i <= items@.len(),
            its == stored_view(items@),
            stored_view(out@) == nonempty_items(its.take(i as int)),
        decreases items.len() - i,
    {
        assert(its.take(i + 1).drop_last() =~= its.take(i as int));
        if !items[i].query.is_empty() {
            let ghost before = stored_view(out@);
            out.push(items[i].clone());
            assert(stored_view(out@) =~= before.push(its[i as int]));
        }
        i += 1;
    }
    assert(its.take(i as int) =~= its);
    out
}

/// Stored searches from the JSON format when it holds any that constrain
/// something, else from the line format. `v2` is the JSON list as read
/// (`None` when it was absent or blank, an empty list when it could not be
/// read).
pub fn decode_stored_queries_with_fallback(
    v2: Option<Vec<StoredQuery>>,
    v1_raw: Option<String>,
    t: &QueryLabels,
) -> (r: Vec<StoredQuery>)
    requires
        match v1_raw {
            Some(raw) => !raw_panics(raw@),
            None => true,
        },
    ensures
        ({
            let from_v2 = match v2 {
                Some(items) => nonempty_items(stored_view(items@)),
                None => Seq::empty(),
            };
            if from_v2.len() > 0 {
                stored_view(r@) == from_v2
            } else {
                match v1_raw {
                    Some(raw) => stored_view(r@) == decode_lines(text_lines(raw@), t@),
                    None => r@.len() == 0,
                }
            }
        }),
{
    if let Some(items) = v2 {
        let decoded = keep_nonempty_queries(items);
        if decoded.len() > 0 {
            return decoded;
        }
    }
    match v1_raw {
        Some(raw) => decode_stored_queries(raw.as_str(), t),
        None => Vec::new(),
    }
}


// ---------- reading back what was written ----------

/// `s` holds no character `c`.
pub open spec fn lacks(s: Seq<char>, c: char) -> bool {
    forall|i: int| 0 <= i < s.len() ==> s[i] != c
}

proof fn lemma_comp_round_trip(s: Seq<char>)
    ensures
        comp_decode(encode_comp(s)) == Some(s),
        !comp_panics(encode_comp(s)),
        lacks(encode_comp(s), '\t'),
        lacks(encode_comp(s), '\n'),
        lacks(encode_comp(s), '\r'),
    decreases s.len(),
{
    if s.len() > 0 {
        let c = s[0];
        let rest = s.drop_first();
        let er = encode_comp(rest);
        lemma_comp_round_trip(rest);
        let e = encode_comp(s);
        assert(e == escape_char(c) + er);
        if c == '%' || c == '\t' || c == '\n' || c == '\r' {
            assert(e.skip(3) =~= er);
            assert(('2' as u32) < 0x80 && ('5' as u32) < 0x80 && ('0' as u32) < 0x80);
            assert(('9' as u32) < 0x80 && ('A' as u32) < 0x80 && ('D' as u32) < 0x80);
            assert(seq![c] + rest =~= s);
        } else {
            assert(e.drop_first() =~= er);
            assert(seq![c] + rest =~= s);
        }
    } else {
        assert(encode_comp(s) =~= Seq::<char>::empty());
    }
}

proof fn lemma_fields_round_trip(fs: Seq<Seq<char>>)
    ensures
        decode_fields(fs.map_values(|f: Seq<char>| encode_comp(f))) == Some(fs),
        !fields_panic(fs.map_values(|f: Seq<char>| encode_comp(f))),
    decreases fs.len(),
{
    let es = fs.map_values(|f: Seq<char>| encode_comp(f));
    if fs.len() > 0 {
        lemma_comp_round_trip(fs[0]);
        assert(es.drop_first() =~= fs.drop_first().map_values(|f: Seq<char>| encode_comp(f)));
        lemma_fields_round_trip(fs.drop_first());
        assert(seq![fs[0]] + fs.drop_first() =~= fs);
    } else {
        assert(es =~= Seq::<Seq<char>>::empty());
    }
}

proof fn lemma_split_plain(x: Seq<char>, sep: char)
    requires
        lacks(x, sep),
    ensures
        split_on(x, sep) == seq![x],
    decreases x.len(),
{
    if x.len() > 0 {
        lemma_split_plain(x.drop_last(), sep);
        assert(x.last() == x[x.len() - 1]);
        assert(x.last() != sep);
        assert(x.drop_last().push(x.last()) =~= x);
        assert(seq![x.drop_last()].update(0, x) =~= seq![x]);
    } else {
        assert(x =~= Seq::<char>::empty());
    }
}

proof fn lemma_split_after(a: Seq<char>, b: Seq<char>, sep: char)
    requires
        lacks(b, sep),
    ensures
        split_on(a + seq![sep] + b, sep) == split_on(a, sep).push(b),
    decreases b.len(),
{
    lemma_split_on_nonempty(a, sep);
    let x = a + seq![sep] + b;
    if b.len() == 0 {
        assert(x.drop_last() =~= a);
        assert(x.last() == sep);
        assert(b =~= Seq::<char>::empty());
    } else {
        assert(x.drop_last() =~= a + seq![sep] + b.drop_last());
        assert(x.last() == b[b.len() - 1]);
        assert(x.last() != sep);
        lemma_split_after(a, b.drop_last(), sep);
        assert(b.drop_last().push(b.last()) =~= b);
        let p = split_on(a, sep).push(b.drop_last());
        assert(p.update(p.len() - 1, p.last().push(x.last())) =~= split_on(a, sep).push(b));
    }
}

proof fn lemma_split_join(fs: Seq<Seq<char>>, sep: char)
    requires
        fs.len() >= 1,
        forall|i: int| 0 <= i < fs.len() ==> lacks(#[trigger] fs[i], sep),
    ensures
        split_on(join(fs, seq![sep]), sep) == fs,
    decreases fs.len(),
{
    if fs.len() == 1 {
        lemma_split_plain(fs[0], sep);
        assert(seq![fs[0]] =~= fs);
    } else {
        let init = fs.drop_last();
        lemma_split_join(init, sep);
        assert(lacks(fs.last(), sep));
        lemma_split_after(join(init, seq![sep]), fs.last(), sep);
        assert(init.push(fs.last()) =~= fs);
    }
}

proof fn lemma_join_lacks(fs: Seq<Seq<char>>, sep: Seq<char>, c: char)
    requires
        lacks(sep, c),
        forall|i: int| 0 <= i < fs.len() ==> lacks(#[trigger] fs[i], c),
    ensures
        lacks(join(fs, sep), c),
    decreases fs.len(),
{
    if fs.len() > 1 {
        lemma_join_lacks(fs.drop_last(), sep, c);
        assert(lacks(fs.last(), c));
        let j = join(fs.drop_last(), sep);
        assert forall|i: int| 0 <= i < join(fs, sep).len() implies join(fs, sep)[i] != c by {
            if i < j.len() {
                assert(join(fs, sep)[i] == j[i]);
            } else if i < j.len() + sep.len() {
                assert(join(fs, sep)[i] == sep[i - j.len()]);
            } else {
                assert(join(fs, sep)[i] == fs.last()[i - j.len() - sep.len()]);
            }
        }
    } else if fs.len() == 1 {
        assert(lacks(fs[0], c));
    }
}

proof fn lemma_line_round_trip(item: StoredModel, l: LabelsModel)
    requires
        item.query.advanced is None,
        item.query.filters.len() == 10,
        !query_empty(item.query),
        !blank(item.name),
    ensures
        decode_line(encode_line(item), l) == Some(item),
        !fields_panic(split_on(encode_line(item), '\t')),
        lacks(encode_line(item), '\n'),
        lacks(encode_line(item), '\r'),
        encode_line(item).len() > 0,
{
    reveal_strlit("\t");
    let fs = item_fields(item);
    let es = fs.map_values(|f: Seq<char>| encode_comp(f));
    assert forall|i: int| 0 <= i < es.len() implies lacks(#[trigger] es[i], '\t') && lacks(
        es[i],
        '\n',
    ) && lacks(es[i], '\r') by {
        lemma_comp_round_trip(fs[i]);
    }
    assert("\t"@ =~= seq!['\t']);
    lemma_split_join(es, '\t');
    lemma_fields_round_trip(fs);
    lemma_join_lacks(es, "\t"@, '\n');
    lemma_join_lacks(es, "\t"@, '\r');
    assert(query_of_fields(fs) == item.query) by {
        assert(fs.subrange(2, 12) =~= item.query.filters);
    }
    assert(fs[0] == item.name);
    // Twelve fields joined by tabs hold eleven tabs at least.
    let j = join(es, "\t"@);
    assert(j.len() > 0) by {
        assert(es.len() == 12);
        assert(join(es, "\t"@) == join(es.drop_last(), "\t"@) + "\t"@ + es.last());
    }
}

proof fn lemma_lines_round_trip(ls: Seq<Seq<char>>)
    requires
        ls.len() >= 1,
        forall|i: int|
            0 <= i < ls.len() ==> lacks(#[trigger] ls[i], '\n') && lacks(ls[i], '\r')
                && ls[i].len() > 0,
    ensures
        text_lines(join(ls, "\n"@)) == ls,
{
    reveal_strlit("\n");
    assert("\n"@ =~= seq!['\n']);
    lemma_split_join(ls, '\n');
    let p = split_on(join(ls, "\n"@), '\n');
    assert(p == ls);
    assert forall|k: int| 0 <= k < ls.len() implies strip_cr(#[trigger] ls[k]) == ls[k] by {
        assert(lacks(ls[k], '\r'));
        assert(ls[k].last() == ls[k][ls[k].len() - 1]);
    }
    assert(ls.last().len() > 0);
    assert(Seq::new((p.len() - 1) as nat, |k: int| strip_cr(p[k])).push(p.last()) =~= ls);
}

proof fn lemma_decode_encoded_lines(items: Seq<StoredModel>, l: LabelsModel)
    requires
        forall|i: int|
            0 <= i < items.len() ==> {
                &&& (#[trigger] items[i]).query.advanced is None
                &&& items[i].query.filters.len() == 10
                &&& !query_empty(items[i].query)
                &&& !blank(items[i].name)
            },
    ensures
        decode_lines(items.map_values(|item: StoredModel| encode_line(item)), l) == items,
    decreases items.len(),
{
    let ls = items.map_values(|item: StoredModel| encode_line(item));
    if items.len() > 0 {
        assert(ls.drop_last() =~= items.drop_last().map_values(
            |item: StoredModel| encode_line(item),
        ));
        lemma_decode_encoded_lines(items.drop_last(), l);
        lemma_line_round_trip(items.last(), l);
        assert(items.drop_last().push(items.last()) =~= items);
    } else {
        assert(ls =~= Seq::<Seq<char>>::empty());
    }
}

/// Stored searches written one per line read back as they were, when each
/// has a name that is not blank and a search that constrains something
/// through its text or filters (the line format keeps no advanced
/// expression).
pub proof fn lemma_stored_queries_round_trip(items: Seq<StoredModel>, l: LabelsModel)
    requires
        forall|i: int|
            0 <= i < items.len() ==> {
                &&& (#[trigger] items[i]).query.advanced is None
                &&& items[i].query.filters.len() == 10
                &&& !query_empty(items[i].query)
                &&& !blank(items[i].name)
            },
    ensures
        !raw_panics(encode_all(items)),
        decode_lines(text_lines(encode_all(items)), l) == items,
{
    let ls = items.map_values(|item: StoredModel| encode_line(item));
    lemma_decode_encoded_lines(items, l);
    if items.len() == 0 {
        assert(ls =~= Seq::<Seq<char>>::empty());
        assert(encode_all(items) =~= Seq::<char>::empty());
        assert(text_lines(Seq::<char>::empty()) =~= Seq::<Seq<char>>::empty());
    } else {
        assert forall|i: int| 0 <= i < ls.len() implies lacks(#[trigger] ls[i], '\n') && lacks(
            ls[i],
            '\r',
        ) && ls[i].len() > 0 && !fields_panic(split_on(ls[i], '\t')) by {
            lemma_line_round_trip(items[i], l);
        }
        lemma_lines_round_trip(ls);
        assert(text_lines(encode_all(items)) == ls);
    }
}

/// Reading back one escaped field gives it again.
pub proof fn lemma_component_round_trip(s: Seq<char>)
    ensures
        !comp_panics(encode_comp(s)),
        comp_decode(encode_comp(s)) == Some(s),
{
    lemma_comp_round_trip(s);
}

} // verus!
