//! Recognition of the header row of an imported sheet and the mapping of
//! its columns onto the schema.
//!
//! Four layouts are tried in order: the standard customs table, the
//! registry-style export, the wide export of newer files, and a generic
//! detector driven by a dictionary of header aliases.

use vstd::prelude::*;
use crate::schema::{column_name, column_header, column_header_at, required_header, required_header_at, COLUMN_COUNT, REQUIRED_HEADER_COUNT};
use crate::text::{
    str_eq, has_prefix, chars_of, chars_eq, chars_starts_with, char_is_alphanumeric,
    is_alphanumeric, char_lowercase, lowercase_char, string_of, views,
};

verus! {

// ---------- header index ----------

/// Positions (ascending) of the non-empty headers equal to `h`.
pub open spec fn positions(hs: Seq<Seq<char>>, h: Seq<char>) -> Seq<int>
    decreases hs.len(),
{
    if hs.len() == 0 {
        Seq::empty()
    } else if hs.last() == h && h.len() > 0 {
        positions(hs.drop_last(), h).push(hs.len() - 1)
    } else {
        positions(hs.drop_last(), h)
    }
}

/// Position of occurrence `occ` of header `h`.
pub open spec fn get_spec(hs: Seq<Seq<char>>, h: Seq<char>, occ: int) -> Option<int> {
    let p = positions(hs, h);
    if 0 <= occ < p.len() {
        Some(p[occ])
    } else {
        None
    }
}

/// A file header `k` extends the wanted header `h` after a separator: it
/// starts with `h` and continues with a non-alphanumeric character.
pub open spec fn fuzzy_ok(k: Seq<char>, h: Seq<char>) -> bool {
    k.len() > h.len() && has_prefix(k, h) && !char_is_alphanumeric(k[h.len() as int])
}

/// The distinct non-empty headers of `hs` that extend `h`, in order of first
/// appearance.
pub open spec fn fuzzy_keys(hs: Seq<Seq<char>>, h: Seq<char>) -> Seq<Seq<char>>
    decreases hs.len(),
{
    if hs.len() == 0 {
        Seq::empty()
    } else {
        let prev = fuzzy_keys(hs.drop_last(), h);
        let k = hs.last();
        if k.len() > 0 && fuzzy_ok(k, h) && !prev.contains(k) {
            prev.push(k)
        } else {
            prev
        }
    }
}

/// Exact header first; otherwise the only file header that extends it.
pub open spec fn get_fuzzy_spec(hs: Seq<Seq<char>>, h: Seq<char>, occ: int) -> Option<int> {
    match get_spec(hs, h, occ) {
        Some(i) => Some(i),
        None => {
            let keys = fuzzy_keys(hs, h);
            if keys.len() == 1 {
                get_spec(hs, keys[0], occ)
            } else {
                None
            }
        },
    }
}

/// The first candidate `(header, occurrence)` that is present.
pub open spec fn first_of_spec(hs: Seq<Seq<char>>, cands: Seq<(Seq<char>, int)>) -> Option<int>
    decreases cands.len(),
{
    if cands.len() == 0 {
        None
    } else {
        match get_spec(hs, cands[0].0, cands[0].1) {
            Some(i) => Some(i),
            None => first_of_spec(hs, cands.drop_first()),
        }
    }
}

/// A header reduced to its alphanumeric characters, lowercased.
pub open spec fn norm(h: Seq<char>) -> Seq<char>
    decreases h.len(),
{
    if h.len() == 0 {
        Seq::empty()
    } else if char_is_alphanumeric(h.last()) {
        norm(h.drop_last()) + char_lowercase(h.last())
    } else {
        norm(h.drop_last())
    }
}

/// Positions (ascending) of the non-empty headers whose normal form is `n`.
pub open spec fn norm_positions(hs: Seq<Seq<char>>, n: Seq<char>) -> Seq<int>
    decreases hs.len(),
{
    if hs.len() == 0 {
        Seq::empty()
    } else if hs.last().len() > 0 && norm(hs.last()) == n {
        norm_positions(hs.drop_last(), n).push(hs.len() - 1)
    } else {
        norm_positions(hs.drop_last(), n)
    }
}

/// Exact header first; otherwise occurrence `occ` among the headers with
/// the same normal form.
pub open spec fn get_norm_spec(hs: Seq<Seq<char>>, h: Seq<char>, occ: int) -> Option<int> {
    match get_spec(hs, h, occ) {
        Some(i) => Some(i),
        None => {
            let p = norm_positions(hs, norm(h));
            if 0 <= occ < p.len() {
                Some(p[occ])
            } else {
                None
            }
        },
    }
}

/// The first candidate present under normalized matching.
pub open spec fn first_norm_of_spec(hs: Seq<Seq<char>>, cands: Seq<(Seq<char>, int)>) -> Option<
    int,
>
    decreases cands.len(),
{
    if cands.len() == 0 {
        None
    } else {
        match get_norm_spec(hs, cands[0].0, cands[0].1) {
            Some(i) => Some(i),
            None => first_norm_of_spec(hs, cands.drop_first()),
        }
    }
}

/// Positions (ascending) of the non-empty headers that start with `p`.
pub open spec fn prefix_positions(hs: Seq<Seq<char>>, p: Seq<char>) -> Seq<int>
    decreases hs.len(),
{
    if hs.len() == 0 {
        Seq::empty()
    } else if hs.last().len() > 0 && has_prefix(hs.last(), p) {
        prefix_positions(hs.drop_last(), p).push(hs.len() - 1)
    } else {
        prefix_positions(hs.drop_last(), p)
    }
}

/// The normal form of `h` starts with the normal form of one of `ps`.
pub open spec fn norm_prefix_any(h: Seq<char>, ps: Seq<Seq<char>>) -> bool {
    exists|j: int| 0 <= j < ps.len() && has_prefix(norm(h), norm(#[trigger] ps[j]))
}

/// Positions (ascending, each once) of the non-empty headers whose normal
/// form starts with the normal form of one of `ps`.
pub open spec fn norm_prefix_positions(hs: Seq<Seq<char>>, ps: Seq<Seq<char>>) -> Seq<int>
    decreases hs.len(),
{
    if hs.len() == 0 {
        Seq::empty()
    } else if hs.last().len() > 0 && norm_prefix_any(hs.last(), ps) {
        norm_prefix_positions(hs.drop_last(), ps).push(hs.len() - 1)
    } else {
        norm_prefix_positions(hs.drop_last(), ps)
    }
}

/// Header row of a sheet, indexed for lookups by header text.
pub struct HeaderIndex {
    pub headers: Vec<String>,
}

impl View for HeaderIndex {
    type V = Seq<Seq<char>>;

    open spec fn view(&self) -> Seq<Seq<char>> {
        views(self.headers@)
    }
}

/// Normal form of a header: its alphanumeric characters, lowercased.
pub fn norm_header(h: &str) -> (r: Vec<char>)
    ensures
        r@ == norm(h@),
{
    let cs = chars_of(h);
    let mut out: Vec<char> = Vec::new();
    let mut i: usize = 0;
    while i < cs.len()
        invariant
            i <= cs@.len(),
            out@ == norm(cs@.take(i as int)),
        decreases cs.len() - i,
    {
        assert(cs@.take(i + 1).drop_last() =~= cs@.take(i as int));
        if is_alphanumeric(cs[i]) {
            let low = lowercase_char(cs[i]);
            let mut k: usize = 0;
            let ghost before = out@;
            while k < low.len()
                invariant
                    k <= low@.len(),
                    out@ == before + low@.take(k as int),
                decreases low.len() - k,
            {
                out.push(low[k]);
                k += 1;
                assert(out@ =~= before + low@.take(k as int));
            }
            assert(low@.take(low@.len() as int) =~= low@);
        }
        i += 1;
    }
    assert(cs@.take(cs@.len() as int) =~= cs@);
    out
}

impl HeaderIndex {
    pub fn new(headers: &Vec<String>) -> (r: HeaderIndex)
        ensures
            r@ == views(headers@),
    {
        let mut hs: Vec<String> = Vec::new();
        let mut i: usize = 0;
        while i < headers.len()
            invariant
                i <= headers@.len(),
                hs@ == headers@.take(i as int),
            decreases headers.len() - i,
        {
            hs.push(headers[i].clone());
            i += 1;
            assert(hs@ =~= headers@.take(i as int));
        }
        assert(headers@.take(headers@.len() as int) =~= headers@);
        HeaderIndex { headers: hs }
    }

    /// Position of occurrence `occurrence` of `header`.
    pub fn get(&self, header: &str, occurrence: usize) -> (r: Option<usize>)
        ensures
            match r {
                Some(i) => get_spec(self@, header@, occurrence as int) == Some(i as int),
                None => get_spec(self@, header@, occurrence as int) is None,
            },
    {
        let ghost hs = self@;
        let empty = header.is_empty();
        let mut seen: usize = 0;
        let mut i: usize = 0;
        while i < self.headers.len()
            invariant
                i <= self.headers@.len(),
                hs == self@,
                empty == (header@.len() == 0),
                seen as int == positions(hs.take(i as int), header@).len(),
                seen <= occurrence,
            decreases self.headers.len() - i,
        {
            assert(hs.take(i + 1).drop_last() =~= hs.take(i as int));
            assert(hs.take(i + 1).last() == self.headers@[i as int]@);
            if !empty && str_eq(self.headers[i].as_str(), header) {
                if seen == occurrence {
                    proof {
                        lemma_positions_prefix(hs, header@, i + 1);
                    }
                    return Some(i);
                }
                seen += 1;
            }
            i += 1;
        }
        assert(hs.take(i as int) =~= hs);
        None
    }
}

impl HeaderIndex {
    /// Whether some non-empty header equals `header`.
    pub fn has(&self, header: &str) -> (r: bool)
        ensures
            r == (positions(self@, header@).len() > 0),
    {
        let r = self.get(header, 0);
        r.is_some()
    }

    fn extends(&self, i: usize, wanted: &Vec<char>) -> (r: bool)
        requires
            i < self.headers@.len(),
        ensures
            r == (self@[i as int].len() > 0 && fuzzy_ok(self@[i as int], wanted@)),
    {
        let k = chars_of(self.headers[i].as_str());
        assert(k@ == self@[i as int]);
        if k.len() == 0 || k.len() <= wanted.len() {
            return false;
        }
        if !chars_starts_with(k.as_slice(), wanted.as_slice()) {
            return false;
        }
        !is_alphanumeric(k[wanted.len()])
    }

    /// Exact match first; otherwise the position in the only file header
    /// that starts with `header` and continues with a non-alphanumeric
    /// character; none when several headers qualify.
    pub fn get_fuzzy(&self, header: &str, occurrence: usize) -> (r: Option<usize>)
        ensures
            match r {
                Some(i) => get_fuzzy_spec(self@, header@, occurrence as int) == Some(i as int),
                None => get_fuzzy_spec(self@, header@, occurrence as int) is None,
            },
    {
        if let Some(i) = self.get(header, occurrence) {
            return Some(i);
        }
        let ghost hs = self@;
        let wanted = chars_of(header);
        let mut key: Option<usize> = None;
        let mut i: usize = 0;
        while i < self.headers.len()
            invariant
                i <= self.headers@.len(),
                hs == self@,
                wanted@ == header@,
                get_spec(hs, header@, occurrence as int) is None,
                match key {
                    None => fuzzy_keys(hs.take(i as int), header@).len() == 0,
                    Some(k) => k < i && fuzzy_keys(hs.take(i as int), header@) == seq![hs[k as int]],
                },
            decreases self.headers.len() - i,
        {
            assert(hs.take(i + 1).drop_last() =~= hs.take(i as int));
            assert(hs.take(i + 1).last() == hs[i as int]);
            if self.extends(i, &wanted) {
                match key {
                    None => {
                        key = Some(i);
                    },
                    Some(k) => {
                        if !str_eq(self.headers[k].as_str(), self.headers[i].as_str()) {
                            proof {
                                assert(!seq![hs[k as int]].contains(hs[i as int]));
                                assert(fuzzy_keys(hs.take(i + 1), header@).len() == 2);
                                lemma_fuzzy_keys_grow(hs, header@, i + 1);
                            }
                            return None;
                        } else {
                            assert(seq![hs[k as int]].contains(hs[i as int])) by {
                                assert(seq![hs[k as int]][0] == hs[i as int]);
                            }
                        }
                    },
                }
            }
            i += 1;
        }
        assert(hs.take(i as int) =~= hs);
        match key {
            Some(k) => self.get(self.headers[k].as_str(), occurrence),
            None => None,
        }
    }

    /// The first candidate `(header, occurrence)` that is present.
    pub fn first_of(&self, candidates: &[(&str, usize)]) -> (r: Option<usize>)
        ensures
            match r {
                Some(i) => first_of_spec(self@, cand_view(candidates@)) == Some(i as int),
                None => first_of_spec(self@, cand_view(candidates@)) is None,
            },
    {
        let ghost cv = cand_view(candidates@);
        assert(cv.skip(0) =~= cv);
        let mut j: usize = 0;
        while j < candidates.len()
            invariant
                j <= candidates@.len(),
                cv == cand_view(candidates@),
                first_of_spec(self@, cv) == first_of_spec(self@, cv.skip(j as int)),
            decreases candidates.len() - j,
        {
            assert(cv.skip(j as int).drop_first() =~= cv.skip(j + 1));
            let (h, occ) = candidates[j];
            if let Some(i) = self.get(h, occ) {
                return Some(i);
            }
            j += 1;
        }
        None
    }

    /// Exact match first; otherwise occurrence `occurrence` among the
    /// headers with the same normal form, in file order.
    pub fn get_norm(&self, header: &str, occurrence: usize) -> (r: Option<usize>)
        ensures
            match r {
                Some(i) => get_norm_spec(self@, header@, occurrence as int) == Some(i as int),
                None => get_norm_spec(self@, header@, occurrence as int) is None,
            },
    {
        if let Some(i) = self.get(header, occurrence) {
            return Some(i);
        }
        let ghost hs = self@;
        let wanted = norm_header(header);
        let mut seen: usize = 0;
        let mut i: usize = 0;
        while i < self.headers.len()
            invariant
                i <= self.headers@.len(),
                hs == self@,
                wanted@ == norm(header@),
                get_spec(hs, header@, occurrence as int) is None,
                seen as int == norm_positions(hs.take(i as int), wanted@).len(),
                seen <= occurrence,
            decreases self.headers.len() - i,
        {
            assert(hs.take(i + 1).drop_last() =~= hs.take(i as int));
            assert(hs.take(i + 1).last() == hs[i as int]);
            let n = norm_header(self.headers[i].as_str());
            if !self.headers[i].as_str().is_empty() && chars_eq(n.as_slice(), wanted.as_slice()) {
                if seen == occurrence {
                    proof {
                        lemma_norm_positions_prefix(hs, wanted@, i + 1);
                    }
                    return Some(i);
                }
                seen += 1;
            }
            i += 1;
        }
        assert(hs.take(i as int) =~= hs);
        None
    }

    /// The first candidate present under normalized matching.
    pub fn first_norm_of(&self, candidates: &[(&str, usize)]) -> (r: Option<usize>)
        ensures
            match r {
                Some(i) => first_norm_of_spec(self@, cand_view(candidates@)) == Some(i as int),
                None => first_norm_of_spec(self@, cand_view(candidates@)) is None,
            },
    {
        let ghost cv = cand_view(candidates@);
        assert(cv.skip(0) =~= cv);
        let mut j: usize = 0;
        while j < candidates.len()
            invariant
                j <= candidates@.len(),
                cv == cand_view(candidates@),
                first_norm_of_spec(self@, cv) == first_norm_of_spec(self@, cv.skip(j as int)),
            decreases candidates.len() - j,
        {
            assert(cv.skip(j as int).drop_first() =~= cv.skip(j + 1));
            let (h, occ) = candidates[j];
            if let Some(i) = self.get_norm(h, occ) {
                return Some(i);
            }
            j += 1;
        }
        None
    }

    /// All columns whose header starts with `prefix`, in file order.
    pub fn all_with_prefix(&self, prefix: &str) -> (r: Vec<usize>)
        ensures
            ints(r@) == prefix_positions(self@, prefix@),
    {
        let ghost hs = self@;
        let p = chars_of(prefix);
        let mut out: Vec<usize> = Vec::new();
        let mut i: usize = 0;
        while i < self.headers.len()
            invariant
                i <= self.headers@.len(),
                hs == self@,
                p@ == prefix@,
                ints(out@) == prefix_positions(hs.take(i as int), prefix@),
            decreases self.headers.len() - i,
        {
            assert(hs.take(i + 1).drop_last() =~= hs.take(i as int));
            assert(hs.take(i + 1).last() == hs[i as int]);
            let k = chars_of(self.headers[i].as_str());
            if k.len() > 0 && chars_starts_with(k.as_slice(), p.as_slice()) {
                out.push(i);
                assert(ints(out@) =~= prefix_positions(hs.take(i + 1), prefix@));
            }
            i += 1;
        }
        assert(hs.take(i as int) =~= hs);
        out
    }

    /// All columns whose normalized header starts with the normalized form
    /// of one of `prefixes`, in file order, each once.
    pub fn all_norm_with_prefixes(&self, prefixes: &[&str]) -> (r: Vec<usize>)
        ensures
            ints(r@) == norm_prefix_positions(self@, strs_view(prefixes@)),
    {
        let ghost hs = self@;
        let ghost ps = strs_view(prefixes@);
        let mut normed: Vec<Vec<char>> = Vec::new();
        let mut j: usize = 0;
        while j < prefixes.len()
            invariant
                j <= prefixes@.len(),
                ps == strs_view(prefixes@),
                normed@.len() == j,
                forall|m: int| 0 <= m < j ==> #[trigger] normed@[m]@ == norm(ps[m]),
            decreases prefixes.len() - j,
        {
            normed.push(norm_header(prefixes[j]));
            j += 1;
        }
        let mut out: Vec<usize> = Vec::new();
        let mut i: usize = 0;
        while i < self.headers.len()
            invariant
                i <= self.headers@.len(),
                hs == self@,
                ps == strs_view(prefixes@),
                normed@.len() == ps.len(),
                forall|m: int| 0 <= m < ps.len() ==> #[trigger] normed@[m]@ == norm(ps[m]),
                ints(out@) == norm_prefix_positions(hs.take(i as int), ps),
            decreases self.headers.len() - i,
        {
            assert(hs.take(i + 1).drop_last() =~= hs.take(i as int));
            assert(hs.take(i + 1).last() == hs[i as int]);
            let n = norm_header(self.headers[i].as_str());
            let mut any = false;
            let mut m: usize = 0;
            while m < normed.len()
                invariant
                    m <= normed@.len(),
                    normed@.len() == ps.len(),
                    forall|q: int| 0 <= q < ps.len() ==> #[trigger] normed@[q]@ == norm(ps[q]),
                    n@ == norm(hs[i as int]),
                    any == exists|q: int| 0 <= q < m && has_prefix(norm(hs[i as int]), norm(#[trigger] ps[q])),
                decreases normed.len() - m,
            {
                if chars_starts_with(n.as_slice(), normed[m].as_slice()) {
                    any = true;
                }
                m += 1;
            }
            if !self.headers[i].as_str().is_empty() && any {
                out.push(i);
                assert(ints(out@) =~= norm_prefix_positions(hs.take(i + 1), ps));
            }
            i += 1;
        }
        assert(hs.take(i as int) =~= hs);
        out
    }
}

/// Candidate list as spec values.
pub open spec fn cand_view(c: Seq<(&str, usize)>) -> Seq<(Seq<char>, int)> {
    c.map_values(|p: (&str, usize)| (p.0@, p.1 as int))
}

/// Texts as spec values.
pub open spec fn strs_view(c: Seq<&str>) -> Seq<Seq<char>> {
    c.map_values(|p: &str| p@)
}

/// Positions as integers.
pub open spec fn ints(v: Seq<usize>) -> Seq<int> {
    v.map_values(|i: usize| i as int)
}

proof fn lemma_fuzzy_keys_grow(hs: Seq<Seq<char>>, h: Seq<char>, n: int)
    requires
        0 <= n <= hs.len(),
    ensures
        fuzzy_keys(hs.take(n), h).len() <= fuzzy_keys(hs, h).len(),
    decreases hs.len() - n,
{
    if n < hs.len() {
        lemma_fuzzy_keys_grow(hs, h, n + 1);
        assert(hs.take(n + 1).drop_last() =~= hs.take(n));
    } else {
        assert(hs.take(n) =~= hs);
    }
}

proof fn lemma_norm_positions_prefix(hs: Seq<Seq<char>>, w: Seq<char>, n: int)
    requires
        0 <= n <= hs.len(),
    ensures
        norm_positions(hs.take(n), w).len() <= norm_positions(hs, w).len(),
        forall|k: int|
            0 <= k < norm_positions(hs.take(n), w).len() ==> #[trigger] norm_positions(hs, w)[k]
                == norm_positions(hs.take(n), w)[k],
    decreases hs.len() - n,
{
    if n < hs.len() {
        lemma_norm_positions_prefix(hs, w, n + 1);
        assert(hs.take(n + 1).drop_last() =~= hs.take(n));
    } else {
        assert(hs.take(n) =~= hs);
    }
}

/// Positions found in a prefix of the headers stay at the front of the
/// positions of the whole row.
proof fn lemma_positions_prefix(hs: Seq<Seq<char>>, h: Seq<char>, n: int)
    requires
        0 <= n <= hs.len(),
    ensures
        positions(hs.take(n), h).len() <= positions(hs, h).len(),
        forall|k: int|
            0 <= k < positions(hs.take(n), h).len() ==> #[trigger] positions(hs, h)[k] == positions(
                hs.take(n),
                h,
            )[k],
    decreases hs.len() - n,
{
    if n < hs.len() {
        lemma_positions_prefix(hs, h, n + 1);
        assert(hs.take(n + 1).drop_last() =~= hs.take(n));
    } else {
        assert(hs.take(n) =~= hs);
    }
}

// ---------- column sources ----------

/// Where a schema column's value comes from in a file row.
pub enum ColSrc {
    /// The file does not contain this column.
    Missing,
    Cell(usize),
    /// Several file columns joined with a separator, such as
    /// `UA100290/2024/102794`.
    Join(Vec<usize>, &'static str),
}

/// Abstract column source.
pub enum ColSrcModel {
    Missing,
    Cell(int),
    Join(Seq<int>, Seq<char>),
}

impl View for ColSrc {
    type V = ColSrcModel;

    open spec fn view(&self) -> ColSrcModel {
        match self {
            ColSrc::Missing => ColSrcModel::Missing,
            ColSrc::Cell(i) => ColSrcModel::Cell(*i as int),
            ColSrc::Join(parts, sep) => ColSrcModel::Join(ints(parts@), sep@),
        }
    }
}

/// Models of a mapping.
pub open spec fn srcs_model(v: Seq<ColSrc>) -> Seq<ColSrcModel> {
    v.map_values(|c: ColSrc| c@)
}

pub open spec fn opt_int(o: Option<usize>) -> Option<int> {
    match o {
        Some(i) => Some(i as int),
        None => None,
    }
}

/// The first of two lookups that found something.
pub open spec fn or_pos(a: Option<int>, b: Option<int>) -> Option<int> {
    match a {
        Some(i) => Some(i),
        None => b,
    }
}

fn or_position(a: Option<usize>, b: Option<usize>) -> (r: Option<usize>)
    ensures
        opt_int(r) == or_pos(opt_int(a), opt_int(b)),
{
    match a {
        Some(i) => Some(i),
        None => b,
    }
}

/// A single cell when the lookup found one.
pub open spec fn opt_src(o: Option<int>) -> ColSrcModel {
    match o {
        Some(i) => ColSrcModel::Cell(i),
        None => ColSrcModel::Missing,
    }
}

fn opt_col(o: Option<usize>) -> (r: ColSrc)
    ensures
        r@ == opt_src(opt_int(o)),
{
    match o {
        Some(i) => ColSrc::Cell(i),
        None => ColSrc::Missing,
    }
}

/// Parts joined with "/" when there are any.
pub open spec fn join_src(parts: Seq<int>) -> ColSrcModel {
    if parts.len() == 0 {
        ColSrcModel::Missing
    } else {
        ColSrcModel::Join(parts, "/"@)
    }
}

fn join_col(parts: Vec<usize>) -> (r: ColSrc)
    ensures
        r@ == join_src(ints(parts@)),
{
    if parts.len() == 0 {
        ColSrc::Missing
    } else {
        ColSrc::Join(parts, "/")
    }
}

// ---------- standard layout ----------

/// Standard layout: every required header is present (exactly or extended
/// after a separator); each schema column is looked up by its header.
pub open spec fn format_a(hs: Seq<Seq<char>>) -> Option<Seq<ColSrcModel>> {
    if forall|j: int| 0 <= j < 7 ==> (#[trigger] get_fuzzy_spec(hs, required_header(j), 0)) is Some {
        Some(Seq::new(41, |i: int| opt_src(get_fuzzy_spec(hs, column_header(i), 0))))
    } else {
        None
    }
}

pub fn map_format_a(idx: &HeaderIndex) -> (r: Option<Vec<ColSrc>>)
    ensures
        match r {
            Some(v) => format_a(idx@) == Some(srcs_model(v@)),
            None => format_a(idx@) is None,
        },
{
    let mut j: usize = 0;
    while j < REQUIRED_HEADER_COUNT
        invariant
            j <= REQUIRED_HEADER_COUNT,
            forall|k: int| 0 <= k < j ==> (#[trigger] get_fuzzy_spec(idx@, required_header(k), 0)) is Some,
        decreases REQUIRED_HEADER_COUNT - j,
    {
        if idx.get_fuzzy(required_header_at(j), 0).is_none() {
            return None;
        }
        j += 1;
    }
    let mut out: Vec<ColSrc> = Vec::new();
    let mut i: usize = 0;
    while i < COLUMN_COUNT
        invariant
            i <= COLUMN_COUNT,
            out@.len() == i,
            forall|k: int| 0 <= k < i ==> #[trigger] out@[k]@ == opt_src(get_fuzzy_spec(idx@, column_header(k), 0)),
        decreases COLUMN_COUNT - i,
    {
        let c = opt_col(idx.get_fuzzy(column_header_at(i), 0));
        let ghost old_out = out@;
        out.push(c);
        i += 1;
        assert forall|k: int| 0 <= k < i implies #[trigger] out@[k]@ == opt_src(get_fuzzy_spec(idx@, column_header(k), 0)) by {
            if k < i - 1 {
                assert(out@[k] == old_out[k]);
            }
        }
    }
    assert(srcs_model(out@) =~= Seq::new(41, |i: int| opt_src(get_fuzzy_spec(idx@, column_header(i), 0))));
    Some(out)
}

// ---------- registry-style and wide layouts ----------

pub open spec fn fb_decl_number_parts(hs: Seq<Seq<char>>) -> Seq<int> {
    prefix_positions(hs, "Номер деклараці"@)
}

fn fb_decl_number_parts_at(idx: &HeaderIndex) -> (r: Vec<usize>)
    ensures
        ints(r@) == fb_decl_number_parts(idx@),
{

    idx.all_with_prefix("Номер деклараці")
}

pub open spec fn fb_description(hs: Seq<Seq<char>>) -> Option<int> {
    first_of_spec(hs, seq![("Найменування товару"@, 0int), ("Назва товару"@, 0int)])
}

fn fb_description_at(idx: &HeaderIndex) -> (r: Option<usize>)
    ensures
        opt_int(r) == fb_description(idx@),
{
    let c1: [(&str, usize); 2] = [("Найменування товару", 0usize), ("Назва товару", 0usize)];
    assert(cand_view(c1@) =~= seq![("Найменування товару"@, 0int), ("Назва товару"@, 0int)]);
    idx.first_of(&c1)
}

pub open spec fn fb_product_code(hs: Seq<Seq<char>>) -> Option<int> {
    first_of_spec(hs, seq![("Код товара"@, 0int), ("Код товару"@, 0int)])
}

fn fb_product_code_at(idx: &HeaderIndex) -> (r: Option<usize>)
    ensures
        opt_int(r) == fb_product_code(idx@),
{
    let c2: [(&str, usize); 2] = [("Код товара", 0usize), ("Код товару", 0usize)];
    assert(cand_view(c2@) =~= seq![("Код товара"@, 0int), ("Код товару"@, 0int)]);
    idx.first_of(&c2)
}

pub open spec fn fb_sender(hs: Seq<Seq<char>>) -> Option<int> {
    first_of_spec(hs, seq![("Відпправник"@, 0int), ("Відправник"@, 0int), ("Назва фірми відправиника"@, 0int), ("Назва фірми відправника"@, 0int)])
}

fn fb_sender_at(idx: &HeaderIndex) -> (r: Option<usize>)
    ensures
        opt_int(r) == fb_sender(idx@),
{
    let c3: [(&str, usize); 4] = [("Відпправник", 0usize), ("Відправник", 0usize), ("Назва фірми відправиника", 0usize), ("Назва фірми відправника", 0usize)];
    assert(cand_view(c3@) =~= seq![("Відпправник"@, 0int), ("Відправник"@, 0int), ("Назва фірми відправиника"@, 0int), ("Назва фірми відправника"@, 0int)]);
    idx.first_of(&c3)
}

pub open spec fn fb_edrpou(hs: Seq<Seq<char>>) -> Option<int> {
    first_of_spec(hs, seq![("Отримувач"@, 0int), ("Код фірми отримувача"@, 0int)])
}

fn fb_edrpou_at(idx: &HeaderIndex) -> (r: Option<usize>)
    ensures
        opt_int(r) == fb_edrpou(idx@),
{
    let c4: [(&str, usize); 2] = [("Отримувач", 0usize), ("Код фірми отримувача", 0usize)];
    assert(cand_view(c4@) =~= seq![("Отримувач"@, 0int), ("Код фірми отримувача"@, 0int)]);
    idx.first_of(&c4)
}

pub open spec fn fb_recipient(hs: Seq<Seq<char>>) -> Option<int> {
    first_of_spec(hs, seq![("Отримувач"@, 1int), ("Назва фірми отримувача"@, 0int)])
}

fn fb_recipient_at(idx: &HeaderIndex) -> (r: Option<usize>)
    ensures
        opt_int(r) == fb_recipient(idx@),
{
    let c5: [(&str, usize); 2] = [("Отримувач", 1usize), ("Назва фірми отримувача", 0usize)];
    assert(cand_view(c5@) =~= seq![("Отримувач"@, 1int), ("Назва фірми отримувача"@, 0int)]);
    idx.first_of(&c5)
}

pub open spec fn fb_item_number(hs: Seq<Seq<char>>) -> Option<int> {
    first_of_spec(hs, seq![("Номер товара"@, 0int), ("Номер товару"@, 0int)])
}

fn fb_item_number_at(idx: &HeaderIndex) -> (r: Option<usize>)
    ensures
        opt_int(r) == fb_item_number(idx@),
{
    let c6: [(&str, usize); 2] = [("Номер товара", 0usize), ("Номер товару", 0usize)];
    assert(cand_view(c6@) =~= seq![("Номер товара"@, 0int), ("Номер товару"@, 0int)]);
    idx.first_of(&c6)
}

pub open spec fn fb_quantity(hs: Seq<Seq<char>>) -> Option<int> {
    first_of_spec(hs, seq![("Дод.од"@, 0int), ("Додатковоа одиниця виміру"@, 0int), ("Додаткова одиниця виміру"@, 0int)])
}

fn fb_quantity_at(idx: &HeaderIndex) -> (r: Option<usize>)
    ensures
        opt_int(r) == fb_quantity(idx@),
{
    let c7: [(&str, usize); 3] = [("Дод.од", 0usize), ("Додатковоа одиниця виміру", 0usize), ("Додаткова одиниця виміру", 0usize)];
    assert(cand_view(c7@) =~= seq![("Дод.од"@, 0int), ("Додатковоа одиниця виміру"@, 0int), ("Додаткова одиниця виміру"@, 0int)]);
    idx.first_of(&c7)
}

pub open spec fn fb_unit(hs: Seq<Seq<char>>) -> Option<int> {
    first_of_spec(hs, seq![("Дод.од"@, 1int), ("Додатковоа одиниця виміру"@, 1int), ("Додаткова одиниця виміру"@, 1int)])
}

fn fb_unit_at(idx: &HeaderIndex) -> (r: Option<usize>)
    ensures
        opt_int(r) == fb_unit(idx@),
{
    let c8: [(&str, usize); 3] = [("Дод.од", 1usize), ("Додатковоа одиниця виміру", 1usize), ("Додаткова одиниця виміру", 1usize)];
    assert(cand_view(c8@) =~= seq![("Дод.од"@, 1int), ("Додатковоа одиниця виміру"@, 1int), ("Додаткова одиниця виміру"@, 1int)]);
    idx.first_of(&c8)
}

pub open spec fn fb_value_usd(hs: Seq<Seq<char>>) -> Option<int> {
    first_of_spec(hs, seq![("Фактурнаа вартість, $"@, 0int), ("Фактурна вартість, $"@, 0int)])
}

fn fb_value_usd_at(idx: &HeaderIndex) -> (r: Option<usize>)
    ensures
        opt_int(r) == fb_value_usd(idx@),
{
    let c9: [(&str, usize); 2] = [("Фактурнаа вартість, $", 0usize), ("Фактурна вартість, $", 0usize)];
    assert(cand_view(c9@) =~= seq![("Фактурнаа вартість, $"@, 0int), ("Фактурна вартість, $"@, 0int)]);
    idx.first_of(&c9)
}

pub open spec fn fb_price_usd_kg(hs: Seq<Seq<char>>) -> Option<int> {
    first_of_spec(hs, seq![("Ціна, $/кг"@, 0int), ("Вартість, $/кг"@, 0int)])
}

fn fb_price_usd_kg_at(idx: &HeaderIndex) -> (r: Option<usize>)
    ensures
        opt_int(r) == fb_price_usd_kg(idx@),
{
    let c10: [(&str, usize); 2] = [("Ціна, $/кг", 0usize), ("Вартість, $/кг", 0usize)];
    assert(cand_view(c10@) =~= seq![("Ціна, $/кг"@, 0int), ("Вартість, $/кг"@, 0int)]);
    idx.first_of(&c10)
}

pub open spec fn fb_movement_feature(hs: Seq<Seq<char>>) -> Option<int> {
    first_of_spec(hs, seq![("Ознака товару в контейнері"@, 0int), ("Ознака товару у контейнері"@, 0int)])
}

fn fb_movement_feature_at(idx: &HeaderIndex) -> (r: Option<usize>)
    ensures
        opt_int(r) == fb_movement_feature(idx@),
{
    let c11: [(&str, usize); 2] = [("Ознака товару в контейнері", 0usize), ("Ознака товару у контейнері", 0usize)];
    assert(cand_view(c11@) =~= seq![("Ознака товару в контейнері"@, 0int), ("Ознака товару у контейнері"@, 0int)]);
    idx.first_of(&c11)
}

pub open spec fn fb_customs_value_method(hs: Seq<Seq<char>>) -> Option<int> {
    first_of_spec(hs, seq![("Метод визначення митної вартості"@, 0int)])
}

fn fb_customs_value_method_at(idx: &HeaderIndex) -> (r: Option<usize>)
    ensures
        opt_int(r) == fb_customs_value_method(idx@),
{
    let c12: [(&str, usize); 1] = [("Метод визначення митної вартості", 0usize)];
    assert(cand_view(c12@) =~= seq![("Метод визначення митної вартості"@, 0int)]);
    idx.first_of(&c12)
}

pub open spec fn fb_duty_uah(hs: Seq<Seq<char>>) -> Option<int> {
    first_of_spec(hs, seq![("Мито, грн."@, 0int), ("Мито, грн"@, 0int)])
}

fn fb_duty_uah_at(idx: &HeaderIndex) -> (r: Option<usize>)
    ensures
        opt_int(r) == fb_duty_uah(idx@),
{
    let c13: [(&str, usize); 2] = [("Мито, грн.", 0usize), ("Мито, грн", 0usize)];
    assert(cand_view(c13@) =~= seq![("Мито, грн."@, 0int), ("Мито, грн"@, 0int)]);
    idx.first_of(&c13)
}

pub open spec fn fb_excise_uah(hs: Seq<Seq<char>>) -> Option<int> {
    first_of_spec(hs, seq![("Акциз, грн."@, 0int), ("Акциз, грн"@, 0int)])
}

fn fb_excise_uah_at(idx: &HeaderIndex) -> (r: Option<usize>)
    ensures
        opt_int(r) == fb_excise_uah(idx@),
{
    let c14: [(&str, usize); 2] = [("Акциз, грн.", 0usize), ("Акциз, грн", 0usize)];
    assert(cand_view(c14@) =~= seq![("Акциз, грн."@, 0int), ("Акциз, грн"@, 0int)]);
    idx.first_of(&c14)
}

pub open spec fn fb_vat_uah(hs: Seq<Seq<char>>) -> Option<int> {
    first_of_spec(hs, seq![("ПДВ, грн."@, 0int), ("ПДВ, грн"@, 0int)])
}

fn fb_vat_uah_at(idx: &HeaderIndex) -> (r: Option<usize>)
    ensures
        opt_int(r) == fb_vat_uah(idx@),
{
    let c15: [(&str, usize); 2] = [("ПДВ, грн.", 0usize), ("ПДВ, грн", 0usize)];
    assert(cand_view(c15@) =~= seq![("ПДВ, грн."@, 0int), ("ПДВ, грн"@, 0int)]);
    idx.first_of(&c15)
}

pub open spec fn fb_decl_type_parts(hs: Seq<Seq<char>>) -> Seq<int> {
    prefix_positions(hs, "Тип деклараці"@)
}

fn fb_decl_type_parts_at(idx: &HeaderIndex) -> (r: Vec<usize>)
    ensures
        ints(r@) == fb_decl_type_parts(idx@),
{

    idx.all_with_prefix("Тип деклараці")
}

/// Source of schema column `i` in the registry-style layout.
pub open spec fn fb_col(hs: Seq<Seq<char>>, i: int) -> ColSrcModel {
    if i == 1 {
        opt_src(get_spec(hs, "Митниця оформлення"@, 0))
    } else if i == 2 {
        join_src(fb_decl_type_parts(hs))
    } else if i == 3 {
        join_src(fb_decl_number_parts(hs))
    } else if i == 4 {
        opt_src(get_spec(hs, "Дата оформлення"@, 0))
    } else if i == 5 {
        opt_src(fb_sender(hs))
    } else if i == 6 {
        opt_src(fb_edrpou(hs))
    } else if i == 7 {
        opt_src(fb_recipient(hs))
    } else if i == 8 {
        opt_src(fb_item_number(hs))
    } else if i == 9 {
        opt_src(fb_product_code(hs))
    } else if i == 10 {
        opt_src(fb_description(hs))
    } else if i == 11 {
        opt_src(get_spec(hs, "Торгуюча країна"@, 0))
    } else if i == 12 {
        opt_src(get_spec(hs, "Країна відправлення"@, 0))
    } else if i == 13 {
        opt_src(get_spec(hs, "Країна походження"@, 0))
    } else if i == 14 {
        opt_src(get_spec(hs, "Умови поставки"@, 0))
    } else if i == 15 {
        opt_src(get_spec(hs, "Умови поставки"@, 1))
    } else if i == 16 {
        opt_src(fb_quantity(hs))
    } else if i == 17 {
        opt_src(fb_unit(hs))
    } else if i == 18 {
        opt_src(get_spec(hs, "Вага брутто, кг"@, 0))
    } else if i == 19 {
        opt_src(get_spec(hs, "Вага нетто, кг"@, 0))
    } else if i == 21 {
        opt_src(fb_value_usd(hs))
    } else if i == 22 {
        opt_src(fb_movement_feature(hs))
    } else if i == 23 {
        opt_src(fb_customs_value_method(hs))
    } else if i == 25 {
        opt_src(fb_price_usd_kg(hs))
    } else if i == 29 {
        opt_src(fb_duty_uah(hs))
    } else if i == 30 {
        opt_src(fb_excise_uah(hs))
    } else if i == 31 {
        opt_src(fb_vat_uah(hs))
    } else {
        ColSrcModel::Missing
    }
}

fn fb_column(idx: &HeaderIndex, i: usize) -> (r: ColSrc)
    requires
        i < 41,
    ensures
        r@ == fb_col(idx@, i as int),
{
    match i {
        1 => {
            opt_col(idx.get("Митниця оформлення", 0))
        },
        2 => join_col(fb_decl_type_parts_at(idx)),
        3 => join_col(fb_decl_number_parts_at(idx)),
        4 => {
            opt_col(idx.get("Дата оформлення", 0))
        },
        5 => {
            opt_col(fb_sender_at(idx))
        },
        6 => {
            opt_col(fb_edrpou_at(idx))
        },
        7 => {
            opt_col(fb_recipient_at(idx))
        },
        8 => {
            opt_col(fb_item_number_at(idx))
        },
        9 => {
            opt_col(fb_product_code_at(idx))
        },
        10 => {
            opt_col(fb_description_at(idx))
        },
        11 => {
            opt_col(idx.get("Торгуюча країна", 0))
        },
        12 => {
            opt_col(idx.get("Країна відправлення", 0))
        },
        13 => {
            opt_col(idx.get("Країна походження", 0))
        },
        14 => {
            opt_col(idx.get("Умови поставки", 0))
        },
        15 => {
            opt_col(idx.get("Умови поставки", 1))
        },
        16 => {
            opt_col(fb_quantity_at(idx))
        },
        17 => {
            opt_col(fb_unit_at(idx))
        },
        18 => {
            opt_col(idx.get("Вага брутто, кг", 0))
        },
        19 => {
            opt_col(idx.get("Вага нетто, кг", 0))
        },
        21 => {
            opt_col(fb_value_usd_at(idx))
        },
        22 => {
            opt_col(fb_movement_feature_at(idx))
        },
        23 => {
            opt_col(fb_customs_value_method_at(idx))
        },
        25 => {
            opt_col(fb_price_usd_kg_at(idx))
        },
        29 => {
            opt_col(fb_duty_uah_at(idx))
        },
        30 => {
            opt_col(fb_excise_uah_at(idx))
        },
        31 => {
            opt_col(fb_vat_uah_at(idx))
        },
        _ => ColSrc::Missing,
    }
}

pub open spec fn fw_decl_number_parts(hs: Seq<Seq<char>>) -> Seq<int> {
    norm_prefix_positions(hs, seq!["Номер декларации"@, "Номер декларації"@])
}

fn fw_decl_number_parts_at(idx: &HeaderIndex) -> (r: Vec<usize>)
    ensures
        ints(r@) == fw_decl_number_parts(idx@),
{
    let p16: [&str; 2] = ["Номер декларации", "Номер декларації"];
    assert(strs_view(p16@) =~= seq!["Номер декларации"@, "Номер декларації"@]);
    idx.all_norm_with_prefixes(&p16)
}

pub open spec fn fw_declaration_date(hs: Seq<Seq<char>>) -> Option<int> {
    first_norm_of_spec(hs, seq![("Дата оформления"@, 0int), ("Дата оформлення"@, 0int)])
}

fn fw_declaration_date_at(idx: &HeaderIndex) -> (r: Option<usize>)
    ensures
        opt_int(r) == fw_declaration_date(idx@),
{
    let c17: [(&str, usize); 2] = [("Дата оформления", 0usize), ("Дата оформлення", 0usize)];
    assert(cand_view(c17@) =~= seq![("Дата оформления"@, 0int), ("Дата оформлення"@, 0int)]);
    idx.first_norm_of(&c17)
}

pub open spec fn fw_product_code(hs: Seq<Seq<char>>) -> Option<int> {
    first_norm_of_spec(hs, seq![("КОД ТОВАРУ"@, 0int), ("Код товара"@, 0int), ("Код товару"@, 0int)])
}

fn fw_product_code_at(idx: &HeaderIndex) -> (r: Option<usize>)
    ensures
        opt_int(r) == fw_product_code(idx@),
{
    let c18: [(&str, usize); 3] = [("КОД ТОВАРУ", 0usize), ("Код товара", 0usize), ("Код товару", 0usize)];
    assert(cand_view(c18@) =~= seq![("КОД ТОВАРУ"@, 0int), ("Код товара"@, 0int), ("Код товару"@, 0int)]);
    idx.first_norm_of(&c18)
}

pub open spec fn fw_description(hs: Seq<Seq<char>>) -> Option<int> {
    first_norm_of_spec(hs, seq![("ОПИС ТОВАРУ"@, 0int), ("Описание товара"@, 0int), ("Опис товару"@, 0int), ("Найменування товару"@, 0int), ("Назва товару"@, 0int)])
}

fn fw_description_at(idx: &HeaderIndex) -> (r: Option<usize>)
    ensures
        opt_int(r) == fw_description(idx@),
{
    let c19: [(&str, usize); 5] = [("ОПИС ТОВАРУ", 0usize), ("Описание товара", 0usize), ("Опис товару", 0usize), ("Найменування товару", 0usize), ("Назва товару", 0usize)];
    assert(cand_view(c19@) =~= seq![("ОПИС ТОВАРУ"@, 0int), ("Описание товара"@, 0int), ("Опис товару"@, 0int), ("Найменування товару"@, 0int), ("Назва товару"@, 0int)]);
    idx.first_norm_of(&c19)
}

pub open spec fn fw_value_usd(hs: Seq<Seq<char>>) -> Option<int> {
    first_norm_of_spec(hs, seq![("Фактурная стоимость, $"@, 0int), ("Фактурна вартість, $"@, 0int)])
}

fn fw_value_usd_at(idx: &HeaderIndex) -> (r: Option<usize>)
    ensures
        opt_int(r) == fw_value_usd(idx@),
{
    let c20: [(&str, usize); 2] = [("Фактурная стоимость, $", 0usize), ("Фактурна вартість, $", 0usize)];
    assert(cand_view(c20@) =~= seq![("Фактурная стоимость, $"@, 0int), ("Фактурна вартість, $"@, 0int)]);
    idx.first_norm_of(&c20)
}

pub open spec fn fw_decl_type_parts(hs: Seq<Seq<char>>) -> Seq<int> {
    norm_prefix_positions(hs, seq!["Тип декларации"@, "Тип декларації"@])
}

fn fw_decl_type_parts_at(idx: &HeaderIndex) -> (r: Vec<usize>)
    ensures
        ints(r@) == fw_decl_type_parts(idx@),
{
    let p21: [&str; 2] = ["Тип декларации", "Тип декларації"];
    assert(strs_view(p21@) =~= seq!["Тип декларации"@, "Тип декларації"@]);
    idx.all_norm_with_prefixes(&p21)
}

pub open spec fn fw_recipient_code(hs: Seq<Seq<char>>) -> Option<int> {
    first_norm_of_spec(hs, seq![("Получатель"@, 0int)])
}

fn fw_recipient_code_at(idx: &HeaderIndex) -> (r: Option<usize>)
    ensures
        opt_int(r) == fw_recipient_code(idx@),
{
    let c22: [(&str, usize); 1] = [("Получатель", 0usize)];
    assert(cand_view(c22@) =~= seq![("Получатель"@, 0int)]);
    idx.first_norm_of(&c22)
}

pub open spec fn fw_sender_code(hs: Seq<Seq<char>>) -> Option<int> {
    if fw_recipient_code(hs) is None { first_norm_of_spec(hs, seq![("Отправитель"@, 0int)]) } else { None }
}

fn fw_sender_code_at(idx: &HeaderIndex) -> (r: Option<usize>)
    ensures
        opt_int(r) == fw_sender_code(idx@),
{
    let rc = fw_recipient_code_at(idx);
    if rc.is_none() {
        let c23: [(&str, usize); 1] = [("Отправитель", 0usize)];
        assert(cand_view(c23@) =~= seq![("Отправитель"@, 0int)]);
        idx.first_norm_of(&c23)
    } else {
        None
    }
}

pub open spec fn fw_recipient_name(hs: Seq<Seq<char>>) -> Option<int> {
    first_norm_of_spec(hs, seq![("ОТРИМУВАЧ"@, 0int), ("Отримувач"@, 0int), ("Получатель"@, 1int), ("Назва фірми отримувача"@, 0int)])
}

fn fw_recipient_name_at(idx: &HeaderIndex) -> (r: Option<usize>)
    ensures
        opt_int(r) == fw_recipient_name(idx@),
{
    let c24: [(&str, usize); 4] = [("ОТРИМУВАЧ", 0usize), ("Отримувач", 0usize), ("Получатель", 1usize), ("Назва фірми отримувача", 0usize)];
    assert(cand_view(c24@) =~= seq![("ОТРИМУВАЧ"@, 0int), ("Отримувач"@, 0int), ("Получатель"@, 1int), ("Назва фірми отримувача"@, 0int)]);
    idx.first_norm_of(&c24)
}

pub open spec fn fw_sender_name(hs: Seq<Seq<char>>) -> Option<int> {
    if fw_recipient_code(hs) is Some { first_norm_of_spec(hs, seq![("ВІДПРАВНИК"@, 0int), ("Відправник"@, 0int), ("Отправитель"@, 0int), ("Назва фірми відправника"@, 0int), ("Назва фірми відправиника"@, 0int)]) } else { first_norm_of_spec(hs, seq![("ВІДПРАВНИК"@, 0int), ("Відправник"@, 0int), ("Отправитель"@, 1int), ("Назва фірми відправника"@, 0int), ("Назва фірми відправиника"@, 0int)]) }
}

fn fw_sender_name_at(idx: &HeaderIndex) -> (r: Option<usize>)
    ensures
        opt_int(r) == fw_sender_name(idx@),
{
    let rc = fw_recipient_code_at(idx);
    if rc.is_some() {
        let c25: [(&str, usize); 5] = [("ВІДПРАВНИК", 0usize), ("Відправник", 0usize), ("Отправитель", 0usize), ("Назва фірми відправника", 0usize), ("Назва фірми відправиника", 0usize)];
        assert(cand_view(c25@) =~= seq![("ВІДПРАВНИК"@, 0int), ("Відправник"@, 0int), ("Отправитель"@, 0int), ("Назва фірми відправника"@, 0int), ("Назва фірми відправиника"@, 0int)]);
        idx.first_norm_of(&c25)
    } else {
        let c26: [(&str, usize); 5] = [("ВІДПРАВНИК", 0usize), ("Відправник", 0usize), ("Отправитель", 1usize), ("Назва фірми відправника", 0usize), ("Назва фірми відправиника", 0usize)];
        assert(cand_view(c26@) =~= seq![("ВІДПРАВНИК"@, 0int), ("Відправник"@, 0int), ("Отправитель"@, 1int), ("Назва фірми відправника"@, 0int), ("Назва фірми відправиника"@, 0int)]);
        idx.first_norm_of(&c26)
    }
}

/// Source of schema column `i` in the wide export layout.
pub open spec fn fw_col(hs: Seq<Seq<char>>, i: int) -> ColSrcModel {
    if i == 0 {
        opt_src(first_norm_of_spec(hs, seq![("Час оформлення"@, 0int), ("Время оформления"@, 0int)]))
    } else if i == 1 {
        opt_src(first_norm_of_spec(hs, seq![("Таможня оформления"@, 0int), ("Митниця оформлення"@, 0int), ("Назва ПМО"@, 0int)]))
    } else if i == 2 {
        join_src(fw_decl_type_parts(hs))
    } else if i == 3 {
        join_src(fw_decl_number_parts(hs))
    } else if i == 4 {
        opt_src(fw_declaration_date(hs))
    } else if i == 5 {
        opt_src(or_pos(fw_sender_name(hs), first_norm_of_spec(hs, seq![("Відправник"@, 0int)])))
    } else if i == 6 {
        opt_src(or_pos(fw_recipient_code(hs), fw_sender_code(hs)))
    } else if i == 7 {
        opt_src(fw_recipient_name(hs))
    } else if i == 8 {
        opt_src(first_norm_of_spec(hs, seq![("Номер товара"@, 0int), ("Номер товару"@, 0int), ("№"@, 0int)]))
    } else if i == 9 {
        opt_src(fw_product_code(hs))
    } else if i == 10 {
        opt_src(fw_description(hs))
    } else if i == 11 {
        opt_src(first_norm_of_spec(hs, seq![("Торгующая страна"@, 0int), ("Торгуюча країна"@, 0int), ("Кр.торг."@, 0int)]))
    } else if i == 12 {
        opt_src(first_norm_of_spec(hs, seq![("Страна отправления"@, 0int), ("Країна відправлення"@, 0int), ("Кр.відпр."@, 0int)]))
    } else if i == 13 {
        opt_src(first_norm_of_spec(hs, seq![("КРАЇНА ПОХОДЖЕННЯ"@, 0int), ("Страна происхождения"@, 0int), ("Країна походження"@, 0int), ("КРАЇНА ПРИХНАЧЕННЯ"@, 0int), ("КРАЇНА ПРИЗНАЧЕННЯ"@, 0int), ("Страна назначения"@, 0int)]))
    } else if i == 14 {
        opt_src(or_pos(get_norm_spec(hs, "Условия поставки"@, 0), get_norm_spec(hs, "Умови поставки"@, 0)))
    } else if i == 15 {
        opt_src(or_pos(get_norm_spec(hs, "Условия поставки"@, 1), get_norm_spec(hs, "Умови поставки"@, 1)))
    } else if i == 16 {
        opt_src(or_pos(get_norm_spec(hs, "Доп.ед"@, 0), get_norm_spec(hs, "Дод.од"@, 0)))
    } else if i == 17 {
        opt_src(or_pos(get_norm_spec(hs, "Доп.ед"@, 1), get_norm_spec(hs, "Дод.од"@, 1)))
    } else if i == 18 {
        opt_src(first_norm_of_spec(hs, seq![("Вес брутто, кг"@, 0int), ("Вага брутто, кг"@, 0int), ("Брутто, кг."@, 0int)]))
    } else if i == 19 {
        opt_src(first_norm_of_spec(hs, seq![("Вес нетто, кг"@, 0int), ("Вага нетто, кг"@, 0int), ("Нетто, кг."@, 0int)]))
    } else if i == 21 {
        opt_src(fw_value_usd(hs))
    } else if i == 22 {
        opt_src(first_norm_of_spec(hs, seq![("ОЗНАКА ТОВАРУ В КОНТЕЙНЕРІ"@, 0int), ("Признак товара в контейнере"@, 0int), ("Ознака товару в контейнері"@, 0int)]))
    } else if i == 23 {
        opt_src(first_norm_of_spec(hs, seq![("Метод"@, 0int), ("Метод визначення митної вартості"@, 0int)]))
    } else if i == 25 {
        opt_src(first_norm_of_spec(hs, seq![("ЦІНА, $/кг"@, 0int), ("Цена, $/кг"@, 0int), ("Вартість, $/кг"@, 0int)]))
    } else if i == 29 {
        opt_src(first_norm_of_spec(hs, seq![("Пошлина, грн."@, 0int), ("Пошлина, грн"@, 0int), ("Мито, грн."@, 0int)]))
    } else if i == 30 {
        opt_src(first_norm_of_spec(hs, seq![("Акциз, грн."@, 0int), ("Акциз, грн"@, 0int)]))
    } else if i == 31 {
        opt_src(first_norm_of_spec(hs, seq![("ПДВ, грн."@, 0int), ("ПДВ, грн"@, 0int)]))
    } else {
        ColSrcModel::Missing
    }
}

fn fw_column(idx: &HeaderIndex, i: usize) -> (r: ColSrc)
    requires
        i < 41,
    ensures
        r@ == fw_col(idx@, i as int),
{
    match i {
        0 => {
            let c27: [(&str, usize); 2] = [("Час оформлення", 0usize), ("Время оформления", 0usize)];
            assert(cand_view(c27@) =~= seq![("Час оформлення"@, 0int), ("Время оформления"@, 0int)]);
            opt_col(idx.first_norm_of(&c27))
        },
        1 => {
            let c28: [(&str, usize); 3] = [("Таможня оформления", 0usize), ("Митниця оформлення", 0usize), ("Назва ПМО", 0usize)];
            assert(cand_view(c28@) =~= seq![("Таможня оформления"@, 0int), ("Митниця оформлення"@, 0int), ("Назва ПМО"@, 0int)]);
            opt_col(idx.first_norm_of(&c28))
        },
        2 => join_col(fw_decl_type_parts_at(idx)),
        3 => join_col(fw_decl_number_parts_at(idx)),
        4 => {
            opt_col(fw_declaration_date_at(idx))
        },
        5 => {
            let c29: [(&str, usize); 1] = [("Відправник", 0usize)];
            assert(cand_view(c29@) =~= seq![("Відправник"@, 0int)]);
            let a30 = fw_sender_name_at(idx);
            let b30 = idx.first_norm_of(&c29);
            opt_col(or_position(a30, b30))
        },
        6 => {
            let a31 = fw_recipient_code_at(idx);
            let b31 = fw_sender_code_at(idx);
            opt_col(or_position(a31, b31))
        },
        7 => {
            opt_col(fw_recipient_name_at(idx))
        },
        8 => {
            let c32: [(&str, usize); 3] = [("Номер товара", 0usize), ("Номер товару", 0usize), ("№", 0usize)];
            assert(cand_view(c32@) =~= seq![("Номер товара"@, 0int), ("Номер товару"@, 0int), ("№"@, 0int)]);
            opt_col(idx.first_norm_of(&c32))
        },
        9 => {
            opt_col(fw_product_code_at(idx))
        },
        10 => {
            opt_col(fw_description_at(idx))
        },
        11 => {
            let c33: [(&str, usize); 3] = [("Торгующая страна", 0usize), ("Торгуюча країна", 0usize), ("Кр.торг.", 0usize)];
            assert(cand_view(c33@) =~= seq![("Торгующая страна"@, 0int), ("Торгуюча країна"@, 0int), ("Кр.торг."@, 0int)]);
            opt_col(idx.first_norm_of(&c33))
        },
        12 => {
            let c34: [(&str, usize); 3] = [("Страна отправления", 0usize), ("Країна відправлення", 0usize), ("Кр.відпр.", 0usize)];
            assert(cand_view(c34@) =~= seq![("Страна отправления"@, 0int), ("Країна відправлення"@, 0int), ("Кр.відпр."@, 0int)]);
            opt_col(idx.first_norm_of(&c34))
        },
        13 => {
            let c35: [(&str, usize); 6] = [("КРАЇНА ПОХОДЖЕННЯ", 0usize), ("Страна происхождения", 0usize), ("Країна походження", 0usize), ("КРАЇНА ПРИХНАЧЕННЯ", 0usize), ("КРАЇНА ПРИЗНАЧЕННЯ", 0usize), ("Страна назначения", 0usize)];
            assert(cand_view(c35@) =~= seq![("КРАЇНА ПОХОДЖЕННЯ"@, 0int), ("Страна происхождения"@, 0int), ("Країна походження"@, 0int), ("КРАЇНА ПРИХНАЧЕННЯ"@, 0int), ("КРАЇНА ПРИЗНАЧЕННЯ"@, 0int), ("Страна назначения"@, 0int)]);
            opt_col(idx.first_norm_of(&c35))
        },
        14 => {
            let a36 = idx.get_norm("Условия поставки", 0);
            let b36 = idx.get_norm("Умови поставки", 0);
            opt_col(or_position(a36, b36))
        },
        15 => {
            let a37 = idx.get_norm("Условия поставки", 1);
            let b37 = idx.get_norm("Умови поставки", 1);
            opt_col(or_position(a37, b37))
        },
        16 => {
            let a38 = idx.get_norm("Доп.ед", 0);
            let b38 = idx.get_norm("Дод.од", 0);
            opt_col(or_position(a38, b38))
        },
        17 => {
            let a39 = idx.get_norm("Доп.ед", 1);
            let b39 = idx.get_norm("Дод.од", 1);
            opt_col(or_position(a39, b39))
        },
        18 => {
            let c40: [(&str, usize); 3] = [("Вес брутто, кг", 0usize), ("Вага брутто, кг", 0usize), ("Брутто, кг.", 0usize)];
            assert(cand_view(c40@) =~= seq![("Вес брутто, кг"@, 0int), ("Вага брутто, кг"@, 0int), ("Брутто, кг."@, 0int)]);
            opt_col(idx.first_norm_of(&c40))
        },
        19 => {
            let c41: [(&str, usize); 3] = [("Вес нетто, кг", 0usize), ("Вага нетто, кг", 0usize), ("Нетто, кг.", 0usize)];
            assert(cand_view(c41@) =~= seq![("Вес нетто, кг"@, 0int), ("Вага нетто, кг"@, 0int), ("Нетто, кг."@, 0int)]);
            opt_col(idx.first_norm_of(&c41))
        },
        21 => {
            opt_col(fw_value_usd_at(idx))
        },
        22 => {
            let c42: [(&str, usize); 3] = [("ОЗНАКА ТОВАРУ В КОНТЕЙНЕРІ", 0usize), ("Признак товара в контейнере", 0usize), ("Ознака товару в контейнері", 0usize)];
            assert(cand_view(c42@) =~= seq![("ОЗНАКА ТОВАРУ В КОНТЕЙНЕРІ"@, 0int), ("Признак товара в контейнере"@, 0int), ("Ознака товару в контейнері"@, 0int)]);
            opt_col(idx.first_norm_of(&c42))
        },
        23 => {
            let c43: [(&str, usize); 2] = [("Метод", 0usize), ("Метод визначення митної вартості", 0usize)];
            assert(cand_view(c43@) =~= seq![("Метод"@, 0int), ("Метод визначення митної вартості"@, 0int)]);
            opt_col(idx.first_norm_of(&c43))
        },
        25 => {
            let c44: [(&str, usize); 3] = [("ЦІНА, $/кг", 0usize), ("Цена, $/кг", 0usize), ("Вартість, $/кг", 0usize)];
            assert(cand_view(c44@) =~= seq![("ЦІНА, $/кг"@, 0int), ("Цена, $/кг"@, 0int), ("Вартість, $/кг"@, 0int)]);
            opt_col(idx.first_norm_of(&c44))
        },
        29 => {
            let c45: [(&str, usize); 3] = [("Пошлина, грн.", 0usize), ("Пошлина, грн", 0usize), ("Мито, грн.", 0usize)];
            assert(cand_view(c45@) =~= seq![("Пошлина, грн."@, 0int), ("Пошлина, грн"@, 0int), ("Мито, грн."@, 0int)]);
            opt_col(idx.first_norm_of(&c45))
        },
        30 => {
            let c46: [(&str, usize); 2] = [("Акциз, грн.", 0usize), ("Акциз, грн", 0usize)];
            assert(cand_view(c46@) =~= seq![("Акциз, грн."@, 0int), ("Акциз, грн"@, 0int)]);
            opt_col(idx.first_norm_of(&c46))
        },
        31 => {
            let c47: [(&str, usize); 2] = [("ПДВ, грн.", 0usize), ("ПДВ, грн", 0usize)];
            assert(cand_view(c47@) =~= seq![("ПДВ, грн."@, 0int), ("ПДВ, грн"@, 0int)]);
            opt_col(idx.first_norm_of(&c47))
        },
        _ => ColSrc::Missing,
    }
}

/// Registry-style layout: split declaration-number columns, the clearance
/// date, a description, and a product code identify it.
pub open spec fn format_b(hs: Seq<Seq<char>>) -> Option<Seq<ColSrcModel>> {
    if fb_decl_number_parts(hs).len() == 0 || positions(hs, "Дата оформлення"@).len() == 0
        || fb_description(hs) is None || fb_product_code(hs) is None {
        None
    } else {
        Some(Seq::new(41, |i: int| fb_col(hs, i)))
    }
}

fn all_columns(idx: &HeaderIndex, wide: bool) -> (r: Vec<ColSrc>)
    ensures
        wide ==> srcs_model(r@) == Seq::new(41, |i: int| fw_col(idx@, i)),
        !wide ==> srcs_model(r@) == Seq::new(41, |i: int| fb_col(idx@, i)),
{
    let mut out: Vec<ColSrc> = Vec::new();
    let mut i: usize = 0;
    while i < COLUMN_COUNT
        invariant
            i <= COLUMN_COUNT,
            out@.len() == i,
            forall|k: int| 0 <= k < i ==> #[trigger] out@[k]@ == if wide { fw_col(idx@, k) } else { fb_col(idx@, k) },
        decreases COLUMN_COUNT - i,
    {
        let c = if wide { fw_column(idx, i) } else { fb_column(idx, i) };
        let ghost old_out = out@;
        out.push(c);
        i += 1;
        assert forall|k: int| 0 <= k < i implies #[trigger] out@[k]@ == if wide { fw_col(idx@, k) } else { fb_col(idx@, k) } by {
            if k < i - 1 {
                assert(out@[k] == old_out[k]);
            }
        }
    }
    if wide {
        assert(srcs_model(out@) =~= Seq::new(41, |i: int| fw_col(idx@, i)));
    } else {
        assert(srcs_model(out@) =~= Seq::new(41, |i: int| fb_col(idx@, i)));
    }
    out
}

pub fn map_format_b(idx: &HeaderIndex) -> (r: Option<Vec<ColSrc>>)
    ensures
        match r {
            Some(v) => format_b(idx@) == Some(srcs_model(v@)),
            None => format_b(idx@) is None,
        },
{
    let decl_number_parts = fb_decl_number_parts_at(idx);
    let description = fb_description_at(idx);
    let product_code = fb_product_code_at(idx);
    if decl_number_parts.len() == 0 || !idx.has("Дата оформлення") || description.is_none()
        || product_code.is_none() {
        return None;
    }
    Some(all_columns(idx, false))
}

/// Wide layout of newer files: 45 or more columns, at least three
/// declaration-number parts, the date, product code, description, value,
/// and a recipient or sender code.
pub open spec fn format_wide(hs: Seq<Seq<char>>) -> Option<Seq<ColSrcModel>> {
    if hs.len() < 45 || fw_decl_number_parts(hs).len() < 3 || fw_declaration_date(hs) is None
        || fw_product_code(hs) is None || fw_description(hs) is None || fw_value_usd(hs) is None
        || (fw_recipient_code(hs) is None && fw_sender_code(hs) is None) {
        None
    } else {
        Some(Seq::new(41, |i: int| fw_col(hs, i)))
    }
}

pub fn map_wide_customs(headers: &Vec<String>, idx: &HeaderIndex) -> (r: Option<Vec<ColSrc>>)
    requires
        idx@ == views(headers@),
    ensures
        match r {
            Some(v) => format_wide(idx@) == Some(srcs_model(v@)),
            None => format_wide(idx@) is None,
        },
{
    if headers.len() < 45 {
        return None;
    }
    let decl_number_parts = fw_decl_number_parts_at(idx);
    let declaration_date = fw_declaration_date_at(idx);
    let product_code = fw_product_code_at(idx);
    let description = fw_description_at(idx);
    let value_usd = fw_value_usd_at(idx);
    if decl_number_parts.len() < 3 || declaration_date.is_none() || product_code.is_none()
        || description.is_none() || value_usd.is_none() {
        return None;
    }
    let recipient_code = fw_recipient_code_at(idx);
    let sender_code = fw_sender_code_at(idx);
    if recipient_code.is_none() && sender_code.is_none() {
        return None;
    }
    Some(all_columns(idx, true))
}

// ---------- generic layout ----------

/// Schema column named by a normalized header alias of the generic detector.
pub open spec fn alias_target(a: Seq<char>) -> Option<int> {
    if a == "часоформлення"@ || a == "времяоформления"@ {
        Some(0)
    } else if a == "назвапмо"@ || a == "митницяоформлення"@ || a == "митниця"@ || a == "таможня"@ || a == "таможняоформления"@ {
        Some(1)
    } else if a == "тип"@ || a == "типдекларації"@ || a == "типдекларации"@ {
        Some(2)
    } else if a == "номермд"@ || a == "номердекларації"@ || a == "номердекларации"@ || a == "номергтд"@ || a == "номермитноїдекларації"@ || a == "номертаможеннойдекларации"@ {
        Some(3)
    } else if a == "дата"@ || a == "датаоформлення"@ || a == "датаоформления"@ || a == "датамд"@ || a == "date"@ {
        Some(4)
    } else if a == "відправник"@ || a == "отправитель"@ || a == "відпправник"@ || a == "назвафірмивідправника"@ || a == "назвафірмивідправиника"@ || a == "sender"@ || a == "експортер"@ || a == "экспортер"@ || a == "exporter"@ {
        Some(5)
    } else if a == "едрпоу"@ || a == "єдрпоу"@ || a == "кодєдрпоу"@ || a == "кодедрпоу"@ || a == "кодфірмиотримувача"@ || a == "кодотримувача"@ || a == "окпо"@ || a == "кодпоєдрпоу"@ {
        Some(6)
    } else if a == "одержувач"@ || a == "отримувач"@ || a == "получатель"@ || a == "назвафірмиотримувача"@ || a == "імпортер"@ || a == "импортер"@ || a == "importer"@ {
        Some(7)
    } else if a == "номертовару"@ || a == "номертовара"@ || a == "нп"@ || a == "пп"@ {
        Some(8)
    } else if a == "кодтовару"@ || a == "кодтовара"@ || a == "кодтнвэд"@ || a == "кодтнвед"@ || a == "кодтнзед"@ || a == "кодуктзед"@ || a == "hscode"@ || a == "код"@ {
        Some(9)
    } else if a == "опистовару"@ || a == "описаниетовара"@ || a == "найменуваннятовару"@ || a == "назватовару"@ || a == "наименованиетовара"@ || a == "описание"@ || a == "опис"@ || a == "опистовара"@ || a == "description"@ || a == "товар"@ || a == "найменування"@ || a == "наименование"@ {
        Some(10)
    } else if a == "крторг"@ || a == "торгуючакраїна"@ || a == "странаторговли"@ || a == "країнаторгівлі"@ || a == "торгующаястрана"@ {
        Some(11)
    } else if a == "крвідпр"@ || a == "країнавідправлення"@ || a == "странаотправления"@ {
        Some(12)
    } else if a == "крпох"@ || a == "країнапоходження"@ || a == "странапроисхождения"@ || a == "країнапоходженнятовару"@ {
        Some(13)
    } else if a == "умовипост"@ || a == "умовипоставки"@ || a == "условияпоставки"@ {
        Some(14)
    } else if a == "місцепост"@ || a == "місцепоставки"@ || a == "местопоставки"@ {
        Some(15)
    } else if a == "кть"@ || a == "кількість"@ || a == "количество"@ || a == "додод"@ || a == "qty"@ {
        Some(16)
    } else if a == "одинвим"@ || a == "одиницявиміру"@ || a == "единицаизмерения"@ {
        Some(17)
    } else if a == "бруттокг"@ || a == "вагабруттокг"@ || a == "весбруттокг"@ || a == "вагабрутто"@ || a == "весбрутто"@ || a == "брутто"@ {
        Some(18)
    } else if a == "неттокг"@ || a == "ваганеттокг"@ || a == "веснеттокг"@ || a == "ваганетто"@ || a == "веснетто"@ || a == "нетто"@ {
        Some(19)
    } else if a == "торгмарк"@ || a == "торговамарка"@ || a == "торговаямарка"@ || a == "тм"@ || a == "trademark"@ {
        Some(32)
    } else if a == "контракт"@ || a == "номерконтракта"@ || a == "номерконтракту"@ {
        Some(28)
    } else {
        None
    }
}

/// Schema column named by a normalized header alias.
fn alias_target_at(a: &str) -> (r: Option<usize>)
    ensures
        opt_int(r) == alias_target(a@),
{
    if str_eq(a, "часоформлення") || str_eq(a, "времяоформления") {
        Some(0)
    } else if str_eq(a, "назвапмо") || str_eq(a, "митницяоформлення") || str_eq(a, "митниця") || str_eq(a, "таможня") || str_eq(a, "таможняоформления") {
        Some(1)
    } else if str_eq(a, "тип") || str_eq(a, "типдекларації") || str_eq(a, "типдекларации") {
        Some(2)
    } else if str_eq(a, "номермд") || str_eq(a, "номердекларації") || str_eq(a, "номердекларации") || str_eq(a, "номергтд") || str_eq(a, "номермитноїдекларації") || str_eq(a, "номертаможеннойдекларации") {
        Some(3)
    } else if str_eq(a, "дата") || str_eq(a, "датаоформлення") || str_eq(a, "датаоформления") || str_eq(a, "датамд") || str_eq(a, "date") {
        Some(4)
    } else if str_eq(a, "відправник") || str_eq(a, "отправитель") || str_eq(a, "відпправник") || str_eq(a, "назвафірмивідправника") || str_eq(a, "назвафірмивідправиника") || str_eq(a, "sender") || str_eq(a, "експортер") || str_eq(a, "экспортер") || str_eq(a, "exporter") {
        Some(5)
    } else if str_eq(a, "едрпоу") || str_eq(a, "єдрпоу") || str_eq(a, "кодєдрпоу") || str_eq(a, "кодедрпоу") || str_eq(a, "кодфірмиотримувача") || str_eq(a, "кодотримувача") || str_eq(a, "окпо") || str_eq(a, "кодпоєдрпоу") {
        Some(6)
    } else if str_eq(a, "одержувач") || str_eq(a, "отримувач") || str_eq(a, "получатель") || str_eq(a, "назвафірмиотримувача") || str_eq(a, "імпортер") || str_eq(a, "импортер") || str_eq(a, "importer") {
        Some(7)
    } else if str_eq(a, "номертовару") || str_eq(a, "номертовара") || str_eq(a, "нп") || str_eq(a, "пп") {
        Some(8)
    } else if str_eq(a, "кодтовару") || str_eq(a, "кодтовара") || str_eq(a, "кодтнвэд") || str_eq(a, "кодтнвед") || str_eq(a, "кодтнзед") || str_eq(a, "кодуктзед") || str_eq(a, "hscode") || str_eq(a, "код") {
        Some(9)
    } else if str_eq(a, "опистовару") || str_eq(a, "описаниетовара") || str_eq(a, "найменуваннятовару") || str_eq(a, "назватовару") || str_eq(a, "наименованиетовара") || str_eq(a, "описание") || str_eq(a, "опис") || str_eq(a, "опистовара") || str_eq(a, "description") || str_eq(a, "товар") || str_eq(a, "найменування") || str_eq(a, "наименование") {
        Some(10)
    } else if str_eq(a, "крторг") || str_eq(a, "торгуючакраїна") || str_eq(a, "странаторговли") || str_eq(a, "країнаторгівлі") || str_eq(a, "торгующаястрана") {
        Some(11)
    } else if str_eq(a, "крвідпр") || str_eq(a, "країнавідправлення") || str_eq(a, "странаотправления") {
        Some(12)
    } else if str_eq(a, "крпох") || str_eq(a, "країнапоходження") || str_eq(a, "странапроисхождения") || str_eq(a, "країнапоходженнятовару") {
        Some(13)
    } else if str_eq(a, "умовипост") || str_eq(a, "умовипоставки") || str_eq(a, "условияпоставки") {
        Some(14)
    } else if str_eq(a, "місцепост") || str_eq(a, "місцепоставки") || str_eq(a, "местопоставки") {
        Some(15)
    } else if str_eq(a, "кть") || str_eq(a, "кількість") || str_eq(a, "количество") || str_eq(a, "додод") || str_eq(a, "qty") {
        Some(16)
    } else if str_eq(a, "одинвим") || str_eq(a, "одиницявиміру") || str_eq(a, "единицаизмерения") {
        Some(17)
    } else if str_eq(a, "бруттокг") || str_eq(a, "вагабруттокг") || str_eq(a, "весбруттокг") || str_eq(a, "вагабрутто") || str_eq(a, "весбрутто") || str_eq(a, "брутто") {
        Some(18)
    } else if str_eq(a, "неттокг") || str_eq(a, "ваганеттокг") || str_eq(a, "веснеттокг") || str_eq(a, "ваганетто") || str_eq(a, "веснетто") || str_eq(a, "нетто") {
        Some(19)
    } else if str_eq(a, "торгмарк") || str_eq(a, "торговамарка") || str_eq(a, "торговаямарка") || str_eq(a, "тм") || str_eq(a, "trademark") {
        Some(32)
    } else if str_eq(a, "контракт") || str_eq(a, "номерконтракта") || str_eq(a, "номерконтракту") {
        Some(28)
    } else {
        None
    }
}

/// First file column (in file order) whose normalized header is an alias of
/// schema column `col`.
pub open spec fn generic_found(hs: Seq<Seq<char>>, col: int) -> Option<int>
    decreases hs.len(),
{
    if hs.len() == 0 {
        None
    } else {
        match generic_found(hs.drop_last(), col) {
            Some(i) => Some(i),
            None => if norm(hs.last()).len() > 0 && alias_target(norm(hs.last())) == Some(col) {
                Some(hs.len() - 1)
            } else {
                None
            },
        }
    }
}

/// Generic layout: a description column and one of product code,
/// declaration number, sender, or recipient (columns 9, 3, 5, 7).
pub open spec fn format_generic(hs: Seq<Seq<char>>) -> Option<Seq<ColSrcModel>> {
    if generic_found(hs, 10) is None || (generic_found(hs, 9) is None && generic_found(hs, 3) is None
        && generic_found(hs, 5) is None && generic_found(hs, 7) is None) {
        None
    } else {
        Some(Seq::new(41, |i: int| opt_src(generic_found(hs, i))))
    }
}

pub fn map_generic(headers: &Vec<String>) -> (r: Option<Vec<ColSrc>>)
    ensures
        match r {
            Some(v) => format_generic(views(headers@)) == Some(srcs_model(v@)),
            None => format_generic(views(headers@)) is None,
        },
{
    let ghost hs = views(headers@);
    let mut found: Vec<Option<usize>> = Vec::new();
    let mut c: usize = 0;
    while c < COLUMN_COUNT
        invariant
            c <= COLUMN_COUNT,
            found@.len() == c,
            forall|k: int| 0 <= k < c ==> #[trigger] found@[k] is None,
        decreases COLUMN_COUNT - c,
    {
        found.push(None);
        c += 1;
    }
    let mut i: usize = 0;
    while i < headers.len()
        invariant
            i <= headers@.len(),
            hs == views(headers@),
            found@.len() == 41,
            forall|k: int| 0 <= k < 41 ==> opt_int(#[trigger] found@[k]) == generic_found(hs.take(i as int), k),
        decreases headers.len() - i,
    {
        assert(hs.take(i + 1).drop_last() =~= hs.take(i as int));
        assert(hs.take(i + 1).last() == headers@[i as int]@);
        let n = norm_header(headers[i].as_str());
        if n.len() > 0 {
            let text = string_of(n.as_slice());
            match alias_target_at(text.as_str()) {
                Some(t) => {
                    if found[t].is_none() {
                        found.set(t, Some(i));
                    }
                },
                None => {},
            }
        }
        i += 1;
    }
    assert(hs.take(i as int) =~= hs);
    if found[10].is_none() {
        return None;
    }
    if found[9].is_none() && found[3].is_none() && found[5].is_none() && found[7].is_none() {
        return None;
    }
    let mut out: Vec<ColSrc> = Vec::new();
    let mut k: usize = 0;
    while k < COLUMN_COUNT
        invariant
            k <= COLUMN_COUNT,
            found@.len() == 41,
            out@.len() == k,
            forall|m: int| 0 <= m < k ==> #[trigger] out@[m]@ == opt_src(opt_int(found@[m])),
        decreases COLUMN_COUNT - k,
    {
        let ghost old_out = out@;
        out.push(opt_col(found[k]));
        k += 1;
        assert forall|m: int| 0 <= m < k implies #[trigger] out@[m]@ == opt_src(opt_int(found@[m])) by {
            if m < k - 1 {
                assert(out@[m] == old_out[m]);
            }
        }
    }
    assert(srcs_model(out@) =~= Seq::new(41, |m: int| opt_src(generic_found(hs, m))));
    Some(out)
}

// ---------- detection ----------

/// The first layout that recognizes the header row.
pub open spec fn detect(hs: Seq<Seq<char>>) -> Option<Seq<ColSrcModel>> {
    match format_a(hs) {
        Some(m) => Some(m),
        None => match format_b(hs) {
            Some(m) => Some(m),
            None => match format_wide(hs) {
                Some(m) => Some(m),
                None => format_generic(hs),
            },
        },
    }
}

/// Maps a header row onto the schema, trying the standard, registry-style,
/// wide, and generic layouts in that order.
pub fn detect_mapping(headers: &Vec<String>) -> (r: Option<Vec<ColSrc>>)
    ensures
        match r {
            Some(v) => detect(views(headers@)) == Some(srcs_model(v@)),
            None => detect(views(headers@)) is None,
        },
{
    let idx = HeaderIndex::new(headers);
    if let Some(m) = map_format_a(&idx) {
        return Some(m);
    }
    if let Some(m) = map_format_b(&idx) {
        return Some(m);
    }
    if let Some(m) = map_wide_customs(headers, &idx) {
        return Some(m);
    }
    map_generic(headers)
}

// ---------- unmapped columns ----------

/// File column `i` feeds some schema column of the mapping.
pub open spec fn consumed(m: Seq<ColSrcModel>, i: int) -> bool {
    exists|k: int|
        0 <= k < m.len() && match #[trigger] m[k] {
            ColSrcModel::Cell(c) => c == i,
            ColSrcModel::Join(parts, _) => parts.contains(i),
            ColSrcModel::Missing => false,
        }
}

/// The non-empty headers of columns the mapping does not consume, with
/// their positions, in file order.
pub open spec fn unmapped(hs: Seq<Seq<char>>, m: Seq<ColSrcModel>) -> Seq<(int, Seq<char>)>
    decreases hs.len(),
{
    if hs.len() == 0 {
        Seq::empty()
    } else if hs.last().len() > 0 && !consumed(m, hs.len() - 1) {
        unmapped(hs.drop_last(), m).push((hs.len() - 1, hs.last()))
    } else {
        unmapped(hs.drop_last(), m)
    }
}

/// Pairs as spec values.
pub open spec fn pairs_view(v: Seq<(usize, String)>) -> Seq<(int, Seq<char>)> {
    v.map_values(|p: (usize, String)| (p.0 as int, p.1@))
}

fn contains_position(parts: &Vec<usize>, i: usize) -> (r: bool)
    ensures
        r == ints(parts@).contains(i as int),
{
    let mut j: usize = 0;
    while j < parts.len()
        invariant
            j <= parts@.len(),
            forall|q: int| 0 <= q < j ==> parts@[q] != i,
        decreases parts.len() - j,
    {
        if parts[j] == i {
            assert(ints(parts@)[j as int] == i as int);
            return true;
        }
        j += 1;
    }
    assert(!ints(parts@).contains(i as int)) by {
        if ints(parts@).contains(i as int) {
            let q = choose|q: int| 0 <= q < ints(parts@).len() && ints(parts@)[q] == i as int;
            assert(parts@[q] == i);
        }
    }
    false
}

fn is_consumed(mapping: &Vec<ColSrc>, i: usize) -> (r: bool)
    ensures
        r == consumed(srcs_model(mapping@), i as int),
{
    let ghost m = srcs_model(mapping@);
    let mut k: usize = 0;
    while k < mapping.len()
        invariant
            k <= mapping@.len(),
            m == srcs_model(mapping@),
            forall|q: int| 0 <= q < k ==> !match #[trigger] m[q] {
                ColSrcModel::Cell(c) => c == i,
                ColSrcModel::Join(parts, _) => parts.contains(i as int),
                ColSrcModel::Missing => false,
            },
        decreases mapping.len() - k,
    {
        assert(m[k as int] == mapping@[k as int]@);
        match &mapping[k] {
            ColSrc::Cell(c) => {
                if *c == i {
                    return true;
                }
            },
            ColSrc::Join(parts, _) => {
                if contains_position(parts, i) {
                    return true;
                }
            },
            ColSrc::Missing => {},
        }
        k += 1;
    }
    false
}

/// Source columns the mapping does not consume, paired with their header
/// names, in file order; they are kept per row as extra data.
pub fn unmapped_columns(headers: &Vec<String>, mapping: &Vec<ColSrc>) -> (r: Vec<(usize, String)>)
    ensures
        pairs_view(r@) == unmapped(views(headers@), srcs_model(mapping@)),
{
    let ghost hs = views(headers@);
    let ghost m = srcs_model(mapping@);
    let mut out: Vec<(usize, String)> = Vec::new();
    let mut i: usize = 0;
    while i < headers.len()
        invariant
            i <= headers@.len(),
            hs == views(headers@),
            m == srcs_model(mapping@),
            pairs_view(out@) == unmapped(hs.take(i as int), m),
        decreases headers.len() - i,
    {
        assert(hs.take(i + 1).drop_last() =~= hs.take(i as int));
        assert(hs.take(i + 1).last() == headers@[i as int]@);
        if !headers[i].as_str().is_empty() && !is_consumed(mapping, i) {
            out.push((i, headers[i].clone()));
            assert(pairs_view(out@) =~= unmapped(hs.take(i + 1), m));
        }
        i += 1;
    }
    assert(hs.take(i as int) =~= hs);
    out
}

// ---------- the generic detector's dictionary ----------

/// The generic detector's dictionary: the database name of a schema column
/// and the normalized header aliases that name it, in the detector's order.
pub open spec fn generic_aliases() -> Seq<(Seq<char>, Seq<Seq<char>>)> {
    seq![
        ("clearance_time"@, seq!["часоформлення"@, "времяоформления"@]),
        ("customs_office"@, seq!["назвапмо"@, "митницяоформлення"@, "митниця"@, "таможня"@, "таможняоформления"@]),
        ("declaration_type"@, seq!["тип"@, "типдекларації"@, "типдекларации"@]),
        ("declaration_number"@, seq!["номермд"@, "номердекларації"@, "номердекларации"@, "номергтд"@, "номермитноїдекларації"@, "номертаможеннойдекларации"@]),
        ("declaration_date"@, seq!["дата"@, "датаоформлення"@, "датаоформления"@, "датамд"@, "date"@]),
        ("sender"@, seq!["відправник"@, "отправитель"@, "відпправник"@, "назвафірмивідправника"@, "назвафірмивідправиника"@, "sender"@, "експортер"@, "экспортер"@, "exporter"@]),
        ("edrpou"@, seq!["едрпоу"@, "єдрпоу"@, "кодєдрпоу"@, "кодедрпоу"@, "кодфірмиотримувача"@, "кодотримувача"@, "окпо"@, "кодпоєдрпоу"@]),
        ("recipient"@, seq!["одержувач"@, "отримувач"@, "получатель"@, "назвафірмиотримувача"@, "імпортер"@, "импортер"@, "importer"@]),
        ("item_number"@, seq!["номертовару"@, "номертовара"@, "нп"@, "пп"@]),
        ("product_code"@, seq!["кодтовару"@, "кодтовара"@, "кодтнвэд"@, "кодтнвед"@, "кодтнзед"@, "кодуктзед"@, "hscode"@, "код"@]),
        ("description"@, seq!["опистовару"@, "описаниетовара"@, "найменуваннятовару"@, "назватовару"@, "наименованиетовара"@, "описание"@, "опис"@, "опистовара"@, "description"@, "товар"@, "найменування"@, "наименование"@]),
        ("trade_country"@, seq!["крторг"@, "торгуючакраїна"@, "странаторговли"@, "країнаторгівлі"@, "торгующаястрана"@]),
        ("dispatch_country"@, seq!["крвідпр"@, "країнавідправлення"@, "странаотправления"@]),
        ("origin_country"@, seq!["крпох"@, "країнапоходження"@, "странапроисхождения"@, "країнапоходженнятовару"@]),
        ("delivery_terms"@, seq!["умовипост"@, "умовипоставки"@, "условияпоставки"@]),
        ("delivery_place"@, seq!["місцепост"@, "місцепоставки"@, "местопоставки"@]),
        ("quantity"@, seq!["кть"@, "кількість"@, "количество"@, "додод"@, "qty"@]),
        ("unit"@, seq!["одинвим"@, "одиницявиміру"@, "единицаизмерения"@]),
        ("gross_kg"@, seq!["бруттокг"@, "вагабруттокг"@, "весбруттокг"@, "вагабрутто"@, "весбрутто"@, "брутто"@]),
        ("net_kg"@, seq!["неттокг"@, "ваганеттокг"@, "веснеттокг"@, "ваганетто"@, "веснетто"@, "нетто"@]),
        ("trademark"@, seq!["торгмарк"@, "торговамарка"@, "торговаямарка"@, "тм"@, "trademark"@]),
        ("contract"@, seq!["контракт"@, "номерконтракта"@, "номерконтракту"@]),
    ]
}

proof fn lemma_aliases_of_entry_0(j: int)
    requires
        0 <= j < generic_aliases()[0].1.len(),
    ensures
        alias_target(generic_aliases()[0].1[j]) matches Some(c) && column_name(c) == generic_aliases()[0].0,
{
    lemma_alias_literals();
    let e = generic_aliases()[0];
    assert(e.0 == "clearance_time"@);
    if j == 0 {
        assert(e.1[0] == "часоформлення"@);
    } else if j == 1 {
        assert(e.1[1] == "времяоформления"@);
    }
}

proof fn lemma_aliases_of_entry_1(j: int)
    requires
        0 <= j < generic_aliases()[1].1.len(),
    ensures
        alias_target(generic_aliases()[1].1[j]) matches Some(c) && column_name(c) == generic_aliases()[1].0,
{
    lemma_alias_literals();
    let e = generic_aliases()[1];
    assert(e.0 == "customs_office"@);
    if j == 0 {
        assert(e.1[0] == "назвапмо"@);
    } else if j == 1 {
        assert(e.1[1] == "митницяоформлення"@);
    } else if j == 2 {
        assert(e.1[2] == "митниця"@);
    } else if j == 3 {
        assert(e.1[3] == "таможня"@);
    } else if j == 4 {
        assert(e.1[4] == "таможняоформления"@);
    }
}

proof fn lemma_aliases_of_entry_2(j: int)
    requires
        0 <= j < generic_aliases()[2].1.len(),
    ensures
        alias_target(generic_aliases()[2].1[j]) matches Some(c) && column_name(c) == generic_aliases()[2].0,
{
    lemma_alias_literals();
    let e = generic_aliases()[2];
    assert(e.0 == "declaration_type"@);
    if j == 0 {
        assert(e.1[0] == "тип"@);
    } else if j == 1 {
        assert(e.1[1] == "типдекларації"@);
        reveal_strlit("типдекларації");
        reveal_strlit("часоформлення");
        assert("типдекларації"@[0] != "часоформлення"@[0]);
    } else if j == 2 {
        assert(e.1[2] == "типдекларации"@);
        reveal_strlit("типдекларации");
        reveal_strlit("часоформлення");
        assert("типдекларации"@[0] != "часоформлення"@[0]);
    }
}

proof fn lemma_aliases_of_entry_3(j: int)
    requires
        0 <= j < generic_aliases()[3].1.len(),
    ensures
        alias_target(generic_aliases()[3].1[j]) matches Some(c) && column_name(c) == generic_aliases()[3].0,
{
    lemma_alias_literals();
    let e = generic_aliases()[3];
    assert(e.0 == "declaration_number"@);
    if j == 0 {
        assert(e.1[0] == "номермд"@);
        reveal_strlit("номермд");
        reveal_strlit("митниця");
        assert("номермд"@[0] != "митниця"@[0]);
        reveal_strlit("номермд");
        reveal_strlit("таможня");
        assert("номермд"@[0] != "таможня"@[0]);
    } else if j == 1 {
        assert(e.1[1] == "номердекларації"@);
        reveal_strlit("номердекларації");
        reveal_strlit("времяоформления");
        assert("номердекларації"@[0] != "времяоформления"@[0]);
    } else if j == 2 {
        assert(e.1[2] == "номердекларации"@);
        reveal_strlit("номердекларации");
        reveal_strlit("времяоформления");
        assert("номердекларации"@[0] != "времяоформления"@[0]);
    } else if j == 3 {
        assert(e.1[3] == "номергтд"@);
        reveal_strlit("номергтд");
        reveal_strlit("назвапмо");
        assert("номергтд"@[1] != "назвапмо"@[1]);
    } else if j == 4 {
        assert(e.1[4] == "номермитноїдекларації"@);
    } else if j == 5 {
        assert(e.1[5] == "номертаможеннойдекларации"@);
    }
}

proof fn lemma_aliases_of_entry_4(j: int)
    requires
        0 <= j < generic_aliases()[4].1.len(),
    ensures
        alias_target(generic_aliases()[4].1[j]) matches Some(c) && column_name(c) == generic_aliases()[4].0,
{
    lemma_alias_literals();
    let e = generic_aliases()[4];
    assert(e.0 == "declaration_date"@);
    if j == 0 {
        assert(e.1[0] == "дата"@);
    } else if j == 1 {
        assert(e.1[1] == "датаоформлення"@);
    } else if j == 2 {
        assert(e.1[2] == "датаоформления"@);
    } else if j == 3 {
        assert(e.1[3] == "датамд"@);
    } else if j == 4 {
        assert(e.1[4] == "date"@);
    }
}

proof fn lemma_aliases_of_entry_5(j: int)
    requires
        0 <= j < generic_aliases()[5].1.len(),
    ensures
        alias_target(generic_aliases()[5].1[j]) matches Some(c) && column_name(c) == generic_aliases()[5].0,
{
    lemma_alias_literals();
    let e = generic_aliases()[5];
    assert(e.0 == "sender"@);
    if j == 0 {
        assert(e.1[0] == "відправник"@);
    } else if j == 1 {
        assert(e.1[1] == "отправитель"@);
    } else if j == 2 {
        assert(e.1[2] == "відпправник"@);
    } else if j == 3 {
        assert(e.1[3] == "назвафірмивідправника"@);
        reveal_strlit("назвафірмивідправника");
        reveal_strlit("номермитноїдекларації");
        assert("назвафірмивідправника"@[1] != "номермитноїдекларації"@[1]);
    } else if j == 4 {
        assert(e.1[4] == "назвафірмивідправиника"@);
    } else if j == 5 {
        assert(e.1[5] == "sender"@);
        reveal_strlit("sender");
        reveal_strlit("датамд");
        assert("sender"@[0] != "датамд"@[0]);
    } else if j == 6 {
        assert(e.1[6] == "експортер"@);
    } else if j == 7 {
        assert(e.1[7] == "экспортер"@);
    } else if j == 8 {
        assert(e.1[8] == "exporter"@);
        reveal_strlit("exporter");
        reveal_strlit("назвапмо");
        assert("exporter"@[0] != "назвапмо"@[0]);
        reveal_strlit("exporter");
        reveal_strlit("номергтд");
        assert("exporter"@[0] != "номергтд"@[0]);
    }
}

proof fn lemma_aliases_of_entry_6(j: int)
    requires
        0 <= j < generic_aliases()[6].1.len(),
    ensures
        alias_target(generic_aliases()[6].1[j]) matches Some(c) && column_name(c) == generic_aliases()[6].0,
{
    lemma_alias_literals();
    let e = generic_aliases()[6];
    assert(e.0 == "edrpou"@);
    if j == 0 {
        assert(e.1[0] == "едрпоу"@);
        reveal_strlit("едрпоу");
        reveal_strlit("датамд");
        assert("едрпоу"@[0] != "датамд"@[0]);
        reveal_strlit("едрпоу");
        reveal_strlit("sender");
        assert("едрпоу"@[0] != "sender"@[0]);
    } else if j == 1 {
        assert(e.1[1] == "єдрпоу"@);
        reveal_strlit("єдрпоу");
        reveal_strlit("датамд");
        assert("єдрпоу"@[0] != "датамд"@[0]);
        reveal_strlit("єдрпоу");
        reveal_strlit("sender");
        assert("єдрпоу"@[0] != "sender"@[0]);
    } else if j == 2 {
        assert(e.1[2] == "кодєдрпоу"@);
        reveal_strlit("кодєдрпоу");
        reveal_strlit("експортер");
        assert("кодєдрпоу"@[0] != "експортер"@[0]);
        reveal_strlit("кодєдрпоу");
        reveal_strlit("экспортер");
        assert("кодєдрпоу"@[0] != "экспортер"@[0]);
    } else if j == 3 {
        assert(e.1[3] == "кодедрпоу"@);
        reveal_strlit("кодедрпоу");
        reveal_strlit("експортер");
        assert("кодедрпоу"@[0] != "експортер"@[0]);
        reveal_strlit("кодедрпоу");
        reveal_strlit("экспортер");
        assert("кодедрпоу"@[0] != "экспортер"@[0]);
    } else if j == 4 {
        assert(e.1[4] == "кодфірмиотримувача"@);
    } else if j == 5 {
        assert(e.1[5] == "кодотримувача"@);
        reveal_strlit("кодотримувача");
        reveal_strlit("часоформлення");
        assert("кодотримувача"@[0] != "часоформлення"@[0]);
        reveal_strlit("кодотримувача");
        reveal_strlit("типдекларації");
        assert("кодотримувача"@[0] != "типдекларації"@[0]);
        reveal_strlit("кодотримувача");
        reveal_strlit("типдекларации");
        assert("кодотримувача"@[0] != "типдекларации"@[0]);
    } else if j == 6 {
        assert(e.1[6] == "окпо"@);
        reveal_strlit("окпо");
        reveal_strlit("дата");
        assert("окпо"@[0] != "дата"@[0]);
        reveal_strlit("окпо");
        reveal_strlit("date");
        assert("окпо"@[0] != "date"@[0]);
    } else if j == 7 {
        assert(e.1[7] == "кодпоєдрпоу"@);
        reveal_strlit("кодпоєдрпоу");
        reveal_strlit("отправитель");
        assert("кодпоєдрпоу"@[0] != "отправитель"@[0]);
        reveal_strlit("кодпоєдрпоу");
        reveal_strlit("відпправник");
        assert("кодпоєдрпоу"@[0] != "відпправник"@[0]);
    }
}

proof fn lemma_aliases_of_entry_7(j: int)
    requires
        0 <= j < generic_aliases()[7].1.len(),
    ensures
        alias_target(generic_aliases()[7].1[j]) matches Some(c) && column_name(c) == generic_aliases()[7].0,
{
    lemma_alias_literals();
    let e = generic_aliases()[7];
    assert(e.0 == "recipient"@);
    if j == 0 {
        assert(e.1[0] == "одержувач"@);
        reveal_strlit("одержувач");
        reveal_strlit("експортер");
        assert("одержувач"@[0] != "експортер"@[0]);
        reveal_strlit("одержувач");
        reveal_strlit("экспортер");
        assert("одержувач"@[0] != "экспортер"@[0]);
        reveal_strlit("одержувач");
        reveal_strlit("кодєдрпоу");
        assert("одержувач"@[0] != "кодєдрпоу"@[0]);
        reveal_strlit("одержувач");
        reveal_strlit("кодедрпоу");
        assert("одержувач"@[0] != "кодедрпоу"@[0]);
    } else if j == 1 {
        assert(e.1[1] == "отримувач"@);
        reveal_strlit("отримувач");
        reveal_strlit("експортер");
        assert("отримувач"@[0] != "експортер"@[0]);
        reveal_strlit("отримувач");
        reveal_strlit("экспортер");
        assert("отримувач"@[0] != "экспортер"@[0]);
        reveal_strlit("отримувач");
        reveal_strlit("кодєдрпоу");
        assert("отримувач"@[0] != "кодєдрпоу"@[0]);
        reveal_strlit("отримувач");
        reveal_strlit("кодедрпоу");
        assert("отримувач"@[0] != "кодедрпоу"@[0]);
    } else if j == 2 {
        assert(e.1[2] == "получатель"@);
        reveal_strlit("получатель");
        reveal_strlit("відправник");
        assert("получатель"@[0] != "відправник"@[0]);
    } else if j == 3 {
        assert(e.1[3] == "назвафірмиотримувача"@);
    } else if j == 4 {
        assert(e.1[4] == "імпортер"@);
        reveal_strlit("імпортер");
        reveal_strlit("назвапмо");
        assert("імпортер"@[0] != "назвапмо"@[0]);
        reveal_strlit("імпортер");
        reveal_strlit("номергтд");
        assert("імпортер"@[0] != "номергтд"@[0]);
        reveal_strlit("імпортер");
        reveal_strlit("exporter");
        assert("імпортер"@[0] != "exporter"@[0]);
    } else if j == 5 {
        assert(e.1[5] == "импортер"@);
        reveal_strlit("импортер");
        reveal_strlit("назвапмо");
        assert("импортер"@[0] != "назвапмо"@[0]);
        reveal_strlit("импортер");
        reveal_strlit("номергтд");
        assert("импортер"@[0] != "номергтд"@[0]);
        reveal_strlit("импортер");
        reveal_strlit("exporter");
        assert("импортер"@[0] != "exporter"@[0]);
    } else if j == 6 {
        assert(e.1[6] == "importer"@);
        reveal_strlit("importer");
        reveal_strlit("назвапмо");
        assert("importer"@[0] != "назвапмо"@[0]);
        reveal_strlit("importer");
        reveal_strlit("номергтд");
        assert("importer"@[0] != "номергтд"@[0]);
        reveal_strlit("importer");
        reveal_strlit("exporter");
        assert("importer"@[0] != "exporter"@[0]);
    }
}

proof fn lemma_aliases_of_entry_8(j: int)
    requires
        0 <= j < generic_aliases()[8].1.len(),
    ensures
        alias_target(generic_aliases()[8].1[j]) matches Some(c) && column_name(c) == generic_aliases()[8].0,
{
    lemma_alias_literals();
    let e = generic_aliases()[8];
    assert(e.0 == "item_number"@);
    if j == 0 {
        assert(e.1[0] == "номертовару"@);
        reveal_strlit("номертовару");
        reveal_strlit("отправитель");
        assert("номертовару"@[0] != "отправитель"@[0]);
        reveal_strlit("номертовару");
        reveal_strlit("відпправник");
        assert("номертовару"@[0] != "відпправник"@[0]);
        reveal_strlit("номертовару");
        reveal_strlit("кодпоєдрпоу");
        assert("номертовару"@[0] != "кодпоєдрпоу"@[0]);
    } else if j == 1 {
        assert(e.1[1] == "номертовара"@);
        reveal_strlit("номертовара");
        reveal_strlit("отправитель");
        assert("номертовара"@[0] != "отправитель"@[0]);
        reveal_strlit("номертовара");
        reveal_strlit("відпправник");
        assert("номертовара"@[0] != "відпправник"@[0]);
        reveal_strlit("номертовара");
        reveal_strlit("кодпоєдрпоу");
        assert("номертовара"@[0] != "кодпоєдрпоу"@[0]);
    } else if j == 2 {
        assert(e.1[2] == "нп"@);
    } else if j == 3 {
        assert(e.1[3] == "пп"@);
    }
}

proof fn lemma_aliases_of_entry_9(j: int)
    requires
        0 <= j < generic_aliases()[9].1.len(),
    ensures
        alias_target(generic_aliases()[9].1[j]) matches Some(c) && column_name(c) == generic_aliases()[9].0,
{
    lemma_alias_literals();
    let e = generic_aliases()[9];
    assert(e.0 == "product_code"@);
    if j == 0 {
        assert(e.1[0] == "кодтовару"@);
        reveal_strlit("кодтовару");
        reveal_strlit("експортер");
        assert("кодтовару"@[0] != "експортер"@[0]);
        reveal_strlit("кодтовару");
        reveal_strlit("экспортер");
        assert("кодтовару"@[0] != "экспортер"@[0]);
        reveal_strlit("кодтовару");
        reveal_strlit("кодєдрпоу");
        assert("кодтовару"@[3] != "кодєдрпоу"@[3]);
        reveal_strlit("кодтовару");
        reveal_strlit("кодедрпоу");
        assert("кодтовару"@[3] != "кодедрпоу"@[3]);
        reveal_strlit("кодтовару");
        reveal_strlit("одержувач");
        assert("кодтовару"@[0] != "одержувач"@[0]);
        reveal_strlit("кодтовару");
        reveal_strlit("отримувач");
        assert("кодтовару"@[0] != "отримувач"@[0]);
    } else if j == 1 {
        assert(e.1[1] == "кодтовара"@);
        reveal_strlit("кодтовара");
        reveal_strlit("експортер");
        assert("кодтовара"@[0] != "експортер"@[0]);
        reveal_strlit("кодтовара");
        reveal_strlit("экспортер");
        assert("кодтовара"@[0] != "экспортер"@[0]);
        reveal_strlit("кодтовара");
        reveal_strlit("кодєдрпоу");
        assert("кодтовара"@[3] != "кодєдрпоу"@[3]);
        reveal_strlit("кодтовара");
        reveal_strlit("кодедрпоу");
        assert("кодтовара"@[3] != "кодедрпоу"@[3]);
        reveal_strlit("кодтовара");
        reveal_strlit("одержувач");
        assert("кодтовара"@[0] != "одержувач"@[0]);
        reveal_strlit("кодтовара");
        reveal_strlit("отримувач");
        assert("кодтовара"@[0] != "отримувач"@[0]);
    } else if j == 2 {
        assert(e.1[2] == "кодтнвэд"@);
        reveal_strlit("кодтнвэд");
        reveal_strlit("назвапмо");
        assert("кодтнвэд"@[0] != "назвапмо"@[0]);
        reveal_strlit("кодтнвэд");
        reveal_strlit("номергтд");
        assert("кодтнвэд"@[0] != "номергтд"@[0]);
        reveal_strlit("кодтнвэд");
        reveal_strlit("exporter");
        assert("кодтнвэд"@[0] != "exporter"@[0]);
        reveal_strlit("кодтнвэд");
        reveal_strlit("імпортер");
        assert("кодтнвэд"@[0] != "імпортер"@[0]);
        reveal_strlit("кодтнвэд");
        reveal_strlit("импортер");
        assert("кодтнвэд"@[0] != "импортер"@[0]);
        reveal_strlit("кодтнвэд");
        reveal_strlit("importer");
        assert("кодтнвэд"@[0] != "importer"@[0]);
    } else if j == 3 {
        assert(e.1[3] == "кодтнвед"@);
        reveal_strlit("кодтнвед");
        reveal_strlit("назвапмо");
        assert("кодтнвед"@[0] != "назвапмо"@[0]);
        reveal_strlit("кодтнвед");
        reveal_strlit("номергтд");
        assert("кодтнвед"@[0] != "номергтд"@[0]);
        reveal_strlit("кодтнвед");
        reveal_strlit("exporter");
        assert("кодтнвед"@[0] != "exporter"@[0]);
        reveal_strlit("кодтнвед");
        reveal_strlit("імпортер");
        assert("кодтнвед"@[0] != "імпортер"@[0]);
        reveal_strlit("кодтнвед");
        reveal_strlit("импортер");
        assert("кодтнвед"@[0] != "импортер"@[0]);
        reveal_strlit("кодтнвед");
        reveal_strlit("importer");
        assert("кодтнвед"@[0] != "importer"@[0]);
    } else if j == 4 {
        assert(e.1[4] == "кодтнзед"@);
        reveal_strlit("кодтнзед");
        reveal_strlit("назвапмо");
        assert("кодтнзед"@[0] != "назвапмо"@[0]);
        reveal_strlit("кодтнзед");
        reveal_strlit("номергтд");
        assert("кодтнзед"@[0] != "номергтд"@[0]);
        reveal_strlit("кодтнзед");
        reveal_strlit("exporter");
        assert("кодтнзед"@[0] != "exporter"@[0]);
        reveal_strlit("кодтнзед");
        reveal_strlit("імпортер");
        assert("кодтнзед"@[0] != "імпортер"@[0]);
        reveal_strlit("кодтнзед");
        reveal_strlit("импортер");
        assert("кодтнзед"@[0] != "импортер"@[0]);
        reveal_strlit("кодтнзед");
        reveal_strlit("importer");
        assert("кодтнзед"@[0] != "importer"@[0]);
    } else if j == 5 {
        assert(e.1[5] == "кодуктзед"@);
        reveal_strlit("кодуктзед");
        reveal_strlit("експортер");
        assert("кодуктзед"@[0] != "експортер"@[0]);
        reveal_strlit("кодуктзед");
        reveal_strlit("экспортер");
        assert("кодуктзед"@[0] != "экспортер"@[0]);
        reveal_strlit("кодуктзед");
        reveal_strlit("кодєдрпоу");
        assert("кодуктзед"@[3] != "кодєдрпоу"@[3]);
        reveal_strlit("кодуктзед");
        reveal_strlit("кодедрпоу");
        assert("кодуктзед"@[3] != "кодедрпоу"@[3]);
        reveal_strlit("кодуктзед");
        reveal_strlit("одержувач");
        assert("кодуктзед"@[0] != "одержувач"@[0]);
        reveal_strlit("кодуктзед");
        reveal_strlit("отримувач");
        assert("кодуктзед"@[0] != "отримувач"@[0]);
    } else if j == 6 {
        assert(e.1[6] == "hscode"@);
        reveal_strlit("hscode");
        reveal_strlit("датамд");
        assert("hscode"@[0] != "датамд"@[0]);
        reveal_strlit("hscode");
        reveal_strlit("sender");
        assert("hscode"@[0] != "sender"@[0]);
        reveal_strlit("hscode");
        reveal_strlit("едрпоу");
        assert("hscode"@[0] != "едрпоу"@[0]);
        reveal_strlit("hscode");
        reveal_strlit("єдрпоу");
        assert("hscode"@[0] != "єдрпоу"@[0]);
    } else if j == 7 {
        assert(e.1[7] == "код"@);
        reveal_strlit("код");
        reveal_strlit("тип");
        assert("код"@[0] != "тип"@[0]);
    }
}

proof fn lemma_aliases_of_entry_10(j: int)
    requires
        0 <= j < generic_aliases()[10].1.len(),
    ensures
        alias_target(generic_aliases()[10].1[j]) matches Some(c) && column_name(c) == generic_aliases()[10].0,
{
    lemma_alias_literals();
    let e = generic_aliases()[10];
    assert(e.0 == "description"@);
    if j == 0 {
        assert(e.1[0] == "опистовару"@);
        reveal_strlit("опистовару");
        reveal_strlit("відправник");
        assert("опистовару"@[0] != "відправник"@[0]);
        reveal_strlit("опистовару");
        reveal_strlit("получатель");
        assert("опистовару"@[0] != "получатель"@[0]);
    } else if j == 1 {
        assert(e.1[1] == "описаниетовара"@);
        reveal_strlit("описаниетовара");
        reveal_strlit("датаоформлення");
        assert("описаниетовара"@[0] != "датаоформлення"@[0]);
        reveal_strlit("описаниетовара");
        reveal_strlit("датаоформления");
        assert("описаниетовара"@[0] != "датаоформления"@[0]);
    } else if j == 2 {
        assert(e.1[2] == "найменуваннятовару"@);
        reveal_strlit("найменуваннятовару");
        reveal_strlit("кодфірмиотримувача");
        assert("найменуваннятовару"@[0] != "кодфірмиотримувача"@[0]);
    } else if j == 3 {
        assert(e.1[3] == "назватовару"@);
        reveal_strlit("назватовару");
        reveal_strlit("отправитель");
        assert("назватовару"@[0] != "отправитель"@[0]);
        reveal_strlit("назватовару");
        reveal_strlit("відпправник");
        assert("назватовару"@[0] != "відпправник"@[0]);
        reveal_strlit("назватовару");
        reveal_strlit("кодпоєдрпоу");
        assert("назватовару"@[0] != "кодпоєдрпоу"@[0]);
        reveal_strlit("назватовару");
        reveal_strlit("номертовару");
        assert("назватовару"@[1] != "номертовару"@[1]);
        reveal_strlit("назватовару");
        reveal_strlit("номертовара");
        assert("назватовару"@[1] != "номертовара"@[1]);
    } else if j == 4 {
        assert(e.1[4] == "наименованиетовара"@);
        reveal_strlit("наименованиетовара");
        reveal_strlit("кодфірмиотримувача");
        assert("наименованиетовара"@[0] != "кодфірмиотримувача"@[0]);
    } else if j == 5 {
        assert(e.1[5] == "описание"@);
        reveal_strlit("описание");
        reveal_strlit("назвапмо");
        assert("описание"@[0] != "назвапмо"@[0]);
        reveal_strlit("описание");
        reveal_strlit("номергтд");
        assert("описание"@[0] != "номергтд"@[0]);
        reveal_strlit("описание");
        reveal_strlit("exporter");
        assert("описание"@[0] != "exporter"@[0]);
        reveal_strlit("описание");
        reveal_strlit("імпортер");
        assert("описание"@[0] != "імпортер"@[0]);
        reveal_strlit("описание");
        reveal_strlit("импортер");
        assert("описание"@[0] != "импортер"@[0]);
        reveal_strlit("описание");
        reveal_strlit("importer");
        assert("описание"@[0] != "importer"@[0]);
        reveal_strlit("описание");
        reveal_strlit("кодтнвэд");
        assert("описание"@[0] != "кодтнвэд"@[0]);
        reveal_strlit("описание");
        reveal_strlit("кодтнвед");
        assert("описание"@[0] != "кодтнвед"@[0]);
        reveal_strlit("описание");
        reveal_strlit("кодтнзед");
        assert("описание"@[0] != "кодтнзед"@[0]);
    } else if j == 6 {
        assert(e.1[6] == "опис"@);
        reveal_strlit("опис");
        reveal_strlit("дата");
        assert("опис"@[0] != "дата"@[0]);
        reveal_strlit("опис");
        reveal_strlit("date");
        assert("опис"@[0] != "date"@[0]);
        reveal_strlit("опис");
        reveal_strlit("окпо");
        assert("опис"@[1] != "окпо"@[1]);
    } else if j == 7 {
        assert(e.1[7] == "опистовара"@);
        reveal_strlit("опистовара");
        reveal_strlit("відправник");
        assert("опистовара"@[0] != "відправник"@[0]);
        reveal_strlit("опистовара");
        reveal_strlit("получатель");
        assert("опистовара"@[0] != "получатель"@[0]);
    } else if j == 8 {
        assert(e.1[8] == "description"@);
        reveal_strlit("description");
        reveal_strlit("отправитель");
        assert("description"@[0] != "отправитель"@[0]);
        reveal_strlit("description");
        reveal_strlit("відпправник");
        assert("description"@[0] != "відпправник"@[0]);
        reveal_strlit("description");
        reveal_strlit("кодпоєдрпоу");
        assert("description"@[0] != "кодпоєдрпоу"@[0]);
        reveal_strlit("description");
        reveal_strlit("номертовару");
        assert("description"@[0] != "номертовару"@[0]);
        reveal_strlit("description");
        reveal_strlit("номертовара");
        assert("description"@[0] != "номертовара"@[0]);
    } else if j == 9 {
        assert(e.1[9] == "товар"@);
    } else if j == 10 {
        assert(e.1[10] == "найменування"@);
    } else if j == 11 {
        assert(e.1[11] == "наименование"@);
    }
}

proof fn lemma_aliases_of_entry_11(j: int)
    requires
        0 <= j < generic_aliases()[11].1.len(),
    ensures
        alias_target(generic_aliases()[11].1[j]) matches Some(c) && column_name(c) == generic_aliases()[11].0,
{
    lemma_alias_literals();
    let e = generic_aliases()[11];
    assert(e.0 == "trade_country"@);
    if j == 0 {
        assert(e.1[0] == "крторг"@);
        reveal_strlit("крторг");
        reveal_strlit("датамд");
        assert("крторг"@[0] != "датамд"@[0]);
        reveal_strlit("крторг");
        reveal_strlit("sender");
        assert("крторг"@[0] != "sender"@[0]);
        reveal_strlit("крторг");
        reveal_strlit("едрпоу");
        assert("крторг"@[0] != "едрпоу"@[0]);
        reveal_strlit("крторг");
        reveal_strlit("єдрпоу");
        assert("крторг"@[0] != "єдрпоу"@[0]);
        reveal_strlit("крторг");
        reveal_strlit("hscode");
        assert("крторг"@[0] != "hscode"@[0]);
    } else if j == 1 {
        assert(e.1[1] == "торгуючакраїна"@);
        reveal_strlit("торгуючакраїна");
        reveal_strlit("датаоформлення");
        assert("торгуючакраїна"@[0] != "датаоформлення"@[0]);
        reveal_strlit("торгуючакраїна");
        reveal_strlit("датаоформления");
        assert("торгуючакраїна"@[0] != "датаоформления"@[0]);
        reveal_strlit("торгуючакраїна");
        reveal_strlit("описаниетовара");
        assert("торгуючакраїна"@[0] != "описаниетовара"@[0]);
    } else if j == 2 {
        assert(e.1[2] == "странаторговли"@);
        reveal_strlit("странаторговли");
        reveal_strlit("датаоформлення");
        assert("странаторговли"@[0] != "датаоформлення"@[0]);
        reveal_strlit("странаторговли");
        reveal_strlit("датаоформления");
        assert("странаторговли"@[0] != "датаоформления"@[0]);
        reveal_strlit("странаторговли");
        reveal_strlit("описаниетовара");
        assert("странаторговли"@[0] != "описаниетовара"@[0]);
    } else if j == 3 {
        assert(e.1[3] == "країнаторгівлі"@);
        reveal_strlit("країнаторгівлі");
        reveal_strlit("датаоформлення");
        assert("країнаторгівлі"@[0] != "датаоформлення"@[0]);
        reveal_strlit("країнаторгівлі");
        reveal_strlit("датаоформления");
        assert("країнаторгівлі"@[0] != "датаоформления"@[0]);
        reveal_strlit("країнаторгівлі");
        reveal_strlit("описаниетовара");
        assert("країнаторгівлі"@[0] != "описаниетовара"@[0]);
    } else if j == 4 {
        assert(e.1[4] == "торгующаястрана"@);
        reveal_strlit("торгующаястрана");
        reveal_strlit("времяоформления");
        assert("торгующаястрана"@[0] != "времяоформления"@[0]);
        reveal_strlit("торгующаястрана");
        reveal_strlit("номердекларації");
        assert("торгующаястрана"@[0] != "номердекларації"@[0]);
        reveal_strlit("торгующаястрана");
        reveal_strlit("номердекларации");
        assert("торгующаястрана"@[0] != "номердекларации"@[0]);
    }
}

proof fn lemma_aliases_of_entry_12(j: int)
    requires
        0 <= j < generic_aliases()[12].1.len(),
    ensures
        alias_target(generic_aliases()[12].1[j]) matches Some(c) && column_name(c) == generic_aliases()[12].0,
{
    lemma_alias_literals();
    let e = generic_aliases()[12];
    assert(e.0 == "dispatch_country"@);
    if j == 0 {
        assert(e.1[0] == "крвідпр"@);
        reveal_strlit("крвідпр");
        reveal_strlit("митниця");
        assert("крвідпр"@[0] != "митниця"@[0]);
        reveal_strlit("крвідпр");
        reveal_strlit("таможня");
        assert("крвідпр"@[0] != "таможня"@[0]);
        reveal_strlit("крвідпр");
        reveal_strlit("номермд");
        assert("крвідпр"@[0] != "номермд"@[0]);
    } else if j == 1 {
        assert(e.1[1] == "країнавідправлення"@);
        reveal_strlit("країнавідправлення");
        reveal_strlit("кодфірмиотримувача");
        assert("країнавідправлення"@[1] != "кодфірмиотримувача"@[1]);
        reveal_strlit("країнавідправлення");
        reveal_strlit("найменуваннятовару");
        assert("країнавідправлення"@[0] != "найменуваннятовару"@[0]);
        reveal_strlit("країнавідправлення");
        reveal_strlit("наименованиетовара");
        assert("країнавідправлення"@[0] != "наименованиетовара"@[0]);
    } else if j == 2 {
        assert(e.1[2] == "странаотправления"@);
        reveal_strlit("странаотправления");
        reveal_strlit("митницяоформлення");
        assert("странаотправления"@[0] != "митницяоформлення"@[0]);
        reveal_strlit("странаотправления");
        reveal_strlit("таможняоформления");
        assert("странаотправления"@[0] != "таможняоформления"@[0]);
    }
}

proof fn lemma_aliases_of_entry_13(j: int)
    requires
        0 <= j < generic_aliases()[13].1.len(),
    ensures
        alias_target(generic_aliases()[13].1[j]) matches Some(c) && column_name(c) == generic_aliases()[13].0,
{
    lemma_alias_literals();
    let e = generic_aliases()[13];
    assert(e.0 == "origin_country"@);
    if j == 0 {
        assert(e.1[0] == "крпох"@);
        reveal_strlit("крпох");
        reveal_strlit("товар");
        assert("крпох"@[0] != "товар"@[0]);
    } else if j == 1 {
        assert(e.1[1] == "країнапоходження"@);
    } else if j == 2 {
        assert(e.1[2] == "странапроисхождения"@);
    } else if j == 3 {
        assert(e.1[3] == "країнапоходженнятовару"@);
        reveal_strlit("країнапоходженнятовару");
        reveal_strlit("назвафірмивідправиника");
        assert("країнапоходженнятовару"@[0] != "назвафірмивідправиника"@[0]);
    }
}

proof fn lemma_aliases_of_entry_14(j: int)
    requires
        0 <= j < generic_aliases()[14].1.len(),
    ensures
        alias_target(generic_aliases()[14].1[j]) matches Some(c) && column_name(c) == generic_aliases()[14].0,
{
    lemma_alias_literals();
    let e = generic_aliases()[14];
    assert(e.0 == "delivery_terms"@);
    if j == 0 {
        assert(e.1[0] == "умовипост"@);
        reveal_strlit("умовипост");
        reveal_strlit("експортер");
        assert("умовипост"@[0] != "експортер"@[0]);
        reveal_strlit("умовипост");
        reveal_strlit("экспортер");
        assert("умовипост"@[0] != "экспортер"@[0]);
        reveal_strlit("умовипост");
        reveal_strlit("кодєдрпоу");
        assert("умовипост"@[0] != "кодєдрпоу"@[0]);
        reveal_strlit("умовипост");
        reveal_strlit("кодедрпоу");
        assert("умовипост"@[0] != "кодедрпоу"@[0]);
        reveal_strlit("умовипост");
        reveal_strlit("одержувач");
        assert("умовипост"@[0] != "одержувач"@[0]);
        reveal_strlit("умовипост");
        reveal_strlit("отримувач");
        assert("умовипост"@[0] != "отримувач"@[0]);
        reveal_strlit("умовипост");
        reveal_strlit("кодтовару");
        assert("умовипост"@[0] != "кодтовару"@[0]);
        reveal_strlit("умовипост");
        reveal_strlit("кодтовара");
        assert("умовипост"@[0] != "кодтовара"@[0]);
        reveal_strlit("умовипост");
        reveal_strlit("кодуктзед");
        assert("умовипост"@[0] != "кодуктзед"@[0]);
    } else if j == 1 {
        assert(e.1[1] == "умовипоставки"@);
        reveal_strlit("умовипоставки");
        reveal_strlit("часоформлення");
        assert("умовипоставки"@[0] != "часоформлення"@[0]);
        reveal_strlit("умовипоставки");
        reveal_strlit("типдекларації");
        assert("умовипоставки"@[0] != "типдекларації"@[0]);
        reveal_strlit("умовипоставки");
        reveal_strlit("типдекларации");
        assert("умовипоставки"@[0] != "типдекларации"@[0]);
        reveal_strlit("умовипоставки");
        reveal_strlit("кодотримувача");
        assert("умовипоставки"@[0] != "кодотримувача"@[0]);
    } else if j == 2 {
        assert(e.1[2] == "условияпоставки"@);
        reveal_strlit("условияпоставки");
        reveal_strlit("времяоформления");
        assert("условияпоставки"@[0] != "времяоформления"@[0]);
        reveal_strlit("условияпоставки");
        reveal_strlit("номердекларації");
        assert("условияпоставки"@[0] != "номердекларації"@[0]);
        reveal_strlit("условияпоставки");
        reveal_strlit("номердекларации");
        assert("условияпоставки"@[0] != "номердекларации"@[0]);
        reveal_strlit("условияпоставки");
        reveal_strlit("торгующаястрана");
        assert("условияпоставки"@[0] != "торгующаястрана"@[0]);
    }
}

proof fn lemma_aliases_of_entry_15(j: int)
    requires
        0 <= j < generic_aliases()[15].1.len(),
    ensures
        alias_target(generic_aliases()[15].1[j]) matches Some(c) && column_name(c) == generic_aliases()[15].0,
{
    lemma_alias_literals();
    let e = generic_aliases()[15];
    assert(e.0 == "delivery_place"@);
    if j == 0 {
        assert(e.1[0] == "місцепост"@);
        reveal_strlit("місцепост");
        reveal_strlit("експортер");
        assert("місцепост"@[0] != "експортер"@[0]);
        reveal_strlit("місцепост");
        reveal_strlit("экспортер");
        assert("місцепост"@[0] != "экспортер"@[0]);
        reveal_strlit("місцепост");
        reveal_strlit("кодєдрпоу");
        assert("місцепост"@[0] != "кодєдрпоу"@[0]);
        reveal_strlit("місцепост");
        reveal_strlit("кодедрпоу");
        assert("місцепост"@[0] != "кодедрпоу"@[0]);
        reveal_strlit("місцепост");
        reveal_strlit("одержувач");
        assert("місцепост"@[0] != "одержувач"@[0]);
        reveal_strlit("місцепост");
        reveal_strlit("отримувач");
        assert("місцепост"@[0] != "отримувач"@[0]);
        reveal_strlit("місцепост");
        reveal_strlit("кодтовару");
        assert("місцепост"@[0] != "кодтовару"@[0]);
        reveal_strlit("місцепост");
        reveal_strlit("кодтовара");
        assert("місцепост"@[0] != "кодтовара"@[0]);
        reveal_strlit("місцепост");
        reveal_strlit("кодуктзед");
        assert("місцепост"@[0] != "кодуктзед"@[0]);
        reveal_strlit("місцепост");
        reveal_strlit("умовипост");
        assert("місцепост"@[0] != "умовипост"@[0]);
    } else if j == 1 {
        assert(e.1[1] == "місцепоставки"@);
        reveal_strlit("місцепоставки");
        reveal_strlit("часоформлення");
        assert("місцепоставки"@[0] != "часоформлення"@[0]);
        reveal_strlit("місцепоставки");
        reveal_strlit("типдекларації");
        assert("місцепоставки"@[0] != "типдекларації"@[0]);
        reveal_strlit("місцепоставки");
        reveal_strlit("типдекларации");
        assert("місцепоставки"@[0] != "типдекларации"@[0]);
        reveal_strlit("місцепоставки");
        reveal_strlit("кодотримувача");
        assert("місцепоставки"@[0] != "кодотримувача"@[0]);
        reveal_strlit("місцепоставки");
        reveal_strlit("умовипоставки");
        assert("місцепоставки"@[0] != "умовипоставки"@[0]);
    } else if j == 2 {
        assert(e.1[2] == "местопоставки"@);
        reveal_strlit("местопоставки");
        reveal_strlit("часоформлення");
        assert("местопоставки"@[0] != "часоформлення"@[0]);
        reveal_strlit("местопоставки");
        reveal_strlit("типдекларації");
        assert("местопоставки"@[0] != "типдекларації"@[0]);
        reveal_strlit("местопоставки");
        reveal_strlit("типдекларации");
        assert("местопоставки"@[0] != "типдекларации"@[0]);
        reveal_strlit("местопоставки");
        reveal_strlit("кодотримувача");
        assert("местопоставки"@[0] != "кодотримувача"@[0]);
        reveal_strlit("местопоставки");
        reveal_strlit("умовипоставки");
        assert("местопоставки"@[0] != "умовипоставки"@[0]);
    }
}

proof fn lemma_aliases_of_entry_16(j: int)
    requires
        0 <= j < generic_aliases()[16].1.len(),
    ensures
        alias_target(generic_aliases()[16].1[j]) matches Some(c) && column_name(c) == generic_aliases()[16].0,
{
    lemma_alias_literals();
    let e = generic_aliases()[16];
    assert(e.0 == "quantity"@);
    if j == 0 {
        assert(e.1[0] == "кть"@);
        reveal_strlit("кть");
        reveal_strlit("тип");
        assert("кть"@[0] != "тип"@[0]);
        reveal_strlit("кть");
        reveal_strlit("код");
        assert("кть"@[1] != "код"@[1]);
    } else if j == 1 {
        assert(e.1[1] == "кількість"@);
        reveal_strlit("кількість");
        reveal_strlit("експортер");
        assert("кількість"@[0] != "експортер"@[0]);
        reveal_strlit("кількість");
        reveal_strlit("экспортер");
        assert("кількість"@[0] != "экспортер"@[0]);
        reveal_strlit("кількість");
        reveal_strlit("кодєдрпоу");
        assert("кількість"@[1] != "кодєдрпоу"@[1]);
        reveal_strlit("кількість");
        reveal_strlit("кодедрпоу");
        assert("кількість"@[1] != "кодедрпоу"@[1]);
        reveal_strlit("кількість");
        reveal_strlit("одержувач");
        assert("кількість"@[0] != "одержувач"@[0]);
        reveal_strlit("кількість");
        reveal_strlit("отримувач");
        assert("кількість"@[0] != "отримувач"@[0]);
        reveal_strlit("кількість");
        reveal_strlit("кодтовару");
        assert("кількість"@[1] != "кодтовару"@[1]);
        reveal_strlit("кількість");
        reveal_strlit("кодтовара");
        assert("кількість"@[1] != "кодтовара"@[1]);
        reveal_strlit("кількість");
        reveal_strlit("кодуктзед");
        assert("кількість"@[1] != "кодуктзед"@[1]);
        reveal_strlit("кількість");
        reveal_strlit("умовипост");
        assert("кількість"@[0] != "умовипост"@[0]);
        reveal_strlit("кількість");
        reveal_strlit("місцепост");
        assert("кількість"@[0] != "місцепост"@[0]);
    } else if j == 2 {
        assert(e.1[2] == "количество"@);
        reveal_strlit("количество");
        reveal_strlit("відправник");
        assert("количество"@[0] != "відправник"@[0]);
        reveal_strlit("количество");
        reveal_strlit("получатель");
        assert("количество"@[0] != "получатель"@[0]);
        reveal_strlit("количество");
        reveal_strlit("опистовару");
        assert("количество"@[0] != "опистовару"@[0]);
        reveal_strlit("количество");
        reveal_strlit("опистовара");
        assert("количество"@[0] != "опистовара"@[0]);
    } else if j == 3 {
        assert(e.1[3] == "додод"@);
        reveal_strlit("додод");
        reveal_strlit("товар");
        assert("додод"@[0] != "товар"@[0]);
        reveal_strlit("додод");
        reveal_strlit("крпох");
        assert("додод"@[0] != "крпох"@[0]);
    } else if j == 4 {
        assert(e.1[4] == "qty"@);
        reveal_strlit("qty");
        reveal_strlit("тип");
        assert("qty"@[0] != "тип"@[0]);
        reveal_strlit("qty");
        reveal_strlit("код");
        assert("qty"@[0] != "код"@[0]);
    }
}

proof fn lemma_aliases_of_entry_17(j: int)
    requires
        0 <= j < generic_aliases()[17].1.len(),
    ensures
        alias_target(generic_aliases()[17].1[j]) matches Some(c) && column_name(c) == generic_aliases()[17].0,
{
    lemma_alias_literals();
    let e = generic_aliases()[17];
    assert(e.0 == "unit"@);
    if j == 0 {
        assert(e.1[0] == "одинвим"@);
        reveal_strlit("одинвим");
        reveal_strlit("митниця");
        assert("одинвим"@[0] != "митниця"@[0]);
        reveal_strlit("одинвим");
        reveal_strlit("таможня");
        assert("одинвим"@[0] != "таможня"@[0]);
        reveal_strlit("одинвим");
        reveal_strlit("номермд");
        assert("одинвим"@[0] != "номермд"@[0]);
        reveal_strlit("одинвим");
        reveal_strlit("крвідпр");
        assert("одинвим"@[0] != "крвідпр"@[0]);
    } else if j == 1 {
        assert(e.1[1] == "одиницявиміру"@);
        reveal_strlit("одиницявиміру");
        reveal_strlit("часоформлення");
        assert("одиницявиміру"@[0] != "часоформлення"@[0]);
        reveal_strlit("одиницявиміру");
        reveal_strlit("типдекларації");
        assert("одиницявиміру"@[0] != "типдекларації"@[0]);
        reveal_strlit("одиницявиміру");
        reveal_strlit("типдекларации");
        assert("одиницявиміру"@[0] != "типдекларации"@[0]);
        reveal_strlit("одиницявиміру");
        reveal_strlit("кодотримувача");
        assert("одиницявиміру"@[0] != "кодотримувача"@[0]);
        reveal_strlit("одиницявиміру");
        reveal_strlit("умовипоставки");
        assert("одиницявиміру"@[0] != "умовипоставки"@[0]);
        reveal_strlit("одиницявиміру");
        reveal_strlit("місцепоставки");
        assert("одиницявиміру"@[0] != "місцепоставки"@[0]);
        reveal_strlit("одиницявиміру");
        reveal_strlit("местопоставки");
        assert("одиницявиміру"@[0] != "местопоставки"@[0]);
    } else if j == 2 {
        assert(e.1[2] == "единицаизмерения"@);
        reveal_strlit("единицаизмерения");
        reveal_strlit("країнапоходження");
        assert("единицаизмерения"@[0] != "країнапоходження"@[0]);
    }
}

proof fn lemma_aliases_of_entry_18(j: int)
    requires
        0 <= j < generic_aliases()[18].1.len(),
    ensures
        alias_target(generic_aliases()[18].1[j]) matches Some(c) && column_name(c) == generic_aliases()[18].0,
{
    lemma_alias_literals();
    let e = generic_aliases()[18];
    assert(e.0 == "gross_kg"@);
    if j == 0 {
        assert(e.1[0] == "бруттокг"@);
        reveal_strlit("бруттокг");
        reveal_strlit("назвапмо");
        assert("бруттокг"@[0] != "назвапмо"@[0]);
        reveal_strlit("бруттокг");
        reveal_strlit("номергтд");
        assert("бруттокг"@[0] != "номергтд"@[0]);
        reveal_strlit("бруттокг");
        reveal_strlit("exporter");
        assert("бруттокг"@[0] != "exporter"@[0]);
        reveal_strlit("бруттокг");
        reveal_strlit("імпортер");
        assert("бруттокг"@[0] != "імпортер"@[0]);
        reveal_strlit("бруттокг");
        reveal_strlit("импортер");
        assert("бруттокг"@[0] != "импортер"@[0]);
        reveal_strlit("бруттокг");
        reveal_strlit("importer");
        assert("бруттокг"@[0] != "importer"@[0]);
        reveal_strlit("бруттокг");
        reveal_strlit("кодтнвэд");
        assert("бруттокг"@[0] != "кодтнвэд"@[0]);
        reveal_strlit("бруттокг");
        reveal_strlit("кодтнвед");
        assert("бруттокг"@[0] != "кодтнвед"@[0]);
        reveal_strlit("бруттокг");
        reveal_strlit("кодтнзед");
        assert("бруттокг"@[0] != "кодтнзед"@[0]);
        reveal_strlit("бруттокг");
        reveal_strlit("описание");
        assert("бруттокг"@[0] != "описание"@[0]);
    } else if j == 1 {
        assert(e.1[1] == "вагабруттокг"@);
        reveal_strlit("вагабруттокг");
        reveal_strlit("найменування");
        assert("вагабруттокг"@[0] != "найменування"@[0]);
        reveal_strlit("вагабруттокг");
        reveal_strlit("наименование");
        assert("вагабруттокг"@[0] != "наименование"@[0]);
    } else if j == 2 {
        assert(e.1[2] == "весбруттокг"@);
        reveal_strlit("весбруттокг");
        reveal_strlit("отправитель");
        assert("весбруттокг"@[0] != "отправитель"@[0]);
        reveal_strlit("весбруттокг");
        reveal_strlit("відпправник");
        assert("весбруттокг"@[1] != "відпправник"@[1]);
        reveal_strlit("весбруттокг");
        reveal_strlit("кодпоєдрпоу");
        assert("весбруттокг"@[0] != "кодпоєдрпоу"@[0]);
        reveal_strlit("весбруттокг");
        reveal_strlit("номертовару");
        assert("весбруттокг"@[0] != "номертовару"@[0]);
        reveal_strlit("весбруттокг");
        reveal_strlit("номертовара");
        assert("весбруттокг"@[0] != "номертовара"@[0]);
        reveal_strlit("весбруттокг");
        reveal_strlit("назватовару");
        assert("весбруттокг"@[0] != "назватовару"@[0]);
        reveal_strlit("весбруттокг");
        reveal_strlit("description");
        assert("весбруттокг"@[0] != "description"@[0]);
    } else if j == 3 {
        assert(e.1[3] == "вагабрутто"@);
        reveal_strlit("вагабрутто");
        reveal_strlit("відправник");
        assert("вагабрутто"@[1] != "відправник"@[1]);
        reveal_strlit("вагабрутто");
        reveal_strlit("получатель");
        assert("вагабрутто"@[0] != "получатель"@[0]);
        reveal_strlit("вагабрутто");
        reveal_strlit("опистовару");
        assert("вагабрутто"@[0] != "опистовару"@[0]);
        reveal_strlit("вагабрутто");
        reveal_strlit("опистовара");
        assert("вагабрутто"@[0] != "опистовара"@[0]);
        reveal_strlit("вагабрутто");
        reveal_strlit("количество");
        assert("вагабрутто"@[0] != "количество"@[0]);
    } else if j == 4 {
        assert(e.1[4] == "весбрутто"@);
        reveal_strlit("весбрутто");
        reveal_strlit("експортер");
        assert("весбрутто"@[0] != "експортер"@[0]);
        reveal_strlit("весбрутто");
        reveal_strlit("экспортер");
        assert("весбрутто"@[0] != "экспортер"@[0]);
        reveal_strlit("весбрутто");
        reveal_strlit("кодєдрпоу");
        assert("весбрутто"@[0] != "кодєдрпоу"@[0]);
        reveal_strlit("весбрутто");
        reveal_strlit("кодедрпоу");
        assert("весбрутто"@[0] != "кодедрпоу"@[0]);
        reveal_strlit("весбрутто");
        reveal_strlit("одержувач");
        assert("весбрутто"@[0] != "одержувач"@[0]);
        reveal_strlit("весбрутто");
        reveal_strlit("отримувач");
        assert("весбрутто"@[0] != "отримувач"@[0]);
        reveal_strlit("весбрутто");
        reveal_strlit("кодтовару");
        assert("весбрутто"@[0] != "кодтовару"@[0]);
        reveal_strlit("весбрутто");
        reveal_strlit("кодтовара");
        assert("весбрутто"@[0] != "кодтовара"@[0]);
        reveal_strlit("весбрутто");
        reveal_strlit("кодуктзед");
        assert("весбрутто"@[0] != "кодуктзед"@[0]);
        reveal_strlit("весбрутто");
        reveal_strlit("умовипост");
        assert("весбрутто"@[0] != "умовипост"@[0]);
        reveal_strlit("весбрутто");
        reveal_strlit("місцепост");
        assert("весбрутто"@[0] != "місцепост"@[0]);
        reveal_strlit("весбрутто");
        reveal_strlit("кількість");
        assert("весбрутто"@[0] != "кількість"@[0]);
    } else if j == 5 {
        assert(e.1[5] == "брутто"@);
        reveal_strlit("брутто");
        reveal_strlit("датамд");
        assert("брутто"@[0] != "датамд"@[0]);
        reveal_strlit("брутто");
        reveal_strlit("sender");
        assert("брутто"@[0] != "sender"@[0]);
        reveal_strlit("брутто");
        reveal_strlit("едрпоу");
        assert("брутто"@[0] != "едрпоу"@[0]);
        reveal_strlit("брутто");
        reveal_strlit("єдрпоу");
        assert("брутто"@[0] != "єдрпоу"@[0]);
        reveal_strlit("брутто");
        reveal_strlit("hscode");
        assert("брутто"@[0] != "hscode"@[0]);
        reveal_strlit("брутто");
        reveal_strlit("крторг");
        assert("брутто"@[0] != "крторг"@[0]);
    }
}

proof fn lemma_aliases_of_entry_19(j: int)
    requires
        0 <= j < generic_aliases()[19].1.len(),
    ensures
        alias_target(generic_aliases()[19].1[j]) matches Some(c) && column_name(c) == generic_aliases()[19].0,
{
    lemma_alias_literals();
    let e = generic_aliases()[19];
    assert(e.0 == "net_kg"@);
    if j == 0 {
        assert(e.1[0] == "неттокг"@);
        reveal_strlit("неттокг");
        reveal_strlit("митниця");
        assert("неттокг"@[0] != "митниця"@[0]);
        reveal_strlit("неттокг");
        reveal_strlit("таможня");
        assert("неттокг"@[0] != "таможня"@[0]);
        reveal_strlit("неттокг");
        reveal_strlit("номермд");
        assert("неттокг"@[1] != "номермд"@[1]);
        reveal_strlit("неттокг");
        reveal_strlit("крвідпр");
        assert("неттокг"@[0] != "крвідпр"@[0]);
        reveal_strlit("неттокг");
        reveal_strlit("одинвим");
        assert("неттокг"@[0] != "одинвим"@[0]);
    } else if j == 1 {
        assert(e.1[1] == "ваганеттокг"@);
        reveal_strlit("ваганеттокг");
        reveal_strlit("отправитель");
        assert("ваганеттокг"@[0] != "отправитель"@[0]);
        reveal_strlit("ваганеттокг");
        reveal_strlit("відпправник");
        assert("ваганеттокг"@[1] != "відпправник"@[1]);
        reveal_strlit("ваганеттокг");
        reveal_strlit("кодпоєдрпоу");
        assert("ваганеттокг"@[0] != "кодпоєдрпоу"@[0]);
        reveal_strlit("ваганеттокг");
        reveal_strlit("номертовару");
        assert("ваганеттокг"@[0] != "номертовару"@[0]);
        reveal_strlit("ваганеттокг");
        reveal_strlit("номертовара");
        assert("ваганеттокг"@[0] != "номертовара"@[0]);
        reveal_strlit("ваганеттокг");
        reveal_strlit("назватовару");
        assert("ваганеттокг"@[0] != "назватовару"@[0]);
        reveal_strlit("ваганеттокг");
        reveal_strlit("description");
        assert("ваганеттокг"@[0] != "description"@[0]);
        reveal_strlit("ваганеттокг");
        reveal_strlit("весбруттокг");
        assert("ваганеттокг"@[1] != "весбруттокг"@[1]);
    } else if j == 2 {
        assert(e.1[2] == "веснеттокг"@);
        reveal_strlit("веснеттокг");
        reveal_strlit("відправник");
        assert("веснеттокг"@[1] != "відправник"@[1]);
        reveal_strlit("веснеттокг");
        reveal_strlit("получатель");
        assert("веснеттокг"@[0] != "получатель"@[0]);
        reveal_strlit("веснеттокг");
        reveal_strlit("опистовару");
        assert("веснеттокг"@[0] != "опистовару"@[0]);
        reveal_strlit("веснеттокг");
        reveal_strlit("опистовара");
        assert("веснеттокг"@[0] != "опистовара"@[0]);
        reveal_strlit("веснеттокг");
        reveal_strlit("количество");
        assert("веснеттокг"@[0] != "количество"@[0]);
        reveal_strlit("веснеттокг");
        reveal_strlit("вагабрутто");
        assert("веснеттокг"@[1] != "вагабрутто"@[1]);
    } else if j == 3 {
        assert(e.1[3] == "ваганетто"@);
        reveal_strlit("ваганетто");
        reveal_strlit("експортер");
        assert("ваганетто"@[0] != "експортер"@[0]);
        reveal_strlit("ваганетто");
        reveal_strlit("экспортер");
        assert("ваганетто"@[0] != "экспортер"@[0]);
        reveal_strlit("ваганетто");
        reveal_strlit("кодєдрпоу");
        assert("ваганетто"@[0] != "кодєдрпоу"@[0]);
        reveal_strlit("ваганетто");
        reveal_strlit("кодедрпоу");
        assert("ваганетто"@[0] != "кодедрпоу"@[0]);
        reveal_strlit("ваганетто");
        reveal_strlit("одержувач");
        assert("ваганетто"@[0] != "одержувач"@[0]);
        reveal_strlit("ваганетто");
        reveal_strlit("отримувач");
        assert("ваганетто"@[0] != "отримувач"@[0]);
        reveal_strlit("ваганетто");
        reveal_strlit("кодтовару");
        assert("ваганетто"@[0] != "кодтовару"@[0]);
        reveal_strlit("ваганетто");
        reveal_strlit("кодтовара");
        assert("ваганетто"@[0] != "кодтовара"@[0]);
        reveal_strlit("ваганетто");
        reveal_strlit("кодуктзед");
        assert("ваганетто"@[0] != "кодуктзед"@[0]);
        reveal_strlit("ваганетто");
        reveal_strlit("умовипост");
        assert("ваганетто"@[0] != "умовипост"@[0]);
        reveal_strlit("ваганетто");
        reveal_strlit("місцепост");
        assert("ваганетто"@[0] != "місцепост"@[0]);
        reveal_strlit("ваганетто");
        reveal_strlit("кількість");
        assert("ваганетто"@[0] != "кількість"@[0]);
        reveal_strlit("ваганетто");
        reveal_strlit("весбрутто");
        assert("ваганетто"@[1] != "весбрутто"@[1]);
    } else if j == 4 {
        assert(e.1[4] == "веснетто"@);
        reveal_strlit("веснетто");
        reveal_strlit("назвапмо");
        assert("веснетто"@[0] != "назвапмо"@[0]);
        reveal_strlit("веснетто");
        reveal_strlit("номергтд");
        assert("веснетто"@[0] != "номергтд"@[0]);
        reveal_strlit("веснетто");
        reveal_strlit("exporter");
        assert("веснетто"@[0] != "exporter"@[0]);
        reveal_strlit("веснетто");
        reveal_strlit("імпортер");
        assert("веснетто"@[0] != "імпортер"@[0]);
        reveal_strlit("веснетто");
        reveal_strlit("импортер");
        assert("веснетто"@[0] != "импортер"@[0]);
        reveal_strlit("веснетто");
        reveal_strlit("importer");
        assert("веснетто"@[0] != "importer"@[0]);
        reveal_strlit("веснетто");
        reveal_strlit("кодтнвэд");
        assert("веснетто"@[0] != "кодтнвэд"@[0]);
        reveal_strlit("веснетто");
        reveal_strlit("кодтнвед");
        assert("веснетто"@[0] != "кодтнвед"@[0]);
        reveal_strlit("веснетто");
        reveal_strlit("кодтнзед");
        assert("веснетто"@[0] != "кодтнзед"@[0]);
        reveal_strlit("веснетто");
        reveal_strlit("описание");
        assert("веснетто"@[0] != "описание"@[0]);
        reveal_strlit("веснетто");
        reveal_strlit("бруттокг");
        assert("веснетто"@[0] != "бруттокг"@[0]);
    } else if j == 5 {
        assert(e.1[5] == "нетто"@);
        reveal_strlit("нетто");
        reveal_strlit("товар");
        assert("нетто"@[0] != "товар"@[0]);
        reveal_strlit("нетто");
        reveal_strlit("крпох");
        assert("нетто"@[0] != "крпох"@[0]);
        reveal_strlit("нетто");
        reveal_strlit("додод");
        assert("нетто"@[0] != "додод"@[0]);
    }
}

proof fn lemma_aliases_of_entry_20(j: int)
    requires
        0 <= j < generic_aliases()[20].1.len(),
    ensures
        alias_target(generic_aliases()[20].1[j]) matches Some(c) && column_name(c) == generic_aliases()[20].0,
{
    lemma_alias_literals();
    let e = generic_aliases()[20];
    assert(e.0 == "trademark"@);
    if j == 0 {
        assert(e.1[0] == "торгмарк"@);
        reveal_strlit("торгмарк");
        reveal_strlit("назвапмо");
        assert("торгмарк"@[0] != "назвапмо"@[0]);
        reveal_strlit("торгмарк");
        reveal_strlit("номергтд");
        assert("торгмарк"@[0] != "номергтд"@[0]);
        reveal_strlit("торгмарк");
        reveal_strlit("exporter");
        assert("торгмарк"@[0] != "exporter"@[0]);
        reveal_strlit("торгмарк");
        reveal_strlit("імпортер");
        assert("торгмарк"@[0] != "імпортер"@[0]);
        reveal_strlit("торгмарк");
        reveal_strlit("импортер");
        assert("торгмарк"@[0] != "импортер"@[0]);
        reveal_strlit("торгмарк");
        reveal_strlit("importer");
        assert("торгмарк"@[0] != "importer"@[0]);
        reveal_strlit("торгмарк");
        reveal_strlit("кодтнвэд");
        assert("торгмарк"@[0] != "кодтнвэд"@[0]);
        reveal_strlit("торгмарк");
        reveal_strlit("кодтнвед");
        assert("торгмарк"@[0] != "кодтнвед"@[0]);
        reveal_strlit("торгмарк");
        reveal_strlit("кодтнзед");
        assert("торгмарк"@[0] != "кодтнзед"@[0]);
        reveal_strlit("торгмарк");
        reveal_strlit("описание");
        assert("торгмарк"@[0] != "описание"@[0]);
        reveal_strlit("торгмарк");
        reveal_strlit("бруттокг");
        assert("торгмарк"@[0] != "бруттокг"@[0]);
        reveal_strlit("торгмарк");
        reveal_strlit("веснетто");
        assert("торгмарк"@[0] != "веснетто"@[0]);
    } else if j == 1 {
        assert(e.1[1] == "торговамарка"@);
        reveal_strlit("торговамарка");
        reveal_strlit("найменування");
        assert("торговамарка"@[0] != "найменування"@[0]);
        reveal_strlit("торговамарка");
        reveal_strlit("наименование");
        assert("торговамарка"@[0] != "наименование"@[0]);
        reveal_strlit("торговамарка");
        reveal_strlit("вагабруттокг");
        assert("торговамарка"@[0] != "вагабруттокг"@[0]);
    } else if j == 2 {
        assert(e.1[2] == "торговаямарка"@);
        reveal_strlit("торговаямарка");
        reveal_strlit("часоформлення");
        assert("торговаямарка"@[0] != "часоформлення"@[0]);
        reveal_strlit("торговаямарка");
        reveal_strlit("типдекларації");
        assert("торговаямарка"@[1] != "типдекларації"@[1]);
        reveal_strlit("торговаямарка");
        reveal_strlit("типдекларации");
        assert("торговаямарка"@[1] != "типдекларации"@[1]);
        reveal_strlit("торговаямарка");
        reveal_strlit("кодотримувача");
        assert("торговаямарка"@[0] != "кодотримувача"@[0]);
        reveal_strlit("торговаямарка");
        reveal_strlit("умовипоставки");
        assert("торговаямарка"@[0] != "умовипоставки"@[0]);
        reveal_strlit("торговаямарка");
        reveal_strlit("місцепоставки");
        assert("торговаямарка"@[0] != "місцепоставки"@[0]);
        reveal_strlit("торговаямарка");
        reveal_strlit("местопоставки");
        assert("торговаямарка"@[0] != "местопоставки"@[0]);
        reveal_strlit("торговаямарка");
        reveal_strlit("одиницявиміру");
        assert("торговаямарка"@[0] != "одиницявиміру"@[0]);
    } else if j == 3 {
        assert(e.1[3] == "тм"@);
        reveal_strlit("тм");
        reveal_strlit("нп");
        assert("тм"@[0] != "нп"@[0]);
        reveal_strlit("тм");
        reveal_strlit("пп");
        assert("тм"@[0] != "пп"@[0]);
    } else if j == 4 {
        assert(e.1[4] == "trademark"@);
        reveal_strlit("trademark");
        reveal_strlit("експортер");
        assert("trademark"@[0] != "експортер"@[0]);
        reveal_strlit("trademark");
        reveal_strlit("экспортер");
        assert("trademark"@[0] != "экспортер"@[0]);
        reveal_strlit("trademark");
        reveal_strlit("кодєдрпоу");
        assert("trademark"@[0] != "кодєдрпоу"@[0]);
        reveal_strlit("trademark");
        reveal_strlit("кодедрпоу");
        assert("trademark"@[0] != "кодедрпоу"@[0]);
        reveal_strlit("trademark");
        reveal_strlit("одержувач");
        assert("trademark"@[0] != "одержувач"@[0]);
        reveal_strlit("trademark");
        reveal_strlit("отримувач");
        assert("trademark"@[0] != "отримувач"@[0]);
        reveal_strlit("trademark");
        reveal_strlit("кодтовару");
        assert("trademark"@[0] != "кодтовару"@[0]);
        reveal_strlit("trademark");
        reveal_strlit("кодтовара");
        assert("trademark"@[0] != "кодтовара"@[0]);
        reveal_strlit("trademark");
        reveal_strlit("кодуктзед");
        assert("trademark"@[0] != "кодуктзед"@[0]);
        reveal_strlit("trademark");
        reveal_strlit("умовипост");
        assert("trademark"@[0] != "умовипост"@[0]);
        reveal_strlit("trademark");
        reveal_strlit("місцепост");
        assert("trademark"@[0] != "місцепост"@[0]);
        reveal_strlit("trademark");
        reveal_strlit("кількість");
        assert("trademark"@[0] != "кількість"@[0]);
        reveal_strlit("trademark");
        reveal_strlit("весбрутто");
        assert("trademark"@[0] != "весбрутто"@[0]);
        reveal_strlit("trademark");
        reveal_strlit("ваганетто");
        assert("trademark"@[0] != "ваганетто"@[0]);
    }
}

proof fn lemma_aliases_of_entry_21(j: int)
    requires
        0 <= j < generic_aliases()[21].1.len(),
    ensures
        alias_target(generic_aliases()[21].1[j]) matches Some(c) && column_name(c) == generic_aliases()[21].0,
{
    lemma_alias_literals();
    let e = generic_aliases()[21];
    assert(e.0 == "contract"@);
    if j == 0 {
        assert(e.1[0] == "контракт"@);
        reveal_strlit("контракт");
        reveal_strlit("назвапмо");
        assert("контракт"@[0] != "назвапмо"@[0]);
        reveal_strlit("контракт");
        reveal_strlit("номергтд");
        assert("контракт"@[0] != "номергтд"@[0]);
        reveal_strlit("контракт");
        reveal_strlit("exporter");
        assert("контракт"@[0] != "exporter"@[0]);
        reveal_strlit("контракт");
        reveal_strlit("імпортер");
        assert("контракт"@[0] != "імпортер"@[0]);
        reveal_strlit("контракт");
        reveal_strlit("импортер");
        assert("контракт"@[0] != "импортер"@[0]);
        reveal_strlit("контракт");
        reveal_strlit("importer");
        assert("контракт"@[0] != "importer"@[0]);
        reveal_strlit("контракт");
        reveal_strlit("кодтнвэд");
        assert("контракт"@[2] != "кодтнвэд"@[2]);
        reveal_strlit("контракт");
        reveal_strlit("кодтнвед");
        assert("контракт"@[2] != "кодтнвед"@[2]);
        reveal_strlit("контракт");
        reveal_strlit("кодтнзед");
        assert("контракт"@[2] != "кодтнзед"@[2]);
        reveal_strlit("контракт");
        reveal_strlit("описание");
        assert("контракт"@[0] != "описание"@[0]);
        reveal_strlit("контракт");
        reveal_strlit("бруттокг");
        assert("контракт"@[0] != "бруттокг"@[0]);
        reveal_strlit("контракт");
        reveal_strlit("веснетто");
        assert("контракт"@[0] != "веснетто"@[0]);
        reveal_strlit("контракт");
        reveal_strlit("торгмарк");
        assert("контракт"@[0] != "торгмарк"@[0]);
    } else if j == 1 {
        assert(e.1[1] == "номерконтракта"@);
        reveal_strlit("номерконтракта");
        reveal_strlit("датаоформлення");
        assert("номерконтракта"@[0] != "датаоформлення"@[0]);
        reveal_strlit("номерконтракта");
        reveal_strlit("датаоформления");
        assert("номерконтракта"@[0] != "датаоформления"@[0]);
        reveal_strlit("номерконтракта");
        reveal_strlit("описаниетовара");
        assert("номерконтракта"@[0] != "описаниетовара"@[0]);
        reveal_strlit("номерконтракта");
        reveal_strlit("торгуючакраїна");
        assert("номерконтракта"@[0] != "торгуючакраїна"@[0]);
        reveal_strlit("номерконтракта");
        reveal_strlit("странаторговли");
        assert("номерконтракта"@[0] != "странаторговли"@[0]);
        reveal_strlit("номерконтракта");
        reveal_strlit("країнаторгівлі");
        assert("номерконтракта"@[0] != "країнаторгівлі"@[0]);
    } else if j == 2 {
        assert(e.1[2] == "номерконтракту"@);
        reveal_strlit("номерконтракту");
        reveal_strlit("датаоформлення");
        assert("номерконтракту"@[0] != "датаоформлення"@[0]);
        reveal_strlit("номерконтракту");
        reveal_strlit("датаоформления");
        assert("номерконтракту"@[0] != "датаоформления"@[0]);
        reveal_strlit("номерконтракту");
        reveal_strlit("описаниетовара");
        assert("номерконтракту"@[0] != "описаниетовара"@[0]);
        reveal_strlit("номерконтракту");
        reveal_strlit("торгуючакраїна");
        assert("номерконтракту"@[0] != "торгуючакраїна"@[0]);
        reveal_strlit("номерконтракту");
        reveal_strlit("странаторговли");
        assert("номерконтракту"@[0] != "странаторговли"@[0]);
        reveal_strlit("номерконтракту");
        reveal_strlit("країнаторгівлі");
        assert("номерконтракту"@[0] != "країнаторгівлі"@[0]);
    }
}

proof fn lemma_alias_literals()
    ensures
        "часоформлення"@.len() == 13,
        "времяоформления"@.len() == 15,
        "назвапмо"@.len() == 8,
        "митницяоформлення"@.len() == 17,
        "митниця"@.len() == 7,
        "таможня"@.len() == 7,
        "таможняоформления"@.len() == 17,
        "тип"@.len() == 3,
        "типдекларації"@.len() == 13,
        "типдекларации"@.len() == 13,
        "номермд"@.len() == 7,
        "номердекларації"@.len() == 15,
        "номердекларации"@.len() == 15,
        "номергтд"@.len() == 8,
        "номермитноїдекларації"@.len() == 21,
        "номертаможеннойдекларации"@.len() == 25,
        "дата"@.len() == 4,
        "датаоформлення"@.len() == 14,
        "датаоформления"@.len() == 14,
        "датамд"@.len() == 6,
        "date"@.len() == 4,
        "відправник"@.len() == 10,
        "отправитель"@.len() == 11,
        "відпправник"@.len() == 11,
        "назвафірмивідправника"@.len() == 21,
        "назвафірмивідправиника"@.len() == 22,
        "sender"@.len() == 6,
        "експортер"@.len() == 9,
        "экспортер"@.len() == 9,
        "exporter"@.len() == 8,
        "едрпоу"@.len() == 6,
        "єдрпоу"@.len() == 6,
        "кодєдрпоу"@.len() == 9,
        "кодедрпоу"@.len() == 9,
        "кодфірмиотримувача"@.len() == 18,
        "кодотримувача"@.len() == 13,
        "окпо"@.len() == 4,
        "кодпоєдрпоу"@.len() == 11,
        "одержувач"@.len() == 9,
        "отримувач"@.len() == 9,
        "получатель"@.len() == 10,
        "назвафірмиотримувача"@.len() == 20,
        "імпортер"@.len() == 8,
        "импортер"@.len() == 8,
        "importer"@.len() == 8,
        "номертовару"@.len() == 11,
        "номертовара"@.len() == 11,
        "нп"@.len() == 2,
        "пп"@.len() == 2,
        "кодтовару"@.len() == 9,
        "кодтовара"@.len() == 9,
        "кодтнвэд"@.len() == 8,
        "кодтнвед"@.len() == 8,
        "кодтнзед"@.len() == 8,
        "кодуктзед"@.len() == 9,
        "hscode"@.len() == 6,
        "код"@.len() == 3,
        "опистовару"@.len() == 10,
        "описаниетовара"@.len() == 14,
        "найменуваннятовару"@.len() == 18,
        "назватовару"@.len() == 11,
        "наименованиетовара"@.len() == 18,
        "описание"@.len() == 8,
        "опис"@.len() == 4,
        "опистовара"@.len() == 10,
        "description"@.len() == 11,
        "товар"@.len() == 5,
        "найменування"@.len() == 12,
        "наименование"@.len() == 12,
        "крторг"@.len() == 6,
        "торгуючакраїна"@.len() == 14,
        "странаторговли"@.len() == 14,
        "країнаторгівлі"@.len() == 14,
        "торгующаястрана"@.len() == 15,
        "крвідпр"@.len() == 7,
        "країнавідправлення"@.len() == 18,
        "странаотправления"@.len() == 17,
        "крпох"@.len() == 5,
        "країнапоходження"@.len() == 16,
        "странапроисхождения"@.len() == 19,
        "країнапоходженнятовару"@.len() == 22,
        "умовипост"@.len() == 9,
        "умовипоставки"@.len() == 13,
        "условияпоставки"@.len() == 15,
        "місцепост"@.len() == 9,
        "місцепоставки"@.len() == 13,
        "местопоставки"@.len() == 13,
        "кть"@.len() == 3,
        "кількість"@.len() == 9,
        "количество"@.len() == 10,
        "додод"@.len() == 5,
        "qty"@.len() == 3,
        "одинвим"@.len() == 7,
        "одиницявиміру"@.len() == 13,
        "единицаизмерения"@.len() == 16,
        "бруттокг"@.len() == 8,
        "вагабруттокг"@.len() == 12,
        "весбруттокг"@.len() == 11,
        "вагабрутто"@.len() == 10,
        "весбрутто"@.len() == 9,
        "брутто"@.len() == 6,
        "неттокг"@.len() == 7,
        "ваганеттокг"@.len() == 11,
        "веснеттокг"@.len() == 10,
        "ваганетто"@.len() == 9,
        "веснетто"@.len() == 8,
        "нетто"@.len() == 5,
        "торгмарк"@.len() == 8,
        "торговамарка"@.len() == 12,
        "торговаямарка"@.len() == 13,
        "тм"@.len() == 2,
        "trademark"@.len() == 9,
        "контракт"@.len() == 8,
        "номерконтракта"@.len() == 14,
        "номерконтракту"@.len() == 14,
{
    reveal_strlit("часоформлення");
    reveal_strlit("времяоформления");
    reveal_strlit("назвапмо");
    reveal_strlit("митницяоформлення");
    reveal_strlit("митниця");
    reveal_strlit("таможня");
    reveal_strlit("таможняоформления");
    reveal_strlit("тип");
    reveal_strlit("типдекларації");
    reveal_strlit("типдекларации");
    reveal_strlit("номермд");
    reveal_strlit("номердекларації");
    reveal_strlit("номердекларации");
    reveal_strlit("номергтд");
    reveal_strlit("номермитноїдекларації");
    reveal_strlit("номертаможеннойдекларации");
    reveal_strlit("дата");
    reveal_strlit("датаоформлення");
    reveal_strlit("датаоформления");
    reveal_strlit("датамд");
    reveal_strlit("date");
    reveal_strlit("відправник");
    reveal_strlit("отправитель");
    reveal_strlit("відпправник");
    reveal_strlit("назвафірмивідправника");
    reveal_strlit("назвафірмивідправиника");
    reveal_strlit("sender");
    reveal_strlit("експортер");
    reveal_strlit("экспортер");
    reveal_strlit("exporter");
    reveal_strlit("едрпоу");
    reveal_strlit("єдрпоу");
    reveal_strlit("кодєдрпоу");
    reveal_strlit("кодедрпоу");
    reveal_strlit("кодфірмиотримувача");
    reveal_strlit("кодотримувача");
    reveal_strlit("окпо");
    reveal_strlit("кодпоєдрпоу");
    reveal_strlit("одержувач");
    reveal_strlit("отримувач");
    reveal_strlit("получатель");
    reveal_strlit("назвафірмиотримувача");
    reveal_strlit("імпортер");
    reveal_strlit("импортер");
    reveal_strlit("importer");
    reveal_strlit("номертовару");
    reveal_strlit("номертовара");
    reveal_strlit("нп");
    reveal_strlit("пп");
    reveal_strlit("кодтовару");
    reveal_strlit("кодтовара");
    reveal_strlit("кодтнвэд");
    reveal_strlit("кодтнвед");
    reveal_strlit("кодтнзед");
    reveal_strlit("кодуктзед");
    reveal_strlit("hscode");
    reveal_strlit("код");
    reveal_strlit("опистовару");
    reveal_strlit("описаниетовара");
    reveal_strlit("найменуваннятовару");
    reveal_strlit("назватовару");
    reveal_strlit("наименованиетовара");
    reveal_strlit("описание");
    reveal_strlit("опис");
    reveal_strlit("опистовара");
    reveal_strlit("description");
    reveal_strlit("товар");
    reveal_strlit("найменування");
    reveal_strlit("наименование");
    reveal_strlit("крторг");
    reveal_strlit("торгуючакраїна");
    reveal_strlit("странаторговли");
    reveal_strlit("країнаторгівлі");
    reveal_strlit("торгующаястрана");
    reveal_strlit("крвідпр");
    reveal_strlit("країнавідправлення");
    reveal_strlit("странаотправления");
    reveal_strlit("крпох");
    reveal_strlit("країнапоходження");
    reveal_strlit("странапроисхождения");
    reveal_strlit("країнапоходженнятовару");
    reveal_strlit("умовипост");
    reveal_strlit("умовипоставки");
    reveal_strlit("условияпоставки");
    reveal_strlit("місцепост");
    reveal_strlit("місцепоставки");
    reveal_strlit("местопоставки");
    reveal_strlit("кть");
    reveal_strlit("кількість");
    reveal_strlit("количество");
    reveal_strlit("додод");
    reveal_strlit("qty");
    reveal_strlit("одинвим");
    reveal_strlit("одиницявиміру");
    reveal_strlit("единицаизмерения");
    reveal_strlit("бруттокг");
    reveal_strlit("вагабруттокг");
    reveal_strlit("весбруттокг");
    reveal_strlit("вагабрутто");
    reveal_strlit("весбрутто");
    reveal_strlit("брутто");
    reveal_strlit("неттокг");
    reveal_strlit("ваганеттокг");
    reveal_strlit("веснеттокг");
    reveal_strlit("ваганетто");
    reveal_strlit("веснетто");
    reveal_strlit("нетто");
    reveal_strlit("торгмарк");
    reveal_strlit("торговамарка");
    reveal_strlit("торговаямарка");
    reveal_strlit("тм");
    reveal_strlit("trademark");
    reveal_strlit("контракт");
    reveal_strlit("номерконтракта");
    reveal_strlit("номерконтракту");
    assert("часоформлення"@.len() == 13);
    assert("времяоформления"@.len() == 15);
    assert("назвапмо"@.len() == 8);
    assert("митницяоформлення"@.len() == 17);
    assert("митниця"@.len() == 7);
    assert("таможня"@.len() == 7);
    assert("таможняоформления"@.len() == 17);
    assert("тип"@.len() == 3);
    assert("типдекларації"@.len() == 13);
    assert("типдекларации"@.len() == 13);
    assert("номермд"@.len() == 7);
    assert("номердекларації"@.len() == 15);
    assert("номердекларации"@.len() == 15);
    assert("номергтд"@.len() == 8);
    assert("номермитноїдекларації"@.len() == 21);
    assert("номертаможеннойдекларации"@.len() == 25);
    assert("дата"@.len() == 4);
    assert("датаоформлення"@.len() == 14);
    assert("датаоформления"@.len() == 14);
    assert("датамд"@.len() == 6);
    assert("date"@.len() == 4);
    assert("відправник"@.len() == 10);
    assert("отправитель"@.len() == 11);
    assert("відпправник"@.len() == 11);
    assert("назвафірмивідправника"@.len() == 21);
    assert("назвафірмивідправиника"@.len() == 22);
    assert("sender"@.len() == 6);
    assert("експортер"@.len() == 9);
    assert("экспортер"@.len() == 9);
    assert("exporter"@.len() == 8);
    assert("едрпоу"@.len() == 6);
    assert("єдрпоу"@.len() == 6);
    assert("кодєдрпоу"@.len() == 9);
    assert("кодедрпоу"@.len() == 9);
    assert("кодфірмиотримувача"@.len() == 18);
    assert("кодотримувача"@.len() == 13);
    assert("окпо"@.len() == 4);
    assert("кодпоєдрпоу"@.len() == 11);
    assert("одержувач"@.len() == 9);
    assert("отримувач"@.len() == 9);
    assert("получатель"@.len() == 10);
    assert("назвафірмиотримувача"@.len() == 20);
    assert("імпортер"@.len() == 8);
    assert("импортер"@.len() == 8);
    assert("importer"@.len() == 8);
    assert("номертовару"@.len() == 11);
    assert("номертовара"@.len() == 11);
    assert("нп"@.len() == 2);
    assert("пп"@.len() == 2);
    assert("кодтовару"@.len() == 9);
    assert("кодтовара"@.len() == 9);
    assert("кодтнвэд"@.len() == 8);
    assert("кодтнвед"@.len() == 8);
    assert("кодтнзед"@.len() == 8);
    assert("кодуктзед"@.len() == 9);
    assert("hscode"@.len() == 6);
    assert("код"@.len() == 3);
    assert("опистовару"@.len() == 10);
    assert("описаниетовара"@.len() == 14);
    assert("найменуваннятовару"@.len() == 18);
    assert("назватовару"@.len() == 11);
    assert("наименованиетовара"@.len() == 18);
    assert("описание"@.len() == 8);
    assert("опис"@.len() == 4);
    assert("опистовара"@.len() == 10);
    assert("description"@.len() == 11);
    assert("товар"@.len() == 5);
    assert("найменування"@.len() == 12);
    assert("наименование"@.len() == 12);
    assert("крторг"@.len() == 6);
    assert("торгуючакраїна"@.len() == 14);
    assert("странаторговли"@.len() == 14);
    assert("країнаторгівлі"@.len() == 14);
    assert("торгующаястрана"@.len() == 15);
    assert("крвідпр"@.len() == 7);
    assert("країнавідправлення"@.len() == 18);
    assert("странаотправления"@.len() == 17);
    assert("крпох"@.len() == 5);
    assert("країнапоходження"@.len() == 16);
    assert("странапроисхождения"@.len() == 19);
    assert("країнапоходженнятовару"@.len() == 22);
    assert("умовипост"@.len() == 9);
    assert("умовипоставки"@.len() == 13);
    assert("условияпоставки"@.len() == 15);
    assert("місцепост"@.len() == 9);
    assert("місцепоставки"@.len() == 13);
    assert("местопоставки"@.len() == 13);
    assert("кть"@.len() == 3);
    assert("кількість"@.len() == 9);
    assert("количество"@.len() == 10);
    assert("додод"@.len() == 5);
    assert("qty"@.len() == 3);
    assert("одинвим"@.len() == 7);
    assert("одиницявиміру"@.len() == 13);
    assert("единицаизмерения"@.len() == 16);
    assert("бруттокг"@.len() == 8);
    assert("вагабруттокг"@.len() == 12);
    assert("весбруттокг"@.len() == 11);
    assert("вагабрутто"@.len() == 10);
    assert("весбрутто"@.len() == 9);
    assert("брутто"@.len() == 6);
    assert("неттокг"@.len() == 7);
    assert("ваганеттокг"@.len() == 11);
    assert("веснеттокг"@.len() == 10);
    assert("ваганетто"@.len() == 9);
    assert("веснетто"@.len() == 8);
    assert("нетто"@.len() == 5);
    assert("торгмарк"@.len() == 8);
    assert("торговамарка"@.len() == 12);
    assert("торговаямарка"@.len() == 13);
    assert("тм"@.len() == 2);
    assert("trademark"@.len() == 9);
    assert("контракт"@.len() == 8);
    assert("номерконтракта"@.len() == 14);
    assert("номерконтракту"@.len() == 14);
}

/// Every alias of the dictionary names its own column: the generic detector
/// reads a header with that alias as the schema column that bears the
/// dictionary entry's name.
pub proof fn lemma_alias_names_its_column(k: int, j: int)
    requires
        0 <= k < generic_aliases().len(),
        0 <= j < generic_aliases()[k].1.len(),
    ensures
        alias_target(generic_aliases()[k].1[j]) matches Some(c) && column_name(c) == generic_aliases()[k].0,
{
    if k == 0 {
        lemma_aliases_of_entry_0(j);
    } else if k == 1 {
        lemma_aliases_of_entry_1(j);
    } else if k == 2 {
        lemma_aliases_of_entry_2(j);
    } else if k == 3 {
        lemma_aliases_of_entry_3(j);
    } else if k == 4 {
        lemma_aliases_of_entry_4(j);
    } else if k == 5 {
        lemma_aliases_of_entry_5(j);
    } else if k == 6 {
        lemma_aliases_of_entry_6(j);
    } else if k == 7 {
        lemma_aliases_of_entry_7(j);
    } else if k == 8 {
        lemma_aliases_of_entry_8(j);
    } else if k == 9 {
        lemma_aliases_of_entry_9(j);
    } else if k == 10 {
        lemma_aliases_of_entry_10(j);
    } else if k == 11 {
        lemma_aliases_of_entry_11(j);
    } else if k == 12 {
        lemma_aliases_of_entry_12(j);
    } else if k == 13 {
        lemma_aliases_of_entry_13(j);
    } else if k == 14 {
        lemma_aliases_of_entry_14(j);
    } else if k == 15 {
        lemma_aliases_of_entry_15(j);
    } else if k == 16 {
        lemma_aliases_of_entry_16(j);
    } else if k == 17 {
        lemma_aliases_of_entry_17(j);
    } else if k == 18 {
        lemma_aliases_of_entry_18(j);
    } else if k == 19 {
        lemma_aliases_of_entry_19(j);
    } else if k == 20 {
        lemma_aliases_of_entry_20(j);
    } else if k == 21 {
        lemma_aliases_of_entry_21(j);
    }
}


/// Only the dictionary names columns: a header alias the generic detector
/// maps to a schema column is listed in the dictionary under that column's
/// name.
pub proof fn lemma_alias_from_dictionary(a: Seq<char>)
    requires
        alias_target(a) is Some,
    ensures
        exists|k: int, j: int|
            0 <= k < generic_aliases().len() && 0 <= j < generic_aliases()[k].1.len()
                && #[trigger] generic_aliases()[k].1[j] == a && generic_aliases()[k].0 == column_name(
                alias_target(a).unwrap(),
            ),
{
    if a == "часоформлення"@ {
        lemma_alias_names_its_column(0, 0);
        assert(generic_aliases()[0].1[0] == "часоформлення"@);
    } else if a == "времяоформления"@ {
        lemma_alias_names_its_column(0, 1);
        assert(generic_aliases()[0].1[1] == "времяоформления"@);
    } else if a == "назвапмо"@ {
        lemma_alias_names_its_column(1, 0);
        assert(generic_aliases()[1].1[0] == "назвапмо"@);
    } else if a == "митницяоформлення"@ {
        lemma_alias_names_its_column(1, 1);
        assert(generic_aliases()[1].1[1] == "митницяоформлення"@);
    } else if a == "митниця"@ {
        lemma_alias_names_its_column(1, 2);
        assert(generic_aliases()[1].1[2] == "митниця"@);
    } else if a == "таможня"@ {
        lemma_alias_names_its_column(1, 3);
        assert(generic_aliases()[1].1[3] == "таможня"@);
    } else if a == "таможняоформления"@ {
        lemma_alias_names_its_column(1, 4);
        assert(generic_aliases()[1].1[4] == "таможняоформления"@);
    } else if a == "тип"@ {
        lemma_alias_names_its_column(2, 0);
        assert(generic_aliases()[2].1[0] == "тип"@);
    } else if a == "типдекларації"@ {
        lemma_alias_names_its_column(2, 1);
        assert(generic_aliases()[2].1[1] == "типдекларації"@);
    } else if a == "типдекларации"@ {
        lemma_alias_names_its_column(2, 2);
        assert(generic_aliases()[2].1[2] == "типдекларации"@);
    } else if a == "номермд"@ {
        lemma_alias_names_its_column(3, 0);
        assert(generic_aliases()[3].1[0] == "номермд"@);
    } else if a == "номердекларації"@ {
        lemma_alias_names_its_column(3, 1);
        assert(generic_aliases()[3].1[1] == "номердекларації"@);
    } else if a == "номердекларации"@ {
        lemma_alias_names_its_column(3, 2);
        assert(generic_aliases()[3].1[2] == "номердекларации"@);
    } else if a == "номергтд"@ {
        lemma_alias_names_its_column(3, 3);
        assert(generic_aliases()[3].1[3] == "номергтд"@);
    } else if a == "номермитноїдекларації"@ {
        lemma_alias_names_its_column(3, 4);
        assert(generic_aliases()[3].1[4] == "номермитноїдекларації"@);
    } else if a == "номертаможеннойдекларации"@ {
        lemma_alias_names_its_column(3, 5);
        assert(generic_aliases()[3].1[5] == "номертаможеннойдекларации"@);
    } else if a == "дата"@ {
        lemma_alias_names_its_column(4, 0);
        assert(generic_aliases()[4].1[0] == "дата"@);
    } else if a == "датаоформлення"@ {
        lemma_alias_names_its_column(4, 1);
        assert(generic_aliases()[4].1[1] == "датаоформлення"@);
    } else if a == "датаоформления"@ {
        lemma_alias_names_its_column(4, 2);
        assert(generic_aliases()[4].1[2] == "датаоформления"@);
    } else if a == "датамд"@ {
        lemma_alias_names_its_column(4, 3);
        assert(generic_aliases()[4].1[3] == "датамд"@);
    } else if a == "date"@ {
        lemma_alias_names_its_column(4, 4);
        assert(generic_aliases()[4].1[4] == "date"@);
    } else if a == "відправник"@ {
        lemma_alias_names_its_column(5, 0);
        assert(generic_aliases()[5].1[0] == "відправник"@);
    } else if a == "отправитель"@ {
        lemma_alias_names_its_column(5, 1);
        assert(generic_aliases()[5].1[1] == "отправитель"@);
    } else if a == "відпправник"@ {
        lemma_alias_names_its_column(5, 2);
        assert(generic_aliases()[5].1[2] == "відпправник"@);
    } else if a == "назвафірмивідправника"@ {
        lemma_alias_names_its_column(5, 3);
        assert(generic_aliases()[5].1[3] == "назвафірмивідправника"@);
    } else if a == "назвафірмивідправиника"@ {
        lemma_alias_names_its_column(5, 4);
        assert(generic_aliases()[5].1[4] == "назвафірмивідправиника"@);
    } else if a == "sender"@ {
        lemma_alias_names_its_column(5, 5);
        assert(generic_aliases()[5].1[5] == "sender"@);
    } else if a == "експортер"@ {
        lemma_alias_names_its_column(5, 6);
        assert(generic_aliases()[5].1[6] == "експортер"@);
    } else if a == "экспортер"@ {
        lemma_alias_names_its_column(5, 7);
        assert(generic_aliases()[5].1[7] == "экспортер"@);
    } else if a == "exporter"@ {
        lemma_alias_names_its_column(5, 8);
        assert(generic_aliases()[5].1[8] == "exporter"@);
    } else if a == "едрпоу"@ {
        lemma_alias_names_its_column(6, 0);
        assert(generic_aliases()[6].1[0] == "едрпоу"@);
    } else if a == "єдрпоу"@ {
        lemma_alias_names_its_column(6, 1);
        assert(generic_aliases()[6].1[1] == "єдрпоу"@);
    } else if a == "кодєдрпоу"@ {
        lemma_alias_names_its_column(6, 2);
        assert(generic_aliases()[6].1[2] == "кодєдрпоу"@);
    } else if a == "кодедрпоу"@ {
        lemma_alias_names_its_column(6, 3);
        assert(generic_aliases()[6].1[3] == "кодедрпоу"@);
    } else if a == "кодфірмиотримувача"@ {
        lemma_alias_names_its_column(6, 4);
        assert(generic_aliases()[6].1[4] == "кодфірмиотримувача"@);
    } else if a == "кодотримувача"@ {
        lemma_alias_names_its_column(6, 5);
        assert(generic_aliases()[6].1[5] == "кодотримувача"@);
    } else if a == "окпо"@ {
        lemma_alias_names_its_column(6, 6);
        assert(generic_aliases()[6].1[6] == "окпо"@);
    } else if a == "кодпоєдрпоу"@ {
        lemma_alias_names_its_column(6, 7);
        assert(generic_aliases()[6].1[7] == "кодпоєдрпоу"@);
    } else if a == "одержувач"@ {
        lemma_alias_names_its_column(7, 0);
        assert(generic_aliases()[7].1[0] == "одержувач"@);
    } else if a == "отримувач"@ {
        lemma_alias_names_its_column(7, 1);
        assert(generic_aliases()[7].1[1] == "отримувач"@);
    } else if a == "получатель"@ {
        lemma_alias_names_its_column(7, 2);
        assert(generic_aliases()[7].1[2] == "получатель"@);
    } else if a == "назвафірмиотримувача"@ {
        lemma_alias_names_its_column(7, 3);
        assert(generic_aliases()[7].1[3] == "назвафірмиотримувача"@);
    } else if a == "імпортер"@ {
        lemma_alias_names_its_column(7, 4);
        assert(generic_aliases()[7].1[4] == "імпортер"@);
    } else if a == "импортер"@ {
        lemma_alias_names_its_column(7, 5);
        assert(generic_aliases()[7].1[5] == "импортер"@);
    } else if a == "importer"@ {
        lemma_alias_names_its_column(7, 6);
        assert(generic_aliases()[7].1[6] == "importer"@);
    } else if a == "номертовару"@ {
        lemma_alias_names_its_column(8, 0);
        assert(generic_aliases()[8].1[0] == "номертовару"@);
    } else if a == "номертовара"@ {
        lemma_alias_names_its_column(8, 1);
        assert(generic_aliases()[8].1[1] == "номертовара"@);
    } else if a == "нп"@ {
        lemma_alias_names_its_column(8, 2);
        assert(generic_aliases()[8].1[2] == "нп"@);
    } else if a == "пп"@ {
        lemma_alias_names_its_column(8, 3);
        assert(generic_aliases()[8].1[3] == "пп"@);
    } else if a == "кодтовару"@ {
        lemma_alias_names_its_column(9, 0);
        assert(generic_aliases()[9].1[0] == "кодтовару"@);
    } else if a == "кодтовара"@ {
        lemma_alias_names_its_column(9, 1);
        assert(generic_aliases()[9].1[1] == "кодтовара"@);
    } else if a == "кодтнвэд"@ {
        lemma_alias_names_its_column(9, 2);
        assert(generic_aliases()[9].1[2] == "кодтнвэд"@);
    } else if a == "кодтнвед"@ {
        lemma_alias_names_its_column(9, 3);
        assert(generic_aliases()[9].1[3] == "кодтнвед"@);
    } else if a == "кодтнзед"@ {
        lemma_alias_names_its_column(9, 4);
        assert(generic_aliases()[9].1[4] == "кодтнзед"@);
    } else if a == "кодуктзед"@ {
        lemma_alias_names_its_column(9, 5);
        assert(generic_aliases()[9].1[5] == "кодуктзед"@);
    } else if a == "hscode"@ {
        lemma_alias_names_its_column(9, 6);
        assert(generic_aliases()[9].1[6] == "hscode"@);
    } else if a == "код"@ {
        lemma_alias_names_its_column(9, 7);
        assert(generic_aliases()[9].1[7] == "код"@);
    } else if a == "опистовару"@ {
        lemma_alias_names_its_column(10, 0);
        assert(generic_aliases()[10].1[0] == "опистовару"@);
    } else if a == "описаниетовара"@ {
        lemma_alias_names_its_column(10, 1);
        assert(generic_aliases()[10].1[1] == "описаниетовара"@);
    } else if a == "найменуваннятовару"@ {
        lemma_alias_names_its_column(10, 2);
        assert(generic_aliases()[10].1[2] == "найменуваннятовару"@);
    } else if a == "назватовару"@ {
        lemma_alias_names_its_column(10, 3);
        assert(generic_aliases()[10].1[3] == "назватовару"@);
    } else if a == "наименованиетовара"@ {
        lemma_alias_names_its_column(10, 4);
        assert(generic_aliases()[10].1[4] == "наименованиетовара"@);
    } else if a == "описание"@ {
        lemma_alias_names_its_column(10, 5);
        assert(generic_aliases()[10].1[5] == "описание"@);
    } else if a == "опис"@ {
        lemma_alias_names_its_column(10, 6);
        assert(generic_aliases()[10].1[6] == "опис"@);
    } else if a == "опистовара"@ {
        lemma_alias_names_its_column(10, 7);
        assert(generic_aliases()[10].1[7] == "опистовара"@);
    } else if a == "description"@ {
        lemma_alias_names_its_column(10, 8);
        assert(generic_aliases()[10].1[8] == "description"@);
    } else if a == "товар"@ {
        lemma_alias_names_its_column(10, 9);
        assert(generic_aliases()[10].1[9] == "товар"@);
    } else if a == "найменування"@ {
        lemma_alias_names_its_column(10, 10);
        assert(generic_aliases()[10].1[10] == "найменування"@);
    } else if a == "наименование"@ {
        lemma_alias_names_its_column(10, 11);
        assert(generic_aliases()[10].1[11] == "наименование"@);
    } else if a == "крторг"@ {
        lemma_alias_names_its_column(11, 0);
        assert(generic_aliases()[11].1[0] == "крторг"@);
    } else if a == "торгуючакраїна"@ {
        lemma_alias_names_its_column(11, 1);
        assert(generic_aliases()[11].1[1] == "торгуючакраїна"@);
    } else if a == "странаторговли"@ {
        lemma_alias_names_its_column(11, 2);
        assert(generic_aliases()[11].1[2] == "странаторговли"@);
    } else if a == "країнаторгівлі"@ {
        lemma_alias_names_its_column(11, 3);
        assert(generic_aliases()[11].1[3] == "країнаторгівлі"@);
    } else if a == "торгующаястрана"@ {
        lemma_alias_names_its_column(11, 4);
        assert(generic_aliases()[11].1[4] == "торгующаястрана"@);
    } else if a == "крвідпр"@ {
        lemma_alias_names_its_column(12, 0);
        assert(generic_aliases()[12].1[0] == "крвідпр"@);
    } else if a == "країнавідправлення"@ {
        lemma_alias_names_its_column(12, 1);
        assert(generic_aliases()[12].1[1] == "країнавідправлення"@);
    } else if a == "странаотправления"@ {
        lemma_alias_names_its_column(12, 2);
        assert(generic_aliases()[12].1[2] == "странаотправления"@);
    } else if a == "крпох"@ {
        lemma_alias_names_its_column(13, 0);
        assert(generic_aliases()[13].1[0] == "крпох"@);
    } else if a == "країнапоходження"@ {
        lemma_alias_names_its_column(13, 1);
        assert(generic_aliases()[13].1[1] == "країнапоходження"@);
    } else if a == "странапроисхождения"@ {
        lemma_alias_names_its_column(13, 2);
        assert(generic_aliases()[13].1[2] == "странапроисхождения"@);
    } else if a == "країнапоходженнятовару"@ {
        lemma_alias_names_its_column(13, 3);
        assert(generic_aliases()[13].1[3] == "країнапоходженнятовару"@);
    } else if a == "умовипост"@ {
        lemma_alias_names_its_column(14, 0);
        assert(generic_aliases()[14].1[0] == "умовипост"@);
    } else if a == "умовипоставки"@ {
        lemma_alias_names_its_column(14, 1);
        assert(generic_aliases()[14].1[1] == "умовипоставки"@);
    } else if a == "условияпоставки"@ {
        lemma_alias_names_its_column(14, 2);
        assert(generic_aliases()[14].1[2] == "условияпоставки"@);
    } else if a == "місцепост"@ {
        lemma_alias_names_its_column(15, 0);
        assert(generic_aliases()[15].1[0] == "місцепост"@);
    } else if a == "місцепоставки"@ {
        lemma_alias_names_its_column(15, 1);
        assert(generic_aliases()[15].1[1] == "місцепоставки"@);
    } else if a == "местопоставки"@ {
        lemma_alias_names_its_column(15, 2);
        assert(generic_aliases()[15].1[2] == "местопоставки"@);
    } else if a == "кть"@ {
        lemma_alias_names_its_column(16, 0);
        assert(generic_aliases()[16].1[0] == "кть"@);
    } else if a == "кількість"@ {
        lemma_alias_names_its_column(16, 1);
        assert(generic_aliases()[16].1[1] == "кількість"@);
    } else if a == "количество"@ {
        lemma_alias_names_its_column(16, 2);
        assert(generic_aliases()[16].1[2] == "количество"@);
    } else if a == "додод"@ {
        lemma_alias_names_its_column(16, 3);
        assert(generic_aliases()[16].1[3] == "додод"@);
    } else if a == "qty"@ {
        lemma_alias_names_its_column(16, 4);
        assert(generic_aliases()[16].1[4] == "qty"@);
    } else if a == "одинвим"@ {
        lemma_alias_names_its_column(17, 0);
        assert(generic_aliases()[17].1[0] == "одинвим"@);
    } else if a == "одиницявиміру"@ {
        lemma_alias_names_its_column(17, 1);
        assert(generic_aliases()[17].1[1] == "одиницявиміру"@);
    } else if a == "единицаизмерения"@ {
        lemma_alias_names_its_column(17, 2);
        assert(generic_aliases()[17].1[2] == "единицаизмерения"@);
    } else if a == "бруттокг"@ {
        lemma_alias_names_its_column(18, 0);
        assert(generic_aliases()[18].1[0] == "бруттокг"@);
    } else if a == "вагабруттокг"@ {
        lemma_alias_names_its_column(18, 1);
        assert(generic_aliases()[18].1[1] == "вагабруттокг"@);
    } else if a == "весбруттокг"@ {
        lemma_alias_names_its_column(18, 2);
        assert(generic_aliases()[18].1[2] == "весбруттокг"@);
    } else if a == "вагабрутто"@ {
        lemma_alias_names_its_column(18, 3);
        assert(generic_aliases()[18].1[3] == "вагабрутто"@);
    } else if a == "весбрутто"@ {
        lemma_alias_names_its_column(18, 4);
        assert(generic_aliases()[18].1[4] == "весбрутто"@);
    } else if a == "брутто"@ {
        lemma_alias_names_its_column(18, 5);
        assert(generic_aliases()[18].1[5] == "брутто"@);
    } else if a == "неттокг"@ {
        lemma_alias_names_its_column(19, 0);
        assert(generic_aliases()[19].1[0] == "неттокг"@);
    } else if a == "ваганеттокг"@ {
        lemma_alias_names_its_column(19, 1);
        assert(generic_aliases()[19].1[1] == "ваганеттокг"@);
    } else if a == "веснеттокг"@ {
        lemma_alias_names_its_column(19, 2);
        assert(generic_aliases()[19].1[2] == "веснеттокг"@);
    } else if a == "ваганетто"@ {
        lemma_alias_names_its_column(19, 3);
        assert(generic_aliases()[19].1[3] == "ваганетто"@);
    } else if a == "веснетто"@ {
        lemma_alias_names_its_column(19, 4);
        assert(generic_aliases()[19].1[4] == "веснетто"@);
    } else if a == "нетто"@ {
        lemma_alias_names_its_column(19, 5);
        assert(generic_aliases()[19].1[5] == "нетто"@);
    } else if a == "торгмарк"@ {
        lemma_alias_names_its_column(20, 0);
        assert(generic_aliases()[20].1[0] == "торгмарк"@);
    } else if a == "торговамарка"@ {
        lemma_alias_names_its_column(20, 1);
        assert(generic_aliases()[20].1[1] == "торговамарка"@);
    } else if a == "торговаямарка"@ {
        lemma_alias_names_its_column(20, 2);
        assert(generic_aliases()[20].1[2] == "торговаямарка"@);
    } else if a == "тм"@ {
        lemma_alias_names_its_column(20, 3);
        assert(generic_aliases()[20].1[3] == "тм"@);
    } else if a == "trademark"@ {
        lemma_alias_names_its_column(20, 4);
        assert(generic_aliases()[20].1[4] == "trademark"@);
    } else if a == "контракт"@ {
        lemma_alias_names_its_column(21, 0);
        assert(generic_aliases()[21].1[0] == "контракт"@);
    } else if a == "номерконтракта"@ {
        lemma_alias_names_its_column(21, 1);
        assert(generic_aliases()[21].1[1] == "номерконтракта"@);
    } else if a == "номерконтракту"@ {
        lemma_alias_names_its_column(21, 2);
        assert(generic_aliases()[21].1[2] == "номерконтракту"@);
    }
}

} // verus!
