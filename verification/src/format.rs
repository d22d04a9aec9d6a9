//! Short renderings of values for captions and menus.

use vstd::prelude::*;
use vstd::utf8::{encode_utf8, decode_utf8, valid_utf8, is_char_boundary};
use crate::text::{chars_of, string_of};

verus! {

/// A month text `yyyy-mm` cut at UTF-8 byte offsets 4, 5 and 7 gives the
/// year and the month (each cut on a character boundary, seven bytes at
/// least).
pub open spec fn month_cuts_ok(b: Seq<u8>) -> bool {
    &&& b.len() >= 7
    &&& is_char_boundary(b, 4)
    &&& is_char_boundary(b, 5)
    &&& is_char_boundary(b, 7)
}

/// `2024-03` becomes `03'24`: bytes 5..7, an apostrophe, then bytes 2..4;
/// text that does not cut that way is kept.
pub open spec fn short_month_spec(s: Seq<char>) -> Seq<char> {
    let b = encode_utf8(s);
    if month_cuts_ok(b) {
        decode_utf8(b.subrange(5, 7)) + seq!['\''] + decode_utf8(b.subrange(2, 4))
    } else {
        s
    }
}

proof fn lemma_boundary_in_prefix(b: Seq<u8>, n: int, i: int)
    requires
        valid_utf8(b),
        0 < i < n <= b.len(),
        is_char_boundary(b, n),
        is_char_boundary(b, i),
    ensures
        valid_utf8(b.subrange(0, n)),
        is_char_boundary(b.subrange(0, n), i),
{
    vstd::utf8::valid_utf8_split(b, n);
    vstd::utf8::is_char_boundary_iff_not_is_continuation_byte(b, i);
    vstd::utf8::is_char_boundary_iff_not_is_continuation_byte(b.subrange(0, n), i);
}

proof fn lemma_boundary_in_suffix(b: Seq<u8>, n: int, i: int)
    requires
        valid_utf8(b),
        0 < n < i < b.len(),
        is_char_boundary(b, n),
        is_char_boundary(b, i),
    ensures
        valid_utf8(b.subrange(n, b.len() as int)),
        is_char_boundary(b.subrange(n, b.len() as int), i - n),
{
    vstd::utf8::valid_utf8_split(b, n);
    vstd::utf8::is_char_boundary_iff_not_is_continuation_byte(b, i);
    vstd::utf8::is_char_boundary_iff_not_is_continuation_byte(b.subrange(n, b.len() as int), i - n);
}

/// Compacts an ISO month for chart captions: `2024-03` becomes `03'24`.
pub fn short_month(month: &str) -> (r: String)
    requires
        month_cuts_ok(encode_utf8(month@)) ==> is_char_boundary(encode_utf8(month@), 2),
    ensures
        r@ == short_month_spec(month@),
{
    let ghost b = encode_utf8(month@);
    proof {
        vstd::utf8::encode_utf8_valid_utf8(month@);
    }
    let n = month.as_bytes().len();
    if n >= 7 && month.is_char_boundary(4) && month.is_char_boundary(5) && month.is_char_boundary(7) {
        let (head, _) = month.split_at(7);
        assert(encode_utf8(head@) =~= b.subrange(0, 7));
        proof {
            lemma_boundary_in_prefix(b, 7, 4);
        }
        let (year, rest) = head.split_at(4);
        assert(encode_utf8(year@) =~= b.subrange(0, 4));
        assert(encode_utf8(rest@) =~= b.subrange(4, 7));
        proof {
            lemma_boundary_in_prefix(b, 7, 5);
            lemma_boundary_in_suffix(b.subrange(0, 7), 4, 5);
            assert(b.subrange(0, 7).subrange(4, 7) =~= b.subrange(4, 7));
        }
        let (_, m) = rest.split_at(1);
        assert(encode_utf8(m@) =~= b.subrange(5, 7));
        proof {
            lemma_boundary_in_prefix(b, 4, 2);
            vstd::utf8::is_char_boundary_start_end_of_seq(b);
        }
        let (_, y2) = year.split_at(2);
        assert(encode_utf8(y2@) =~= b.subrange(2, 4));
        proof {
            vstd::utf8::encode_utf8_decode_utf8(m@);
            vstd::utf8::encode_utf8_decode_utf8(y2@);
        }
        let mut out = String::from_str(m);
        out.append("'");
        out.append(y2);
        proof {
            reveal_strlit("'");
        }
        assert(out@ =~= short_month_spec(month@));
        out
    } else {
        assert(!month_cuts_ok(b));
        string_of(chars_of(month).as_slice())
    }
}

/// The first `max` characters of `s`, followed by `…` when `s` is longer.
pub open spec fn trunc_spec(s: Seq<char>, max: nat) -> Seq<char> {
    if s.len() > max {
        s.take(max as int).push('\u{2026}')
    } else {
        s
    }
}

/// Cuts `s` to `max` characters, marking the cut with `…`.
pub fn trunc_label(s: &str, max: usize) -> (r: String)
    ensures
        r@ == trunc_spec(s@, max as nat),
{
    let cs = chars_of(s);
    let mut out: Vec<char> = Vec::new();
    let mut i: usize = 0;
    while i < cs.len() && i < max
        invariant
            i <= cs@.len(),
            i <= max,
            out@ == cs@.take(i as int),
        decreases cs.len() - i,
    {
        out.push(cs[i]);
        i += 1;
        assert(out@ =~= cs@.take(i as int));
    }
    if cs.len() > max {
        out.push('\u{2026}');
    } else {
        assert(cs@.take(i as int) =~= cs@);
    }
    string_of(out.as_slice())
}

/// The HTML escape of one character.
pub open spec fn html_char(c: char) -> Seq<char> {
    if c == '&' {
        "&amp;"@
    } else if c == '<' {
        "&lt;"@
    } else if c == '>' {
        "&gt;"@
    } else if c == '"' {
        "&quot;"@
    } else {
        seq![c]
    }
}

/// `s` with `&`, `<`, `>` and `"` written as HTML entities.
pub open spec fn html_escaped(s: Seq<char>) -> Seq<char>
    decreases s.len(),
{
    if s.len() == 0 {
        Seq::empty()
    } else {
        html_escaped(s.drop_last()) + html_char(s.last())
    }
}

/// Escapes text for HTML.
pub fn esc_html(value: &str) -> (r: String)
    ensures
        r@ == html_escaped(value@),
{
    let cs = chars_of(value);
    let mut out = String::new();
    let mut i: usize = 0;
    while i < cs.len()
        invariant
            i <= cs@.len(),
            out@ == html_escaped(cs@.take(i as int)),
        decreases cs.len() - i,
    {
        assert(cs@.take(i + 1).drop_last() =~= cs@.take(i as int));
        let c = cs[i];
        if c == '&' {
            out.append("&amp;");
        } else if c == '<' {
            out.append("&lt;");
        } else if c == '>' {
            out.append("&gt;");
        } else if c == '"' {
            out.append("&quot;");
        } else {
            let one = string_of(&[c]);
            assert(one@ =~= seq![c]);
            out.append(one.as_str());
        }
        i += 1;
    }
    assert(cs@.take(i as int) =~= cs@);
    out
}

} // verus!
