//! Argument parsing and plain-text helpers of the command-line tool.

use vstd::prelude::*;
use crate::text::{has_prefix, join, views, str_eq, str_starts_with, join_strings, chars_of, string_of};
use crate::number::{parse_unsigned, parse_unsigned_str, dec, u64_to_string};
use crate::db_types::{Query, QueryModel, Filters, AnalyticsSectionKind, PriceMetricKind};
use crate::export::ExportError;
use crate::search::FieldInfo;
use crate::text::{blank, is_blank};

verus! {

// ---------- compact ----------

/// `compact` takes nothing or `--vacuum` alone.
pub open spec fn compact_options(args: Seq<Seq<char>>) -> Option<bool> {
    if args.len() == 0 {
        Some(false)
    } else if args.len() == 1 && args[0] == "--vacuum"@ {
        Some(true)
    } else {
        None
    }
}

/// Whether `compact` should also vacuum the database.
pub fn parse_compact_options(args: &[String]) -> (r: Result<bool, String>)
    ensures
        match compact_options(views(args@)) {
            Some(v) => r == Ok::<bool, String>(v),
            None => r matches Err(e) && e@ == "Usage: base-search-cli compact <db> [--vacuum]"@,
        },
{
    if args.len() == 0 {
        return Ok(false);
    }
    if args.len() == 1 && str_eq(args[0].as_str(), "--vacuum") {
        return Ok(true);
    }
    Err(String::from_str("Usage: base-search-cli compact <db> [--vacuum]"))
}

// ---------- search and export queries ----------

/// Where a filter flag stores its value among the filters (in the order of
/// `Filters`' view).
pub open spec fn filter_slot(flag: Seq<char>) -> Option<int> {
    if flag == "--year"@ {
        Some(0)
    } else if flag == "--code"@ {
        Some(1)
    } else if flag == "--trademark"@ {
        Some(2)
    } else if flag == "--description"@ {
        Some(3)
    } else if flag == "--sender"@ {
        Some(4)
    } else if flag == "--recipient"@ {
        Some(5)
    } else if flag == "--edrpou"@ {
        Some(6)
    } else {
        None
    }
}

/// The value after a flag: the next argument, unless it is missing or is
/// itself a flag.
pub open spec fn flag_value(args: Seq<Seq<char>>, j: int, flag: Seq<char>) -> Result<
    Seq<char>,
    Seq<char>,
> {
    if 0 <= j < args.len() && !has_prefix(args[j], "--"@) {
        Ok(args[j])
    } else {
        Err(flag + " requires a value"@)
    }
}

/// Query arguments read so far.
pub struct QueryArgs {
    pub filters: Seq<Seq<char>>,
    pub words: Seq<Seq<char>>,
    pub limit: nat,
}

/// Reads query arguments from position `i` on: filter flags with their
/// values, `--limit N` (N a positive `u64`) where allowed, and words;
/// anything else starting with `--` is refused.
pub open spec fn read_query_args(
    args: Seq<Seq<char>>,
    i: int,
    st: QueryArgs,
    allow_limit: bool,
) -> Result<QueryArgs, Seq<char>>
    decreases args.len() - i,
{
    if i < 0 || i >= args.len() {
        Ok(st)
    } else {
        let a = args[i];
        if a == "--limit"@ {
            if allow_limit {
                match flag_value(args, i + 1, "--limit"@) {
                    Err(e) => Err(e),
                    Ok(v) => match parse_unsigned(v, 0xffff_ffff_ffff_ffff) {
                        Some(n) => if n == 0 {
                            Err("--limit must be a positive integer"@)
                        } else {
                            read_query_args(
                                args,
                                i + 2,
                                QueryArgs { limit: n, ..st },
                                allow_limit,
                            )
                        },
                        None => Err("--limit must be a positive integer"@),
                    },
                }
            } else {
                Err("--limit is not supported by export"@)
            }
        } else if filter_slot(a) is Some {
            match flag_value(args, i + 1, a) {
                Err(e) => Err(e),
                Ok(v) => read_query_args(
                    args,
                    i + 2,
                    QueryArgs { filters: st.filters.update(filter_slot(a).unwrap(), v), ..st },
                    allow_limit,
                ),
            }
        } else if has_prefix(a, "--"@) {
            Err("Unknown query option: "@ + a)
        } else {
            read_query_args(args, i + 1, QueryArgs { words: st.words.push(a), ..st }, allow_limit)
        }
    }
}

/// Nothing read yet: no filter, no word, the default limit of ten.
pub open spec fn initial_query_args() -> QueryArgs {
    QueryArgs { filters: Seq::new(10, |k: int| Seq::<char>::empty()), words: Seq::empty(), limit: 10 }
}

/// The query and result limit the arguments give: the words joined by
/// spaces as the text, and the filters read.
pub open spec fn query_from_args(args: Seq<Seq<char>>, allow_limit: bool) -> Result<
    (QueryModel, nat),
    Seq<char>,
> {
    match read_query_args(args, 0, initial_query_args(), allow_limit) {
        Ok(st) => Ok(
            (QueryModel { text: join(st.words, " "@), filters: st.filters, advanced: None }, st.limit),
        ),
        Err(e) => Err(e),
    }
}

/// `v` where `flag` is the flag `name`, nothing otherwise.
pub open spec fn set_by(flag: Seq<char>, name: Seq<char>, v: Seq<char>) -> Seq<char> {
    if flag == name {
        v
    } else {
        Seq::empty()
    }
}

/// `flag` is one of the filter flags of a query.
pub open spec fn is_filter_flag(flag: Seq<char>) -> bool {
    ||| flag == "--year"@
    ||| flag == "--code"@
    ||| flag == "--trademark"@
    ||| flag == "--description"@
    ||| flag == "--sender"@
    ||| flag == "--recipient"@
    ||| flag == "--edrpou"@
}

proof fn lemma_query_flag_literals()
    ensures
        "--year"@ != "--code"@,
        "--year"@.len() == 6 && "--code"@.len() == 6 && "--trademark"@.len() == 11,
        "--description"@.len() == 13 && "--sender"@.len() == 8 && "--recipient"@.len() == 11,
        "--edrpou"@.len() == 8 && "--limit"@.len() == 7,
        "--trademark"@ != "--recipient"@,
        "--sender"@ != "--edrpou"@,
        has_prefix("--year"@, "--"@) && has_prefix("--code"@, "--"@),
{
    reveal_strlit("--year");
    reveal_strlit("--code");
    reveal_strlit("--trademark");
    reveal_strlit("--description");
    reveal_strlit("--sender");
    reveal_strlit("--recipient");
    reveal_strlit("--edrpou");
    reveal_strlit("--limit");
    reveal_strlit("--");
    assert("--year"@[2] == 'y' && "--code"@[2] == 'c');
    assert("--trademark"@[2] == 't' && "--recipient"@[2] == 'r');
    assert("--sender"@[2] == 's' && "--edrpou"@[2] == 'e');
    assert("--year"@.len() == 6 && "--code"@.len() == 6 && "--trademark"@.len() == 11);
    assert("--description"@.len() == 13 && "--sender"@.len() == 8 && "--recipient"@.len() == 11);
    assert("--edrpou"@.len() == 8 && "--limit"@.len() == 7 && "--"@.len() == 2);
    assert("--year"@.subrange(0, 2) =~= "--"@);
    assert("--code"@.subrange(0, 2) =~= "--"@);
}

/// A filter flag followed by a value stores the value in the filter that
/// bears the flag's name (`--code` names the product code), and in no other:
/// `--recipient Buyer` sets the recipient and leaves the sender empty.
pub proof fn lemma_filter_flag_sets_its_field(flag: Seq<char>, v: Seq<char>, fl: Filters)
    requires
        is_filter_flag(flag),
        !has_prefix(v, "--"@),
        query_from_args(seq![flag, v], true) matches Ok((q, _)) && q.filters == fl@,
    ensures
        fl.year@ == set_by(flag, "--year"@, v),
        fl.product_code@ == set_by(flag, "--code"@, v),
        fl.trademark@ == set_by(flag, "--trademark"@, v),
        fl.description@ == set_by(flag, "--description"@, v),
        fl.sender@ == set_by(flag, "--sender"@, v),
        fl.recipient@ == set_by(flag, "--recipient"@, v),
        fl.edrpou@ == set_by(flag, "--edrpou"@, v),
        fl.trade_country@.len() == 0,
        fl.dispatch_country@.len() == 0,
        fl.origin_country@.len() == 0,
{
    lemma_query_flag_literals();
    let args = seq![flag, v];
    let st0 = initial_query_args();
    assert(args[0] == flag && args[1] == v);
    assert(flag != "--limit"@);
    let slot = filter_slot(flag).unwrap();
    assert(flag_value(args, 1, flag) == Ok::<Seq<char>, Seq<char>>(v));
    let st1 = QueryArgs { filters: st0.filters.update(slot, v), ..st0 };
    assert(read_query_args(args, 2, st1, true) == Ok::<QueryArgs, Seq<char>>(st1));
    assert(read_query_args(args, 0, st0, true) == Ok::<QueryArgs, Seq<char>>(st1));
    assert(fl@ == st1.filters);
    assert(fl@[0] == fl.year@ && fl@[1] == fl.product_code@ && fl@[2] == fl.trademark@);
    assert(fl@[3] == fl.description@ && fl@[4] == fl.sender@ && fl@[5] == fl.recipient@);
    assert(fl@[6] == fl.edrpou@ && fl@[7] == fl.trade_country@ && fl@[8] == fl.dispatch_country@);
    assert(fl@[9] == fl.origin_country@);
}

fn set_filter(filters: &mut Filters, slot: usize, value: String)
    requires
        slot < 10,
    ensures
        final(filters)@ == old(filters)@.update(slot as int, value@),
{
    match slot {
        0 => filters.year = value,
        1 => filters.product_code = value,
        2 => filters.trademark = value,
        3 => filters.description = value,
        4 => filters.sender = value,
        5 => filters.recipient = value,
        6 => filters.edrpou = value,
        7 => filters.trade_country = value,
        8 => filters.dispatch_country = value,
        _ => filters.origin_country = value,
    }
    assert(final(filters)@ =~= old(filters)@.update(slot as int, value@));
}

fn slot_of(flag: &str) -> (r: Option<usize>)
    ensures
        match r {
            Some(k) => filter_slot(flag@) == Some(k as int) && k < 10,
            None => filter_slot(flag@) is None,
        },
{
    if str_eq(flag, "--year") {
        Some(0)
    } else if str_eq(flag, "--code") {
        Some(1)
    } else if str_eq(flag, "--trademark") {
        Some(2)
    } else if str_eq(flag, "--description") {
        Some(3)
    } else if str_eq(flag, "--sender") {
        Some(4)
    } else if str_eq(flag, "--recipient") {
        Some(5)
    } else if str_eq(flag, "--edrpou") {
        Some(6)
    } else {
        None
    }
}

fn take_value(args: &[String], j: usize, flag: &str) -> (r: Result<String, String>)
    ensures
        match flag_value(views(args@), j as int, flag@) {
            Ok(v) => r matches Ok(s) && s@ == v,
            Err(e) => r matches Err(s) && s@ == e,
        },
{
    if j < args.len() && !str_starts_with(args[j].as_str(), "--") {
        Ok(args[j].clone())
    } else {
        let mut e = String::from_str(flag);
        e.append(" requires a value");
        Err(e)
    }
}

/// Reads a search or export query from command-line arguments.
pub fn parse_query_with_options(args: &[String], allow_limit: bool) -> (r: Result<(Query, u64), String>)
    ensures
        match query_from_args(views(args@), allow_limit) {
            Ok((q, limit)) => r matches Ok((query, n)) && query@ == q && n as nat == limit,
            Err(e) => r matches Err(s) && s@ == e,
        },
{
    let ghost a = views(args@);
    let mut limit: u64 = 10;
    let mut filters = Filters::default();
    let mut words: Vec<String> = Vec::new();
    let mut i: usize = 0;
    assert(filters@ =~= initial_query_args().filters);
    assert(views(words@) =~= Seq::<Seq<char>>::empty());
    while i < args.len()
        invariant
            i <= args@.len() + 1,
            a == views(args@),
            read_query_args(a, 0, initial_query_args(), allow_limit) == read_query_args(
                a,
                i as int,
                QueryArgs { filters: filters@, words: views(words@), limit: limit as nat },
                allow_limit,
            ),
        decreases args.len() + 1 - i,
    {
        let ghost st = QueryArgs { filters: filters@, words: views(words@), limit: limit as nat };
        let arg = args[i].as_str();
        assert(a[i as int] == arg@);
        if str_eq(arg, "--limit") {
            if !allow_limit {
                return Err(String::from_str("--limit is not supported by export"));
            }
            let value = match take_value(args, i + 1, "--limit") {
                Ok(v) => v,
                Err(e) => {
                    return Err(e);
                },
            };
            match parse_unsigned_str(value.as_str(), 0xffff_ffff_ffff_ffffu64) {
                Some(n) => {
                    if n == 0 {
                        return Err(String::from_str("--limit must be a positive integer"));
                    }
                    limit = n;
                },
                None => {
                    return Err(String::from_str("--limit must be a positive integer"));
                },
            }
            i += 2;
        } else {
            match slot_of(arg) {
                Some(slot) => {
                    let value = match take_value(args, i + 1, arg) {
                        Ok(v) => v,
                        Err(e) => {
                            return Err(e);
                        },
                    };
                    set_filter(&mut filters, slot, value);
                    i += 2;
                },
                None => {
                    if str_starts_with(arg, "--") {
                        let mut e = String::from_str("Unknown query option: ");
                        e.append(arg);
                        return Err(e);
                    }
                    let ghost before = views(words@);
                    words.push(args[i].clone());
                    assert(views(words@) =~= before.push(arg@));
                    i += 1;
                },
            }
        }
    }
    let text = join_strings(&words, " ");
    let q = Query { text, filters, advanced: None };
    Ok((q, limit))
}

/// A search query and its result limit.
pub fn parse_query(args: &[String]) -> (r: Result<(Query, u64), String>)
    ensures
        match query_from_args(views(args@), true) {
            Ok((q, limit)) => r matches Ok((query, n)) && query@ == q && n as nat == limit,
            Err(e) => r matches Err(s) && s@ == e,
        },
{
    parse_query_with_options(args, true)
}

/// An export query; a result limit is refused.
pub fn parse_export_query(args: &[String]) -> (r: Result<Query, String>)
    ensures
        match query_from_args(views(args@), false) {
            Ok((q, _)) => r matches Ok(query) && query@ == q,
            Err(e) => r matches Err(s) && s@ == e,
        },
{
    match parse_query_with_options(args, false) {
        Ok((query, _)) => Ok(query),
        Err(e) => Err(e),
    }
}

// ---------- search options ----------

/// How the `search` command runs and reports.
#[derive(Debug, Clone)]
pub struct SearchOptions {
    pub repeat: usize,
    pub warmups: usize,
    pub print_rows: bool,
    pub json: bool,
}

impl Default for SearchOptions {
    /// One run, no warm-up, rows printed as text.
    fn default() -> (r: Self)
        ensures
            r.repeat == 1,
            r.warmups == 0,
            r.print_rows,
            !r.json,
    {
        SearchOptions { repeat: 1, warmups: 0, print_rows: true, json: false }
    }
}

/// A count argument: a `usize`, or the message for a missing or unreadable
/// value.
pub open spec fn usize_arg(value: Option<Seq<char>>, flag: Seq<char>) -> Result<nat, Seq<char>> {
    match value {
        None => Err(flag + " requires a value"@),
        Some(v) => match parse_unsigned(v, usize::MAX as nat) {
            Some(n) => Ok(n),
            None => Err(flag + " must be a non-negative integer"@),
        },
    }
}

/// A count argument that must be at least one.
pub open spec fn positive_usize_arg(value: Option<Seq<char>>, flag: Seq<char>) -> Result<
    nat,
    Seq<char>,
> {
    match usize_arg(value, flag) {
        Ok(n) => if n == 0 {
            Err(flag + " must be at least 1"@)
        } else {
            Ok(n)
        },
        Err(e) => Err(e),
    }
}

pub open spec fn opt_view(value: Option<&String>) -> Option<Seq<char>> {
    match value {
        Some(v) => Some(v@),
        None => None,
    }
}

/// Reads a count argument.
pub fn parse_usize(value: Option<&String>, flag: &str) -> (r: Result<usize, String>)
    ensures
        match usize_arg(opt_view(value), flag@) {
            Ok(n) => r matches Ok(v) && v as nat == n,
            Err(e) => r matches Err(s) && s@ == e,
        },
{
    match value {
        None => {
            let mut e = String::from_str(flag);
            e.append(" requires a value");
            Err(e)
        },
        Some(v) => match parse_unsigned_str(v.as_str(), usize::MAX as u64) {
            Some(n) => Ok(n as usize),
            None => {
                let mut e = String::from_str(flag);
                e.append(" must be a non-negative integer");
                Err(e)
            },
        },
    }
}

/// Reads a count argument that must be at least one.
pub fn parse_positive_usize(value: Option<&String>, flag: &str) -> (r: Result<usize, String>)
    ensures
        match positive_usize_arg(opt_view(value), flag@) {
            Ok(n) => r matches Ok(v) && v as nat == n,
            Err(e) => r matches Err(s) && s@ == e,
        },
{
    let parsed = match parse_usize(value, flag) {
        Ok(n) => n,
        Err(e) => {
            return Err(e);
        },
    };
    if parsed == 0 {
        let mut e = String::from_str(flag);
        e.append(" must be at least 1");
        return Err(e);
    }
    Ok(parsed)
}

/// Search options read so far and the arguments left for the query.
pub struct SearchArgs {
    pub query_args: Seq<Seq<char>>,
    pub repeat: nat,
    pub warmups: nat,
    pub print_rows: bool,
    pub json: bool,
}

/// Reads the `search` options from position `i` on; every other argument
/// is kept for the query.
pub open spec fn read_search_args(args: Seq<Seq<char>>, i: int, st: SearchArgs) -> Result<
    SearchArgs,
    Seq<char>,
>
    decreases args.len() - i,
{
    if i < 0 || i >= args.len() {
        Ok(st)
    } else {
        let a = args[i];
        let next = if i + 1 < args.len() {
            Some(args[i + 1])
        } else {
            None
        };
        if a == "--repeat"@ {
            match positive_usize_arg(next, "--repeat"@) {
                Ok(n) => read_search_args(args, i + 2, SearchArgs { repeat: n, ..st }),
                Err(e) => Err(e),
            }
        } else if a == "--warmups"@ {
            match usize_arg(next, "--warmups"@) {
                Ok(n) => read_search_args(args, i + 2, SearchArgs { warmups: n, ..st }),
                Err(e) => Err(e),
            }
        } else if a == "--no-print-rows"@ {
            read_search_args(args, i + 1, SearchArgs { print_rows: false, ..st })
        } else if a == "--json"@ {
            read_search_args(args, i + 1, SearchArgs { json: true, print_rows: false, ..st })
        } else {
            read_search_args(args, i + 1, SearchArgs { query_args: st.query_args.push(a), ..st })
        }
    }
}

pub open spec fn initial_search_args() -> SearchArgs {
    SearchArgs { query_args: Seq::empty(), repeat: 1, warmups: 0, print_rows: true, json: false }
}

/// Splits `search` arguments into query arguments and run options.
pub fn parse_search_args(args: &[String]) -> (r: Result<(Vec<String>, SearchOptions), String>)
    ensures
        match read_search_args(views(args@), 0, initial_search_args()) {
            Ok(st) => r matches Ok((q, o)) && views(q@) == st.query_args && o.repeat as nat
                == st.repeat && o.warmups as nat == st.warmups && o.print_rows == st.print_rows
                && o.json == st.json,
            Err(e) => r matches Err(s) && s@ == e,
        },
{
    let ghost a = views(args@);
    let mut query_args: Vec<String> = Vec::new();
    let mut options = SearchOptions::default();
    let mut i: usize = 0;
    assert(views(query_args@) =~= Seq::<Seq<char>>::empty());
    while i < args.len()
        invariant
            i <= args@.len() + 1,
            a == views(args@),
            read_search_args(a, 0, initial_search_args()) == read_search_args(
                a,
                i as int,
                SearchArgs {
                    query_args: views(query_args@),
                    repeat: options.repeat as nat,
                    warmups: options.warmups as nat,
                    print_rows: options.print_rows,
                    json: options.json,
                },
            ),
        decreases args.len() + 1 - i,
    {
        let arg = args[i].as_str();
        assert(a[i as int] == arg@);
        let next: Option<&String> = if i + 1 < args.len() {
            Some(&args[i + 1])
        } else {
            None
        };
        if str_eq(arg, "--repeat") {
            match parse_positive_usize(next, "--repeat") {
                Ok(n) => options.repeat = n,
                Err(e) => {
                    return Err(e);
                },
            }
            i += 2;
        } else if str_eq(arg, "--warmups") {
            match parse_usize(next, "--warmups") {
                Ok(n) => options.warmups = n,
                Err(e) => {
                    return Err(e);
                },
            }
            i += 2;
        } else if str_eq(arg, "--no-print-rows") {
            options.print_rows = false;
            i += 1;
        } else if str_eq(arg, "--json") {
            options.json = true;
            options.print_rows = false;
            i += 1;
        } else {
            let ghost before = views(query_args@);
            query_args.push(args[i].clone());
            assert(views(query_args@) =~= before.push(arg@));
            i += 1;
        }
    }
    Ok((query_args, options))
}

// ---------- text output ----------

/// The JSON escape of one character.
pub open spec fn json_char(c: char) -> Seq<char> {
    if c == '"' {
        seq!['\\', '"']
    } else if c == '\\' {
        seq!['\\', '\\']
    } else if c == '\n' {
        seq!['\\', 'n']
    } else if c == '\r' {
        seq!['\\', 'r']
    } else if c == '\t' {
        seq!['\\', 't']
    } else {
        seq![c]
    }
}

/// `s` with quotes, backslashes, line feeds, carriage returns and tabs
/// escaped for a JSON string.
pub open spec fn json_escaped(s: Seq<char>) -> Seq<char>
    decreases s.len(),
{
    if s.len() == 0 {
        Seq::empty()
    } else {
        json_escaped(s.drop_last()) + json_char(s.last())
    }
}

/// Escapes text for a JSON string literal.
pub fn json_escape(value: &str) -> (r: String)
    ensures
        r@ == json_escaped(value@),
{
    let cs = chars_of(value);
    let mut out: Vec<char> = Vec::new();
    let mut i: usize = 0;
    while i < cs.len()
        invariant
            i <= cs@.len(),
            out@ == json_escaped(cs@.take(i as int)),
        decreases cs.len() - i,
    {
        assert(cs@.take(i + 1).drop_last() =~= cs@.take(i as int));
        let ch = cs[i];
        let ghost before = out@;
        if ch == '"' {
            out.push('\\');
            out.push('"');
        } else if ch == '\\' {
            out.push('\\');
            out.push('\\');
        } else if ch == '\n' {
            out.push('\\');
            out.push('n');
        } else if ch == '\r' {
            out.push('\\');
            out.push('r');
        } else if ch == '\t' {
            out.push('\\');
            out.push('t');
        } else {
            out.push(ch);
        }
        assert(out@ =~= before + json_char(ch));
        i += 1;
    }
    assert(cs@.take(i as int) =~= cs@);
    string_of(out.as_slice())
}

/// The first `n` characters of `s`.
pub fn trunc(s: &str, n: usize) -> (r: String)
    ensures
        r@ == (if s@.len() <= n {
            s@
        } else {
            s@.take(n as int)
        }),
{
    let cs = chars_of(s);
    let mut out: Vec<char> = Vec::new();
    let mut i: usize = 0;
    while i < cs.len() && i < n
        invariant
            i <= cs@.len(),
            i <= n,
            out@ == cs@.take(i as int),
        decreases cs.len() - i,
    {
        out.push(cs[i]);
        i += 1;
        assert(out@ =~= cs@.take(i as int));
    }
    if cs.len() <= n {
        assert(cs@.take(i as int) =~= cs@);
    }
    string_of(out.as_slice())
}

/// Heading of an analytics section in text output.
pub open spec fn section_title_text(kind: AnalyticsSectionKind) -> Seq<char> {
    match kind {
        AnalyticsSectionKind::Recipients => "Recipients / who received"@,
        AnalyticsSectionKind::Senders => "Senders"@,
        AnalyticsSectionKind::Edrpou => "EDRPOU"@,
        AnalyticsSectionKind::ProductCodes => "Product codes"@,
        AnalyticsSectionKind::Trademarks => "Trademarks"@,
        AnalyticsSectionKind::ProductGroups => "Description groups"@,
        AnalyticsSectionKind::OriginCountries => "Origin countries"@,
        AnalyticsSectionKind::DispatchCountries => "Dispatch countries"@,
        AnalyticsSectionKind::TradeCountries => "Trade countries"@,
    }
}

/// Heading of an analytics section in text output.
pub fn analytics_section_title(kind: AnalyticsSectionKind) -> (r: &'static str)
    ensures
        r@ == section_title_text(kind),
{
    match kind {
        AnalyticsSectionKind::Recipients => "Recipients / who received",
        AnalyticsSectionKind::Senders => "Senders",
        AnalyticsSectionKind::Edrpou => "EDRPOU",
        AnalyticsSectionKind::ProductCodes => "Product codes",
        AnalyticsSectionKind::Trademarks => "Trademarks",
        AnalyticsSectionKind::ProductGroups => "Description groups",
        AnalyticsSectionKind::OriginCountries => "Origin countries",
        AnalyticsSectionKind::DispatchCountries => "Dispatch countries",
        AnalyticsSectionKind::TradeCountries => "Trade countries",
    }
}

/// Heading of a price metric in text output.
pub open spec fn price_title_text(kind: PriceMetricKind) -> Seq<char> {
    match kind {
        PriceMetricKind::ValuePerNetKg => "Value / net kg"@,
        PriceMetricKind::RfvUsdKg => "RFV $/kg"@,
        PriceMetricKind::RmvNetUsdKg => "RMV net $/kg"@,
        PriceMetricKind::RmvUsdExtraUnit => "RMV extra unit"@,
        PriceMetricKind::RmvGrossUsdKg => "RMV gross $/kg"@,
        PriceMetricKind::MinBaseUsdKg => "Minimum base $/kg"@,
    }
}

/// Heading of a price metric in text output.
pub fn price_metric_title(kind: PriceMetricKind) -> (r: &'static str)
    ensures
        r@ == price_title_text(kind),
{
    match kind {
        PriceMetricKind::ValuePerNetKg => "Value / net kg",
        PriceMetricKind::RfvUsdKg => "RFV $/kg",
        PriceMetricKind::RmvNetUsdKg => "RMV net $/kg",
        PriceMetricKind::RmvUsdExtraUnit => "RMV extra unit",
        PriceMetricKind::RmvGrossUsdKg => "RMV gross $/kg",
        PriceMetricKind::MinBaseUsdKg => "Minimum base $/kg",
    }
}

/// The message the command line prints for a failed export.
pub open spec fn export_error_text(err: ExportError) -> Seq<char> {
    match err {
        ExportError::TooManyRowsForXlsx(rows) => dec(rows as nat)
            + " rows exceed the XLSX row limit; export CSV instead"@,
        ExportError::UnsupportedExtension(ext) => if ext@.len() == 0 {
            "Unsupported export extension. Use .csv or .xlsx."@
        } else {
            "Unsupported export extension: ."@ + ext@ + ". Use .csv or .xlsx."@
        },
        ExportError::Cancelled => "Export cancelled"@,
        ExportError::Other(message) => message@,
    }
}

/// The message the command line prints for a failed export.
pub fn export_error_message(err: ExportError) -> (r: String)
    ensures
        r@ == export_error_text(err),
{
    match err {
        ExportError::TooManyRowsForXlsx(rows) => {
            let mut s = u64_to_string(rows);
            s.append(" rows exceed the XLSX row limit; export CSV instead");
            s
        },
        ExportError::UnsupportedExtension(ext) => {
            if ext.as_str().is_empty() {
                String::from_str("Unsupported export extension. Use .csv or .xlsx.")
            } else {
                let mut s = String::from_str("Unsupported export extension: .");
                s.append(ext.as_str());
                s.append(". Use .csv or .xlsx.");
                s
            }
        },
        ExportError::Cancelled => String::from_str("Export cancelled"),
        ExportError::Other(message) => message,
    }
}

/// At most this many cells are printed for a result row.
pub const ROW_PRINT_CELLS: usize = 8;

/// The printed cells of a result row among its first `n` columns: each
/// non-blank value as `label=value`, the value cut to 36 characters.
pub open spec fn printed_cells(fields: Seq<FieldInfo>, row: Seq<Seq<char>>, n: int) -> Seq<Seq<char>>
    decreases n,
{
    if n <= 0 {
        Seq::empty()
    } else {
        let rest = printed_cells(fields, row, n - 1);
        let v = row[n - 1];
        if blank(v) {
            rest
        } else {
            rest.push(fields[n - 1].label@ + seq!['='] + (if v.len() <= 36 {
                v
            } else {
                v.take(36)
            }))
        }
    }
}

/// A result row as the search command prints it: fields and values paired
/// up to the shorter list, blank values skipped, the first
/// `ROW_PRINT_CELLS` cells joined by ` | `.
pub open spec fn search_row_text(fields: Seq<FieldInfo>, row: Seq<Seq<char>>) -> Seq<char> {
    let n = if fields.len() < row.len() {
        fields.len() as int
    } else {
        row.len() as int
    };
    let cells = printed_cells(fields, row, n);
    join(
        if cells.len() > ROW_PRINT_CELLS {
            cells.take(ROW_PRINT_CELLS as int)
        } else {
            cells
        },
        seq![' ', '|', ' '],
    )
}

/// Formats one result row for the search command's listing.
pub fn search_row_line(fields: &Vec<FieldInfo>, row: &Vec<String>) -> (r: String)
    ensures
        r@ == search_row_text(fields@, views(row@)),
{
    let n: usize = if fields.len() < row.len() {
        fields.len()
    } else {
        row.len()
    };
    let mut cells: Vec<String> = Vec::new();
    let mut k: usize = 0;
    while k < n
        invariant
            k <= n,
            n <= fields@.len(),
            n <= row@.len(),
            views(cells@) == printed_cells(fields@, views(row@), k as int),
        decreases n - k,
    {
        if !is_blank(row[k].as_str()) {
            let mut cell = fields[k].label.clone();
            cell.append("=");
            let v = trunc(row[k].as_str(), 36);
            cell.append(v.as_str());
            proof {
                reveal_strlit("=");
                assert("="@ =~= seq!['=']);
            }
            let ghost before = views(cells@);
            cells.push(cell);
            assert(views(cells@) =~= before.push(cell@));
            assert(views(row@)[k as int] == row@[k as int]@);
        }
        assert(views(row@)[k as int] == row@[k as int]@);
        k += 1;
    }
    let ghost all = views(cells@);
    cells.truncate(ROW_PRINT_CELLS);
    proof {
        if all.len() > ROW_PRINT_CELLS {
            assert(views(cells@) =~= all.take(ROW_PRINT_CELLS as int));
        } else {
            assert(views(cells@) =~= all);
        }
    }
    let r = join_strings(&cells, " | ");
    proof {
        reveal_strlit(" | ");
        assert(" | "@ =~= seq![' ', '|', ' ']);
    }
    r
}

} // verus!
