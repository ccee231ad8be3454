//! Verified core of a small banking HTTP service: clients' accounts have a
//! balance and a credit limit; the service records credits and debits and
//! answers with statements.  This crate holds the request handling logic:
//! reading request lines and headers, validating transactions, deciding
//! what each request does to an account, and the texts of the answers.
use vstd::prelude::*;
use crate::http_status::http_response::ResponseBody;
use crate::http_status::http_type::HttpType;
use crate::text::{
    chars_of, contains, contains_seq, decimal, find, find_char_from, first_char_from,
    first_occurrence, is_digit, lemma_decimal_digits, lemma_first_char_unique,
    lemma_first_occurrence_unique, lemma_parse_decimal, occurs_at, trim_end, trim_start,
    has_char_from, parse_unsigned, parse_unsigned_range, trim, trim_range,
};

pub mod clock;
pub mod controllers;
pub mod dto;
pub mod http_status;
pub mod model;
pub mod persistence;
pub mod queue;
pub mod repositories;
pub mod text;

verus! {

/// Where the client id starts in a request line: right after the first
/// `/clientes/`.
pub open spec fn id_start(url: Seq<char>) -> int {
    first_occurrence(url, "/clientes/"@) + "/clientes/"@.len()
}

/// The request line holds `/clientes/` and, somewhere after it, a `/` that
/// ends the client id.
pub open spec fn id_delimited(url: Seq<char>) -> bool {
    &&& contains_seq(url, "/clientes/"@)
    &&& has_char_from(url, '/', id_start(url))
}

/// The text of the client id: from the first `/clientes/` to the next `/`.
pub open spec fn id_segment(url: Seq<char>) -> Seq<char> {
    url.subrange(id_start(url), first_char_from(url, '/', id_start(url)))
}

/// The client id that a request line names, if its text is a `u32`.
pub open spec fn id_of(url: Seq<char>) -> Option<u32> {
    match parse_unsigned(id_segment(url), u32::MAX as nat) {
        Some(v) => Some(v as u32),
        None => None,
    }
}

/// Reads the client id out of a request line such as
/// `POST /clientes/1/transacoes HTTP/1.1`.
pub fn id_is_number(url: &str) -> (r: Option<u32>)
    requires
        id_delimited(url@),
    ensures
        r == id_of(url@),
{
    let chars = chars_of(url);
    let marker = chars_of("/clientes/");
    let found = find(&chars, &marker);
    let start = match found {
        Some(p) => p,
        None => {
            return None;
        },
    };
    let total = chars.len();
    assert(start + marker@.len() <= total);
    let id_begin = start + marker.len();
    let id_end = match find_char_from(&chars, '/', id_begin) {
        Some(e) => e,
        None => {
            return None;
        },
    };
    match parse_unsigned_range(&chars, id_begin, id_end, 4294967295u64) {
        Some(v) => Some(v as u32),
        None => None,
    }
}

/// Writing a client id into a request line and reading it back gives the
/// same id: for a line made of any text without `/`, then `/clientes/`,
/// the id in decimal, a `/` and anything else, the id read is that id.
pub proof fn lemma_id_round_trip(prefix: Seq<char>, n: u32, rest: Seq<char>)
    requires
        forall|i: int| 0 <= i < prefix.len() ==> prefix[i] != '/',
    ensures
        id_delimited(prefix + "/clientes/"@ + decimal(n as nat) + seq!['/'] + rest),
        id_of(prefix + "/clientes/"@ + decimal(n as nat) + seq!['/'] + rest) == Some(n),
{
    reveal_strlit("/clientes/");
    let m = "/clientes/"@;
    let dec = decimal(n as nat);
    let url = prefix + m + dec + seq!['/'] + rest;
    let p = prefix.len() as int;
    lemma_decimal_digits(n as nat);
    assert(m[0] == '/');
    assert forall|k: int| 0 <= k < m.len() implies #[trigger] url[p + k] == m[k] by {
        assert(url[p + k] == (prefix + m)[p + k]);
    }
    assert(occurs_at(url, m, p));
    assert forall|j: int| 0 <= j < p implies !occurs_at(url, m, j) by {
        assert(url[j + 0] == prefix[j]);
    }
    lemma_first_occurrence_unique(url, m, p);
    let start = p + m.len();
    assert(id_start(url) == start);
    let e = start + dec.len();
    assert(url[e] == '/');
    assert forall|j: int| start <= j < e implies url[j] != '/' by {
        assert(url[j] == dec[j - start]);
        assert(is_digit(dec[j - start]));
    }
    lemma_first_char_unique(url, '/', start, e);
    assert(has_char_from(url, '/', start));
    assert(id_segment(url) =~= dec);
    lemma_parse_decimal(n as nat, u32::MAX as nat);
}

/// Which controller a request goes to, by its request line.
#[derive(Clone, Copy, Debug, PartialEq, Eq, Structural)]
pub enum RequestKind {
    /// A `GET`: an account statement.
    Statement,
    /// A `POST`: a new transaction.
    Transaction,
    /// Anything else: answered with "Bad Request".
    Unknown,
}

/// `GET` anywhere in the request line routes to the statement, else `POST`
/// to the transaction.
pub open spec fn request_kind_of(headline: Seq<char>) -> RequestKind {
    if contains_seq(headline, "GET"@) {
        RequestKind::Statement
    } else if contains_seq(headline, "POST"@) {
        RequestKind::Transaction
    } else {
        RequestKind::Unknown
    }
}

/// Any request line that holds `GET` goes to the statement; one that holds
/// `POST` and not `GET` goes to the transaction; one with neither is
/// answered as a bad request.
pub proof fn lemma_request_routing(headline: Seq<char>)
    ensures
        contains_seq(headline, "GET"@) ==> request_kind_of(headline) == RequestKind::Statement,
        !contains_seq(headline, "GET"@) && contains_seq(headline, "POST"@) ==> request_kind_of(
            headline,
        ) == RequestKind::Transaction,
        !contains_seq(headline, "GET"@) && !contains_seq(headline, "POST"@) ==> request_kind_of(
            headline,
        ) == RequestKind::Unknown,
{
}

/// Routes a request by its request line.
pub fn request_kind(headline: &str) -> (r: RequestKind)
    ensures
        r == request_kind_of(headline@),
{
    let chars = chars_of(headline);
    if contains(&chars, &chars_of("GET")) {
        RequestKind::Statement
    } else if contains(&chars, &chars_of("POST")) {
        RequestKind::Transaction
    } else {
        RequestKind::Unknown
    }
}

/// The answer to a request that is neither a statement nor a transaction.
pub fn bad_request() -> (r: (HttpType, ResponseBody))
    ensures
        r == (HttpType::BadRequest, ResponseBody::Message("Bad Request")),
{
    (HttpType::BadRequest, ResponseBody::Message("Bad Request"))
}

/// The text between the first and the second `:` of a header line (or the
/// end of the line).
pub open spec fn header_field(line: Seq<char>) -> Seq<char> {
    let a = first_char_from(line, ':', 0) + 1;
    let b = if has_char_from(line, ':', a) {
        first_char_from(line, ':', a)
    } else {
        line.len() as int
    };
    line.subrange(a, b)
}

/// The number a header line gives: its second `:`-separated field, trimmed,
/// read as a `u64`.
pub open spec fn header_number(line: Seq<char>) -> Option<nat> {
    parse_unsigned(trim(header_field(line)), u64::MAX as nat)
}

/// A header line that names `Content-Length` carries a readable number.
pub open spec fn header_readable(line: Seq<char>) -> bool {
    contains_seq(line, "Content-Length"@) ==> has_char_from(line, ':', 0) && header_number(
        line,
    ) is Some
}

/// Every header line from `i` up to and including the first empty line is
/// readable.
pub open spec fn headers_readable(lines: Seq<Seq<char>>, i: int) -> bool
    decreases lines.len() - i,
{
    if i < 0 || i >= lines.len() {
        true
    } else {
        header_readable(lines[i]) && (lines[i].len() == 0 || headers_readable(lines, i + 1))
    }
}

/// The content length that the header lines from `i` on give, where `acc`
/// is what the lines before gave: the last `Content-Length` line before the
/// first empty line counts; without one it is `acc`.
pub open spec fn content_length_from(lines: Seq<Seq<char>>, i: int, acc: nat) -> nat
    decreases lines.len() - i,
{
    if i < 0 || i >= lines.len() {
        acc
    } else {
        let next = if contains_seq(lines[i], "Content-Length"@) {
            header_number(lines[i]).unwrap()
        } else {
            acc
        };
        if lines[i].len() == 0 {
            next
        } else {
            content_length_from(lines, i + 1, next)
        }
    }
}

/// The lines as character sequences.
pub open spec fn lines_view(lines: Seq<String>) -> Seq<Seq<char>> {
    lines.map_values(|l: String| l@)
}

/// A request whose headers are a `Content-Length` line giving a number and
/// the blank line announces exactly that number, whatever the header lines
/// before it that do not name `Content-Length`.
pub proof fn lemma_content_length_round_trip(before: Seq<Seq<char>>, n: u64)
    requires
        forall|i: int|
            0 <= i < before.len() ==> #[trigger] before[i].len() > 0 && !contains_seq(
                before[i],
                "Content-Length"@,
            ),
    ensures
        headers_readable(before + seq!["Content-Length: "@ + decimal(n as nat), Seq::<char>::empty()], 0),
        content_length_from(
            before + seq!["Content-Length: "@ + decimal(n as nat), Seq::<char>::empty()],
            0,
            0,
        ) == n,
{
    reveal_strlit("Content-Length: ");
    reveal_strlit("Content-Length");
    let name = "Content-Length"@;
    let dec = decimal(n as nat);
    let line = "Content-Length: "@ + dec;
    let lines = before + seq![line, Seq::<char>::empty()];
    let b = before.len() as int;
    lemma_decimal_digits(n as nat);
    // the header line names Content-Length and holds one ':'
    assert forall|k: int| 0 <= k < name.len() implies #[trigger] line[0 + k] == name[k] by {}
    assert(occurs_at(line, name, 0));
    assert(contains_seq(line, name));
    assert forall|j: int| 0 <= j < 14 implies line[j] != ':' by {}
    assert(line[14] == ':');
    lemma_first_char_unique(line, ':', 0, 14);
    assert(has_char_from(line, ':', 0));
    assert(!has_char_from(line, ':', 15)) by {
        assert forall|j: int| 15 <= j < line.len() implies line[j] != ':' by {
            if j > 15 {
                assert(line[j] == dec[j - 16]);
                assert(is_digit(dec[j - 16]));
            }
        }
    }
    let field = line.subrange(15, line.len() as int);
    assert(header_field(line) == field);
    assert(field.drop_first() =~= dec);
    assert(is_digit(dec[0]));
    assert(trim_start(field) == trim_start(dec));
    assert(trim_start(dec) == dec);
    assert(is_digit(dec.last()));
    assert(trim_end(dec) == dec);
    assert(trim(field) == dec);
    lemma_parse_decimal(n as nat, u64::MAX as nat);
    assert(header_number(line) == Some(n as nat));
    // the lines before do nothing
    assert forall|i: int| 0 <= i <= b implies headers_readable(lines, i) && content_length_from(
        lines,
        i,
        0,
    ) == n by {
        lemma_content_length_tail(before, line, n as nat, i);
    }
}

proof fn lemma_content_length_tail(before: Seq<Seq<char>>, line: Seq<char>, n: nat, i: int)
    requires
        0 <= i <= before.len(),
        forall|j: int|
            0 <= j < before.len() ==> #[trigger] before[j].len() > 0 && !contains_seq(
                before[j],
                "Content-Length"@,
            ),
        line.len() > 0,
        contains_seq(line, "Content-Length"@),
        has_char_from(line, ':', 0),
        header_number(line) == Some(n),
    ensures
        headers_readable(before + seq![line, Seq::<char>::empty()], i),
        content_length_from(before + seq![line, Seq::<char>::empty()], i, 0) == n,
    decreases before.len() - i,
{
    let lines = before + seq![line, Seq::<char>::empty()];
    let b = before.len() as int;
    assert(lines[b] == line);
    assert(lines[b + 1] == Seq::<char>::empty());
    assert(!contains_seq(Seq::<char>::empty(), "Content-Length"@)) by {
        reveal_strlit("Content-Length");
    }
    if i < b {
        assert(lines[i] == before[i]);
        lemma_content_length_tail(before, line, n, i + 1);
    } else {
        assert(content_length_from(lines, b + 1, n) == n);
        assert(headers_readable(lines, b + 1));
    }
}

/// The body length that the header lines of a request announce; lines after
/// the first empty one are not headers and are not read.
pub fn get_content_length(lines: &Vec<String>) -> (r: u64)
    requires
        headers_readable(lines_view(lines@), 0),
    ensures
        r == content_length_from(lines_view(lines@), 0, 0),
{
    let ghost ls = lines_view(lines@);
    let name = chars_of("Content-Length");
    let mut content_length: u64 = 0;
    let mut i: usize = 0;
    while i < lines.len()
        invariant
            ls == lines_view(lines@),
            0 <= i <= lines@.len(),
            name@ == "Content-Length"@,
            headers_readable(ls, i as int),
            content_length_from(ls, 0, 0) == content_length_from(
                ls,
                i as int,
                content_length as nat,
            ),
        decreases lines@.len() - i,
    {
        let line = chars_of(lines[i].as_str());
        assert(line@ == ls[i as int]);
        if contains(&line, &name) {
            let first_colon = match find_char_from(&line, ':', 0) {
                Some(c) => c,
                None => {
                    return content_length;
                },
            };
            let line_len = line.len();
            assert(first_colon < line_len);
            let field_end = match find_char_from(&line, ':', first_colon + 1) {
                Some(c) => c,
                None => line.len(),
            };
            let (a, b) = trim_range(&line, first_colon + 1, field_end);
            content_length = match parse_unsigned_range(&line, a, b, 18446744073709551615u64) {
                Some(v) => v,
                None => {
                    return content_length;
                },
            };
        }
        if line.len() == 0 {
            return content_length;
        }
        i = i + 1;
    }
    content_length
}

} // verus!
