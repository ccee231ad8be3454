use rinha_bank::text::{chars_of, find, parse_unsigned_range, trim_range};
use rinha_bank::{get_content_length, id_is_number, request_kind, RequestKind};

fn lines(v: &[&str]) -> Vec<String> {
    v.iter().map(|s| s.to_string()).collect()
}

#[test]
fn id_is_read_from_transaction_line() {
    assert_eq!(id_is_number("POST /clientes/1/transacoes HTTP/1.1\r\n"), Some(1));
}

#[test]
fn id_is_read_from_statement_line() {
    assert_eq!(id_is_number("GET /clientes/42/extrato HTTP/1.1\r\n"), Some(42));
}

#[test]
fn id_that_is_not_a_number_gives_none() {
    assert_eq!(id_is_number("GET /clientes/abc/extrato HTTP/1.1"), None);
    assert_eq!(id_is_number("GET /clientes/-1/extrato HTTP/1.1"), None);
    assert_eq!(id_is_number("GET /clientes//extrato HTTP/1.1"), None);
}

#[test]
fn id_accepts_plus_sign_and_leading_zeros() {
    assert_eq!(id_is_number("GET /clientes/+7/extrato"), Some(7));
    assert_eq!(id_is_number("GET /clientes/007/extrato"), Some(7));
}

#[test]
fn id_beyond_u32_gives_none() {
    assert_eq!(id_is_number("GET /clientes/4294967295/extrato"), Some(4294967295));
    assert_eq!(id_is_number("GET /clientes/4294967296/extrato"), None);
}

#[test]
fn id_ends_at_next_slash_after_first_marker() {
    assert_eq!(id_is_number("GET /clientes/5/clientes/6/extrato"), Some(5));
    assert_eq!(id_is_number("GET /clientes/12 HTTP/1.1"), None);
}

#[test]
fn request_kind_routes_by_method() {
    assert_eq!(request_kind("GET /clientes/1/extrato HTTP/1.1"), RequestKind::Statement);
    assert_eq!(request_kind("POST /clientes/1/transacoes HTTP/1.1"), RequestKind::Transaction);
    assert_eq!(request_kind("PUT /clientes/1 HTTP/1.1"), RequestKind::Unknown);
    assert_eq!(request_kind(""), RequestKind::Unknown);
}

#[test]
fn request_kind_prefers_get() {
    assert_eq!(request_kind("POST /GET HTTP/1.1"), RequestKind::Statement);
}

#[test]
fn content_length_is_read() {
    let l = lines(&["Host: localhost", "Content-Length: 57", "Content-Type: application/json", ""]);
    assert_eq!(get_content_length(&l), 57);
}

#[test]
fn content_length_defaults_to_zero() {
    let l = lines(&["Host: localhost", ""]);
    assert_eq!(get_content_length(&l), 0);
    assert_eq!(get_content_length(&Vec::new()), 0);
}

#[test]
fn content_length_last_header_wins() {
    let l = lines(&["Content-Length: 3", "Content-Length:9", ""]);
    assert_eq!(get_content_length(&l), 9);
}

#[test]
fn content_length_after_blank_line_is_ignored() {
    let l = lines(&["Content-Length: 3", "", "Content-Length: garbage"]);
    assert_eq!(get_content_length(&l), 3);
}

#[test]
fn content_length_value_is_trimmed_and_cut_at_colon() {
    let l = lines(&["X-Content-Length:\t 12 \u{3000}: trailing", ""]);
    assert_eq!(get_content_length(&l), 12);
}

#[test]
fn find_gives_first_occurrence() {
    let s = chars_of("abcabc");
    assert_eq!(find(&s, &chars_of("bc")), Some(1));
    assert_eq!(find(&s, &chars_of("")), Some(0));
    assert_eq!(find(&s, &chars_of("cb")), None);
    assert_eq!(find(&s, &chars_of("abcabcd")), None);
}

#[test]
fn parse_handles_edges() {
    let s = chars_of("+");
    assert_eq!(parse_unsigned_range(&s, 0, 1, u64::MAX), None);
    let s = chars_of("18446744073709551615");
    assert_eq!(parse_unsigned_range(&s, 0, s.len(), u64::MAX), Some(u64::MAX));
    let s = chars_of("18446744073709551616");
    assert_eq!(parse_unsigned_range(&s, 0, s.len(), u64::MAX), None);
    let s = chars_of("12a");
    assert_eq!(parse_unsigned_range(&s, 0, 3, u64::MAX), None);
    assert_eq!(parse_unsigned_range(&s, 0, 2, u64::MAX), Some(12));
}

#[test]
fn trim_strips_unicode_white_space() {
    let s = chars_of("\u{a0} a b\r\n");
    assert_eq!(trim_range(&s, 0, s.len()), (2, 5));
    let s = chars_of("   ");
    let (a, b) = trim_range(&s, 0, 3);
    assert_eq!(a, b);
}
