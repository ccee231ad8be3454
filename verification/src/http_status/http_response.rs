use vstd::prelude::*;
use vstd::string::*;
use crate::dto::responses::statement_response::StatementResponse;
use crate::dto::responses::transaction_response::TransactionResponse;
use crate::http_status::http_type::{lemma_code_text_spells_code, HttpType};
use crate::text::decimal;

verus! {

/// What a response carries as its JSON body.
#[derive(Debug, PartialEq)]
pub enum ResponseBody {
    /// `{"message": ...}`
    Message(&'static str),
    /// The limit and balance after a transaction.
    Transaction(TransactionResponse),
    /// An account statement.
    Statement(StatementResponse),
}

/// The head line and headers written before a response body.
pub open spec fn response_text(status: HttpType, body: Seq<char>) -> Seq<char> {
    "HTTP/1.1 "@ + status.code_text()@ + "\r\nContent-Type: application/json\r\n\r\n"@ + body
}

/// A response is the `HTTP/1.1` status line with the decimal code of its
/// status, the JSON content type, a blank line and then the body unchanged.
pub proof fn lemma_response_layout(status: HttpType, body: Seq<char>)
    ensures
        response_text(status, body) == "HTTP/1.1 "@ + decimal(status.status_code() as nat)
            + "\r\nContent-Type: application/json\r\n\r\n"@ + body,
        response_text(status, body).subrange(
            response_text(status, body).len() - body.len(),
            response_text(status, body).len() as int,
        ) == body,
{
    lemma_code_text_spells_code(status, status);
    let r = response_text(status, body);
    assert(r.subrange(r.len() - body.len(), r.len() as int) =~= body);
}

/// The full text of a response with the given status and (already
/// serialised) body.
pub fn http_response(status: HttpType, body: &str) -> (r: String)
    ensures
        r@ == response_text(status, body@),
{
    let mut r = String::from_str("HTTP/1.1 ");
    r.append(status.code_str());
    r.append("\r\nContent-Type: application/json\r\n\r\n");
    r.append(body);
    r
}

} // verus!
