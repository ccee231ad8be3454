//! Handling of `GET /clientes/{id}/extrato`.
use vstd::prelude::*;
use crate::clock::{local_now, LocalTime};
use crate::dto::responses::balance_response::BalanceResponse;
use crate::http_status::http_response::ResponseBody;
use crate::http_status::http_type::HttpType;
use crate::model::account::Account;
use crate::model::transaction::Transaction;
use crate::repositories::account_repository::AccountRepositoryError;
use crate::repositories::statement_repository::StatementRepository;
use crate::text::{chars_of, contains, contains_seq};
use crate::{id_delimited, id_is_number, id_of};

verus! {

/// What handling a statement request does next.
#[derive(Debug, PartialEq)]
pub enum StatementStep {
    /// Answer with this status and body.
    Respond(HttpType, ResponseBody),
    /// Read the account with this id, then go on with `account_loaded`.
    FetchAccount(u32),
    /// Read the latest transactions of this account, then answer with
    /// `statement_loaded`.
    FetchStatement(u32, Account),
}

/// The request line names the statement of a client.
pub open spec fn extrato_route(url: Seq<char>) -> bool {
    contains_seq(url, "/clientes/"@) && contains_seq(url, "/extrato"@)
}

/// The first decision on a statement request: a request line that does not
/// name a statement, or whose client id is not a number, is a bad request.
pub open spec fn controller_step(url: Seq<char>) -> StatementStep {
    if extrato_route(url) && id_of(url) is Some {
        StatementStep::FetchAccount(id_of(url).unwrap())
    } else {
        StatementStep::Respond(HttpType::BadRequest, ResponseBody::Message("Bad Request"))
    }
}

/// The decision once the account has been looked up.
pub open spec fn account_step(id: u32, account: Result<Account, AccountRepositoryError>) -> StatementStep {
    match account {
        Ok(a) => StatementStep::FetchStatement(id, a),
        Err(_) => StatementStep::Respond(HttpType::NotFound, ResponseBody::Message("Id not Found")),
    }
}

/// The first decision on a statement request.
pub fn controller(url: &str) -> (r: StatementStep)
    requires
        extrato_route(url@) ==> id_delimited(url@),
    ensures
        r == controller_step(url@),
{
    let chars = chars_of(url);
    if contains(&chars, &chars_of("/clientes/")) && contains(&chars, &chars_of("/extrato")) {
        if let Some(id) = id_is_number(url) {
            return StatementStep::FetchAccount(id);
        }
    }
    StatementStep::Respond(HttpType::BadRequest, ResponseBody::Message("Bad Request"))
}

/// The decision once the account has been looked up: an unknown account is
/// not found.
pub fn account_loaded(id: u32, account: Result<Account, AccountRepositoryError>) -> (r:
    StatementStep)
    ensures
        r == account_step(id, account),
{
    match account {
        Ok(a) => StatementStep::FetchStatement(id, a),
        Err(_) => StatementStep::Respond(HttpType::NotFound, ResponseBody::Message("Id not Found")),
    }
}

/// The answer to a statement request once the latest transactions are read
/// and the clock has given `now`: the account's balance and limit, that
/// time, and those transactions.
pub fn statement_at(account: Account, transactions: Vec<Transaction>, now: LocalTime) -> (r: (
    HttpType,
    ResponseBody,
))
    ensures
        r.0 == HttpType::OK,
        r.1 matches ResponseBody::Statement(s) && s.saldo == (BalanceResponse {
            total: account.saldo,
            data_extrato: now,
            limite: account.limite,
        }) && s.ultimas_transacoes@ == transactions@,
{
    let statement_repository = StatementRepository;
    (
        HttpType::OK,
        ResponseBody::Statement(statement_repository.get_statement_by_id(account, transactions, now)),
    )
}

/// The answer to a statement request once the latest transactions are read:
/// the statement taken at the time the clock gives now.  Which instant that
/// is depends on when the call runs; what holds of every reading is stated.
pub fn statement_loaded(account: Account, transactions: Vec<Transaction>) -> (r: (
    HttpType,
    ResponseBody,
))
    ensures
        r.0 == HttpType::OK,
        r.1 matches ResponseBody::Statement(s) && s.saldo.total == account.saldo && s.saldo.limite
            == account.limite && s.ultimas_transacoes@ == transactions@
            && s.saldo.data_extrato.seconds >= 0 && s.saldo.data_extrato.nanos < 2_000_000_000
            && -86_400 < s.saldo.data_extrato.offset_seconds < 86_400,
{
    statement_at(account, transactions, local_now())
}

/// A found account always goes on to its statement, for that client and
/// that account, whatever its balance or limit; only an account that is not
/// found is answered with 404.
pub proof fn lemma_found_account_gets_statement(
    id: u32,
    account: Result<Account, AccountRepositoryError>,
)
    ensures
        forall|a: Account|
            account == Ok::<Account, AccountRepositoryError>(a) ==> account_step(id, account)
                == StatementStep::FetchStatement(id, a),
        account is Err ==> account_step(id, account) == StatementStep::Respond(
            HttpType::NotFound,
            ResponseBody::Message("Id not Found"),
        ),
{
}

/// A statement request goes on to read the account exactly when its line
/// names `/clientes/` and `/extrato` and a numeric client id, and then for
/// that id; every other line is a bad request.
pub proof fn lemma_statement_route(url: Seq<char>)
    ensures
        forall|id: u32|
            contains_seq(url, "/clientes/"@) && contains_seq(url, "/extrato"@) && id_of(url)
                == Some(id) ==> controller_step(url) == StatementStep::FetchAccount(id),
        !(contains_seq(url, "/clientes/"@) && contains_seq(url, "/extrato"@) && id_of(url) is Some)
            ==> controller_step(url) == StatementStep::Respond(
            HttpType::BadRequest,
            ResponseBody::Message("Bad Request"),
        ),
{
}

} // verus!
