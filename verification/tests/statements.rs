use chrono::NaiveDate;
use rinha_bank::controllers::statement_controller::{
    account_loaded, controller, statement_at, statement_loaded, StatementStep,
};
use rinha_bank::http_status::http_response::{http_response, ResponseBody};
use rinha_bank::http_status::http_type::HttpType;
use rinha_bank::model::account::Account;
use rinha_bank::model::transaction::Transaction;
use rinha_bank::queue::Queue;
use rinha_bank::repositories::account_repository::{AccountRepository, AccountRepositoryError};
use rinha_bank::clock::LocalTime;
use rinha_bank::dto::responses::balance_response::BalanceResponse;
use rinha_bank::bad_request;
use rinha_bank::repositories::statement_repository::StatementRepository;
use rinha_bank::repositories::transaction_repository::TransactionRepository;

fn transaction(valor: i32) -> Transaction {
    Transaction {
        valor,
        tipo: "c".to_string(),
        descricao: "desc".to_string(),
        realizada_em: NaiveDate::from_ymd_opt(2024, 1, 17).unwrap().and_hms_opt(2, 34, 41).unwrap(),
    }
}

#[test]
fn statement_controller_fetches_account() {
    assert_eq!(controller("GET /clientes/3/extrato HTTP/1.1\r\n"), StatementStep::FetchAccount(3));
}

#[test]
fn statement_controller_bad_paths_are_bad_requests() {
    let bad = StatementStep::Respond(HttpType::BadRequest, ResponseBody::Message("Bad Request"));
    assert_eq!(controller("GET /clientes/3/saldo HTTP/1.1\r\n"), bad);
    assert_eq!(controller("GET /clientes/x/extrato HTTP/1.1\r\n"), bad);
}

#[test]
fn statement_missing_account_is_not_found() {
    assert_eq!(
        account_loaded(3, Err(AccountRepositoryError::AccountNotFound)),
        StatementStep::Respond(HttpType::NotFound, ResponseBody::Message("Id not Found"))
    );
    let a = Account { limite: 10, saldo: 5 };
    assert_eq!(account_loaded(3, Ok(a)), StatementStep::FetchStatement(3, a));
}

#[test]
fn statement_carries_account_and_transactions() {
    let (status, body) = statement_loaded(Account { limite: 100000, saldo: -9098 }, vec![transaction(10), transaction(20)]);
    assert_eq!(status, HttpType::OK);
    match body {
        ResponseBody::Statement(s) => {
            assert_eq!(s.saldo.total, -9098);
            assert_eq!(s.saldo.limite, 100000);
            assert_eq!(s.ultimas_transacoes, vec![transaction(10), transaction(20)]);
            assert!(s.saldo.data_extrato.nanos < 2_000_000_000);
        }
        other => panic!("unexpected {:?}", other),
    }
}

#[test]
fn statement_repository_takes_given_time() {
    let now = LocalTime { seconds: 1_705_458_881, nanos: 217_753_000, offset_seconds: -10_800 };
    let s = StatementRepository.get_statement_by_id(Account { limite: 1, saldo: 0 }, Vec::new(), now);
    assert_eq!(s.saldo, BalanceResponse { total: 0, data_extrato: now, limite: 1 });
    assert!(s.ultimas_transacoes.is_empty());
}

#[test]
fn statement_at_carries_time() {
    let now = LocalTime { seconds: 5, nanos: 0, offset_seconds: 0 };
    let (status, body) = statement_at(Account { limite: 7, saldo: -3 }, vec![transaction(1)], now);
    assert_eq!(status, HttpType::OK);
    match body {
        ResponseBody::Statement(s) => {
            assert_eq!(s.saldo, BalanceResponse { total: -3, data_extrato: now, limite: 7 });
            assert_eq!(s.ultimas_transacoes, vec![transaction(1)]);
        }
        other => panic!("unexpected {:?}", other),
    }
}

#[test]
fn statement_loaded_reads_the_clock() {
    let (_, body) = statement_loaded(Account { limite: 1, saldo: 0 }, Vec::new());
    match body {
        ResponseBody::Statement(s) => assert!(s.saldo.data_extrato.seconds > 1_600_000_000),
        other => panic!("unexpected {:?}", other),
    }
}

#[test]
fn account_row_maps_to_account() {
    assert_eq!(
        AccountRepository.account_from_row(Some((100000, -50))),
        Ok(Account { limite: 100000, saldo: -50 })
    );
    assert_eq!(AccountRepository.account_from_row(None), Err(AccountRepositoryError::AccountNotFound));
}

#[test]
fn unknown_request_is_bad_request() {
    assert_eq!(bad_request(), (HttpType::BadRequest, ResponseBody::Message("Bad Request")));
}

#[test]
fn failed_query_lists_no_transactions() {
    assert!(TransactionRepository.latest_transactions(None).is_empty());
    assert_eq!(TransactionRepository.latest_transactions(Some(vec![transaction(1)])), vec![transaction(1)]);
}

#[test]
fn response_text_has_status_and_body() {
    assert_eq!(
        http_response(HttpType::UnprocessableEntity, "{\"message\":\"x\"}"),
        "HTTP/1.1 422\r\nContent-Type: application/json\r\n\r\n{\"message\":\"x\"}"
    );
    assert_eq!(http_response(HttpType::OK, ""), "HTTP/1.1 200\r\nContent-Type: application/json\r\n\r\n");
}

#[test]
fn http_type_codes_and_names() {
    assert_eq!(HttpType::OK.code(), 200);
    assert_eq!(HttpType::BadRequest.code(), 400);
    assert_eq!(HttpType::NotFound.code(), 404);
    assert_eq!(HttpType::InternalError.code(), 500);
    assert_eq!(HttpType::UnprocessableEntity.code(), 422);
    assert_eq!(HttpType::OK.to_string(), "Ok");
    assert_eq!(HttpType::UnprocessableEntity.to_string(), "UnprocessableEntity");
    assert_eq!(HttpType::NotFound.code_str(), "404");
}

#[test]
fn queue_is_first_in_first_out() {
    let mut q: Queue<u32> = Queue::default();
    assert!(q.is_empty());
    q.push_front(1);
    q.push_front(2);
    q.push_front(3);
    assert_eq!(q.len(), 3);
    assert_eq!(q.pop_back(), 1);
    q.push_front(4);
    assert_eq!(q.pop_back(), 2);
    assert_eq!(q.pop_back(), 3);
    assert_eq!(q.pop_back(), 4);
    assert!(q.is_empty());
}
