use rinha_bank::controllers::transaction_controller::{
    account_loaded, controller, credit_service, debit_service, transaction_stored,
    transaction_validity, utf8_byte_len, PendingTransaction, TransactionStep, TransactionValidity,
};
use rinha_bank::dto::requests::transaction_request::TransactionRequest;
use rinha_bank::dto::responses::transaction_response::TransactionResponse;
use rinha_bank::http_status::http_response::ResponseBody;
use rinha_bank::http_status::http_type::HttpType;
use rinha_bank::model::account::Account;
use rinha_bank::repositories::account_repository::AccountRepositoryError;
use rinha_bank::repositories::transaction_repository::{
    Settlement, TransactionRepository, TransactionRepositoryError,
};

fn request(valor: i32, tipo: &str, descricao: &str) -> TransactionRequest {
    TransactionRequest { valor, tipo: tipo.to_string(), descricao: descricao.to_string() }
}

const URL: &str = "POST /clientes/1/transacoes HTTP/1.1\r\n";

#[test]
fn validity_accepts_credit_and_debit() {
    assert_eq!(transaction_validity(&request(0, "c", "x")), (TransactionValidity::Valid, "Valid"));
    assert_eq!(
        transaction_validity(&request(1000, "d", "0123456789")),
        (TransactionValidity::Valid, "Valid")
    );
}

#[test]
fn validity_refuses_negative_value() {
    assert_eq!(
        transaction_validity(&request(-1, "x", "")),
        (TransactionValidity::InvalidValue, "Valor deve ser maior que 0")
    );
}

#[test]
fn validity_refuses_unknown_type() {
    assert_eq!(
        transaction_validity(&request(1, "cd", "")),
        (TransactionValidity::InvalidType, "Tipo da transacao deve ser c ou d")
    );
    assert_eq!(
        transaction_validity(&request(1, "C", "abc")),
        (TransactionValidity::InvalidType, "Tipo da transacao deve ser c ou d")
    );
}

#[test]
fn validity_refuses_bad_description() {
    let expected = (TransactionValidity::InvalidDescription, "Descricao deve ser de 1 a 10 caracteres");
    assert_eq!(transaction_validity(&request(1, "c", "")), expected);
    assert_eq!(transaction_validity(&request(1, "c", "01234567890")), expected);
}

#[test]
fn description_length_counts_bytes() {
    assert_eq!(utf8_byte_len(&"a\u{e7}\u{e3}o".to_string()), 6);
    assert_eq!(utf8_byte_len(&"\u{1f600}".to_string()), 4);
    assert_eq!(utf8_byte_len(&String::new()), 0);
    // eight characters, eleven bytes: refused
    assert_eq!(
        transaction_validity(&request(1, "c", "transa\u{e7}\u{e3}\u{e9}")).0,
        TransactionValidity::InvalidDescription
    );
    assert_eq!(transaction_validity(&request(1, "c", "a\u{e7}\u{e3}o")).0, TransactionValidity::Valid);
}

#[test]
fn controller_refuses_other_paths() {
    assert_eq!(
        controller("POST /clientes/1/outra HTTP/1.1", Some(request(1, "c", "a"))),
        TransactionStep::Respond(HttpType::BadRequest, ResponseBody::Message("Bad Request"))
    );
}

#[test]
fn controller_unknown_id_is_not_found() {
    assert_eq!(
        controller("POST /clientes/x/transacoes HTTP/1.1", Some(request(1, "c", "a"))),
        TransactionStep::Respond(HttpType::NotFound, ResponseBody::Message("Id not found"))
    );
}

#[test]
fn controller_unreadable_body_is_bad_request() {
    assert_eq!(
        controller(URL, None),
        TransactionStep::Respond(
            HttpType::BadRequest,
            ResponseBody::Message("Todos os campos sao obrigat\u{f3}rios")
        )
    );
}

#[test]
fn controller_invalid_body_answers_its_message() {
    assert_eq!(
        controller(URL, Some(request(-5, "c", "a"))),
        TransactionStep::Respond(
            HttpType::BadRequest,
            ResponseBody::Message("Valor deve ser maior que 0")
        )
    );
}

#[test]
fn controller_valid_request_fetches_account() {
    assert_eq!(
        controller(URL, Some(request(10, "d", "pix"))),
        TransactionStep::FetchAccount(1, request(10, "d", "pix"))
    );
}

#[test]
fn missing_account_is_not_found() {
    assert_eq!(
        account_loaded(3, Err(AccountRepositoryError::AccountNotFound), request(10, "c", "a")),
        TransactionStep::Respond(HttpType::NotFound, ResponseBody::Message("Id not found"))
    );
}

#[test]
fn credit_is_always_stored() {
    let account = Account { limite: 100, saldo: -100 };
    let expected = TransactionStep::Store(PendingTransaction {
        id: 2,
        account,
        transaction: request(1_000_000, "c", "a"),
    });
    assert_eq!(credit_service(2, account, request(1_000_000, "c", "a")), expected);
    assert_eq!(account_loaded(2, Ok(account), request(1_000_000, "c", "a")), expected);
}

#[test]
fn debit_within_limit_is_stored() {
    let account = Account { limite: 1000, saldo: 0 };
    assert_eq!(
        debit_service(4, account, request(1000, "d", "a")),
        TransactionStep::Store(PendingTransaction {
            id: 4,
            account,
            transaction: request(1000, "d", "a")
        })
    );
}

#[test]
fn debit_over_limit_is_unprocessable() {
    let account = Account { limite: 1000, saldo: -500 };
    let refused = TransactionStep::Respond(
        HttpType::UnprocessableEntity,
        ResponseBody::Message("value is not within the limit"),
    );
    assert_eq!(debit_service(4, account, request(501, "d", "a")), refused);
    assert_eq!(account_loaded(4, Ok(account), request(501, "d", "a")), refused);
}

#[test]
fn unknown_type_after_account_is_unprocessable() {
    let account = Account { limite: 1000, saldo: 0 };
    assert_eq!(
        account_loaded(4, Ok(account), request(1, "x", "a")),
        TransactionStep::Respond(HttpType::UnprocessableEntity, ResponseBody::Message("undefined type"))
    );
}

#[test]
fn stored_transaction_answers_limit_and_balance_less_value() {
    let pending = PendingTransaction {
        id: 1,
        account: Account { limite: 100000, saldo: 500 },
        transaction: request(200, "c", "a"),
    };
    assert_eq!(
        transaction_stored(pending, Ok(())),
        (HttpType::OK, ResponseBody::Transaction(TransactionResponse { limite: 100000, saldo: 300 }))
    );
}

#[test]
fn failed_store_is_internal_error() {
    let pending = PendingTransaction {
        id: 1,
        account: Account { limite: 100000, saldo: 500 },
        transaction: request(200, "d", "a"),
    };
    assert_eq!(
        transaction_stored(pending, Err(TransactionRepositoryError::ErrorSaveTransaction)),
        (HttpType::InternalError, ResponseBody::Message("Internal server error"))
    );
}

#[test]
fn new_balance_by_kind() {
    let repo = TransactionRepository;
    assert_eq!(repo.new_balance(100, 30, &"c".to_string()), 130);
    assert_eq!(repo.new_balance(100, 30, &"d".to_string()), 70);
    assert_eq!(repo.new_balance(100, 30, &"x".to_string()), 0);
}

#[test]
fn credit_and_debit_of_same_value_cancel() {
    let repo = TransactionRepository;
    let after_credit = repo.new_balance(-250, 75, &"c".to_string());
    assert_eq!(repo.new_balance(after_credit, 75, &"d".to_string()), -250);
}

#[test]
fn recorded_debit_keeps_limit() {
    let account = Account { limite: 1000, saldo: -200 };
    let t = request(800, "d", "a");
    match account_loaded(9, Ok(account), t) {
        TransactionStep::Store(p) => {
            let b = TransactionRepository.new_balance(
                p.account.saldo,
                p.transaction.valor,
                &p.transaction.tipo,
            );
            assert_eq!(b, -1000);
            assert!(b >= -account.limite);
        }
        other => panic!("unexpected {:?}", other),
    }
}

#[test]
fn settlement_commits_only_when_both_writes_succeed() {
    let repo = TransactionRepository;
    assert_eq!(repo.settle(true, true), Settlement::Commit);
    assert_eq!(repo.settle(true, false), Settlement::Rollback);
    assert_eq!(repo.settle(false, true), Settlement::Rollback);
    assert_eq!(repo.settle(false, false), Settlement::Rollback);
}

#[test]
fn settled_results() {
    let repo = TransactionRepository;
    assert_eq!(repo.settled(Settlement::Commit, true), Ok(()));
    assert_eq!(
        repo.settled(Settlement::Commit, false),
        Err(TransactionRepositoryError::ErrorSaveTransaction)
    );
    assert_eq!(
        repo.settled(Settlement::Rollback, true),
        Err(TransactionRepositoryError::ErrorSaveTransaction)
    );
    assert_eq!(
        repo.settled(Settlement::Rollback, false),
        Err(TransactionRepositoryError::ErrorRoolback)
    );
}

#[test]
fn request_end_to_end_keeps_account_within_limit() {
    let account = Account { limite: 1000, saldo: -900 };
    let step = controller(URL, Some(request(100, "d", "fim")));
    let (id, t) = match step {
        TransactionStep::FetchAccount(id, t) => (id, t),
        other => panic!("unexpected {:?}", other),
    };
    match account_loaded(id, Ok(account), t) {
        TransactionStep::Store(p) => {
            assert_eq!(p.account, account);
            let b = TransactionRepository.new_balance(p.account.saldo, p.transaction.valor, &p.transaction.tipo);
            assert_eq!(b, -1000);
            assert!(b >= -account.limite);
        }
        other => panic!("unexpected {:?}", other),
    }
    let over = controller(URL, Some(request(101, "d", "fim")));
    if let TransactionStep::FetchAccount(id, t) = over {
        assert_eq!(
            account_loaded(id, Ok(account), t),
            TransactionStep::Respond(
                HttpType::UnprocessableEntity,
                ResponseBody::Message("value is not within the limit")
            )
        );
    } else {
        panic!("unexpected step");
    }
}

#[test]
fn failed_write_answers_500_even_where_balance_less_value_overflows() {
    let credit = PendingTransaction {
        id: 1,
        account: Account { limite: 0, saldo: i32::MIN },
        transaction: request(1, "c", "a"),
    };
    assert_eq!(
        transaction_stored(credit, Err(TransactionRepositoryError::ErrorSaveTransaction)),
        (HttpType::InternalError, ResponseBody::Message("Internal server error"))
    );
    let debit = PendingTransaction {
        id: 1,
        account: Account { limite: 0, saldo: i32::MAX },
        transaction: request(-1, "d", "a"),
    };
    assert_eq!(
        transaction_stored(debit, Err(TransactionRepositoryError::ErrorRoolback)),
        (HttpType::InternalError, ResponseBody::Message("Internal server error"))
    );
}
