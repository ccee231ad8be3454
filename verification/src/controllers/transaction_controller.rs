//! Handling of `POST /clientes/{id}/transacoes`: which requests are
//! refused, which reach the account, and what is answered.
use vstd::prelude::*;
use vstd::string::*;
use vstd::utf8::{
    char_is_scalar, encode_scalar, encode_utf8, has_width_1_encoding, has_width_2_encoding,
    has_width_3_encoding, has_width_4_encoding, is_scalar,
};
use crate::dto::requests::transaction_request::TransactionRequest;
use crate::dto::responses::transaction_response::TransactionResponse;
use crate::http_status::http_response::ResponseBody;
use crate::http_status::http_type::HttpType;
use crate::model::account::{fits_i32, Account};
use crate::repositories::account_repository::AccountRepositoryError;
use crate::repositories::transaction_repository::{
    balance_after, is_kind, TransactionRepositoryError,
};
use crate::text::{chars_of, contains, contains_seq};
use crate::{id_delimited, id_is_number, id_of};

verus! {

/// The outcome of checking a transaction request.
#[derive(Clone, Copy, Debug, PartialEq, Eq, Structural)]
pub enum TransactionValidity {
    InvalidValue,
    InvalidType,
    InvalidDescription,
    Valid,
}

/// The number of bytes of the UTF-8 encoding of `s`.
pub open spec fn utf8_len(s: Seq<char>) -> nat {
    encode_utf8(s).len()
}

/// The check of a transaction request, with its message: the amount must not
/// be negative, the kind must be `"c"` or `"d"`, and the description must be
/// 1 to 10 bytes long; the first rule broken decides.
pub open spec fn validity_of(t: TransactionRequest) -> (TransactionValidity, &'static str) {
    if t.valor < 0 {
        (TransactionValidity::InvalidValue, "Valor deve ser maior que 0")
    } else if t.tipo@ != seq!['c'] && t.tipo@ != seq!['d'] {
        (TransactionValidity::InvalidType, "Tipo da transacao deve ser c ou d")
    } else if t.descricao@.len() == 0 || utf8_len(t.descricao@) > 10 {
        (TransactionValidity::InvalidDescription, "Descricao deve ser de 1 a 10 caracteres")
    } else {
        (TransactionValidity::Valid, "Valid")
    }
}

/// The number of bytes of the UTF-8 encoding of a text.
pub fn utf8_byte_len(s: &String) -> (n: u128)
    ensures
        n == utf8_len(s@),
{
    let chars = chars_of(s.as_str());
    let mut i: usize = chars.len();
    assert(chars@.len() == i);
    let mut n: u128 = 0;
    assert(chars@.skip(i as int) =~= Seq::<char>::empty());
    while i > 0
        invariant
            0 <= i <= chars@.len(),
            chars@ == s@,
            chars@.len() <= usize::MAX,
            n == utf8_len(chars@.skip(i as int)),
            n <= 4 * (chars@.len() - i),
        decreases i,
    {
        let c = chars[i - 1];
        let u: u32 = c as u32;
        proof {
            assert(chars@.skip(i - 1).drop_first() =~= chars@.skip(i as int));
            assert(chars@.skip(i - 1)[0] == c);
        }
        let w: u128 = if u <= 0x7f {
            1
        } else if u <= 0x7ff {
            2
        } else if u <= 0xffff {
            3
        } else {
            4
        };
        proof {
            char_is_scalar(c);
            assert(is_scalar(u));
            if u <= 0x7f {
                assert(has_width_1_encoding(u));
            } else if u <= 0x7ff {
                assert(has_width_2_encoding(u));
            } else if u <= 0xffff {
                assert(has_width_3_encoding(u));
            } else {
                assert(has_width_4_encoding(u));
            }
            assert(w == encode_scalar(u).len());
        }
        n = n + w;
        i = i - 1;
    }
    assert(chars@.skip(0) =~= chars@);
    n
}

/// Checks a transaction request; the message goes into the answer.
pub fn transaction_validity(transaction: &TransactionRequest) -> (r: (
    TransactionValidity,
    &'static str,
))
    ensures
        r == validity_of(*transaction),
{
    if transaction.valor < 0 {
        (TransactionValidity::InvalidValue, "Valor deve ser maior que 0")
    } else if !is_kind(&transaction.tipo, 'c') && !is_kind(&transaction.tipo, 'd') {
        (TransactionValidity::InvalidType, "Tipo da transacao deve ser c ou d")
    } else if transaction.descricao.as_str().is_empty() || utf8_byte_len(&transaction.descricao)
        > 10 {
        (TransactionValidity::InvalidDescription, "Descricao deve ser de 1 a 10 caracteres")
    } else {
        (TransactionValidity::Valid, "Valid")
    }
}

/// A transaction that is to be recorded for an account.
#[derive(Debug, PartialEq)]
pub struct PendingTransaction {
    pub id: u32,
    pub account: Account,
    pub transaction: TransactionRequest,
}

/// What handling a transaction request does next.
#[derive(Debug, PartialEq)]
pub enum TransactionStep {
    /// Answer with this status and body; nothing is written.
    Respond(HttpType, ResponseBody),
    /// Read the account with this id, then go on with `account_loaded`.
    FetchAccount(u32, TransactionRequest),
    /// Record the transaction (with the balance `balance_after` gives), then
    /// answer with `transaction_stored`.
    Store(PendingTransaction),
}

/// The request line names the transactions of a client.
pub open spec fn transacoes_route(url: Seq<char>) -> bool {
    contains_seq(url, "/clientes/"@) && contains_seq(url, "/transacoes"@)
}

/// The first decision on a transaction request, given its request line and
/// its body as parsed (`None` where the body is not a transaction request).
pub open spec fn controller_step(url: Seq<char>, body: Option<TransactionRequest>) -> TransactionStep {
    if !transacoes_route(url) {
        TransactionStep::Respond(HttpType::BadRequest, ResponseBody::Message("Bad Request"))
    } else {
        match id_of(url) {
            None => TransactionStep::Respond(HttpType::NotFound, ResponseBody::Message("Id not found")),
            Some(id) => match body {
                None => TransactionStep::Respond(
                    HttpType::BadRequest,
                    ResponseBody::Message("Todos os campos sao obrigat\u{f3}rios"),
                ),
                Some(t) => if validity_of(t).0 == TransactionValidity::Valid {
                    TransactionStep::FetchAccount(id, t)
                } else {
                    TransactionStep::Respond(
                        HttpType::BadRequest,
                        ResponseBody::Message(validity_of(t).1),
                    )
                },
            },
        }
    }
}

/// A credit is always recorded.
pub open spec fn credit_step(id: u32, account: Account, t: TransactionRequest) -> TransactionStep {
    TransactionStep::Store(PendingTransaction { id, account, transaction: t })
}

/// A debit is recorded only where the balance plus the limit covers it.
pub open spec fn debit_step(id: u32, account: Account, t: TransactionRequest) -> TransactionStep {
    if account.saldo + account.limite >= t.valor {
        TransactionStep::Store(PendingTransaction { id, account, transaction: t })
    } else {
        TransactionStep::Respond(
            HttpType::UnprocessableEntity,
            ResponseBody::Message("value is not within the limit"),
        )
    }
}

/// The decision once the account has been looked up.
pub open spec fn account_step(
    id: u32,
    account: Result<Account, AccountRepositoryError>,
    t: TransactionRequest,
) -> TransactionStep {
    match account {
        Err(_) => TransactionStep::Respond(HttpType::NotFound, ResponseBody::Message("Id not found")),
        Ok(a) => if t.tipo@ == seq!['c'] {
            credit_step(id, a, t)
        } else if t.tipo@ == seq!['d'] {
            debit_step(id, a, t)
        } else {
            TransactionStep::Respond(
                HttpType::UnprocessableEntity,
                ResponseBody::Message("undefined type"),
            )
        },
    }
}

/// The answer once recording has been tried: on success the limit and the
/// balance less the amount (for a credit as for a debit), else an internal
/// error.
pub open spec fn stored_reply(
    pending: PendingTransaction,
    result: Result<(), TransactionRepositoryError>,
) -> (HttpType, ResponseBody) {
    match result {
        Ok(_) => (
            HttpType::OK,
            ResponseBody::Transaction(
                TransactionResponse {
                    limite: pending.account.limite,
                    saldo: (pending.account.saldo - pending.transaction.valor) as i32,
                },
            ),
        ),
        Err(_) => (HttpType::InternalError, ResponseBody::Message("Internal server error")),
    }
}

/// Only a valid transaction for the client that the request line names ever
/// reaches the account.
pub proof fn lemma_only_valid_requests_reach_accounts(url: Seq<char>, body: Option<TransactionRequest>)
    ensures
        controller_step(url, body) matches TransactionStep::FetchAccount(id, t) ==> {
            &&& transacoes_route(url)
            &&& id_of(url) == Some(id)
            &&& body == Some(t)
            &&& validity_of(t).0 == TransactionValidity::Valid
        },
{
}

/// A valid transaction is recorded exactly when it is a credit, or a debit
/// that the balance plus the limit covers; otherwise it is refused as
/// unprocessable and nothing is written.
pub proof fn lemma_recorded_exactly_when_covered(id: u32, account: Account, t: TransactionRequest)
    requires
        validity_of(t).0 == TransactionValidity::Valid,
    ensures
        account_step(id, Ok(account), t) is Store <==> (t.tipo@ == seq!['c'] || account.saldo
            + account.limite >= t.valor),
        !(account_step(id, Ok(account), t) is Store) ==> account_step(id, Ok(account), t)
            == TransactionStep::Respond(
            HttpType::UnprocessableEntity,
            ResponseBody::Message("value is not within the limit"),
        ),
{
    assert(seq!['c'] != seq!['d']) by {
        assert(seq!['c'][0] != seq!['d'][0]);
    }
}

/// Recording a valid transaction keeps an account within its limit: where
/// the balance was at least minus the limit, the balance written is too.
pub proof fn lemma_recording_keeps_limit(id: u32, account: Account, t: TransactionRequest)
    requires
        account.within_limit(),
        validity_of(t).0 == TransactionValidity::Valid,
        account_step(id, Ok(account), t) is Store,
    ensures
        balance_after(account.saldo, t.valor, t.tipo@) >= -account.limite,
{
    assert(seq!['c'] != seq!['d']) by {
        assert(seq!['c'][0] != seq!['d'][0]);
    }
}

/// Over a whole request: whatever the request line, the body and the
/// account read, a transaction is recorded only if it is valid, names the
/// account that was read, and leaves an account that was within its limit
/// still within it.
pub proof fn lemma_requests_keep_accounts_within_limit(
    url: Seq<char>,
    body: Option<TransactionRequest>,
    account: Result<Account, AccountRepositoryError>,
)
    ensures
        controller_step(url, body) matches TransactionStep::FetchAccount(id, t) ==> (account_step(
            id,
            account,
            t,
        ) matches TransactionStep::Store(p) ==> {
            &&& validity_of(p.transaction).0 == TransactionValidity::Valid
            &&& account == Ok::<Account, AccountRepositoryError>(p.account)
            &&& p.id == id
            &&& p.transaction == t
            &&& (p.account.within_limit() ==> balance_after(
                p.account.saldo,
                p.transaction.valor,
                p.transaction.tipo@,
            ) >= -p.account.limite)
        }),
{
    lemma_only_valid_requests_reach_accounts(url, body);
    if let TransactionStep::FetchAccount(id, t) = controller_step(url, body) {
        if let Ok(a) = account {
            if account_step(id, account, t) is Store && a.within_limit() {
                lemma_recording_keeps_limit(id, a, t);
            }
        }
    }
}

/// Once the account is read, a valid credit goes to the credit service and a
/// valid debit to the debit service.
pub proof fn lemma_valid_request_goes_to_its_service(
    url: Seq<char>,
    body: Option<TransactionRequest>,
    account: Account,
)
    ensures
        controller_step(url, body) matches TransactionStep::FetchAccount(id, t) ==> {
            &&& t.tipo@ == seq!['c'] ==> account_step(id, Ok(account), t) == credit_step(
                id,
                account,
                t,
            )
            &&& t.tipo@ == seq!['d'] ==> account_step(id, Ok(account), t) == debit_step(
                id,
                account,
                t,
            )
        },
{
    assert(seq!['c'] != seq!['d']) by {
        assert(seq!['c'][0] != seq!['d'][0]);
    }
}

/// A non-empty text has a non-empty UTF-8 encoding, and the empty text an
/// empty one.
proof fn lemma_utf8_len_zero(s: Seq<char>)
    ensures
        (encode_utf8(s).len() == 0) <==> (s.len() == 0),
{
    if s.len() > 0 {
        assert(encode_scalar(s[0] as u32).len() >= 1);
        assert(encode_utf8(s) == encode_scalar(s[0] as u32) + encode_utf8(s.drop_first()));
    }
}

/// The rules of a transaction request: it is valid exactly when the amount
/// is not negative, the kind is `"c"` or `"d"` and the description takes 1
/// to 10 bytes of UTF-8; nothing else about it matters.  Where it is not
/// valid, the first rule broken (amount, then kind, then description) gives
/// the outcome and its message.
pub proof fn lemma_validity_rules(t: TransactionRequest)
    ensures
        (validity_of(t).0 == TransactionValidity::Valid) <==> (t.valor >= 0 && (t.tipo@ == seq![
            'c',
        ] || t.tipo@ == seq!['d']) && 1 <= encode_utf8(t.descricao@).len() <= 10),
        validity_of(t).0 == TransactionValidity::Valid ==> validity_of(t).1 == "Valid",
        t.valor < 0 ==> validity_of(t) == (
            TransactionValidity::InvalidValue,
            "Valor deve ser maior que 0",
        ),
        t.valor >= 0 && t.tipo@ != seq!['c'] && t.tipo@ != seq!['d'] ==> validity_of(t) == (
            TransactionValidity::InvalidType,
            "Tipo da transacao deve ser c ou d",
        ),
        t.valor >= 0 && (t.tipo@ == seq!['c'] || t.tipo@ == seq!['d']) && !(1 <= encode_utf8(
            t.descricao@,
        ).len() <= 10) ==> validity_of(t) == (
            TransactionValidity::InvalidDescription,
            "Descricao deve ser de 1 a 10 caracteres",
        ),
{
    lemma_utf8_len_zero(t.descricao@);
}

/// Every first decision on a transaction request, in terms of the request
/// line, the client id it names and the body: a line that does not name
/// `/clientes/` and `/transacoes` is a bad request; a non-numeric id is not
/// found; an unreadable body is a bad request; a body that breaks a rule is a
/// bad request with that rule's message; and a body that keeps every rule
/// always goes on to read the named account.
pub proof fn lemma_controller_decisions(url: Seq<char>, body: Option<TransactionRequest>)
    ensures
        !(contains_seq(url, "/clientes/"@) && contains_seq(url, "/transacoes"@)) ==> controller_step(
            url,
            body,
        ) == TransactionStep::Respond(HttpType::BadRequest, ResponseBody::Message("Bad Request")),
        contains_seq(url, "/clientes/"@) && contains_seq(url, "/transacoes"@) && id_of(url) is None
            ==> controller_step(url, body) == TransactionStep::Respond(
            HttpType::NotFound,
            ResponseBody::Message("Id not found"),
        ),
        contains_seq(url, "/clientes/"@) && contains_seq(url, "/transacoes"@) && id_of(url) is Some
            && body is None ==> controller_step(url, body) == TransactionStep::Respond(
            HttpType::BadRequest,
            ResponseBody::Message("Todos os campos sao obrigat\u{f3}rios"),
        ),
        forall|id: u32, t: TransactionRequest|
            contains_seq(url, "/clientes/"@) && contains_seq(url, "/transacoes"@) && id_of(url)
                == Some(id) && body == Some(t) && t.valor >= 0 && (t.tipo@ == seq!['c'] || t.tipo@
                == seq!['d']) && 1 <= encode_utf8(t.descricao@).len() <= 10 ==> controller_step(
                url,
                body,
            ) == TransactionStep::FetchAccount(id, t),
        forall|t: TransactionRequest|
            contains_seq(url, "/clientes/"@) && contains_seq(url, "/transacoes"@) && id_of(url)
                is Some && body == Some(t) && validity_of(t).0 != TransactionValidity::Valid
                ==> controller_step(url, body) == TransactionStep::Respond(
                HttpType::BadRequest,
                ResponseBody::Message(validity_of(t).1),
            ),
{
    if let Some(t) = body {
        lemma_validity_rules(t);
    }
}

/// Every decision once the account has been read, in terms of the account
/// and the request: an unknown account is not found; a credit is always
/// recorded, for that client, account and request; a debit is recorded for
/// them exactly when the balance plus the limit covers the amount, and is
/// otherwise unprocessable; any other kind is unprocessable.
pub proof fn lemma_account_decisions(
    id: u32,
    account: Result<Account, AccountRepositoryError>,
    t: TransactionRequest,
)
    ensures
        account is Err ==> account_step(id, account, t) == TransactionStep::Respond(
            HttpType::NotFound,
            ResponseBody::Message("Id not found"),
        ),
        forall|a: Account|
            account == Ok::<Account, AccountRepositoryError>(a) && t.tipo@ == seq!['c']
                ==> account_step(id, account, t) == TransactionStep::Store(
                PendingTransaction { id, account: a, transaction: t },
            ),
        forall|a: Account|
            account == Ok::<Account, AccountRepositoryError>(a) && t.tipo@ == seq!['d'] && a.saldo
                + a.limite >= t.valor ==> account_step(id, account, t) == TransactionStep::Store(
                PendingTransaction { id, account: a, transaction: t },
            ),
        forall|a: Account|
            account == Ok::<Account, AccountRepositoryError>(a) && t.tipo@ == seq!['d'] && a.saldo
                + a.limite < t.valor ==> account_step(id, account, t) == TransactionStep::Respond(
                HttpType::UnprocessableEntity,
                ResponseBody::Message("value is not within the limit"),
            ),
        account is Ok && t.tipo@ != seq!['c'] && t.tipo@ != seq!['d'] ==> account_step(
            id,
            account,
            t,
        ) == TransactionStep::Respond(
            HttpType::UnprocessableEntity,
            ResponseBody::Message("undefined type"),
        ),
{
    assert(seq!['c'] != seq!['d']) by {
        assert(seq!['c'][0] != seq!['d'][0]);
    }
}

/// The answer to a recorded transaction shows the account's limit and its
/// balance less the amount; a failed write is an internal error.
pub proof fn lemma_stored_reply_shape(pending: PendingTransaction, result: Result<(), TransactionRepositoryError>)
    ensures
        result is Ok ==> stored_reply(pending, result).0 == HttpType::OK
            && stored_reply(pending, result).1 == ResponseBody::Transaction(
            TransactionResponse {
                limite: pending.account.limite,
                saldo: (pending.account.saldo - pending.transaction.valor) as i32,
            },
        ),
        result is Err ==> stored_reply(pending, result).0 == HttpType::InternalError,
{
}

/// The first decision on a transaction request: route, client id, body and
/// its validity.
pub fn controller(url: &str, body: Option<TransactionRequest>) -> (r: TransactionStep)
    requires
        transacoes_route(url@) ==> id_delimited(url@),
    ensures
        r == controller_step(url@, body),
{
    let chars = chars_of(url);
    if !(contains(&chars, &chars_of("/clientes/")) && contains(&chars, &chars_of("/transacoes"))) {
        return TransactionStep::Respond(HttpType::BadRequest, ResponseBody::Message("Bad Request"));
    }
    match id_is_number(url) {
        None => TransactionStep::Respond(HttpType::NotFound, ResponseBody::Message("Id not found")),
        Some(id) => match body {
            None => TransactionStep::Respond(
                HttpType::BadRequest,
                ResponseBody::Message("Todos os campos sao obrigat\u{f3}rios"),
            ),
            Some(transaction) => {
                let (validity, message) = transaction_validity(&transaction);
                match validity {
                    TransactionValidity::Valid => TransactionStep::FetchAccount(id, transaction),
                    _ => TransactionStep::Respond(
                        HttpType::BadRequest,
                        ResponseBody::Message(message),
                    ),
                }
            },
        },
    }
}

/// A credit: always recorded.
pub fn credit_service(id: u32, account: Account, transaction: TransactionRequest) -> (r:
    TransactionStep)
    ensures
        r == credit_step(id, account, transaction),
{
    TransactionStep::Store(PendingTransaction { id, account, transaction })
}

/// A debit: recorded where the balance plus the limit covers the amount,
/// refused otherwise.
pub fn debit_service(id: u32, account: Account, transaction: TransactionRequest) -> (r:
    TransactionStep)
    requires
        fits_i32(account.saldo + account.limite),
    ensures
        r == debit_step(id, account, transaction),
{
    if account.saldo + account.limite >= transaction.valor {
        TransactionStep::Store(PendingTransaction { id, account, transaction })
    } else {
        TransactionStep::Respond(
            HttpType::UnprocessableEntity,
            ResponseBody::Message("value is not within the limit"),
        )
    }
}

/// The decision once the account has been looked up: an unknown account is
/// not found; a credit or a debit goes to its service.
pub fn account_loaded(
    id: u32,
    account: Result<Account, AccountRepositoryError>,
    transaction: TransactionRequest,
) -> (r: TransactionStep)
    requires
        transaction.tipo@ == seq!['d'] ==> (account matches Ok(a) ==> fits_i32(
            a.saldo + a.limite,
        )),
    ensures
        r == account_step(id, account, transaction),
{
    match account {
        Err(_) => TransactionStep::Respond(HttpType::NotFound, ResponseBody::Message("Id not found")),
        Ok(a) => if is_kind(&transaction.tipo, 'c') {
            credit_service(id, a, transaction)
        } else if is_kind(&transaction.tipo, 'd') {
            debit_service(id, a, transaction)
        } else {
            TransactionStep::Respond(
                HttpType::UnprocessableEntity,
                ResponseBody::Message("undefined type"),
            )
        },
    }
}

/// The answer once recording a transaction has been tried.
pub fn transaction_stored(
    pending: PendingTransaction,
    result: Result<(), TransactionRepositoryError>,
) -> (r: (HttpType, ResponseBody))
    requires
        result is Ok ==> fits_i32(pending.account.saldo - pending.transaction.valor),
    ensures
        r == stored_reply(pending, result),
{
    match result {
        Ok(_) => (
            HttpType::OK,
            ResponseBody::Transaction(
                TransactionResponse {
                    limite: pending.account.limite,
                    saldo: pending.account.saldo - pending.transaction.valor,
                },
            ),
        ),
        Err(_) => (HttpType::InternalError, ResponseBody::Message("Internal server error")),
    }
}

} // verus!
