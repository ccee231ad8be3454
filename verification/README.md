# rinha_bank

A small banking HTTP service: each client has an account with a balance and
a credit limit; `POST /clientes/{id}/transacoes` records a credit (`"c"`) or
a debit (`"d"`), and `GET /clientes/{id}/extrato` answers with a statement.

- `src/` is the verified library (Verus): request-line and header parsing,
  transaction validation, the decisions of both controllers as steps
  (answer now, read the account, record the transaction), the balance
  written for a transaction, the outcome of a database transaction, the
  response text, and a FIFO queue. Laws are proof functions beside the code
  they speak of (`transaction_controller.rs`, `transaction_repository.rs`,
  `queue.rs`).
- `app/` is the server: sockets, threads, the shared connection pool,
  PostgreSQL queries and JSON; it performs each step the library decides.
- `tests/` runs the library on concrete requests.
