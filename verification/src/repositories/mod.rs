pub mod account_repository;
pub mod statement_repository;
pub mod transaction_repository;
