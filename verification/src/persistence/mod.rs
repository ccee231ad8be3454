pub mod database;
pub mod statement_repository;
pub mod transaction_repository;
