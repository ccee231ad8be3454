pub mod statement_controller;
pub mod transaction_controller;
