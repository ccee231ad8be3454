pub mod balance_response;
pub mod extract_response;
pub mod statement_response;
pub mod transaction_extract_response;
pub mod transaction_response;
