pub mod transaction_request;
