pub mod http_response;
pub mod http_type;
