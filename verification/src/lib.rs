pub mod endpoint;
pub mod err_json;
pub mod json;
pub mod language;
pub mod request;
pub mod response;
