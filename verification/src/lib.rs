pub mod decode;
pub mod devices;
pub mod filter;
pub mod http;
pub mod record;
pub mod session;
pub mod tcp;
