pub mod json;
pub mod error;
pub mod envelope;
pub mod transport;
pub mod subscriber;
