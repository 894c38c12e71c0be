pub mod coordinator;
pub mod decimal;
pub mod history;
pub mod mapping;
pub mod movements;
pub mod operator;
pub mod session;
