pub mod clob;
pub mod gamma;
pub mod resolve;
pub mod ws;
