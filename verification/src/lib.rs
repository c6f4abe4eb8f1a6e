pub mod divide;
pub mod fault;
