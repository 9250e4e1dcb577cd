pub mod addressing;
pub mod decode;
pub mod instruction;
pub mod register;
pub mod rex;
