pub mod object;
pub mod relocation;
pub mod section;
pub mod symbol;
