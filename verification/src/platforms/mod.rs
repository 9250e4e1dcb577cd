pub mod amd64;
pub mod linux;
